//! OpenAI Chat Completions compatible client (OpenAI, OpenRouter, local compatible servers):
//! configuration, request headers, reply conversion and the streaming accumulator.
use vstd::prelude::*;

use crate::error::Error;
use crate::text::{
    chars_to_string, decimal, extend_with_str, push_decimal, push_str, str_eq, to_string,
};
use super::client::{AppConfig, LlmSource, source_from_config, strip_trailing_slashes, trim_trailing_slashes};
use super::anthropic::{message_pairs, tool_triples};
use super::types::{
    Message, ToolSpec,
    LlmResponse, StopReason, ToolCall, calls_option_matches, calls_or_none, calls_view,
    finish_reason_spec, finish_reason_to_stop_reason, or_empty,
};

verus! {

pub const DEFAULT_API_BASE: &'static str = "https://api.openai.com/v1";
pub const CHAT_PATH: &'static str = "/chat/completions";
pub const DEFAULT_MAX_TOKENS: u32 = 1024;
/// Tool-call indexes above this are ignored (a guard against huge allocations).
pub const MAX_TOOL_CALL_INDEX: u64 = 128;

/// OpenAI-compatible client settings; the HTTP client is supplied per call.
pub struct OpenAiCompatibleClient {
    api_base: String,
    model: String,
    api_key: String,
    max_tokens: u32,
    stream: bool,
}

/// The API base of a source: the default when the configured URL is empty, otherwise the
/// configured URL without trailing slashes.
pub open spec fn openai_base(api_url: Seq<char>) -> Seq<char> {
    if api_url.len() == 0 { DEFAULT_API_BASE@ } else { trim_trailing_slashes(api_url) }
}

impl OpenAiCompatibleClient {
    pub closed spec fn spec_model(&self) -> Seq<char> { self.model@ }
    pub closed spec fn spec_api_key(&self) -> Seq<char> { self.api_key@ }
    pub closed spec fn spec_max_tokens(&self) -> u32 { self.max_tokens }
    pub closed spec fn spec_api_base(&self) -> Seq<char> { self.api_base@ }
    pub closed spec fn spec_stream(&self) -> bool { self.stream }

    /// Client for the application's main LLM settings, not streaming.
    pub fn new(config: &AppConfig) -> (r: Self)
        ensures
            r.spec_model() == config.model@,
            r.spec_api_key() == config.api_key@,
            r.spec_max_tokens() == DEFAULT_MAX_TOKENS,
            r.spec_api_base() == openai_base(config.api_url@),
            !r.spec_stream(),
    {
        let source = source_from_config(config);
        Self::from_source(&source, false)
    }

    /// Client for one source; a source without a token limit gets the default one.
    pub fn from_source(source: &LlmSource, stream: bool) -> (r: Self)
        ensures
            r.spec_model() == source.model@,
            r.spec_api_key() == source.api_key@,
            r.spec_max_tokens() == match source.max_tokens { Some(m) => m, None => DEFAULT_MAX_TOKENS },
            r.spec_api_base() == openai_base(source.api_url@),
            r.spec_stream() == stream,
    {
        let api_base = if source.api_url.as_str().is_empty() {
            to_string(DEFAULT_API_BASE)
        } else {
            strip_trailing_slashes(source.api_url.as_str())
        };
        OpenAiCompatibleClient {
            api_base,
            model: source.model.clone(),
            api_key: source.api_key.clone(),
            max_tokens: match source.max_tokens { Some(m) => m, None => DEFAULT_MAX_TOKENS },
            stream,
        }
    }

    pub fn model(&self) -> (r: &String)
        ensures r@ == self.spec_model(),
    {
        &self.model
    }

    pub fn max_tokens(&self) -> (r: u32)
        ensures r == self.spec_max_tokens(),
    {
        self.max_tokens
    }

    pub fn stream(&self) -> (r: bool)
        ensures r == self.spec_stream(),
    {
        self.stream
    }

    /// The chat completions URL: the API base followed by `/chat/completions`.
    pub fn chat_url(&self) -> (r: String)
        ensures
            r@ == self.spec_api_base() + CHAT_PATH@,
    {
        let mut u = self.api_base.clone();
        push_str(&mut u, CHAT_PATH);
        u
    }

    /// Request headers for a body of `body_len` bytes; the bearer token comes first and only
    /// when an API key is set.
    pub fn request_headers(&self, body_len: usize) -> (r: Vec<(String, String)>)
        ensures
            self.spec_api_key().len() > 0 ==> {
                &&& r@.len() == 3
                &&& r@[0].0@ == "Authorization"@ && r@[0].1@ == "Bearer "@ + self.spec_api_key()
                &&& r@[1].0@ == "Content-Type"@ && r@[1].1@ == "application/json"@
                &&& r@[2].0@ == "Content-Length"@ && r@[2].1@ == decimal(body_len as nat)
            },
            self.spec_api_key().len() == 0 ==> {
                &&& r@.len() == 2
                &&& r@[0].0@ == "Content-Type"@ && r@[0].1@ == "application/json"@
                &&& r@[1].0@ == "Content-Length"@ && r@[1].1@ == decimal(body_len as nat)
            },
    {
        let mut cl: Vec<char> = Vec::new();
        push_decimal(&mut cl, body_len as u64);
        let mut h: Vec<(String, String)> = Vec::new();
        if !self.api_key.as_str().is_empty() {
            let mut auth = to_string("Bearer ");
            push_str(&mut auth, self.api_key.as_str());
            h.push((to_string("Authorization"), auth));
        }
        h.push((to_string("Content-Type"), to_string("application/json")));
        h.push((to_string("Content-Length"), chars_to_string(&cl)));
        h
    }
}

/// One tool call of a (non-streaming) reply; a call without `function` is dropped.
#[derive(Debug)]
pub struct OpenAiToolCall {
    pub id: Option<String>,
    pub function: Option<OpenAiToolCallFunction>,
}

#[derive(Debug)]
pub struct OpenAiToolCallFunction {
    pub name: Option<String>,
    pub arguments: Option<String>,
}

/// The first choice of a (non-streaming) reply.
#[derive(Debug)]
pub struct OpenAiChoice {
    pub content: Option<String>,
    pub finish_reason: Option<String>,
    pub tool_calls: Option<Vec<OpenAiToolCall>>,
}

/// The tool calls of a reply that carry a function: missing id and name are empty, missing
/// arguments are `{}`.
pub open spec fn reply_calls(tcs: Seq<OpenAiToolCall>) -> Seq<(Seq<char>, Seq<char>, Seq<char>)>
    decreases tcs.len(),
{
    if tcs.len() == 0 {
        Seq::empty()
    } else {
        let prev = reply_calls(tcs.drop_last());
        let tc = tcs.last();
        match tc.function {
            Some(f) => prev.push((or_empty(tc.id), or_empty(f.name), match f.arguments { Some(a) => a@, None => "{}"@ })),
            None => prev,
        }
    }
}

pub open spec fn opt_view(o: Option<String>) -> Option<Seq<char>> {
    match o {
        Some(s) => Some(s@),
        None => None,
    }
}

/// The reply of the first choice: its content (empty when absent), the stop reason of its
/// finish reason, and the tool calls that carry a function.
pub fn choice_to_response(choice: OpenAiChoice) -> (r: LlmResponse)
    ensures
        r.content@ == or_empty(choice.content),
        r.stop_reason == finish_reason_spec(opt_view(choice.finish_reason)),
        calls_option_matches(r.tool_calls, match choice.tool_calls { Some(v) => reply_calls(v@), None => Seq::empty() }),
{
    let content = match &choice.content { Some(c) => c.clone(), None => String::new() };
    let stop_reason = match &choice.finish_reason {
        Some(f) => finish_reason_to_stop_reason(Some(f.as_str())),
        None => finish_reason_to_stop_reason(None),
    };
    let mut out: Vec<ToolCall> = Vec::new();
    match &choice.tool_calls {
        Some(tcs) => {
            let mut i: usize = 0;
            while i < tcs.len()
                invariant
                    i <= tcs.len(),
                    calls_view(out@) == reply_calls(tcs@.take(i as int)),
                decreases tcs.len() - i,
            {
                let tc = &tcs[i];
                assert(tcs@.take(i as int + 1).drop_last() == tcs@.take(i as int));
                let ghost before = out@;
                match &tc.function {
                    Some(f) => {
                        let id = match &tc.id { Some(s) => s.clone(), None => String::new() };
                        let name = match &f.name { Some(s) => s.clone(), None => String::new() };
                        let input = match &f.arguments { Some(s) => s.clone(), None => to_string("{}") };
                        out.push(ToolCall { id, name, input });
                        assert(calls_view(out@) =~= calls_view(before).push((or_empty(tc.id), or_empty(f.name), match f.arguments { Some(a) => a@, None => "{}"@ })));
                    },
                    None => {},
                }
                i = i + 1;
            }
            assert(tcs@.take(tcs.len() as int) == tcs@);
        },
        None => {
            assert(calls_view(out@) =~= Seq::<(Seq<char>, Seq<char>, Seq<char>)>::empty());
        },
    }
    LlmResponse { content, stop_reason, tool_calls: calls_or_none(out) }
}

/// Error of a reply without choices.
pub fn no_choices_error() -> (r: Error)
    ensures
        r is Other && crate::error::error_stage(r) == "llm_parse",
{
    Error::Other { stage: "llm_parse", message: to_string("openai response has no choices") }
}

/// One tool-call delta of a streamed chunk (`index` defaults to 0).
#[derive(Debug)]
pub struct OpenAiToolCallDelta {
    pub index: u64,
    pub id: Option<String>,
    pub name: Option<String>,
    pub arguments: Option<String>,
}

/// The delta of one streamed choice.
#[derive(Debug)]
pub struct OpenAiStreamDelta {
    pub content: Option<String>,
    pub tool_calls: Option<Vec<OpenAiToolCallDelta>>,
}

/// One streamed choice.
#[derive(Debug)]
pub struct OpenAiStreamChoice {
    pub finish_reason: Option<String>,
    pub delta: Option<OpenAiStreamDelta>,
}

/// One streamed chunk; `choices` is `None` when the chunk has no choices array.
#[derive(Debug)]
pub struct OpenAiStreamChunk {
    pub choices: Option<Vec<OpenAiStreamChoice>>,
}

/// The accumulated stream: text, stop reason and tool calls by index as (id, name, arguments).
pub struct OpenAiAcc {
    pub content: Seq<char>,
    pub stop_reason: StopReason,
    pub calls: Seq<(Seq<char>, Seq<char>, Seq<char>)>,
}

pub open spec fn empty_call() -> (Seq<char>, Seq<char>, Seq<char>) {
    (Seq::empty(), Seq::empty(), Seq::empty())
}

/// What one tool-call delta does: indexes over the limit are ignored; the list grows with empty
/// calls up to the index; the id is replaced, name and arguments are appended.
pub open spec fn tool_delta_step(calls: Seq<(Seq<char>, Seq<char>, Seq<char>)>, tc: OpenAiToolCallDelta) -> Seq<(Seq<char>, Seq<char>, Seq<char>)> {
    if tc.index > MAX_TOOL_CALL_INDEX {
        calls
    } else {
        let idx = tc.index as int;
        let grown = if calls.len() <= idx { calls + Seq::new((idx + 1 - calls.len()) as nat, |k: int| empty_call()) } else { calls };
        let b = grown[idx];
        grown.update(idx, (match tc.id { Some(s) => s@, None => b.0 }, b.1 + or_empty(tc.name), b.2 + or_empty(tc.arguments)))
    }
}

pub open spec fn tool_deltas(calls: Seq<(Seq<char>, Seq<char>, Seq<char>)>, tcs: Seq<OpenAiToolCallDelta>) -> Seq<(Seq<char>, Seq<char>, Seq<char>)>
    decreases tcs.len(),
{
    if tcs.len() == 0 { calls } else { tool_delta_step(tool_deltas(calls, tcs.drop_last()), tcs.last()) }
}

/// What one choice does, and the text delta it yields (if any).
pub open spec fn choice_step(a: OpenAiAcc, c: OpenAiStreamChoice) -> (OpenAiAcc, Option<Seq<char>>) {
    let stop = match c.finish_reason { Some(fr) => finish_reason_spec(Some(fr@)), None => a.stop_reason };
    match c.delta {
        None => (OpenAiAcc { stop_reason: stop, ..a }, None),
        Some(d) => (
            OpenAiAcc {
                content: a.content + or_empty(d.content),
                stop_reason: stop,
                calls: match d.tool_calls { Some(v) => tool_deltas(a.calls, v@), None => a.calls },
            },
            opt_view(d.content),
        ),
    }
}

/// What the choices of a chunk do, in order; the returned delta is that of the last choice that
/// carried text.
pub open spec fn choices_step(a: OpenAiAcc, cs: Seq<OpenAiStreamChoice>) -> (OpenAiAcc, Option<Seq<char>>)
    decreases cs.len(),
{
    if cs.len() == 0 {
        (a, None)
    } else {
        let (a1, d1) = choices_step(a, cs.drop_last());
        let (a2, d2) = choice_step(a1, cs.last());
        (a2, if d2 is Some { d2 } else { d1 })
    }
}

pub open spec fn chunk_step(a: OpenAiAcc, ch: OpenAiStreamChunk) -> (OpenAiAcc, Option<Seq<char>>) {
    match ch.choices {
        None => (a, None),
        Some(cs) => choices_step(a, cs@),
    }
}

/// A tool call builder: id, name and the arguments gathered so far.
pub struct OpenAiToolCallBuilder {
    pub id: String,
    pub name: String,
    pub arguments: String,
}

pub open spec fn oa_builder_view(b: OpenAiToolCallBuilder) -> (Seq<char>, Seq<char>, Seq<char>) {
    (b.id@, b.name@, b.arguments@)
}

/// Streaming accumulator for OpenAI chunks.
pub struct OpenAiStreamAccumulator {
    content: String,
    stop_reason: StopReason,
    tool_calls: Vec<OpenAiToolCallBuilder>,
}

/// The finished tool calls: those with a name, an empty argument text becoming `{}`.
pub open spec fn finished_calls(calls: Seq<(Seq<char>, Seq<char>, Seq<char>)>) -> Seq<(Seq<char>, Seq<char>, Seq<char>)>
    decreases calls.len(),
{
    if calls.len() == 0 {
        Seq::empty()
    } else {
        let prev = finished_calls(calls.drop_last());
        let c = calls.last();
        if c.1.len() == 0 { prev } else { prev.push((c.0, c.1, if c.2.len() == 0 { "{}"@ } else { c.2 })) }
    }
}

/// A tool-call delta touches only the call at its index: the list grows to hold that index
/// (new calls start empty), the call there gets the delta's id (when it carries one) and its
/// name and argument pieces appended, and every other call stays as it was. A delta over the
/// index limit changes nothing.
pub proof fn lemma_tool_delta_by_index(calls: Seq<(Seq<char>, Seq<char>, Seq<char>)>, tc: OpenAiToolCallDelta)
    ensures
        tc.index > MAX_TOOL_CALL_INDEX ==> tool_delta_step(calls, tc) == calls,
        tc.index <= MAX_TOOL_CALL_INDEX ==> {
            let r = tool_delta_step(calls, tc);
            let i = tc.index as int;
            let before = if i < calls.len() { calls[i] } else { empty_call() };
            &&& r.len() == if i < calls.len() { calls.len() as int } else { i + 1 }
            &&& forall|j: int| 0 <= j < r.len() && j != i ==>
                #[trigger] r[j] == if j < calls.len() { calls[j] } else { empty_call() }
            &&& r[i].0 == (match tc.id { Some(s) => s@, None => before.0 })
            &&& r[i].1 == before.1 + or_empty(tc.name)
            &&& r[i].2 == before.2 + or_empty(tc.arguments)
        },
{
}

/// The finished reply keeps only named calls, at most one per gathered call, and gives a call
/// without arguments the empty object `{}`.
pub proof fn lemma_finished_calls_named(calls: Seq<(Seq<char>, Seq<char>, Seq<char>)>)
    ensures
        finished_calls(calls).len() <= calls.len(),
        forall|j: int| 0 <= j < finished_calls(calls).len() ==> (#[trigger] finished_calls(calls)[j]).1.len() > 0
            && finished_calls(calls)[j].2.len() > 0,
        (forall|j: int| 0 <= j < calls.len() ==> (#[trigger] calls[j]).1.len() > 0) ==> finished_calls(calls).len() == calls.len(),
    decreases calls.len(),
{
    reveal_strlit("{}");
    if calls.len() > 0 {
        lemma_finished_calls_named(calls.drop_last());
        if forall|j: int| 0 <= j < calls.len() ==> (#[trigger] calls[j]).1.len() > 0 {
            assert forall|j: int| 0 <= j < calls.drop_last().len() implies (#[trigger] calls.drop_last()[j]).1.len() > 0 by {
                assert(calls.drop_last()[j] == calls[j]);
            }
            assert(calls[calls.len() - 1].1.len() > 0);
        }
    }
}

impl OpenAiStreamAccumulator {
    pub closed spec fn acc(&self) -> OpenAiAcc {
        OpenAiAcc {
            content: self.content@,
            stop_reason: self.stop_reason,
            calls: self.tool_calls@.map_values(|b: OpenAiToolCallBuilder| oa_builder_view(b)),
        }
    }

    pub fn new() -> (r: Self)
        ensures
            r.acc().content == Seq::<char>::empty(),
            r.acc().stop_reason == StopReason::Other,
            r.acc().calls == Seq::<(Seq<char>, Seq<char>, Seq<char>)>::empty(),
    {
        let r = OpenAiStreamAccumulator { content: String::new(), stop_reason: StopReason::Other, tool_calls: Vec::new() };
        assert(r.acc().calls =~= Seq::<(Seq<char>, Seq<char>, Seq<char>)>::empty());
        r
    }

    /// The text gathered so far.
    pub fn content(&self) -> (r: &String)
        ensures
            r@ == self.acc().content,
    {
        &self.content
    }

    fn apply_tool_delta(&mut self, tc: &OpenAiToolCallDelta)
        ensures
            final(self).acc() == (OpenAiAcc { calls: tool_delta_step(old(self).acc().calls, *tc), ..old(self).acc() }),
    {
        if tc.index > MAX_TOOL_CALL_INDEX {
            return;
        }
        let idx = tc.index as usize;
        let ghost calls0 = self.acc().calls;
        while self.tool_calls.len() <= idx
            invariant
                idx <= MAX_TOOL_CALL_INDEX,
                calls0.len() <= idx ==> self.acc().calls == calls0 + Seq::new((self.tool_calls.len() - calls0.len()) as nat, |k: int| empty_call()),
                calls0.len() > idx ==> self.acc().calls == calls0,
                self.tool_calls.len() >= calls0.len(),
                self.tool_calls.len() <= idx + 1 || self.tool_calls.len() == calls0.len(),
                self.acc().content == old(self).acc().content,
                self.acc().stop_reason == old(self).acc().stop_reason,
            decreases idx + 1 - self.tool_calls.len(),
        {
            let ghost before = self.acc().calls;
            let ghost n0 = (self.tool_calls.len() - calls0.len()) as nat;
            self.tool_calls.push(OpenAiToolCallBuilder { id: String::new(), name: String::new(), arguments: String::new() });
            assert(self.acc().calls =~= before.push(empty_call()));
            assert(Seq::new(n0 + 1, |k: int| empty_call()) =~= Seq::new(n0, |k: int| empty_call()).push(empty_call()));
            assert(calls0 + Seq::new(n0 + 1, |k: int| empty_call()) =~= (calls0 + Seq::new(n0, |k: int| empty_call())).push(empty_call()));
        }
        let ghost grown = self.acc().calls;
        assert(grown =~= if calls0.len() <= idx { calls0 + Seq::new((idx + 1 - calls0.len()) as nat, |k: int| empty_call()) } else { calls0 });
        let old_b = &self.tool_calls[idx];
        let mut nb = OpenAiToolCallBuilder {
            id: match &tc.id { Some(s) => s.clone(), None => old_b.id.clone() },
            name: old_b.name.clone(),
            arguments: old_b.arguments.clone(),
        };
        match &tc.name { Some(n) => push_str(&mut nb.name, n.as_str()), None => {} }
        match &tc.arguments { Some(a) => push_str(&mut nb.arguments, a.as_str()), None => {} }
        self.tool_calls.set(idx, nb);
        assert(self.acc().calls =~= tool_delta_step(calls0, *tc));
    }

    fn apply_choice(&mut self, c: &OpenAiStreamChoice) -> (r: Option<String>)
        ensures
            final(self).acc() == choice_step(old(self).acc(), *c).0,
            opt_view(r) == choice_step(old(self).acc(), *c).1,
    {
        match &c.finish_reason {
            Some(fr) => { self.stop_reason = finish_reason_to_stop_reason(Some(fr.as_str())); },
            None => {},
        }
        match &c.delta {
            None => None,
            Some(d) => {
                let ghost a1 = self.acc();
                let mut text: Option<String> = None;
                match &d.content {
                    Some(t) => {
                        push_str(&mut self.content, t.as_str());
                        text = Some(t.clone());
                    },
                    None => {},
                }
                match &d.tool_calls {
                    Some(v) => {
                        let ghost calls1 = self.acc().calls;
                        let mut i: usize = 0;
                        while i < v.len()
                            invariant
                                i <= v.len(),
                                self.acc().calls == tool_deltas(calls1, v@.take(i as int)),
                                self.acc().content == a1.content + or_empty(d.content),
                                self.acc().stop_reason == a1.stop_reason,
                            decreases v.len() - i,
                        {
                            assert(v@.take(i as int + 1).drop_last() == v@.take(i as int));
                            self.apply_tool_delta(&v[i]);
                            i = i + 1;
                        }
                        assert(v@.take(v.len() as int) == v@);
                    },
                    None => {},
                }
                text
            },
        }
    }

    /// Applies one decoded chunk; returns the text delta it carried, for progress callbacks.
    pub fn handle_value(&mut self, chunk: &OpenAiStreamChunk) -> (r: Option<String>)
        ensures
            final(self).acc() == chunk_step(old(self).acc(), *chunk).0,
            opt_view(r) == chunk_step(old(self).acc(), *chunk).1,
    {
        match &chunk.choices {
            None => None,
            Some(cs) => {
                let ghost a0 = self.acc();
                let mut delta: Option<String> = None;
                let mut i: usize = 0;
                while i < cs.len()
                    invariant
                        i <= cs.len(),
                        self.acc() == choices_step(a0, cs@.take(i as int)).0,
                        opt_view(delta) == choices_step(a0, cs@.take(i as int)).1,
                    decreases cs.len() - i,
                {
                    assert(cs@.take(i as int + 1).drop_last() == cs@.take(i as int));
                    let d = self.apply_choice(&cs[i]);
                    if d.is_some() {
                        delta = d;
                    }
                    i = i + 1;
                }
                assert(cs@.take(cs.len() as int) == cs@);
                delta
            },
        }
    }

    /// The reply of the finished stream; tool calls without a name are dropped.
    pub fn finish(self) -> (r: LlmResponse)
        ensures
            r.content@ == self.acc().content,
            r.stop_reason == self.acc().stop_reason,
            calls_option_matches(r.tool_calls, finished_calls(self.acc().calls)),
    {
        let ghost calls = self.acc().calls;
        let OpenAiStreamAccumulator { content, stop_reason, tool_calls } = self;
        let mut out: Vec<ToolCall> = Vec::new();
        let mut i: usize = 0;
        while i < tool_calls.len()
            invariant
                i <= tool_calls.len(),
                calls == tool_calls@.map_values(|b: OpenAiToolCallBuilder| oa_builder_view(b)),
                calls_view(out@) == finished_calls(calls.take(i as int)),
            decreases tool_calls.len() - i,
        {
            let b = &tool_calls[i];
            assert(calls.take(i as int + 1).drop_last() == calls.take(i as int));
            let ghost before = out@;
            if !b.name.as_str().is_empty() {
                let input = if b.arguments.as_str().is_empty() { to_string("{}") } else { b.arguments.clone() };
                out.push(ToolCall { id: b.id.clone(), name: b.name.clone(), input });
                assert(calls_view(out@) =~= calls_view(before).push((b.id@, b.name@, if b.arguments@.len() == 0 { "{}"@ } else { b.arguments@ })));
            }
            i = i + 1;
        }
        assert(calls.take(tool_calls.len() as int) == calls);
        LlmResponse { content, stop_reason, tool_calls: calls_or_none(out) }
    }
}

/// A function tool in an OpenAI request; `parameters` is JSON Schema text.
#[derive(Debug)]
pub struct OpenAiFunctionSpec {
    pub name: String,
    pub description: String,
    pub parameters: Option<String>,
}

/// A tool in an OpenAI request (`type` is always `function`).
#[derive(Debug)]
pub struct OpenAiTool {
    pub tool_type: String,
    pub function: OpenAiFunctionSpec,
}

/// An OpenAI Chat Completions request.
#[derive(Debug)]
pub struct OpenAiRequest {
    pub model: String,
    pub max_tokens: u32,
    pub messages: Vec<Message>,
    pub tools: Option<Vec<OpenAiTool>>,
    pub stream: Option<bool>,
}

/// The (name, description, schema) triples of request tools of type `function`.
pub open spec fn openai_tools_match(v: Seq<OpenAiTool>, t: Seq<ToolSpec>) -> bool {
    &&& v.len() == t.len()
    &&& forall|i: int| 0 <= i < v.len() ==> {
        &&& (#[trigger] v[i]).tool_type@ == "function"@
        &&& v[i].function.name@ == t[i].name@
        &&& v[i].function.description@ == t[i].description@
        &&& v[i].function.parameters matches Some(p) && p@ == t[i].parameters@
    }
}

impl OpenAiCompatibleClient {
    /// The request for one chat: the client's model and token limit, a `system` message
    /// first unless the system prompt is empty, then the messages as given, the tools as
    /// functions unless there are none, and the stream flag only when streaming.
    pub fn build_request(&self, system: &str, messages: &[Message], tools: Option<&[ToolSpec]>) -> (r: OpenAiRequest)
        ensures
            r.model@ == self.spec_model(),
            r.max_tokens == self.spec_max_tokens(),
            message_pairs(r.messages@) == (if system@.len() == 0 { Seq::empty() } else { seq![("system"@, system@)] })
                + message_pairs(messages@),
            match tools {
                Some(t) => if t@.len() == 0 { r.tools is None } else {
                    r.tools matches Some(v) && openai_tools_match(v@, t@)
                },
                None => r.tools is None,
            },
            r.stream == (if self.spec_stream() { Some(true) } else { None::<bool> }),
    {
        let mut msgs: Vec<Message> = Vec::new();
        let ghost head: Seq<(Seq<char>, Seq<char>)> = if system@.len() == 0 { Seq::empty() } else { seq![("system"@, system@)] };
        if !system.is_empty() {
            msgs.push(Message { role: to_string("system"), content: to_string(system) });
        }
        assert(message_pairs(msgs@) =~= head + message_pairs(messages@.take(0)));
        let mut i: usize = 0;
        while i < messages.len()
            invariant
                i <= messages@.len(),
                msgs@.len() == head.len() + i,
                message_pairs(msgs@) == head + message_pairs(messages@.take(i as int)),
            decreases messages.len() - i,
        {
            let m = &messages[i];
            let ghost prev = msgs@;
            msgs.push(Message { role: m.role.clone(), content: m.content.clone() });
            assert(messages@.take(i as int + 1) =~= messages@.take(i as int).push(messages@[i as int]));
            assert(msgs@ == prev.push(msgs@.last()));
            assert forall|j: int| 0 <= j < msgs@.len() implies #[trigger] message_pairs(msgs@)[j] == (head + message_pairs(messages@.take(i as int + 1)))[j] by {
                if j < msgs@.len() - 1 {
                    assert(message_pairs(prev)[j] == (head + message_pairs(messages@.take(i as int)))[j]);
                    assert(msgs@[j] == prev[j]);
                }
            }
            assert(message_pairs(msgs@) =~= head + message_pairs(messages@.take(i as int + 1)));
            i = i + 1;
        }
        assert(messages@.take(messages@.len() as int) =~= messages@);
        let tools_api = match tools {
            Some(t) => if t.len() == 0 {
                None
            } else {
                let mut v: Vec<OpenAiTool> = Vec::new();
                let mut k: usize = 0;
                while k < t.len()
                    invariant
                        k <= t@.len(),
                        openai_tools_match(v@, t@.take(k as int)),
                    decreases t.len() - k,
                {
                    let s = &t[k];
                    let ghost prev = v@;
                    proof {
                        reveal_strlit("function");
                    }
                    v.push(OpenAiTool {
                        tool_type: to_string("function"),
                        function: OpenAiFunctionSpec { name: s.name.clone(), description: s.description.clone(), parameters: Some(s.parameters.clone()) },
                    });
                    assert(t@.take(k as int + 1) =~= t@.take(k as int).push(t@[k as int]));
                    assert forall|j: int| 0 <= j < v@.len() implies {
                        &&& (#[trigger] v@[j]).tool_type@ == "function"@
                        &&& v@[j].function.name@ == t@.take(k as int + 1)[j].name@
                        &&& v@[j].function.description@ == t@.take(k as int + 1)[j].description@
                        &&& v@[j].function.parameters matches Some(p) && p@ == t@.take(k as int + 1)[j].parameters@
                    } by {
                        if j < k {
                            assert(v@[j] == prev[j]);
                            assert(t@.take(k as int + 1)[j] == t@.take(k as int)[j]);
                        }
                    }
                    k = k + 1;
                }
                assert(t@.take(t@.len() as int) =~= t@);
                Some(v)
            },
            None => None,
        };
        OpenAiRequest {
            model: self.model.clone(),
            max_tokens: self.max_tokens,
            messages: msgs,
            tools: tools_api,
            stream: if self.stream { Some(true) } else { None },
        }
    }
}

} // verus!
