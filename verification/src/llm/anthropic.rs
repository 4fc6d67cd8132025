//! Anthropic Messages API client: configuration, request headers and the streaming accumulator.
use vstd::prelude::*;

use crate::text::{
    chars_to_string, decimal, extend_with_str, push_decimal, push_str, str_eq, to_string, trim,
    trim_str,
};
use super::client::{AppConfig, LlmSource, source_from_config, strip_trailing_slashes, trim_trailing_slashes};
use super::types::{
    AnthropicRequest, AnthropicRequestMessage, AnthropicTool, Message, ToolSpec,
    LlmResponse, StopReason, ToolCall, anthropic_stop_reason, anthropic_stop_spec, calls_option_matches,
    calls_or_none, calls_view, or_empty,
};

verus! {

pub const API_BASE: &'static str = "https://api.anthropic.com/v1/messages";
pub const ANTHROPIC_VERSION: &'static str = "2023-06-01";
pub const DEFAULT_MAX_TOKENS: u32 = 1024;

/// Anthropic client settings; the HTTP client is supplied per call.
pub struct AnthropicClient {
    model: String,
    api_key: String,
    max_tokens: u32,
    api_base: String,
    stream: bool,
}

/// The Messages URL of a source: the default when the configured URL is blank, otherwise the
/// configured URL without trailing slashes.
pub open spec fn anthropic_base(api_url: Seq<char>) -> Seq<char> {
    if trim(api_url).len() == 0 { API_BASE@ } else { trim_trailing_slashes(api_url) }
}

impl AnthropicClient {
    pub closed spec fn spec_model(&self) -> Seq<char> { self.model@ }
    pub closed spec fn spec_api_key(&self) -> Seq<char> { self.api_key@ }
    pub closed spec fn spec_max_tokens(&self) -> u32 { self.max_tokens }
    pub closed spec fn spec_api_base(&self) -> Seq<char> { self.api_base@ }
    pub closed spec fn spec_stream(&self) -> bool { self.stream }

    /// Client for the application's main LLM settings, not streaming.
    pub fn new(config: &AppConfig) -> (r: Self)
        ensures
            r.spec_model() == config.model@,
            r.spec_api_key() == config.api_key@,
            r.spec_max_tokens() == DEFAULT_MAX_TOKENS,
            r.spec_api_base() == anthropic_base(config.api_url@),
            !r.spec_stream(),
    {
        let source = source_from_config(config);
        Self::from_source(&source, false)
    }

    /// Client for one source; a source without a token limit gets the default one.
    pub fn from_source(source: &LlmSource, stream: bool) -> (r: Self)
        ensures
            r.spec_model() == source.model@,
            r.spec_api_key() == source.api_key@,
            r.spec_max_tokens() == match source.max_tokens { Some(m) => m, None => DEFAULT_MAX_TOKENS },
            r.spec_api_base() == anthropic_base(source.api_url@),
            r.spec_stream() == stream,
    {
        let t = trim_str(source.api_url.as_str());
        let api_base = if t.len() == 0 {
            proof { reveal_strlit("https://api.anthropic.com/v1/messages"); }
            to_string(API_BASE)
        } else {
            strip_trailing_slashes(source.api_url.as_str())
        };
        AnthropicClient {
            model: source.model.clone(),
            api_key: source.api_key.clone(),
            max_tokens: match source.max_tokens { Some(m) => m, None => DEFAULT_MAX_TOKENS },
            api_base,
            stream,
        }
    }

    pub fn model(&self) -> (r: &String)
        ensures r@ == self.spec_model(),
    {
        &self.model
    }

    pub fn max_tokens(&self) -> (r: u32)
        ensures r == self.spec_max_tokens(),
    {
        self.max_tokens
    }

    pub fn api_base(&self) -> (r: &String)
        ensures r@ == self.spec_api_base(),
    {
        &self.api_base
    }

    pub fn stream(&self) -> (r: bool)
        ensures r == self.spec_stream(),
    {
        self.stream
    }

    /// Request headers for a body of `body_len` bytes.
    pub fn request_headers(&self, body_len: usize) -> (r: Vec<(String, String)>)
        ensures
            r@.len() == 4,
            r@[0].0@ == "x-api-key"@ && r@[0].1@ == self.spec_api_key(),
            r@[1].0@ == "anthropic-version"@ && r@[1].1@ == ANTHROPIC_VERSION@,
            r@[2].0@ == "content-type"@ && r@[2].1@ == "application/json"@,
            r@[3].0@ == "content-length"@ && r@[3].1@ == decimal(body_len as nat),
    {
        let mut cl: Vec<char> = Vec::new();
        push_decimal(&mut cl, body_len as u64);
        let mut h: Vec<(String, String)> = Vec::new();
        h.push((to_string("x-api-key"), self.api_key.clone()));
        h.push((to_string("anthropic-version"), to_string(ANTHROPIC_VERSION)));
        h.push((to_string("content-type"), to_string("application/json")));
        h.push((to_string("content-length"), chars_to_string(&cl)));
        h
    }
}

/// The kinds of Anthropic stream events that carry something for the reply.
#[derive(Clone, Copy, Debug, PartialEq, Eq, Structural)]
pub enum AnthropicEventKind {
    ContentBlockStart,
    ContentBlockDelta,
    MessageDelta,
    Other,
}

pub open spec fn event_kind_spec(t: Seq<char>) -> AnthropicEventKind {
    if t == "content_block_start"@ {
        AnthropicEventKind::ContentBlockStart
    } else if t == "content_block_delta"@ {
        AnthropicEventKind::ContentBlockDelta
    } else if t == "message_delta"@ {
        AnthropicEventKind::MessageDelta
    } else {
        AnthropicEventKind::Other
    }
}

/// Which data shape an SSE event of this type carries.
pub fn classify_event(event_type: &str) -> (r: AnthropicEventKind)
    ensures
        r == event_kind_spec(event_type@),
{
    if str_eq(event_type, "content_block_start") {
        AnthropicEventKind::ContentBlockStart
    } else if str_eq(event_type, "content_block_delta") {
        AnthropicEventKind::ContentBlockDelta
    } else if str_eq(event_type, "message_delta") {
        AnthropicEventKind::MessageDelta
    } else {
        AnthropicEventKind::Other
    }
}

/// The block announced by `content_block_start`.
#[derive(Debug)]
pub struct AnthropicStartBlock {
    pub block_type: String,
    pub id: Option<String>,
    pub name: Option<String>,
}

/// The delta of `content_block_delta`.
#[derive(Debug)]
pub struct AnthropicDelta {
    pub delta_type: String,
    pub text: Option<String>,
    pub partial_json: Option<String>,
}

/// A decoded Anthropic stream event (events whose data did not decode are `Ignored`).
#[derive(Debug)]
pub enum AnthropicStreamEvent {
    ContentBlockStart { content_block: Option<AnthropicStartBlock> },
    ContentBlockDelta { delta: Option<AnthropicDelta> },
    MessageDelta { stop_reason: Option<String> },
    Ignored,
}

/// The accumulated reply: text, stop reason and tool calls as (id, name, input JSON).
pub struct AnthropicAcc {
    pub content: Seq<char>,
    pub stop_reason: StopReason,
    pub calls: Seq<(Seq<char>, Seq<char>, Seq<char>)>,
}

/// What one event does to the accumulated reply, and the text delta it yields.
pub open spec fn anthropic_step(a: AnthropicAcc, ev: AnthropicStreamEvent) -> (AnthropicAcc, Option<Seq<char>>) {
    match ev {
        AnthropicStreamEvent::ContentBlockStart { content_block: Some(cb) } => if cb.block_type@ == "tool_use"@ {
            (AnthropicAcc { calls: a.calls.push((or_empty(cb.id), or_empty(cb.name), Seq::empty())), ..a }, None)
        } else {
            (a, None)
        },
        AnthropicStreamEvent::ContentBlockDelta { delta: Some(d) } => if d.delta_type@ == "text_delta"@ && d.text is Some {
            (AnthropicAcc { content: a.content + d.text->Some_0@, ..a }, Some(d.text->Some_0@))
        } else if d.delta_type@ == "input_json_delta"@ && d.partial_json is Some && a.calls.len() > 0 {
            let last = a.calls.last();
            (AnthropicAcc { calls: a.calls.update(a.calls.len() - 1, (last.0, last.1, last.2 + d.partial_json->Some_0@)), ..a }, None)
        } else {
            (a, None)
        },
        AnthropicStreamEvent::MessageDelta { stop_reason: Some(sr) } =>
            (AnthropicAcc { stop_reason: anthropic_stop_spec(sr@), ..a }, None),
        _ => (a, None),
    }
}

/// The event opens a `tool_use` content block.
pub open spec fn is_tool_use_start(ev: AnthropicStreamEvent) -> bool {
    ev matches AnthropicStreamEvent::ContentBlockStart { content_block: Some(cb) } && cb.block_type@ == "tool_use"@
}

/// Number of `tool_use` block starts among the events.
pub open spec fn tool_use_starts(evs: Seq<AnthropicStreamEvent>) -> nat
    decreases evs.len(),
{
    if evs.len() == 0 {
        0
    } else {
        tool_use_starts(evs.drop_last()) + if is_tool_use_start(evs.last()) { 1nat } else { 0nat }
    }
}

/// The accumulated reply after the events, one after the other.
pub open spec fn anthropic_run(a: AnthropicAcc, evs: Seq<AnthropicStreamEvent>) -> AnthropicAcc
    decreases evs.len(),
{
    if evs.len() == 0 {
        a
    } else {
        anthropic_step(anthropic_run(a, evs.drop_last()), evs.last()).0
    }
}

/// Only a `tool_use` block start opens a tool call, and it opens exactly one: any other block
/// start leaves the reply as it was, and no other event adds or removes a tool call.
pub proof fn lemma_step_tool_calls(a: AnthropicAcc, ev: AnthropicStreamEvent)
    ensures
        anthropic_step(a, ev).0.calls.len() == a.calls.len() + if is_tool_use_start(ev) { 1nat } else { 0nat },
        (ev is ContentBlockStart && !is_tool_use_start(ev)) ==> anthropic_step(a, ev) == (a, None::<Seq<char>>),
        is_tool_use_start(ev) ==> anthropic_step(a, ev).0.calls.drop_last() == a.calls
            && anthropic_step(a, ev).0.calls.last().2 == Seq::<char>::empty(),
{
    if is_tool_use_start(ev) {
        assert(anthropic_step(a, ev).0.calls.drop_last() =~= a.calls);
    }
}

/// Over a whole stream, the reply holds one tool call per `tool_use` block start and no other.
pub proof fn lemma_run_tool_calls(a: AnthropicAcc, evs: Seq<AnthropicStreamEvent>)
    ensures
        anthropic_run(a, evs).calls.len() == a.calls.len() + tool_use_starts(evs),
    decreases evs.len(),
{
    if evs.len() > 0 {
        lemma_run_tool_calls(a, evs.drop_last());
        lemma_step_tool_calls(anthropic_run(a, evs.drop_last()), evs.last());
    }
}

/// The reply finished from a stream that started empty carries one tool call per `tool_use`
/// block start, and none (`None`) when the stream opened no `tool_use` block.
pub proof fn lemma_finished_tool_calls(evs: Seq<AnthropicStreamEvent>, tool_calls: Option<Vec<ToolCall>>)
    requires
        ({
            let start = AnthropicAcc { content: Seq::empty(), stop_reason: StopReason::Other, calls: Seq::empty() };
            calls_option_matches(tool_calls, anthropic_run(start, evs).calls.map_values(|c: (Seq<char>, Seq<char>, Seq<char>)| finish_call(c)))
        }),
    ensures
        tool_calls is None <==> tool_use_starts(evs) == 0,
        tool_calls matches Some(v) ==> v@.len() == tool_use_starts(evs),
{
    let start = AnthropicAcc { content: Seq::empty(), stop_reason: StopReason::Other, calls: Seq::empty() };
    lemma_run_tool_calls(start, evs);
    if let Some(v) = tool_calls {
        assert(calls_view(v@).len() == v@.len());
    }
}

/// A tool call builder: id, name and the input JSON gathered so far.
pub struct ToolCallBuilder {
    pub id: String,
    pub name: String,
    pub input_json: String,
}

pub open spec fn builder_view(b: ToolCallBuilder) -> (Seq<char>, Seq<char>, Seq<char>) {
    (b.id@, b.name@, b.input_json@)
}

/// Streaming accumulator: joins text deltas and tool-call inputs into the final reply.
pub struct AnthropicStreamAccumulator {
    content: String,
    stop_reason: StopReason,
    tool_calls: Vec<ToolCallBuilder>,
}

/// A finished tool call: an empty input becomes `{}`.
pub open spec fn finish_call(c: (Seq<char>, Seq<char>, Seq<char>)) -> (Seq<char>, Seq<char>, Seq<char>) {
    (c.0, c.1, if c.2.len() == 0 { "{}"@ } else { c.2 })
}

impl AnthropicStreamAccumulator {
    pub closed spec fn acc(&self) -> AnthropicAcc {
        AnthropicAcc {
            content: self.content@,
            stop_reason: self.stop_reason,
            calls: self.tool_calls@.map_values(|b: ToolCallBuilder| builder_view(b)),
        }
    }

    pub fn new() -> (r: Self)
        ensures
            r.acc().content == Seq::<char>::empty(),
            r.acc().stop_reason == StopReason::Other,
            r.acc().calls == Seq::<(Seq<char>, Seq<char>, Seq<char>)>::empty(),
    {
        let r = AnthropicStreamAccumulator { content: String::new(), stop_reason: StopReason::Other, tool_calls: Vec::new() };
        assert(r.acc().calls =~= Seq::<(Seq<char>, Seq<char>, Seq<char>)>::empty());
        r
    }

    /// The text gathered so far.
    pub fn content(&self) -> (r: &String)
        ensures
            r@ == self.acc().content,
    {
        &self.content
    }

    /// Applies one decoded event; returns the text delta it carried, for progress callbacks.
    pub fn handle_event(&mut self, ev: AnthropicStreamEvent) -> (r: Option<String>)
        ensures
            final(self).acc() == anthropic_step(old(self).acc(), ev).0,
            match (r, anthropic_step(old(self).acc(), ev).1) {
                (Some(s), Some(t)) => s@ == t,
                (None, None) => true,
                _ => false,
            },
    {
        let ghost a = self.acc();
        match ev {
            AnthropicStreamEvent::ContentBlockStart { content_block: Some(cb) } => {
                if str_eq(cb.block_type.as_str(), "tool_use") {
                    let id = match cb.id { Some(s) => s, None => String::new() };
                    let name = match cb.name { Some(s) => s, None => String::new() };
                    self.tool_calls.push(ToolCallBuilder { id, name, input_json: String::new() });
                    assert(self.acc().calls =~= a.calls.push((id@, name@, Seq::empty())));
                }
                None
            },
            AnthropicStreamEvent::ContentBlockDelta { delta: Some(d) } => {
                if str_eq(d.delta_type.as_str(), "text_delta") && d.text.is_some() {
                    let t = match d.text { Some(t) => t, None => String::new() };
                    push_str(&mut self.content, t.as_str());
                    Some(t)
                } else if str_eq(d.delta_type.as_str(), "input_json_delta") && d.partial_json.is_some() && self.tool_calls.len() > 0 {
                    let p = match d.partial_json { Some(p) => p, None => String::new() };
                    let k = self.tool_calls.len() - 1;
                    let mut b = self.tool_calls.remove(k);
                    push_str(&mut b.input_json, p.as_str());
                    self.tool_calls.push(b);
                    assert(self.acc().calls =~= a.calls.update(a.calls.len() - 1, (a.calls.last().0, a.calls.last().1, a.calls.last().2 + p@)));
                    None
                } else {
                    None
                }
            },
            AnthropicStreamEvent::MessageDelta { stop_reason: Some(sr) } => {
                self.stop_reason = anthropic_stop_reason(sr.as_str());
                None
            },
            _ => None,
        }
    }

    /// The reply of the finished stream.
    pub fn finish(self) -> (r: LlmResponse)
        ensures
            r.content@ == self.acc().content,
            r.stop_reason == self.acc().stop_reason,
            calls_option_matches(r.tool_calls, self.acc().calls.map_values(|c: (Seq<char>, Seq<char>, Seq<char>)| finish_call(c))),
    {
        let ghost calls = self.acc().calls;
        let AnthropicStreamAccumulator { content, stop_reason, tool_calls } = self;
        let mut out: Vec<ToolCall> = Vec::new();
        let mut i: usize = 0;
        while i < tool_calls.len()
            invariant
                i <= tool_calls.len(),
                calls == tool_calls@.map_values(|b: ToolCallBuilder| builder_view(b)),
                calls_view(out@) == calls.take(i as int).map_values(|c: (Seq<char>, Seq<char>, Seq<char>)| finish_call(c)),
            decreases tool_calls.len() - i,
        {
            let b = &tool_calls[i];
            let input = if b.input_json.as_str().is_empty() {
                to_string("{}")
            } else {
                b.input_json.clone()
            };
            let ghost before = out@;
            out.push(ToolCall { id: b.id.clone(), name: b.name.clone(), input });
            assert(calls.take(i as int + 1) == calls.take(i as int).push(calls[i as int]));
            assert(calls_view(out@) =~= calls_view(before).push(finish_call(calls[i as int])));
            assert(calls.take(i as int + 1).map_values(|c: (Seq<char>, Seq<char>, Seq<char>)| finish_call(c))
                =~= calls.take(i as int).map_values(|c: (Seq<char>, Seq<char>, Seq<char>)| finish_call(c)).push(finish_call(calls[i as int])));
            i = i + 1;
        }
        assert(calls.take(tool_calls.len() as int) == calls);
        LlmResponse { content, stop_reason, tool_calls: calls_or_none(out) }
    }
}

/// The (role, content) pairs of messages.
pub open spec fn message_pairs(m: Seq<Message>) -> Seq<(Seq<char>, Seq<char>)> {
    m.map_values(|x: Message| (x.role@, x.content@))
}

/// The (role, content) pairs of request messages.
pub open spec fn request_message_pairs(m: Seq<AnthropicRequestMessage>) -> Seq<(Seq<char>, Seq<char>)> {
    m.map_values(|x: AnthropicRequestMessage| (x.role@, x.content@))
}

/// The (name, description, schema) triples of tools.
pub open spec fn tool_triples(t: Seq<ToolSpec>) -> Seq<(Seq<char>, Seq<char>, Seq<char>)> {
    t.map_values(|x: ToolSpec| (x.name@, x.description@, x.parameters@))
}

/// The (name, description, schema) triples of request tools.
pub open spec fn anthropic_tool_triples(t: Seq<AnthropicTool>) -> Seq<(Seq<char>, Seq<char>, Seq<char>)> {
    t.map_values(|x: AnthropicTool| (x.name@, x.description@, x.input_schema@))
}

impl AnthropicClient {
    /// The request for one chat: the client's model and token limit, the system prompt
    /// unless it is empty, the messages as given, the tools unless there are none, and the
    /// stream flag only when streaming.
    pub fn build_request(&self, system: &str, messages: &[Message], tools: Option<&[ToolSpec]>) -> (r: AnthropicRequest)
        ensures
            r.model@ == self.spec_model(),
            r.max_tokens == self.spec_max_tokens(),
            system@.len() == 0 ==> r.system is None,
            system@.len() > 0 ==> (r.system matches Some(s) && s@ == system@),
            request_message_pairs(r.messages@) == message_pairs(messages@),
            match tools {
                Some(t) => if t@.len() == 0 { r.tools is None } else {
                    r.tools matches Some(v) && anthropic_tool_triples(v@) == tool_triples(t@)
                },
                None => r.tools is None,
            },
            r.stream == (if self.spec_stream() { Some(true) } else { None::<bool> }),
    {
        let mut msgs: Vec<AnthropicRequestMessage> = Vec::new();
        let mut i: usize = 0;
        while i < messages.len()
            invariant
                i <= messages@.len(),
                msgs@.len() == i,
                request_message_pairs(msgs@) == message_pairs(messages@.take(i as int)),
            decreases messages.len() - i,
        {
            let m = &messages[i];
            let ghost prev = msgs@;
            msgs.push(AnthropicRequestMessage { role: m.role.clone(), content: m.content.clone() });
            assert(messages@.take(i as int + 1) =~= messages@.take(i as int).push(messages@[i as int]));
            assert(msgs@ == prev.push(msgs@.last()));
            assert forall|j: int| 0 <= j < i + 1 implies #[trigger] request_message_pairs(msgs@)[j] == message_pairs(messages@.take(i as int + 1))[j] by {
                if j < i {
                    assert(request_message_pairs(prev)[j] == message_pairs(messages@.take(i as int))[j]);
                    assert(msgs@[j] == prev[j]);
                }
            }
            assert(request_message_pairs(msgs@) =~= message_pairs(messages@.take(i as int + 1)));
            i = i + 1;
        }
        assert(messages@.take(messages@.len() as int) =~= messages@);
        let tools_api = match tools {
            Some(t) => if t.len() == 0 {
                None
            } else {
                let mut v: Vec<AnthropicTool> = Vec::new();
                let mut k: usize = 0;
                while k < t.len()
                    invariant
                        k <= t@.len(),
                        v@.len() == k,
                        anthropic_tool_triples(v@) == tool_triples(t@.take(k as int)),
                    decreases t.len() - k,
                {
                    let s = &t[k];
                    let ghost prev = v@;
                    v.push(AnthropicTool { name: s.name.clone(), description: s.description.clone(), input_schema: s.parameters.clone() });
                    assert(t@.take(k as int + 1) =~= t@.take(k as int).push(t@[k as int]));
                    assert(v@ == prev.push(v@.last()));
                    assert forall|j: int| 0 <= j < k + 1 implies #[trigger] anthropic_tool_triples(v@)[j] == tool_triples(t@.take(k as int + 1))[j] by {
                        if j < k {
                            assert(anthropic_tool_triples(prev)[j] == tool_triples(t@.take(k as int))[j]);
                            assert(v@[j] == prev[j]);
                        }
                    }
                    assert(anthropic_tool_triples(v@) =~= tool_triples(t@.take(k as int + 1)));
                    k = k + 1;
                }
                assert(t@.take(t@.len() as int) =~= t@);
                Some(v)
            },
            None => None,
        };
        AnthropicRequest {
            model: self.model.clone(),
            max_tokens: self.max_tokens,
            system: if system.is_empty() { None } else { Some(to_string(system)) },
            messages: msgs,
            tools: tools_api,
            stream: if self.stream { Some(true) } else { None },
        }
    }
}

} // verus!
