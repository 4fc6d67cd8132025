//! Request/response types of the LLM layer, aligned with the Anthropic Messages API.
use vstd::prelude::*;

use crate::text::{push_char, push_str, to_string, str_eq};

verus! {

/// Suggested upper bound of one message's content (characters); callers cut or refuse longer ones.
pub const MAX_MESSAGE_CONTENT_LEN: usize = 65536;

/// One chat message.
#[derive(Clone, Debug)]
pub struct Message {
    pub role: String,
    pub content: String,
}

/// A tool offered to the model; `parameters` is its JSON Schema as JSON text.
#[derive(Clone, Debug)]
pub struct ToolSpec {
    pub name: String,
    pub description: String,
    pub parameters: String,
}

/// A tool in an Anthropic request (`input_schema` as JSON text).
#[derive(Debug)]
pub struct AnthropicTool {
    pub name: String,
    pub description: String,
    pub input_schema: String,
}

/// An Anthropic Messages API request.
#[derive(Debug)]
pub struct AnthropicRequest {
    pub model: String,
    pub max_tokens: u32,
    pub system: Option<String>,
    pub messages: Vec<AnthropicRequestMessage>,
    pub tools: Option<Vec<AnthropicTool>>,
    pub stream: Option<bool>,
}

/// One message of an Anthropic request body.
#[derive(Debug)]
pub struct AnthropicRequestMessage {
    pub role: String,
    pub content: String,
}

/// Why the model stopped.
#[derive(Clone, Copy, Debug, PartialEq, Eq, Structural)]
pub enum StopReason {
    EndTurn,
    ToolUse,
    MaxTokens,
    Other,
}

/// One tool call requested by the model.
#[derive(Clone, Debug)]
pub struct ToolCall {
    pub id: String,
    pub name: String,
    /// The arguments as a JSON object text.
    pub input: String,
}

/// The LLM reply: text, stop reason and the tool calls, if any.
#[derive(Clone, Debug)]
pub struct LlmResponse {
    pub content: String,
    pub stop_reason: StopReason,
    /// Present (and non-empty) when the model asked for tools.
    pub tool_calls: Option<Vec<ToolCall>>,
}

/// One content block of an Anthropic response; `input` holds the tool input as JSON text.
#[derive(Debug)]
pub struct AnthropicContentBlock {
    pub block_type: String,
    pub text: Option<String>,
    pub id: Option<String>,
    pub name: Option<String>,
    pub input: Option<String>,
}

/// An Anthropic Messages API response.
#[derive(Debug)]
pub struct AnthropicResponse {
    pub id: Option<String>,
    pub content: Vec<AnthropicContentBlock>,
    pub stop_reason: Option<StopReason>,
}

/// A tool call as (id, name, input).
pub open spec fn call_view(c: ToolCall) -> (Seq<char>, Seq<char>, Seq<char>) {
    (c.id@, c.name@, c.input@)
}

pub open spec fn calls_view(v: Seq<ToolCall>) -> Seq<(Seq<char>, Seq<char>, Seq<char>)> {
    v.map_values(|c: ToolCall| call_view(c))
}

/// The string in an optional string, or the empty string.
pub open spec fn or_empty(o: Option<String>) -> Seq<char> {
    match o {
        Some(s) => s@,
        None => Seq::empty(),
    }
}

/// Appends `t` to a text, after a newline when the text is not empty.
pub open spec fn join_line(prev: Seq<char>, t: Seq<char>) -> Seq<char> {
    if prev.len() > 0 { prev.push('\n') + t } else { t }
}

/// The texts of the `text` blocks that carry one, joined with newlines.
pub open spec fn text_content(blocks: Seq<AnthropicContentBlock>) -> Seq<char>
    decreases blocks.len(),
{
    if blocks.len() == 0 {
        Seq::empty()
    } else {
        let prev = text_content(blocks.drop_last());
        let b = blocks.last();
        if b.block_type@ == "text"@ && b.text is Some {
            join_line(prev, b.text->Some_0@)
        } else {
            prev
        }
    }
}

/// The tool calls of the `tool_use` blocks; a missing id or name is empty, a missing input is `{}`.
pub open spec fn tool_uses(blocks: Seq<AnthropicContentBlock>) -> Seq<(Seq<char>, Seq<char>, Seq<char>)>
    decreases blocks.len(),
{
    if blocks.len() == 0 {
        Seq::empty()
    } else {
        let prev = tool_uses(blocks.drop_last());
        let b = blocks.last();
        if b.block_type@ != "text"@ && b.block_type@ == "tool_use"@ {
            prev.push((or_empty(b.id), or_empty(b.name), match b.input { Some(s) => s@, None => "{}"@ }))
        } else {
            prev
        }
    }
}

/// The clone of an optional string.
fn clone_or_empty(o: &Option<String>) -> (r: String)
    ensures
        r@ == or_empty(*o),
{
    match o {
        Some(s) => s.clone(),
        None => String::new(),
    }
}

/// The tool calls as an option: `None` when there are none.
pub open spec fn calls_option_matches(r: Option<Vec<ToolCall>>, views: Seq<(Seq<char>, Seq<char>, Seq<char>)>) -> bool {
    match r {
        None => views.len() == 0,
        Some(v) => views.len() > 0 && calls_view(v@) == views,
    }
}

/// Wraps a list of tool calls: `None` when it is empty.
pub fn calls_or_none(calls: Vec<ToolCall>) -> (r: Option<Vec<ToolCall>>)
    ensures
        calls_option_matches(r, calls_view(calls@)),
{
    if calls.len() == 0 {
        None
    } else {
        Some(calls)
    }
}

impl LlmResponse {
    /// Joins the text blocks into the content (newline-separated) and collects the tool_use
    /// blocks as tool calls; a missing stop reason is `Other`.
    pub fn from_anthropic(r: AnthropicResponse) -> (out: Self)
        ensures
            out.content@ == text_content(r.content@),
            out.stop_reason == match r.stop_reason { Some(s) => s, None => StopReason::Other },
            calls_option_matches(out.tool_calls, tool_uses(r.content@)),
    {
        let mut content = String::new();
        let mut tool_calls: Vec<ToolCall> = Vec::new();
        let mut i: usize = 0;
        while i < r.content.len()
            invariant
                i <= r.content.len(),
                content@ == text_content(r.content@.take(i as int)),
                calls_view(tool_calls@) == tool_uses(r.content@.take(i as int)),
            decreases r.content.len() - i,
        {
            let b = &r.content[i];
            assert(r.content@.take(i as int + 1).drop_last() == r.content@.take(i as int));
            let ghost calls0 = tool_calls@;
            if str_eq(b.block_type.as_str(), "text") {
                match &b.text {
                    Some(t) => {
                        if !content.as_str().is_empty() {
                            push_char(&mut content, '\n');
                        }
                        push_str(&mut content, t.as_str());
                    },
                    None => {},
                }
            } else if str_eq(b.block_type.as_str(), "tool_use") {
                let id = clone_or_empty(&b.id);
                let name = clone_or_empty(&b.name);
                let input = match &b.input {
                    Some(s) => s.clone(),
                    None => to_string("{}"),
                };
                tool_calls.push(ToolCall { id, name, input });
                assert(calls_view(tool_calls@) =~= calls_view(calls0).push((or_empty(b.id), or_empty(b.name), match b.input { Some(s) => s@, None => "{}"@ })));
            }
            i = i + 1;
        }
        assert(r.content@.take(r.content.len() as int) == r.content@);
        let stop_reason = match r.stop_reason {
            Some(s) => s,
            None => StopReason::Other,
        };
        LlmResponse { content, stop_reason, tool_calls: calls_or_none(tool_calls) }
    }
}

/// The stop reason of an OpenAI `finish_reason`.
pub open spec fn finish_reason_spec(s: Option<Seq<char>>) -> StopReason {
    match s {
        Some(t) => if t == "stop"@ {
            StopReason::EndTurn
        } else if t == "tool_calls"@ {
            StopReason::ToolUse
        } else if t == "length"@ {
            StopReason::MaxTokens
        } else {
            StopReason::Other
        },
        None => StopReason::Other,
    }
}

pub fn finish_reason_to_stop_reason(s: Option<&str>) -> (r: StopReason)
    ensures
        r == finish_reason_spec(match s { Some(t) => Some(t@), None => None }),
{
    match s {
        Some(t) => {
            if str_eq(t, "stop") {
                StopReason::EndTurn
            } else if str_eq(t, "tool_calls") {
                StopReason::ToolUse
            } else if str_eq(t, "length") {
                StopReason::MaxTokens
            } else {
                StopReason::Other
            }
        },
        None => StopReason::Other,
    }
}

/// The stop reason of an Anthropic `stop_reason` string.
pub open spec fn anthropic_stop_spec(t: Seq<char>) -> StopReason {
    if t == "end_turn"@ {
        StopReason::EndTurn
    } else if t == "tool_use"@ {
        StopReason::ToolUse
    } else if t == "max_tokens"@ {
        StopReason::MaxTokens
    } else {
        StopReason::Other
    }
}

pub fn anthropic_stop_reason(t: &str) -> (r: StopReason)
    ensures
        r == anthropic_stop_spec(t@),
{
    if str_eq(t, "end_turn") {
        StopReason::EndTurn
    } else if str_eq(t, "tool_use") {
        StopReason::ToolUse
    } else if str_eq(t, "max_tokens") {
        StopReason::MaxTokens
    } else {
        StopReason::Other
    }
}

} // verus!
