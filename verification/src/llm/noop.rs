//! Placeholder model used when no LLM source is configured: every chat gets a fixed reply.
use vstd::prelude::*;

use crate::error::Error;
use crate::llm::client::LlmHttpClient;
use crate::llm::fallback::LlmClient;
use crate::llm::types::{LlmResponse, Message, StopReason, ToolSpec};

verus! {

/// Answers every chat with the "not configured" text it was built with (already localised
/// by the caller).
pub struct NoopLlmClient {
    message: String,
}

impl NoopLlmClient {
    /// The text every reply carries.
    pub closed spec fn reply_text(&self) -> Seq<char> {
        self.message@
    }

    pub fn new(message: String) -> (r: Self)
        ensures
            r.reply_text() == message@,
    {
        NoopLlmClient { message }
    }

    /// The reply to any chat: the fixed text, a finished turn and no tool calls.
    pub fn reply(&self) -> (r: LlmResponse)
        ensures
            r.content@ == self.reply_text(),
            r.stop_reason == StopReason::EndTurn,
            r.tool_calls is None,
    {
        LlmResponse { content: self.message.clone(), stop_reason: StopReason::EndTurn, tool_calls: None }
    }
}

impl LlmClient for NoopLlmClient {
    /// The only answer: the fixed reply.
    open spec fn answers(&self, system: Seq<char>, messages: Seq<Message>, tools: Option<Seq<ToolSpec>>, r: Result<LlmResponse, Error>) -> bool {
        r matches Ok(resp) && resp.content@ == self.reply_text() && resp.stop_reason == StopReason::EndTurn
            && resp.tool_calls is None
    }

    /// Every chat succeeds with the fixed reply; nothing is sent.
    fn chat<H: LlmHttpClient>(&self, http: &mut H, system: &str, messages: &[Message], tools: Option<&[ToolSpec]>) -> (r: Result<LlmResponse, Error>)
        ensures
            r matches Ok(resp) && resp.content@ == self.reply_text() && resp.stop_reason == StopReason::EndTurn
                && resp.tool_calls is None,
    {
        Ok(self.reply())
    }
}

} // verus!
