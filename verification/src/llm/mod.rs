//! LLM layer: streaming-event parsing, response types and the decisions around HTTP calls.
pub mod anthropic;
pub mod client;
pub mod fallback;
pub mod noop;
pub mod openai_compatible;
pub mod sse;
pub mod types;

pub use anthropic::AnthropicClient;
pub use client::LlmHttpClient;
pub use fallback::{FallbackLlmClient, LlmClient};
pub use noop::NoopLlmClient;
pub use openai_compatible::OpenAiCompatibleClient;
pub use types::{LlmResponse, Message, StopReason, ToolCall, MAX_MESSAGE_CONTENT_LEN};
