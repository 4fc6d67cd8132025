use beetle::error::Error;
use beetle::llm::anthropic::{classify_event, AnthropicClient, AnthropicDelta, AnthropicEventKind, AnthropicStartBlock, AnthropicStreamAccumulator, AnthropicStreamEvent};
use beetle::llm::client::{check_request_body_len, check_retries, check_status, map_post_error, retry_after_failure, source_from_config, strip_trailing_slashes, AppConfig, LlmHttpClient, LlmSource};
use beetle::llm::fallback::{fallback_step, FallbackAction, FallbackLlmClient, LlmClient, StreamProgress};
use beetle::llm::noop::NoopLlmClient;
use beetle::llm::openai_compatible::{
    choice_to_response, no_choices_error, OpenAiChoice, OpenAiCompatibleClient, OpenAiStreamAccumulator, OpenAiStreamChoice,
    OpenAiStreamChunk, OpenAiStreamDelta, OpenAiToolCall, OpenAiToolCallDelta, OpenAiToolCallFunction,
};
use beetle::llm::types::{anthropic_stop_reason, finish_reason_to_stop_reason, AnthropicContentBlock, AnthropicResponse, LlmResponse, Message, StopReason, ToolSpec};

fn source(url: &str, max_tokens: Option<u32>) -> LlmSource {
    LlmSource { provider: "anthropic".into(), api_key: "k".into(), model: "m".into(), api_url: url.into(), max_tokens }
}

#[test]
fn anthropic_client_settings() {
    let c = AnthropicClient::from_source(&source("  ", None), true);
    assert_eq!(c.api_base(), "https://api.anthropic.com/v1/messages");
    assert_eq!(c.max_tokens(), 1024);
    assert!(c.stream());
    let c2 = AnthropicClient::from_source(&source("https://proxy/v1/messages//", Some(99)), false);
    assert_eq!(c2.api_base(), "https://proxy/v1/messages");
    assert_eq!(c2.max_tokens(), 99);
    let h = c2.request_headers(42);
    assert_eq!(h[0], ("x-api-key".to_string(), "k".to_string()));
    assert_eq!(h[1], ("anthropic-version".to_string(), "2023-06-01".to_string()));
    assert_eq!(h[3], ("content-length".to_string(), "42".to_string()));
    let cfg = AppConfig { model_provider: "anthropic".into(), api_key: "x".into(), model: "opus-mini".into(), api_url: "".into() };
    let c3 = AnthropicClient::new(&cfg);
    assert_eq!(c3.model(), "opus-mini");
    assert!(!c3.stream());
    let s = source_from_config(&cfg);
    assert!(s.max_tokens.is_none());
}

#[test]
fn anthropic_request_building() {
    let c = AnthropicClient::from_source(&source("", Some(10)), true);
    let msgs = vec![Message { role: "user".into(), content: "hi".into() }];
    let tools = vec![ToolSpec { name: "get_time".into(), description: "time".into(), parameters: "{}".into() }];
    let r = c.build_request("sys", &msgs, Some(&tools));
    assert_eq!(r.system.as_deref(), Some("sys"));
    assert_eq!(r.messages.len(), 1);
    assert_eq!(r.messages[0].content, "hi");
    assert_eq!(r.tools.as_ref().unwrap()[0].input_schema, "{}");
    assert_eq!(r.stream, Some(true));
    assert_eq!(r.max_tokens, 10);
    let r2 = c.build_request("", &msgs, Some(&[]));
    assert!(r2.system.is_none());
    assert!(r2.tools.is_none());
}

#[test]
fn openai_client_and_request() {
    let c = OpenAiCompatibleClient::from_source(&source("", None), false);
    assert_eq!(c.chat_url(), "https://api.openai.com/v1/chat/completions");
    let h = c.request_headers(7);
    assert_eq!(h.len(), 3);
    assert_eq!(h[0], ("Authorization".to_string(), "Bearer k".to_string()));
    assert_eq!(h[2], ("Content-Length".to_string(), "7".to_string()));
    let nokey = OpenAiCompatibleClient::from_source(&LlmSource { api_key: "".into(), ..source("http://local:8080/v1/", None) }, true);
    assert_eq!(nokey.chat_url(), "http://local:8080/v1/chat/completions");
    assert_eq!(nokey.request_headers(0).len(), 2);
    let msgs = vec![Message { role: "user".into(), content: "hi".into() }];
    let tools = vec![ToolSpec { name: "t".into(), description: "d".into(), parameters: "{\"type\":\"object\"}".into() }];
    let r = nokey.build_request("be brief", &msgs, Some(&tools));
    assert_eq!(r.messages.len(), 2);
    assert_eq!(r.messages[0].role, "system");
    assert_eq!(r.messages[0].content, "be brief");
    assert_eq!(r.messages[1].role, "user");
    let t = &r.tools.as_ref().unwrap()[0];
    assert_eq!(t.tool_type, "function");
    assert_eq!(t.function.parameters.as_deref(), Some("{\"type\":\"object\"}"));
    assert_eq!(r.stream, Some(true));
    assert_eq!(c.build_request("", &msgs, None).messages.len(), 1);
}

fn block(t: &str, text: Option<&str>, id: Option<&str>, name: Option<&str>, input: Option<&str>) -> AnthropicContentBlock {
    AnthropicContentBlock {
        block_type: t.into(),
        text: text.map(|s| s.into()),
        id: id.map(|s| s.into()),
        name: name.map(|s| s.into()),
        input: input.map(|s| s.into()),
    }
}

#[test]
fn anthropic_response_conversion() {
    let r = AnthropicResponse {
        id: Some("msg".into()),
        content: vec![
            block("text", Some("a"), None, None, None),
            block("tool_use", None, Some("t1"), Some("get_time"), None),
            block("text", Some("b"), None, None, None),
            block("image", None, None, None, None),
        ],
        stop_reason: Some(StopReason::ToolUse),
    };
    let out = LlmResponse::from_anthropic(r);
    assert_eq!(out.content, "a\nb");
    assert_eq!(out.stop_reason, StopReason::ToolUse);
    let calls = out.tool_calls.unwrap();
    assert_eq!(calls.len(), 1);
    assert_eq!(calls[0].input, "{}");
    let empty = LlmResponse::from_anthropic(AnthropicResponse { id: None, content: vec![], stop_reason: None });
    assert_eq!(empty.stop_reason, StopReason::Other);
    assert!(empty.tool_calls.is_none());
}

#[test]
fn stop_reasons() {
    assert_eq!(anthropic_stop_reason("end_turn"), StopReason::EndTurn);
    assert_eq!(anthropic_stop_reason("max_tokens"), StopReason::MaxTokens);
    assert_eq!(anthropic_stop_reason("pause"), StopReason::Other);
    assert_eq!(finish_reason_to_stop_reason(Some("tool_calls")), StopReason::ToolUse);
    assert_eq!(finish_reason_to_stop_reason(Some("length")), StopReason::MaxTokens);
    assert_eq!(finish_reason_to_stop_reason(None), StopReason::Other);
}

#[test]
fn anthropic_stream_accumulation() {
    assert_eq!(classify_event("message_delta"), AnthropicEventKind::MessageDelta);
    assert_eq!(classify_event("ping"), AnthropicEventKind::Other);
    let mut acc = AnthropicStreamAccumulator::new();
    let d = |t: &str, text: Option<&str>, pj: Option<&str>| AnthropicStreamEvent::ContentBlockDelta {
        delta: Some(AnthropicDelta { delta_type: t.into(), text: text.map(|s| s.into()), partial_json: pj.map(|s| s.into()) }),
    };
    assert_eq!(acc.handle_event(d("text_delta", Some("Hel"), None)).as_deref(), Some("Hel"));
    assert_eq!(acc.handle_event(d("text_delta", Some("lo"), None)).as_deref(), Some("lo"));
    // A JSON delta before any tool block is ignored.
    assert!(acc.handle_event(d("input_json_delta", None, Some("{\"x\""))).is_none());
    acc.handle_event(AnthropicStreamEvent::ContentBlockStart {
        content_block: Some(AnthropicStartBlock { block_type: "tool_use".into(), id: Some("c1".into()), name: Some("echo".into()) }),
    });
    acc.handle_event(d("input_json_delta", None, Some("{\"x\":")));
    acc.handle_event(d("input_json_delta", None, Some("1}")));
    acc.handle_event(AnthropicStreamEvent::ContentBlockStart {
        content_block: Some(AnthropicStartBlock { block_type: "tool_use".into(), id: None, name: Some("noargs".into()) }),
    });
    acc.handle_event(AnthropicStreamEvent::MessageDelta { stop_reason: Some("tool_use".into()) });
    acc.handle_event(AnthropicStreamEvent::Ignored);
    let r = acc.finish();
    assert_eq!(r.content, "Hello");
    assert_eq!(r.stop_reason, StopReason::ToolUse);
    let calls = r.tool_calls.unwrap();
    assert_eq!(calls.len(), 2);
    assert_eq!(calls[0].input, "{\"x\":1}");
    assert_eq!(calls[1].id, "");
    assert_eq!(calls[1].input, "{}");
}

#[test]
fn openai_choice_conversion() {
    let choice = OpenAiChoice {
        content: None,
        finish_reason: Some("tool_calls".into()),
        tool_calls: Some(vec![
            OpenAiToolCall { id: Some("a".into()), function: Some(OpenAiToolCallFunction { name: Some("f".into()), arguments: None }) },
            OpenAiToolCall { id: Some("b".into()), function: None },
        ]),
    };
    let r = choice_to_response(choice);
    assert_eq!(r.content, "");
    assert_eq!(r.stop_reason, StopReason::ToolUse);
    let calls = r.tool_calls.unwrap();
    assert_eq!(calls.len(), 1);
    assert_eq!(calls[0].input, "{}");
    match no_choices_error() {
        Error::Other { stage, .. } => assert_eq!(stage, "llm_parse"),
        other => panic!("unexpected {:?}", other),
    }
}

fn chunk(content: Option<&str>, finish: Option<&str>, tool: Option<(u64, Option<&str>, Option<&str>, Option<&str>)>) -> OpenAiStreamChunk {
    OpenAiStreamChunk {
        choices: Some(vec![OpenAiStreamChoice {
            finish_reason: finish.map(|s| s.into()),
            delta: Some(OpenAiStreamDelta {
                content: content.map(|s| s.into()),
                tool_calls: tool.map(|(index, id, name, args)| {
                    vec![OpenAiToolCallDelta { index, id: id.map(|s| s.into()), name: name.map(|s| s.into()), arguments: args.map(|s| s.into()) }]
                }),
            }),
        }]),
    }
}

#[test]
fn openai_stream_accumulation() {
    let mut acc = OpenAiStreamAccumulator::new();
    assert_eq!(acc.handle_value(&chunk(Some("Hi"), None, None)).as_deref(), Some("Hi"));
    assert!(acc.handle_value(&OpenAiStreamChunk { choices: None }).is_none());
    acc.handle_value(&chunk(None, None, Some((1, Some("id1"), Some("lo"), Some("{\"a\"")))));
    acc.handle_value(&chunk(None, None, Some((1, None, Some("ok"), Some(":2}")))));
    acc.handle_value(&chunk(None, None, Some((500, Some("x"), Some("huge"), None))));
    acc.handle_value(&chunk(None, Some("tool_calls"), None));
    let r = acc.finish();
    assert_eq!(r.content, "Hi");
    assert_eq!(r.stop_reason, StopReason::ToolUse);
    let calls = r.tool_calls.unwrap();
    // Slot 0 never got a name and is dropped; slot 1 is kept.
    assert_eq!(calls.len(), 1);
    assert_eq!(calls[0].id, "id1");
    assert_eq!(calls[0].name, "look");
    assert_eq!(calls[0].input, "{\"a\":2}");
}

#[test]
fn http_status_and_errors() {
    assert!(check_status(200).is_ok());
    assert!(check_status(399).is_ok());
    assert!(matches!(check_status(429), Err(Error::Http { status_code: 429, stage: "llm_request" })));
    assert!(matches!(check_status(503), Err(Error::Http { status_code: 503, stage: "llm_request" })));
    assert!(check_request_body_len(524288).is_ok());
    match check_request_body_len(524289) {
        Err(Error::Config { stage, message }) => {
            assert_eq!(stage, "llm_request");
            assert_eq!(message, "request body exceeds 524288 bytes");
        }
        other => panic!("unexpected {:?}", other),
    }
    assert!(matches!(map_post_error(Error::Http { status_code: 401, stage: "http" }), Error::Http { status_code: 401, stage: "llm_request" }));
    match map_post_error(Error::Config { stage: "x", message: "boom".into() }) {
        Error::Other { stage, message } => {
            assert_eq!(stage, "llm_request");
            assert_eq!(message, "boom");
        }
        other => panic!("unexpected {:?}", other),
    }
    assert_eq!(Error::Http { status_code: 502, stage: "llm_request" }.describe(), "llm_request: HTTP 502");
    assert_eq!(Error::Config { stage: "s", message: "m".into() }.stage(), "s");
}

#[test]
fn retry_schedule() {
    assert_eq!(retry_after_failure(0, 2, 500), Some(500));
    assert_eq!(retry_after_failure(1, 3, 500), Some(1000));
    assert_eq!(retry_after_failure(1, 2, 500), None);
    assert_eq!(retry_after_failure(0, 1, 500), None);
    assert_eq!(retry_after_failure(3, 10, 500), Some(4000));
    assert_eq!(retry_after_failure(9, 20, 500), Some(32000));
    assert_eq!(retry_after_failure(5, 2, 500), None);
}

#[test]
fn trailing_slashes() {
    assert_eq!(strip_trailing_slashes("http://a/b///"), "http://a/b");
    assert_eq!(strip_trailing_slashes("///"), "");
    assert_eq!(strip_trailing_slashes("x"), "x");
}

struct NoHttp;

impl LlmHttpClient for NoHttp {
    fn do_post(&mut self, _url: &str, _headers: &[(String, String)], _body: &[u8]) -> Result<(u16, Vec<u8>), Error> {
        Err(Error::Other { stage: "http", message: "offline".into() })
    }
}

struct Scripted {
    reply: Option<&'static str>,
    stage: &'static str,
}

impl LlmClient for Scripted {
    fn chat<H: LlmHttpClient>(&self, _http: &mut H, _system: &str, _messages: &[Message], _tools: Option<&[ToolSpec]>) -> Result<LlmResponse, Error> {
        match self.reply {
            Some(t) => Ok(LlmResponse { content: t.into(), stop_reason: StopReason::EndTurn, tool_calls: None }),
            None => Err(Error::Other { stage: self.stage, message: "down".into() }),
        }
    }
}

struct Progress(Vec<String>);

impl StreamProgress for Progress {
    fn on_progress(&mut self, delta: &str, _accumulated: &str) {
        self.0.push(delta.to_string());
    }
}

#[test]
fn fallback_tries_sources_in_order() {
    let mut http = NoHttp;
    let mut none: FallbackLlmClient<Scripted> = FallbackLlmClient::new(vec![]);
    match none.chat(&mut http, "", &[], None) {
        Err(Error::Config { stage, message }) => {
            assert_eq!(stage, "fallback_llm");
            assert_eq!(message, "no LLM sources configured");
        }
        other => panic!("unexpected {:?}", other),
    }
    assert_eq!(none.last_error().unwrap(), "fallback_llm: no LLM sources configured");
    let mut f = FallbackLlmClient::new(vec![
        Scripted { reply: None, stage: "first" },
        Scripted { reply: Some("second answers"), stage: "" },
        Scripted { reply: Some("third"), stage: "" },
    ]);
    assert_eq!(f.len(), 3);
    assert_eq!(f.chat(&mut http, "", &[], None).unwrap().content, "second answers");
    assert!(f.last_error().is_none());
    let mut all_fail = FallbackLlmClient::new(vec![Scripted { reply: None, stage: "a" }, Scripted { reply: None, stage: "b" }]);
    let mut p = Progress(Vec::new());
    assert!(all_fail.chat_with_progress(&mut http, "", &[], None, &mut p).is_err());
    assert_eq!(all_fail.last_error().unwrap(), "b: down");
    let mut single = FallbackLlmClient::new(vec![Scripted { reply: None, stage: "only" }]);
    assert!(single.chat_with_progress(&mut http, "", &[], None, &mut p).is_err());
    assert_eq!(single.last_error().unwrap(), "only: down");
}

#[test]
fn noop_client_replies_fixed_text() {
    let c = NoopLlmClient::new("LLM not configured".to_string());
    let r = c.reply();
    assert_eq!(r.content, "LLM not configured");
    assert_eq!(r.stop_reason, StopReason::EndTurn);
    let mut http = NoHttp;
    let r2 = LlmClient::chat(&c, &mut http, "sys", &[], None).unwrap();
    assert_eq!(r2.content, "LLM not configured");
    assert!(r2.tool_calls.is_none());
}

#[test]
fn fallback_step_selection_rule() {
    let reply = || -> Result<LlmResponse, Error> { Ok(LlmResponse { content: "hi".into(), stop_reason: StopReason::EndTurn, tool_calls: None }) };
    let fail = || -> Result<LlmResponse, Error> { Err(Error::Http { status_code: 500, stage: "llm_request" }) };
    assert!(matches!(fallback_step(0, 3, reply()), FallbackAction::Return(Ok(r)) if r.content == "hi"));
    assert!(matches!(fallback_step(0, 3, fail()), FallbackAction::TryNext));
    assert!(matches!(fallback_step(1, 3, fail()), FallbackAction::TryNext));
    assert!(matches!(fallback_step(2, 3, fail()), FallbackAction::Return(Err(Error::Http { status_code: 500, .. }))));
    assert!(matches!(fallback_step(2, 3, reply()), FallbackAction::Return(Ok(_))));
}

#[test]
fn zero_retries_is_a_config_error() {
    match check_retries(0) {
        Err(Error::Config { stage, message }) => {
            assert_eq!(stage, "retry");
            assert_eq!(message, "with_retry requires retries >= 1");
        }
        other => panic!("unexpected {:?}", other),
    }
    assert!(check_retries(1).is_ok());
}
