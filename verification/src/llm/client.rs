//! What every LLM client shares: the configured source, HTTP status and body-size checks, the
//! retry schedule, and the HTTP client interface that the runtime supplies.
use vstd::prelude::*;

use crate::constants::MAX_REQUEST_BODY_LEN;
use crate::error::Error;
use crate::platform::abstraction::ChunkSink;
use crate::text::{to_string, trim, is_white_space};

verus! {

/// The LLM part of the application configuration.
#[derive(Clone, Debug)]
pub struct AppConfig {
    pub model_provider: String,
    pub api_key: String,
    pub model: String,
    pub api_url: String,
}

/// One configured LLM source.
#[derive(Clone, Debug)]
pub struct LlmSource {
    pub provider: String,
    pub api_key: String,
    pub model: String,
    pub api_url: String,
    pub max_tokens: Option<u32>,
}

/// The source that the application configuration describes (no token limit of its own).
pub fn source_from_config(config: &AppConfig) -> (r: LlmSource)
    ensures
        r.provider@ == config.model_provider@,
        r.api_key@ == config.api_key@,
        r.model@ == config.model@,
        r.api_url@ == config.api_url@,
        r.max_tokens is None,
{
    LlmSource {
        provider: config.model_provider.clone(),
        api_key: config.api_key.clone(),
        model: config.model.clone(),
        api_url: config.api_url.clone(),
        max_tokens: None,
    }
}

/// HTTP client that the runtime injects (the platform's client implements it).
pub trait LlmHttpClient {
    /// POSTs `body` with `headers` and returns the status and the response body.
    fn do_post(&mut self, url: &str, headers: &[(String, String)], body: &[u8]) -> Result<(u16, Vec<u8>), Error>;

    /// Streaming POST: the response body goes to `on_chunk` piece by piece; by default the
    /// whole body of a plain POST is handed over as one piece.
    fn do_post_streaming<S: ChunkSink>(&mut self, url: &str, headers: &[(String, String)], body: &[u8], on_chunk: &mut S) -> Result<u16, Error> {
        let (status, resp_body) = self.do_post(url, headers, body)?;
        on_chunk.on_chunk(resp_body.as_slice())?;
        Ok(status)
    }

    /// Called before a retry; an implementation may replace its connection.
    fn reset_connection_for_retry(&mut self) {
    }
}

/// The verdict on an HTTP status: 400 and above (429 included) is an error of stage `llm_request`.
pub fn check_status(status: u16) -> (r: Result<(), Error>)
    ensures
        status >= 400 <==> r is Err,
        r matches Err(e) ==> e == (Error::Http { status_code: status, stage: "llm_request" }),
{
    if status == 429 {
        return Err(Error::Http { status_code: 429, stage: "llm_request" });
    }
    if status >= 400 {
        return Err(Error::Http { status_code: status, stage: "llm_request" });
    }
    Ok(())
}

/// Refuses request bodies over `MAX_REQUEST_BODY_LEN` bytes.
pub fn check_request_body_len(len: usize) -> (r: Result<(), Error>)
    ensures
        len > MAX_REQUEST_BODY_LEN <==> r is Err,
        len > MAX_REQUEST_BODY_LEN ==> crate::platform::gpio::config_err(r, "llm_request",
            "request body exceeds "@ + crate::text::decimal(MAX_REQUEST_BODY_LEN as nat) + " bytes"@),
{
    if len > MAX_REQUEST_BODY_LEN {
        let mut msg: Vec<char> = Vec::new();
        crate::text::extend_with_str(&mut msg, "request body exceeds ");
        crate::text::push_decimal(&mut msg, MAX_REQUEST_BODY_LEN as u64);
        crate::text::extend_with_str(&mut msg, " bytes");
        return Err(Error::Config { stage: "llm_request", message: crate::text::chars_to_string(&msg) });
    }
    Ok(())
}

/// The error of a failed POST as the LLM layer reports it: an HTTP error keeps its status,
/// anything else becomes an `Other` error; both of stage `llm_request`.
pub fn map_post_error(e: Error) -> (r: Error)
    ensures
        match e {
            Error::Http { status_code, .. } => r == (Error::Http { status_code, stage: "llm_request" }),
            Error::Config { message, .. } => r matches Error::Other { stage, message: m } && stage == "llm_request" && m@ == message@,
            Error::Other { message, .. } => r matches Error::Other { stage, message: m } && stage == "llm_request" && m@ == message@,
        },
{
    match e {
        Error::Http { status_code, .. } => Error::Http { status_code, stage: "llm_request" },
        Error::Config { message, .. } => Error::Other { stage: "llm_request", message },
        Error::Other { message, .. } => Error::Other { stage: "llm_request", message },
    }
}

/// Attempts that a client makes, the first included.
pub const LLM_RETRIES: u32 = 2;
/// Base delay of the retry schedule (ms).
pub const LLM_RETRY_BASE_MS: u64 = 500;

/// A retry schedule needs at least one attempt: zero attempts is a configuration error of
/// stage `retry`, and then no attempt is made.
pub fn check_retries(retries: u32) -> (r: Result<(), Error>)
    ensures
        retries == 0 <==> r is Err,
        retries == 0 ==> crate::platform::gpio::config_err(r, "retry", "with_retry requires retries >= 1"@),
{
    if retries == 0 {
        return Err(Error::Config { stage: "retry", message: to_string("with_retry requires retries >= 1") });
    }
    Ok(())
}

/// `2^k`.
pub open spec fn doubling(k: nat) -> nat
    decreases k,
{
    if k == 0 { 1 } else { 2 * doubling((k - 1) as nat) }
}

/// Delay before the retry that follows failed attempt `attempt` (counting from 0): the base
/// doubled per attempt (at most six doublings). A host build waits no minimum.
pub open spec fn retry_delay(base_ms: u64, attempt: u32) -> u64 {
    let shift: nat = if attempt < 6 { attempt as nat } else { 6 };
    (base_ms * doubling(shift)) as u64
}

/// What follows a failed attempt: a retry after the returned delay, or `None` when the attempts
/// are used up (the last error is then returned).
pub fn retry_after_failure(attempt: u32, retries: u32, base_ms: u64) -> (r: Option<u64>)
    requires
        base_ms <= u64::MAX / 64,
    ensures
        (attempt as int) + 1 < retries ==> r == Some(retry_delay(base_ms, attempt)),
        (attempt as int) + 1 >= retries ==> r is None,
{
    if attempt >= retries || retries - attempt <= 1 {
        return None;
    }
    let shift: u32 = if attempt < 6 { attempt } else { 6 };
    let mut factor: u64 = 1;
    let mut k: u32 = 0;
    while k < shift
        invariant
            k <= shift <= 6,
            factor == doubling(k as nat),
            factor <= 64,
        decreases shift - k,
    {
        proof {
            assert(doubling((k + 1) as nat) == 2 * doubling(k as nat));
            assert(factor <= 32) by {
                reveal_with_fuel(doubling, 7);
            }
        }
        factor = factor * 2;
        k = k + 1;
    }
    assert(base_ms * factor <= u64::MAX) by (nonlinear_arith)
        requires base_ms <= u64::MAX / 64, factor <= 64;
    Some(base_ms * factor)
}

/// The URL of a source: `default` when the configured one is blank, else the configured one
/// without trailing slashes.
pub open spec fn trim_trailing_slashes(s: Seq<char>) -> Seq<char>
    decreases s.len(),
{
    if s.len() > 0 && s.last() == '/' { trim_trailing_slashes(s.drop_last()) } else { s }
}

/// `str::trim_end_matches('/')`.
pub fn strip_trailing_slashes(s: &str) -> (r: String)
    ensures
        r@ == trim_trailing_slashes(s@),
{
    let v = crate::text::str_to_chars(s);
    let mut n: usize = v.len();
    assert(v@.take(n as int) == v@);
    while n > 0 && v[n - 1] == '/'
        invariant
            n <= v.len(),
            trim_trailing_slashes(v@) == trim_trailing_slashes(v@.take(n as int)),
        decreases n,
    {
        assert(v@.take(n as int).drop_last() == v@.take(n as int - 1));
        n = n - 1;
    }
    let mut out: Vec<char> = Vec::new();
    let mut i: usize = 0;
    while i < n
        invariant
            i <= n <= v.len(),
            out@ == v@.take(i as int),
        decreases n - i,
    {
        out.push(v[i]);
        assert(v@.take(i as int + 1) == v@.take(i as int).push(v@[i as int]));
        i = i + 1;
    }
    assert(trim_trailing_slashes(v@.take(n as int)) == v@.take(n as int));
    crate::text::chars_to_string(&out)
}

} // verus!
