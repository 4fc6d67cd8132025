//! Decisions of the host HTTP client: the proxy URL it hands to the HTTP library, the default
//! headers of a bare POST, and how response bodies are capped while they are read.
use vstd::prelude::*;

use crate::text::{chars_to_string, decimal, extend_with_str, push_decimal, str_to_chars, to_string};

verus! {

/// Connect timeout of a request (ms).
pub const CONNECT_TIMEOUT_MS: u64 = 15000;
/// Timeout of one read (ms); streamed model replies can be slow.
pub const READ_TIMEOUT_MS: u64 = 60000;
/// Timeout of one write (ms).
pub const WRITE_TIMEOUT_MS: u64 = 30000;
/// How long a request waits for an HTTP permit (s).
pub const TLS_ADMISSION_TIMEOUT_SECS: u64 = 30;
/// Size of one read from a response (bytes).
pub const RESPONSE_READ_CHUNK: usize = 16384;
/// Most bytes read and dropped after a body is cut, to leave the connection clean.
pub const MAX_DRAIN_BYTES: usize = 524288;

/// An `https://` proxy is used as an HTTP CONNECT proxy: the scheme becomes `http://`.
pub open spec fn proxy_for_agent(url: Seq<char>) -> Seq<char> {
    if url.len() >= 8 && url.take(8) == "https://"@ { "http://"@ + url.skip(8) } else { url }
}

/// The proxy URL handed to the HTTP library for a trimmed configured one.
pub fn normalize_proxy_for_ureq(trimmed: &str) -> (r: String)
    ensures
        r@ == proxy_for_agent(trimmed@),
{
    let v = str_to_chars(trimmed);
    let prefix = str_to_chars("https://");
    proof {
        reveal_strlit("https://");
        assert(prefix@.len() == 8);
    }
    let mut is_https = v.len() >= 8;
    let mut i: usize = 0;
    while is_https && i < 8
        invariant
            i <= 8,
            prefix@ == "https://"@,
            prefix@.len() == 8,
            is_https ==> v@.len() >= 8,
            is_https ==> forall|j: int| 0 <= j < i ==> v@[j] == prefix@[j],
            !is_https ==> !(v@.len() >= 8 && v@.take(8) == "https://"@),
        decreases 8 - i,
    {
        if v[i] != prefix[i] {
            is_https = false;
            assert(v@.take(8)[i as int] != "https://"@[i as int]);
        }
        i = i + 1;
    }
    if is_https {
        assert(v@.take(8) =~= "https://"@);
        let mut out: Vec<char> = Vec::new();
        extend_with_str(&mut out, "http://");
        let mut k: usize = 8;
        while k < v.len()
            invariant
                8 <= k <= v@.len(),
                out@ == "http://"@ + v@.subrange(8, k as int),
            decreases v.len() - k,
        {
            out.push(v[k]);
            assert(v@.subrange(8, k as int + 1) =~= v@.subrange(8, k as int).push(v@[k as int]));
            k = k + 1;
        }
        assert(v@.subrange(8, v@.len() as int) =~= v@.skip(8));
        chars_to_string(&out)
    } else {
        to_string(trimmed)
    }
}

/// Headers of a POST sent without any: a JSON content type and the body length.
pub fn default_post_headers(body_len: usize) -> (r: Vec<(String, String)>)
    ensures
        r@.len() == 2,
        r@[0].0@ == "content-type"@,
        r@[0].1@ == "application/json"@,
        r@[1].0@ == "content-length"@,
        r@[1].1@ == decimal(body_len as nat),
{
    let mut len_text: Vec<char> = Vec::new();
    push_decimal(&mut len_text, body_len as u64);
    let mut r: Vec<(String, String)> = Vec::new();
    r.push((to_string("content-type"), to_string("application/json")));
    r.push((to_string("content-length"), chars_to_string(&len_text)));
    r
}

/// What keeps being read after a chunk of a capped body.
pub open spec fn body_room(len: nat, max_len: nat) -> nat {
    if len >= max_len { 0 } else { (max_len - len) as nat }
}

/// Adds one read chunk to a body capped at `max_len` bytes: as much of it as fits is kept.
/// Returns whether reading goes on: not once the body is full or the chunk was cut (the
/// rest of the response is then drained).
pub fn accept_body_chunk(out: &mut Vec<u8>, chunk: &[u8], max_len: usize) -> (go_on: bool)
    ensures
        final(out)@ == old(out)@ + chunk@.take(
            if chunk@.len() <= body_room(old(out)@.len(), max_len as nat) { chunk@.len() as int }
            else { body_room(old(out)@.len(), max_len as nat) as int }),
        go_on == (body_room(old(out)@.len(), max_len as nat) > 0
            && chunk@.len() <= body_room(old(out)@.len(), max_len as nat)),
{
    let remain: usize = if out.len() >= max_len { 0 } else { max_len - out.len() };
    if remain == 0 {
        assert(chunk@.take(0) =~= Seq::<u8>::empty());
        assert(old(out)@ + Seq::<u8>::empty() =~= old(out)@);
        return false;
    }
    let take = if chunk.len() < remain { chunk.len() } else { remain };
    let mut i: usize = 0;
    while i < take
        invariant
            i <= take <= chunk@.len(),
            out@ == old(out)@ + chunk@.take(i as int),
        decreases take - i,
    {
        out.push(chunk[i]);
        assert(chunk@.take(i as int + 1) =~= chunk@.take(i as int).push(chunk@[i as int]));
        i = i + 1;
    }
    take == chunk.len()
}

/// A capped body never grows beyond its cap.
pub proof fn lemma_body_within_cap(len: nat, n: nat, max_len: nat)
    requires
        len <= max_len,
    ensures
        len + (if n <= body_room(len, max_len) { n } else { body_room(len, max_len) }) <= max_len,
{
}

/// One chunk of a streamed body: the new running total, or `None` when it would pass
/// `max_len` (the stream is then cut and the chunk is not handed on).
pub fn streaming_budget(total: usize, n: usize, max_len: usize) -> (r: Option<usize>)
    requires
        total + n <= usize::MAX,
    ensures
        r == (if total + n > max_len { None } else { Some((total + n) as usize) }),
{
    let t = total + n;
    if t > max_len { None } else { Some(t) }
}

/// One chunk read while draining: the new total and whether draining goes on (it stops at
/// `MAX_DRAIN_BYTES`).
pub fn drain_step(total: usize, n: usize) -> (r: (usize, bool))
    requires
        total + n <= usize::MAX,
    ensures
        r.0 == total + n,
        r.1 == (total + n < MAX_DRAIN_BYTES),
{
    let t = total + n;
    (t, t < MAX_DRAIN_BYTES)
}

} // verus!
