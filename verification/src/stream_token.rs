//! Cache of the tenant access token that the streaming message editor of the Feishu channel
//! sends with each request: a token is reused until it is older than its time to live, and
//! dropped when a request made with it fails.
use vstd::prelude::*;

use crate::error::Error;

verus! {

/// Time to live of a cached tenant token: two hours less five minutes (ms).
pub const FEISHU_STREAM_TOKEN_TTL_MS: u64 = 6900000;

/// The cached token and the time it was acquired at (ms on a monotonic clock).
pub struct FeishuStreamState {
    pub token: Option<(String, u64)>,
}

/// Whether a token acquired at `acquired_ms` must be fetched again at `now_ms`.
pub open spec fn token_expired(acquired_ms: u64, now_ms: u64) -> bool {
    now_ms >= acquired_ms && now_ms - acquired_ms >= FEISHU_STREAM_TOKEN_TTL_MS
}

impl FeishuStreamState {
    /// The cache as (token text, acquired at).
    pub open spec fn cached(&self) -> Option<(Seq<char>, u64)> {
        match self.token {
            Some((t, at)) => Some((t@, at)),
            None => None,
        }
    }

    /// Whether a token has to be acquired before the next request at `now_ms`.
    pub open spec fn spec_needs_refresh(&self, now_ms: u64) -> bool {
        match self.token {
            Some((_, at)) => token_expired(at, now_ms),
            None => true,
        }
    }

    /// An empty cache.
    pub fn new() -> (r: Self)
        ensures
            r.cached() is None,
    {
        FeishuStreamState { token: None }
    }

    /// Whether a token has to be acquired before the next request at `now_ms`.
    pub fn needs_refresh(&self, now_ms: u64) -> (r: bool)
        ensures
            r == self.spec_needs_refresh(now_ms),
    {
        match &self.token {
            Some((_, at)) => now_ms >= *at && now_ms - *at >= FEISHU_STREAM_TOKEN_TTL_MS,
            None => true,
        }
    }

    /// The token for a request at `now_ms`. `acquired` is what the token endpoint answered,
    /// asked only when `needs_refresh(now_ms)` holds (`None`: no token came back). A fresh
    /// token is cached with `now_ms`; a cached one that has not expired is reused.
    pub fn ensure_token(&mut self, now_ms: u64, acquired: Option<String>) -> (r: Result<String, Error>)
        ensures
            old(self).spec_needs_refresh(now_ms) ==> match acquired {
                Some(t) => {
                    &&& r matches Ok(s) && s@ == t@
                    &&& final(self).cached() == Some((t@, now_ms))
                },
                None => {
                    &&& r matches Err(Error::Config { stage, message })
                    &&& stage == "feishu_stream"
                    &&& message@ == "failed to acquire tenant_token"@
                    &&& final(self).cached() == old(self).cached()
                },
            },
            !old(self).spec_needs_refresh(now_ms) ==> {
                &&& final(self).cached() == old(self).cached()
                &&& r matches Ok(s) && old(self).cached() matches Some((c, _)) && c == s@
            },
    {
        if self.needs_refresh(now_ms) {
            match acquired {
                Some(t) => {
                    let out = t.clone();
                    self.token = Some((t, now_ms));
                    Ok(out)
                },
                None => Err(
                    Error::Config {
                        stage: "feishu_stream",
                        message: crate::text::to_string("failed to acquire tenant_token"),
                    },
                ),
            }
        } else {
            match &self.token {
                Some((t, _)) => Ok(t.clone()),
                None => Err(
                    Error::Config {
                        stage: "feishu_stream",
                        message: crate::text::to_string("token missing after refresh"),
                    },
                ),
            }
        }
    }

    /// Drops the cached token (after a request made with it failed).
    pub fn invalidate(&mut self)
        ensures
            final(self).cached() is None,
    {
        self.token = None;
    }
}

/// A token cached at `at` is reused at every moment before `at` plus its time to live, and
/// fetched again from that moment on.
pub proof fn lemma_token_reuse_window(state: FeishuStreamState, t: Seq<char>, at: u64, now_ms: u64)
    requires
        state.cached() == Some((t, at)),
        at <= now_ms,
    ensures
        state.spec_needs_refresh(now_ms) <==> now_ms >= at + FEISHU_STREAM_TOKEN_TTL_MS,
{
}

/// After a dropped token the next request always acquires a new one.
pub proof fn lemma_invalidated_refreshes(state: FeishuStreamState, now_ms: u64)
    requires
        state.cached() is None,
    ensures
        state.spec_needs_refresh(now_ms),
{
}

} // verus!
