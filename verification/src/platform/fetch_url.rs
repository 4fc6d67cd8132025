//! Fetching a URL into bytes, which a host build does not offer.
use vstd::prelude::*;

use crate::error::Error;

verus! {

/// On a host build fetching a URL is not available: always a configuration error of stage
/// `fetch_url`.
pub fn fetch_url_to_bytes(url: &str, max_len: usize) -> (r: Result<Vec<u8>, Error>)
    ensures
        r matches Err(Error::Config { stage, message }) && stage == "fetch_url"
            && message@ == "fetch_url_to_bytes not available on host"@,
{
    Err(Error::Config { stage: "fetch_url", message: crate::text::to_string("fetch_url_to_bytes not available on host") })
}

} // verus!
