//! The heartbeat to-do file: at most 8 KiB of it is read, as text.
use vstd::prelude::*;
use vstd::utf8::*;

use crate::error::Error;

verus! {

/// Most bytes of the heartbeat file that are read.
pub const MAX_HEARTBEAT_LEN: usize = 8192;

/// What `String::from_utf8_lossy` makes of a byte sequence (ill-formed parts become U+FFFD).
pub uninterp spec fn lossy_utf8(bytes: Seq<u8>) -> Seq<char>;

/// `String::from_utf8_lossy`: the text of the bytes, with each ill-formed part replaced by
/// U+FFFD; well-formed UTF-8 comes back unchanged.
#[verifier::external_body]
fn utf8_lossy(bytes: &[u8]) -> (r: String)
    ensures
        r@ == lossy_utf8(bytes@),
        valid_utf8(bytes@) ==> r@ == decode_utf8(bytes@),
{
    String::from_utf8_lossy(bytes).into_owned()
}

/// The bytes that are kept of a file: the first `MAX_HEARTBEAT_LEN`.
pub open spec fn heartbeat_prefix(bytes: Seq<u8>) -> Seq<u8> {
    if bytes.len() > MAX_HEARTBEAT_LEN { bytes.take(MAX_HEARTBEAT_LEN as int) } else { bytes }
}

/// The heartbeat text from the result of reading the file: empty when the file is missing
/// or unreadable (`None`), else its first 8 KiB decoded leniently.
pub fn read_heartbeat_file(contents: Option<Vec<u8>>) -> (r: Result<String, Error>)
    ensures
        r is Ok,
        contents is None ==> (r matches Ok(s) && s@ == Seq::<char>::empty()),
        contents matches Some(b) ==> (r matches Ok(s) && s@ == lossy_utf8(heartbeat_prefix(b@))),
{
    match contents {
        None => Ok(String::new()),
        Some(buf) => {
            if buf.len() > MAX_HEARTBEAT_LEN {
                let capped = slice_prefix(buf.as_slice(), MAX_HEARTBEAT_LEN);
                Ok(utf8_lossy(capped))
            } else {
                Ok(utf8_lossy(buf.as_slice()))
            }
        },
    }
}

fn slice_prefix(s: &[u8], n: usize) -> (r: &[u8])
    requires
        n <= s@.len(),
    ensures
        r@ == s@.take(n as int),
{
    let (head, _tail) = s.split_at(n);
    head
}

} // verus!
