//! UTF-8 checks and conversions between byte vectors and strings.
use vstd::prelude::*;
use vstd::utf8::*;

verus! {

/// `std::str::from_utf8`: whether the bytes are well-formed UTF-8.
#[verifier::external_body]
pub(crate) fn is_valid_utf8(bytes: &[u8]) -> (r: bool)
    ensures
        r == valid_utf8(bytes@),
{
    std::str::from_utf8(bytes).is_ok()
}

/// `String::from_utf8`: the string that well-formed UTF-8 bytes encode, or `None`.
#[verifier::external_body]
pub(crate) fn string_from_utf8(bytes: Vec<u8>) -> (r: Option<String>)
    ensures
        r is Some <==> valid_utf8(bytes@),
        r matches Some(s) ==> s@ == decode_utf8(bytes@),
{
    String::from_utf8(bytes).ok()
}

/// Dropping a leading ASCII byte from well-formed UTF-8 leaves well-formed UTF-8.
pub proof fn lemma_valid_drop_ascii(s: Seq<u8>)
    requires
        valid_utf8(s),
        s.len() > 0,
        s[0] <= 0x7f,
    ensures
        valid_utf8(s.subrange(1, s.len() as int)),
{
}

/// The bytes of well-formed UTF-8 that follow an ASCII byte form well-formed UTF-8.
pub proof fn lemma_valid_after_ascii(s: Seq<u8>, p: int)
    requires
        valid_utf8(s),
        0 <= p < s.len(),
        s[p] <= 0x7f,
    ensures
        valid_utf8(s.subrange(p + 1, s.len() as int)),
{
    is_char_boundary_iff_not_is_continuation_byte(s, p);
    valid_utf8_split(s, p);
    let t = s.subrange(p, s.len() as int);
    lemma_valid_drop_ascii(t);
    assert(t.subrange(1, t.len() as int) == s.subrange(p + 1, s.len() as int));
}

/// A single ASCII byte is well-formed UTF-8.
pub proof fn lemma_valid_ascii_byte(b: u8)
    requires
        b <= 0x7f,
    ensures
        valid_utf8(seq![b]),
{
    reveal_with_fuel(valid_utf8, 2);
    assert(seq![b].subrange(1, 1) == Seq::<u8>::empty());
}

/// The empty byte sequence is well-formed and decodes to no characters.
pub proof fn lemma_valid_empty()
    ensures
        valid_utf8(Seq::<u8>::empty()),
        decode_utf8(Seq::<u8>::empty()) == Seq::<char>::empty(),
{
}

} // verus!
