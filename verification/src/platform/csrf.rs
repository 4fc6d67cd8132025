//! CSRF token: generated from 16 random bytes as lower-case hex, checked in constant time.
use vstd::prelude::*;
use vstd::utf8::*;

use crate::text::{chars_to_string, push_char};

verus! {

/// Lower-case hex digit of a nibble.
pub open spec fn hex_digit(d: nat) -> char {
    if d < 10 { ((d + 48) as u8) as char } else { ((d + 87) as u8) as char }
}

/// Lower-case hex of bytes, high nibble first.
pub open spec fn hex(bytes: Seq<u8>) -> Seq<char>
    decreases bytes.len(),
{
    if bytes.len() == 0 {
        Seq::empty()
    } else {
        let b = bytes.last();
        hex(bytes.drop_last()).push(hex_digit((b / 16) as nat)).push(hex_digit((b % 16) as nat))
    }
}

fn hex_char(d: u8) -> (c: char)
    requires
        d < 16,
    ensures
        c == hex_digit(d as nat),
{
    if d < 10 {
        (48u8 + d) as char
    } else {
        (87u8 + d) as char
    }
}

/// Lower-case hex of bytes.
pub fn hex_encode(bytes: &[u8]) -> (s: String)
    ensures
        s@ == hex(bytes@),
{
    let mut s = String::new();
    let mut i: usize = 0;
    while i < bytes.len()
        invariant
            i <= bytes.len(),
            s@ == hex(bytes@.take(i as int)),
        decreases bytes.len() - i,
    {
        let b = bytes[i];
        assert(bytes@.take(i as int + 1).drop_last() == bytes@.take(i as int));
        push_char(&mut s, hex_char(b / 16));
        push_char(&mut s, hex_char(b % 16));
        i = i + 1;
    }
    assert(bytes@.take(bytes.len() as int) == bytes@);
    s
}

/// Number of random bytes in a token.
pub const TOKEN_BYTES: usize = 16;

/// The fallback token bytes of a host without a random source: byte `i` is the low byte of
/// `seed * (i + 1)` (wrapping multiplication).
pub open spec fn seeded_byte(seed: u64, i: nat) -> u8 {
    (((seed as nat) * (i + 1)) % 18446744073709551616nat % 256) as u8
}

pub fn seeded_token_bytes(seed: u64) -> (r: [u8; 16])
    ensures
        forall|i: int| 0 <= i < TOKEN_BYTES ==> #[trigger] r@[i] == seeded_byte(seed, i as nat),
{
    let mut r: [u8; 16] = [0u8; 16];
    let mut i: usize = 0;
    while i < TOKEN_BYTES
        invariant
            i <= TOKEN_BYTES,
            forall|j: int| 0 <= j < i ==> #[trigger] r@[j] == seeded_byte(seed, j as nat),
        decreases TOKEN_BYTES - i,
    {
        let m = seed.wrapping_mul(i as u64 + 1);
        r[i] = (m % 256) as u8;
        i = i + 1;
    }
    r
}

/// Compares two strings byte by byte without stopping at the first difference.
pub fn constant_time_eq(a: &str, b: &str) -> (r: bool)
    ensures
        r == (a@ == b@),
{
    let x = a.as_bytes();
    let y = b.as_bytes();
    proof {
        encode_utf8_decode_utf8(a@);
        encode_utf8_decode_utf8(b@);
    }
    if x.len() != y.len() {
        return false;
    }
    let mut diff: u8 = 0;
    let mut i: usize = 0;
    while i < x.len()
        invariant
            i <= x.len() == y.len(),
            (diff == 0) == (forall|j: int| 0 <= j < i ==> x@[j] == y@[j]),
        decreases x.len() - i,
    {
        let d = diff;
        let p = x[i];
        let q = y[i];
        assert(((d | (p ^ q)) == 0) == (d == 0 && p == q)) by (bit_vector);
        diff = d | (p ^ q);
        i = i + 1;
    }
    if diff == 0 {
        assert(x@ =~= y@);
        true
    } else {
        false
    }
}

/// The CSRF token store.
pub struct CsrfTokens {
    token: Option<String>,
}

impl CsrfTokens {
    pub closed spec fn current(&self) -> Option<Seq<char>> {
        match self.token {
            Some(t) => Some(t@),
            None => None,
        }
    }

    /// A store without a token.
    pub fn new() -> (r: Self)
        ensures
            r.current() is None,
    {
        CsrfTokens { token: None }
    }
}

/// A lower-case hex digit.
pub open spec fn is_lower_hex(c: char) -> bool {
    ('0' <= c <= '9') || ('a' <= c <= 'f')
}

/// Every character of a hex rendering is a lower-case hex digit.
pub proof fn lemma_hex_lower(bytes: Seq<u8>)
    ensures
        forall|i: int| 0 <= i < hex(bytes).len() ==> is_lower_hex(#[trigger] hex(bytes)[i]),
    decreases bytes.len(),
{
    lemma_hex_len(bytes);
    if bytes.len() > 0 {
        lemma_hex_lower(bytes.drop_last());
        lemma_hex_len(bytes.drop_last());
        let b = bytes.last();
        assert(is_lower_hex(hex_digit((b / 16) as nat)));
        assert(is_lower_hex(hex_digit((b % 16) as nat)));
    }
}

/// The token of 16 random bytes: their lower-case hex, 32 characters long.
pub fn generate_token(random: &[u8; 16]) -> (s: String)
    ensures
        s@ == hex(random@),
        s@.len() == 32,
        forall|i: int| 0 <= i < s@.len() ==> is_lower_hex(#[trigger] s@[i]),
{
    proof {
        lemma_hex_len(random@);
        lemma_hex_lower(random@);
    }
    hex_encode(random)
}

/// Sets the token from 16 fresh random bytes (called once at startup).
pub fn init(store: &mut CsrfTokens, random: &[u8; 16])
    ensures
        final(store).current() == Some(hex(random@)),
        hex(random@).len() == 32,
        forall|i: int| 0 <= i < hex(random@).len() ==> is_lower_hex(#[trigger] hex(random@)[i]),
{
    store.token = Some(generate_token(random));
}

/// The current token.
pub fn get_token(store: &CsrfTokens) -> (r: Option<String>)
    ensures
        match r { Some(t) => store.current() == Some(t@), None => store.current() is None },
{
    match &store.token {
        Some(t) => Some(t.clone()),
        None => None,
    }
}

/// Whether a request's token matches the current one; without a token nothing matches.
pub fn verify_token(store: &CsrfTokens, token: &str) -> (r: bool)
    ensures
        r == (store.current() == Some(token@)),
{
    match &store.token {
        Some(expected) => constant_time_eq(token, expected.as_str()),
        None => false,
    }
}

/// A token has two hex digits per random byte.
pub proof fn lemma_hex_len(bytes: Seq<u8>)
    ensures
        hex(bytes).len() == 2 * bytes.len(),
    decreases bytes.len(),
{
    if bytes.len() > 0 {
        lemma_hex_len(bytes.drop_last());
    }
}

/// Different random bytes give different tokens, so a token set by `init` from fresh bytes
/// verifies only for the bytes it was made from.
pub proof fn lemma_hex_injective(a: Seq<u8>, b: Seq<u8>)
    requires
        hex(a) == hex(b),
    ensures
        a == b,
    decreases a.len(),
{
    lemma_hex_len(a);
    lemma_hex_len(b);
    if a.len() > 0 {
        let ha = hex(a.drop_last());
        let hb = hex(b.drop_last());
        let x = a.last();
        let y = b.last();
        let n = hex(a).len();
        assert(hex(a)[n - 2] == hex_digit((x / 16) as nat));
        assert(hex(b)[n - 2] == hex_digit((y / 16) as nat));
        assert(hex(a)[n - 1] == hex_digit((x % 16) as nat));
        assert(hex(b)[n - 1] == hex_digit((y % 16) as nat));
        assert(x / 16 == y / 16);
        assert(x % 16 == y % 16);
        assert(x == y);
        assert(ha == hex(a).take(n - 2));
        assert(hb == hex(b).take(n - 2));
        lemma_hex_injective(a.drop_last(), b.drop_last());
        assert(a == a.drop_last().push(x));
        assert(b == b.drop_last().push(y));
    }
}

} // verus!
