//! Reversible text encodings of byte buffers (hex, Base64), through the
//! `subtle-encoding` crate.

use crate::error::ErrorKind;
use vstd::prelude::*;

verus! {

/// The lower-case hexadecimal digit of a value below 16.
pub open spec fn hex_digit(n: u8) -> u8 {
    if n < 10 {
        (48 + n) as u8
    } else {
        (87 + n) as u8
    }
}

/// Lower-case hexadecimal text of `b`: two digits per byte, high nibble first.
pub open spec fn hex_text(b: Seq<u8>) -> Seq<u8> {
    Seq::new(
        2 * b.len(),
        |i: int|
            if i % 2 == 0 {
                hex_digit(b[i / 2] / 16)
            } else {
                hex_digit(b[i / 2] % 16)
            },
    )
}

/// Lower-case hexadecimal text of `b` with a colon between the bytes
/// (`ab:0f:90`), as keys are shown for humans.
pub open spec fn colon_hex_text(b: Seq<u8>) -> Seq<u8> {
    if b.len() == 0 {
        Seq::empty()
    } else {
        Seq::new(
            (3 * b.len() - 1) as nat,
            |i: int|
                if i % 3 == 2 {
                    58u8
                } else if i % 3 == 0 {
                    hex_digit(b[i / 3] / 16)
                } else {
                    hex_digit(b[i / 3] % 16)
                },
        )
    }
}

fn hex_digit_of(n: u8) -> (r: u8)
    requires
        n < 16,
    ensures
        r == hex_digit(n),
{
    if n < 10 {
        48 + n
    } else {
        87 + n
    }
}

/// Renders `bytes` as lower-case hexadecimal with a colon between the bytes.
pub fn colon_delimited_hex(bytes: &[u8]) -> (r: Vec<u8>)
    ensures
        r@ == colon_hex_text(bytes@),
{
    let n = bytes.len();
    let mut out: Vec<u8> = Vec::new();
    let mut i: usize = 0;
    while i < n
        invariant
            n == bytes@.len(),
            0 <= i <= n,
            out@.len() == if i == n && n > 0 {
                3 * n - 1
            } else {
                3 * i
            },
            forall|j: int| 0 <= j < out@.len() ==> out@[j] == #[trigger] colon_hex_text(bytes@)[j],
        decreases n - i,
    {
        let b = bytes[i];
        out.push(hex_digit_of(b / 16));
        out.push(hex_digit_of(b % 16));
        if i + 1 < n {
            out.push(58u8);
        }
        assert forall|j: int| 3 * i <= j < out@.len() implies out@[j] == colon_hex_text(
            bytes@,
        )[j] by {
            assert(j / 3 == i);
        }
        i = i + 1;
    }
    assert(out@ =~= colon_hex_text(bytes@));
    out
}

/// The value of a lower-case hexadecimal digit, or `None` for any other byte.
pub open spec fn hex_value(c: u8) -> Option<u8> {
    if 48 <= c <= 57 {
        Some((c - 48) as u8)
    } else if 97 <= c <= 102 {
        Some((c - 87) as u8)
    } else {
        None
    }
}

/// The bytes that lower-case hexadecimal text `s` stands for, or `None` where
/// `s` has odd length or a byte that is not a lower-case hexadecimal digit.
pub open spec fn hex_decoded(s: Seq<u8>) -> Option<Seq<u8>> {
    if s.len() % 2 == 0 && forall|i: int| 0 <= i < s.len() ==> (#[trigger] hex_value(s[i])) is Some {
        Some(
            Seq::new(
                s.len() / 2,
                |i: int| (16 * hex_value(s[2 * i])->Some_0 + hex_value(s[2 * i + 1])->Some_0) as u8,
            ),
        )
    } else {
        None
    }
}

/// Lower-case hexadecimal text decodes to the bytes it was made from.
pub proof fn lemma_hex_round_trip(b: Seq<u8>)
    ensures
        hex_decoded(hex_text(b)) == Some(b),
{
    let s = hex_text(b);
    assert forall|i: int| 0 <= i < s.len() implies (#[trigger] hex_value(s[i])) is Some by {
        assert(b[i / 2] / 16 < 16);
    }
    let d = hex_decoded(s)->Some_0;
    assert forall|i: int| 0 <= i < b.len() implies d[i] == b[i] by {
        assert((2 * i) / 2 == i);
        assert((2 * i + 1) / 2 == i);
        assert((2 * i) % 2 == 0);
        assert((2 * i + 1) % 2 == 1);
        let x = b[i];
        assert(16 * (x / 16) + x % 16 == x);
    }
    assert(d =~= b);
}

/// What `subtle_encoding::base64::encode` makes of `b`.
pub uninterp spec fn base64_text(b: Seq<u8>) -> Seq<u8>;

/// Whether `subtle_encoding::base64::decode` can take `s`: the last group of
/// `s` (what is left after whole four-byte groups are taken off the front)
/// does not start with `=`. Only such text can be Base64.
pub open spec fn base64_decodable(s: Seq<u8>) -> bool {
    s.len() == 0 || s[4 * ((s.len() - 1) / 4)] != 61u8
}

/// What `subtle_encoding::base64::decode` makes of `s`: the bytes, or `None`
/// where `s` is not Base64.
pub uninterp spec fn base64_decoded(s: Seq<u8>) -> Option<Seq<u8>>;

/// Relies on `subtle_encoding::hex::encode`: lower-case hexadecimal, two
/// digits per byte, high nibble first.
#[verifier::external_body]
fn hex_encode(bytes: &[u8]) -> (r: Vec<u8>)
    requires
        bytes@.len() <= usize::MAX / 4,
    ensures
        r@ == hex_text(bytes@),
{
    subtle_encoding::hex::encode(bytes)
}

/// Relies on `subtle_encoding::hex::decode` (lower case): the decoded bytes,
/// or `None` in place of its error, which it returns exactly for text of odd
/// length or with a byte that is not a lower-case hexadecimal digit.
#[verifier::external_body]
fn hex_decode(text: &[u8]) -> (r: Option<Vec<u8>>)
    ensures
        r is Some <==> hex_decoded(text@) is Some,
        r matches Some(v) ==> hex_decoded(text@) == Some(v@),
{
    subtle_encoding::hex::decode(text).ok()
}

/// Relies on `subtle_encoding::base64::encode`: Base64 text in whole
/// four-byte groups, with at most two `=` at the end of the last, which
/// `base64::decode` turns back into the same bytes.
#[verifier::external_body]
fn base64_encode(bytes: &[u8]) -> (r: Vec<u8>)
    requires
        bytes@.len() <= usize::MAX / 4,
    ensures
        r@ == base64_text(bytes@),
        base64_decodable(r@),
        base64_decoded(r@) == Some(bytes@),
{
    subtle_encoding::base64::encode(bytes)
}

/// Relies on `subtle_encoding::base64::decode`: the decoded bytes, or `None`
/// in place of its error. Text whose last group starts with `=` makes it
/// panic, so such text is left out.
#[verifier::external_body]
fn base64_decode(text: &[u8]) -> (r: Option<Vec<u8>>)
    requires
        base64_decodable(text@),
    ensures
        r is Some <==> base64_decoded(text@) is Some,
        r matches Some(v) ==> base64_decoded(text@) == Some(v@),
{
    subtle_encoding::base64::decode(text).ok()
}

/// A named, reversible text encoding of byte buffers.
#[derive(Copy, Clone, Debug, PartialEq, Eq, Structural)]
pub enum Encoding {
    /// Lower-case hexadecimal.
    Hex,
    /// Standard Base64 with padding.
    Base64,
}

/// The text that `e` makes of `b`.
pub open spec fn encoded(e: Encoding, b: Seq<u8>) -> Seq<u8> {
    match e {
        Encoding::Hex => hex_text(b),
        Encoding::Base64 => base64_text(b),
    }
}

/// The bytes that `e` reads from `s`, or `None` where `s` is not in `e`.
pub open spec fn decoded(e: Encoding, s: Seq<u8>) -> Option<Seq<u8>> {
    match e {
        Encoding::Hex => hex_decoded(s),
        Encoding::Base64 => if base64_decodable(s) {
            base64_decoded(s)
        } else {
            None
        },
    }
}

/// Whether the last group of `text` starts with something other than `=`.
fn is_base64_decodable(text: &[u8]) -> (r: bool)
    ensures
        r == base64_decodable(text@),
{
    let n = text.len();
    if n == 0 {
        return true;
    }
    let start = 4 * ((n - 1) / 4);
    text[start] != 61u8
}

impl Encoding {
    /// Encodes `bytes` as text.
    pub fn encode_vec(&self, bytes: &[u8]) -> (r: Vec<u8>)
        requires
            bytes@.len() <= usize::MAX / 4,
        ensures
            r@ == encoded(*self, bytes@),
            decoded(*self, r@) == Some(bytes@),
    {
        match self {
            Encoding::Hex => {
                let r = hex_encode(bytes);
                proof {
                    lemma_hex_round_trip(bytes@);
                }
                r
            },
            Encoding::Base64 => base64_encode(bytes),
        }
    }

    /// Decodes `text`; text that is not in this encoding is an invalid key.
    pub fn decode_vec(&self, text: &[u8]) -> (r: Result<Vec<u8>, crate::error::Error>)
        ensures
            r is Ok <==> decoded(*self, text@) is Some,
            r matches Ok(v) ==> decoded(*self, text@) == Some(v@),
            r matches Err(e) ==> e.kind == ErrorKind::KeyInvalid,
    {
        let result = match self {
            Encoding::Hex => hex_decode(text),
            Encoding::Base64 => if is_base64_decodable(text) {
                base64_decode(text)
            } else {
                None
            },
        };
        match result {
            Some(v) => Ok(v),
            None => Err(crate::error::Error::new(ErrorKind::KeyInvalid)),
        }
    }
}

} // verus!
