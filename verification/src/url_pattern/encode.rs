//! Percent-encoding of literal template tokens.

use vstd::prelude::*;
use vstd::string::*;
use vstd::utf8::*;

verus! {

/// A byte that percent-encoding leaves as it is: an ASCII letter or digit,
/// `-`, `.`, `_` or `~`.
pub open spec fn is_unreserved(b: u8) -> bool {
    ||| 0x30 <= b <= 0x39
    ||| 0x41 <= b <= 0x5a
    ||| 0x61 <= b <= 0x7a
    ||| b == 0x2d
    ||| b == 0x2e
    ||| b == 0x5f
    ||| b == 0x7e
}

/// The upper-case hexadecimal digit for a value below sixteen.
pub open spec fn hex_digit(d: int) -> char {
    if d < 10 {
        ((0x30 + d) as u8) as char
    } else {
        ((0x41 + d - 10) as u8) as char
    }
}

/// One byte, percent-encoded: itself where it is unreserved, else `%` and
/// its two hexadecimal digits.
pub open spec fn percent_encode_byte(b: u8) -> Seq<char> {
    if is_unreserved(b) {
        seq![b as char]
    } else {
        seq!['%', hex_digit(b as int / 16), hex_digit(b as int % 16)]
    }
}

/// A byte sequence, percent-encoded byte by byte.
pub open spec fn percent_encode(bytes: Seq<u8>) -> Seq<char>
    decreases bytes.len(),
{
    if bytes.len() == 0 {
        Seq::empty()
    } else {
        percent_encode_byte(bytes[0]) + percent_encode(bytes.drop_first())
    }
}

/// The stored form of a literal token: the percent-encoding of its UTF-8
/// bytes.
pub open spec fn encoded_literal(raw: Seq<char>) -> Seq<char> {
    percent_encode(encode_utf8(raw))
}

/// A code point that percent-encoded text may hold: `%`, or the code point
/// of an unreserved byte.
pub open spec fn is_encoded_char(c: char) -> bool {
    c == '%' || exists|b: u8| is_unreserved(b) && c == b as char
}

/// Calls `urlencoding::encode` on `raw`.
///
/// Trusted: the result is the percent-encoding of the UTF-8 bytes of `raw`,
/// every byte but ASCII letters, digits, `-`, `.`, `_` and `~` written as `%`
/// and two upper-case hexadecimal digits, as the crate documents.
#[verifier::external_body]
pub(crate) fn percent_encode_str(raw: &str) -> (encoded: String)
    ensures
        encoded@ == percent_encode(raw.spec_bytes()),
{
    urlencoding::encode(raw).into_owned()
}

/// Percent-encoded text holds nothing but `%` and unreserved code points.
pub proof fn lemma_percent_encode_chars(bytes: Seq<u8>)
    ensures
        forall|i: int|
            0 <= i < percent_encode(bytes).len() ==> is_encoded_char(
                #[trigger] percent_encode(bytes)[i],
            ),
    decreases bytes.len(),
{
    if bytes.len() > 0 {
        let head = percent_encode_byte(bytes[0]);
        let tail = percent_encode(bytes.drop_first());
        lemma_percent_encode_chars(bytes.drop_first());
        let b = bytes[0];
        let hi: u8 = if b / 16 < 10 {
            (0x30 + b / 16) as u8
        } else {
            (0x41 + b / 16 - 10) as u8
        };
        let lo: u8 = if b % 16 < 10 {
            (0x30 + b % 16) as u8
        } else {
            (0x41 + b % 16 - 10) as u8
        };
        assert(is_unreserved(hi) && is_unreserved(lo));
        assert forall|i: int| 0 <= i < head.len() implies is_encoded_char(#[trigger] head[i]) by {
            if !is_unreserved(b) && i > 0 {
                assert(head[i] == hi as char || head[i] == lo as char);
            }
        }
    }
}

/// Percent-encoded text never holds `/` and never `<`.
pub proof fn lemma_percent_encode_reserves(bytes: Seq<u8>)
    ensures
        !percent_encode(bytes).contains('/'),
        !percent_encode(bytes).contains('<'),
{
    lemma_percent_encode_chars(bytes);
}

} // verus!
