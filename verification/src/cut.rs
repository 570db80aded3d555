//! Cutting string slices at ASCII bytes.
//!
//! The functions here scan the UTF-8 bytes of a `&str` and hand back
//! sub-slices of it, while their contracts speak of code points only. The
//! lemmas in between rest on one fact of UTF-8: a byte below `0x80` occurs in
//! an encoding exactly where the code point of that value occurs in the text.

use crate::text::split_on;
use vstd::prelude::*;
use vstd::string::*;
use vstd::utf8::*;

verus! {

/// The views of a sequence of string slices.
pub open spec fn str_views(parts: Seq<&str>) -> Seq<Seq<char>> {
    parts.map_values(|s: &str| s@)
}

/// How one code point is encoded: an ASCII code point as the byte of the same
/// value, any other as two to four bytes that are all at least `0x80`.
proof fn lemma_encode_scalar_bytes(c: char)
    ensures
        encode_scalar(c as u32).len() >= 1,
        (c as u32) < 0x80 ==> encode_scalar(c as u32) == seq![c as u8],
        (c as u32) >= 0x80 ==> forall|i: int|
            0 <= i < encode_scalar(c as u32).len() ==> #[trigger] encode_scalar(c as u32)[i]
                >= 0x80,
{
    let v = c as u32;
    if v < 0x80 {
        assert((v & 0x7F) as u8 == v as u8) by (bit_vector)
            requires
                v < 0x80,
        ;
    } else {
        assert(0xC0u8 | (((v >> 6) & 0x1F) as u8) >= 0x80) by (bit_vector);
        assert(0xE0u8 | (((v >> 12) & 0x0F) as u8) >= 0x80) by (bit_vector);
        assert(0xF0u8 | (((v >> 18) & 0x7) as u8) >= 0x80) by (bit_vector);
        assert(0x80u8 | ((v & 0x3F) as u8) >= 0x80) by (bit_vector);
        assert(0x80u8 | (((v >> 6) & 0x3F) as u8) >= 0x80) by (bit_vector);
        assert(0x80u8 | (((v >> 12) & 0x3F) as u8) >= 0x80) by (bit_vector);
    }
}

/// Only the empty text has an empty encoding.
proof fn lemma_encoding_empty(chars: Seq<char>)
    ensures
        encode_utf8(chars).len() == 0 <==> chars.len() == 0,
{
    if chars.len() > 0 {
        lemma_encode_scalar_bytes(chars[0]);
    }
}

/// The encoding of a concatenation is the concatenation of the encodings.
proof fn lemma_encode_concat(a: Seq<char>, b: Seq<char>)
    ensures
        encode_utf8(a + b) == encode_utf8(a) + encode_utf8(b),
    decreases a.len(),
{
    if a.len() > 0 {
        lemma_encode_concat(a.drop_first(), b);
        assert((a + b).drop_first() =~= a.drop_first() + b);
    }
}

/// A text whose encoding lacks an ASCII byte lacks the code point of that
/// value.
proof fn lemma_ascii_absent(chars: Seq<char>, b: u8)
    requires
        b < 0x80,
        forall|i: int| 0 <= i < encode_utf8(chars).len() ==> encode_utf8(chars)[i] != b,
    ensures
        !chars.contains(b as char),
    decreases chars.len(),
{
    if chars.len() > 0 {
        let head = encode_scalar(chars[0] as u32);
        let tail = chars.drop_first();
        let bytes = encode_utf8(chars);
        lemma_encode_scalar_bytes(chars[0]);
        if chars[0] == b as char {
            assert(bytes[0] == head[0]);
        }
        assert forall|i: int| 0 <= i < encode_utf8(tail).len() implies encode_utf8(tail)[i]
            != b by {
            assert(bytes[head.len() + i] == encode_utf8(tail)[i]);
        }
        lemma_ascii_absent(tail, b);
        assert forall|i: int| 0 <= i < chars.len() implies chars[i] != b as char by {
            if i > 0 {
                assert(chars[i] == tail[i - 1]);
            }
        }
    }
}

/// The first byte of an encoding is an ASCII byte exactly when the text
/// starts with the code point of that value.
proof fn lemma_first_byte(chars: Seq<char>, b: u8)
    requires
        b < 0x80,
        chars.len() > 0,
    ensures
        encode_utf8(chars).len() > 0,
        encode_utf8(chars)[0] == b <==> chars[0] == b as char,
{
    lemma_encode_scalar_bytes(chars[0]);
    if (chars[0] as u32) < 0x80 {
        char_u32_cast(chars[0], chars[0] as u32);
    }
}

/// The last byte of an encoding is an ASCII byte exactly when the text ends
/// with the code point of that value.
proof fn lemma_last_byte(chars: Seq<char>, b: u8)
    requires
        b < 0x80,
        chars.len() > 0,
    ensures
        encode_utf8(chars).len() > 0,
        encode_utf8(chars).last() == b <==> chars.last() == b as char,
{
    let init = chars.drop_last();
    let last = seq![chars.last()];
    let tail = encode_scalar(chars.last() as u32);
    assert(init + last =~= chars);
    lemma_encode_concat(init, last);
    lemma_encode_scalar_bytes(chars.last());
    assert(encode_utf8(last) =~= tail) by {
        reveal_with_fuel(encode_utf8, 2);
    }
    if (chars.last() as u32) < 0x80 {
        char_u32_cast(chars.last(), chars.last() as u32);
    }
}

/// A text encoded as one ASCII byte is the one code point of that value.
proof fn lemma_single_ascii(chars: Seq<char>, b: u8)
    requires
        b < 0x80,
        encode_utf8(chars) == seq![b],
    ensures
        chars == seq![b as char],
{
    lemma_encoding_empty(chars);
    lemma_first_byte(chars, b);
    lemma_encode_scalar_bytes(chars[0]);
    let tail = chars.drop_first();
    lemma_encoding_empty(tail);
}

/// Two texts with the same encoding are the same text.
proof fn lemma_encoding_injective(a: Seq<char>, b: Seq<char>)
    requires
        encode_utf8(a) == encode_utf8(b),
    ensures
        a == b,
{
    encode_utf8_decode_utf8(a);
    encode_utf8_decode_utf8(b);
}

/// Cuts `s` in two at byte offset `mid`.
fn cut<'a>(s: &'a str, mid: usize) -> (r: (&'a str, &'a str))
    requires
        is_char_boundary(s.spec_bytes(), mid as int),
        mid <= s.spec_bytes().len(),
    ensures
        s@ == r.0@ + r.1@,
        r.0.spec_bytes() == s.spec_bytes().subrange(0, mid as int),
        r.1.spec_bytes() == s.spec_bytes().subrange(mid as int, s.spec_bytes().len() as int),
{
    let r = s.split_at(mid);
    proof {
        let bytes = s.spec_bytes();
        encode_utf8_valid_utf8(s@);
        decode_utf8_split(bytes, mid as int);
        encode_utf8_decode_utf8(s@);
        encode_utf8_decode_utf8(r.0@);
        encode_utf8_decode_utf8(r.1@);
    }
    r
}

/// Whether two string slices hold the same text, compared byte for byte.
pub fn str_eq(a: &str, b: &str) -> (r: bool)
    ensures
        r == (a@ == b@),
{
    let x = a.as_bytes();
    let y = b.as_bytes();
    if x.len() != y.len() {
        return false;
    }
    let mut i: usize = 0;
    while i < x.len()
        invariant
            i <= x.len(),
            x.len() == y.len(),
            x@ == a.spec_bytes(),
            y@ == b.spec_bytes(),
            forall|j: int| 0 <= j < i ==> x@[j] == y@[j],
        decreases x.len() - i,
    {
        if x[i] != y[i] {
            return false;
        }
        i += 1;
    }
    proof {
        assert(x@ =~= y@);
        lemma_encoding_injective(a@, b@);
    }
    true
}

/// Removes a leading ASCII byte `b`, if `s` starts with it.
pub fn strip_prefix<'a>(s: &'a str, b: u8) -> (r: Option<&'a str>)
    requires
        b < 0x80,
    ensures
        match r {
            Some(rest) => s@ == seq![b as char] + rest@,
            None => s@.len() == 0 || s@[0] != b as char,
        },
{
    let bytes = s.as_bytes();
    proof {
        lemma_encoding_empty(s@);
        if s@.len() > 0 {
            lemma_first_byte(s@, b);
        }
    }
    if bytes.len() > 0 && bytes[0] == b {
        proof {
            encode_utf8_valid_utf8(s@);
            reveal_with_fuel(is_char_boundary, 2);
            reveal_with_fuel(valid_utf8, 2);
        }
        let (head, rest) = cut(s, 1);
        proof {
            assert(head.spec_bytes() =~= seq![b]);
            lemma_single_ascii(head@, b);
        }
        Some(rest)
    } else {
        None
    }
}

/// Removes a trailing ASCII byte `b`, if `s` ends with it.
pub fn strip_suffix<'a>(s: &'a str, b: u8) -> (r: Option<&'a str>)
    requires
        b < 0x80,
    ensures
        match r {
            Some(init) => s@ == init@.push(b as char),
            None => s@.len() == 0 || s@.last() != b as char,
        },
{
    let bytes = s.as_bytes();
    let n = bytes.len();
    proof {
        lemma_encoding_empty(s@);
        if s@.len() > 0 {
            lemma_last_byte(s@, b);
        }
    }
    if n > 0 && bytes[n - 1] == b {
        proof {
            encode_utf8_valid_utf8(s@);
            is_char_boundary_iff_not_is_continuation_byte(s.spec_bytes(), n - 1);
        }
        let (init, last) = cut(s, n - 1);
        proof {
            assert(last.spec_bytes() =~= seq![b]);
            lemma_single_ascii(last@, b);
        }
        Some(init)
    } else {
        None
    }
}

/// Cuts `s` at its first occurrence of the ASCII byte `sep`: the text before
/// it, and the text after it where there is one.
pub fn split_once<'a>(s: &'a str, sep: u8) -> (r: (&'a str, Option<&'a str>))
    requires
        sep < 0x80,
    ensures
        !r.0@.contains(sep as char),
        match r.1 {
            Some(rest) => s@ == r.0@ + seq![sep as char] + rest@,
            None => s@ == r.0@,
        },
{
    let bytes = s.as_bytes();
    let mut i: usize = 0;
    while i < bytes.len()
        invariant
            sep < 0x80,
            i <= bytes.len(),
            bytes@ == s.spec_bytes(),
            forall|j: int| 0 <= j < i ==> bytes@[j] != sep,
        decreases bytes.len() - i,
    {
        if bytes[i] == sep {
            proof {
                encode_utf8_valid_utf8(s@);
                is_char_boundary_iff_not_is_continuation_byte(s.spec_bytes(), i as int);
            }
            let (head, tail) = cut(s, i);
            proof {
                lemma_ascii_absent(head@, sep);
                lemma_encoding_empty(tail@);
                lemma_first_byte(tail@, sep);
            }
            let rest = strip_prefix(tail, sep);
            return (head, rest);
        }
        i += 1;
    }
    proof {
        lemma_ascii_absent(s@, sep);
    }
    (s, None)
}

/// All the pieces of `s` between occurrences of the ASCII byte `sep`.
pub fn split_all<'a>(s: &'a str, sep: u8) -> (parts: Vec<&'a str>)
    requires
        sep < 0x80,
    ensures
        str_views(parts@) == split_on(s@, sep as char),
{
    let mut parts: Vec<&'a str> = Vec::new();
    let mut rest = s;
    loop
        invariant_except_break
            sep < 0x80,
            split_on(s@, sep as char) == str_views(parts@) + split_on(rest@, sep as char),
        ensures
            str_views(parts@) == split_on(s@, sep as char),
        decreases rest@.len(),
    {
        let ghost before = str_views(parts@);
        let (head, tail) = split_once(rest, sep);
        parts.push(head);
        match tail {
            Some(next) => {
                proof {
                    crate::text::lemma_split_at_first_separator(head@, next@, sep as char);
                    assert(before + (seq![head@] + split_on(next@, sep as char)) =~= before.push(
                        head@,
                    ) + split_on(next@, sep as char));
                }
                rest = next;
            },
            None => {
                proof {
                    crate::text::lemma_split_without_separator(head@, sep as char);
                }
                break ;
            },
        }
    }
    parts
}

} // verus!
