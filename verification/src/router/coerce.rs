//! From captures to the typed arguments of a handler.
//!
//! A handler takes its arguments from the captures by position. Each
//! function here reads the capture at one place and either hands back the
//! value in the type that the handler declares, or signals a mismatch, which
//! makes the router go on to the next route.

use crate::cut::{str_views, strip_prefix};
use crate::router::route::SegmentTypeMissmatch;
use crate::url_pattern::capture::{CaptureView, SegmentPatternValue};
use vstd::prelude::*;
use vstd::std_specs::iter::IteratorSpec;
use vstd::string::*;

verus! {

/// The capture at place `index`, where it is a single segment.
pub open spec fn single_at(captures: Seq<CaptureView>, index: int) -> Option<Seq<char>> {
    if 0 <= index < captures.len() {
        match captures[index] {
            CaptureView::Wildcard(segment) => Some(segment),
            CaptureView::WildcardKleene(_) => None,
        }
    } else {
        None
    }
}

/// The capture at place `index`, where it is a run of segments.
pub open spec fn rest_at(captures: Seq<CaptureView>, index: int) -> Option<Seq<Seq<char>>> {
    if 0 <= index < captures.len() {
        match captures[index] {
            CaptureView::Wildcard(_) => None,
            CaptureView::WildcardKleene(segments) => Some(segments),
        }
    } else {
        None
    }
}

/// The value of a run of decimal digits, or `None` where a code point is no
/// ASCII digit. The empty run has the value zero.
pub open spec fn digits_value(digits: Seq<char>) -> Option<nat>
    decreases digits.len(),
{
    if digits.len() == 0 {
        Some(0nat)
    } else {
        let last = digits.last();
        match digits_value(digits.drop_last()) {
            Some(front) => if '0' <= last && last <= '9' {
                Some((front * 10 + (last as u32 - '0' as u32)) as nat)
            } else {
                None
            },
            None => None,
        }
    }
}

/// The number that a text denotes: an optional `+`, then one decimal digit
/// or more.
pub open spec fn unsigned_value(text: Seq<char>) -> Option<nat> {
    let digits = if text.len() > 0 && text[0] == '+' {
        text.drop_first()
    } else {
        text
    };
    if digits.len() == 0 {
        None
    } else {
        digits_value(digits)
    }
}

/// The capture at place `index` as one segment, for a handler argument of
/// string type.
pub fn single<'a>(captures: &Vec<SegmentPatternValue<'a>>, index: usize) -> (r: Result<
    &'a str,
    SegmentTypeMissmatch,
>)
    ensures
        match r {
            Ok(segment) => single_at(
                crate::url_pattern::capture::capture_views(captures@),
                index as int,
            ) == Some(segment@),
            Err(_) => single_at(
                crate::url_pattern::capture::capture_views(captures@),
                index as int,
            ) is None,
        },
{
    if index >= captures.len() {
        return Err(SegmentTypeMissmatch);
    }
    match &captures[index] {
        SegmentPatternValue::Wildcard(segment) => Ok(*segment),
        SegmentPatternValue::WildcardKleene(_) => Err(SegmentTypeMissmatch),
    }
}

/// The capture at place `index` as a run of segments, for a handler argument
/// that takes the rest of the path.
pub fn rest<'a>(captures: &Vec<SegmentPatternValue<'a>>, index: usize) -> (r: Result<
    Vec<&'a str>,
    SegmentTypeMissmatch,
>)
    ensures
        match r {
            Ok(segments) => rest_at(
                crate::url_pattern::capture::capture_views(captures@),
                index as int,
            ) == Some(str_views(segments@)),
            Err(_) => rest_at(
                crate::url_pattern::capture::capture_views(captures@),
                index as int,
            ) is None,
        },
{
    if index >= captures.len() {
        return Err(SegmentTypeMissmatch);
    }
    match &captures[index] {
        SegmentPatternValue::Wildcard(_) => Err(SegmentTypeMissmatch),
        SegmentPatternValue::WildcardKleene(segments) => {
            let mut copy: Vec<&'a str> = Vec::new();
            let mut i: usize = 0;
            while i < segments.len()
                invariant
                    i <= segments.len(),
                    copy@ == segments@.subrange(0, i as int),
                decreases segments.len() - i,
            {
                copy.push(segments[i]);
                i += 1;
            }
            Ok(copy)
        },
    }
}

/// Reads a text as an unsigned number of 32 bits: a mismatch where the text
/// denotes no number, or one that does not fit.
pub fn unsigned(text: &str) -> (r: Result<u32, SegmentTypeMissmatch>)
    ensures
        match r {
            Ok(n) => unsigned_value(text@) == Some(n as nat),
            Err(_) => match unsigned_value(text@) {
                Some(n) => n > u32::MAX,
                None => true,
            },
        },
{
    broadcast use vstd::string::group_string_axioms;

    let digits = match strip_prefix(text, 0x2b) {
        Some(after) => {
            assert(text@.drop_first() =~= after@);
            after
        },
        None => text,
    };
    let mut chars = digits.chars();
    let ghost all = digits@;
    let ghost mut seen: int = 0;
    let mut value: u32 = 0;
    loop
        invariant_except_break
            0 <= seen <= all.len(),
            all == digits@,
            unsigned_value(text@) == if all.len() == 0 {
                None
            } else {
                digits_value(all)
            },
            chars.remaining() == all.subrange(seen, all.len() as int),
            digits_value(all.subrange(0, seen)) == Some(value as nat),
        ensures
            seen == all.len(),
            all == digits@,
            unsigned_value(text@) == if all.len() == 0 {
                None
            } else {
                digits_value(all)
            },
            digits_value(all) == Some(value as nat),
        decreases all.len() - seen,
    {
        match chars.next() {
            None => {
                assert(all.subrange(0, seen) =~= all);
                break ;
            },
            Some(c) => {
                proof {
                    assert(all.subrange(seen, all.len() as int).drop_first() =~= all.subrange(
                        seen + 1,
                        all.len() as int,
                    ));
                    let upto = all.subrange(0, seen + 1);
                    assert(upto.drop_last() =~= all.subrange(0, seen));
                }
                if !('0' <= c && c <= '9') {
                    proof {
                        lemma_digits_prefix(all, seen + 1);
                    }
                    return Err(SegmentTypeMissmatch);
                }
                let d: u32 = c as u32 - '0' as u32;
                if value > (u32::MAX - d) / 10 {
                    proof {
                        lemma_digits_grow(all, seen + 1);
                    }
                    return Err(SegmentTypeMissmatch);
                }
                value = value * 10 + d;
                proof {
                    seen = seen + 1;
                }
            },
        }
    }
    if digits.unicode_len() == 0 {
        return Err(SegmentTypeMissmatch);
    }
    Ok(value)
}

/// A run of digits has a value only if each of its prefixes has one.
pub proof fn lemma_digits_prefix(digits: Seq<char>, n: int)
    requires
        0 <= n <= digits.len(),
        digits_value(digits.subrange(0, n)) is None,
    ensures
        digits_value(digits) is None,
    decreases digits.len() - n,
{
    if n < digits.len() {
        let next = digits.subrange(0, n + 1);
        assert(next.drop_last() =~= digits.subrange(0, n));
        lemma_digits_prefix(digits, n + 1);
    } else {
        assert(digits.subrange(0, n) =~= digits);
    }
}

/// The value of a run of digits is at least the value of each of its
/// prefixes.
pub proof fn lemma_digits_grow(digits: Seq<char>, n: int)
    requires
        0 <= n <= digits.len(),
    ensures
        digits_value(digits) is Some ==> digits_value(digits.subrange(0, n)) is Some
            && digits_value(digits)->Some_0 >= digits_value(digits.subrange(0, n))->Some_0,
    decreases digits.len() - n,
{
    if n < digits.len() {
        let next = digits.subrange(0, n + 1);
        assert(next.drop_last() =~= digits.subrange(0, n));
        lemma_digits_grow(digits, n + 1);
    } else {
        assert(digits.subrange(0, n) =~= digits);
    }
}

} // verus!
