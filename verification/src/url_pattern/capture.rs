//! What a match captures from a path.

use crate::cut::str_views;
use vstd::prelude::*;

verus! {

/// The value captured by one capturing unit of a pattern. It borrows from
/// the path that was matched.
#[derive(Debug)]
pub enum SegmentPatternValue<'a> {
    /// The one segment that a `<name>` matched.
    Wildcard(&'a str),
    /// All the segments that a `<name..>` matched, in path order.
    WildcardKleene(Vec<&'a str>),
}

/// The mathematical value of a [`SegmentPatternValue`].
pub enum CaptureView {
    Wildcard(Seq<char>),
    WildcardKleene(Seq<Seq<char>>),
}

impl<'a> View for SegmentPatternValue<'a> {
    type V = CaptureView;

    open spec fn view(&self) -> CaptureView {
        match self {
            SegmentPatternValue::Wildcard(segment) => CaptureView::Wildcard(segment@),
            SegmentPatternValue::WildcardKleene(segments) => CaptureView::WildcardKleene(
                str_views(segments@),
            ),
        }
    }
}

/// The captures of one match: one entry per capturing unit, in pattern order.
pub type PathCapture<'a> = Vec<SegmentPatternValue<'a>>;

/// The views of a sequence of captured values.
pub open spec fn capture_views(captures: Seq<SegmentPatternValue>) -> Seq<CaptureView> {
    captures.map_values(|value: SegmentPatternValue| value@)
}

} // verus!
