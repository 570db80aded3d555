//! Matching against a parsed URL.

use crate::cut::str_views;
use crate::text::free_of;
use crate::url_pattern::capture::{capture_views, SegmentPatternValue};
use crate::url_pattern::pattern::{match_segments, UrlPattern};
use vstd::prelude::*;

verus! {

/// A parsed URL of the `url` crate; nothing of its inside is known here.
#[verifier::external_type_specification]
#[verifier::external_body]
pub struct ExUrl(url::Url);

/// The path segments of a URL, as `url::Url::path_segments` yields them:
/// `None` for a URL that cannot be a base, else the pieces of its path after
/// the leading `/`.
pub uninterp spec fn url_segments(url: url::Url) -> Option<Seq<Seq<char>>>;

/// Calls `url::Url::path_segments` and collects what it yields.
///
/// Trusted: the result is what the URL's path segments are named above; and
/// where there are any, they are the pieces of a text split on `/`, so there
/// is at least one and none holds a `/`.
#[verifier::external_body]
fn url_path_segments<'a>(url: &'a url::Url) -> (segments: Option<Vec<&'a str>>)
    ensures
        segments matches Some(parts) ==> url_segments(*url) == Some(str_views(parts@)),
        segments is None ==> url_segments(*url) is None,
        segments matches Some(parts) ==> parts@.len() >= 1 && free_of(str_views(parts@), '/'),
{
    url.path_segments().map(|parts| parts.collect())
}

/// The captures of a pattern on a URL: those of the pattern on the URL's
/// path segments, and none where the URL has no path segments.
pub open spec fn match_url_segments(
    pattern: Seq<crate::url_pattern::segment::SegmentPatternView>,
    url: url::Url,
) -> Option<Seq<crate::url_pattern::capture::CaptureView>> {
    match url_segments(url) {
        Some(segments) => match_segments(pattern, segments),
        None => None,
    }
}

impl UrlPattern {
    /// Matches the pattern against the path segments of a URL. A URL
    /// without path segments matches no pattern; the captures of any other
    /// are those of the pattern on its segments.
    pub fn match_url<'a>(&self, url: &'a url::Url) -> (r: Option<Vec<SegmentPatternValue<'a>>>)
        ensures
            match r {
                Some(captures) => match_url_segments(self@, *url) == Some(
                    capture_views(captures@),
                ),
                None => match_url_segments(self@, *url) is None,
            },
    {
        match url_path_segments(url) {
            None => None,
            Some(parts) => self.match_iter(parts.as_slice()),
        }
    }
}

} // verus!
