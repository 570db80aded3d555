//! A whole template, compiled: the compiler, the matcher and the renderer.

use crate::cut::{split_all, str_eq, str_views, strip_prefix};
use crate::text::split_on;
use crate::url_pattern::capture::{capture_views, CaptureView, SegmentPatternValue};
use crate::url_pattern::encode::is_encoded_char;
use crate::url_pattern::error::InvalidUrlPattern;
use crate::url_pattern::ident::is_identifier;
use crate::url_pattern::segment::{
    parse_segment, render_segment, SegmentPattern, SegmentPatternView,
};
use vstd::prelude::*;
use vstd::slice::slice_subrange;
use vstd::string::*;

verus! {

/// The byte `/`, which separates the tokens of a template and the segments
/// of a path.
pub const SLASH: u8 = 0x2f;

/// What a sequence of tokens compiles to: each token compiled in turn, the
/// first failure reported. A trailing capture that is followed by another
/// token is the failure `InvalidKleenePosition`.
pub open spec fn compile_tokens(tokens: Seq<Seq<char>>) -> Result<
    Seq<SegmentPatternView>,
    InvalidUrlPattern,
>
    decreases tokens.len(),
{
    if tokens.len() == 0 {
        Ok(Seq::empty())
    } else {
        match parse_segment(tokens[0]) {
            Err(e) => Err(e),
            Ok(unit) => if unit is WildcardKleene && tokens.len() > 1 {
                Err(InvalidUrlPattern::InvalidKleenePosition)
            } else {
                match compile_tokens(tokens.drop_first()) {
                    Err(e) => Err(e),
                    Ok(rest) => Ok(seq![unit] + rest),
                }
            },
        }
    }
}

/// What a template compiles to. It must begin with `/`; what follows is
/// split on `/` into tokens, and the tokens are compiled.
pub open spec fn compile(template: Seq<char>) -> Result<Seq<SegmentPatternView>, InvalidUrlPattern> {
    if template.len() == 0 || template[0] != '/' {
        Err(InvalidUrlPattern::MissingForwardSlash)
    } else {
        compile_tokens(split_on(template.drop_first(), '/'))
    }
}

/// The segments of a request path: its pieces between `/`, without the piece
/// before the first `/`.
pub open spec fn path_segments(path: Seq<char>) -> Seq<Seq<char>> {
    split_on(path, '/').drop_first()
}

/// The captures of a pattern on the path of a URL, which must begin with
/// `/`: what follows the `/` is split into segments and matched.
pub open spec fn match_path(pattern: Seq<SegmentPatternView>, path: Seq<char>) -> Option<
    Seq<CaptureView>,
> {
    if path.len() > 0 && path[0] == '/' {
        match_segments(pattern, split_on(path.drop_first(), '/'))
    } else {
        None
    }
}

/// The captures of a pattern on a sequence of segments, or `None` where the
/// pattern does not match.
///
/// Units and segments are walked together. A literal needs the next segment
/// to equal it; a single capture needs a next segment and takes it; a
/// trailing capture takes every segment that is left, also none, and ends
/// the walk. A pattern that ends without a trailing capture matches only if
/// no segment is left.
pub open spec fn match_segments(
    pattern: Seq<SegmentPatternView>,
    segments: Seq<Seq<char>>,
) -> Option<Seq<CaptureView>>
    decreases pattern.len(),
{
    if pattern.len() == 0 {
        if segments.len() == 0 {
            Some(Seq::empty())
        } else {
            None
        }
    } else {
        match pattern[0] {
            SegmentPatternView::Fixed(literal) => if segments.len() > 0 && segments[0] == literal {
                match_segments(pattern.drop_first(), segments.drop_first())
            } else {
                None
            },
            SegmentPatternView::Wildcard(_) => if segments.len() > 0 {
                match match_segments(pattern.drop_first(), segments.drop_first()) {
                    Some(rest) => Some(seq![CaptureView::Wildcard(segments[0])] + rest),
                    None => None,
                }
            } else {
                None
            },
            SegmentPatternView::WildcardKleene(_) => Some(
                seq![CaptureView::WildcardKleene(segments)],
            ),
        }
    }
}

/// The text of a pattern: each unit written as its token, after a `/`.
pub open spec fn render(pattern: Seq<SegmentPatternView>) -> Seq<char>
    decreases pattern.len(),
{
    if pattern.len() == 0 {
        Seq::empty()
    } else {
        seq!['/'] + render_segment(pattern[0]) + render(pattern.drop_first())
    }
}

/// What holds of every compiled pattern: it has at least one unit, its
/// capture names are identifiers, its literals are percent-encoded, and a
/// trailing capture stands nowhere but at the end.
pub open spec fn well_formed(pattern: Seq<SegmentPatternView>) -> bool {
    pattern.len() >= 1 && units_valid(pattern)
}

/// Capture names are identifiers, literals are percent-encoded, and a
/// trailing capture stands nowhere but at the end.
pub open spec fn units_valid(pattern: Seq<SegmentPatternView>) -> bool {
    forall|i: int|
        0 <= i < pattern.len() ==> match #[trigger] pattern[i] {
            SegmentPatternView::Fixed(literal) => forall|k: int|
                0 <= k < literal.len() ==> is_encoded_char(#[trigger] literal[k]),
            SegmentPatternView::Wildcard(name) => is_identifier(name),
            SegmentPatternView::WildcardKleene(name) => is_identifier(name) && i == pattern.len()
                - 1,
        }
}

/// The views of a sequence of compiled units.
pub open spec fn segment_views(units: Seq<SegmentPattern>) -> Seq<SegmentPatternView> {
    units.map_values(|unit: SegmentPattern| unit@)
}

/// `prefix` put before the outcome of compiling the rest.
pub open spec fn compiled_after(
    prefix: Seq<SegmentPatternView>,
    rest: Result<Seq<SegmentPatternView>, InvalidUrlPattern>,
) -> Result<Seq<SegmentPatternView>, InvalidUrlPattern> {
    match rest {
        Ok(units) => Ok(prefix + units),
        Err(e) => Err(e),
    }
}

/// `prefix` put before the outcome of matching the rest.
pub open spec fn captured_after(prefix: Seq<CaptureView>, rest: Option<Seq<CaptureView>>) -> Option<
    Seq<CaptureView>,
> {
    match rest {
        Some(captures) => Some(prefix + captures),
        None => None,
    }
}

/// A compiled path template.
///
/// - fixed path: `/a/b/c`
/// - path with a capture: `/a/<name>/c`
/// - capture of the rest of the path: `/a/b/<rest..>`
#[derive(Debug)]
pub struct UrlPattern {
    pattern: Vec<SegmentPattern>,
}

impl View for UrlPattern {
    type V = Seq<SegmentPatternView>;

    closed spec fn view(&self) -> Seq<SegmentPatternView> {
        segment_views(self.pattern@)
    }
}

/// Every pattern that compiles from tokens is well formed but for its
/// length: names are identifiers, literals are percent-encoded, and a
/// trailing capture stands last.
pub proof fn lemma_compiled_units(tokens: Seq<Seq<char>>)
    requires
        compile_tokens(tokens) is Ok,
    ensures
        compile_tokens(tokens)->Ok_0.len() == tokens.len(),
        units_valid(compile_tokens(tokens)->Ok_0),
    decreases tokens.len(),
{
    if tokens.len() > 0 {
        let unit = parse_segment(tokens[0])->Ok_0;
        lemma_compiled_units(tokens.drop_first());
        if let SegmentPatternView::Fixed(literal) = unit {
            crate::url_pattern::encode::lemma_percent_encode_chars(
                vstd::utf8::encode_utf8(tokens[0]),
            );
        }
    }
}

impl Clone for UrlPattern {
    fn clone(&self) -> (copy: Self)
        ensures
            copy@ == self@,
    {
        proof {
            use_type_invariant(self);
        }
        let mut units: Vec<SegmentPattern> = Vec::new();
        let mut i: usize = 0;
        while i < self.pattern.len()
            invariant
                i <= self.pattern.len(),
                segment_views(units@) == segment_views(self.pattern@).subrange(0, i as int),
            decreases self.pattern.len() - i,
        {
            let ghost before = segment_views(units@);
            units.push(self.pattern[i].clone());
            assert(segment_views(units@) =~= before.push(self.pattern@[i as int]@));
            i += 1;
        }
        UrlPattern { pattern: units }
    }
}

impl UrlPattern {
    #[verifier::type_invariant]
    pub closed spec fn valid(self) -> bool {
        well_formed(segment_views(self.pattern@))
    }

    /// Compiles a template.
    pub fn parse(s: &str) -> (r: Result<UrlPattern, InvalidUrlPattern>)
        ensures
            match r {
                Ok(pattern) => compile(s@) == Ok::<Seq<SegmentPatternView>, InvalidUrlPattern>(
                    pattern@,
                ) && well_formed(pattern@),
                Err(e) => compile(s@) == Err::<Seq<SegmentPatternView>, InvalidUrlPattern>(e),
            },
    {
        let rest = match strip_prefix(s, SLASH) {
            None => {
                return Err(InvalidUrlPattern::MissingForwardSlash);
            },
            Some(rest) => rest,
        };
        assert(s@.drop_first() =~= rest@);
        let tokens = split_all(rest, SLASH);
        let ghost all = str_views(tokens@);
        let mut units: Vec<SegmentPattern> = Vec::new();
        let mut i: usize = 0;
        proof {
            crate::text::lemma_split_nonempty(rest@, '/');
            assert(all.subrange(0, all.len() as int) =~= all);
        }
        while i < tokens.len()
            invariant
                i <= tokens.len(),
                units@.len() == i,
                all == str_views(tokens@),
                all.len() >= 1,
                compile(s@) == compile_tokens(all),
                compile_tokens(all) == compiled_after(
                    segment_views(units@),
                    compile_tokens(all.subrange(i as int, all.len() as int)),
                ),
            decreases tokens.len() - i,
        {
            let ghost before = segment_views(units@);
            let ghost suffix = all.subrange(i as int, all.len() as int);
            assert(suffix.drop_first() =~= all.subrange(i + 1, all.len() as int));
            let unit = match SegmentPattern::parse(tokens[i]) {
                Err(e) => {
                    return Err(e);
                },
                Ok(unit) => unit,
            };
            let trailing = match unit {
                SegmentPattern::WildcardKleene(_) => true,
                _ => false,
            };
            if trailing && i + 1 < tokens.len() {
                return Err(InvalidUrlPattern::InvalidKleenePosition);
            }
            units.push(unit);
            assert(segment_views(units@) =~= before.push(units@[i as int]@));
            i += 1;
            proof {
                let tail = compile_tokens(suffix.drop_first());
                if let Ok(more) = tail {
                    assert(before + (seq![units@[i - 1]@] + more) =~= before.push(
                        units@[i - 1]@,
                    ) + more);
                }
            }
        }
        proof {
            assert(segment_views(units@) + Seq::<SegmentPatternView>::empty() =~= segment_views(
                units@,
            ));
            lemma_compiled_units(all);
        }
        Ok(UrlPattern { pattern: units })
    }
}

impl UrlPattern {
    /// The number of units; a compiled pattern has at least one.
    pub fn len(&self) -> (n: usize)
        ensures
            n == self@.len(),
            well_formed(self@),
    {
        proof {
            use_type_invariant(self);
        }
        self.pattern.len()
    }

    /// Matches the pattern against the segments of a path.
    pub fn match_iter<'a>(&self, segments: &[&'a str]) -> (r: Option<Vec<SegmentPatternValue<'a>>>)
        ensures
            match r {
                Some(captures) => match_segments(self@, str_views(segments@)) == Some(
                    capture_views(captures@),
                ),
                None => match_segments(self@, str_views(segments@)) is None,
            },
    {
        let ghost units = self@;
        let ghost all = str_views(segments@);
        let mut matched_values: Vec<SegmentPatternValue<'a>> = Vec::new();
        let mut i: usize = 0;
        proof {
            assert(units.subrange(0, units.len() as int) =~= units);
            assert(all.subrange(0, all.len() as int) =~= all);
        }
        while i < self.pattern.len()
            invariant
                i <= self.pattern.len(),
                i <= segments.len(),
                units == self@,
                all == str_views(segments@),
                match_segments(units, all) == captured_after(
                    capture_views(matched_values@),
                    match_segments(
                        units.subrange(i as int, units.len() as int),
                        all.subrange(i as int, all.len() as int),
                    ),
                ),
            decreases self.pattern.len() - i,
        {
            let ghost before = capture_views(matched_values@);
            let ghost ahead = units.subrange(i as int, units.len() as int);
            let ghost left = all.subrange(i as int, all.len() as int);
            assert(ahead.drop_first() =~= units.subrange(i + 1, units.len() as int));
            if i < segments.len() {
                assert(left.drop_first() =~= all.subrange(i + 1, all.len() as int));
            }
            match &self.pattern[i] {
                SegmentPattern::Fixed(literal) => {
                    if i >= segments.len() {
                        return None;
                    }
                    if !str_eq(segments[i], literal.as_str()) {
                        return None;
                    }
                },
                SegmentPattern::Wildcard(_) => {
                    if i >= segments.len() {
                        return None;
                    }
                    matched_values.push(SegmentPatternValue::Wildcard(segments[i]));
                    proof {
                        assert(capture_views(matched_values@) =~= before.push(
                            CaptureView::Wildcard(left[0]),
                        ));
                        if let Some(more) = match_segments(ahead.drop_first(), left.drop_first()) {
                            assert(before + (seq![CaptureView::Wildcard(left[0])] + more)
                                =~= before.push(CaptureView::Wildcard(left[0])) + more);
                        }
                    }
                },
                SegmentPattern::WildcardKleene(_) => {
                    let mut rest: Vec<&'a str> = Vec::new();
                    let mut j: usize = i;
                    while j < segments.len()
                        invariant
                            i <= j <= segments.len(),
                            all == str_views(segments@),
                            str_views(rest@) == all.subrange(i as int, j as int),
                        decreases segments.len() - j,
                    {
                        let ghost so_far = str_views(rest@);
                        rest.push(segments[j]);
                        assert(str_views(rest@) =~= so_far.push(segments@[j as int]@));
                        j += 1;
                    }
                    matched_values.push(SegmentPatternValue::WildcardKleene(rest));
                    assert(capture_views(matched_values@) =~= before + seq![
                        CaptureView::WildcardKleene(left),
                    ]);
                    return Some(matched_values);
                },
            }
            i += 1;
        }
        if i < segments.len() {
            None
        } else {
            proof {
                assert(capture_views(matched_values@) + Seq::<CaptureView>::empty()
                    =~= capture_views(matched_values@));
            }
            Some(matched_values)
        }
    }

    /// Matches the pattern against a request path.
    pub fn match_str<'a>(&self, path: &'a str) -> (r: Option<Vec<SegmentPatternValue<'a>>>)
        ensures
            match r {
                Some(captures) => match_segments(self@, path_segments(path@)) == Some(
                    capture_views(captures@),
                ),
                None => match_segments(self@, path_segments(path@)) is None,
            },
    {
        let pieces = split_all(path, SLASH);
        proof {
            crate::text::lemma_split_nonempty(path@, '/');
        }
        let segments = slice_subrange(pieces.as_slice(), 1, pieces.len());
        assert(str_views(segments@) =~= path_segments(path@));
        self.match_iter(segments)
    }

    /// Writes the pattern back as a template.
    pub fn to_string(&self) -> (text: String)
        ensures
            text@ == render(self@),
    {
        proof {
            reveal_strlit("/");
        }
        let ghost units = self@;
        let mut text = String::new();
        let mut i: usize = 0;
        assert(units.subrange(0, units.len() as int) =~= units);
        while i < self.pattern.len()
            invariant
                i <= self.pattern.len(),
                units == self@,
                "/"@ == seq!['/'],
                render(units) == text@ + render(units.subrange(i as int, units.len() as int)),
            decreases self.pattern.len() - i,
        {
            let ghost ahead = units.subrange(i as int, units.len() as int);
            assert(ahead.drop_first() =~= units.subrange(i + 1, units.len() as int));
            let ghost before = text@;
            let token = self.pattern[i].to_string();
            text.append("/");
            text.append(token.as_str());
            assert(before + (seq!['/'] + render_segment(ahead[0]) + render(ahead.drop_first()))
                =~= text@ + render(ahead.drop_first()));
            i += 1;
        }
        text
    }
}

/// The segments of a path that begins with `/` are the pieces of what
/// follows the `/`.
pub proof fn lemma_rooted_path_segments(path: Seq<char>)
    requires
        path.len() > 0,
        path[0] == '/',
    ensures
        path_segments(path) == split_on(path.drop_first(), '/'),
{
}

impl UrlPattern {
    /// Matches the pattern against the path of a URL. A path that does not
    /// begin with `/` matches no pattern.
    pub fn match_path<'a>(&self, path: &'a str) -> (r: Option<Vec<SegmentPatternValue<'a>>>)
        ensures
            match r {
                Some(captures) => match_path(self@, path@) == Some(capture_views(captures@)),
                None => match_path(self@, path@) is None,
            },
    {
        match strip_prefix(path, SLASH) {
            None => None,
            Some(rest) => {
                assert(path@.drop_first() =~= rest@);
                let segments = split_all(rest, SLASH);
                self.match_iter(segments.as_slice())
            },
        }
    }
}

impl<'a> TryFrom<&'a str> for UrlPattern {
    type Error = InvalidUrlPattern;

    fn try_from(value: &'a str) -> (r: Result<Self, InvalidUrlPattern>)
        ensures
            match r {
                Ok(pattern) => compile(value@) == Ok::<Seq<SegmentPatternView>, InvalidUrlPattern>(
                    pattern@,
                ),
                Err(e) => compile(value@) == Err::<Seq<SegmentPatternView>, InvalidUrlPattern>(e),
            },
    {
        UrlPattern::parse(value)
    }
}

/// The conversion is specified by the `ensures` of `try_from`, over the view
/// of the pattern; no function on patterns themselves is laid down.
impl<'a> vstd::std_specs::convert::TryFromSpecImpl<&'a str> for UrlPattern {
    open spec fn obeys_try_from_spec() -> bool {
        false
    }

    open spec fn try_from_spec(v: &'a str) -> Result<Self, InvalidUrlPattern> {
        arbitrary()
    }
}

impl TryFrom<String> for UrlPattern {
    type Error = InvalidUrlPattern;

    fn try_from(value: String) -> (r: Result<Self, InvalidUrlPattern>)
        ensures
            match r {
                Ok(pattern) => compile(value@) == Ok::<Seq<SegmentPatternView>, InvalidUrlPattern>(
                    pattern@,
                ),
                Err(e) => compile(value@) == Err::<Seq<SegmentPatternView>, InvalidUrlPattern>(e),
            },
    {
        UrlPattern::parse(value.as_str())
    }
}

/// The conversion is specified by the `ensures` of `try_from`, over the view
/// of the pattern; no function on patterns themselves is laid down.
impl vstd::std_specs::convert::TryFromSpecImpl<String> for UrlPattern {
    open spec fn obeys_try_from_spec() -> bool {
        false
    }

    open spec fn try_from_spec(v: String) -> Result<Self, InvalidUrlPattern> {
        arbitrary()
    }
}

} // verus!
