//! What holds between compiling a template and writing a pattern back.

use crate::text::{join_on, lemma_split_join, split_on};
use crate::url_pattern::encode::{encoded_literal, is_encoded_char};
use crate::url_pattern::error::InvalidUrlPattern;
use crate::url_pattern::ident::is_identifier;
use crate::url_pattern::capture::CaptureView;
use crate::url_pattern::pattern::{
    compile, compile_tokens, lemma_compiled_units, match_segments, render, units_valid,
    well_formed,
};
use crate::url_pattern::segment::{ends_with, parse_segment, render_segment, SegmentPatternView};
use vstd::prelude::*;

verus! {

/// A token as it stands in a normalized template: a capture as it is, a
/// literal percent-encoded.
pub open spec fn normalize_token(token: Seq<char>) -> Seq<char> {
    if token.len() > 0 && token[0] == '<' {
        token
    } else {
        encoded_literal(token)
    }
}

/// The tokens written one after another, each after a `/`.
pub open spec fn render_tokens(tokens: Seq<Seq<char>>) -> Seq<char>
    decreases tokens.len(),
{
    if tokens.len() == 0 {
        Seq::empty()
    } else {
        seq!['/'] + tokens[0] + render_tokens(tokens.drop_first())
    }
}

/// The percent-normalized form of a template that begins with `/`: its
/// tokens, each normalized, each after a `/`.
pub open spec fn normalized(template: Seq<char>) -> Seq<char> {
    render_tokens(split_on(template.drop_first(), '/').map_values(|t: Seq<char>| normalize_token(t)))
}

/// A unit as it compiles from its own rendering: a capture unchanged, a
/// literal percent-encoded once more.
pub open spec fn reencoded(unit: SegmentPatternView) -> SegmentPatternView {
    match unit {
        SegmentPatternView::Fixed(literal) => SegmentPatternView::Fixed(encoded_literal(literal)),
        other => other,
    }
}

/// Two patterns of the same shape: as many units, the same kind at each
/// place, and the same name in each capture.
pub open spec fn same_shape(a: Seq<SegmentPatternView>, b: Seq<SegmentPatternView>) -> bool {
    &&& a.len() == b.len()
    &&& forall|i: int|
        0 <= i < a.len() ==> match #[trigger] a[i] {
            SegmentPatternView::Fixed(_) => b[i] is Fixed,
            other => b[i] == other,
        }
}

/// A unit that compiled from a token is written back as that token,
/// normalized.
pub proof fn lemma_render_parsed_segment(token: Seq<char>)
    requires
        parse_segment(token) is Ok,
    ensures
        render_segment(parse_segment(token)->Ok_0) == normalize_token(token),
{
    if token.len() > 0 && token[0] == '<' {
        let n = token.len() as int;
        if !ends_with(token, seq!['.', '.', '>']) {
            assert(token.subrange(n - 1, n)[0] == '>');
        }
    }
}

/// A pattern that compiled from tokens is written back as those tokens,
/// normalized.
pub proof fn lemma_render_compiled_tokens(tokens: Seq<Seq<char>>)
    requires
        compile_tokens(tokens) is Ok,
    ensures
        render(compile_tokens(tokens)->Ok_0) == render_tokens(
            tokens.map_values(|t: Seq<char>| normalize_token(t)),
        ),
    decreases tokens.len(),
{
    let f = |t: Seq<char>| normalize_token(t);
    if tokens.len() > 0 {
        let units = compile_tokens(tokens)->Ok_0;
        let rest = compile_tokens(tokens.drop_first())->Ok_0;
        lemma_render_parsed_segment(tokens[0]);
        lemma_render_compiled_tokens(tokens.drop_first());
        assert(units.drop_first() =~= rest);
        assert(tokens.map_values(f).drop_first() =~= tokens.drop_first().map_values(f));
    }
}

/// Round trip, from the template's side: a template that compiles is
/// written back, from its compiled pattern, as its percent-normalized form.
pub proof fn lemma_render_is_normalized(template: Seq<char>)
    requires
        compile(template) is Ok,
    ensures
        render(compile(template)->Ok_0) == normalized(template),
{
    lemma_render_compiled_tokens(split_on(template.drop_first(), '/'));
}

/// An identifier holds none of `/`, `.` and `<`.
pub proof fn lemma_identifier_chars(name: Seq<char>)
    requires
        is_identifier(name),
    ensures
        !name.contains('/'),
        !name.contains('.'),
        !name.contains('<'),
{
}

/// The token of a valid unit holds no `/`.
pub proof fn lemma_rendered_segment_free(unit: SegmentPatternView)
    requires
        units_valid(seq![unit]),
    ensures
        !render_segment(unit).contains('/'),
{
    assert(seq![unit][0] == unit);
    match unit {
        SegmentPatternView::Fixed(_) => {},
        SegmentPatternView::Wildcard(name) => {
            lemma_identifier_chars(name);
        },
        SegmentPatternView::WildcardKleene(name) => {
            lemma_identifier_chars(name);
        },
    }
}

/// The token of a valid unit compiles back to the unit, its literal
/// percent-encoded once more.
pub proof fn lemma_parse_rendered_segment(unit: SegmentPatternView)
    requires
        units_valid(seq![unit]),
    ensures
        parse_segment(render_segment(unit)) == Ok::<SegmentPatternView, InvalidUrlPattern>(
            reencoded(unit),
        ),
{
    let token = render_segment(unit);
    let n = token.len() as int;
    assert(seq![unit][0] == unit);
    match unit {
        SegmentPatternView::Fixed(_) => {},
        SegmentPatternView::Wildcard(name) => {
            lemma_identifier_chars(name);
            assert(token.subrange(n - 1, n) =~= seq!['>']);
            assert(token.subrange(1, n - 1) =~= name);
        },
        SegmentPatternView::WildcardKleene(name) => {
            assert(token.subrange(n - 3, n) =~= seq!['.', '.', '>']);
            assert(token.subrange(1, n - 3) =~= name);
        },
    }
}

/// The units of a suffix of a valid pattern are valid.
proof fn lemma_units_valid_tail(pattern: Seq<SegmentPatternView>)
    requires
        units_valid(pattern),
        pattern.len() > 0,
    ensures
        units_valid(pattern.drop_first()),
        units_valid(seq![pattern[0]]),
        pattern[0] is WildcardKleene ==> pattern.len() == 1,
{
}

/// The tokens of a valid pattern compile back to the pattern, its literals
/// percent-encoded once more.
pub proof fn lemma_compile_rendered_tokens(pattern: Seq<SegmentPatternView>)
    requires
        units_valid(pattern),
    ensures
        compile_tokens(pattern.map_values(|u: SegmentPatternView| render_segment(u))) == Ok::<
            Seq<SegmentPatternView>,
            InvalidUrlPattern,
        >(pattern.map_values(|u: SegmentPatternView| reencoded(u))),
    decreases pattern.len(),
{
    let r = |u: SegmentPatternView| render_segment(u);
    let e = |u: SegmentPatternView| reencoded(u);
    let tokens = pattern.map_values(r);
    if pattern.len() == 0 {
        assert(pattern.map_values(e) =~= Seq::<SegmentPatternView>::empty());
    } else {
        lemma_units_valid_tail(pattern);
        lemma_parse_rendered_segment(pattern[0]);
        lemma_compile_rendered_tokens(pattern.drop_first());
        assert(tokens.drop_first() =~= pattern.drop_first().map_values(r));
        assert(seq![reencoded(pattern[0])] + pattern.drop_first().map_values(e)
            =~= pattern.map_values(e));
    }
}

/// The text of a pattern is `/` and then its tokens joined by `/`.
pub proof fn lemma_render_as_join(pattern: Seq<SegmentPatternView>)
    requires
        pattern.len() >= 1,
    ensures
        render(pattern) == seq!['/'] + join_on(
            pattern.map_values(|u: SegmentPatternView| render_segment(u)),
            '/',
        ),
    decreases pattern.len(),
{
    let r = |u: SegmentPatternView| render_segment(u);
    let tokens = pattern.map_values(r);
    if pattern.len() == 1 {
        assert(render(pattern) =~= seq!['/'] + tokens[0]) by {
            reveal_with_fuel(render, 2);
        }
    } else {
        lemma_render_as_join(pattern.drop_first());
        assert(tokens.drop_first() =~= pattern.drop_first().map_values(r));
    }
}

/// Round trip, from the pattern's side: the text of a well-formed pattern
/// compiles, and it compiles to the same pattern with each literal
/// percent-encoded once more.
pub proof fn lemma_compile_render(pattern: Seq<SegmentPatternView>)
    requires
        well_formed(pattern),
    ensures
        compile(render(pattern)) == Ok::<Seq<SegmentPatternView>, InvalidUrlPattern>(
            pattern.map_values(|u: SegmentPatternView| reencoded(u)),
        ),
        same_shape(pattern, pattern.map_values(|u: SegmentPatternView| reencoded(u))),
{
    let r = |u: SegmentPatternView| render_segment(u);
    let tokens = pattern.map_values(r);
    lemma_render_as_join(pattern);
    assert forall|i: int| 0 <= i < tokens.len() implies !(#[trigger] tokens[i]).contains('/') by {
        lemma_rendered_segment_free(pattern[i]);
    }
    lemma_split_join(tokens, '/');
    let text = render(pattern);
    assert(text.drop_first() =~= join_on(tokens, '/'));
    lemma_compile_rendered_tokens(pattern);
}

/// Round trip: for a template that compiles, the text written back from the
/// compiled pattern is the template percent-normalized, it compiles too, and
/// it compiles to a pattern of the same shape.
pub proof fn lemma_round_trip(template: Seq<char>)
    requires
        compile(template) is Ok,
    ensures
        render(compile(template)->Ok_0) == normalized(template),
        compile(normalized(template)) is Ok,
        same_shape(compile(template)->Ok_0, compile(normalized(template))->Ok_0),
{
    let pattern = compile(template)->Ok_0;
    let tokens = split_on(template.drop_first(), '/');
    crate::text::lemma_split_nonempty(template.drop_first(), '/');
    lemma_compiled_units(tokens);
    lemma_render_is_normalized(template);
    lemma_compile_render(pattern);
}

/// A template that does not begin with `/`, the empty one too, fails to
/// compile with `MissingForwardSlash`.
pub proof fn lemma_missing_forward_slash(template: Seq<char>)
    requires
        template.len() == 0 || template[0] != '/',
    ensures
        compile(template) == Err::<Seq<SegmentPatternView>, InvalidUrlPattern>(
            InvalidUrlPattern::MissingForwardSlash,
        ),
{
}

/// The number of capturing units of a pattern.
pub open spec fn capturing(pattern: Seq<SegmentPatternView>) -> nat
    decreases pattern.len(),
{
    if pattern.len() == 0 {
        0
    } else if pattern[0] is Fixed {
        capturing(pattern.drop_first())
    } else {
        1 + capturing(pattern.drop_first())
    }
}

/// No unit of the pattern is a trailing capture.
pub open spec fn without_trailing(pattern: Seq<SegmentPatternView>) -> bool {
    forall|i: int| 0 <= i < pattern.len() ==> !(#[trigger] pattern[i] is WildcardKleene)
}

/// Two patterns that differ in the names of their captures at most.
pub open spec fn same_but_names(a: Seq<SegmentPatternView>, b: Seq<SegmentPatternView>) -> bool {
    &&& a.len() == b.len()
    &&& forall|i: int|
        0 <= i < a.len() ==> match #[trigger] a[i] {
            SegmentPatternView::Fixed(literal) => b[i] == SegmentPatternView::Fixed(literal),
            SegmentPatternView::Wildcard(_) => b[i] is Wildcard,
            SegmentPatternView::WildcardKleene(_) => b[i] is WildcardKleene,
        }
}

/// A pattern without a trailing capture matches only as many segments as it
/// has units.
pub proof fn lemma_match_lengths(pattern: Seq<SegmentPatternView>, segments: Seq<Seq<char>>)
    requires
        without_trailing(pattern),
        match_segments(pattern, segments) is Some,
    ensures
        segments.len() == pattern.len(),
    decreases pattern.len(),
{
    if pattern.len() > 0 {
        let tail = pattern.drop_first();
        lemma_match_lengths(tail, segments.drop_first());
    }
}

/// A pattern that ends on a trailing capture matches every sequence of
/// segments on which the units before it match, however many follow; the
/// last capture holds those that follow.
pub proof fn lemma_trailing_takes_the_rest(
    pattern: Seq<SegmentPatternView>,
    segments: Seq<Seq<char>>,
)
    requires
        pattern.len() >= 1,
        pattern.last() is WildcardKleene,
        without_trailing(pattern.drop_last()),
        match_segments(pattern, segments) is Some,
    ensures
        segments.len() >= pattern.len() - 1,
        match_segments(pattern, segments)->Some_0.len() >= 1,
        match_segments(pattern, segments)->Some_0.last() == CaptureView::WildcardKleene(
            segments.subrange(pattern.len() - 1, segments.len() as int),
        ),
    decreases pattern.len(),
{
    let front = pattern.drop_last();
    if pattern.len() == 1 {
        assert(segments.subrange(0, segments.len() as int) =~= segments);
    } else {
        assert(pattern[0] == front[0]);
        let tail = pattern.drop_first();
        assert(tail.drop_last() =~= front.drop_first());
        lemma_trailing_takes_the_rest(tail, segments.drop_first());
        assert(segments.drop_first().subrange(tail.len() - 1, segments.drop_first().len() as int)
            =~= segments.subrange(pattern.len() - 1, segments.len() as int));
    }
}

/// A match yields one capture for each capturing unit of the pattern;
/// literals contribute nothing.
pub proof fn lemma_capture_count(pattern: Seq<SegmentPatternView>, segments: Seq<Seq<char>>)
    requires
        units_valid(pattern),
        match_segments(pattern, segments) is Some,
    ensures
        match_segments(pattern, segments)->Some_0.len() == capturing(pattern),
    decreases pattern.len(),
{
    if pattern.len() > 0 {
        lemma_units_valid_tail(pattern);
        match pattern[0] {
            SegmentPatternView::WildcardKleene(_) => {
                reveal_with_fuel(capturing, 2);
            },
            _ => {
                lemma_capture_count(pattern.drop_first(), segments.drop_first());
            },
        }
    }
}

/// Names are advisory: two patterns that differ in the names of their
/// captures at most capture the same from every path.
pub proof fn lemma_names_do_not_bind(
    a: Seq<SegmentPatternView>,
    b: Seq<SegmentPatternView>,
    segments: Seq<Seq<char>>,
)
    requires
        same_but_names(a, b),
    ensures
        match_segments(a, segments) == match_segments(b, segments),
    decreases a.len(),
{
    if a.len() > 0 {
        let ta = a.drop_first();
        let tb = b.drop_first();
        lemma_names_do_not_bind(ta, tb, segments.drop_first());
    }
}

} // verus!
