//! One `/`-delimited token of a template, compiled.

use crate::cut::{strip_prefix, strip_suffix};
use crate::url_pattern::encode::{encoded_literal, percent_encode_str};
use crate::url_pattern::error::InvalidUrlPattern;
use crate::url_pattern::ident::{is_identifier, Ident};
use vstd::prelude::*;
use vstd::string::*;

verus! {

/// The byte `<`, which opens a capture.
pub const OPEN: u8 = 0x3c;

/// The byte `>`, which closes a capture.
pub const CLOSE: u8 = 0x3e;

/// The byte `.`, two of which mark a capture as trailing.
pub const DOT: u8 = 0x2e;

/// One unit of a compiled pattern.
#[derive(Debug)]
pub enum SegmentPattern {
    /// A literal, stored percent-encoded; it matches the one segment equal
    /// to it.
    Fixed(String),
    /// `<name>`: matches any one segment and captures it.
    Wildcard(Ident),
    /// `<name..>`: matches all the segments that remain and captures them.
    WildcardKleene(Ident),
}

/// The mathematical value of a [`SegmentPattern`].
pub enum SegmentPatternView {
    Fixed(Seq<char>),
    Wildcard(Seq<char>),
    WildcardKleene(Seq<char>),
}

impl View for SegmentPattern {
    type V = SegmentPatternView;

    open spec fn view(&self) -> SegmentPatternView {
        match self {
            SegmentPattern::Fixed(literal) => SegmentPatternView::Fixed(literal@),
            SegmentPattern::Wildcard(name) => SegmentPatternView::Wildcard(name@),
            SegmentPattern::WildcardKleene(name) => SegmentPatternView::WildcardKleene(name@),
        }
    }
}

/// Whether `text` ends with `suffix`.
pub open spec fn ends_with(text: Seq<char>, suffix: Seq<char>) -> bool {
    text.len() >= suffix.len() && text.subrange(text.len() - suffix.len(), text.len() as int)
        == suffix
}

/// What one token of a template compiles to.
///
/// A token that opens with `<` is a capture: trailing where it closes with
/// `..>`, single where it closes with `>` alone, and an error where it does
/// not close; the text between the delimiters must be an identifier. Any
/// other token is a literal, kept percent-encoded.
pub open spec fn parse_segment(token: Seq<char>) -> Result<SegmentPatternView, InvalidUrlPattern> {
    if token.len() > 0 && token[0] == '<' {
        if ends_with(token, seq!['.', '.', '>']) {
            let name = token.subrange(1, token.len() - 3);
            if is_identifier(name) {
                Ok(SegmentPatternView::WildcardKleene(name))
            } else {
                Err(InvalidUrlPattern::InvalidIdentifier)
            }
        } else if ends_with(token, seq!['>']) {
            let name = token.subrange(1, token.len() - 1);
            if is_identifier(name) {
                Ok(SegmentPatternView::Wildcard(name))
            } else {
                Err(InvalidUrlPattern::InvalidIdentifier)
            }
        } else {
            Err(InvalidUrlPattern::MissingClosingAngleBracket)
        }
    } else {
        Ok(SegmentPatternView::Fixed(encoded_literal(token)))
    }
}

/// The token that a compiled unit is written as.
pub open spec fn render_segment(segment: SegmentPatternView) -> Seq<char> {
    match segment {
        SegmentPatternView::Fixed(literal) => literal,
        SegmentPatternView::Wildcard(name) => seq!['<'] + name + seq!['>'],
        SegmentPatternView::WildcardKleene(name) => seq!['<'] + name + seq!['.', '.', '>'],
    }
}

impl Clone for SegmentPattern {
    fn clone(&self) -> (copy: Self)
        ensures
            copy@ == self@,
    {
        match self {
            SegmentPattern::Fixed(literal) => SegmentPattern::Fixed(literal.clone()),
            SegmentPattern::Wildcard(name) => SegmentPattern::Wildcard(name.clone()),
            SegmentPattern::WildcardKleene(name) => SegmentPattern::WildcardKleene(name.clone()),
        }
    }
}

impl SegmentPattern {
    /// Compiles one token of a template.
    pub fn parse(segment: &str) -> (r: Result<SegmentPattern, InvalidUrlPattern>)
        ensures
            match r {
                Ok(pattern) => parse_segment(segment@) == Ok::<
                    SegmentPatternView,
                    InvalidUrlPattern,
                >(pattern@),
                Err(e) => parse_segment(segment@) == Err::<SegmentPatternView, InvalidUrlPattern>(
                    e,
                ),
            },
    {
        let ghost token = segment@;
        match strip_prefix(segment, OPEN) {
            None => Ok(SegmentPattern::Fixed(percent_encode_str(segment))),
            Some(inner) => {
                match strip_suffix(inner, CLOSE) {
                    None => {
                        assert(!ends_with(token, seq!['>'])) by {
                            if ends_with(token, seq!['>']) {
                                assert(token.subrange(token.len() - 1, token.len() as int)[0]
                                    == '>');
                            }
                        }
                        assert(!ends_with(token, seq!['.', '.', '>'])) by {
                            if ends_with(token, seq!['.', '.', '>']) {
                                assert(token.subrange(token.len() - 3, token.len() as int)[2]
                                    == '>');
                            }
                        }
                        Err(InvalidUrlPattern::MissingClosingAngleBracket)
                    },
                    Some(body) => {
                        assert(ends_with(token, seq!['>'])) by {
                            assert(token.subrange(token.len() - 1, token.len() as int) =~= seq![
                                '>',
                            ]);
                        }
                        let trailing = match strip_suffix(body, DOT) {
                            Some(shorter) => strip_suffix(shorter, DOT),
                            None => None,
                        };
                        match trailing {
                            Some(name) => {
                                assert(ends_with(token, seq!['.', '.', '>'])) by {
                                    assert(token.subrange(token.len() - 3, token.len() as int)
                                        =~= seq!['.', '.', '>']);
                                }
                                assert(token.subrange(1, token.len() - 3) =~= name@);
                                match Ident::parse(name) {
                                    Ok(ident) => Ok(SegmentPattern::WildcardKleene(ident)),
                                    Err(_) => Err(InvalidUrlPattern::InvalidIdentifier),
                                }
                            },
                            None => {
                                assert(!ends_with(token, seq!['.', '.', '>'])) by {
                                    if ends_with(token, seq!['.', '.', '>']) {
                                        let tail = token.subrange(
                                            token.len() - 3,
                                            token.len() as int,
                                        );
                                        assert(tail[0] == '.' && tail[1] == '.');
                                    }
                                }
                                assert(token.subrange(1, token.len() - 1) =~= body@);
                                match Ident::parse(body) {
                                    Ok(ident) => Ok(SegmentPattern::Wildcard(ident)),
                                    Err(_) => Err(InvalidUrlPattern::InvalidIdentifier),
                                }
                            },
                        }
                    },
                }
            },
        }
    }

    /// Writes the unit back as the token it compiles from.
    pub fn to_string(&self) -> (token: String)
        ensures
            token@ == render_segment(self@),
    {
        proof {
            reveal_strlit("<");
            reveal_strlit(">");
            reveal_strlit("..>");
        }
        match self {
            SegmentPattern::Fixed(literal) => literal.clone(),
            SegmentPattern::Wildcard(name) => {
                let mut token = "<".to_owned();
                token.append(name.as_str());
                token.append(">");
                token
            },
            SegmentPattern::WildcardKleene(name) => {
                let mut token = "<".to_owned();
                token.append(name.as_str());
                token.append("..>");
                token
            },
        }
    }
}

} // verus!
