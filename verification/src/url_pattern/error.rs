use vstd::prelude::*;

verus! {

/// Why a path template failed to compile.
#[derive(Debug, Clone, Copy, PartialEq, Eq, Structural)]
pub enum InvalidUrlPattern {
    /// The template does not begin with `/`.
    MissingForwardSlash,
    /// The name inside `<` and `>` is not an identifier.
    InvalidIdentifier,
    /// A token opens with `<` and does not close with `>`.
    MissingClosingAngleBracket,
    /// A `<name..>` capture stands before the last token.
    InvalidKleenePosition,
}

impl InvalidUrlPattern {
    /// The sentence that describes this error.
    pub open spec fn message(self) -> Seq<char> {
        match self {
            InvalidUrlPattern::MissingForwardSlash => "Url pattern is missing leading forward slash"@,
            InvalidUrlPattern::InvalidIdentifier => "Url capture is not a valid identifier"@,
            InvalidUrlPattern::MissingClosingAngleBracket => "Url pattern is missing closing `>` for capture"@,
            InvalidUrlPattern::InvalidKleenePosition => "Wildcard kleene capture can only be the last segment pattern"@,
        }
    }

    /// Renders the error as the sentence that describes it.
    pub fn to_string(&self) -> (text: String)
        ensures
            text@ == self.message(),
    {
        match self {
            InvalidUrlPattern::MissingForwardSlash => {
                "Url pattern is missing leading forward slash".to_owned()
            },
            InvalidUrlPattern::InvalidIdentifier => {
                "Url capture is not a valid identifier".to_owned()
            },
            InvalidUrlPattern::MissingClosingAngleBracket => {
                "Url pattern is missing closing `>` for capture".to_owned()
            },
            InvalidUrlPattern::InvalidKleenePosition => {
                "Wildcard kleene capture can only be the last segment pattern".to_owned()
            },
        }
    }
}

} // verus!
