//! Capture names: validation against the Unicode identifier classes.

use unicode_xid::UnicodeXID;
use vstd::prelude::*;
use vstd::std_specs::iter::IteratorSpec;

verus! {

/// Whether a code point above U+007F has the Unicode property `XID_Start`.
///
/// The property is a table of the Unicode character database; this names
/// what `unicode_xid` looks up in it.
pub uninterp spec fn xid_start(c: char) -> bool;

/// Whether a code point above U+007F has the Unicode property `XID_Continue`.
///
/// The property is a table of the Unicode character database; this names
/// what `unicode_xid` looks up in it.
pub uninterp spec fn xid_continue(c: char) -> bool;

/// An ASCII letter, `a` to `z` or `A` to `Z`.
pub open spec fn ascii_letter(c: char) -> bool {
    ('a' <= c && c <= 'z') || ('A' <= c && c <= 'Z')
}

/// An ASCII digit, `0` to `9`.
pub open spec fn ascii_digit(c: char) -> bool {
    '0' <= c && c <= '9'
}

/// A code point that may open an identifier: `_`, an ASCII letter, or a code
/// point beyond ASCII with the property `XID_Start`.
pub open spec fn starts_identifier(c: char) -> bool {
    c == '_' || ascii_letter(c) || (c > '\x7f' && xid_start(c))
}

/// A code point that may follow inside an identifier: `_`, an ASCII letter or
/// digit, or a code point beyond ASCII with the property `XID_Continue`.
pub open spec fn continues_identifier(c: char) -> bool {
    c == '_' || ascii_letter(c) || ascii_digit(c) || (c > '\x7f' && xid_continue(c))
}

/// A valid capture name: not empty, opened by a code point that may open an
/// identifier, and continued only by code points that may follow in one.
pub open spec fn is_identifier(name: Seq<char>) -> bool {
    &&& name.len() > 0
    &&& starts_identifier(name[0])
    &&& forall|i: int| 1 <= i < name.len() ==> continues_identifier(#[trigger] name[i])
}

/// Calls `unicode_xid::UnicodeXID::is_xid_start` on `c`.
///
/// Trusted: the answer is "ASCII letter" for an ASCII code point, as the
/// crate's source tests before it consults its table, and the table's entry
/// for any other.
#[verifier::external_body]
fn is_xid_start(c: char) -> (r: bool)
    ensures
        r == (ascii_letter(c) || (c > '\x7f' && xid_start(c))),
{
    UnicodeXID::is_xid_start(c)
}

/// Calls `unicode_xid::UnicodeXID::is_xid_continue` on `c`.
///
/// Trusted: the answer is "ASCII letter, ASCII digit or `_`" for an ASCII
/// code point, as the crate's source tests before it consults its table, and
/// the table's entry for any other.
#[verifier::external_body]
fn is_xid_continue(c: char) -> (r: bool)
    ensures
        r == (ascii_letter(c) || ascii_digit(c) || c == '_' || (c > '\x7f' && xid_continue(c))),
{
    UnicodeXID::is_xid_continue(c)
}

/// A validated capture name.
///
/// The name is advisory: captures are bound by position, never by name.
#[derive(Debug)]
pub struct Ident(String);

impl Clone for Ident {
    fn clone(&self) -> (copy: Self)
        ensures
            copy@ == self@,
    {
        proof {
            use_type_invariant(self);
        }
        Ident(self.0.clone())
    }
}

impl View for Ident {
    type V = Seq<char>;

    closed spec fn view(&self) -> Seq<char> {
        self.0@
    }
}

impl Ident {
    #[verifier::type_invariant]
    closed spec fn valid(self) -> bool {
        is_identifier(self.0@)
    }

    /// Accepts `s` as a capture name if, and only if, it is an identifier.
    pub fn parse(s: &str) -> (r: Result<Ident, ()>)
        ensures
            r is Ok <==> is_identifier(s@),
            r matches Ok(ident) ==> ident@ == s@,
    {
        broadcast use vstd::string::group_string_axioms;

        let mut chars = s.chars();
        match chars.next() {
            None => {
                return Err(());
            },
            Some(start) => {
                if start != '_' && !is_xid_start(start) {
                    return Err(());
                }
            },
        }
        let ghost mut seen: int = 1;
        loop
            invariant
                1 <= seen <= s@.len(),
                chars.remaining() == s@.subrange(seen, s@.len() as int),
                forall|j: int| 1 <= j < seen ==> continues_identifier(#[trigger] s@[j]),
            ensures
                forall|j: int| 1 <= j < s@.len() ==> continues_identifier(#[trigger] s@[j]),
            decreases s@.len() - seen,
        {
            match chars.next() {
                None => {
                    break ;
                },
                Some(c) => {
                    if !is_xid_continue(c) {
                        return Err(());
                    }
                    proof {
                        assert(s@.subrange(seen, s@.len() as int).drop_first() =~= s@.subrange(
                            seen + 1,
                            s@.len() as int,
                        ));
                        seen = seen + 1;
                    }
                },
            }
        }
        Ok(Ident(s.to_owned()))
    }

    /// The name as text; it is an identifier, as every capture name is.
    pub fn as_str(&self) -> (name: &str)
        ensures
            name@ == self@,
            is_identifier(self@),
    {
        proof {
            use_type_invariant(self);
        }
        self.0.as_str()
    }

    /// The name as an owned string.
    pub fn to_string(&self) -> (name: String)
        ensures
            name@ == self@,
    {
        self.0.clone()
    }
}

} // verus!
