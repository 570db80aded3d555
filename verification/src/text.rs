//! Text primitives shared by the pattern compiler and the matcher: splitting
//! on a separator, joining back, and the lemmas that relate the two.
//!
//! Every contract here speaks of a string through its view, the sequence of
//! its code points.

use vstd::prelude::*;

verus! {

/// The pieces of `s` that lie between occurrences of `sep`, in order.
///
/// There is always at least one piece: a text without the separator is its
/// own single piece, and the empty text splits into one empty piece. Two
/// adjacent separators enclose an empty piece.
pub open spec fn split_on(s: Seq<char>, sep: char) -> Seq<Seq<char>>
    decreases s.len(),
{
    if s.len() == 0 {
        seq![Seq::empty()]
    } else {
        let rest = split_on(s.drop_first(), sep);
        if s[0] == sep {
            seq![Seq::empty()] + rest
        } else {
            seq![seq![s[0]] + rest[0]] + rest.drop_first()
        }
    }
}

/// The pieces written one after another with `sep` between neighbours.
pub open spec fn join_on(parts: Seq<Seq<char>>, sep: char) -> Seq<char>
    decreases parts.len(),
{
    if parts.len() == 0 {
        Seq::empty()
    } else if parts.len() == 1 {
        parts[0]
    } else {
        parts[0] + seq![sep] + join_on(parts.drop_first(), sep)
    }
}

/// No piece of `parts` holds the separator.
pub open spec fn free_of(parts: Seq<Seq<char>>, sep: char) -> bool {
    forall|i: int| 0 <= i < parts.len() ==> !(#[trigger] parts[i]).contains(sep)
}

/// Splitting always yields at least one piece.
pub proof fn lemma_split_nonempty(s: Seq<char>, sep: char)
    ensures
        split_on(s, sep).len() >= 1,
    decreases s.len(),
{
    if s.len() > 0 {
        lemma_split_nonempty(s.drop_first(), sep);
    }
}

/// A text that does not hold the separator is its own single piece.
pub proof fn lemma_split_without_separator(s: Seq<char>, sep: char)
    requires
        !s.contains(sep),
    ensures
        split_on(s, sep) == seq![s],
    decreases s.len(),
{
    if s.len() == 0 {
        assert(s =~= Seq::empty());
    } else {
        let tail = s.drop_first();
        lemma_split_without_separator(tail, sep);
        assert(seq![s[0]] + tail =~= s);
    }
}

/// The first piece of a text ends at its first separator, and the remaining
/// pieces are those of what follows that separator.
pub proof fn lemma_split_at_first_separator(a: Seq<char>, b: Seq<char>, sep: char)
    requires
        !a.contains(sep),
    ensures
        split_on(a + seq![sep] + b, sep) == seq![a] + split_on(b, sep),
    decreases a.len(),
{
    let s = a + seq![sep] + b;
    if a.len() == 0 {
        assert(s.drop_first() =~= b);
        assert(a =~= Seq::empty());
    } else {
        let tail = a.drop_first();
        lemma_split_at_first_separator(tail, b, sep);
        assert(s.drop_first() =~= tail + seq![sep] + b);
        assert(seq![a[0]] + tail =~= a);
    }
}

/// No piece of a split holds the separator.
pub proof fn lemma_split_pieces_free(s: Seq<char>, sep: char)
    ensures
        free_of(split_on(s, sep), sep),
    decreases s.len(),
{
    if s.len() > 0 {
        lemma_split_pieces_free(s.drop_first(), sep);
        lemma_split_nonempty(s.drop_first(), sep);
        let out = split_on(s, sep);
    }
}

/// Joining the pieces of a split gives the text back.
pub proof fn lemma_join_split(s: Seq<char>, sep: char)
    ensures
        join_on(split_on(s, sep), sep) == s,
    decreases s.len(),
{
    if s.len() > 0 {
        let tail = s.drop_first();
        let rest = split_on(tail, sep);
        lemma_join_split(tail, sep);
        lemma_split_nonempty(tail, sep);
        let out = split_on(s, sep);
        if s[0] == sep {
            assert(out.drop_first() =~= rest);
        } else {
            if rest.len() != 1 {
                assert(out.drop_first() =~= rest.drop_first());
                assert((seq![s[0]] + rest[0]) + seq![sep] + join_on(rest.drop_first(), sep) =~= seq![
                    s[0],
                ] + tail);
            }
        }
    }
}

/// Splitting a join of separator-free pieces gives the pieces back.
pub proof fn lemma_split_join(parts: Seq<Seq<char>>, sep: char)
    requires
        parts.len() >= 1,
        free_of(parts, sep),
    ensures
        split_on(join_on(parts, sep), sep) == parts,
    decreases parts.len(),
{
    if parts.len() == 1 {
        lemma_split_without_separator(parts[0], sep);
    } else {
        let tail = parts.drop_first();
        lemma_split_join(tail, sep);
        lemma_split_at_first_separator(parts[0], join_on(tail, sep), sep);
    }
}

} // verus!
