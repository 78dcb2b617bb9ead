//! What the library needs of the standard library's strings and characters
//! beyond what `vstd` specifies, and the removal of whitespace built on it.

use vstd::prelude::*;

verus! {

/// Whether a character has the Unicode property `White_Space`, as
/// `char::is_whitespace` of the standard library decides it.
pub uninterp spec fn white_space(c: char) -> bool;

/// `char::is_whitespace` of the standard library. Its answer depends on the
/// character alone; the contract gives that answer the name `white_space`
/// and claims nothing else of it.
pub assume_specification[ char::is_whitespace ](c: char) -> (r: bool)
    ensures
        r == white_space(c),
;

/// `String::push` of the standard library: appends one character to the end
/// of the string and leaves the rest as it was.
pub assume_specification[ String::push ](s: &mut String, c: char)
    ensures
        final(s)@ == old(s)@.push(c),
;

/// Equality of string slices in the standard library: two slices are equal
/// exactly when they hold the same characters in the same order.
pub assume_specification[ <str as PartialEq>::eq ](a: &str, b: &str) -> (r: bool)
    ensures
        r == (a@ == b@),
;

/// The characters of `s` that are not whitespace, in their order.
pub open spec fn without_whitespace(s: Seq<char>) -> Seq<char> {
    s.filter(|c: char| !white_space(c))
}

/// Removes every whitespace character from `s`. This is what splitting `s`
/// on whitespace and joining the pieces with no separator gives.
pub fn remove_whitespace(s: &str) -> (r: String)
    ensures
        r@ == without_whitespace(s@),
{
    let mut out = String::new();
    proof {
        reveal(Seq::filter);
    }
    for c in it: s.chars()
        invariant
            it.seq() == s@,
            out@ == without_whitespace(s@.take(it.index() as int)),
    {
        proof {
            reveal(Seq::filter);
            assert(s@.take(it.index() + 1).drop_last() =~= s@.take(it.index() as int));
        }
        if !c.is_whitespace() {
            out.push(c);
        }
    }
    assert(s@.take(s@.len() as int) =~= s@);
    out
}

/// Removing whitespace from a string that holds none changes nothing.
pub proof fn lemma_without_whitespace_fixed(s: Seq<char>)
    requires
        forall|i: int| 0 <= i < s.len() ==> !white_space(#[trigger] s[i]),
    ensures
        without_whitespace(s) == s,
    decreases s.len(),
{
    reveal(Seq::filter);
    if s.len() > 0 {
        lemma_without_whitespace_fixed(s.drop_last());
        assert(s.drop_last().push(s.last()) =~= s);
    }
}

/// What is left after removing whitespace holds no whitespace, so removing
/// it a second time changes nothing.
pub proof fn lemma_without_whitespace_idempotent(s: Seq<char>)
    ensures
        forall|i: int|
            0 <= i < without_whitespace(s).len() ==> !white_space(
                #[trigger] without_whitespace(s)[i],
            ),
        without_whitespace(without_whitespace(s)) == without_whitespace(s),
{
    let keep = |c: char| !white_space(c);
    assert forall|i: int| 0 <= i < without_whitespace(s).len() implies !white_space(
        #[trigger] without_whitespace(s)[i],
    ) by {
        s.lemma_filter_pred(keep, i);
    }
    lemma_without_whitespace_fixed(without_whitespace(s));
}

/// Nothing is left of a string made of whitespace alone.
pub proof fn lemma_all_whitespace(s: Seq<char>)
    requires
        forall|i: int| 0 <= i < s.len() ==> white_space(#[trigger] s[i]),
    ensures
        without_whitespace(s).len() == 0,
    decreases s.len(),
{
    reveal(Seq::filter);
    if s.len() > 0 {
        lemma_all_whitespace(s.drop_last());
    }
}

} // verus!
