use vstd::prelude::*;

verus! {

/// `needle` occurs as a contiguous run of characters somewhere in `hay`.
pub open spec fn contains_substring(hay: Seq<char>, needle: Seq<char>) -> bool {
    exists|i: int|
        0 <= i && i + needle.len() <= hay.len() && #[trigger] hay.subrange(
            i,
            i + needle.len(),
        ) == needle
}

/// A sequence contains each of its prefixes as a substring.
pub proof fn lemma_prefix_contains(hay: Seq<char>, needle: Seq<char>)
    requires
        needle.len() <= hay.len(),
        hay.subrange(0, needle.len() as int) == needle,
    ensures
        contains_substring(hay, needle),
{
    assert(hay.subrange(0, 0 + needle.len() as int) == needle);
}

} // verus!
