use vstd::prelude::*;

verus! {

/// `needle` occurs contiguously somewhere in `hay`.
pub open spec fn contains_substr(hay: Seq<char>, needle: Seq<char>) -> bool {
    exists|i: int|
        0 <= i && i + needle.len() <= hay.len() && #[trigger] hay.subrange(i, i + needle.len())
            == needle
}

/// An occurrence in the right part of a concatenation is an occurrence
/// in the whole.
pub proof fn lemma_contains_substr_concat_right(left: Seq<char>, right: Seq<char>, needle: Seq<char>)
    requires
        contains_substr(right, needle),
    ensures
        contains_substr(left + right, needle),
{
    let i = choose|i: int|
        0 <= i && i + needle.len() <= right.len() && #[trigger] right.subrange(i, i + needle.len())
            == needle;
    let j = left.len() + i;
    assert((left + right).subrange(j, j + needle.len()) =~= right.subrange(i, i + needle.len()));
}

} // verus!
