//! Text primitives that the rest of the crate builds on: substring
//! occurrence as a specification, and the two `std` string operations the
//! classifier needs.

use vstd::prelude::*;

verus! {

/// `needle` stands in `text`, starting at position `at`.
pub open spec fn occurs_at(needle: Seq<char>, text: Seq<char>, at: int) -> bool {
    &&& 0 <= at
    &&& at + needle.len() <= text.len()
    &&& text.subrange(at, at + needle.len()) == needle
}

/// `needle` stands somewhere in `text`. The empty needle occurs in every text.
pub open spec fn occurs_in(needle: Seq<char>, text: Seq<char>) -> bool {
    exists|at: int| occurs_at(needle, text, at)
}

/// The lowercase form of a text as `str::to_lowercase` computes it. Unicode
/// case mapping is a table of several thousand entries, so the result is
/// named here rather than written out.
pub uninterp spec fn lowercased(text: Seq<char>) -> Seq<char>;

/// Calls `str::to_lowercase`. Trusted: the result is the Unicode lowercase
/// form of the whole text, a function of the text alone.
#[verifier::external_body]
pub(crate) fn to_lowercase(text: &str) -> (lowered: String)
    ensures
        lowered@ == lowercased(text@),
{
    text.to_lowercase()
}

/// Calls `str::contains` with a string pattern. Trusted: the answer is true
/// exactly when the pattern occurs in the text as a contiguous run of
/// characters.
#[verifier::external_body]
pub(crate) fn contains(text: &str, needle: &str) -> (found: bool)
    ensures
        found == occurs_in(needle@, text@),
{
    text.contains(needle)
}

} // verus!
