//! String primitives that the rest of the crate reasons about.

use vstd::prelude::*;

verus! {

/// `text` ends with `pattern`.
pub open spec fn has_suffix(text: Seq<char>, pattern: Seq<char>) -> bool {
    pattern.len() <= text.len() && text.subrange(text.len() - pattern.len(), text.len() as int)
        == pattern
}

/// `pattern` occurs in `text` starting at index `at`.
pub open spec fn occurs_at(text: Seq<char>, pattern: Seq<char>, at: int) -> bool {
    0 <= at && at + pattern.len() <= text.len() && text.subrange(at, at + pattern.len())
        == pattern
}

/// `pattern` occurs somewhere in `text`.
pub open spec fn has_infix(text: Seq<char>, pattern: Seq<char>) -> bool {
    exists|at: int| occurs_at(text, pattern, at)
}

/// What stands between two texts occurs in the whole.
pub proof fn lemma_middle_occurs(before: Seq<char>, middle: Seq<char>, after: Seq<char>)
    ensures
        has_infix(before + middle + after, middle),
{
    let whole = before + middle + after;
    assert(whole.subrange(before.len() as int, (before.len() + middle.len()) as int) =~= middle);
    assert(occurs_at(whole, middle, before.len() as int));
}

/// The view of an optional string.
pub open spec fn optional_text(text: Option<String>) -> Option<Seq<char>> {
    match text {
        Some(s) => Some(s@),
        None => None,
    }
}

/// Equality of two string slices, character by character.
///
/// Trusted: wraps `str::eq`, which std documents as comparing the contents of
/// the two slices.
#[verifier::external_body]
pub(crate) fn same_text(a: &str, b: &str) -> (same: bool)
    ensures
        same == (a@ == b@),
{
    a == b
}

/// Whether `text` ends with `pattern`.
///
/// Trusted: wraps `str::ends_with` with a string-slice pattern, which std
/// documents as true exactly when the pattern matches a suffix of the slice.
#[verifier::external_body]
pub(crate) fn ends_with(text: &str, pattern: &str) -> (found: bool)
    ensures
        found == has_suffix(text@, pattern@),
{
    text.ends_with(pattern)
}

/// Whether `pattern` occurs in `text`.
///
/// Trusted: wraps `str::contains` with a string-slice pattern, which std
/// documents as true exactly when the pattern matches a sub-slice of the slice.
#[verifier::external_body]
pub(crate) fn contains(text: &str, pattern: &str) -> (found: bool)
    ensures
        found == has_infix(text@, pattern@),
{
    text.contains(pattern)
}

} // verus!
