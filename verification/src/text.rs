//! Substring and prefix tests on strings, stated over sequences of characters.

use vstd::prelude::*;

verus! {

/// `pattern` stands in `text` as a contiguous run that starts at index `at`.
pub open spec fn occurs_at(pattern: Seq<char>, text: Seq<char>, at: int) -> bool {
    &&& 0 <= at
    &&& at + pattern.len() <= text.len()
    &&& text.subrange(at, at + pattern.len()) == pattern
}

/// `pattern` stands somewhere in `text` as a contiguous run. Case-sensitive
/// and exact; the empty pattern occurs in every text.
pub open spec fn occurs_in(pattern: Seq<char>, text: Seq<char>) -> bool {
    exists|at: int| occurs_at(pattern, text, at)
}

/// `text` starts with `pattern`.
pub open spec fn begins_with(pattern: Seq<char>, text: Seq<char>) -> bool {
    occurs_at(pattern, text, 0)
}

/// Trusted: `str::contains` with a string slice as the pattern. The standard
/// library documents that it returns `true` exactly when the pattern matches a
/// sub-slice of the text; both arguments are valid UTF-8, so a match on bytes
/// is a match on whole characters.
#[verifier::external_body]
pub(crate) fn contains(text: &str, pattern: &str) -> (found: bool)
    ensures
        found == occurs_in(pattern@, text@),
{
    text.contains(pattern)
}

/// Trusted: `str::starts_with` with a string slice as the pattern. The standard
/// library documents that it returns `true` exactly when the pattern matches a
/// prefix of the text.
#[verifier::external_body]
pub(crate) fn starts_with(text: &str, pattern: &str) -> (found: bool)
    ensures
        found == begins_with(pattern@, text@),
{
    text.starts_with(pattern)
}

} // verus!
