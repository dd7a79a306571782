//! Text comparisons shared by the header lookup and the configuration rules.

use vstd::prelude::*;

verus! {

/// The ASCII lower-case form of `c`: `A`..`Z` move to `a`..`z`, every other
/// character stays.
pub open spec fn ascii_lower(c: char) -> char {
    if 'A' <= c && c <= 'Z' {
        ((c as u32) + 32) as char
    } else {
        c
    }
}

/// `text` with every character in its ASCII lower-case form.
pub open spec fn ascii_fold(text: Seq<char>) -> Seq<char> {
    text.map_values(|c: char| ascii_lower(c))
}

/// Whether `a` and `b` are the same text up to the case of ASCII letters.
pub open spec fn ascii_case_eq(a: Seq<char>, b: Seq<char>) -> bool {
    ascii_fold(a) == ascii_fold(b)
}

/// Calls `str::eq_ignore_ascii_case`, which std documents as the comparison
/// of the two ASCII lower-case forms.
#[verifier::external_body]
pub(crate) fn eq_ignore_ascii_case(a: &str, b: &str) -> (same: bool)
    ensures
        same == ascii_case_eq(a@, b@),
{
    a.eq_ignore_ascii_case(b)
}

/// Calls `str::starts_with` with a string pattern: whether `prefix` is a
/// prefix of `text`.
#[verifier::external_body]
pub(crate) fn starts_with(text: &str, prefix: &str) -> (found: bool)
    ensures
        found == prefix@.is_prefix_of(text@),
{
    text.starts_with(prefix)
}

/// Calls `str::eq`: whether the two slices hold the same characters.
#[verifier::external_body]
pub(crate) fn same_text(a: &str, b: &str) -> (same: bool)
    ensures
        same == (a@ == b@),
{
    a == b
}

} // verus!
