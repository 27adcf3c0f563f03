//! Comparisons on string slices.

use vstd::prelude::*;

verus! {

/// Whether two string slices hold the same characters.
///
/// Trusted: this is `==` on `str` from the standard library, which compares
/// the two slices' contents.
#[verifier::external_body]
pub(crate) fn str_eq(a: &str, b: &str) -> (same: bool)
    ensures
        same == (a@ == b@),
{
    a == b
}

/// Whether `s` begins with the characters of `prefix`.
///
/// Trusted: this is `str::starts_with` from the standard library with a string
/// slice as the pattern, which is true exactly when the pattern matches a
/// prefix of the slice.
#[verifier::external_body]
pub(crate) fn starts_with(s: &str, prefix: &str) -> (begins: bool)
    ensures
        begins == prefix@.is_prefix_of(s@),
{
    s.starts_with(prefix)
}

} // verus!
