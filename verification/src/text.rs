//! The tests on strings that the crate takes from the standard library.

use vstd::prelude::*;

verus! {

/// Trusted: `str::starts_with` with a string as the pattern. It tells whether
/// `prefix` is a prefix of `s`.
#[verifier::external_body]
pub(crate) fn starts_with(s: &str, prefix: &str) -> (res: bool)
    ensures
        res == prefix@.is_prefix_of(s@),
{
    s.starts_with(prefix)
}

/// Trusted: `str::ends_with` with a string as the pattern. It tells whether
/// `suffix` is a suffix of `s`.
#[verifier::external_body]
pub(crate) fn ends_with(s: &str, suffix: &str) -> (res: bool)
    ensures
        res == suffix@.is_suffix_of(s@),
{
    s.ends_with(suffix)
}

/// Trusted: `==` on string slices. It tells whether the two hold the same
/// characters.
#[verifier::external_body]
pub(crate) fn same_text(a: &str, b: &str) -> (res: bool)
    ensures
        res == (a@ == b@),
{
    a == b
}

} // verus!
