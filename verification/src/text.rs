//! What the library takes two string functions of std to do.

use vstd::prelude::*;

verus! {

/// `String::push` of std appends the character to the end of the string and
/// leaves the rest as it was.
pub assume_specification[ String::push ](s: &mut String, c: char)
    ensures
        final(s)@ == old(s)@.push(c),
;

/// Compares two string slices with `==` of `str`, which std documents as
/// equality of their contents: they are equal exactly when they hold the same
/// characters in the same order.
#[verifier::external_body]
pub(crate) fn str_equal(a: &str, b: &str) -> (r: bool)
    ensures
        r == (a@ == b@),
{
    a == b
}

} // verus!
