//! Two string primitives of the standard library that the library builds on.

use vstd::prelude::*;

verus! {

/// Appends one character with `String::push`, which adds exactly that
/// character at the end.
#[verifier::external_body]
pub(crate) fn push_char(text: &mut String, symbol: char)
    ensures
        final(text)@ == old(text)@.push(symbol),
{
    text.push(symbol)
}

/// Compares two string slices with `==`, which holds exactly when they are
/// made of the same characters.
#[verifier::external_body]
pub(crate) fn same_text(left: &str, right: &str) -> (same: bool)
    ensures
        same == (left@ == right@),
{
    left == right
}

} // verus!
