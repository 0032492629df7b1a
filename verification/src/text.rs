//! Case folding of extension names.

use vstd::prelude::*;

verus! {

/// The upper case form of a text, as `str::to_uppercase` computes it.
pub uninterp spec fn uppercase(text: Seq<char>) -> Seq<char>;

/// Calls `str::to_uppercase`. The contract only claims that the result is a
/// function of the characters of `text`; which function, it leaves to the
/// standard library.
#[verifier::external_body]
pub(crate) fn to_uppercase(text: &str) -> (upper: String)
    ensures
        upper@ == uppercase(text@),
{
    text.to_uppercase()
}

} // verus!
