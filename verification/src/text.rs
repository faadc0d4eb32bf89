//! Text helpers shared by the modules.

use vstd::prelude::*;

verus! {

/// Whether two string slices hold the same text.
///
/// Calls `str`'s `==` from the standard library, which compares the two
/// slices byte by byte; the contract says that this is equality of the
/// character sequences.
#[verifier::external_body]
pub(crate) fn same_text(left: &str, right: &str) -> (same: bool)
    ensures
        same == (left@ == right@),
{
    left == right
}

} // verus!
