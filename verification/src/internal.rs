//! Helpers that the rest of the crate shares.

use vstd::prelude::*;

verus! {

/// The answer that [`crate::get_answer`] hands out.
pub(crate) fn internal_helper() -> (answer: i32)
    ensures
        answer == 42,
{
    42
}

} // verus!
