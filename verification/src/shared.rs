//! Shared ownership of immutable values.

use std::sync::Arc;
use vstd::prelude::*;

verus! {

/// `Arc::clone` of std: another handle to the same allocation, so the value
/// behind the result is the value behind `a`.
#[verifier::external_body]
pub(crate) fn share<T>(a: &Arc<T>) -> (res: Arc<T>)
    ensures
        res == *a,
{
    Arc::clone(a)
}

} // verus!
