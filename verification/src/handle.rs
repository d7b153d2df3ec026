//! Shared ownership of what several workers read.

use std::sync::Arc;
use vstd::prelude::*;

verus! {

/// A second handle on what `handle` points at (`Arc::clone`): the two point
/// at the same allocation, so they are the same value.
#[verifier::external_body]
pub(crate) fn share<T>(handle: &Arc<T>) -> (r: Arc<T>)
    ensures
        r == *handle,
{
    Arc::clone(handle)
}

} // verus!
