//! Shared ownership of registered engines.
use std::sync::Arc;
use vstd::prelude::*;

verus! {

/// Trusted: `Arc::clone` of the standard library. The contract claims that the new handle
/// stands for the very value that `handle` stands for; the call only raises the reference
/// count.
#[verifier::external_body]
pub(crate) fn share<T>(handle: &Arc<T>) -> (shared: Arc<T>)
    ensures
        shared == *handle,
{
    Arc::clone(handle)
}

} // verus!
