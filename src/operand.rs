use vstd::prelude::*;

use std::sync::Arc;

verus! {

/// A read-only handle to one encrypted value, shared by any number of readers.
/// Handles made by `share` point at the same single payload; no handle offers
/// a way to change it.
pub struct SharedOperand<C> {
    payload: Arc<C>,
}

impl<C> View for SharedOperand<C> {
    type V = C;

    closed spec fn view(&self) -> C {
        *self.payload
    }
}

/// Relies on Arc::clone: the new handle points at the same allocation, so it
/// reads the same value.
#[verifier::external_body]
fn clone_handle<C>(a: &Arc<C>) -> (r: Arc<C>)
    ensures
        *r == **a,
{
    Arc::clone(a)
}

impl<C> SharedOperand<C> {
    /// Takes ownership of `value` and makes the first handle to it.
    pub fn wrap(value: C) -> (r: SharedOperand<C>)
        ensures
            r@ == value,
    {
        SharedOperand { payload: Arc::new(value) }
    }

    /// Another handle to the same payload; the payload is not copied.
    pub fn share(&self) -> (r: SharedOperand<C>)
        ensures
            r@ == self@,
    {
        SharedOperand { payload: clone_handle(&self.payload) }
    }

    /// Read access to the payload.
    pub fn payload(&self) -> (r: &C)
        ensures
            *r == self@,
    {
        &*self.payload
    }
}

} // verus!
