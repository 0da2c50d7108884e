//! A shared, read-only handle on one value.
use vstd::prelude::*;

use std::sync::Arc;

verus! {

/// A reference-counted handle on an immutable value. Cloning a handle
/// shares the value; nothing hands out mutable access to it.
#[derive(Debug)]
pub struct State<T>(Arc<T>);

impl<T> View for State<T> {
    type V = T;

    closed spec fn view(&self) -> T {
        *self.0
    }
}

/// Relies on `Arc::clone`: a new pointer to the same allocation, so the
/// value behind it is the same.
#[verifier::external_body]
fn share<T>(a: &Arc<T>) -> (r: Arc<T>)
    ensures
        *r == **a,
{
    Arc::clone(a)
}

impl<T> State<T> {
    pub fn new(value: T) -> (r: State<T>)
        ensures
            r@ == value,
    {
        State(Arc::new(value))
    }

    /// Get a reference to the inner, contained state
    pub fn get_ref(&self) -> (r: &T)
        ensures
            *r == self@,
    {
        &*self.0
    }

    /// Convert to the internal `Arc<T>` type
    pub fn into_inner(self) -> (r: Arc<T>)
        ensures
            *r == self@,
    {
        self.0
    }
}

impl<T> Clone for State<T> {
    /// Another handle on the same value; the value is not copied.
    fn clone(&self) -> (r: Self)
        ensures
            r@ == self@,
    {
        State(share(&self.0))
    }
}

impl<T> From<Arc<T>> for State<T> {
    fn from(arc: Arc<T>) -> (r: State<T>)
        ensures
            r@ == *arc,
    {
        State(arc)
    }
}

impl<T> vstd::std_specs::convert::FromSpecImpl<Arc<T>> for State<T> {
    open spec fn obeys_from_spec() -> bool {
        true
    }

    closed spec fn from_spec(arc: Arc<T>) -> State<T> {
        State(arc)
    }
}

impl<T> core::ops::Deref for State<T> {
    type Target = Arc<T>;

    fn deref(&self) -> (r: &Arc<T>)
        ensures
            **r == self@,
    {
        &self.0
    }
}

} // verus!
