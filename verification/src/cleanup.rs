//! A value together with what is to be done with it in the end.

use core::ops::{Deref, DerefMut};
use vstd::prelude::*;

verus! {

/// Wraps a value and the action that finishes it.
///
/// The value is used through the wrapper. In the end the owner either calls
/// [`WithCleanup::cleanup`], which hands the value to the action, or
/// [`WithCleanup::into_inner`], which gives both back and runs nothing.
pub struct WithCleanup<T, F: FnOnce(T)> {
    inner: T,
    cleanup_fn: F,
}

impl<T, F: FnOnce(T)> View for WithCleanup<T, F> {
    type V = (T, F);

    closed spec fn view(&self) -> (T, F) {
        (self.inner, self.cleanup_fn)
    }
}

impl<T, F: FnOnce(T)> WithCleanup<T, F> {
    /// Wraps `inner` with the action `cleanup_fn`. The action is not run.
    pub fn new(inner: T, cleanup_fn: F) -> (wrapped: Self)
        ensures
            wrapped@ == (inner, cleanup_fn),
    {
        WithCleanup { inner, cleanup_fn }
    }

    /// Takes the wrapper apart without running the action.
    pub fn into_inner(self) -> (parts: (T, F))
        ensures
            parts == self@,
    {
        (self.inner, self.cleanup_fn)
    }

    /// Runs the action on the value as it is now.
    pub fn cleanup(self)
        requires
            call_requires(self@.1, (self@.0,)),
        ensures
            call_ensures(self@.1, (self@.0,), ()),
    {
        let WithCleanup { inner, cleanup_fn } = self;
        cleanup_fn(inner)
    }
}

impl<T, F: FnOnce(T)> Deref for WithCleanup<T, F> {
    type Target = T;

    fn deref(&self) -> (inner: &T)
        ensures
            *inner == self@.0,
    {
        &self.inner
    }
}

impl<T, F: FnOnce(T)> DerefMut for WithCleanup<T, F> {
    fn deref_mut(&mut self) -> (inner: &mut T)
        ensures
            *inner == old(self)@.0,
            final(self)@ == (*final(inner), old(self)@.1),
    {
        &mut self.inner
    }
}

} // verus!
