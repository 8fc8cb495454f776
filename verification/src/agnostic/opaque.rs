//! Opaque wrappers.

use vstd::prelude::*;

verus! {

/// A value kept behind an explicit barrier: it is reached only by name, with
/// [`Opaque::value`] and [`Opaque::unwrap`], so that each access is visible
/// at the call site.
#[derive(Clone, Copy, PartialEq, Eq, PartialOrd, Hash)]
pub struct Opaque<S>(S);

impl<S> View for Opaque<S> {
    type V = S;

    closed spec fn view(&self) -> S {
        self.0
    }
}

impl<S> Opaque<S> {
    /// Hides a value.
    pub fn value(target_value: S) -> (r: Self)
        ensures
            r@ == target_value,
    {
        Self(target_value)
    }

    /// Gives the hidden value back.
    pub fn unwrap(self) -> (r: S)
        ensures
            r == self@,
    {
        self.0
    }
}

} // verus!
