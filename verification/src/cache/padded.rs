//! A wrapper that gives a value a cache line of its own.

use vstd::prelude::*;

verus! {

/// The size in bytes of a cache line on x86 and x86-64.
pub const CACHE_LINE_SIZE: usize = 64;

/// A value meant to sit alone on one cache line, so that writes to
/// neighbouring data do not contend for its line (false sharing).
///
/// The placement itself, alignment to [`CACHE_LINE_SIZE`], is a layout
/// property that the allocating code provides.
#[derive(Clone, Copy, Default, Hash, PartialEq, Eq, PartialOrd, Ord, Debug)]
pub struct CachePadded<T>(T);

impl<T> View for CachePadded<T> {
    type V = T;

    closed spec fn view(&self) -> T {
        self.0
    }
}

impl<T> CachePadded<T> {
    /// Wraps a value.
    pub fn new(target_value: T) -> (r: Self)
        ensures
            r@ == target_value,
    {
        Self(target_value)
    }

    /// Unwraps the value.
    pub fn unwrap(self) -> (r: T)
        ensures
            r == self@,
    {
        self.0
    }

    /// The wrapped value.
    pub fn as_ref(&self) -> (r: &T)
        ensures
            *r == self@,
    {
        &self.0
    }

    /// The wrapped value, for writing.
    pub fn as_mut(&mut self) -> (r: &mut T)
        ensures
            *r == old(self)@,
            final(self)@ == *final(r),
    {
        &mut self.0
    }
}

impl<T> core::ops::Deref for CachePadded<T> {
    type Target = T;

    fn deref(&self) -> (r: &T)
        ensures
            *r == self@,
    {
        &self.0
    }
}

} // verus!
