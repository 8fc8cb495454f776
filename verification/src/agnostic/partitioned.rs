//! Integers split across several fields of a structure.
//!
//! A [`Partitioned`] value holds the bits `N..=M` of a 64-bit whole, shifted
//! down to bit zero. Structures that lay one architectural integer out as
//! several fields store each part as a partition and rebuild the whole by
//! merging the parts back.

use vstd::prelude::*;

use crate::bits::{field_of, get_field, set_field, with_field};

verus! {

/// The number of bits in the partition `lo..=hi`.
pub open spec fn partition_width(lo: usize, hi: usize) -> u64 {
    (hi - lo + 1) as u64
}

/// Whether `lo..=hi` is a partition that a field of a 64-bit whole can hold.
pub open spec fn partition_fits(lo: usize, hi: usize) -> bool {
    lo <= hi < 64 && hi - lo < 63
}

/// The bits `N..=M` of a 64-bit whole, stored at bit zero.
#[derive(Debug, Clone, Copy, PartialEq, Eq, PartialOrd, Ord, Hash)]
pub struct Partitioned<const N: usize, const M: usize>(u64);

impl<const N: usize, const M: usize> View for Partitioned<N, M> {
    type V = u64;

    closed spec fn view(&self) -> u64 {
        self.0
    }
}

impl<const N: usize, const M: usize> Partitioned<N, M> {
    /// Wraps an already extracted partition value.
    pub fn raw(target_value: u64) -> (r: Self)
        ensures
            r@ == target_value,
    {
        Self(target_value)
    }

    /// The stored partition value.
    pub fn value(&self) -> (r: &u64)
        ensures
            *r == self@,
    {
        &self.0
    }

    /// The stored partition value, for writing.
    pub fn value_mut(&mut self) -> (r: &mut u64)
        ensures
            *r == old(self)@,
            final(self)@ == *final(r),
    {
        &mut self.0
    }

    /// Extracts the bits `N..=M` of a whole.
    pub fn away(target_value: u64) -> (r: Self)
        requires
            partition_fits(N, M),
        ensures
            r@ == field_of(target_value, N as u64, partition_width(N, M)),
    {
        let width = (M - N + 1) as u64;
        Self(get_field(target_value, N as u64, width))
    }

    /// Writes this partition into the bits `N..=M` of a whole, keeping its
    /// other bits, and returns the updated whole.
    pub fn merge(self, target_whole: &mut u64) -> (r: u64)
        requires
            partition_fits(N, M),
        ensures
            *final(target_whole) == with_field(
                *old(target_whole),
                N as u64,
                partition_width(N, M),
                self@,
            ),
            r == *final(target_whole),
    {
        let width = (M - N + 1) as u64;
        *target_whole = set_field(*target_whole, N as u64, width, self.0);
        *target_whole
    }
}

} // verus!
