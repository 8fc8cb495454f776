//! Base-relative addresses.
//!
//! A relative pointer stores the distance from the address of the pointer
//! itself to its target, modulo the address space. Moving the pointer together
//! with its target keeps the distance, so the target is found again from the
//! pointer's new address. Addresses are plain `usize` values here; turning them
//! into references is left to the code that owns the memory.

use vstd::prelude::*;

verus! {

/// The distance from `base` to `target`, wrapping around the address space.
pub open spec fn relative_offset(base: usize, target: usize) -> usize {
    target.wrapping_sub(base)
}

/// The address at `offset` from `base`, wrapping around the address space.
pub open spec fn resolve_offset(base: usize, offset: usize) -> usize {
    offset.wrapping_add(base)
}

/// Resolving the offset of a target from a base, at that base, gives the
/// target back.
pub proof fn lemma_resolve_relative(base: usize, target: usize)
    ensures
        resolve_offset(base, relative_offset(base, target)) == target,
{
}

/// Moving a relative pointer and its target by the same distance keeps the
/// pointer valid: resolved at its new place it finds the moved target.
pub proof fn lemma_relocation(base: usize, target: usize, distance: usize)
    ensures
        resolve_offset(base.wrapping_add(distance), relative_offset(base, target))
            == target.wrapping_add(distance),
{
}

/// A base-relative address of a `T`.
#[derive(Debug, Hash, Eq, PartialEq, PartialOrd, Ord)]
pub struct RelPtr<T> {
    offset: usize,
    target: core::marker::PhantomData<T>,
}

impl<T> View for RelPtr<T> {
    type V = usize;

    /// The stored offset.
    closed spec fn view(&self) -> usize {
        self.offset
    }
}

impl<T> RelPtr<T> {
    /// Creates the relative pointer that will live at `base_address` and refer
    /// to `target_address`.
    pub fn new(base_address: usize, target_address: usize) -> (r: Self)
        ensures
            r@ == relative_offset(base_address, target_address),
    {
        RelPtr { offset: target_address.wrapping_sub(base_address), target: core::marker::PhantomData }
    }

    /// The target address, for the pointer stored at `base_address`.
    pub fn base(&self, base_address: usize) -> (r: usize)
        ensures
            r == resolve_offset(base_address, self@),
    {
        self.offset.wrapping_add(base_address)
    }
}

/// A base-relative address of a mutable `T`.
#[derive(Debug, Hash, Eq, PartialEq, PartialOrd, Ord)]
pub struct RelPtrMut<T> {
    offset: usize,
    target: core::marker::PhantomData<T>,
}

impl<T> View for RelPtrMut<T> {
    type V = usize;

    /// The stored offset.
    closed spec fn view(&self) -> usize {
        self.offset
    }
}

impl<T> Clone for RelPtrMut<T> {
    fn clone(&self) -> (r: Self)
        ensures
            r@ == self@,
    {
        RelPtrMut { offset: self.offset, target: core::marker::PhantomData }
    }
}

impl<T> Copy for RelPtrMut<T> {

}

impl<T> RelPtrMut<T> {
    /// Creates the relative pointer that will live at `base_address` and refer
    /// to `target_address`.
    pub fn new(base_address: usize, target_address: usize) -> (r: Self)
        ensures
            r@ == relative_offset(base_address, target_address),
    {
        RelPtrMut {
            offset: target_address.wrapping_sub(base_address),
            target: core::marker::PhantomData,
        }
    }

    /// The target address, for the pointer stored at `base_address`.
    pub fn base(&self, base_address: usize) -> (r: usize)
        ensures
            r == resolve_offset(base_address, self@),
    {
        self.offset.wrapping_add(base_address)
    }
}

} // verus!
