//! Data-structure parametrization over the x86 operating modes.

use vstd::prelude::*;

use crate::sealed::Sealed;

verus! {

/// A marker trait for the addressing modes of an x86 processor.
pub trait Mode: Sealed {
    /// The width in bits of an address in this mode.
    spec fn spec_address_bits() -> u32;

    /// Returns the width in bits of an address in this mode.
    fn address_bits() -> (r: u32)
        ensures
            r == Self::spec_address_bits(),
    ;
}

/// The 32-bit operating mode, otherwise known as protected mode.
#[derive(Debug, Clone, Copy, PartialEq, Eq, PartialOrd, Ord, Hash)]
pub struct Bits32;

/// The 64-bit operating mode, otherwise known as long mode.
#[derive(Debug, Clone, Copy, PartialEq, Eq, PartialOrd, Ord, Hash)]
pub struct Bits64;

impl Sealed for Bits32 {}

impl Mode for Bits32 {
    open spec fn spec_address_bits() -> u32 {
        32
    }

    fn address_bits() -> (r: u32) {
        32
    }
}

impl Sealed for Bits64 {}

impl Mode for Bits64 {
    open spec fn spec_address_bits() -> u32 {
        64
    }

    fn address_bits() -> (r: u32) {
        64
    }
}

} // verus!
