//! FS and GS segment-base MSR representations.
//!
//! Raw types keep register images; checked values carry linear addresses
//! canonical for a selected x86-64 address mode.

use vstd::prelude::*;

use crate::arch::x86::msr::{Cpl0Access, Msr, ReadWrite};
use crate::arch::x86_64::paging::address::{La, LaMode, canonical};

verus! {

/// Exact IA32_FS_BASE register image; every `u64` is representable.
#[derive(Debug, Clone, Copy, PartialEq, Eq, PartialOrd, Ord, Hash)]
pub struct RawFsBase(u64);

impl View for RawFsBase {
    type V = u64;

    closed spec fn view(&self) -> u64 {
        self.0
    }
}

impl RawFsBase {
    /// Constructs a raw IA32_FS_BASE image.
    pub fn new(target_value: u64) -> (r: Self)
        ensures
            r@ == target_value,
    {
        Self(target_value)
    }

    /// Returns the raw IA32_FS_BASE image.
    pub fn raw(self) -> (r: u64)
        ensures
            r == self@,
    {
        self.0
    }
}

impl Msr for RawFsBase {
    type Access = ReadWrite;

    type Authority = Cpl0Access;

    open spec fn spec_address() -> u32 {
        0xc0000100
    }

    fn address() -> (r: u32) {
        0xc0000100
    }

    open spec fn image(self) -> u64 {
        self@
    }

    fn from_raw(value: u64) -> (r: Self)
        ensures
            r@ == value,
    {
        Self::new(value)
    }

    fn into_raw(self) -> (r: u64)
        ensures
            r == self@,
    {
        self.raw()
    }
}

/// Canonical FS base.
#[derive(Debug, Clone, Copy, PartialEq, Eq, PartialOrd, Ord, Hash)]
pub struct FsBase(La);

impl View for FsBase {
    type V = u64;

    closed spec fn view(&self) -> u64 {
        self.0@
    }
}

impl FsBase {
    /// Constructs the checked value from a linear address.
    pub fn new(address: La) -> (r: Self)
        ensures
            r@ == address@,
    {
        Self(address)
    }

    /// Lifts a raw image when it is canonical under `M`.
    pub fn lift<M: LaMode>(target_value: RawFsBase) -> (r: Option<Self>)
        ensures
            r is Some <==> canonical(M::spec_width(), target_value@),
            r matches Some(c) ==> c@ == target_value@,
    {
        match La::new::<M>(target_value.raw()) {
            Some(address) => Some(Self(address)),
            None => None,
        }
    }

    /// Returns the canonical linear address.
    pub fn la(self) -> (r: La)
        ensures
            r@ == self@,
    {
        self.0
    }

    /// Lowers this checked value into the exact register image.
    pub fn raw(self) -> (r: RawFsBase)
        ensures
            r@ == self@,
    {
        RawFsBase::new(self.0.bits())
    }
}

/// Exact IA32_GS_BASE register image; every `u64` is representable.
#[derive(Debug, Clone, Copy, PartialEq, Eq, PartialOrd, Ord, Hash)]
pub struct RawGsBase(u64);

impl View for RawGsBase {
    type V = u64;

    closed spec fn view(&self) -> u64 {
        self.0
    }
}

impl RawGsBase {
    /// Constructs a raw IA32_GS_BASE image.
    pub fn new(target_value: u64) -> (r: Self)
        ensures
            r@ == target_value,
    {
        Self(target_value)
    }

    /// Returns the raw IA32_GS_BASE image.
    pub fn raw(self) -> (r: u64)
        ensures
            r == self@,
    {
        self.0
    }
}

impl Msr for RawGsBase {
    type Access = ReadWrite;

    type Authority = Cpl0Access;

    open spec fn spec_address() -> u32 {
        0xc0000101
    }

    fn address() -> (r: u32) {
        0xc0000101
    }

    open spec fn image(self) -> u64 {
        self@
    }

    fn from_raw(value: u64) -> (r: Self)
        ensures
            r@ == value,
    {
        Self::new(value)
    }

    fn into_raw(self) -> (r: u64)
        ensures
            r == self@,
    {
        self.raw()
    }
}

/// Canonical GS base.
#[derive(Debug, Clone, Copy, PartialEq, Eq, PartialOrd, Ord, Hash)]
pub struct GsBase(La);

impl View for GsBase {
    type V = u64;

    closed spec fn view(&self) -> u64 {
        self.0@
    }
}

impl GsBase {
    /// Constructs the checked value from a linear address.
    pub fn new(address: La) -> (r: Self)
        ensures
            r@ == address@,
    {
        Self(address)
    }

    /// Lifts a raw image when it is canonical under `M`.
    pub fn lift<M: LaMode>(target_value: RawGsBase) -> (r: Option<Self>)
        ensures
            r is Some <==> canonical(M::spec_width(), target_value@),
            r matches Some(c) ==> c@ == target_value@,
    {
        match La::new::<M>(target_value.raw()) {
            Some(address) => Some(Self(address)),
            None => None,
        }
    }

    /// Returns the canonical linear address.
    pub fn la(self) -> (r: La)
        ensures
            r@ == self@,
    {
        self.0
    }

    /// Lowers this checked value into the exact register image.
    pub fn raw(self) -> (r: RawGsBase)
        ensures
            r@ == self@,
    {
        RawGsBase::new(self.0.bits())
    }
}

/// Exact IA32_KERNEL_GS_BASE register image; every `u64` is representable.
#[derive(Debug, Clone, Copy, PartialEq, Eq, PartialOrd, Ord, Hash)]
pub struct RawKernelGsBase(u64);

impl View for RawKernelGsBase {
    type V = u64;

    closed spec fn view(&self) -> u64 {
        self.0
    }
}

impl RawKernelGsBase {
    /// Constructs a raw IA32_KERNEL_GS_BASE image.
    pub fn new(target_value: u64) -> (r: Self)
        ensures
            r@ == target_value,
    {
        Self(target_value)
    }

    /// Returns the raw IA32_KERNEL_GS_BASE image.
    pub fn raw(self) -> (r: u64)
        ensures
            r == self@,
    {
        self.0
    }
}

impl Msr for RawKernelGsBase {
    type Access = ReadWrite;

    type Authority = Cpl0Access;

    open spec fn spec_address() -> u32 {
        0xc0000102
    }

    fn address() -> (r: u32) {
        0xc0000102
    }

    open spec fn image(self) -> u64 {
        self@
    }

    fn from_raw(value: u64) -> (r: Self)
        ensures
            r@ == value,
    {
        Self::new(value)
    }

    fn into_raw(self) -> (r: u64)
        ensures
            r == self@,
    {
        self.raw()
    }
}

/// Canonical kernel GS base exchanged by SWAPGS.
#[derive(Debug, Clone, Copy, PartialEq, Eq, PartialOrd, Ord, Hash)]
pub struct KernelGsBase(La);

impl View for KernelGsBase {
    type V = u64;

    closed spec fn view(&self) -> u64 {
        self.0@
    }
}

impl KernelGsBase {
    /// Constructs the checked value from a linear address.
    pub fn new(address: La) -> (r: Self)
        ensures
            r@ == address@,
    {
        Self(address)
    }

    /// Lifts a raw image when it is canonical under `M`.
    pub fn lift<M: LaMode>(target_value: RawKernelGsBase) -> (r: Option<Self>)
        ensures
            r is Some <==> canonical(M::spec_width(), target_value@),
            r matches Some(c) ==> c@ == target_value@,
    {
        match La::new::<M>(target_value.raw()) {
            Some(address) => Some(Self(address)),
            None => None,
        }
    }

    /// Returns the canonical linear address.
    pub fn la(self) -> (r: La)
        ensures
            r@ == self@,
    {
        self.0
    }

    /// Lowers this checked value into the exact register image.
    pub fn raw(self) -> (r: RawKernelGsBase)
        ensures
            r@ == self@,
    {
        RawKernelGsBase::new(self.0.bits())
    }
}

/// Every register of the segment-base family lowers to its own stored word:
/// the image that `wrmsr` loads and that `RawMsr::take` erases a value to is
/// the value's 64-bit view, bit for bit.
pub proof fn lemma_segment_images_are_stored_words(v0: RawFsBase, v1: RawGsBase, v2: RawKernelGsBase)
    ensures
        v0.image() == v0@,
        v1.image() == v1@,
        v2.image() == v2@,
{
}

} // verus!
