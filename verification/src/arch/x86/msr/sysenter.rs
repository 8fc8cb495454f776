//! Legacy SYSENTER MSR representations.
//!
//! Raw types keep architectural register images. Checked values carry
//! selector adjacency and canonical linear addresses.

use vstd::prelude::*;

use crate::arch::x86::msr::{Cpl0Access, Msr, ReadWrite};
use crate::arch::x86::msr::syscall::syscall_pair;
use crate::arch::x86::privilege::PrivilegeLevel;
use crate::arch::x86::segmentation::{CodeSegment, DataSegment, TableIndicator, selector_image};
use crate::arch::x86_64::paging::address::{La, LaMode, canonical};
use crate::bits::{field_of, get_field, get_field_u16, set_field, with_field};

verus! {

/// Exact IA32_SYSENTER_CS register image; every `u64` is representable.
#[derive(Debug, Clone, Copy, PartialEq, Eq, PartialOrd, Ord, Hash)]
pub struct RawSysEnterCs(u64);

impl View for RawSysEnterCs {
    type V = u64;

    closed spec fn view(&self) -> u64 {
        self.0
    }
}

impl RawSysEnterCs {
    /// Constructs a raw IA32_SYSENTER_CS image.
    pub fn new(target_value: u64) -> (r: Self)
        ensures
            r@ == target_value,
    {
        Self(target_value)
    }

    /// Returns the raw IA32_SYSENTER_CS image.
    pub fn raw(self) -> (r: u64)
        ensures
            r == self@,
    {
        self.0
    }

    /// Reads the code-selector field (bits 15..0).
    pub fn selector(&self) -> (r: u16)
        ensures
            r == field_of(self@, 0, 16),
    {
        get_field_u16(self.0, 0, 16)
    }

    /// Writes the code-selector field (bits 15..0).
    pub fn selector_mut(&mut self, value: u16)
        ensures
            final(self)@ == with_field(old(self)@, 0, 16, (value as u64)),
    {
        self.0 = set_field(self.0, 0, 16, (value as u64));
    }

    /// Reads the reserved field (bits 63..16).
    pub fn reserved(&self) -> (r: u64)
        ensures
            r == field_of(self@, 16, 48),
    {
        get_field(self.0, 16, 48)
    }

    /// Writes the reserved field (bits 63..16).
    pub fn reserved_mut(&mut self, value: u64)
        ensures
            final(self)@ == with_field(old(self)@, 16, 48, value),
    {
        self.0 = set_field(self.0, 16, 48, value);
    }
}

impl Msr for RawSysEnterCs {
    type Access = ReadWrite;

    type Authority = Cpl0Access;

    open spec fn spec_address() -> u32 {
        0x174
    }

    fn address() -> (r: u32) {
        0x174
    }

    open spec fn image(self) -> u64 {
        self@
    }

    fn from_raw(value: u64) -> (r: Self)
        ensures
            r@ == value,
    {
        Self::new(value)
    }

    fn into_raw(self) -> (r: u64)
        ensures
            r == self@,
    {
        self.raw()
    }
}

/// The SYSENTER code selector of an adjacent ring-zero GDT code and data
/// segment pair.
///
/// This checks the supplied descriptor values only; it does not prove that
/// they are installed in the live GDT.
#[derive(Debug, Clone, Copy, PartialEq, Eq, PartialOrd, Ord, Hash)]
pub struct SysEnterCs(RawSysEnterCs);

impl View for SysEnterCs {
    type V = u64;

    closed spec fn view(&self) -> u64 {
        self.0@
    }
}

impl SysEnterCs {
    /// Checks the selector relationship required by SYSENTER and places the
    /// code selector in an otherwise zero image.
    pub fn new(code: CodeSegment, data: DataSegment) -> (r: Option<Self>)
        ensures
            r is Some <==> syscall_pair(code@, data@),
            r matches Some(s) ==> s@ == with_field(0, 0, 16, selector_image(code@.0, code@.1, code@.2) as u64),
    {
        let tables_valid = matches!(code.table(), TableIndicator::Gdt) && matches!(
            data.table(),
            TableIndicator::Gdt
        );
        let privileges_valid = matches!(code.privilege(), PrivilegeLevel::Ring0) && matches!(
            data.privilege(),
            PrivilegeLevel::Ring0
        );
        let adjacent = matches!(data.index().raw().checked_sub(code.index().raw()), Some(1));
        if tables_valid && privileges_valid && adjacent {
            let mut target_value = RawSysEnterCs::new(0);
            target_value.selector_mut(code.raw().raw());
            Some(Self(target_value))
        } else {
            None
        }
    }

    /// Reads the code-selector field.
    pub fn selector(&self) -> (r: u16)
        ensures
            r == field_of(self@, 0, 16),
    {
        self.0.selector()
    }

    /// Lowers this selector into the exact SYSENTER_CS image.
    pub fn raw(self) -> (r: RawSysEnterCs)
        ensures
            r@ == self@,
    {
        self.0
    }
}

/// Exact IA32_SYSENTER_ESP register image; every `u64` is representable.
#[derive(Debug, Clone, Copy, PartialEq, Eq, PartialOrd, Ord, Hash)]
pub struct RawSysEnterSp(u64);

impl View for RawSysEnterSp {
    type V = u64;

    closed spec fn view(&self) -> u64 {
        self.0
    }
}

impl RawSysEnterSp {
    /// Constructs a raw IA32_SYSENTER_ESP image.
    pub fn new(target_value: u64) -> (r: Self)
        ensures
            r@ == target_value,
    {
        Self(target_value)
    }

    /// Returns the raw IA32_SYSENTER_ESP image.
    pub fn raw(self) -> (r: u64)
        ensures
            r == self@,
    {
        self.0
    }
}

impl Msr for RawSysEnterSp {
    type Access = ReadWrite;

    type Authority = Cpl0Access;

    open spec fn spec_address() -> u32 {
        0x175
    }

    fn address() -> (r: u32) {
        0x175
    }

    open spec fn image(self) -> u64 {
        self@
    }

    fn from_raw(value: u64) -> (r: Self)
        ensures
            r@ == value,
    {
        Self::new(value)
    }

    fn into_raw(self) -> (r: u64)
        ensures
            r == self@,
    {
        self.raw()
    }
}

/// Canonical SYSENTER stack pointer.
#[derive(Debug, Clone, Copy, PartialEq, Eq, PartialOrd, Ord, Hash)]
pub struct SysEnterSp(La);

impl View for SysEnterSp {
    type V = u64;

    closed spec fn view(&self) -> u64 {
        self.0@
    }
}

impl SysEnterSp {
    /// Constructs the checked value from a linear address.
    pub fn new(address: La) -> (r: Self)
        ensures
            r@ == address@,
    {
        Self(address)
    }

    /// Lifts a raw image when it is canonical under `M`.
    pub fn lift<M: LaMode>(target_value: RawSysEnterSp) -> (r: Option<Self>)
        ensures
            r is Some <==> canonical(M::spec_width(), target_value@),
            r matches Some(c) ==> c@ == target_value@,
    {
        match La::new::<M>(target_value.raw()) {
            Some(address) => Some(Self(address)),
            None => None,
        }
    }

    /// Returns the canonical linear address.
    pub fn la(self) -> (r: La)
        ensures
            r@ == self@,
    {
        self.0
    }

    /// Lowers this checked value into the exact register image.
    pub fn raw(self) -> (r: RawSysEnterSp)
        ensures
            r@ == self@,
    {
        RawSysEnterSp::new(self.0.bits())
    }
}

/// Exact IA32_SYSENTER_EIP register image; every `u64` is representable.
#[derive(Debug, Clone, Copy, PartialEq, Eq, PartialOrd, Ord, Hash)]
pub struct RawSysEnterIp(u64);

impl View for RawSysEnterIp {
    type V = u64;

    closed spec fn view(&self) -> u64 {
        self.0
    }
}

impl RawSysEnterIp {
    /// Constructs a raw IA32_SYSENTER_EIP image.
    pub fn new(target_value: u64) -> (r: Self)
        ensures
            r@ == target_value,
    {
        Self(target_value)
    }

    /// Returns the raw IA32_SYSENTER_EIP image.
    pub fn raw(self) -> (r: u64)
        ensures
            r == self@,
    {
        self.0
    }
}

impl Msr for RawSysEnterIp {
    type Access = ReadWrite;

    type Authority = Cpl0Access;

    open spec fn spec_address() -> u32 {
        0x176
    }

    fn address() -> (r: u32) {
        0x176
    }

    open spec fn image(self) -> u64 {
        self@
    }

    fn from_raw(value: u64) -> (r: Self)
        ensures
            r@ == value,
    {
        Self::new(value)
    }

    fn into_raw(self) -> (r: u64)
        ensures
            r == self@,
    {
        self.raw()
    }
}

/// Canonical SYSENTER instruction pointer.
#[derive(Debug, Clone, Copy, PartialEq, Eq, PartialOrd, Ord, Hash)]
pub struct SysEnterIp(La);

impl View for SysEnterIp {
    type V = u64;

    closed spec fn view(&self) -> u64 {
        self.0@
    }
}

impl SysEnterIp {
    /// Constructs the checked value from a linear address.
    pub fn new(address: La) -> (r: Self)
        ensures
            r@ == address@,
    {
        Self(address)
    }

    /// Lifts a raw image when it is canonical under `M`.
    pub fn lift<M: LaMode>(target_value: RawSysEnterIp) -> (r: Option<Self>)
        ensures
            r is Some <==> canonical(M::spec_width(), target_value@),
            r matches Some(c) ==> c@ == target_value@,
    {
        match La::new::<M>(target_value.raw()) {
            Some(address) => Some(Self(address)),
            None => None,
        }
    }

    /// Returns the canonical linear address.
    pub fn la(self) -> (r: La)
        ensures
            r@ == self@,
    {
        self.0
    }

    /// Lowers this checked value into the exact register image.
    pub fn raw(self) -> (r: RawSysEnterIp)
        ensures
            r@ == self@,
    {
        RawSysEnterIp::new(self.0.bits())
    }
}

/// Every register of the `SYSENTER` family lowers to its own stored word:
/// the image that `wrmsr` loads and that `RawMsr::take` erases a value to is
/// the value's 64-bit view, bit for bit.
pub proof fn lemma_sysenter_images_are_stored_words(v0: RawSysEnterCs, v1: RawSysEnterSp, v2: RawSysEnterIp)
    ensures
        v0.image() == v0@,
        v1.image() == v1@,
        v2.image() == v2@,
{
}

} // verus!
