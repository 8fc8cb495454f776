//! Fast system-call and system-return MSR representations.
//!
//! Raw types keep architectural register images. Checked types encode the
//! selector and linear-address relationships long-mode SYSCALL and SYSRET
//! rely on.

use vstd::prelude::*;

use crate::arch::x86::msr::{Cpl0Access, Msr, ReadWrite};
use crate::arch::x86::privilege::PrivilegeLevel;
use crate::arch::x86::segmentation::{
    CodeSegment, DataSegment, RawSegmentSelector, TableIndicator, selector_image,
};
use crate::arch::x86_64::paging::address::{La, LaMode, canonical};
use crate::bits::{
    field_of, get_field_u16, lemma_get_set_other, lemma_get_set_same, lemma_low_mask_values,
    lemma_mask_fitting, lemma_zero_image, set_field, with_field,
};

verus! {

/// Exact IA32_LSTAR register image; every `u64` is representable.
#[derive(Debug, Clone, Copy, PartialEq, Eq, PartialOrd, Ord, Hash)]
pub struct RawLStar(u64);

impl View for RawLStar {
    type V = u64;

    closed spec fn view(&self) -> u64 {
        self.0
    }
}

impl RawLStar {
    /// Constructs a raw IA32_LSTAR image.
    pub fn new(target_value: u64) -> (r: Self)
        ensures
            r@ == target_value,
    {
        Self(target_value)
    }

    /// Returns the raw IA32_LSTAR image.
    pub fn raw(self) -> (r: u64)
        ensures
            r == self@,
    {
        self.0
    }
}

impl Msr for RawLStar {
    type Access = ReadWrite;

    type Authority = Cpl0Access;

    open spec fn spec_address() -> u32 {
        0xc0000082
    }

    fn address() -> (r: u32) {
        0xc0000082
    }

    open spec fn image(self) -> u64 {
        self@
    }

    fn from_raw(value: u64) -> (r: Self)
        ensures
            r@ == value,
    {
        Self::new(value)
    }

    fn into_raw(self) -> (r: u64)
        ensures
            r == self@,
    {
        self.raw()
    }
}

/// Canonical long-mode system-call target.
#[derive(Debug, Clone, Copy, PartialEq, Eq, PartialOrd, Ord, Hash)]
pub struct LStar(La);

impl View for LStar {
    type V = u64;

    closed spec fn view(&self) -> u64 {
        self.0@
    }
}

impl LStar {
    /// Constructs the checked value from a linear address.
    pub fn new(address: La) -> (r: Self)
        ensures
            r@ == address@,
    {
        Self(address)
    }

    /// Lifts a raw image when it is canonical under `M`.
    pub fn lift<M: LaMode>(target_value: RawLStar) -> (r: Option<Self>)
        ensures
            r is Some <==> canonical(M::spec_width(), target_value@),
            r matches Some(c) ==> c@ == target_value@,
    {
        match La::new::<M>(target_value.raw()) {
            Some(address) => Some(Self(address)),
            None => None,
        }
    }

    /// Returns the canonical linear address.
    pub fn la(self) -> (r: La)
        ensures
            r@ == self@,
    {
        self.0
    }

    /// Lowers this checked value into the exact register image.
    pub fn raw(self) -> (r: RawLStar)
        ensures
            r@ == self@,
    {
        RawLStar::new(self.0.bits())
    }
}

/// Exact IA32_CSTAR register image; every `u64` is representable.
#[derive(Debug, Clone, Copy, PartialEq, Eq, PartialOrd, Ord, Hash)]
pub struct RawCStar(u64);

impl View for RawCStar {
    type V = u64;

    closed spec fn view(&self) -> u64 {
        self.0
    }
}

impl RawCStar {
    /// Constructs a raw IA32_CSTAR image.
    pub fn new(target_value: u64) -> (r: Self)
        ensures
            r@ == target_value,
    {
        Self(target_value)
    }

    /// Returns the raw IA32_CSTAR image.
    pub fn raw(self) -> (r: u64)
        ensures
            r == self@,
    {
        self.0
    }
}

impl Msr for RawCStar {
    type Access = ReadWrite;

    type Authority = Cpl0Access;

    open spec fn spec_address() -> u32 {
        0xc0000083
    }

    fn address() -> (r: u32) {
        0xc0000083
    }

    open spec fn image(self) -> u64 {
        self@
    }

    fn from_raw(value: u64) -> (r: Self)
        ensures
            r@ == value,
    {
        Self::new(value)
    }

    fn into_raw(self) -> (r: u64)
        ensures
            r == self@,
    {
        self.raw()
    }
}

/// Canonical compatibility-mode system-call target.
#[derive(Debug, Clone, Copy, PartialEq, Eq, PartialOrd, Ord, Hash)]
pub struct CStar(La);

impl View for CStar {
    type V = u64;

    closed spec fn view(&self) -> u64 {
        self.0@
    }
}

impl CStar {
    /// Constructs the checked value from a linear address.
    pub fn new(address: La) -> (r: Self)
        ensures
            r@ == address@,
    {
        Self(address)
    }

    /// Lifts a raw image when it is canonical under `M`.
    pub fn lift<M: LaMode>(target_value: RawCStar) -> (r: Option<Self>)
        ensures
            r is Some <==> canonical(M::spec_width(), target_value@),
            r matches Some(c) ==> c@ == target_value@,
    {
        match La::new::<M>(target_value.raw()) {
            Some(address) => Some(Self(address)),
            None => None,
        }
    }

    /// Returns the canonical linear address.
    pub fn la(self) -> (r: La)
        ensures
            r@ == self@,
    {
        self.0
    }

    /// Lowers this checked value into the exact register image.
    pub fn raw(self) -> (r: RawCStar)
        ensures
            r@ == self@,
    {
        RawCStar::new(self.0.bits())
    }
}

/// Exact IA32_STAR register image; every `u64` is representable.
#[derive(Debug, Clone, Copy, PartialEq, Eq, PartialOrd, Ord, Hash)]
pub struct RawStar(u64);

impl View for RawStar {
    type V = u64;

    closed spec fn view(&self) -> u64 {
        self.0
    }
}

impl RawStar {
    /// Constructs a raw IA32_STAR image.
    pub fn new(target_value: u64) -> (r: Self)
        ensures
            r@ == target_value,
    {
        Self(target_value)
    }

    /// Returns the raw IA32_STAR image.
    pub fn raw(self) -> (r: u64)
        ensures
            r == self@,
    {
        self.0
    }

    /// Reads the kernel code-selector field (bits 47..32).
    pub fn kernel(&self) -> (r: u16)
        ensures
            r == field_of(self@, 32, 16),
    {
        get_field_u16(self.0, 32, 16)
    }

    /// Writes the kernel code-selector field (bits 47..32).
    pub fn kernel_mut(&mut self, value: u16)
        ensures
            final(self)@ == with_field(old(self)@, 32, 16, (value as u64)),
    {
        self.0 = set_field(self.0, 32, 16, (value as u64));
    }

    /// Reads the user selector-base field (bits 63..48).
    pub fn user(&self) -> (r: u16)
        ensures
            r == field_of(self@, 48, 16),
    {
        get_field_u16(self.0, 48, 16)
    }

    /// Writes the user selector-base field (bits 63..48).
    pub fn user_mut(&mut self, value: u16)
        ensures
            final(self)@ == with_field(old(self)@, 48, 16, (value as u64)),
    {
        self.0 = set_field(self.0, 48, 16, (value as u64));
    }
}

impl Msr for RawStar {
    type Access = ReadWrite;

    type Authority = Cpl0Access;

    open spec fn spec_address() -> u32 {
        0xc0000081
    }

    fn address() -> (r: u32) {
        0xc0000081
    }

    open spec fn image(self) -> u64 {
        self@
    }

    fn from_raw(value: u64) -> (r: Self)
        ensures
            r@ == value,
    {
        Self::new(value)
    }

    fn into_raw(self) -> (r: u64)
        ensures
            r == self@,
    {
        self.raw()
    }
}

/// Whether a code and a data segment form the ring-zero GDT pair that
/// long-mode SYSCALL loads: the data descriptor immediately follows the code
/// descriptor.
pub open spec fn syscall_pair(
    code: (u16, TableIndicator, PrivilegeLevel),
    data: (u16, TableIndicator, PrivilegeLevel),
) -> bool {
    &&& code.1 == TableIndicator::Gdt
    &&& data.1 == TableIndicator::Gdt
    &&& code.2 == PrivilegeLevel::Ring0
    &&& data.2 == PrivilegeLevel::Ring0
    &&& data.0 == code.0 + 1
}

/// Whether a data and a code segment form the ring-three GDT pair that
/// long-mode SYSRET loads: the code descriptor immediately follows the data
/// descriptor.
pub open spec fn sysret_pair(
    data: (u16, TableIndicator, PrivilegeLevel),
    code: (u16, TableIndicator, PrivilegeLevel),
) -> bool {
    &&& data.1 == TableIndicator::Gdt
    &&& code.1 == TableIndicator::Gdt
    &&& data.2 == PrivilegeLevel::Ring3
    &&& code.2 == PrivilegeLevel::Ring3
    &&& code.0 == data.0 + 1
}

/// The adjacent ring-zero GDT segments supplied for long-mode SYSCALL.
///
/// This checks the supplied descriptor values only; it does not prove that
/// they are installed in the live GDT.
#[derive(Debug, Clone, Copy, PartialEq, Eq, PartialOrd, Ord, Hash)]
pub struct SyscallSegments(u16);

impl View for SyscallSegments {
    type V = u16;

    closed spec fn view(&self) -> u16 {
        self.0
    }
}

impl SyscallSegments {
    /// Checks the selector relationship required by long-mode SYSCALL and
    /// keeps the kernel code selector.
    pub fn new(code: CodeSegment, data: DataSegment) -> (r: Option<Self>)
        ensures
            r is Some <==> syscall_pair(code@, data@),
            r matches Some(s) ==> s@ == selector_image(code@.0, code@.1, code@.2),
    {
        let tables_valid = matches!(code.table(), TableIndicator::Gdt) && matches!(
            data.table(),
            TableIndicator::Gdt
        );
        let privileges_valid = matches!(code.privilege(), PrivilegeLevel::Ring0) && matches!(
            data.privilege(),
            PrivilegeLevel::Ring0
        );
        let adjacent = matches!(data.index().raw().checked_sub(code.index().raw()), Some(1));
        if tables_valid && privileges_valid && adjacent {
            Some(Self(code.raw().raw()))
        } else {
            None
        }
    }

    /// Returns the encoded kernel code selector.
    pub fn raw(self) -> (r: RawSegmentSelector)
        ensures
            r@ == self@,
    {
        RawSegmentSelector::new(self.0)
    }
}

/// The adjacent ring-three GDT segments supplied for long-mode SYSRET.
///
/// The stored selector base is one entry before the data segment, with
/// table indicator and requested privilege level zero: SYSRET supplies ring
/// three itself while deriving SS and CS from this base. The descriptors are
/// not proven to be installed in the live GDT.
#[derive(Debug, Clone, Copy, PartialEq, Eq, PartialOrd, Ord, Hash)]
pub struct SysretSegments(u16);

impl View for SysretSegments {
    type V = u16;

    closed spec fn view(&self) -> u16 {
        self.0
    }
}

impl SysretSegments {
    /// Checks the selector relationship required by long-mode SYSRET and
    /// keeps the selector base one entry below the data segment.
    pub fn new(data: DataSegment, code: CodeSegment) -> (r: Option<Self>)
        ensures
            r is Some <==> sysret_pair(data@, code@),
            r matches Some(s) ==> s@ == with_field(0, 3, 13, (data@.0 - 1) as u64),
    {
        let tables_valid = matches!(data.table(), TableIndicator::Gdt) && matches!(
            code.table(),
            TableIndicator::Gdt
        );
        let privileges_valid = matches!(data.privilege(), PrivilegeLevel::Ring3) && matches!(
            code.privilege(),
            PrivilegeLevel::Ring3
        );
        let adjacent = matches!(code.index().raw().checked_sub(data.index().raw()), Some(1));
        let base = data.index().raw().checked_sub(1);
        match base {
            Some(base) => {
                if tables_valid && privileges_valid && adjacent {
                    let mut selector = RawSegmentSelector::zeroed();
                    selector.index_mut(base);
                    Some(Self(selector.raw()))
                } else {
                    None
                }
            },
            None => None,
        }
    }

    /// Returns the encoded SYSRET selector base.
    pub fn raw(self) -> (r: RawSegmentSelector)
        ensures
            r@ == self@,
    {
        RawSegmentSelector::new(self.0)
    }
}

/// A checked long-mode IA32_STAR selector configuration, built from the
/// SYSCALL and SYSRET selector families.
#[derive(Debug, Clone, Copy, PartialEq, Eq, PartialOrd, Ord, Hash)]
pub struct Star(RawStar);

impl View for Star {
    type V = u64;

    closed spec fn view(&self) -> u64 {
        self.0@
    }
}

impl Star {
    /// Constructs STAR from checked SYSCALL and SYSRET selector families:
    /// the kernel selector in bits 47..32, the user base in bits 63..48 and
    /// nothing else.
    pub fn new(kernel: SyscallSegments, user: SysretSegments) -> (r: Self)
        ensures
            field_of(r@, 32, 16) == kernel@,
            field_of(r@, 48, 16) == user@,
            field_of(r@, 0, 32) == 0,
    {
        let kernel = kernel.raw().raw();
        let user = user.raw().raw();
        let mut target_value = RawStar::new(0);
        target_value.kernel_mut(kernel);
        let ghost v1 = target_value@;
        target_value.user_mut(user);
        proof {
            lemma_low_mask_values();
            lemma_mask_fitting(kernel as u64, 16);
            lemma_mask_fitting(user as u64, 16);
            lemma_zero_image(0, 32, 0);
            lemma_get_set_same(0, 32, 16, kernel as u64);
            lemma_get_set_other(0, 32, 16, kernel as u64, 0, 32);
            lemma_get_set_same(v1, 48, 16, user as u64);
            lemma_get_set_other(v1, 48, 16, user as u64, 32, 16);
            lemma_get_set_other(v1, 48, 16, user as u64, 0, 32);
        }
        Self(target_value)
    }

    /// Reads the kernel selector field.
    pub fn kernel(&self) -> (r: u16)
        ensures
            r == field_of(self@, 32, 16),
    {
        self.0.kernel()
    }

    /// Reads the user selector-base field.
    pub fn user(&self) -> (r: u16)
        ensures
            r == field_of(self@, 48, 16),
    {
        self.0.user()
    }

    /// Lowers this configuration into the exact STAR image.
    pub fn raw(self) -> (r: RawStar)
        ensures
            r@ == self@,
    {
        self.0
    }
}

/// Exact IA32_FMASK register image.
///
/// Its bit positions are RFLAGS positions, but a mask is not an RFLAGS
/// machine state. Every `u64` is representable.
#[derive(Debug, Clone, Copy, PartialEq, Eq, PartialOrd, Ord, Hash)]
pub struct RawFMask(u64);

impl View for RawFMask {
    type V = u64;

    closed spec fn view(&self) -> u64 {
        self.0
    }
}

impl RawFMask {
    /// Constructs a raw FMASK image.
    pub fn new(target_value: u64) -> (r: Self)
        ensures
            r@ == target_value,
    {
        Self(target_value)
    }

    /// Returns the raw FMASK image.
    pub fn raw(self) -> (r: u64)
        ensures
            r == self@,
    {
        self.0
    }
}

impl Msr for RawFMask {
    type Access = ReadWrite;

    type Authority = Cpl0Access;

    open spec fn spec_address() -> u32 {
        0xc0000084
    }

    fn address() -> (r: u32) {
        0xc0000084
    }

    open spec fn image(self) -> u64 {
        self@
    }

    fn from_raw(value: u64) -> (r: Self)
        ensures
            r@ == value,
    {
        Self::new(value)
    }

    fn into_raw(self) -> (r: u64)
        ensures
            r == self@,
    {
        self.raw()
    }
}

/// Every register of the system-call family lowers to its own stored word:
/// the image that `wrmsr` loads and that `RawMsr::take` erases a value to is
/// the value's 64-bit view, bit for bit.
pub proof fn lemma_syscall_images_are_stored_words(v0: RawLStar, v1: RawCStar, v2: RawStar, v3: RawFMask)
    ensures
        v0.image() == v0@,
        v1.image() == v1@,
        v2.image() == v2@,
        v3.image() == v3@,
{
}

} // verus!
