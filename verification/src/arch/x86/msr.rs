//! x86 model-specific register identities and architectural value families.
//!
//! Each register family owns its value representations in a submodule. The
//! [`Msr`] trait ties a representation to its architectural index and to its
//! exact 64-bit image; executing `rdmsr` and `wrmsr` is left to the owner of
//! processor state.

use vstd::prelude::*;

use crate::sealed::{AccessSealed, AuthoritySealed};

pub mod efer;

pub mod syscall;

pub mod sysenter;

pub mod segment;

pub mod xstate;

pub mod fred;

verus! {

/// An architectural access mode of a model-specific register.
pub trait Access: AccessSealed {}

/// An access mode that permits reads.
pub trait Readable: Access {}

/// An access mode that permits writes.
pub trait Writable: Access {}

/// The family of proofs required before accessing a register.
pub trait Authority: AuthoritySealed {}

/// Read-only MSR access.
pub struct ReadOnly;

/// Read-write MSR access.
pub struct ReadWrite;

/// Write-only MSR access.
pub struct WriteOnly;

/// An architecturally described MSR without direct access through this
/// interface.
pub struct Unaccessible;

impl AccessSealed for ReadOnly {}

impl AccessSealed for ReadWrite {}

impl AccessSealed for WriteOnly {}

impl AccessSealed for Unaccessible {}

impl Access for ReadOnly {}

impl Access for ReadWrite {}

impl Access for WriteOnly {}

impl Access for Unaccessible {}

impl Readable for ReadOnly {}

impl Readable for ReadWrite {}

impl Writable for ReadWrite {}

impl Writable for WriteOnly {}

/// Ring-zero proof required by MSRs available without another feature.
pub struct Cpl0Access;

/// Ring-zero and XFD proofs required by the XFD register family.
pub struct XfdAccess;

/// Ring-zero and supervisor-XSAVE proofs required by IA32_XSS.
pub struct XssAccess;

/// Ring-zero and FRED proofs required by the FRED register family.
pub struct FredAccess;

/// Authority for registers whose full capability proof is not modeled.
pub struct UnavailableAccess;

impl AuthoritySealed for Cpl0Access {}

impl AuthoritySealed for XfdAccess {}

impl AuthoritySealed for XssAccess {}

impl AuthoritySealed for FredAccess {}

impl AuthoritySealed for UnavailableAccess {}

impl Authority for Cpl0Access {}

impl Authority for XfdAccess {}

impl Authority for XssAccess {}

impl Authority for FredAccess {}

impl Authority for UnavailableAccess {}

/// An exact model-specific register image with a statically known index.
///
/// Every `u64` bit pattern is a valid value of an implementing type: the
/// image converts both ways without loss.
pub trait Msr: Sized + Copy {
    /// Architectural access mode of this MSR.
    type Access: Access;

    /// Proof family required before accessing this register.
    type Authority: Authority;

    /// Whether accesses are fenced against speculative execution.
    const FENCE: bool = false;

    /// Architectural MSR index loaded into `ECX` by `rdmsr` or `wrmsr`.
    spec fn spec_address() -> u32;

    /// The exact 64-bit image of a value.
    spec fn image(self) -> u64;

    /// Returns the architectural MSR index.
    fn address() -> (r: u32)
        ensures
            r == Self::spec_address(),
    ;

    /// Reconstructs a value from its exact image.
    fn from_raw(value: u64) -> (r: Self)
        ensures
            r.image() == value,
    ;

    /// Returns the exact image of a value.
    fn into_raw(self) -> (r: u64)
        ensures
            r == self.image(),
    ;
}

/// Erased 64-bit model-specific register image without register identity.
#[derive(Debug, Clone, Copy, PartialEq, Eq, PartialOrd, Ord, Hash)]
pub struct RawMsr(pub u64);

impl View for RawMsr {
    type V = u64;

    open spec fn view(&self) -> u64 {
        self.0
    }
}

impl RawMsr {
    /// Constructs an erased register image.
    pub fn new(target_value: u64) -> (r: Self)
        ensures
            r@ == target_value,
    {
        Self(target_value)
    }

    /// Erases a typed MSR into its raw 64-bit representation.
    pub fn take<R: Msr>(target_value: R) -> (r: Self)
        ensures
            r@ == target_value.image(),
    {
        Self(target_value.into_raw())
    }

    /// Returns the erased register image.
    pub fn raw(self) -> (r: u64)
        ensures
            r == self@,
    {
        self.0
    }
}

/// The 64-bit image `rdmsr` returns as its `EDX:EAX` halves.
pub open spec fn image_of_halves(low: u32, high: u32) -> u64 {
    (high * 0x1_0000_0000 + low) as u64
}

/// Composes the 64-bit image of a register from the `EAX` (low) and `EDX`
/// (high) halves that `rdmsr` returns.
pub fn image_from_halves(low: u32, high: u32) -> (r: u64)
    ensures
        r == image_of_halves(low, high),
        r == high * 0x1_0000_0000 + low,
{
    let h = high as u64;
    let l = low as u64;
    assert((h << 32u64) | l == h * 0x1_0000_0000 + l) by (bit_vector)
        requires
            h < 0x1_0000_0000,
            l < 0x1_0000_0000,
    ;
    (h << 32u64) | l
}

/// Splits a 64-bit image into the `EAX` (low) and `EDX` (high) halves that
/// `wrmsr` takes.
pub fn halves_of_image(value: u64) -> (r: (u32, u32))
    ensures
        r.0 == value % 0x1_0000_0000,
        r.1 == value / 0x1_0000_0000,
        image_of_halves(r.0, r.1) == value,
{
    assert((value & 0xffff_ffff) == value % 0x1_0000_0000 && (value >> 32u64) == value
        / 0x1_0000_0000) by (bit_vector);
    ((value & 0xffff_ffff) as u32, (value >> 32u64) as u32)
}

/// Splitting an image and composing the halves gives the image back, and
/// composing halves and splitting gives the halves back.
pub proof fn lemma_halves_round_trip(value: u64, low: u32, high: u32)
    ensures
        image_of_halves((value % 0x1_0000_0000) as u32, (value / 0x1_0000_0000) as u32) == value,
        image_of_halves(low, high) % 0x1_0000_0000 == low,
        image_of_halves(low, high) / 0x1_0000_0000 == high,
{
}

} // verus!
