//! Extended-state MSR representations.
//!
//! [`XstateComponents`] owns the bitmap shared by the XSTATE controls; the raw
//! MSR types keep register identity, and [`RawXss`] names the
//! supervisor-state components.

use vstd::prelude::*;

use crate::arch::x86::msr::{Msr, ReadWrite, XfdAccess, XssAccess};
use crate::arch::x86::xstate::XstateComponents;
use crate::bits::{State, bit_of, with_bit};

verus! {

/// Exact IA32_XFD register image over the shared component bitmap.
#[derive(Debug, Clone, Copy, PartialEq, Eq, PartialOrd, Ord, Hash)]
pub struct RawXfd(XstateComponents);

impl View for RawXfd {
    type V = u64;

    closed spec fn view(&self) -> u64 {
        self.0@
    }
}

impl RawXfd {
    /// The image with no component selected.
    #[allow(non_snake_case)]
    pub fn EMPTY() -> (r: Self)
        ensures
            r@ == 0,
    {
        Self(XstateComponents::EMPTY())
    }

    /// Constructs a raw IA32_XFD image, keeping every bit.
    pub fn new(target_value: u64) -> (r: Self)
        ensures
            r@ == target_value,
    {
        Self(XstateComponents::new(target_value))
    }

    /// Returns the raw IA32_XFD image.
    pub fn raw(self) -> (r: u64)
        ensures
            r == self@,
    {
        self.0.raw()
    }

    /// Borrows the shared component bitmap.
    pub fn components(&self) -> (r: &XstateComponents)
        ensures
            r@ == self@,
    {
        &self.0
    }

    /// Mutably borrows the shared component bitmap.
    pub fn components_mut(&mut self) -> (r: &mut XstateComponents)
        ensures
            r@ == old(self)@,
            final(self)@ == final(r)@,
    {
        &mut self.0
    }
}

impl Msr for RawXfd {
    type Access = ReadWrite;

    type Authority = XfdAccess;

    open spec fn spec_address() -> u32 {
        0x1c4
    }

    fn address() -> (r: u32) {
        0x1c4
    }

    open spec fn image(self) -> u64 {
        self@
    }

    fn from_raw(value: u64) -> (r: Self)
        ensures
            r@ == value,
    {
        Self::new(value)
    }

    fn into_raw(self) -> (r: u64)
        ensures
            r == self@,
    {
        self.raw()
    }
}

/// Exact IA32_XFD_ERR register image over the shared component bitmap.
#[derive(Debug, Clone, Copy, PartialEq, Eq, PartialOrd, Ord, Hash)]
pub struct RawXfdErr(XstateComponents);

impl View for RawXfdErr {
    type V = u64;

    closed spec fn view(&self) -> u64 {
        self.0@
    }
}

impl RawXfdErr {
    /// The image with no component selected.
    #[allow(non_snake_case)]
    pub fn EMPTY() -> (r: Self)
        ensures
            r@ == 0,
    {
        Self(XstateComponents::EMPTY())
    }

    /// Constructs a raw IA32_XFD_ERR image, keeping every bit.
    pub fn new(target_value: u64) -> (r: Self)
        ensures
            r@ == target_value,
    {
        Self(XstateComponents::new(target_value))
    }

    /// Returns the raw IA32_XFD_ERR image.
    pub fn raw(self) -> (r: u64)
        ensures
            r == self@,
    {
        self.0.raw()
    }

    /// Borrows the shared component bitmap.
    pub fn components(&self) -> (r: &XstateComponents)
        ensures
            r@ == self@,
    {
        &self.0
    }

    /// Mutably borrows the shared component bitmap.
    pub fn components_mut(&mut self) -> (r: &mut XstateComponents)
        ensures
            r@ == old(self)@,
            final(self)@ == final(r)@,
    {
        &mut self.0
    }
}

impl Msr for RawXfdErr {
    type Access = ReadWrite;

    type Authority = XfdAccess;

    open spec fn spec_address() -> u32 {
        0x1c5
    }

    fn address() -> (r: u32) {
        0x1c5
    }

    open spec fn image(self) -> u64 {
        self@
    }

    fn from_raw(value: u64) -> (r: Self)
        ensures
            r@ == value,
    {
        Self::new(value)
    }

    fn into_raw(self) -> (r: u64)
        ensures
            r == self@,
    {
        self.raw()
    }
}

/// Exact IA32_XSS register image over the shared component bitmap.
///
/// The named views never discard unknown component bits.
#[derive(Debug, Clone, Copy, PartialEq, Eq, PartialOrd, Ord, Hash)]
pub struct RawXss(XstateComponents);

impl View for RawXss {
    type V = u64;

    closed spec fn view(&self) -> u64 {
        self.0@
    }
}

impl RawXss {
    /// The image with no component selected.
    #[allow(non_snake_case)]
    pub fn EMPTY() -> (r: Self)
        ensures
            r@ == 0,
    {
        Self(XstateComponents::EMPTY())
    }

    /// Constructs a raw IA32_XSS image, keeping every bit.
    pub fn new(target_value: u64) -> (r: Self)
        ensures
            r@ == target_value,
    {
        Self(XstateComponents::new(target_value))
    }

    /// Returns the raw IA32_XSS image.
    pub fn raw(self) -> (r: u64)
        ensures
            r == self@,
    {
        self.0.raw()
    }

    /// Borrows the shared component bitmap.
    pub fn components(&self) -> (r: &XstateComponents)
        ensures
            r@ == self@,
    {
        &self.0
    }

    /// Mutably borrows the shared component bitmap.
    pub fn components_mut(&mut self) -> (r: &mut XstateComponents)
        ensures
            r@ == old(self)@,
            final(self)@ == final(r)@,
    {
        &mut self.0
    }

    /// Reads the processor-trace component (bit 8).
    pub fn pt(&self) -> (r: State)
        ensures
            r == State::of(bit_of(self@, 8)),
    {
        self.0.component::<8>()
    }

    /// Sets or clears the processor-trace component (bit 8).
    pub fn pt_mut(&mut self, state: State)
        ensures
            final(self)@ == with_bit(old(self)@, 8, state.is_set()),
    {
        self.0.component_mut::<8>(state);
    }

    /// Reads the PASID component (bit 10).
    pub fn pasid(&self) -> (r: State)
        ensures
            r == State::of(bit_of(self@, 10)),
    {
        self.0.component::<10>()
    }

    /// Sets or clears the PASID component (bit 10).
    pub fn pasid_mut(&mut self, state: State)
        ensures
            final(self)@ == with_bit(old(self)@, 10, state.is_set()),
    {
        self.0.component_mut::<10>(state);
    }

    /// Reads the user CET component (bit 11).
    pub fn cet_user(&self) -> (r: State)
        ensures
            r == State::of(bit_of(self@, 11)),
    {
        self.0.component::<11>()
    }

    /// Sets or clears the user CET component (bit 11).
    pub fn cet_user_mut(&mut self, state: State)
        ensures
            final(self)@ == with_bit(old(self)@, 11, state.is_set()),
    {
        self.0.component_mut::<11>(state);
    }

    /// Reads the supervisor CET component (bit 12).
    pub fn cet_supervisor(&self) -> (r: State)
        ensures
            r == State::of(bit_of(self@, 12)),
    {
        self.0.component::<12>()
    }

    /// Sets or clears the supervisor CET component (bit 12).
    pub fn cet_supervisor_mut(&mut self, state: State)
        ensures
            final(self)@ == with_bit(old(self)@, 12, state.is_set()),
    {
        self.0.component_mut::<12>(state);
    }

    /// Reads the hardware duty cycling component (bit 13).
    pub fn hdc(&self) -> (r: State)
        ensures
            r == State::of(bit_of(self@, 13)),
    {
        self.0.component::<13>()
    }

    /// Sets or clears the hardware duty cycling component (bit 13).
    pub fn hdc_mut(&mut self, state: State)
        ensures
            final(self)@ == with_bit(old(self)@, 13, state.is_set()),
    {
        self.0.component_mut::<13>(state);
    }

    /// Reads the user-interrupt component (bit 14).
    pub fn uintr(&self) -> (r: State)
        ensures
            r == State::of(bit_of(self@, 14)),
    {
        self.0.component::<14>()
    }

    /// Sets or clears the user-interrupt component (bit 14).
    pub fn uintr_mut(&mut self, state: State)
        ensures
            final(self)@ == with_bit(old(self)@, 14, state.is_set()),
    {
        self.0.component_mut::<14>(state);
    }

    /// Reads the last branch record component (bit 15).
    pub fn lbr(&self) -> (r: State)
        ensures
            r == State::of(bit_of(self@, 15)),
    {
        self.0.component::<15>()
    }

    /// Sets or clears the last branch record component (bit 15).
    pub fn lbr_mut(&mut self, state: State)
        ensures
            final(self)@ == with_bit(old(self)@, 15, state.is_set()),
    {
        self.0.component_mut::<15>(state);
    }

    /// Reads the hardware P-state component (bit 16).
    pub fn hwp(&self) -> (r: State)
        ensures
            r == State::of(bit_of(self@, 16)),
    {
        self.0.component::<16>()
    }

    /// Sets or clears the hardware P-state component (bit 16).
    pub fn hwp_mut(&mut self, state: State)
        ensures
            final(self)@ == with_bit(old(self)@, 16, state.is_set()),
    {
        self.0.component_mut::<16>(state);
    }
}

impl Msr for RawXss {
    type Access = ReadWrite;

    type Authority = XssAccess;

    open spec fn spec_address() -> u32 {
        0xda0
    }

    fn address() -> (r: u32) {
        0xda0
    }

    open spec fn image(self) -> u64 {
        self@
    }

    fn from_raw(value: u64) -> (r: Self)
        ensures
            r@ == value,
    {
        Self::new(value)
    }

    fn into_raw(self) -> (r: u64)
        ensures
            r == self@,
    {
        self.raw()
    }
}

/// Every register of the extended-state family lowers to its own stored word:
/// the image that `wrmsr` loads and that `RawMsr::take` erases a value to is
/// the value's 64-bit view, bit for bit.
pub proof fn lemma_xstate_images_are_stored_words(v0: RawXfd, v1: RawXfdErr, v2: RawXss)
    ensures
        v0.image() == v0@,
        v1.image() == v1@,
        v2.image() == v2@,
{
}

} // verus!
