//! Extended feature enable register representations.
//!
//! [`RawEfer`] owns the architectural image, [`Efer`] exposes mutation of the
//! software-controlled fields, and [`LongModeEfer`] carries the stronger
//! active-long-mode evidence needed by saved control state.

use vstd::prelude::*;

use crate::arch::x86::msr::{Cpl0Access, Msr, ReadWrite};
use crate::bits::{
    State, bit_of, get_bit, lemma_bit_set_other, lemma_bit_set_same, set_bit, with_bit,
};

verus! {

/// Exact IA32_EFER register image; every `u64` is representable.
#[derive(Debug, Clone, Copy, PartialEq, Eq, PartialOrd, Ord, Hash)]
pub struct RawEfer(u64);

impl View for RawEfer {
    type V = u64;

    closed spec fn view(&self) -> u64 {
        self.0
    }
}

impl RawEfer {
    /// Constructs a raw IA32_EFER image.
    pub fn new(target_value: u64) -> (r: Self)
        ensures
            r@ == target_value,
    {
        Self(target_value)
    }

    /// Returns the raw IA32_EFER image.
    pub fn raw(self) -> (r: u64)
        ensures
            r == self@,
    {
        self.0
    }
    /// The architectural reset image used by this model.
    #[allow(non_snake_case)]
    pub fn RESET() -> (r: Self)
        ensures
            r@ == 0,
    {
        Self(0)
    }

    /// Reads the System Call Extensions enable flag.
    pub fn sce(&self) -> (r: State)
        ensures
            r == State::of(bit_of(self@, 0)),
    {
        get_bit(self.0, 0)
    }

    /// Sets or clears the System Call Extensions enable flag.
    pub fn sce_mut(&mut self, state: State)
        ensures
            final(self)@ == with_bit(old(self)@, 0, state.is_set()),
    {
        self.0 = set_bit(self.0, 0, state);
    }

    /// Reads the Long Mode Enable flag.
    pub fn lme(&self) -> (r: State)
        ensures
            r == State::of(bit_of(self@, 8)),
    {
        get_bit(self.0, 8)
    }

    /// Sets or clears the Long Mode Enable flag.
    pub fn lme_mut(&mut self, state: State)
        ensures
            final(self)@ == with_bit(old(self)@, 8, state.is_set()),
    {
        self.0 = set_bit(self.0, 8, state);
    }

    /// Reads the processor-maintained Long Mode Active flag.
    pub fn lma(&self) -> (r: State)
        ensures
            r == State::of(bit_of(self@, 10)),
    {
        get_bit(self.0, 10)
    }

    /// Sets or clears the processor-maintained Long Mode Active flag.
    ///
    /// Raw mutation does not claim that the result is writable to live
    /// hardware.
    pub fn lma_mut(&mut self, state: State)
        ensures
            final(self)@ == with_bit(old(self)@, 10, state.is_set()),
    {
        self.0 = set_bit(self.0, 10, state);
    }

    /// Reads the No-Execute Enable flag.
    pub fn nxe(&self) -> (r: State)
        ensures
            r == State::of(bit_of(self@, 11)),
    {
        get_bit(self.0, 11)
    }

    /// Sets or clears the No-Execute Enable flag.
    pub fn nxe_mut(&mut self, state: State)
        ensures
            final(self)@ == with_bit(old(self)@, 11, state.is_set()),
    {
        self.0 = set_bit(self.0, 11, state);
    }
}

impl Msr for RawEfer {
    type Access = ReadWrite;

    type Authority = Cpl0Access;

    open spec fn spec_address() -> u32 {
        0xc0000080
    }

    fn address() -> (r: u32) {
        0xc0000080
    }

    open spec fn image(self) -> u64 {
        self@
    }

    fn from_raw(value: u64) -> (r: Self)
        ensures
            r@ == value,
    {
        Self::new(value)
    }

    fn into_raw(self) -> (r: u64)
        ensures
            r == self@,
    {
        self.raw()
    }
}

/// A software-controlled EFER value.
///
/// The image keeps every hardware-provided bit; the mutation interface leaves
/// the processor-maintained LMA flag alone.
#[derive(Debug, Clone, Copy, PartialEq, Eq, PartialOrd, Ord, Hash)]
pub struct Efer(RawEfer);

impl View for Efer {
    type V = u64;

    closed spec fn view(&self) -> u64 {
        self.0@
    }
}

impl Efer {
    /// The architectural reset value used by this model.
    #[allow(non_snake_case)]
    pub fn RESET() -> (r: Self)
        ensures
            r@ == 0,
    {
        Self(RawEfer::RESET())
    }

    /// Lifts a raw EFER image.
    pub fn lift(target_value: RawEfer) -> (r: Self)
        ensures
            r@ == target_value@,
    {
        Self(target_value)
    }

    /// Lowers this value into the exact EFER image.
    pub fn raw(self) -> (r: RawEfer)
        ensures
            r@ == self@,
    {
        self.0
    }

    /// Reads the System Call Extensions enable flag.
    pub fn sce(&self) -> (r: State)
        ensures
            r == State::of(bit_of(self@, 0)),
    {
        self.0.sce()
    }

    /// Sets or clears the System Call Extensions enable flag.
    pub fn sce_mut(&mut self, state: State)
        ensures
            final(self)@ == with_bit(old(self)@, 0, state.is_set()),
    {
        self.0.sce_mut(state);
    }

    /// Reads the Long Mode Enable flag.
    pub fn lme(&self) -> (r: State)
        ensures
            r == State::of(bit_of(self@, 8)),
    {
        self.0.lme()
    }

    /// Sets or clears the Long Mode Enable flag.
    pub fn lme_mut(&mut self, state: State)
        ensures
            final(self)@ == with_bit(old(self)@, 8, state.is_set()),
    {
        self.0.lme_mut(state);
    }

    /// Reads the processor-maintained Long Mode Active flag.
    pub fn lma(&self) -> (r: State)
        ensures
            r == State::of(bit_of(self@, 10)),
    {
        self.0.lma()
    }

    /// Reads the No-Execute Enable flag.
    pub fn nxe(&self) -> (r: State)
        ensures
            r == State::of(bit_of(self@, 11)),
    {
        self.0.nxe()
    }

    /// Sets or clears the No-Execute Enable flag.
    pub fn nxe_mut(&mut self, state: State)
        ensures
            final(self)@ == with_bit(old(self)@, 11, state.is_set()),
    {
        self.0.nxe_mut(state);
    }
}

/// Whether an EFER image shows both long mode enabled and active.
pub open spec fn long_mode_active(v: u64) -> bool {
    bit_of(v, 8) && bit_of(v, 10)
}

/// An EFER value suitable for restoring an active long-mode context: both LME
/// and LMA are set.
#[derive(Debug, Clone, Copy, PartialEq, Eq, PartialOrd, Ord, Hash)]
pub struct LongModeEfer(Efer);

impl View for LongModeEfer {
    type V = u64;

    closed spec fn view(&self) -> u64 {
        self.0@
    }
}

impl LongModeEfer {
    #[verifier::type_invariant]
    spec fn active(self) -> bool {
        long_mode_active(self.0@)
    }

    /// Creates active long-mode evidence when LME is enabled, by marking
    /// LMA in the saved image.
    pub fn new(efer: Efer) -> (r: Option<Self>)
        ensures
            r is Some <==> bit_of(efer@, 8),
            r matches Some(l) ==> l@ == with_bit(efer@, 10, true),
    {
        match efer.lme() {
            State::Raised => {
                let mut target_value = efer.raw();
                target_value.lma_mut(State::Raised);
                proof {
                    lemma_bit_set_same(efer@, 10, true);
                    lemma_bit_set_other(efer@, 10, true, 8);
                }
                Some(Self(Efer::lift(target_value)))
            },
            State::Cleared => None,
        }
    }

    /// Lowers this evidence into the exact saved EFER image.
    pub fn raw(self) -> (r: RawEfer)
        ensures
            r@ == self@,
            long_mode_active(r@),
    {
        proof {
            use_type_invariant(self);
        }
        self.0.raw()
    }
}

/// Every register of the `EFER` family lowers to its own stored word:
/// the image that `wrmsr` loads and that `RawMsr::take` erases a value to is
/// the value's 64-bit view, bit for bit.
pub proof fn lemma_efer_images_are_stored_words(v0: RawEfer)
    ensures
        v0.image() == v0@,
{
}

} // verus!
