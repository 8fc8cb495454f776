//! Flexible Return and Event Delivery MSR representations.
//!
//! Raw types keep every architectural register image. Checked values keep
//! address alignment and policy constraints out of the raw transport layer.

use vstd::prelude::*;

use crate::arch::x86::fred::Level as FredLevel;
use crate::arch::x86::msr::{FredAccess, Msr, ReadWrite, UnavailableAccess};
use crate::arch::x86_64::paging::address::{La, LaMode, canonical};
use crate::bits::{
    State, bit_of, field_of, get_bit, get_field, get_field_u8, set_bit, set_field, with_bit,
    with_field,
};

verus! {

/// Exact IA32_FRED_CONFIG register image; every `u64` is representable.
#[derive(Debug, Clone, Copy, PartialEq, Eq, PartialOrd, Ord, Hash)]
pub struct RawFredConfig(u64);

impl View for RawFredConfig {
    type V = u64;

    closed spec fn view(&self) -> u64 {
        self.0
    }
}

impl RawFredConfig {
    /// Constructs a raw IA32_FRED_CONFIG image.
    pub fn new(target_value: u64) -> (r: Self)
        ensures
            r@ == target_value,
    {
        Self(target_value)
    }

    /// Returns the raw IA32_FRED_CONFIG image.
    pub fn raw(self) -> (r: u64)
        ensures
            r == self@,
    {
        self.0
    }

    /// Reads the current stack level (bits 1..0).
    pub fn level(&self) -> (r: u8)
        ensures
            r == field_of(self@, 0, 2),
    {
        get_field_u8(self.0, 0, 2)
    }

    /// Writes the current stack level (bits 1..0).
    pub fn level_mut(&mut self, value: u8)
        ensures
            final(self)@ == with_field(old(self)@, 0, 2, (value as u64)),
    {
        self.0 = set_field(self.0, 0, 2, (value as u64));
    }

    /// Reads reserved bit 2.
    pub fn reserved_2(&self) -> (r: State)
        ensures
            r == State::of(bit_of(self@, 2)),
    {
        get_bit(self.0, 2)
    }

    /// Sets or clears reserved bit 2.
    pub fn reserved_2_mut(&mut self, state: State)
        ensures
            final(self)@ == with_bit(old(self)@, 2, state.is_set()),
    {
        self.0 = set_bit(self.0, 2, state);
    }

    /// Reads the shadow-stack control (bit 3).
    pub fn shadow(&self) -> (r: State)
        ensures
            r == State::of(bit_of(self@, 3)),
    {
        get_bit(self.0, 3)
    }

    /// Sets or clears the shadow-stack control (bit 3).
    pub fn shadow_mut(&mut self, state: State)
        ensures
            final(self)@ == with_bit(old(self)@, 3, state.is_set()),
    {
        self.0 = set_bit(self.0, 3, state);
    }

    /// Reads the reserved bits 5..4.
    pub fn reserved_4_5(&self) -> (r: u8)
        ensures
            r == field_of(self@, 4, 2),
    {
        get_field_u8(self.0, 4, 2)
    }

    /// Writes the reserved bits 5..4.
    pub fn reserved_4_5_mut(&mut self, value: u8)
        ensures
            final(self)@ == with_field(old(self)@, 4, 2, (value as u64)),
    {
        self.0 = set_field(self.0, 4, 2, (value as u64));
    }

    /// Reads the regular-stack decrement control (bits 8..6).
    pub fn regular(&self) -> (r: u8)
        ensures
            r == field_of(self@, 6, 3),
    {
        get_field_u8(self.0, 6, 3)
    }

    /// Writes the regular-stack decrement control (bits 8..6).
    pub fn regular_mut(&mut self, value: u8)
        ensures
            final(self)@ == with_field(old(self)@, 6, 3, (value as u64)),
    {
        self.0 = set_field(self.0, 6, 3, (value as u64));
    }

    /// Reads the interrupt stack level (bits 10..9).
    pub fn interrupt(&self) -> (r: u8)
        ensures
            r == field_of(self@, 9, 2),
    {
        get_field_u8(self.0, 9, 2)
    }

    /// Writes the interrupt stack level (bits 10..9).
    pub fn interrupt_mut(&mut self, value: u8)
        ensures
            final(self)@ == with_field(old(self)@, 9, 2, (value as u64)),
    {
        self.0 = set_field(self.0, 9, 2, (value as u64));
    }

    /// Reads reserved bit 11.
    pub fn reserved_11(&self) -> (r: State)
        ensures
            r == State::of(bit_of(self@, 11)),
    {
        get_bit(self.0, 11)
    }

    /// Sets or clears reserved bit 11.
    pub fn reserved_11_mut(&mut self, state: State)
        ensures
            final(self)@ == with_bit(old(self)@, 11, state.is_set()),
    {
        self.0 = set_bit(self.0, 11, state);
    }

    /// Reads the handler page (bits 63..12).
    pub fn handler(&self) -> (r: u64)
        ensures
            r == field_of(self@, 12, 52),
    {
        get_field(self.0, 12, 52)
    }

    /// Writes the handler page (bits 63..12).
    pub fn handler_mut(&mut self, value: u64)
        ensures
            final(self)@ == with_field(old(self)@, 12, 52, value),
    {
        self.0 = set_field(self.0, 12, 52, value);
    }
}

impl Msr for RawFredConfig {
    type Access = ReadWrite;

    type Authority = FredAccess;

    open spec fn spec_address() -> u32 {
        0x1d4
    }

    fn address() -> (r: u32) {
        0x1d4
    }

    open spec fn image(self) -> u64 {
        self@
    }

    fn from_raw(value: u64) -> (r: Self)
        ensures
            r@ == value,
    {
        Self::new(value)
    }

    fn into_raw(self) -> (r: u64)
        ensures
            r == self@,
    {
        self.raw()
    }
}

/// A checked FRED configuration: a page-aligned canonical event handler and
/// the stack level used for interrupts.
///
/// Lowering clears the reserved fields, the current stack level and the
/// same-stack decrement controls.
#[derive(Debug, Clone, Copy, PartialEq, Eq, PartialOrd, Ord, Hash)]
pub struct FredConfig {
    /// The canonical, page-aligned event handler.
    handler: La,
    /// The stack level used for external interrupts.
    interrupt: FredLevel,
}

impl View for FredConfig {
    type V = (u64, FredLevel);

    closed spec fn view(&self) -> (u64, FredLevel) {
        (self.handler@, self.interrupt)
    }
}

impl FredConfig {
    #[verifier::type_invariant]
    spec fn page_aligned(self) -> bool {
        field_of(self.handler@, 0, 12) == 0
    }

    /// Creates a configuration when the handler is page aligned.
    pub fn new(handler: La, interrupt: FredLevel) -> (r: Option<Self>)
        ensures
            r is Some <==> field_of(handler@, 0, 12) == 0,
            r matches Some(c) ==> c@ == (handler@, interrupt),
    {
        let address = handler.bits();
        if get_field(address, 0, 12) == 0 {
            Some(FredConfig { handler, interrupt })
        } else {
            None
        }
    }

    /// Returns the event handler.
    pub fn handler(self) -> (r: La)
        ensures
            r@ == self@.0,
            field_of(r@, 0, 12) == 0,
    {
        proof {
            use_type_invariant(self);
        }
        self.handler
    }

    /// Returns the interrupt stack level.
    pub fn interrupt(self) -> (r: FredLevel)
        ensures
            r == self@.1,
    {
        self.interrupt
    }

    /// Lowers this configuration into the exact FRED_CONFIG image: the
    /// handler page with the interrupt stack level in bits 10..9.
    pub fn raw(self) -> (r: RawFredConfig)
        ensures
            r@ == self@.0 + self@.1.value() * 512,
    {
        proof {
            use_type_invariant(self);
        }
        let address = self.handler.bits();
        let page = get_field(address, 12, 52);
        let level = self.interrupt.raw();
        let mut target_value = RawFredConfig::new(0);
        target_value.handler_mut(page);
        let ghost v1 = target_value@;
        target_value.interrupt_mut(level);
        proof {
            let l = level as u64;
            let v = target_value@;
            assert(v == address + l * 512) by (bit_vector)
                requires
                    page == (address >> 12u64) & !(u64::MAX << 52u64),
                    (address >> 0u64) & !(u64::MAX << 12u64) == 0,
                    v1 == (0u64 & !(!(u64::MAX << 52u64) << 12u64)) | ((page & !(u64::MAX << 52u64))
                        << 12u64),
                    v == (v1 & !(!(u64::MAX << 2u64) << 9u64)) | ((l & !(u64::MAX << 2u64)) << 9u64),
                    l <= 3,
            ;
        }
        target_value
    }
}

/// Exact IA32_FRED_STKLVLS register image; every `u64` is representable.
#[derive(Debug, Clone, Copy, PartialEq, Eq, PartialOrd, Ord, Hash)]
pub struct RawFredLevels(u64);

impl View for RawFredLevels {
    type V = u64;

    closed spec fn view(&self) -> u64 {
        self.0
    }
}

impl RawFredLevels {
    /// Constructs a raw IA32_FRED_STKLVLS image.
    pub fn new(target_value: u64) -> (r: Self)
        ensures
            r@ == target_value,
    {
        Self(target_value)
    }

    /// Returns the raw IA32_FRED_STKLVLS image.
    pub fn raw(self) -> (r: u64)
        ensures
            r == self@,
    {
        self.0
    }

    /// Reads the NMI stack level (bits 5..4).
    pub fn nmi(&self) -> (r: u8)
        ensures
            r == field_of(self@, 4, 2),
    {
        get_field_u8(self.0, 4, 2)
    }

    /// Writes the NMI stack level (bits 5..4).
    pub fn nmi_mut(&mut self, value: u8)
        ensures
            final(self)@ == with_field(old(self)@, 4, 2, (value as u64)),
    {
        self.0 = set_field(self.0, 4, 2, (value as u64));
    }

    /// Reads the double-fault stack level (bits 17..16).
    pub fn df(&self) -> (r: u8)
        ensures
            r == field_of(self@, 16, 2),
    {
        get_field_u8(self.0, 16, 2)
    }

    /// Writes the double-fault stack level (bits 17..16).
    pub fn df_mut(&mut self, value: u8)
        ensures
            final(self)@ == with_field(old(self)@, 16, 2, (value as u64)),
    {
        self.0 = set_field(self.0, 16, 2, (value as u64));
    }

    /// Reads the machine-check stack level (bits 37..36).
    pub fn mc(&self) -> (r: u8)
        ensures
            r == field_of(self@, 36, 2),
    {
        get_field_u8(self.0, 36, 2)
    }

    /// Writes the machine-check stack level (bits 37..36).
    pub fn mc_mut(&mut self, value: u8)
        ensures
            final(self)@ == with_field(old(self)@, 36, 2, (value as u64)),
    {
        self.0 = set_field(self.0, 36, 2, (value as u64));
    }
}

impl Msr for RawFredLevels {
    type Access = ReadWrite;

    type Authority = FredAccess;

    open spec fn spec_address() -> u32 {
        0x1d0
    }

    fn address() -> (r: u32) {
        0x1d0
    }

    open spec fn image(self) -> u64 {
        self@
    }

    fn from_raw(value: u64) -> (r: Self)
        ensures
            r@ == value,
    {
        Self::new(value)
    }

    fn into_raw(self) -> (r: u64)
        ensures
            r == self@,
    {
        self.raw()
    }
}

/// The machine-safety FRED stack levels: NMI on level one, double fault on
/// level two and machine check on level three.
#[derive(Debug, Clone, Copy, PartialEq, Eq, PartialOrd, Ord, Hash)]
pub struct FredLevels {
    /// Stack level for non-maskable interrupts.
    nmi: FredLevel,
    /// Stack level for double faults.
    df: FredLevel,
    /// Stack level for machine checks.
    mc: FredLevel,
}

impl View for FredLevels {
    type V = (FredLevel, FredLevel, FredLevel);

    /// The NMI, double-fault and machine-check stack levels.
    closed spec fn view(&self) -> (FredLevel, FredLevel, FredLevel) {
        (self.nmi, self.df, self.mc)
    }
}

impl FredLevels {
    #[verifier::type_invariant]
    spec fn machine_safety_layout(self) -> bool {
        &&& self.nmi == FredLevel::One
        &&& self.df == FredLevel::Two
        &&& self.mc == FredLevel::Three
    }

    /// Creates the machine-safety stack-level assignment.
    pub fn machine_safety() -> (r: Self)
        ensures
            r@ == (FredLevel::One, FredLevel::Two, FredLevel::Three),
    {
        FredLevels { nmi: FredLevel::One, df: FredLevel::Two, mc: FredLevel::Three }
    }

    /// Returns the NMI stack level: always level one.
    pub fn nmi(self) -> (r: FredLevel)
        ensures
            r == FredLevel::One,
            r == self@.0,
    {
        proof {
            use_type_invariant(self);
        }
        self.nmi
    }

    /// Returns the double-fault stack level: always level two.
    pub fn df(self) -> (r: FredLevel)
        ensures
            r == FredLevel::Two,
            r == self@.1,
    {
        proof {
            use_type_invariant(self);
        }
        self.df
    }

    /// Returns the machine-check stack level: always level three.
    pub fn mc(self) -> (r: FredLevel)
        ensures
            r == FredLevel::Three,
            r == self@.2,
    {
        proof {
            use_type_invariant(self);
        }
        self.mc
    }

    /// Lowers these levels into the exact STKLVLS image, every other field
    /// clear.
    pub fn raw(self) -> (r: RawFredLevels)
        ensures
            r@ == 0x0000_0030_0002_0010,
    {
        let nmi = self.nmi().raw();
        let df = self.df().raw();
        let mc = self.mc().raw();
        let mut target_value = RawFredLevels::new(0);
        target_value.nmi_mut(nmi);
        let ghost v1 = target_value@;
        target_value.df_mut(df);
        let ghost v2 = target_value@;
        target_value.mc_mut(mc);
        proof {
            let v = target_value@;
            assert(v == 0x0000_0030_0002_0010u64) by (bit_vector)
                requires
                    v1 == (0u64 & !(!(u64::MAX << 2u64) << 4u64)) | ((1u64 & !(u64::MAX << 2u64)) << 4u64),
                    v2 == (v1 & !(!(u64::MAX << 2u64) << 16u64)) | ((2u64 & !(u64::MAX << 2u64)) << 16u64),
                    v == (v2 & !(!(u64::MAX << 2u64) << 36u64)) | ((3u64 & !(u64::MAX << 2u64)) << 36u64),
            ;
        }
        target_value
    }
}

/// Exact IA32_FRED_RSP0 register image; every `u64` is representable.
#[derive(Debug, Clone, Copy, PartialEq, Eq, PartialOrd, Ord, Hash)]
pub struct RawFredRsp0(u64);

impl View for RawFredRsp0 {
    type V = u64;

    closed spec fn view(&self) -> u64 {
        self.0
    }
}

impl RawFredRsp0 {
    /// Constructs a raw IA32_FRED_RSP0 image.
    pub fn new(target_value: u64) -> (r: Self)
        ensures
            r@ == target_value,
    {
        Self(target_value)
    }

    /// Returns the raw IA32_FRED_RSP0 image.
    pub fn raw(self) -> (r: u64)
        ensures
            r == self@,
    {
        self.0
    }

    /// The all-zero image.
    #[allow(non_snake_case)]
    pub fn ZERO() -> (r: Self)
        ensures
            r@ == 0,
    {
        Self(0)
    }
}

impl Msr for RawFredRsp0 {
    type Access = ReadWrite;

    type Authority = FredAccess;

    open spec fn spec_address() -> u32 {
        0x1cc
    }

    fn address() -> (r: u32) {
        0x1cc
    }

    open spec fn image(self) -> u64 {
        self@
    }

    fn from_raw(value: u64) -> (r: Self)
        ensures
            r@ == value,
    {
        Self::new(value)
    }

    fn into_raw(self) -> (r: u64)
        ensures
            r == self@,
    {
        self.raw()
    }
}

/// A checked FRED regular-stack pointer for level 0: canonical and 64-byte
/// aligned.
#[derive(Debug, Clone, Copy, PartialEq, Eq, PartialOrd, Ord, Hash)]
pub struct FredRsp0(La);

impl View for FredRsp0 {
    type V = u64;

    closed spec fn view(&self) -> u64 {
        self.0@
    }
}

impl FredRsp0 {
    #[verifier::type_invariant]
    spec fn aligned(self) -> bool {
        field_of(self.0@, 0, 6) == 0
    }

    /// Creates a stack pointer when the address is 64-byte aligned.
    pub fn new(address: La) -> (r: Option<Self>)
        ensures
            r is Some <==> field_of(address@, 0, 6) == 0,
            r matches Some(s) ==> s@ == address@,
    {
        if get_field(address.bits(), 0, 6) == 0 {
            Some(Self(address))
        } else {
            None
        }
    }

    /// Lifts a raw image when it is 64-byte aligned and canonical under `M`.
    pub fn lift<M: LaMode>(target_value: RawFredRsp0) -> (r: Option<Self>)
        ensures
            r is Some <==> (field_of(target_value@, 0, 6) == 0 && canonical(
                M::spec_width(),
                target_value@,
            )),
            r matches Some(s) ==> s@ == target_value@,
    {
        let target_value = target_value.raw();
        let aligned = get_field(target_value, 0, 6) == 0;
        match La::new::<M>(target_value) {
            Some(address) => {
                if aligned {
                    Some(Self(address))
                } else {
                    None
                }
            },
            None => None,
        }
    }

    /// Returns the stack address.
    pub fn la(self) -> (r: La)
        ensures
            r@ == self@,
            field_of(r@, 0, 6) == 0,
    {
        proof {
            use_type_invariant(self);
        }
        self.0
    }

    /// Lowers this stack pointer into the exact register image.
    pub fn raw(self) -> (r: RawFredRsp0)
        ensures
            r@ == self@,
    {
        RawFredRsp0::new(self.0.bits())
    }
}

/// Exact IA32_FRED_RSP1 register image; every `u64` is representable.
#[derive(Debug, Clone, Copy, PartialEq, Eq, PartialOrd, Ord, Hash)]
pub struct RawFredRsp1(u64);

impl View for RawFredRsp1 {
    type V = u64;

    closed spec fn view(&self) -> u64 {
        self.0
    }
}

impl RawFredRsp1 {
    /// Constructs a raw IA32_FRED_RSP1 image.
    pub fn new(target_value: u64) -> (r: Self)
        ensures
            r@ == target_value,
    {
        Self(target_value)
    }

    /// Returns the raw IA32_FRED_RSP1 image.
    pub fn raw(self) -> (r: u64)
        ensures
            r == self@,
    {
        self.0
    }

    /// The all-zero image.
    #[allow(non_snake_case)]
    pub fn ZERO() -> (r: Self)
        ensures
            r@ == 0,
    {
        Self(0)
    }
}

impl Msr for RawFredRsp1 {
    type Access = ReadWrite;

    type Authority = FredAccess;

    open spec fn spec_address() -> u32 {
        0x1cd
    }

    fn address() -> (r: u32) {
        0x1cd
    }

    open spec fn image(self) -> u64 {
        self@
    }

    fn from_raw(value: u64) -> (r: Self)
        ensures
            r@ == value,
    {
        Self::new(value)
    }

    fn into_raw(self) -> (r: u64)
        ensures
            r == self@,
    {
        self.raw()
    }
}

/// A checked FRED regular-stack pointer for level 1: canonical and 64-byte
/// aligned.
#[derive(Debug, Clone, Copy, PartialEq, Eq, PartialOrd, Ord, Hash)]
pub struct FredRsp1(La);

impl View for FredRsp1 {
    type V = u64;

    closed spec fn view(&self) -> u64 {
        self.0@
    }
}

impl FredRsp1 {
    #[verifier::type_invariant]
    spec fn aligned(self) -> bool {
        field_of(self.0@, 0, 6) == 0
    }

    /// Creates a stack pointer when the address is 64-byte aligned.
    pub fn new(address: La) -> (r: Option<Self>)
        ensures
            r is Some <==> field_of(address@, 0, 6) == 0,
            r matches Some(s) ==> s@ == address@,
    {
        if get_field(address.bits(), 0, 6) == 0 {
            Some(Self(address))
        } else {
            None
        }
    }

    /// Lifts a raw image when it is 64-byte aligned and canonical under `M`.
    pub fn lift<M: LaMode>(target_value: RawFredRsp1) -> (r: Option<Self>)
        ensures
            r is Some <==> (field_of(target_value@, 0, 6) == 0 && canonical(
                M::spec_width(),
                target_value@,
            )),
            r matches Some(s) ==> s@ == target_value@,
    {
        let target_value = target_value.raw();
        let aligned = get_field(target_value, 0, 6) == 0;
        match La::new::<M>(target_value) {
            Some(address) => {
                if aligned {
                    Some(Self(address))
                } else {
                    None
                }
            },
            None => None,
        }
    }

    /// Returns the stack address.
    pub fn la(self) -> (r: La)
        ensures
            r@ == self@,
            field_of(r@, 0, 6) == 0,
    {
        proof {
            use_type_invariant(self);
        }
        self.0
    }

    /// Lowers this stack pointer into the exact register image.
    pub fn raw(self) -> (r: RawFredRsp1)
        ensures
            r@ == self@,
    {
        RawFredRsp1::new(self.0.bits())
    }
}

/// Exact IA32_FRED_RSP2 register image; every `u64` is representable.
#[derive(Debug, Clone, Copy, PartialEq, Eq, PartialOrd, Ord, Hash)]
pub struct RawFredRsp2(u64);

impl View for RawFredRsp2 {
    type V = u64;

    closed spec fn view(&self) -> u64 {
        self.0
    }
}

impl RawFredRsp2 {
    /// Constructs a raw IA32_FRED_RSP2 image.
    pub fn new(target_value: u64) -> (r: Self)
        ensures
            r@ == target_value,
    {
        Self(target_value)
    }

    /// Returns the raw IA32_FRED_RSP2 image.
    pub fn raw(self) -> (r: u64)
        ensures
            r == self@,
    {
        self.0
    }

    /// The all-zero image.
    #[allow(non_snake_case)]
    pub fn ZERO() -> (r: Self)
        ensures
            r@ == 0,
    {
        Self(0)
    }
}

impl Msr for RawFredRsp2 {
    type Access = ReadWrite;

    type Authority = FredAccess;

    open spec fn spec_address() -> u32 {
        0x1ce
    }

    fn address() -> (r: u32) {
        0x1ce
    }

    open spec fn image(self) -> u64 {
        self@
    }

    fn from_raw(value: u64) -> (r: Self)
        ensures
            r@ == value,
    {
        Self::new(value)
    }

    fn into_raw(self) -> (r: u64)
        ensures
            r == self@,
    {
        self.raw()
    }
}

/// A checked FRED regular-stack pointer for level 2: canonical and 64-byte
/// aligned.
#[derive(Debug, Clone, Copy, PartialEq, Eq, PartialOrd, Ord, Hash)]
pub struct FredRsp2(La);

impl View for FredRsp2 {
    type V = u64;

    closed spec fn view(&self) -> u64 {
        self.0@
    }
}

impl FredRsp2 {
    #[verifier::type_invariant]
    spec fn aligned(self) -> bool {
        field_of(self.0@, 0, 6) == 0
    }

    /// Creates a stack pointer when the address is 64-byte aligned.
    pub fn new(address: La) -> (r: Option<Self>)
        ensures
            r is Some <==> field_of(address@, 0, 6) == 0,
            r matches Some(s) ==> s@ == address@,
    {
        if get_field(address.bits(), 0, 6) == 0 {
            Some(Self(address))
        } else {
            None
        }
    }

    /// Lifts a raw image when it is 64-byte aligned and canonical under `M`.
    pub fn lift<M: LaMode>(target_value: RawFredRsp2) -> (r: Option<Self>)
        ensures
            r is Some <==> (field_of(target_value@, 0, 6) == 0 && canonical(
                M::spec_width(),
                target_value@,
            )),
            r matches Some(s) ==> s@ == target_value@,
    {
        let target_value = target_value.raw();
        let aligned = get_field(target_value, 0, 6) == 0;
        match La::new::<M>(target_value) {
            Some(address) => {
                if aligned {
                    Some(Self(address))
                } else {
                    None
                }
            },
            None => None,
        }
    }

    /// Returns the stack address.
    pub fn la(self) -> (r: La)
        ensures
            r@ == self@,
            field_of(r@, 0, 6) == 0,
    {
        proof {
            use_type_invariant(self);
        }
        self.0
    }

    /// Lowers this stack pointer into the exact register image.
    pub fn raw(self) -> (r: RawFredRsp2)
        ensures
            r@ == self@,
    {
        RawFredRsp2::new(self.0.bits())
    }
}

/// Exact IA32_FRED_RSP3 register image; every `u64` is representable.
#[derive(Debug, Clone, Copy, PartialEq, Eq, PartialOrd, Ord, Hash)]
pub struct RawFredRsp3(u64);

impl View for RawFredRsp3 {
    type V = u64;

    closed spec fn view(&self) -> u64 {
        self.0
    }
}

impl RawFredRsp3 {
    /// Constructs a raw IA32_FRED_RSP3 image.
    pub fn new(target_value: u64) -> (r: Self)
        ensures
            r@ == target_value,
    {
        Self(target_value)
    }

    /// Returns the raw IA32_FRED_RSP3 image.
    pub fn raw(self) -> (r: u64)
        ensures
            r == self@,
    {
        self.0
    }

    /// The all-zero image.
    #[allow(non_snake_case)]
    pub fn ZERO() -> (r: Self)
        ensures
            r@ == 0,
    {
        Self(0)
    }
}

impl Msr for RawFredRsp3 {
    type Access = ReadWrite;

    type Authority = FredAccess;

    open spec fn spec_address() -> u32 {
        0x1cf
    }

    fn address() -> (r: u32) {
        0x1cf
    }

    open spec fn image(self) -> u64 {
        self@
    }

    fn from_raw(value: u64) -> (r: Self)
        ensures
            r@ == value,
    {
        Self::new(value)
    }

    fn into_raw(self) -> (r: u64)
        ensures
            r == self@,
    {
        self.raw()
    }
}

/// A checked FRED regular-stack pointer for level 3: canonical and 64-byte
/// aligned.
#[derive(Debug, Clone, Copy, PartialEq, Eq, PartialOrd, Ord, Hash)]
pub struct FredRsp3(La);

impl View for FredRsp3 {
    type V = u64;

    closed spec fn view(&self) -> u64 {
        self.0@
    }
}

impl FredRsp3 {
    #[verifier::type_invariant]
    spec fn aligned(self) -> bool {
        field_of(self.0@, 0, 6) == 0
    }

    /// Creates a stack pointer when the address is 64-byte aligned.
    pub fn new(address: La) -> (r: Option<Self>)
        ensures
            r is Some <==> field_of(address@, 0, 6) == 0,
            r matches Some(s) ==> s@ == address@,
    {
        if get_field(address.bits(), 0, 6) == 0 {
            Some(Self(address))
        } else {
            None
        }
    }

    /// Lifts a raw image when it is 64-byte aligned and canonical under `M`.
    pub fn lift<M: LaMode>(target_value: RawFredRsp3) -> (r: Option<Self>)
        ensures
            r is Some <==> (field_of(target_value@, 0, 6) == 0 && canonical(
                M::spec_width(),
                target_value@,
            )),
            r matches Some(s) ==> s@ == target_value@,
    {
        let target_value = target_value.raw();
        let aligned = get_field(target_value, 0, 6) == 0;
        match La::new::<M>(target_value) {
            Some(address) => {
                if aligned {
                    Some(Self(address))
                } else {
                    None
                }
            },
            None => None,
        }
    }

    /// Returns the stack address.
    pub fn la(self) -> (r: La)
        ensures
            r@ == self@,
            field_of(r@, 0, 6) == 0,
    {
        proof {
            use_type_invariant(self);
        }
        self.0
    }

    /// Lowers this stack pointer into the exact register image.
    pub fn raw(self) -> (r: RawFredRsp3)
        ensures
            r@ == self@,
    {
        RawFredRsp3::new(self.0.bits())
    }
}

/// Exact IA32_FRED_SSP1 register image; every `u64` is representable.
#[derive(Debug, Clone, Copy, PartialEq, Eq, PartialOrd, Ord, Hash)]
pub struct RawFredSsp1(u64);

impl View for RawFredSsp1 {
    type V = u64;

    closed spec fn view(&self) -> u64 {
        self.0
    }
}

impl RawFredSsp1 {
    /// Constructs a raw IA32_FRED_SSP1 image.
    pub fn new(target_value: u64) -> (r: Self)
        ensures
            r@ == target_value,
    {
        Self(target_value)
    }

    /// Returns the raw IA32_FRED_SSP1 image.
    pub fn raw(self) -> (r: u64)
        ensures
            r == self@,
    {
        self.0
    }
}

impl Msr for RawFredSsp1 {
    type Access = ReadWrite;

    type Authority = UnavailableAccess;

    open spec fn spec_address() -> u32 {
        0x1d1
    }

    fn address() -> (r: u32) {
        0x1d1
    }

    open spec fn image(self) -> u64 {
        self@
    }

    fn from_raw(value: u64) -> (r: Self)
        ensures
            r@ == value,
    {
        Self::new(value)
    }

    fn into_raw(self) -> (r: u64)
        ensures
            r == self@,
    {
        self.raw()
    }
}

/// Exact IA32_FRED_SSP2 register image; every `u64` is representable.
#[derive(Debug, Clone, Copy, PartialEq, Eq, PartialOrd, Ord, Hash)]
pub struct RawFredSsp2(u64);

impl View for RawFredSsp2 {
    type V = u64;

    closed spec fn view(&self) -> u64 {
        self.0
    }
}

impl RawFredSsp2 {
    /// Constructs a raw IA32_FRED_SSP2 image.
    pub fn new(target_value: u64) -> (r: Self)
        ensures
            r@ == target_value,
    {
        Self(target_value)
    }

    /// Returns the raw IA32_FRED_SSP2 image.
    pub fn raw(self) -> (r: u64)
        ensures
            r == self@,
    {
        self.0
    }
}

impl Msr for RawFredSsp2 {
    type Access = ReadWrite;

    type Authority = UnavailableAccess;

    open spec fn spec_address() -> u32 {
        0x1d2
    }

    fn address() -> (r: u32) {
        0x1d2
    }

    open spec fn image(self) -> u64 {
        self@
    }

    fn from_raw(value: u64) -> (r: Self)
        ensures
            r@ == value,
    {
        Self::new(value)
    }

    fn into_raw(self) -> (r: u64)
        ensures
            r == self@,
    {
        self.raw()
    }
}

/// Exact IA32_FRED_SSP3 register image; every `u64` is representable.
#[derive(Debug, Clone, Copy, PartialEq, Eq, PartialOrd, Ord, Hash)]
pub struct RawFredSsp3(u64);

impl View for RawFredSsp3 {
    type V = u64;

    closed spec fn view(&self) -> u64 {
        self.0
    }
}

impl RawFredSsp3 {
    /// Constructs a raw IA32_FRED_SSP3 image.
    pub fn new(target_value: u64) -> (r: Self)
        ensures
            r@ == target_value,
    {
        Self(target_value)
    }

    /// Returns the raw IA32_FRED_SSP3 image.
    pub fn raw(self) -> (r: u64)
        ensures
            r == self@,
    {
        self.0
    }
}

impl Msr for RawFredSsp3 {
    type Access = ReadWrite;

    type Authority = UnavailableAccess;

    open spec fn spec_address() -> u32 {
        0x1d3
    }

    fn address() -> (r: u32) {
        0x1d3
    }

    open spec fn image(self) -> u64 {
        self@
    }

    fn from_raw(value: u64) -> (r: Self)
        ensures
            r@ == value,
    {
        Self::new(value)
    }

    fn into_raw(self) -> (r: u64)
        ensures
            r == self@,
    {
        self.raw()
    }
}

/// Every register of the FRED family lowers to its own stored word:
/// the image that `wrmsr` loads and that `RawMsr::take` erases a value to is
/// the value's 64-bit view, bit for bit.
pub proof fn lemma_fred_images_are_stored_words(v0: RawFredConfig, v1: RawFredLevels, v2: RawFredRsp0, v3: RawFredRsp1, v4: RawFredRsp2, v5: RawFredRsp3, v6: RawFredSsp1, v7: RawFredSsp2, v8: RawFredSsp3)
    ensures
        v0.image() == v0@,
        v1.image() == v1@,
        v2.image() == v2@,
        v3.image() == v3@,
        v4.image() == v4@,
        v5.image() == v5@,
        v6.image() == v6@,
        v7.image() == v7@,
        v8.image() == v8@,
{
}

} // verus!
