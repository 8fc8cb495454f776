//! Architectural register images of the 64-bit mode: general-purpose
//! registers, the instruction pointer, segment bases, the debug-status
//! register and RFLAGS.
//!
//! Every image is held as its exact integer. The RFLAGS representation keeps
//! its fixed bit 1 set and its reserved bits clear; only the named flags and
//! the I/O privilege level can change.

use vstd::prelude::*;

use crate::bits::{
    State, bit_of, field_of, get_bit, get_field_u16, get_field_u32, get_field_u8, get_field,
    lemma_bit_set_field, lemma_bit_set_other, lemma_field_set_bit, lemma_get_set_other,
    set_bit, set_field, with_bit, with_field,
};

verus! {

/// A general-purpose register; every `u64` image is representable.
#[derive(Debug, Clone, Copy, PartialEq, Eq, PartialOrd, Ord, Hash)]
pub struct Gpr(u64);

impl View for Gpr {
    type V = u64;

    closed spec fn view(&self) -> u64 {
        self.0
    }
}

impl Gpr {
    /// Creates the value from its register image.
    pub fn new(target_value: u64) -> (r: Self)
        ensures
            r@ == target_value,
    {
        Self(target_value)
    }

    /// Returns the complete register image.
    pub fn unwrap(self) -> (r: u64)
        ensures
            r == self@,
    {
        self.0
    }

    /// Reads bits 7..0 of this register.
    pub fn low8(&self) -> (r: u8)
        ensures
            r == field_of(self@, 0, 8),
    {
        get_field_u8(self.0, 0, 8)
    }

    /// Reads bits 15..8 of this register.
    pub fn high8(&self) -> (r: u8)
        ensures
            r == field_of(self@, 8, 8),
    {
        get_field_u8(self.0, 8, 8)
    }

    /// Reads bits 15..0 of this register.
    pub fn val16(&self) -> (r: u16)
        ensures
            r == field_of(self@, 0, 16),
    {
        get_field_u16(self.0, 0, 16)
    }

    /// Reads bits 31..0 of this register.
    pub fn val32(&self) -> (r: u32)
        ensures
            r == field_of(self@, 0, 32),
    {
        get_field_u32(self.0, 0, 32)
    }

    /// Reads all 64 bits of this register.
    pub fn val64(&self) -> (r: u64)
        ensures
            r == self@,
    {
        self.0
    }

    /// Writes bits 7..0 of this register, keeping the other bits.
    pub fn low8_mut(&mut self, value: u8)
        ensures
            final(self)@ == with_field(old(self)@, 0, 8, (value as u64)),
    {
        self.0 = set_field(self.0, 0, 8, (value as u64));
    }

    /// Writes bits 15..8 of this register, keeping the other bits.
    pub fn high8_mut(&mut self, value: u8)
        ensures
            final(self)@ == with_field(old(self)@, 8, 8, (value as u64)),
    {
        self.0 = set_field(self.0, 8, 8, (value as u64));
    }

    /// Writes bits 15..0 of this register, keeping the other bits.
    pub fn val16_mut(&mut self, value: u16)
        ensures
            final(self)@ == with_field(old(self)@, 0, 16, (value as u64)),
    {
        self.0 = set_field(self.0, 0, 16, (value as u64));
    }

    /// Writes bits 31..0 of this register, keeping the other bits.
    pub fn val32_mut(&mut self, value: u32)
        ensures
            final(self)@ == with_field(old(self)@, 0, 32, (value as u64)),
    {
        self.0 = set_field(self.0, 0, 32, (value as u64));
    }

    /// Writes all 64 bits of this register.
    pub fn val64_mut(&mut self, value: u64)
        ensures
            final(self)@ == value,
    {
        self.0 = value;
    }
}

/// The 64-bit instruction pointer; every `u64` image is representable.
#[derive(Debug, Clone, Copy, PartialEq, Eq, PartialOrd, Ord, Hash)]
pub struct Rip(u64);

impl View for Rip {
    type V = u64;

    closed spec fn view(&self) -> u64 {
        self.0
    }
}

impl Rip {
    /// Creates an instruction pointer from its register image.
    pub fn new(target_value: u64) -> (r: Self)
        ensures
            r@ == target_value,
    {
        Self(target_value)
    }

    /// Returns the instruction pointer register image.
    pub fn unwrap(self) -> (r: u64)
        ensures
            r == self@,
    {
        self.0
    }
}

/// An extended segment-register base; every `u64` image is representable.
#[derive(Debug, Clone, Copy, PartialEq, Eq, PartialOrd, Ord, Hash)]
pub struct Base(u64);

impl View for Base {
    type V = u64;

    closed spec fn view(&self) -> u64 {
        self.0
    }
}

impl Base {
    /// Creates the value from its segment base image.
    pub fn new(target_value: u64) -> (r: Self)
        ensures
            r@ == target_value,
    {
        Self(target_value)
    }

    /// Returns the complete segment base image.
    pub fn unwrap(self) -> (r: u64)
        ensures
            r == self@,
    {
        self.0
    }

    /// Reads bits 7..0 of this segment base.
    pub fn low8(&self) -> (r: u8)
        ensures
            r == field_of(self@, 0, 8),
    {
        get_field_u8(self.0, 0, 8)
    }

    /// Reads bits 15..8 of this segment base.
    pub fn high8(&self) -> (r: u8)
        ensures
            r == field_of(self@, 8, 8),
    {
        get_field_u8(self.0, 8, 8)
    }

    /// Reads bits 15..0 of this segment base.
    pub fn val16(&self) -> (r: u16)
        ensures
            r == field_of(self@, 0, 16),
    {
        get_field_u16(self.0, 0, 16)
    }

    /// Reads bits 31..0 of this segment base.
    pub fn val32(&self) -> (r: u32)
        ensures
            r == field_of(self@, 0, 32),
    {
        get_field_u32(self.0, 0, 32)
    }

    /// Reads all 64 bits of this segment base.
    pub fn val64(&self) -> (r: u64)
        ensures
            r == self@,
    {
        self.0
    }

    /// Writes bits 7..0 of this segment base, keeping the other bits.
    pub fn low8_mut(&mut self, value: u8)
        ensures
            final(self)@ == with_field(old(self)@, 0, 8, (value as u64)),
    {
        self.0 = set_field(self.0, 0, 8, (value as u64));
    }

    /// Writes bits 15..8 of this segment base, keeping the other bits.
    pub fn high8_mut(&mut self, value: u8)
        ensures
            final(self)@ == with_field(old(self)@, 8, 8, (value as u64)),
    {
        self.0 = set_field(self.0, 8, 8, (value as u64));
    }

    /// Writes bits 15..0 of this segment base, keeping the other bits.
    pub fn val16_mut(&mut self, value: u16)
        ensures
            final(self)@ == with_field(old(self)@, 0, 16, (value as u64)),
    {
        self.0 = set_field(self.0, 0, 16, (value as u64));
    }

    /// Writes bits 31..0 of this segment base, keeping the other bits.
    pub fn val32_mut(&mut self, value: u32)
        ensures
            final(self)@ == with_field(old(self)@, 0, 32, (value as u64)),
    {
        self.0 = set_field(self.0, 0, 32, (value as u64));
    }

    /// Writes all 64 bits of this segment base.
    pub fn val64_mut(&mut self, value: u64)
        ensures
            final(self)@ == value,
    {
        self.0 = value;
    }
}

/// The debug-status register image; every `u64` image is representable,
/// reserved and feature-dependent bits included.
#[derive(Debug, Clone, Copy, PartialEq, Eq, PartialOrd, Ord, Hash)]
pub struct RawDr6(u64);

impl View for RawDr6 {
    type V = u64;

    closed spec fn view(&self) -> u64 {
        self.0
    }
}

impl RawDr6 {
    /// Constructs a raw DR6 image.
    pub fn new(target_value: u64) -> (r: Self)
        ensures
            r@ == target_value,
    {
        Self(target_value)
    }

    /// Returns the raw DR6 image.
    pub fn raw(self) -> (r: u64)
        ensures
            r == self@,
    {
        self.0
    }

    /// Reads breakpoint condition zero (bit 0).
    pub fn b0(&self) -> (r: State)
        ensures
            r == State::of(bit_of(self@, 0)),
    {
        get_bit(self.0, 0)
    }

    /// Reads breakpoint condition one (bit 1).
    pub fn b1(&self) -> (r: State)
        ensures
            r == State::of(bit_of(self@, 1)),
    {
        get_bit(self.0, 1)
    }

    /// Reads breakpoint condition two (bit 2).
    pub fn b2(&self) -> (r: State)
        ensures
            r == State::of(bit_of(self@, 2)),
    {
        get_bit(self.0, 2)
    }

    /// Reads breakpoint condition three (bit 3).
    pub fn b3(&self) -> (r: State)
        ensures
            r == State::of(bit_of(self@, 3)),
    {
        get_bit(self.0, 3)
    }

    /// Reads the reserved bits 10..4.
    pub fn reserved_4_10(&self) -> (r: u8)
        ensures
            r == field_of(self@, 4, 7),
    {
        get_field_u8(self.0, 4, 7)
    }

    /// Reads the bus-lock detected state (bit 11).
    pub fn bld(&self) -> (r: State)
        ensures
            r == State::of(bit_of(self@, 11)),
    {
        get_bit(self.0, 11)
    }

    /// Reads the reserved bit 12.
    pub fn reserved_12(&self) -> (r: State)
        ensures
            r == State::of(bit_of(self@, 12)),
    {
        get_bit(self.0, 12)
    }

    /// Reads the debug-register access detected state (bit 13).
    pub fn bd(&self) -> (r: State)
        ensures
            r == State::of(bit_of(self@, 13)),
    {
        get_bit(self.0, 13)
    }

    /// Reads the single-step state (bit 14).
    pub fn bs(&self) -> (r: State)
        ensures
            r == State::of(bit_of(self@, 14)),
    {
        get_bit(self.0, 14)
    }

    /// Reads the task-switch state (bit 15).
    pub fn bt(&self) -> (r: State)
        ensures
            r == State::of(bit_of(self@, 15)),
    {
        get_bit(self.0, 15)
    }

    /// Reads the restricted transactional memory state (bit 16).
    pub fn rtm(&self) -> (r: State)
        ensures
            r == State::of(bit_of(self@, 16)),
    {
        get_bit(self.0, 16)
    }

    /// Reads the reserved bits 63..17.
    pub fn reserved_17_63(&self) -> (r: u64)
        ensures
            r == field_of(self@, 17, 47),
    {
        get_field(self.0, 17, 47)
    }
}

/// Whether an RFLAGS image keeps its architectural constraints: bit 1 set,
/// bits 3, 5 and 15 clear, bits 63..22 clear.
pub open spec fn rflags_image_valid(v: u64) -> bool {
    &&& bit_of(v, 1)
    &&& !bit_of(v, 3)
    &&& !bit_of(v, 5)
    &&& !bit_of(v, 15)
    &&& field_of(v, 22, 42) == 0
}

/// The reset image of RFLAGS, `2`, keeps the RFLAGS constraints.
pub proof fn lemma_rflags_reset_valid()
    ensures
        rflags_image_valid(2),
{
    assert(((2u64 >> 1u64) & 1u64) == 1u64 && ((2u64 >> 3u64) & 1u64) != 1u64 && ((2u64 >> 5u64)
        & 1u64) != 1u64 && ((2u64 >> 15u64) & 1u64) != 1u64 && ((2u64 >> 22u64) & !(u64::MAX
        << 42u64)) == 0) by (bit_vector);
}

/// The RFLAGS register. Its fixed bit 1 stays set and its reserved bits stay
/// clear.
#[derive(Debug, Clone, Copy, PartialEq, Eq, PartialOrd, Ord, Hash)]
pub struct Rflags(u64);

impl View for Rflags {
    type V = u64;

    closed spec fn view(&self) -> u64 {
        self.0
    }
}

/// A raw RFLAGS image used to carry a checked value through saved state.
#[derive(Debug, Clone, Copy, PartialEq, Eq, PartialOrd, Ord, Hash)]
pub struct RawRflags(pub u64);

impl RawRflags {
    /// Erases checked flags into their image.
    pub fn take(target_value: Rflags) -> (r: Self)
        ensures
            r.0 == target_value@,
            rflags_image_valid(r.0),
    {
        proof {
            use_type_invariant(target_value);
        }
        Self(target_value.0)
    }

    /// Rebuilds checked flags from an image that keeps the RFLAGS
    /// constraints.
    pub fn restore(self) -> (r: Rflags)
        requires
            rflags_image_valid(self.0),
        ensures
            r@ == self.0,
    {
        Rflags(self.0)
    }
}

impl Rflags {
    #[verifier::type_invariant]
    spec fn reserved_bits_kept(self) -> bool {
        rflags_image_valid(self.0)
    }

    /// The architectural reset value: only the fixed bit 1 set.
    #[allow(non_snake_case)]
    pub fn RESET() -> (r: Self)
        ensures
            r@ == 2,
    {
        proof {
            lemma_rflags_reset_valid();
        }
        Self(2)
    }

    /// Reads the fixed bit 1.
    pub fn flag_reserved(&self) -> (r: State)
        ensures
            r == State::of(bit_of(self@, 1)),
    {
        get_bit(self.0, 1)
    }

    /// Reads the Carry Flag (bit 0).
    pub fn flag_cf(&self) -> (r: State)
        ensures
            r == State::of(bit_of(self@, 0)),
    {
        get_bit(self.0, 0)
    }

    /// Reads the Parity Flag (bit 2).
    pub fn flag_pf(&self) -> (r: State)
        ensures
            r == State::of(bit_of(self@, 2)),
    {
        get_bit(self.0, 2)
    }

    /// Reads the Auxiliary Carry Flag (bit 4).
    pub fn flag_af(&self) -> (r: State)
        ensures
            r == State::of(bit_of(self@, 4)),
    {
        get_bit(self.0, 4)
    }

    /// Reads the Zero Flag (bit 6).
    pub fn flag_zf(&self) -> (r: State)
        ensures
            r == State::of(bit_of(self@, 6)),
    {
        get_bit(self.0, 6)
    }

    /// Reads the Sign Flag (bit 7).
    pub fn flag_sf(&self) -> (r: State)
        ensures
            r == State::of(bit_of(self@, 7)),
    {
        get_bit(self.0, 7)
    }

    /// Reads the Trap Flag (bit 8).
    pub fn flag_tf(&self) -> (r: State)
        ensures
            r == State::of(bit_of(self@, 8)),
    {
        get_bit(self.0, 8)
    }

    /// Reads the Interrupt Enable Flag (bit 9).
    pub fn flag_if(&self) -> (r: State)
        ensures
            r == State::of(bit_of(self@, 9)),
    {
        get_bit(self.0, 9)
    }

    /// Reads the Direction Flag (bit 10).
    pub fn flag_df(&self) -> (r: State)
        ensures
            r == State::of(bit_of(self@, 10)),
    {
        get_bit(self.0, 10)
    }

    /// Reads the Overflow Flag (bit 11).
    pub fn flag_of(&self) -> (r: State)
        ensures
            r == State::of(bit_of(self@, 11)),
    {
        get_bit(self.0, 11)
    }

    /// Reads the Nested Task flag (bit 14).
    pub fn flag_nt(&self) -> (r: State)
        ensures
            r == State::of(bit_of(self@, 14)),
    {
        get_bit(self.0, 14)
    }

    /// Reads the Resume Flag (bit 16).
    pub fn flag_rf(&self) -> (r: State)
        ensures
            r == State::of(bit_of(self@, 16)),
    {
        get_bit(self.0, 16)
    }

    /// Reads the Virtual-8086 Mode flag (bit 17).
    pub fn flag_vm(&self) -> (r: State)
        ensures
            r == State::of(bit_of(self@, 17)),
    {
        get_bit(self.0, 17)
    }

    /// Reads the Alignment Check flag (bit 18).
    pub fn flag_ac(&self) -> (r: State)
        ensures
            r == State::of(bit_of(self@, 18)),
    {
        get_bit(self.0, 18)
    }

    /// Reads the Virtual Interrupt Flag (bit 19).
    pub fn flag_vif(&self) -> (r: State)
        ensures
            r == State::of(bit_of(self@, 19)),
    {
        get_bit(self.0, 19)
    }

    /// Reads the Virtual Interrupt Pending flag (bit 20).
    pub fn flag_vip(&self) -> (r: State)
        ensures
            r == State::of(bit_of(self@, 20)),
    {
        get_bit(self.0, 20)
    }

    /// Reads the ID flag (bit 21).
    pub fn flag_id(&self) -> (r: State)
        ensures
            r == State::of(bit_of(self@, 21)),
    {
        get_bit(self.0, 21)
    }

    /// Reads the I/O privilege level (bits 13..12).
    pub fn field_iopl(&self) -> (r: u8)
        ensures
            r == field_of(self@, 12, 2),
    {
        get_field_u8(self.0, 12, 2)
    }

    /// Sets or clears the Carry Flag (bit 0).
    pub fn flag_cf_mut(&mut self, state: State)
        ensures
            final(self)@ == with_bit(old(self)@, 0, state.is_set()),
    {
        proof {
            use_type_invariant(&*self);
            lemma_bit_set_field(self.0, 0, state.is_set(), 22, 42);
            lemma_bit_set_other(self.0, 0, state.is_set(), 1);
            lemma_bit_set_other(self.0, 0, state.is_set(), 3);
            lemma_bit_set_other(self.0, 0, state.is_set(), 5);
            lemma_bit_set_other(self.0, 0, state.is_set(), 15);
        }
        self.0 = set_bit(self.0, 0, state);
    }

    /// Sets or clears the Parity Flag (bit 2).
    pub fn flag_pf_mut(&mut self, state: State)
        ensures
            final(self)@ == with_bit(old(self)@, 2, state.is_set()),
    {
        proof {
            use_type_invariant(&*self);
            lemma_bit_set_field(self.0, 2, state.is_set(), 22, 42);
            lemma_bit_set_other(self.0, 2, state.is_set(), 1);
            lemma_bit_set_other(self.0, 2, state.is_set(), 3);
            lemma_bit_set_other(self.0, 2, state.is_set(), 5);
            lemma_bit_set_other(self.0, 2, state.is_set(), 15);
        }
        self.0 = set_bit(self.0, 2, state);
    }

    /// Sets or clears the Auxiliary Carry Flag (bit 4).
    pub fn flag_af_mut(&mut self, state: State)
        ensures
            final(self)@ == with_bit(old(self)@, 4, state.is_set()),
    {
        proof {
            use_type_invariant(&*self);
            lemma_bit_set_field(self.0, 4, state.is_set(), 22, 42);
            lemma_bit_set_other(self.0, 4, state.is_set(), 1);
            lemma_bit_set_other(self.0, 4, state.is_set(), 3);
            lemma_bit_set_other(self.0, 4, state.is_set(), 5);
            lemma_bit_set_other(self.0, 4, state.is_set(), 15);
        }
        self.0 = set_bit(self.0, 4, state);
    }

    /// Sets or clears the Zero Flag (bit 6).
    pub fn flag_zf_mut(&mut self, state: State)
        ensures
            final(self)@ == with_bit(old(self)@, 6, state.is_set()),
    {
        proof {
            use_type_invariant(&*self);
            lemma_bit_set_field(self.0, 6, state.is_set(), 22, 42);
            lemma_bit_set_other(self.0, 6, state.is_set(), 1);
            lemma_bit_set_other(self.0, 6, state.is_set(), 3);
            lemma_bit_set_other(self.0, 6, state.is_set(), 5);
            lemma_bit_set_other(self.0, 6, state.is_set(), 15);
        }
        self.0 = set_bit(self.0, 6, state);
    }

    /// Sets or clears the Sign Flag (bit 7).
    pub fn flag_sf_mut(&mut self, state: State)
        ensures
            final(self)@ == with_bit(old(self)@, 7, state.is_set()),
    {
        proof {
            use_type_invariant(&*self);
            lemma_bit_set_field(self.0, 7, state.is_set(), 22, 42);
            lemma_bit_set_other(self.0, 7, state.is_set(), 1);
            lemma_bit_set_other(self.0, 7, state.is_set(), 3);
            lemma_bit_set_other(self.0, 7, state.is_set(), 5);
            lemma_bit_set_other(self.0, 7, state.is_set(), 15);
        }
        self.0 = set_bit(self.0, 7, state);
    }

    /// Sets or clears the Trap Flag (bit 8).
    pub fn flag_tf_mut(&mut self, state: State)
        ensures
            final(self)@ == with_bit(old(self)@, 8, state.is_set()),
    {
        proof {
            use_type_invariant(&*self);
            lemma_bit_set_field(self.0, 8, state.is_set(), 22, 42);
            lemma_bit_set_other(self.0, 8, state.is_set(), 1);
            lemma_bit_set_other(self.0, 8, state.is_set(), 3);
            lemma_bit_set_other(self.0, 8, state.is_set(), 5);
            lemma_bit_set_other(self.0, 8, state.is_set(), 15);
        }
        self.0 = set_bit(self.0, 8, state);
    }

    /// Sets or clears the Interrupt Enable Flag (bit 9).
    pub fn flag_if_mut(&mut self, state: State)
        ensures
            final(self)@ == with_bit(old(self)@, 9, state.is_set()),
    {
        proof {
            use_type_invariant(&*self);
            lemma_bit_set_field(self.0, 9, state.is_set(), 22, 42);
            lemma_bit_set_other(self.0, 9, state.is_set(), 1);
            lemma_bit_set_other(self.0, 9, state.is_set(), 3);
            lemma_bit_set_other(self.0, 9, state.is_set(), 5);
            lemma_bit_set_other(self.0, 9, state.is_set(), 15);
        }
        self.0 = set_bit(self.0, 9, state);
    }

    /// Sets or clears the Direction Flag (bit 10).
    pub fn flag_df_mut(&mut self, state: State)
        ensures
            final(self)@ == with_bit(old(self)@, 10, state.is_set()),
    {
        proof {
            use_type_invariant(&*self);
            lemma_bit_set_field(self.0, 10, state.is_set(), 22, 42);
            lemma_bit_set_other(self.0, 10, state.is_set(), 1);
            lemma_bit_set_other(self.0, 10, state.is_set(), 3);
            lemma_bit_set_other(self.0, 10, state.is_set(), 5);
            lemma_bit_set_other(self.0, 10, state.is_set(), 15);
        }
        self.0 = set_bit(self.0, 10, state);
    }

    /// Sets or clears the Overflow Flag (bit 11).
    pub fn flag_of_mut(&mut self, state: State)
        ensures
            final(self)@ == with_bit(old(self)@, 11, state.is_set()),
    {
        proof {
            use_type_invariant(&*self);
            lemma_bit_set_field(self.0, 11, state.is_set(), 22, 42);
            lemma_bit_set_other(self.0, 11, state.is_set(), 1);
            lemma_bit_set_other(self.0, 11, state.is_set(), 3);
            lemma_bit_set_other(self.0, 11, state.is_set(), 5);
            lemma_bit_set_other(self.0, 11, state.is_set(), 15);
        }
        self.0 = set_bit(self.0, 11, state);
    }

    /// Sets or clears the Nested Task flag (bit 14).
    pub fn flag_nt_mut(&mut self, state: State)
        ensures
            final(self)@ == with_bit(old(self)@, 14, state.is_set()),
    {
        proof {
            use_type_invariant(&*self);
            lemma_bit_set_field(self.0, 14, state.is_set(), 22, 42);
            lemma_bit_set_other(self.0, 14, state.is_set(), 1);
            lemma_bit_set_other(self.0, 14, state.is_set(), 3);
            lemma_bit_set_other(self.0, 14, state.is_set(), 5);
            lemma_bit_set_other(self.0, 14, state.is_set(), 15);
        }
        self.0 = set_bit(self.0, 14, state);
    }

    /// Sets or clears the Resume Flag (bit 16).
    pub fn flag_rf_mut(&mut self, state: State)
        ensures
            final(self)@ == with_bit(old(self)@, 16, state.is_set()),
    {
        proof {
            use_type_invariant(&*self);
            lemma_bit_set_field(self.0, 16, state.is_set(), 22, 42);
            lemma_bit_set_other(self.0, 16, state.is_set(), 1);
            lemma_bit_set_other(self.0, 16, state.is_set(), 3);
            lemma_bit_set_other(self.0, 16, state.is_set(), 5);
            lemma_bit_set_other(self.0, 16, state.is_set(), 15);
        }
        self.0 = set_bit(self.0, 16, state);
    }

    /// Sets or clears the Virtual-8086 Mode flag (bit 17).
    pub fn flag_vm_mut(&mut self, state: State)
        ensures
            final(self)@ == with_bit(old(self)@, 17, state.is_set()),
    {
        proof {
            use_type_invariant(&*self);
            lemma_bit_set_field(self.0, 17, state.is_set(), 22, 42);
            lemma_bit_set_other(self.0, 17, state.is_set(), 1);
            lemma_bit_set_other(self.0, 17, state.is_set(), 3);
            lemma_bit_set_other(self.0, 17, state.is_set(), 5);
            lemma_bit_set_other(self.0, 17, state.is_set(), 15);
        }
        self.0 = set_bit(self.0, 17, state);
    }

    /// Sets or clears the Alignment Check flag (bit 18).
    pub fn flag_ac_mut(&mut self, state: State)
        ensures
            final(self)@ == with_bit(old(self)@, 18, state.is_set()),
    {
        proof {
            use_type_invariant(&*self);
            lemma_bit_set_field(self.0, 18, state.is_set(), 22, 42);
            lemma_bit_set_other(self.0, 18, state.is_set(), 1);
            lemma_bit_set_other(self.0, 18, state.is_set(), 3);
            lemma_bit_set_other(self.0, 18, state.is_set(), 5);
            lemma_bit_set_other(self.0, 18, state.is_set(), 15);
        }
        self.0 = set_bit(self.0, 18, state);
    }

    /// Sets or clears the Virtual Interrupt Flag (bit 19).
    pub fn flag_vif_mut(&mut self, state: State)
        ensures
            final(self)@ == with_bit(old(self)@, 19, state.is_set()),
    {
        proof {
            use_type_invariant(&*self);
            lemma_bit_set_field(self.0, 19, state.is_set(), 22, 42);
            lemma_bit_set_other(self.0, 19, state.is_set(), 1);
            lemma_bit_set_other(self.0, 19, state.is_set(), 3);
            lemma_bit_set_other(self.0, 19, state.is_set(), 5);
            lemma_bit_set_other(self.0, 19, state.is_set(), 15);
        }
        self.0 = set_bit(self.0, 19, state);
    }

    /// Sets or clears the Virtual Interrupt Pending flag (bit 20).
    pub fn flag_vip_mut(&mut self, state: State)
        ensures
            final(self)@ == with_bit(old(self)@, 20, state.is_set()),
    {
        proof {
            use_type_invariant(&*self);
            lemma_bit_set_field(self.0, 20, state.is_set(), 22, 42);
            lemma_bit_set_other(self.0, 20, state.is_set(), 1);
            lemma_bit_set_other(self.0, 20, state.is_set(), 3);
            lemma_bit_set_other(self.0, 20, state.is_set(), 5);
            lemma_bit_set_other(self.0, 20, state.is_set(), 15);
        }
        self.0 = set_bit(self.0, 20, state);
    }

    /// Sets or clears the ID flag (bit 21).
    pub fn flag_id_mut(&mut self, state: State)
        ensures
            final(self)@ == with_bit(old(self)@, 21, state.is_set()),
    {
        proof {
            use_type_invariant(&*self);
            lemma_bit_set_field(self.0, 21, state.is_set(), 22, 42);
            lemma_bit_set_other(self.0, 21, state.is_set(), 1);
            lemma_bit_set_other(self.0, 21, state.is_set(), 3);
            lemma_bit_set_other(self.0, 21, state.is_set(), 5);
            lemma_bit_set_other(self.0, 21, state.is_set(), 15);
        }
        self.0 = set_bit(self.0, 21, state);
    }

    /// Writes the I/O privilege level (bits 13..12).
    pub fn field_iopl_mut(&mut self, value: u8)
        ensures
            final(self)@ == with_field(old(self)@, 12, 2, (value as u64)),
    {
        proof {
            use_type_invariant(&*self);
            lemma_get_set_other(self.0, 12, 2, value as u64, 22, 42);
            lemma_field_set_bit(self.0, 12, 2, value as u64, 1);
            lemma_field_set_bit(self.0, 12, 2, value as u64, 3);
            lemma_field_set_bit(self.0, 12, 2, value as u64, 5);
            lemma_field_set_bit(self.0, 12, 2, value as u64, 15);
        }
        self.0 = set_field(self.0, 12, 2, (value as u64));
    }
}

} // verus!
