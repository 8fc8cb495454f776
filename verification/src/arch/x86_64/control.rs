//! Structured x86-64 control-register representations.
//!
//! Each control register is stored as its exact integer image together with
//! named views of its architectural fields. The checked types keep their
//! reserved fields at their architectural values: safe mutation reaches only
//! the named software-controlled fields, and rebuilding a checked value from
//! a raw image requires the image to satisfy the same constraint.

use vstd::prelude::*;

use crate::arch::x86::msr::efer::LongModeEfer;
use crate::arch::x86_64::paging::address::{Pa, in_pa_envelope};
use crate::bits::{
    State, bit_of, field_of, get_bit, get_field, get_field_u16, get_field_u32, get_field_u8,
    lemma_bit_set_field, lemma_bit_set_other, lemma_get_set_other, set_bit, set_field, with_bit,
    with_field,
};

verus! {

/// Whether a CR0 image keeps its fixed and reserved fields: ET (bit 4) set,
/// bits 15..6, 17, 28..19 and 63..32 clear.
pub open spec fn cr0_image_valid(v: u64) -> bool {
    &&& bit_of(v, 4)
    &&& field_of(v, 6, 10) == 0
    &&& !bit_of(v, 17)
    &&& field_of(v, 19, 10) == 0
    &&& field_of(v, 32, 32) == 0
}

/// Whether a CR3 image keeps bits 60..52 clear.
pub open spec fn cr3_image_valid(v: u64) -> bool {
    field_of(v, 52, 9) == 0
}

/// Whether a CR4 image keeps bits 15, 26, 31..29 and 63..33 clear.
pub open spec fn cr4_image_valid(v: u64) -> bool {
    &&& !bit_of(v, 15)
    &&& !bit_of(v, 26)
    &&& field_of(v, 29, 3) == 0
    &&& field_of(v, 33, 31) == 0
}

/// Whether a CR8 image keeps bits 63..4 clear.
pub open spec fn cr8_image_valid(v: u64) -> bool {
    field_of(v, 4, 60) == 0
}

/// The reset images of CR0 (ET, NW and CD set) and CR4 satisfy their
/// constraints.
pub proof fn lemma_reset_images_valid()
    ensures
        cr0_image_valid(0x6000_0010),
        cr4_image_valid(0),
        cr8_image_valid(0),
{
    assert(((0x6000_0010u64 >> 4u64) & 1u64) == 1u64 && ((0x6000_0010u64 >> 6u64) & !(u64::MAX
        << 10u64)) == 0 && ((0x6000_0010u64 >> 17u64) & 1u64) != 1u64 && ((0x6000_0010u64 >> 19u64)
        & !(u64::MAX << 10u64)) == 0 && ((0x6000_0010u64 >> 32u64) & !(u64::MAX << 32u64)) == 0
        && ((0u64 >> 15u64) & 1u64) != 1u64 && ((0u64 >> 26u64) & 1u64) != 1u64 && ((0u64 >> 29u64)
        & !(u64::MAX << 3u64)) == 0 && ((0u64 >> 33u64) & !(u64::MAX << 31u64)) == 0 && ((0u64
        >> 4u64) & !(u64::MAX << 60u64)) == 0) by (bit_vector);
}

/// A checked CR0 value.
#[derive(Debug, Clone, Copy, PartialEq, Eq, PartialOrd, Ord, Hash)]
pub struct Cr0(u64);

impl View for Cr0 {
    type V = u64;

    closed spec fn view(&self) -> u64 {
        self.0
    }
}

/// A raw CR0 image used to carry a checked value through saved state.
#[derive(Debug, Clone, Copy, PartialEq, Eq, PartialOrd, Ord, Hash)]
pub struct RawCr0(pub u64);

impl RawCr0 {
    /// Erases a checked CR0 into its image.
    pub fn take(value: Cr0) -> (r: Self)
        ensures
            r.0 == value@,
            cr0_image_valid(r.0),
    {
        proof {
            use_type_invariant(value);
        }
        Self(value.0)
    }

    /// Rebuilds a checked CR0 from an image that keeps the CR0 constraints.
    pub fn restore(self) -> (r: Cr0)
        requires
            cr0_image_valid(self.0),
        ensures
            r@ == self.0,
    {
        Cr0(self.0)
    }
}

impl Cr0 {
    #[verifier::type_invariant]
    spec fn reserved_fields_kept(self) -> bool {
        cr0_image_valid(self.0)
    }

    /// The architectural reset value: ET, NW and CD set.
    #[allow(non_snake_case)]
    pub fn RESET() -> (r: Self)
        ensures
            r@ == 0x6000_0010,
    {
        proof {
            lemma_reset_images_valid();
        }
        Self(0x6000_0010)
    }

    /// Reads the Protection Enable flag.
    pub fn flag_pe(&self) -> (r: State)
        ensures
            r == State::of(bit_of(self@, 0)),
    {
        get_bit(self.0, 0)
    }

    /// Sets or clears the Protection Enable flag.
    pub fn flag_pe_mut(&mut self, state: State)
        ensures
            final(self)@ == with_bit(old(self)@, 0, state.is_set()),
    {
        proof {
            use_type_invariant(&*self);
            lemma_bit_set_field(self.0, 0, state.is_set(), 6, 10);
            lemma_bit_set_field(self.0, 0, state.is_set(), 19, 10);
            lemma_bit_set_field(self.0, 0, state.is_set(), 32, 32);
            lemma_bit_set_other(self.0, 0, state.is_set(), 4);
            lemma_bit_set_other(self.0, 0, state.is_set(), 17);
        }
        self.0 = set_bit(self.0, 0, state);
    }

    /// Reads the Monitor Coprocessor flag.
    pub fn flag_mp(&self) -> (r: State)
        ensures
            r == State::of(bit_of(self@, 1)),
    {
        get_bit(self.0, 1)
    }

    /// Sets or clears the Monitor Coprocessor flag.
    pub fn flag_mp_mut(&mut self, state: State)
        ensures
            final(self)@ == with_bit(old(self)@, 1, state.is_set()),
    {
        proof {
            use_type_invariant(&*self);
            lemma_bit_set_field(self.0, 1, state.is_set(), 6, 10);
            lemma_bit_set_field(self.0, 1, state.is_set(), 19, 10);
            lemma_bit_set_field(self.0, 1, state.is_set(), 32, 32);
            lemma_bit_set_other(self.0, 1, state.is_set(), 4);
            lemma_bit_set_other(self.0, 1, state.is_set(), 17);
        }
        self.0 = set_bit(self.0, 1, state);
    }

    /// Reads the Emulation flag.
    pub fn flag_em(&self) -> (r: State)
        ensures
            r == State::of(bit_of(self@, 2)),
    {
        get_bit(self.0, 2)
    }

    /// Sets or clears the Emulation flag.
    pub fn flag_em_mut(&mut self, state: State)
        ensures
            final(self)@ == with_bit(old(self)@, 2, state.is_set()),
    {
        proof {
            use_type_invariant(&*self);
            lemma_bit_set_field(self.0, 2, state.is_set(), 6, 10);
            lemma_bit_set_field(self.0, 2, state.is_set(), 19, 10);
            lemma_bit_set_field(self.0, 2, state.is_set(), 32, 32);
            lemma_bit_set_other(self.0, 2, state.is_set(), 4);
            lemma_bit_set_other(self.0, 2, state.is_set(), 17);
        }
        self.0 = set_bit(self.0, 2, state);
    }

    /// Reads the Task Switched flag.
    pub fn flag_ts(&self) -> (r: State)
        ensures
            r == State::of(bit_of(self@, 3)),
    {
        get_bit(self.0, 3)
    }

    /// Sets or clears the Task Switched flag.
    pub fn flag_ts_mut(&mut self, state: State)
        ensures
            final(self)@ == with_bit(old(self)@, 3, state.is_set()),
    {
        proof {
            use_type_invariant(&*self);
            lemma_bit_set_field(self.0, 3, state.is_set(), 6, 10);
            lemma_bit_set_field(self.0, 3, state.is_set(), 19, 10);
            lemma_bit_set_field(self.0, 3, state.is_set(), 32, 32);
            lemma_bit_set_other(self.0, 3, state.is_set(), 4);
            lemma_bit_set_other(self.0, 3, state.is_set(), 17);
        }
        self.0 = set_bit(self.0, 3, state);
    }

    /// Reads the fixed Extension Type flag.
    pub fn flag_et(&self) -> (r: State)
        ensures
            r == State::of(bit_of(self@, 4)),
    {
        get_bit(self.0, 4)
    }

    /// Reads the Numeric Error flag.
    pub fn flag_ne(&self) -> (r: State)
        ensures
            r == State::of(bit_of(self@, 5)),
    {
        get_bit(self.0, 5)
    }

    /// Sets or clears the Numeric Error flag.
    pub fn flag_ne_mut(&mut self, state: State)
        ensures
            final(self)@ == with_bit(old(self)@, 5, state.is_set()),
    {
        proof {
            use_type_invariant(&*self);
            lemma_bit_set_field(self.0, 5, state.is_set(), 6, 10);
            lemma_bit_set_field(self.0, 5, state.is_set(), 19, 10);
            lemma_bit_set_field(self.0, 5, state.is_set(), 32, 32);
            lemma_bit_set_other(self.0, 5, state.is_set(), 4);
            lemma_bit_set_other(self.0, 5, state.is_set(), 17);
        }
        self.0 = set_bit(self.0, 5, state);
    }

    /// Reads the Write Protect flag.
    pub fn flag_wp(&self) -> (r: State)
        ensures
            r == State::of(bit_of(self@, 16)),
    {
        get_bit(self.0, 16)
    }

    /// Sets or clears the Write Protect flag.
    pub fn flag_wp_mut(&mut self, state: State)
        ensures
            final(self)@ == with_bit(old(self)@, 16, state.is_set()),
    {
        proof {
            use_type_invariant(&*self);
            lemma_bit_set_field(self.0, 16, state.is_set(), 6, 10);
            lemma_bit_set_field(self.0, 16, state.is_set(), 19, 10);
            lemma_bit_set_field(self.0, 16, state.is_set(), 32, 32);
            lemma_bit_set_other(self.0, 16, state.is_set(), 4);
            lemma_bit_set_other(self.0, 16, state.is_set(), 17);
        }
        self.0 = set_bit(self.0, 16, state);
    }

    /// Reads reserved bit 17.
    pub fn flag_reserved17(&self) -> (r: State)
        ensures
            r == State::of(bit_of(self@, 17)),
    {
        get_bit(self.0, 17)
    }

    /// Reads the Alignment Mask flag.
    pub fn flag_am(&self) -> (r: State)
        ensures
            r == State::of(bit_of(self@, 18)),
    {
        get_bit(self.0, 18)
    }

    /// Sets or clears the Alignment Mask flag.
    pub fn flag_am_mut(&mut self, state: State)
        ensures
            final(self)@ == with_bit(old(self)@, 18, state.is_set()),
    {
        proof {
            use_type_invariant(&*self);
            lemma_bit_set_field(self.0, 18, state.is_set(), 6, 10);
            lemma_bit_set_field(self.0, 18, state.is_set(), 19, 10);
            lemma_bit_set_field(self.0, 18, state.is_set(), 32, 32);
            lemma_bit_set_other(self.0, 18, state.is_set(), 4);
            lemma_bit_set_other(self.0, 18, state.is_set(), 17);
        }
        self.0 = set_bit(self.0, 18, state);
    }

    /// Reads the Not Write-through flag.
    pub fn flag_nw(&self) -> (r: State)
        ensures
            r == State::of(bit_of(self@, 29)),
    {
        get_bit(self.0, 29)
    }

    /// Sets or clears the Not Write-through flag.
    pub fn flag_nw_mut(&mut self, state: State)
        ensures
            final(self)@ == with_bit(old(self)@, 29, state.is_set()),
    {
        proof {
            use_type_invariant(&*self);
            lemma_bit_set_field(self.0, 29, state.is_set(), 6, 10);
            lemma_bit_set_field(self.0, 29, state.is_set(), 19, 10);
            lemma_bit_set_field(self.0, 29, state.is_set(), 32, 32);
            lemma_bit_set_other(self.0, 29, state.is_set(), 4);
            lemma_bit_set_other(self.0, 29, state.is_set(), 17);
        }
        self.0 = set_bit(self.0, 29, state);
    }

    /// Reads the Cache Disable flag.
    pub fn flag_cd(&self) -> (r: State)
        ensures
            r == State::of(bit_of(self@, 30)),
    {
        get_bit(self.0, 30)
    }

    /// Sets or clears the Cache Disable flag.
    pub fn flag_cd_mut(&mut self, state: State)
        ensures
            final(self)@ == with_bit(old(self)@, 30, state.is_set()),
    {
        proof {
            use_type_invariant(&*self);
            lemma_bit_set_field(self.0, 30, state.is_set(), 6, 10);
            lemma_bit_set_field(self.0, 30, state.is_set(), 19, 10);
            lemma_bit_set_field(self.0, 30, state.is_set(), 32, 32);
            lemma_bit_set_other(self.0, 30, state.is_set(), 4);
            lemma_bit_set_other(self.0, 30, state.is_set(), 17);
        }
        self.0 = set_bit(self.0, 30, state);
    }

    /// Reads the Paging flag.
    pub fn flag_pg(&self) -> (r: State)
        ensures
            r == State::of(bit_of(self@, 31)),
    {
        get_bit(self.0, 31)
    }

    /// Sets or clears the Paging flag.
    pub fn flag_pg_mut(&mut self, state: State)
        ensures
            final(self)@ == with_bit(old(self)@, 31, state.is_set()),
    {
        proof {
            use_type_invariant(&*self);
            lemma_bit_set_field(self.0, 31, state.is_set(), 6, 10);
            lemma_bit_set_field(self.0, 31, state.is_set(), 19, 10);
            lemma_bit_set_field(self.0, 31, state.is_set(), 32, 32);
            lemma_bit_set_other(self.0, 31, state.is_set(), 4);
            lemma_bit_set_other(self.0, 31, state.is_set(), 17);
        }
        self.0 = set_bit(self.0, 31, state);
    }

    /// Reads the reserved bits 15..6.
    pub fn reserved_6_15(&self) -> (r: u16)
        ensures
            r == field_of(self@, 6, 10),
    {
        get_field_u16(self.0, 6, 10)
    }

    /// Reads the reserved bits 28..19.
    pub fn reserved_19_28(&self) -> (r: u16)
        ensures
            r == field_of(self@, 19, 10),
    {
        get_field_u16(self.0, 19, 10)
    }

    /// Reads the reserved bits 63..32.
    pub fn reserved_32_63(&self) -> (r: u32)
        ensures
            r == field_of(self@, 32, 32),
    {
        get_field_u32(self.0, 32, 32)
    }
}

/// A checked CR3 value: the root paging structure and its controls.
#[derive(Debug, Clone, Copy, PartialEq, Eq, PartialOrd, Ord, Hash)]
pub struct Cr3(u64);

impl View for Cr3 {
    type V = u64;

    closed spec fn view(&self) -> u64 {
        self.0
    }
}

/// A raw CR3 image used to carry a checked value through saved state.
#[derive(Debug, Clone, Copy, PartialEq, Eq, PartialOrd, Ord, Hash)]
pub struct RawCr3(pub u64);

impl RawCr3 {
    /// Erases a checked CR3 into its image.
    pub fn take(value: Cr3) -> (r: Self)
        ensures
            r.0 == value@,
            cr3_image_valid(r.0),
    {
        proof {
            use_type_invariant(value);
        }
        Self(value.0)
    }

    /// Rebuilds a checked CR3 from an image that keeps the CR3 constraints.
    pub fn restore(self) -> (r: Cr3)
        requires
            cr3_image_valid(self.0),
        ensures
            r@ == self.0,
    {
        Cr3(self.0)
    }
}

/// Placing the frame number of a 4 KiB-aligned physical address in bits
/// 51..12 of an otherwise zero image reproduces the address.
pub proof fn lemma_root_image(v: u64)
    requires
        field_of(v, 0, 12) == 0,
        in_pa_envelope(v),
    ensures
        with_field(0, 12, 40, field_of(v, 12, 40)) == v,
        cr3_image_valid(v),
{
    assert(((0u64 & !(!(u64::MAX << 40u64) << 12u64)) | ((((v >> 12u64) & !(u64::MAX << 40u64))
        & !(u64::MAX << 40u64)) << 12u64)) == v && ((v >> 52u64) & !(u64::MAX << 9u64)) == 0)
        by (bit_vector)
        requires
            ((v >> 0u64) & !(u64::MAX << 12u64)) == 0,
            ((v >> 52u64) & !(u64::MAX << 12u64)) == 0,
    ;
}

impl Cr3 {
    #[verifier::type_invariant]
    spec fn reserved_fields_kept(self) -> bool {
        cr3_image_valid(self.0)
    }

    /// Creates a CR3 that roots translation at a 4 KiB-aligned table, with
    /// every control clear: the image is the table address itself.
    pub fn root_table(address: Pa) -> (r: Option<Self>)
        ensures
            r is Some <==> field_of(address@, 0, 12) == 0,
            r matches Some(c) ==> c@ == address@,
    {
        if address.offset_4kib() == 0 {
            let bits = address.bits();
            let frame = address.frame_4kib();
            let value = set_field(0, 12, 40, frame);
            proof {
                lemma_root_image(bits);
            }
            Some(Self(value))
        } else {
            None
        }
    }

    /// Reads the process-context identifier (bits 11..0).
    pub fn pcid(&self) -> (r: u16)
        ensures
            r == field_of(self@, 0, 12),
    {
        get_field_u16(self.0, 0, 12)
    }

    /// Writes the process-context identifier (bits 11..0).
    pub fn pcid_mut(&mut self, value: u16)
        ensures
            final(self)@ == with_field(old(self)@, 0, 12, (value as u64)),
    {
        proof {
            use_type_invariant(&*self);
            lemma_get_set_other(self.0, 0, 12, value as u64, 52, 9);
        }
        self.0 = set_field(self.0, 0, 12, (value as u64));
    }

    /// Reads bits 2..0, reserved when PCIDs are disabled.
    pub fn reserved_0_2(&self) -> (r: u8)
        ensures
            r == field_of(self@, 0, 3),
    {
        get_field_u8(self.0, 0, 3)
    }

    /// Reads the page-level write-through flag.
    pub fn flag_write_through(&self) -> (r: State)
        ensures
            r == State::of(bit_of(self@, 3)),
    {
        get_bit(self.0, 3)
    }

    /// Sets or clears the page-level write-through flag.
    pub fn flag_write_through_mut(&mut self, state: State)
        ensures
            final(self)@ == with_bit(old(self)@, 3, state.is_set()),
    {
        proof {
            use_type_invariant(&*self);
            lemma_bit_set_field(self.0, 3, state.is_set(), 52, 9);
        }
        self.0 = set_bit(self.0, 3, state);
    }

    /// Reads the page-level cache-disable flag.
    pub fn flag_cache_disable(&self) -> (r: State)
        ensures
            r == State::of(bit_of(self@, 4)),
    {
        get_bit(self.0, 4)
    }

    /// Sets or clears the page-level cache-disable flag.
    pub fn flag_cache_disable_mut(&mut self, state: State)
        ensures
            final(self)@ == with_bit(old(self)@, 4, state.is_set()),
    {
        proof {
            use_type_invariant(&*self);
            lemma_bit_set_field(self.0, 4, state.is_set(), 52, 9);
        }
        self.0 = set_bit(self.0, 4, state);
    }

    /// Reads bits 11..5, reserved when PCIDs are disabled.
    pub fn reserved_5_11(&self) -> (r: u8)
        ensures
            r == field_of(self@, 5, 7),
    {
        get_field_u8(self.0, 5, 7)
    }

    /// Reads the frame number of the root table (bits 51..12).
    pub fn root(&self) -> (r: u64)
        ensures
            r == field_of(self@, 12, 40),
    {
        get_field(self.0, 12, 40)
    }

    /// Reads the reserved bits 60..52.
    pub fn reserved_52_60(&self) -> (r: u16)
        ensures
            r == field_of(self@, 52, 9),
    {
        get_field_u16(self.0, 52, 9)
    }

    /// Reads the LAM57 user-pointer flag.
    pub fn flag_lam_u57(&self) -> (r: State)
        ensures
            r == State::of(bit_of(self@, 61)),
    {
        get_bit(self.0, 61)
    }

    /// Sets or clears the LAM57 user-pointer flag.
    pub fn flag_lam_u57_mut(&mut self, state: State)
        ensures
            final(self)@ == with_bit(old(self)@, 61, state.is_set()),
    {
        proof {
            use_type_invariant(&*self);
            lemma_bit_set_field(self.0, 61, state.is_set(), 52, 9);
        }
        self.0 = set_bit(self.0, 61, state);
    }

    /// Reads the LAM48 user-pointer flag.
    pub fn flag_lam_u48(&self) -> (r: State)
        ensures
            r == State::of(bit_of(self@, 62)),
    {
        get_bit(self.0, 62)
    }

    /// Sets or clears the LAM48 user-pointer flag.
    pub fn flag_lam_u48_mut(&mut self, state: State)
        ensures
            final(self)@ == with_bit(old(self)@, 62, state.is_set()),
    {
        proof {
            use_type_invariant(&*self);
            lemma_bit_set_field(self.0, 62, state.is_set(), 52, 9);
        }
        self.0 = set_bit(self.0, 62, state);
    }

    /// Reads the no-flush flag.
    pub fn flag_no_flush(&self) -> (r: State)
        ensures
            r == State::of(bit_of(self@, 63)),
    {
        get_bit(self.0, 63)
    }

    /// Sets or clears the no-flush flag.
    pub fn flag_no_flush_mut(&mut self, state: State)
        ensures
            final(self)@ == with_bit(old(self)@, 63, state.is_set()),
    {
        proof {
            use_type_invariant(&*self);
            lemma_bit_set_field(self.0, 63, state.is_set(), 52, 9);
        }
        self.0 = set_bit(self.0, 63, state);
    }
}

/// The CR2 page-fault linear address.
#[derive(Debug, Clone, Copy, PartialEq, Eq, PartialOrd, Ord, Hash)]
pub struct Cr2(u64);

impl View for Cr2 {
    type V = u64;

    closed spec fn view(&self) -> u64 {
        self.0
    }
}

/// A raw CR2 image.
#[derive(Debug, Clone, Copy, PartialEq, Eq, PartialOrd, Ord, Hash)]
pub struct RawCr2(pub u64);

impl RawCr2 {
    /// Erases a CR2 value into its image.
    pub fn take(value: Cr2) -> (r: Self)
        ensures
            r.0 == value@,
    {
        Self(value.0)
    }

    /// Rebuilds a CR2 value; every image is valid.
    pub fn restore(self) -> (r: Cr2)
        ensures
            r@ == self.0,
    {
        Cr2(self.0)
    }
}

impl Cr2 {
    /// Reads the faulting linear address: the complete image.
    pub fn linear_address(&self) -> (r: u64)
        ensures
            r == self@,
    {
        self.0
    }
}

/// A checked CR8 value: only the task-priority class is writable.
#[derive(Debug, Clone, Copy, PartialEq, Eq, PartialOrd, Ord, Hash)]
pub struct Cr8(u64);

impl View for Cr8 {
    type V = u64;

    closed spec fn view(&self) -> u64 {
        self.0
    }
}

/// A raw CR8 image used to carry a checked value through saved state.
#[derive(Debug, Clone, Copy, PartialEq, Eq, PartialOrd, Ord, Hash)]
pub struct RawCr8(pub u64);

impl RawCr8 {
    /// Erases a checked CR8 into its image.
    pub fn take(value: Cr8) -> (r: Self)
        ensures
            r.0 == value@,
            cr8_image_valid(r.0),
    {
        proof {
            use_type_invariant(value);
        }
        Self(value.0)
    }

    /// Rebuilds a checked CR8 from an image whose reserved bits are clear.
    pub fn restore(self) -> (r: Cr8)
        requires
            cr8_image_valid(self.0),
        ensures
            r@ == self.0,
    {
        Cr8(self.0)
    }
}

impl Cr8 {
    #[verifier::type_invariant]
    spec fn reserved_fields_kept(self) -> bool {
        cr8_image_valid(self.0)
    }

    /// The reset value: task-priority class zero.
    #[allow(non_snake_case)]
    pub fn RESET() -> (r: Self)
        ensures
            r@ == 0,
    {
        proof {
            lemma_reset_images_valid();
        }
        Self(0)
    }

    /// Reads the task-priority class (bits 3..0).
    pub fn task_priority(&self) -> (r: u8)
        ensures
            r == field_of(self@, 0, 4),
    {
        get_field_u8(self.0, 0, 4)
    }

    /// Writes the task-priority class (bits 3..0).
    pub fn task_priority_mut(&mut self, value: u8)
        ensures
            final(self)@ == with_field(old(self)@, 0, 4, (value as u64)),
    {
        proof {
            use_type_invariant(&*self);
            lemma_get_set_other(self.0, 0, 4, value as u64, 4, 60);
        }
        self.0 = set_field(self.0, 0, 4, (value as u64));
    }

    /// Reads the reserved bits 63..4.
    pub fn reserved_4_63(&self) -> (r: u64)
        ensures
            r == field_of(self@, 4, 60),
    {
        get_field(self.0, 4, 60)
    }
}

/// Whether control-register images describe active long mode: CR0 has PE
/// and PG set and CR4 has PAE set.
pub open spec fn long_mode_controls(cr0: u64, cr4: u64) -> bool {
    bit_of(cr0, 0) && bit_of(cr0, 31) && bit_of(cr4, 5)
}

/// A consistent long-mode control-register set: protection and paging on,
/// PAE on, a checked CR3 root and an active long-mode EFER.
#[derive(Debug, Clone, Copy, PartialEq, Eq, PartialOrd, Ord, Hash)]
pub struct LongModeControl {
    /// Control register zero.
    cr0: Cr0,
    /// The paging root.
    cr3: Cr3,
    /// Control register four.
    cr4: Cr4,
    /// The active long-mode EFER.
    efer: LongModeEfer,
}

impl View for LongModeControl {
    type V = (u64, u64, u64, u64);

    closed spec fn view(&self) -> (u64, u64, u64, u64) {
        (self.cr0@, self.cr3@, self.cr4@, self.efer@)
    }
}

impl LongModeControl {
    #[verifier::type_invariant]
    spec fn long_mode(self) -> bool {
        long_mode_controls(self.cr0@, self.cr4@)
    }

    /// Accepts the control registers only when they describe active long
    /// mode.
    pub fn new(cr0: Cr0, cr3: Cr3, cr4: Cr4, efer: LongModeEfer) -> (r: Option<Self>)
        ensures
            r is Some <==> long_mode_controls(cr0@, cr4@),
            r matches Some(c) ==> c@ == (cr0@, cr3@, cr4@, efer@),
    {
        let protection_enabled = cr0.flag_pe().set();
        let paging_enabled = cr0.flag_pg().set();
        let pae_enabled = cr4.flag_pae().set();
        if protection_enabled && paging_enabled && pae_enabled {
            Some(LongModeControl { cr0, cr3, cr4, efer })
        } else {
            None
        }
    }

    /// Returns CR0, which has PE and PG set.
    pub fn cr0(self) -> (r: Cr0)
        ensures
            r@ == self@.0,
            bit_of(r@, 0) && bit_of(r@, 31),
    {
        proof {
            use_type_invariant(self);
        }
        self.cr0
    }

    /// Returns CR3.
    pub fn cr3(self) -> (r: Cr3)
        ensures
            r@ == self@.1,
    {
        self.cr3
    }

    /// Returns CR4, which has PAE set.
    pub fn cr4(self) -> (r: Cr4)
        ensures
            r@ == self@.2,
            bit_of(r@, 5),
    {
        proof {
            use_type_invariant(self);
        }
        self.cr4
    }

    /// Returns the active long-mode EFER.
    pub fn efer(self) -> (r: LongModeEfer)
        ensures
            r@ == self@.3,
    {
        self.efer
    }
}

/// A checked CR4 value.
#[derive(Debug, Clone, Copy, PartialEq, Eq, PartialOrd, Ord, Hash)]
pub struct Cr4(u64);

impl View for Cr4 {
    type V = u64;

    closed spec fn view(&self) -> u64 {
        self.0
    }
}

/// A raw CR4 image used to carry a checked value through saved state.
#[derive(Debug, Clone, Copy, PartialEq, Eq, PartialOrd, Ord, Hash)]
pub struct RawCr4(pub u64);

impl RawCr4 {
    /// Erases a checked CR4 into its image.
    pub fn take(value: Cr4) -> (r: Self)
        ensures
            r.0 == value@,
            cr4_image_valid(r.0),
    {
        proof {
            use_type_invariant(value);
        }
        Self(value.0)
    }

    /// Rebuilds a checked CR4 from an image whose reserved bits are clear.
    pub fn restore(self) -> (r: Cr4)
        requires
            cr4_image_valid(self.0),
        ensures
            r@ == self.0,
    {
        Cr4(self.0)
    }
}

impl Cr4 {
    #[verifier::type_invariant]
    spec fn reserved_fields_kept(self) -> bool {
        cr4_image_valid(self.0)
    }

    /// The reset value: every field clear.
    #[allow(non_snake_case)]
    pub fn RESET() -> (r: Self)
        ensures
            r@ == 0,
    {
        proof {
            lemma_reset_images_valid();
        }
        Self(0)
    }

    /// Reads the Virtual-8086 Mode Extensions flag (bit 0).
    pub fn flag_vme(&self) -> (r: State)
        ensures
            r == State::of(bit_of(self@, 0)),
    {
        get_bit(self.0, 0)
    }

    /// Sets or clears the Virtual-8086 Mode Extensions flag (bit 0).
    pub fn flag_vme_mut(&mut self, state: State)
        ensures
            final(self)@ == with_bit(old(self)@, 0, state.is_set()),
    {
        proof {
            use_type_invariant(&*self);
            lemma_bit_set_field(self.0, 0, state.is_set(), 29, 3);
            lemma_bit_set_field(self.0, 0, state.is_set(), 33, 31);
            lemma_bit_set_other(self.0, 0, state.is_set(), 15);
            lemma_bit_set_other(self.0, 0, state.is_set(), 26);
        }
        self.0 = set_bit(self.0, 0, state);
    }

    /// Reads the Protected-mode Virtual Interrupts flag (bit 1).
    pub fn flag_pvi(&self) -> (r: State)
        ensures
            r == State::of(bit_of(self@, 1)),
    {
        get_bit(self.0, 1)
    }

    /// Sets or clears the Protected-mode Virtual Interrupts flag (bit 1).
    pub fn flag_pvi_mut(&mut self, state: State)
        ensures
            final(self)@ == with_bit(old(self)@, 1, state.is_set()),
    {
        proof {
            use_type_invariant(&*self);
            lemma_bit_set_field(self.0, 1, state.is_set(), 29, 3);
            lemma_bit_set_field(self.0, 1, state.is_set(), 33, 31);
            lemma_bit_set_other(self.0, 1, state.is_set(), 15);
            lemma_bit_set_other(self.0, 1, state.is_set(), 26);
        }
        self.0 = set_bit(self.0, 1, state);
    }

    /// Reads the Time Stamp Disable flag (bit 2).
    pub fn flag_tsd(&self) -> (r: State)
        ensures
            r == State::of(bit_of(self@, 2)),
    {
        get_bit(self.0, 2)
    }

    /// Sets or clears the Time Stamp Disable flag (bit 2).
    pub fn flag_tsd_mut(&mut self, state: State)
        ensures
            final(self)@ == with_bit(old(self)@, 2, state.is_set()),
    {
        proof {
            use_type_invariant(&*self);
            lemma_bit_set_field(self.0, 2, state.is_set(), 29, 3);
            lemma_bit_set_field(self.0, 2, state.is_set(), 33, 31);
            lemma_bit_set_other(self.0, 2, state.is_set(), 15);
            lemma_bit_set_other(self.0, 2, state.is_set(), 26);
        }
        self.0 = set_bit(self.0, 2, state);
    }

    /// Reads the Debugging Extensions flag (bit 3).
    pub fn flag_de(&self) -> (r: State)
        ensures
            r == State::of(bit_of(self@, 3)),
    {
        get_bit(self.0, 3)
    }

    /// Sets or clears the Debugging Extensions flag (bit 3).
    pub fn flag_de_mut(&mut self, state: State)
        ensures
            final(self)@ == with_bit(old(self)@, 3, state.is_set()),
    {
        proof {
            use_type_invariant(&*self);
            lemma_bit_set_field(self.0, 3, state.is_set(), 29, 3);
            lemma_bit_set_field(self.0, 3, state.is_set(), 33, 31);
            lemma_bit_set_other(self.0, 3, state.is_set(), 15);
            lemma_bit_set_other(self.0, 3, state.is_set(), 26);
        }
        self.0 = set_bit(self.0, 3, state);
    }

    /// Reads the Page Size Extensions flag (bit 4).
    pub fn flag_pse(&self) -> (r: State)
        ensures
            r == State::of(bit_of(self@, 4)),
    {
        get_bit(self.0, 4)
    }

    /// Sets or clears the Page Size Extensions flag (bit 4).
    pub fn flag_pse_mut(&mut self, state: State)
        ensures
            final(self)@ == with_bit(old(self)@, 4, state.is_set()),
    {
        proof {
            use_type_invariant(&*self);
            lemma_bit_set_field(self.0, 4, state.is_set(), 29, 3);
            lemma_bit_set_field(self.0, 4, state.is_set(), 33, 31);
            lemma_bit_set_other(self.0, 4, state.is_set(), 15);
            lemma_bit_set_other(self.0, 4, state.is_set(), 26);
        }
        self.0 = set_bit(self.0, 4, state);
    }

    /// Reads the Physical Address Extension flag (bit 5).
    pub fn flag_pae(&self) -> (r: State)
        ensures
            r == State::of(bit_of(self@, 5)),
    {
        get_bit(self.0, 5)
    }

    /// Sets or clears the Physical Address Extension flag (bit 5).
    pub fn flag_pae_mut(&mut self, state: State)
        ensures
            final(self)@ == with_bit(old(self)@, 5, state.is_set()),
    {
        proof {
            use_type_invariant(&*self);
            lemma_bit_set_field(self.0, 5, state.is_set(), 29, 3);
            lemma_bit_set_field(self.0, 5, state.is_set(), 33, 31);
            lemma_bit_set_other(self.0, 5, state.is_set(), 15);
            lemma_bit_set_other(self.0, 5, state.is_set(), 26);
        }
        self.0 = set_bit(self.0, 5, state);
    }

    /// Reads the Machine-Check Enable flag (bit 6).
    pub fn flag_mce(&self) -> (r: State)
        ensures
            r == State::of(bit_of(self@, 6)),
    {
        get_bit(self.0, 6)
    }

    /// Sets or clears the Machine-Check Enable flag (bit 6).
    pub fn flag_mce_mut(&mut self, state: State)
        ensures
            final(self)@ == with_bit(old(self)@, 6, state.is_set()),
    {
        proof {
            use_type_invariant(&*self);
            lemma_bit_set_field(self.0, 6, state.is_set(), 29, 3);
            lemma_bit_set_field(self.0, 6, state.is_set(), 33, 31);
            lemma_bit_set_other(self.0, 6, state.is_set(), 15);
            lemma_bit_set_other(self.0, 6, state.is_set(), 26);
        }
        self.0 = set_bit(self.0, 6, state);
    }

    /// Reads the Page Global Enable flag (bit 7).
    pub fn flag_pge(&self) -> (r: State)
        ensures
            r == State::of(bit_of(self@, 7)),
    {
        get_bit(self.0, 7)
    }

    /// Sets or clears the Page Global Enable flag (bit 7).
    pub fn flag_pge_mut(&mut self, state: State)
        ensures
            final(self)@ == with_bit(old(self)@, 7, state.is_set()),
    {
        proof {
            use_type_invariant(&*self);
            lemma_bit_set_field(self.0, 7, state.is_set(), 29, 3);
            lemma_bit_set_field(self.0, 7, state.is_set(), 33, 31);
            lemma_bit_set_other(self.0, 7, state.is_set(), 15);
            lemma_bit_set_other(self.0, 7, state.is_set(), 26);
        }
        self.0 = set_bit(self.0, 7, state);
    }

    /// Reads the Performance-Monitoring Counter Enable flag (bit 8).
    pub fn flag_pce(&self) -> (r: State)
        ensures
            r == State::of(bit_of(self@, 8)),
    {
        get_bit(self.0, 8)
    }

    /// Sets or clears the Performance-Monitoring Counter Enable flag (bit 8).
    pub fn flag_pce_mut(&mut self, state: State)
        ensures
            final(self)@ == with_bit(old(self)@, 8, state.is_set()),
    {
        proof {
            use_type_invariant(&*self);
            lemma_bit_set_field(self.0, 8, state.is_set(), 29, 3);
            lemma_bit_set_field(self.0, 8, state.is_set(), 33, 31);
            lemma_bit_set_other(self.0, 8, state.is_set(), 15);
            lemma_bit_set_other(self.0, 8, state.is_set(), 26);
        }
        self.0 = set_bit(self.0, 8, state);
    }

    /// Reads the OS support for FXSAVE and FXRSTOR flag (bit 9).
    pub fn flag_osfxsr(&self) -> (r: State)
        ensures
            r == State::of(bit_of(self@, 9)),
    {
        get_bit(self.0, 9)
    }

    /// Sets or clears the OS support for FXSAVE and FXRSTOR flag (bit 9).
    pub fn flag_osfxsr_mut(&mut self, state: State)
        ensures
            final(self)@ == with_bit(old(self)@, 9, state.is_set()),
    {
        proof {
            use_type_invariant(&*self);
            lemma_bit_set_field(self.0, 9, state.is_set(), 29, 3);
            lemma_bit_set_field(self.0, 9, state.is_set(), 33, 31);
            lemma_bit_set_other(self.0, 9, state.is_set(), 15);
            lemma_bit_set_other(self.0, 9, state.is_set(), 26);
        }
        self.0 = set_bit(self.0, 9, state);
    }

    /// Reads the OS support for unmasked SIMD exceptions flag (bit 10).
    pub fn flag_osxmmexcpt(&self) -> (r: State)
        ensures
            r == State::of(bit_of(self@, 10)),
    {
        get_bit(self.0, 10)
    }

    /// Sets or clears the OS support for unmasked SIMD exceptions flag (bit 10).
    pub fn flag_osxmmexcpt_mut(&mut self, state: State)
        ensures
            final(self)@ == with_bit(old(self)@, 10, state.is_set()),
    {
        proof {
            use_type_invariant(&*self);
            lemma_bit_set_field(self.0, 10, state.is_set(), 29, 3);
            lemma_bit_set_field(self.0, 10, state.is_set(), 33, 31);
            lemma_bit_set_other(self.0, 10, state.is_set(), 15);
            lemma_bit_set_other(self.0, 10, state.is_set(), 26);
        }
        self.0 = set_bit(self.0, 10, state);
    }

    /// Reads the User-Mode Instruction Prevention flag (bit 11).
    pub fn flag_umip(&self) -> (r: State)
        ensures
            r == State::of(bit_of(self@, 11)),
    {
        get_bit(self.0, 11)
    }

    /// Sets or clears the User-Mode Instruction Prevention flag (bit 11).
    pub fn flag_umip_mut(&mut self, state: State)
        ensures
            final(self)@ == with_bit(old(self)@, 11, state.is_set()),
    {
        proof {
            use_type_invariant(&*self);
            lemma_bit_set_field(self.0, 11, state.is_set(), 29, 3);
            lemma_bit_set_field(self.0, 11, state.is_set(), 33, 31);
            lemma_bit_set_other(self.0, 11, state.is_set(), 15);
            lemma_bit_set_other(self.0, 11, state.is_set(), 26);
        }
        self.0 = set_bit(self.0, 11, state);
    }

    /// Reads the 57-bit linear addresses flag (bit 12).
    pub fn flag_la57(&self) -> (r: State)
        ensures
            r == State::of(bit_of(self@, 12)),
    {
        get_bit(self.0, 12)
    }

    /// Sets or clears the 57-bit linear addresses flag (bit 12).
    pub fn flag_la57_mut(&mut self, state: State)
        ensures
            final(self)@ == with_bit(old(self)@, 12, state.is_set()),
    {
        proof {
            use_type_invariant(&*self);
            lemma_bit_set_field(self.0, 12, state.is_set(), 29, 3);
            lemma_bit_set_field(self.0, 12, state.is_set(), 33, 31);
            lemma_bit_set_other(self.0, 12, state.is_set(), 15);
            lemma_bit_set_other(self.0, 12, state.is_set(), 26);
        }
        self.0 = set_bit(self.0, 12, state);
    }

    /// Reads the VMX Enable flag (bit 13).
    pub fn flag_vmxe(&self) -> (r: State)
        ensures
            r == State::of(bit_of(self@, 13)),
    {
        get_bit(self.0, 13)
    }

    /// Sets or clears the VMX Enable flag (bit 13).
    pub fn flag_vmxe_mut(&mut self, state: State)
        ensures
            final(self)@ == with_bit(old(self)@, 13, state.is_set()),
    {
        proof {
            use_type_invariant(&*self);
            lemma_bit_set_field(self.0, 13, state.is_set(), 29, 3);
            lemma_bit_set_field(self.0, 13, state.is_set(), 33, 31);
            lemma_bit_set_other(self.0, 13, state.is_set(), 15);
            lemma_bit_set_other(self.0, 13, state.is_set(), 26);
        }
        self.0 = set_bit(self.0, 13, state);
    }

    /// Reads the SMX Enable flag (bit 14).
    pub fn flag_smxe(&self) -> (r: State)
        ensures
            r == State::of(bit_of(self@, 14)),
    {
        get_bit(self.0, 14)
    }

    /// Sets or clears the SMX Enable flag (bit 14).
    pub fn flag_smxe_mut(&mut self, state: State)
        ensures
            final(self)@ == with_bit(old(self)@, 14, state.is_set()),
    {
        proof {
            use_type_invariant(&*self);
            lemma_bit_set_field(self.0, 14, state.is_set(), 29, 3);
            lemma_bit_set_field(self.0, 14, state.is_set(), 33, 31);
            lemma_bit_set_other(self.0, 14, state.is_set(), 15);
            lemma_bit_set_other(self.0, 14, state.is_set(), 26);
        }
        self.0 = set_bit(self.0, 14, state);
    }

    /// Reads the FSGSBASE Enable flag (bit 16).
    pub fn flag_fsgsbase(&self) -> (r: State)
        ensures
            r == State::of(bit_of(self@, 16)),
    {
        get_bit(self.0, 16)
    }

    /// Sets or clears the FSGSBASE Enable flag (bit 16).
    pub fn flag_fsgsbase_mut(&mut self, state: State)
        ensures
            final(self)@ == with_bit(old(self)@, 16, state.is_set()),
    {
        proof {
            use_type_invariant(&*self);
            lemma_bit_set_field(self.0, 16, state.is_set(), 29, 3);
            lemma_bit_set_field(self.0, 16, state.is_set(), 33, 31);
            lemma_bit_set_other(self.0, 16, state.is_set(), 15);
            lemma_bit_set_other(self.0, 16, state.is_set(), 26);
        }
        self.0 = set_bit(self.0, 16, state);
    }

    /// Reads the PCID Enable flag (bit 17).
    pub fn flag_pcide(&self) -> (r: State)
        ensures
            r == State::of(bit_of(self@, 17)),
    {
        get_bit(self.0, 17)
    }

    /// Sets or clears the PCID Enable flag (bit 17).
    pub fn flag_pcide_mut(&mut self, state: State)
        ensures
            final(self)@ == with_bit(old(self)@, 17, state.is_set()),
    {
        proof {
            use_type_invariant(&*self);
            lemma_bit_set_field(self.0, 17, state.is_set(), 29, 3);
            lemma_bit_set_field(self.0, 17, state.is_set(), 33, 31);
            lemma_bit_set_other(self.0, 17, state.is_set(), 15);
            lemma_bit_set_other(self.0, 17, state.is_set(), 26);
        }
        self.0 = set_bit(self.0, 17, state);
    }

    /// Reads the XSAVE and processor extended states enable flag (bit 18).
    pub fn flag_osxsave(&self) -> (r: State)
        ensures
            r == State::of(bit_of(self@, 18)),
    {
        get_bit(self.0, 18)
    }

    /// Sets or clears the XSAVE and processor extended states enable flag (bit 18).
    pub fn flag_osxsave_mut(&mut self, state: State)
        ensures
            final(self)@ == with_bit(old(self)@, 18, state.is_set()),
    {
        proof {
            use_type_invariant(&*self);
            lemma_bit_set_field(self.0, 18, state.is_set(), 29, 3);
            lemma_bit_set_field(self.0, 18, state.is_set(), 33, 31);
            lemma_bit_set_other(self.0, 18, state.is_set(), 15);
            lemma_bit_set_other(self.0, 18, state.is_set(), 26);
        }
        self.0 = set_bit(self.0, 18, state);
    }

    /// Reads the Key Locker Enable flag (bit 19).
    pub fn flag_kl(&self) -> (r: State)
        ensures
            r == State::of(bit_of(self@, 19)),
    {
        get_bit(self.0, 19)
    }

    /// Sets or clears the Key Locker Enable flag (bit 19).
    pub fn flag_kl_mut(&mut self, state: State)
        ensures
            final(self)@ == with_bit(old(self)@, 19, state.is_set()),
    {
        proof {
            use_type_invariant(&*self);
            lemma_bit_set_field(self.0, 19, state.is_set(), 29, 3);
            lemma_bit_set_field(self.0, 19, state.is_set(), 33, 31);
            lemma_bit_set_other(self.0, 19, state.is_set(), 15);
            lemma_bit_set_other(self.0, 19, state.is_set(), 26);
        }
        self.0 = set_bit(self.0, 19, state);
    }

    /// Reads the Supervisor Mode Execution Prevention flag (bit 20).
    pub fn flag_smep(&self) -> (r: State)
        ensures
            r == State::of(bit_of(self@, 20)),
    {
        get_bit(self.0, 20)
    }

    /// Sets or clears the Supervisor Mode Execution Prevention flag (bit 20).
    pub fn flag_smep_mut(&mut self, state: State)
        ensures
            final(self)@ == with_bit(old(self)@, 20, state.is_set()),
    {
        proof {
            use_type_invariant(&*self);
            lemma_bit_set_field(self.0, 20, state.is_set(), 29, 3);
            lemma_bit_set_field(self.0, 20, state.is_set(), 33, 31);
            lemma_bit_set_other(self.0, 20, state.is_set(), 15);
            lemma_bit_set_other(self.0, 20, state.is_set(), 26);
        }
        self.0 = set_bit(self.0, 20, state);
    }

    /// Reads the Supervisor Mode Access Prevention flag (bit 21).
    pub fn flag_smap(&self) -> (r: State)
        ensures
            r == State::of(bit_of(self@, 21)),
    {
        get_bit(self.0, 21)
    }

    /// Sets or clears the Supervisor Mode Access Prevention flag (bit 21).
    pub fn flag_smap_mut(&mut self, state: State)
        ensures
            final(self)@ == with_bit(old(self)@, 21, state.is_set()),
    {
        proof {
            use_type_invariant(&*self);
            lemma_bit_set_field(self.0, 21, state.is_set(), 29, 3);
            lemma_bit_set_field(self.0, 21, state.is_set(), 33, 31);
            lemma_bit_set_other(self.0, 21, state.is_set(), 15);
            lemma_bit_set_other(self.0, 21, state.is_set(), 26);
        }
        self.0 = set_bit(self.0, 21, state);
    }

    /// Reads the user Protection Keys Enable flag (bit 22).
    pub fn flag_pke(&self) -> (r: State)
        ensures
            r == State::of(bit_of(self@, 22)),
    {
        get_bit(self.0, 22)
    }

    /// Sets or clears the user Protection Keys Enable flag (bit 22).
    pub fn flag_pke_mut(&mut self, state: State)
        ensures
            final(self)@ == with_bit(old(self)@, 22, state.is_set()),
    {
        proof {
            use_type_invariant(&*self);
            lemma_bit_set_field(self.0, 22, state.is_set(), 29, 3);
            lemma_bit_set_field(self.0, 22, state.is_set(), 33, 31);
            lemma_bit_set_other(self.0, 22, state.is_set(), 15);
            lemma_bit_set_other(self.0, 22, state.is_set(), 26);
        }
        self.0 = set_bit(self.0, 22, state);
    }

    /// Reads the Control-flow Enforcement Technology flag (bit 23).
    pub fn flag_cet(&self) -> (r: State)
        ensures
            r == State::of(bit_of(self@, 23)),
    {
        get_bit(self.0, 23)
    }

    /// Sets or clears the Control-flow Enforcement Technology flag (bit 23).
    pub fn flag_cet_mut(&mut self, state: State)
        ensures
            final(self)@ == with_bit(old(self)@, 23, state.is_set()),
    {
        proof {
            use_type_invariant(&*self);
            lemma_bit_set_field(self.0, 23, state.is_set(), 29, 3);
            lemma_bit_set_field(self.0, 23, state.is_set(), 33, 31);
            lemma_bit_set_other(self.0, 23, state.is_set(), 15);
            lemma_bit_set_other(self.0, 23, state.is_set(), 26);
        }
        self.0 = set_bit(self.0, 23, state);
    }

    /// Reads the supervisor Protection Keys Enable flag (bit 24).
    pub fn flag_pks(&self) -> (r: State)
        ensures
            r == State::of(bit_of(self@, 24)),
    {
        get_bit(self.0, 24)
    }

    /// Sets or clears the supervisor Protection Keys Enable flag (bit 24).
    pub fn flag_pks_mut(&mut self, state: State)
        ensures
            final(self)@ == with_bit(old(self)@, 24, state.is_set()),
    {
        proof {
            use_type_invariant(&*self);
            lemma_bit_set_field(self.0, 24, state.is_set(), 29, 3);
            lemma_bit_set_field(self.0, 24, state.is_set(), 33, 31);
            lemma_bit_set_other(self.0, 24, state.is_set(), 15);
            lemma_bit_set_other(self.0, 24, state.is_set(), 26);
        }
        self.0 = set_bit(self.0, 24, state);
    }

    /// Reads the User Interrupts Enable flag (bit 25).
    pub fn flag_uintr(&self) -> (r: State)
        ensures
            r == State::of(bit_of(self@, 25)),
    {
        get_bit(self.0, 25)
    }

    /// Sets or clears the User Interrupts Enable flag (bit 25).
    pub fn flag_uintr_mut(&mut self, state: State)
        ensures
            final(self)@ == with_bit(old(self)@, 25, state.is_set()),
    {
        proof {
            use_type_invariant(&*self);
            lemma_bit_set_field(self.0, 25, state.is_set(), 29, 3);
            lemma_bit_set_field(self.0, 25, state.is_set(), 33, 31);
            lemma_bit_set_other(self.0, 25, state.is_set(), 15);
            lemma_bit_set_other(self.0, 25, state.is_set(), 26);
        }
        self.0 = set_bit(self.0, 25, state);
    }

    /// Reads the Linear Address Space Separation flag (bit 27).
    pub fn flag_lass(&self) -> (r: State)
        ensures
            r == State::of(bit_of(self@, 27)),
    {
        get_bit(self.0, 27)
    }

    /// Sets or clears the Linear Address Space Separation flag (bit 27).
    pub fn flag_lass_mut(&mut self, state: State)
        ensures
            final(self)@ == with_bit(old(self)@, 27, state.is_set()),
    {
        proof {
            use_type_invariant(&*self);
            lemma_bit_set_field(self.0, 27, state.is_set(), 29, 3);
            lemma_bit_set_field(self.0, 27, state.is_set(), 33, 31);
            lemma_bit_set_other(self.0, 27, state.is_set(), 15);
            lemma_bit_set_other(self.0, 27, state.is_set(), 26);
        }
        self.0 = set_bit(self.0, 27, state);
    }

    /// Reads the supervisor Linear Address Masking flag (bit 28).
    pub fn flag_lam_sup(&self) -> (r: State)
        ensures
            r == State::of(bit_of(self@, 28)),
    {
        get_bit(self.0, 28)
    }

    /// Sets or clears the supervisor Linear Address Masking flag (bit 28).
    pub fn flag_lam_sup_mut(&mut self, state: State)
        ensures
            final(self)@ == with_bit(old(self)@, 28, state.is_set()),
    {
        proof {
            use_type_invariant(&*self);
            lemma_bit_set_field(self.0, 28, state.is_set(), 29, 3);
            lemma_bit_set_field(self.0, 28, state.is_set(), 33, 31);
            lemma_bit_set_other(self.0, 28, state.is_set(), 15);
            lemma_bit_set_other(self.0, 28, state.is_set(), 26);
        }
        self.0 = set_bit(self.0, 28, state);
    }

    /// Reads the Flexible Return and Event Delivery flag (bit 32).
    pub fn flag_fred(&self) -> (r: State)
        ensures
            r == State::of(bit_of(self@, 32)),
    {
        get_bit(self.0, 32)
    }

    /// Sets or clears the Flexible Return and Event Delivery flag (bit 32).
    pub fn flag_fred_mut(&mut self, state: State)
        ensures
            final(self)@ == with_bit(old(self)@, 32, state.is_set()),
    {
        proof {
            use_type_invariant(&*self);
            lemma_bit_set_field(self.0, 32, state.is_set(), 29, 3);
            lemma_bit_set_field(self.0, 32, state.is_set(), 33, 31);
            lemma_bit_set_other(self.0, 32, state.is_set(), 15);
            lemma_bit_set_other(self.0, 32, state.is_set(), 26);
        }
        self.0 = set_bit(self.0, 32, state);
    }

    /// Reads the reserved bit 15.
    pub fn reserved_15(&self) -> (r: State)
        ensures
            r == State::of(bit_of(self@, 15)),
    {
        get_bit(self.0, 15)
    }

    /// Reads the reserved bit 26.
    pub fn reserved_26(&self) -> (r: State)
        ensures
            r == State::of(bit_of(self@, 26)),
    {
        get_bit(self.0, 26)
    }

    /// Reads the reserved bits 31..29.
    pub fn reserved_29_31(&self) -> (r: u8)
        ensures
            r == field_of(self@, 29, 3),
    {
        get_field_u8(self.0, 29, 3)
    }

    /// Reads the reserved bits 63..33.
    pub fn reserved_33_63(&self) -> (r: u32)
        ensures
            r == field_of(self@, 33, 31),
    {
        get_field_u32(self.0, 33, 31)
    }
}

} // verus!
