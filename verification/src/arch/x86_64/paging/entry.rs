//! Exact x86-64 paging-entry layouts.
//!
//! Each entry type holds one complete hardware slot of its level of the
//! paging hierarchy. Presence is bit zero; a non-present entry is still an
//! ordinary entry value and keeps its software-owned bits. Bits 0..5 mean the
//! same at every level; bits 7, 8 and 12 and the address field depend on
//! whether the entry points at a table or maps a page.
//!
//! The constructors build aligned table pointers and leaves; their contracts
//! give the exact image. The complete integer is not exposed other than as
//! the little-endian byte image that is written into paging memory.

use vstd::prelude::*;

use super::address::{Pa, in_pa_envelope};
use crate::bits::{
    State, bit_of, field_of, get_bit, get_field, get_field_u32, get_field_u8, set_bit, set_field,
    u64_le_bytes, with_bit, with_field,
};

verus! {

/// Filling the frame field that starts at bit `lo` of a base image with the
/// frame of an address aligned to `2^lo` gives the address with the base
/// bits added. The base image marks the entry present, and a large leaf also
/// has bit 7 (page size) set.
pub proof fn lemma_entry_image(v: u64, base: u64, lo: u64, reserved: u64)
    requires
        lo == 12 || lo == 21 || lo == 30,
        base == 1 || base == 0x81,
        lo == 12 || reserved + 13 == lo,
        field_of(v, 0, lo) == 0,
        in_pa_envelope(v),
    ensures
        with_field(base, lo, (52 - lo) as u64, field_of(v, lo, (52 - lo) as u64)) == v | base,
        field_of(v | base, lo, (52 - lo) as u64) == field_of(v, lo, (52 - lo) as u64),
        bit_of(v | base, 0),
        bit_of(v | base, 7) == (base == 0x81),
        lo == 12 || field_of(v | base, 13, reserved) == 0,
{
    let w = (52 - lo) as u64;
    assert(((base & !(!(u64::MAX << w) << lo)) | ((((v >> lo) & !(u64::MAX << w)) & !(u64::MAX
        << w)) << lo)) == (v | base) && (((v | base) >> lo) & !(u64::MAX << w)) == ((v >> lo) & !(
    u64::MAX << w)) && (((v | base) >> 0u64) & 1u64) == 1u64 && (((((v | base) >> 7u64) & 1u64)
        == 1u64) == (base == 0x81u64)) && (lo == 12u64 || (((v | base) >> 13u64) & !(u64::MAX << reserved)) == 0u64))
        by (bit_vector)
        requires
            lo == 12u64 || lo == 21u64 || lo == 30u64,
            w == 52u64 - lo,
            base == 1u64 || base == 0x81u64,
            lo == 12u64 || reserved + 13u64 == lo,
            ((v >> 0u64) & !(u64::MAX << lo)) == 0u64,
            ((v >> 52u64) & !(u64::MAX << 12u64)) == 0u64,
    ;
}

/// The little-endian image of an entry, read back as a little-endian word,
/// is the entry again.
pub proof fn lemma_entry_bytes_round_trip(v: u64)
    ensures
        vstd::bytes::spec_u64_from_le_bytes(vstd::bytes::spec_u64_to_le_bytes(v)) == v,
        vstd::bytes::spec_u64_to_le_bytes(v).len() == 8,
{
    vstd::bytes::lemma_auto_spec_u64_to_from_le_bytes();
}

/// One PML5 entry; a present one selects a PML4 table.
#[derive(Debug, Clone, Copy, PartialEq, Eq, PartialOrd, Ord, Hash)]
pub struct Pml5e(u64);

impl View for Pml5e {
    type V = u64;

    closed spec fn view(&self) -> u64 {
        self.0
    }
}

impl Pml5e {
    /// An all-zero, non-present entry.
    pub fn empty() -> (r: Self)
        ensures
            r@ == 0,
    {
        Self(0)
    }

    /// The little-endian image of this entry as stored in paging memory.
    pub fn to_le_bytes(self) -> (r: [u8; 8])
        ensures
            r@ == vstd::bytes::spec_u64_to_le_bytes(self@),
    {
        u64_le_bytes(self.0)
    }

    /// Reads the Present flag (bit 0).
    pub fn present(&self) -> (r: State)
        ensures
            r == State::of(bit_of(self@, 0)),
    {
        get_bit(self.0, 0)
    }

    /// Sets or clears the Present flag (bit 0).
    pub fn present_mut(&mut self, state: State)
        ensures
            final(self)@ == with_bit(old(self)@, 0, state.is_set()),
    {
        self.0 = set_bit(self.0, 0, state);
    }

    /// Reads the Read/Write flag (bit 1).
    pub fn writable(&self) -> (r: State)
        ensures
            r == State::of(bit_of(self@, 1)),
    {
        get_bit(self.0, 1)
    }

    /// Sets or clears the Read/Write flag (bit 1).
    pub fn writable_mut(&mut self, state: State)
        ensures
            final(self)@ == with_bit(old(self)@, 1, state.is_set()),
    {
        self.0 = set_bit(self.0, 1, state);
    }

    /// Reads the User/Supervisor flag (bit 2).
    pub fn user(&self) -> (r: State)
        ensures
            r == State::of(bit_of(self@, 2)),
    {
        get_bit(self.0, 2)
    }

    /// Sets or clears the User/Supervisor flag (bit 2).
    pub fn user_mut(&mut self, state: State)
        ensures
            final(self)@ == with_bit(old(self)@, 2, state.is_set()),
    {
        self.0 = set_bit(self.0, 2, state);
    }

    /// Reads the page-level write-through flag (bit 3).
    pub fn write_through(&self) -> (r: State)
        ensures
            r == State::of(bit_of(self@, 3)),
    {
        get_bit(self.0, 3)
    }

    /// Sets or clears the page-level write-through flag (bit 3).
    pub fn write_through_mut(&mut self, state: State)
        ensures
            final(self)@ == with_bit(old(self)@, 3, state.is_set()),
    {
        self.0 = set_bit(self.0, 3, state);
    }

    /// Reads the page-level cache-disable flag (bit 4).
    pub fn cache_disable(&self) -> (r: State)
        ensures
            r == State::of(bit_of(self@, 4)),
    {
        get_bit(self.0, 4)
    }

    /// Sets or clears the page-level cache-disable flag (bit 4).
    pub fn cache_disable_mut(&mut self, state: State)
        ensures
            final(self)@ == with_bit(old(self)@, 4, state.is_set()),
    {
        self.0 = set_bit(self.0, 4, state);
    }

    /// Reads the Accessed flag (bit 5).
    pub fn accessed(&self) -> (r: State)
        ensures
            r == State::of(bit_of(self@, 5)),
    {
        get_bit(self.0, 5)
    }

    /// Sets or clears the Accessed flag (bit 5).
    pub fn accessed_mut(&mut self, state: State)
        ensures
            final(self)@ == with_bit(old(self)@, 5, state.is_set()),
    {
        self.0 = set_bit(self.0, 5, state);
    }

    /// Reads the software-available bits 11..9.
    pub fn available_low(&self) -> (r: u8)
        ensures
            r == field_of(self@, 9, 3),
    {
        get_field_u8(self.0, 9, 3)
    }

    /// Writes the software-available bits 11..9.
    pub fn available_low_mut(&mut self, value: u8)
        ensures
            final(self)@ == with_field(old(self)@, 9, 3, (value as u64)),
    {
        self.0 = set_field(self.0, 9, 3, (value as u64));
    }

    /// Reads the software-available bits 58..52.
    pub fn available_high(&self) -> (r: u8)
        ensures
            r == field_of(self@, 52, 7),
    {
        get_field_u8(self.0, 52, 7)
    }

    /// Writes the software-available bits 58..52.
    pub fn available_high_mut(&mut self, value: u8)
        ensures
            final(self)@ == with_field(old(self)@, 52, 7, (value as u64)),
    {
        self.0 = set_field(self.0, 52, 7, (value as u64));
    }

    /// Reads the execute-disable flag (bit 63).
    pub fn no_execute(&self) -> (r: State)
        ensures
            r == State::of(bit_of(self@, 63)),
    {
        get_bit(self.0, 63)
    }

    /// Sets or clears the execute-disable flag (bit 63).
    pub fn no_execute_mut(&mut self, state: State)
        ensures
            final(self)@ == with_bit(old(self)@, 63, state.is_set()),
    {
        self.0 = set_bit(self.0, 63, state);
    }

    /// Creates a present entry pointing at a 4 KiB-aligned PML4 table.
    pub fn table(address: Pa) -> (r: Option<Self>)
        ensures
            r is Some <==> field_of(address@, 0, 12) == 0,
            r matches Some(e) ==> {
                &&& e@ == address@ | 1
                &&& bit_of(e@, 0)
                &&& bit_of(e@, 7) == false
                &&& field_of(e@, 12, 40) == field_of(address@, 12, 40)
            },
    {
        if address.offset_4kib() == 0 {
            let bits = address.bits();
            let frame = address.frame_4kib();
            proof {
                lemma_entry_image(bits, 1, 12, 0);
            }
            Some(Self(set_field(1, 12, 40, frame)))
        } else {
            None
        }
    }

    /// Reads the frame number of the next table (bits 51..12).
    pub fn address(&self) -> (r: u64)
        ensures
            r == field_of(self@, 12, 40),
    {
        get_field(self.0, 12, 40)
    }

    /// Writes the frame number of the next table (bits 51..12).
    pub fn address_mut(&mut self, value: u64)
        ensures
            final(self)@ == with_field(old(self)@, 12, 40, value),
    {
        self.0 = set_field(self.0, 12, 40, value);
    }
}

/// One PML4 entry; a present one selects a page-directory-pointer table.
#[derive(Debug, Clone, Copy, PartialEq, Eq, PartialOrd, Ord, Hash)]
pub struct Pml4e(u64);

impl View for Pml4e {
    type V = u64;

    closed spec fn view(&self) -> u64 {
        self.0
    }
}

impl Pml4e {
    /// An all-zero, non-present entry.
    pub fn empty() -> (r: Self)
        ensures
            r@ == 0,
    {
        Self(0)
    }

    /// The little-endian image of this entry as stored in paging memory.
    pub fn to_le_bytes(self) -> (r: [u8; 8])
        ensures
            r@ == vstd::bytes::spec_u64_to_le_bytes(self@),
    {
        u64_le_bytes(self.0)
    }

    /// Reads the Present flag (bit 0).
    pub fn present(&self) -> (r: State)
        ensures
            r == State::of(bit_of(self@, 0)),
    {
        get_bit(self.0, 0)
    }

    /// Sets or clears the Present flag (bit 0).
    pub fn present_mut(&mut self, state: State)
        ensures
            final(self)@ == with_bit(old(self)@, 0, state.is_set()),
    {
        self.0 = set_bit(self.0, 0, state);
    }

    /// Reads the Read/Write flag (bit 1).
    pub fn writable(&self) -> (r: State)
        ensures
            r == State::of(bit_of(self@, 1)),
    {
        get_bit(self.0, 1)
    }

    /// Sets or clears the Read/Write flag (bit 1).
    pub fn writable_mut(&mut self, state: State)
        ensures
            final(self)@ == with_bit(old(self)@, 1, state.is_set()),
    {
        self.0 = set_bit(self.0, 1, state);
    }

    /// Reads the User/Supervisor flag (bit 2).
    pub fn user(&self) -> (r: State)
        ensures
            r == State::of(bit_of(self@, 2)),
    {
        get_bit(self.0, 2)
    }

    /// Sets or clears the User/Supervisor flag (bit 2).
    pub fn user_mut(&mut self, state: State)
        ensures
            final(self)@ == with_bit(old(self)@, 2, state.is_set()),
    {
        self.0 = set_bit(self.0, 2, state);
    }

    /// Reads the page-level write-through flag (bit 3).
    pub fn write_through(&self) -> (r: State)
        ensures
            r == State::of(bit_of(self@, 3)),
    {
        get_bit(self.0, 3)
    }

    /// Sets or clears the page-level write-through flag (bit 3).
    pub fn write_through_mut(&mut self, state: State)
        ensures
            final(self)@ == with_bit(old(self)@, 3, state.is_set()),
    {
        self.0 = set_bit(self.0, 3, state);
    }

    /// Reads the page-level cache-disable flag (bit 4).
    pub fn cache_disable(&self) -> (r: State)
        ensures
            r == State::of(bit_of(self@, 4)),
    {
        get_bit(self.0, 4)
    }

    /// Sets or clears the page-level cache-disable flag (bit 4).
    pub fn cache_disable_mut(&mut self, state: State)
        ensures
            final(self)@ == with_bit(old(self)@, 4, state.is_set()),
    {
        self.0 = set_bit(self.0, 4, state);
    }

    /// Reads the Accessed flag (bit 5).
    pub fn accessed(&self) -> (r: State)
        ensures
            r == State::of(bit_of(self@, 5)),
    {
        get_bit(self.0, 5)
    }

    /// Sets or clears the Accessed flag (bit 5).
    pub fn accessed_mut(&mut self, state: State)
        ensures
            final(self)@ == with_bit(old(self)@, 5, state.is_set()),
    {
        self.0 = set_bit(self.0, 5, state);
    }

    /// Reads the software-available bits 11..9.
    pub fn available_low(&self) -> (r: u8)
        ensures
            r == field_of(self@, 9, 3),
    {
        get_field_u8(self.0, 9, 3)
    }

    /// Writes the software-available bits 11..9.
    pub fn available_low_mut(&mut self, value: u8)
        ensures
            final(self)@ == with_field(old(self)@, 9, 3, (value as u64)),
    {
        self.0 = set_field(self.0, 9, 3, (value as u64));
    }

    /// Reads the software-available bits 58..52.
    pub fn available_high(&self) -> (r: u8)
        ensures
            r == field_of(self@, 52, 7),
    {
        get_field_u8(self.0, 52, 7)
    }

    /// Writes the software-available bits 58..52.
    pub fn available_high_mut(&mut self, value: u8)
        ensures
            final(self)@ == with_field(old(self)@, 52, 7, (value as u64)),
    {
        self.0 = set_field(self.0, 52, 7, (value as u64));
    }

    /// Reads the execute-disable flag (bit 63).
    pub fn no_execute(&self) -> (r: State)
        ensures
            r == State::of(bit_of(self@, 63)),
    {
        get_bit(self.0, 63)
    }

    /// Sets or clears the execute-disable flag (bit 63).
    pub fn no_execute_mut(&mut self, state: State)
        ensures
            final(self)@ == with_bit(old(self)@, 63, state.is_set()),
    {
        self.0 = set_bit(self.0, 63, state);
    }

    /// Creates a present entry pointing at a 4 KiB-aligned page-directory-pointer table.
    pub fn table(address: Pa) -> (r: Option<Self>)
        ensures
            r is Some <==> field_of(address@, 0, 12) == 0,
            r matches Some(e) ==> {
                &&& e@ == address@ | 1
                &&& bit_of(e@, 0)
                &&& bit_of(e@, 7) == false
                &&& field_of(e@, 12, 40) == field_of(address@, 12, 40)
            },
    {
        if address.offset_4kib() == 0 {
            let bits = address.bits();
            let frame = address.frame_4kib();
            proof {
                lemma_entry_image(bits, 1, 12, 0);
            }
            Some(Self(set_field(1, 12, 40, frame)))
        } else {
            None
        }
    }

    /// Reads the frame number of the next table (bits 51..12).
    pub fn address(&self) -> (r: u64)
        ensures
            r == field_of(self@, 12, 40),
    {
        get_field(self.0, 12, 40)
    }

    /// Writes the frame number of the next table (bits 51..12).
    pub fn address_mut(&mut self, value: u64)
        ensures
            final(self)@ == with_field(old(self)@, 12, 40, value),
    {
        self.0 = set_field(self.0, 12, 40, value);
    }
}

/// One page-directory-pointer-table entry: a page-directory pointer when
/// the page-size bit is clear, a 1 GiB leaf when it is set.
#[derive(Debug, Clone, Copy, PartialEq, Eq, PartialOrd, Ord, Hash)]
pub struct Pdpte(u64);

impl View for Pdpte {
    type V = u64;

    closed spec fn view(&self) -> u64 {
        self.0
    }
}

impl Pdpte {
    /// An all-zero, non-present entry.
    pub fn empty() -> (r: Self)
        ensures
            r@ == 0,
    {
        Self(0)
    }

    /// The little-endian image of this entry as stored in paging memory.
    pub fn to_le_bytes(self) -> (r: [u8; 8])
        ensures
            r@ == vstd::bytes::spec_u64_to_le_bytes(self@),
    {
        u64_le_bytes(self.0)
    }

    /// Reads the Present flag (bit 0).
    pub fn present(&self) -> (r: State)
        ensures
            r == State::of(bit_of(self@, 0)),
    {
        get_bit(self.0, 0)
    }

    /// Sets or clears the Present flag (bit 0).
    pub fn present_mut(&mut self, state: State)
        ensures
            final(self)@ == with_bit(old(self)@, 0, state.is_set()),
    {
        self.0 = set_bit(self.0, 0, state);
    }

    /// Reads the Read/Write flag (bit 1).
    pub fn writable(&self) -> (r: State)
        ensures
            r == State::of(bit_of(self@, 1)),
    {
        get_bit(self.0, 1)
    }

    /// Sets or clears the Read/Write flag (bit 1).
    pub fn writable_mut(&mut self, state: State)
        ensures
            final(self)@ == with_bit(old(self)@, 1, state.is_set()),
    {
        self.0 = set_bit(self.0, 1, state);
    }

    /// Reads the User/Supervisor flag (bit 2).
    pub fn user(&self) -> (r: State)
        ensures
            r == State::of(bit_of(self@, 2)),
    {
        get_bit(self.0, 2)
    }

    /// Sets or clears the User/Supervisor flag (bit 2).
    pub fn user_mut(&mut self, state: State)
        ensures
            final(self)@ == with_bit(old(self)@, 2, state.is_set()),
    {
        self.0 = set_bit(self.0, 2, state);
    }

    /// Reads the page-level write-through flag (bit 3).
    pub fn write_through(&self) -> (r: State)
        ensures
            r == State::of(bit_of(self@, 3)),
    {
        get_bit(self.0, 3)
    }

    /// Sets or clears the page-level write-through flag (bit 3).
    pub fn write_through_mut(&mut self, state: State)
        ensures
            final(self)@ == with_bit(old(self)@, 3, state.is_set()),
    {
        self.0 = set_bit(self.0, 3, state);
    }

    /// Reads the page-level cache-disable flag (bit 4).
    pub fn cache_disable(&self) -> (r: State)
        ensures
            r == State::of(bit_of(self@, 4)),
    {
        get_bit(self.0, 4)
    }

    /// Sets or clears the page-level cache-disable flag (bit 4).
    pub fn cache_disable_mut(&mut self, state: State)
        ensures
            final(self)@ == with_bit(old(self)@, 4, state.is_set()),
    {
        self.0 = set_bit(self.0, 4, state);
    }

    /// Reads the Accessed flag (bit 5).
    pub fn accessed(&self) -> (r: State)
        ensures
            r == State::of(bit_of(self@, 5)),
    {
        get_bit(self.0, 5)
    }

    /// Sets or clears the Accessed flag (bit 5).
    pub fn accessed_mut(&mut self, state: State)
        ensures
            final(self)@ == with_bit(old(self)@, 5, state.is_set()),
    {
        self.0 = set_bit(self.0, 5, state);
    }

    /// Reads the software-available bits 11..9.
    pub fn available_low(&self) -> (r: u8)
        ensures
            r == field_of(self@, 9, 3),
    {
        get_field_u8(self.0, 9, 3)
    }

    /// Writes the software-available bits 11..9.
    pub fn available_low_mut(&mut self, value: u8)
        ensures
            final(self)@ == with_field(old(self)@, 9, 3, (value as u64)),
    {
        self.0 = set_field(self.0, 9, 3, (value as u64));
    }

    /// Reads the software-available bits 58..52.
    pub fn available_high(&self) -> (r: u8)
        ensures
            r == field_of(self@, 52, 7),
    {
        get_field_u8(self.0, 52, 7)
    }

    /// Writes the software-available bits 58..52.
    pub fn available_high_mut(&mut self, value: u8)
        ensures
            final(self)@ == with_field(old(self)@, 52, 7, (value as u64)),
    {
        self.0 = set_field(self.0, 52, 7, (value as u64));
    }

    /// Reads the execute-disable flag (bit 63).
    pub fn no_execute(&self) -> (r: State)
        ensures
            r == State::of(bit_of(self@, 63)),
    {
        get_bit(self.0, 63)
    }

    /// Sets or clears the execute-disable flag (bit 63).
    pub fn no_execute_mut(&mut self, state: State)
        ensures
            final(self)@ == with_bit(old(self)@, 63, state.is_set()),
    {
        self.0 = set_bit(self.0, 63, state);
    }

    /// Creates a present entry pointing at a 4 KiB-aligned page directory.
    pub fn table(address: Pa) -> (r: Option<Self>)
        ensures
            r is Some <==> field_of(address@, 0, 12) == 0,
            r matches Some(e) ==> {
                &&& e@ == address@ | 1
                &&& bit_of(e@, 0)
                &&& bit_of(e@, 7) == false
                &&& field_of(e@, 12, 40) == field_of(address@, 12, 40)
            },
    {
        if address.offset_4kib() == 0 {
            let bits = address.bits();
            let frame = address.frame_4kib();
            proof {
                lemma_entry_image(bits, 1, 12, 0);
            }
            Some(Self(set_field(1, 12, 40, frame)))
        } else {
            None
        }
    }

    /// Creates a present 1 GiB leaf mapping a 1 GiB-aligned physical page.
    pub fn page_1gib(address: Pa) -> (r: Option<Self>)
        ensures
            r is Some <==> field_of(address@, 0, 30) == 0,
            r matches Some(e) ==> {
                &&& e@ == address@ | 0x81
                &&& bit_of(e@, 0)
                &&& bit_of(e@, 7) == true
                &&& field_of(e@, 30, 22) == field_of(address@, 30, 22)
                &&& field_of(e@, 13, 17) == 0
            },
    {
        if address.offset_1gib() == 0 {
            let bits = address.bits();
            let frame = address.frame_1gib();
            proof {
                lemma_entry_image(bits, 0x81, 30, 17);
            }
            Some(Self(set_field(0x81, 30, 22, frame as u64)))
        } else {
            None
        }
    }

    /// Reads the Page Size flag (bit 7).
    pub fn page_size(&self) -> (r: State)
        ensures
            r == State::of(bit_of(self@, 7)),
    {
        get_bit(self.0, 7)
    }

    /// Sets or clears the Page Size flag (bit 7).
    pub fn page_size_mut(&mut self, state: State)
        ensures
            final(self)@ == with_bit(old(self)@, 7, state.is_set()),
    {
        self.0 = set_bit(self.0, 7, state);
    }

    /// Reads the frame number of the next table (bits 51..12).
    pub fn table_address(&self) -> (r: u64)
        ensures
            r == field_of(self@, 12, 40),
    {
        get_field(self.0, 12, 40)
    }

    /// Writes the frame number of the next table (bits 51..12).
    pub fn table_address_mut(&mut self, value: u64)
        ensures
            final(self)@ == with_field(old(self)@, 12, 40, value),
    {
        self.0 = set_field(self.0, 12, 40, value);
    }

    /// Reads the 1 GiB frame number (bits 51..30).
    pub fn page_address(&self) -> (r: u32)
        ensures
            r == field_of(self@, 30, 22),
    {
        get_field_u32(self.0, 30, 22)
    }

    /// Writes the 1 GiB frame number (bits 51..30).
    pub fn page_address_mut(&mut self, value: u32)
        ensures
            final(self)@ == with_field(old(self)@, 30, 22, (value as u64)),
    {
        self.0 = set_field(self.0, 30, 22, (value as u64));
    }

    /// Reads the leaf Dirty flag (bit 6).
    pub fn dirty(&self) -> (r: State)
        ensures
            r == State::of(bit_of(self@, 6)),
    {
        get_bit(self.0, 6)
    }

    /// Sets or clears the leaf Dirty flag (bit 6).
    pub fn dirty_mut(&mut self, state: State)
        ensures
            final(self)@ == with_bit(old(self)@, 6, state.is_set()),
    {
        self.0 = set_bit(self.0, 6, state);
    }

    /// Reads the leaf Global flag (bit 8).
    pub fn global(&self) -> (r: State)
        ensures
            r == State::of(bit_of(self@, 8)),
    {
        get_bit(self.0, 8)
    }

    /// Sets or clears the leaf Global flag (bit 8).
    pub fn global_mut(&mut self, state: State)
        ensures
            final(self)@ == with_bit(old(self)@, 8, state.is_set()),
    {
        self.0 = set_bit(self.0, 8, state);
    }

    /// Reads the leaf PAT selector (bit 12).
    pub fn page_attribute_table(&self) -> (r: State)
        ensures
            r == State::of(bit_of(self@, 12)),
    {
        get_bit(self.0, 12)
    }

    /// Sets or clears the leaf PAT selector (bit 12).
    pub fn page_attribute_table_mut(&mut self, state: State)
        ensures
            final(self)@ == with_bit(old(self)@, 12, state.is_set()),
    {
        self.0 = set_bit(self.0, 12, state);
    }

    /// Reads the leaf protection key (bits 62..59).
    pub fn protection_key(&self) -> (r: u8)
        ensures
            r == field_of(self@, 59, 4),
    {
        get_field_u8(self.0, 59, 4)
    }

    /// Writes the leaf protection key (bits 62..59).
    pub fn protection_key_mut(&mut self, value: u8)
        ensures
            final(self)@ == with_field(old(self)@, 59, 4, (value as u64)),
    {
        self.0 = set_field(self.0, 59, 4, (value as u64));
    }

    /// Reads the bits 29..13, reserved in a 1 GiB leaf.
    pub fn reserved_1gib(&self) -> (r: u32)
        ensures
            r == field_of(self@, 13, 17),
    {
        get_field_u32(self.0, 13, 17)
    }
}

/// One page-directory entry: a page-table pointer when the page-size bit is
/// clear, a 2 MiB leaf when it is set.
#[derive(Debug, Clone, Copy, PartialEq, Eq, PartialOrd, Ord, Hash)]
pub struct Pde(u64);

impl View for Pde {
    type V = u64;

    closed spec fn view(&self) -> u64 {
        self.0
    }
}

impl Pde {
    /// An all-zero, non-present entry.
    pub fn empty() -> (r: Self)
        ensures
            r@ == 0,
    {
        Self(0)
    }

    /// The little-endian image of this entry as stored in paging memory.
    pub fn to_le_bytes(self) -> (r: [u8; 8])
        ensures
            r@ == vstd::bytes::spec_u64_to_le_bytes(self@),
    {
        u64_le_bytes(self.0)
    }

    /// Reads the Present flag (bit 0).
    pub fn present(&self) -> (r: State)
        ensures
            r == State::of(bit_of(self@, 0)),
    {
        get_bit(self.0, 0)
    }

    /// Sets or clears the Present flag (bit 0).
    pub fn present_mut(&mut self, state: State)
        ensures
            final(self)@ == with_bit(old(self)@, 0, state.is_set()),
    {
        self.0 = set_bit(self.0, 0, state);
    }

    /// Reads the Read/Write flag (bit 1).
    pub fn writable(&self) -> (r: State)
        ensures
            r == State::of(bit_of(self@, 1)),
    {
        get_bit(self.0, 1)
    }

    /// Sets or clears the Read/Write flag (bit 1).
    pub fn writable_mut(&mut self, state: State)
        ensures
            final(self)@ == with_bit(old(self)@, 1, state.is_set()),
    {
        self.0 = set_bit(self.0, 1, state);
    }

    /// Reads the User/Supervisor flag (bit 2).
    pub fn user(&self) -> (r: State)
        ensures
            r == State::of(bit_of(self@, 2)),
    {
        get_bit(self.0, 2)
    }

    /// Sets or clears the User/Supervisor flag (bit 2).
    pub fn user_mut(&mut self, state: State)
        ensures
            final(self)@ == with_bit(old(self)@, 2, state.is_set()),
    {
        self.0 = set_bit(self.0, 2, state);
    }

    /// Reads the page-level write-through flag (bit 3).
    pub fn write_through(&self) -> (r: State)
        ensures
            r == State::of(bit_of(self@, 3)),
    {
        get_bit(self.0, 3)
    }

    /// Sets or clears the page-level write-through flag (bit 3).
    pub fn write_through_mut(&mut self, state: State)
        ensures
            final(self)@ == with_bit(old(self)@, 3, state.is_set()),
    {
        self.0 = set_bit(self.0, 3, state);
    }

    /// Reads the page-level cache-disable flag (bit 4).
    pub fn cache_disable(&self) -> (r: State)
        ensures
            r == State::of(bit_of(self@, 4)),
    {
        get_bit(self.0, 4)
    }

    /// Sets or clears the page-level cache-disable flag (bit 4).
    pub fn cache_disable_mut(&mut self, state: State)
        ensures
            final(self)@ == with_bit(old(self)@, 4, state.is_set()),
    {
        self.0 = set_bit(self.0, 4, state);
    }

    /// Reads the Accessed flag (bit 5).
    pub fn accessed(&self) -> (r: State)
        ensures
            r == State::of(bit_of(self@, 5)),
    {
        get_bit(self.0, 5)
    }

    /// Sets or clears the Accessed flag (bit 5).
    pub fn accessed_mut(&mut self, state: State)
        ensures
            final(self)@ == with_bit(old(self)@, 5, state.is_set()),
    {
        self.0 = set_bit(self.0, 5, state);
    }

    /// Reads the software-available bits 11..9.
    pub fn available_low(&self) -> (r: u8)
        ensures
            r == field_of(self@, 9, 3),
    {
        get_field_u8(self.0, 9, 3)
    }

    /// Writes the software-available bits 11..9.
    pub fn available_low_mut(&mut self, value: u8)
        ensures
            final(self)@ == with_field(old(self)@, 9, 3, (value as u64)),
    {
        self.0 = set_field(self.0, 9, 3, (value as u64));
    }

    /// Reads the software-available bits 58..52.
    pub fn available_high(&self) -> (r: u8)
        ensures
            r == field_of(self@, 52, 7),
    {
        get_field_u8(self.0, 52, 7)
    }

    /// Writes the software-available bits 58..52.
    pub fn available_high_mut(&mut self, value: u8)
        ensures
            final(self)@ == with_field(old(self)@, 52, 7, (value as u64)),
    {
        self.0 = set_field(self.0, 52, 7, (value as u64));
    }

    /// Reads the execute-disable flag (bit 63).
    pub fn no_execute(&self) -> (r: State)
        ensures
            r == State::of(bit_of(self@, 63)),
    {
        get_bit(self.0, 63)
    }

    /// Sets or clears the execute-disable flag (bit 63).
    pub fn no_execute_mut(&mut self, state: State)
        ensures
            final(self)@ == with_bit(old(self)@, 63, state.is_set()),
    {
        self.0 = set_bit(self.0, 63, state);
    }

    /// Creates a present entry pointing at a 4 KiB-aligned page table.
    pub fn table(address: Pa) -> (r: Option<Self>)
        ensures
            r is Some <==> field_of(address@, 0, 12) == 0,
            r matches Some(e) ==> {
                &&& e@ == address@ | 1
                &&& bit_of(e@, 0)
                &&& bit_of(e@, 7) == false
                &&& field_of(e@, 12, 40) == field_of(address@, 12, 40)
            },
    {
        if address.offset_4kib() == 0 {
            let bits = address.bits();
            let frame = address.frame_4kib();
            proof {
                lemma_entry_image(bits, 1, 12, 0);
            }
            Some(Self(set_field(1, 12, 40, frame)))
        } else {
            None
        }
    }

    /// Creates a present 2 MiB leaf mapping a 2 MiB-aligned physical page.
    pub fn page_2mib(address: Pa) -> (r: Option<Self>)
        ensures
            r is Some <==> field_of(address@, 0, 21) == 0,
            r matches Some(e) ==> {
                &&& e@ == address@ | 0x81
                &&& bit_of(e@, 0)
                &&& bit_of(e@, 7) == true
                &&& field_of(e@, 21, 31) == field_of(address@, 21, 31)
                &&& field_of(e@, 13, 8) == 0
            },
    {
        if address.offset_2mib() == 0 {
            let bits = address.bits();
            let frame = address.frame_2mib();
            proof {
                lemma_entry_image(bits, 0x81, 21, 8);
            }
            Some(Self(set_field(0x81, 21, 31, frame as u64)))
        } else {
            None
        }
    }

    /// Reads the Page Size flag (bit 7).
    pub fn page_size(&self) -> (r: State)
        ensures
            r == State::of(bit_of(self@, 7)),
    {
        get_bit(self.0, 7)
    }

    /// Sets or clears the Page Size flag (bit 7).
    pub fn page_size_mut(&mut self, state: State)
        ensures
            final(self)@ == with_bit(old(self)@, 7, state.is_set()),
    {
        self.0 = set_bit(self.0, 7, state);
    }

    /// Reads the frame number of the next table (bits 51..12).
    pub fn table_address(&self) -> (r: u64)
        ensures
            r == field_of(self@, 12, 40),
    {
        get_field(self.0, 12, 40)
    }

    /// Writes the frame number of the next table (bits 51..12).
    pub fn table_address_mut(&mut self, value: u64)
        ensures
            final(self)@ == with_field(old(self)@, 12, 40, value),
    {
        self.0 = set_field(self.0, 12, 40, value);
    }

    /// Reads the 2 MiB frame number (bits 51..21).
    pub fn page_address(&self) -> (r: u32)
        ensures
            r == field_of(self@, 21, 31),
    {
        get_field_u32(self.0, 21, 31)
    }

    /// Writes the 2 MiB frame number (bits 51..21).
    pub fn page_address_mut(&mut self, value: u32)
        ensures
            final(self)@ == with_field(old(self)@, 21, 31, (value as u64)),
    {
        self.0 = set_field(self.0, 21, 31, (value as u64));
    }

    /// Reads the leaf Dirty flag (bit 6).
    pub fn dirty(&self) -> (r: State)
        ensures
            r == State::of(bit_of(self@, 6)),
    {
        get_bit(self.0, 6)
    }

    /// Sets or clears the leaf Dirty flag (bit 6).
    pub fn dirty_mut(&mut self, state: State)
        ensures
            final(self)@ == with_bit(old(self)@, 6, state.is_set()),
    {
        self.0 = set_bit(self.0, 6, state);
    }

    /// Reads the leaf Global flag (bit 8).
    pub fn global(&self) -> (r: State)
        ensures
            r == State::of(bit_of(self@, 8)),
    {
        get_bit(self.0, 8)
    }

    /// Sets or clears the leaf Global flag (bit 8).
    pub fn global_mut(&mut self, state: State)
        ensures
            final(self)@ == with_bit(old(self)@, 8, state.is_set()),
    {
        self.0 = set_bit(self.0, 8, state);
    }

    /// Reads the leaf PAT selector (bit 12).
    pub fn page_attribute_table(&self) -> (r: State)
        ensures
            r == State::of(bit_of(self@, 12)),
    {
        get_bit(self.0, 12)
    }

    /// Sets or clears the leaf PAT selector (bit 12).
    pub fn page_attribute_table_mut(&mut self, state: State)
        ensures
            final(self)@ == with_bit(old(self)@, 12, state.is_set()),
    {
        self.0 = set_bit(self.0, 12, state);
    }

    /// Reads the leaf protection key (bits 62..59).
    pub fn protection_key(&self) -> (r: u8)
        ensures
            r == field_of(self@, 59, 4),
    {
        get_field_u8(self.0, 59, 4)
    }

    /// Writes the leaf protection key (bits 62..59).
    pub fn protection_key_mut(&mut self, value: u8)
        ensures
            final(self)@ == with_field(old(self)@, 59, 4, (value as u64)),
    {
        self.0 = set_field(self.0, 59, 4, (value as u64));
    }

    /// Reads the bits 20..13, reserved in a 2 MiB leaf.
    pub fn reserved_2mib(&self) -> (r: u8)
        ensures
            r == field_of(self@, 13, 8),
    {
        get_field_u8(self.0, 13, 8)
    }
}

/// One page-table entry; a present one maps a 4 KiB page.
#[derive(Debug, Clone, Copy, PartialEq, Eq, PartialOrd, Ord, Hash)]
pub struct Pte(u64);

impl View for Pte {
    type V = u64;

    closed spec fn view(&self) -> u64 {
        self.0
    }
}

impl Pte {
    /// An all-zero, non-present entry.
    pub fn empty() -> (r: Self)
        ensures
            r@ == 0,
    {
        Self(0)
    }

    /// The little-endian image of this entry as stored in paging memory.
    pub fn to_le_bytes(self) -> (r: [u8; 8])
        ensures
            r@ == vstd::bytes::spec_u64_to_le_bytes(self@),
    {
        u64_le_bytes(self.0)
    }

    /// Reads the Present flag (bit 0).
    pub fn present(&self) -> (r: State)
        ensures
            r == State::of(bit_of(self@, 0)),
    {
        get_bit(self.0, 0)
    }

    /// Sets or clears the Present flag (bit 0).
    pub fn present_mut(&mut self, state: State)
        ensures
            final(self)@ == with_bit(old(self)@, 0, state.is_set()),
    {
        self.0 = set_bit(self.0, 0, state);
    }

    /// Reads the Read/Write flag (bit 1).
    pub fn writable(&self) -> (r: State)
        ensures
            r == State::of(bit_of(self@, 1)),
    {
        get_bit(self.0, 1)
    }

    /// Sets or clears the Read/Write flag (bit 1).
    pub fn writable_mut(&mut self, state: State)
        ensures
            final(self)@ == with_bit(old(self)@, 1, state.is_set()),
    {
        self.0 = set_bit(self.0, 1, state);
    }

    /// Reads the User/Supervisor flag (bit 2).
    pub fn user(&self) -> (r: State)
        ensures
            r == State::of(bit_of(self@, 2)),
    {
        get_bit(self.0, 2)
    }

    /// Sets or clears the User/Supervisor flag (bit 2).
    pub fn user_mut(&mut self, state: State)
        ensures
            final(self)@ == with_bit(old(self)@, 2, state.is_set()),
    {
        self.0 = set_bit(self.0, 2, state);
    }

    /// Reads the page-level write-through flag (bit 3).
    pub fn write_through(&self) -> (r: State)
        ensures
            r == State::of(bit_of(self@, 3)),
    {
        get_bit(self.0, 3)
    }

    /// Sets or clears the page-level write-through flag (bit 3).
    pub fn write_through_mut(&mut self, state: State)
        ensures
            final(self)@ == with_bit(old(self)@, 3, state.is_set()),
    {
        self.0 = set_bit(self.0, 3, state);
    }

    /// Reads the page-level cache-disable flag (bit 4).
    pub fn cache_disable(&self) -> (r: State)
        ensures
            r == State::of(bit_of(self@, 4)),
    {
        get_bit(self.0, 4)
    }

    /// Sets or clears the page-level cache-disable flag (bit 4).
    pub fn cache_disable_mut(&mut self, state: State)
        ensures
            final(self)@ == with_bit(old(self)@, 4, state.is_set()),
    {
        self.0 = set_bit(self.0, 4, state);
    }

    /// Reads the Accessed flag (bit 5).
    pub fn accessed(&self) -> (r: State)
        ensures
            r == State::of(bit_of(self@, 5)),
    {
        get_bit(self.0, 5)
    }

    /// Sets or clears the Accessed flag (bit 5).
    pub fn accessed_mut(&mut self, state: State)
        ensures
            final(self)@ == with_bit(old(self)@, 5, state.is_set()),
    {
        self.0 = set_bit(self.0, 5, state);
    }

    /// Reads the software-available bits 11..9.
    pub fn available_low(&self) -> (r: u8)
        ensures
            r == field_of(self@, 9, 3),
    {
        get_field_u8(self.0, 9, 3)
    }

    /// Writes the software-available bits 11..9.
    pub fn available_low_mut(&mut self, value: u8)
        ensures
            final(self)@ == with_field(old(self)@, 9, 3, (value as u64)),
    {
        self.0 = set_field(self.0, 9, 3, (value as u64));
    }

    /// Reads the software-available bits 58..52.
    pub fn available_high(&self) -> (r: u8)
        ensures
            r == field_of(self@, 52, 7),
    {
        get_field_u8(self.0, 52, 7)
    }

    /// Writes the software-available bits 58..52.
    pub fn available_high_mut(&mut self, value: u8)
        ensures
            final(self)@ == with_field(old(self)@, 52, 7, (value as u64)),
    {
        self.0 = set_field(self.0, 52, 7, (value as u64));
    }

    /// Reads the execute-disable flag (bit 63).
    pub fn no_execute(&self) -> (r: State)
        ensures
            r == State::of(bit_of(self@, 63)),
    {
        get_bit(self.0, 63)
    }

    /// Sets or clears the execute-disable flag (bit 63).
    pub fn no_execute_mut(&mut self, state: State)
        ensures
            final(self)@ == with_bit(old(self)@, 63, state.is_set()),
    {
        self.0 = set_bit(self.0, 63, state);
    }

    /// Creates a present leaf mapping a 4 KiB-aligned physical page.
    pub fn page_4kib(address: Pa) -> (r: Option<Self>)
        ensures
            r is Some <==> field_of(address@, 0, 12) == 0,
            r matches Some(e) ==> {
                &&& e@ == address@ | 1
                &&& bit_of(e@, 0)
                &&& bit_of(e@, 7) == false
                &&& field_of(e@, 12, 40) == field_of(address@, 12, 40)
            },
    {
        if address.offset_4kib() == 0 {
            let bits = address.bits();
            let frame = address.frame_4kib();
            proof {
                lemma_entry_image(bits, 1, 12, 0);
            }
            Some(Self(set_field(1, 12, 40, frame)))
        } else {
            None
        }
    }

    /// Reads the 4 KiB frame number (bits 51..12).
    pub fn address(&self) -> (r: u64)
        ensures
            r == field_of(self@, 12, 40),
    {
        get_field(self.0, 12, 40)
    }

    /// Writes the 4 KiB frame number (bits 51..12).
    pub fn address_mut(&mut self, value: u64)
        ensures
            final(self)@ == with_field(old(self)@, 12, 40, value),
    {
        self.0 = set_field(self.0, 12, 40, value);
    }

    /// Reads the leaf Dirty flag (bit 6).
    pub fn dirty(&self) -> (r: State)
        ensures
            r == State::of(bit_of(self@, 6)),
    {
        get_bit(self.0, 6)
    }

    /// Sets or clears the leaf Dirty flag (bit 6).
    pub fn dirty_mut(&mut self, state: State)
        ensures
            final(self)@ == with_bit(old(self)@, 6, state.is_set()),
    {
        self.0 = set_bit(self.0, 6, state);
    }

    /// Reads the leaf Global flag (bit 8).
    pub fn global(&self) -> (r: State)
        ensures
            r == State::of(bit_of(self@, 8)),
    {
        get_bit(self.0, 8)
    }

    /// Sets or clears the leaf Global flag (bit 8).
    pub fn global_mut(&mut self, state: State)
        ensures
            final(self)@ == with_bit(old(self)@, 8, state.is_set()),
    {
        self.0 = set_bit(self.0, 8, state);
    }

    /// Reads the leaf PAT selector (bit 7).
    pub fn page_attribute_table(&self) -> (r: State)
        ensures
            r == State::of(bit_of(self@, 7)),
    {
        get_bit(self.0, 7)
    }

    /// Sets or clears the leaf PAT selector (bit 7).
    pub fn page_attribute_table_mut(&mut self, state: State)
        ensures
            final(self)@ == with_bit(old(self)@, 7, state.is_set()),
    {
        self.0 = set_bit(self.0, 7, state);
    }

    /// Reads the leaf protection key (bits 62..59).
    pub fn protection_key(&self) -> (r: u8)
        ensures
            r == field_of(self@, 59, 4),
    {
        get_field_u8(self.0, 59, 4)
    }

    /// Writes the leaf protection key (bits 62..59).
    pub fn protection_key_mut(&mut self, value: u8)
        ensures
            final(self)@ == with_field(old(self)@, 59, 4, (value as u64)),
    {
        self.0 = set_field(self.0, 59, 4, (value as u64));
    }
}

} // verus!
