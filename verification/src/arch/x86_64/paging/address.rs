//! Paging address representations for x86-64 translation.
//!
//! [`Pa`] is the architectural address domain carried by paging-entry address
//! fields, through bit 51. [`La`] is a 64-bit linear address canonical for at
//! least one translation mode; [`La48`] and [`La57`] select the mode at the
//! construction site. Intel SDM Vol. 3A, Section 4.5 defines canonicality and
//! Section 5.5.4 the fields consumed by four- and five-level translation.

use vstd::prelude::*;

use crate::bits::{State, bit_of, field_of, get_bit, get_field, get_field_u16, get_field_u32, get_field_u8};
use crate::sealed::Sealed;

verus! {

/// Whether `v` lies in the 52-bit paging-entry physical-address envelope.
pub open spec fn in_pa_envelope(v: u64) -> bool {
    field_of(v, 52, 12) == 0
}

/// Whether `v` is canonical when `width` low bits are translated: the bits
/// above the translated range all repeat the highest translated bit.
pub open spec fn canonical(width: u8, v: u64) -> bool {
    if width == 48 {
        field_of(v, 48, 16) == (if bit_of(v, 47) { 0xffffu64 } else { 0u64 })
    } else {
        field_of(v, 57, 7) == (if bit_of(v, 56) { 0x7fu64 } else { 0u64 })
    }
}

/// An x86-64 physical address representable by the paging structures.
///
/// It only guarantees that the value fits the 52-bit envelope; it says nothing
/// of ownership or of the implemented MAXPHYADDR of a concrete processor.
#[derive(Debug, Clone, Copy, PartialEq, Eq, PartialOrd, Ord, Hash)]
pub struct Pa(u64);

impl View for Pa {
    type V = u64;

    closed spec fn view(&self) -> u64 {
        self.0
    }
}

impl Pa {
    #[verifier::type_invariant]
    spec fn fits_envelope(self) -> bool {
        in_pa_envelope(self.0)
    }

    /// Creates a physical address in the paging-entry address domain.
    ///
    /// Returns `None` when the value sets any bit above bit 51.
    pub fn new(value: u64) -> (r: Option<Self>)
        ensures
            r is Some <==> in_pa_envelope(value),
            r matches Some(a) ==> a@ == value,
    {
        if get_field(value, 52, 12) == 0 {
            Some(Self(value))
        } else {
            None
        }
    }

    /// Every physical address fits the 52-bit envelope.
    pub fn bits(self) -> (r: u64)
        ensures
            r == self@,
            in_pa_envelope(r),
    {
        proof {
            use_type_invariant(self);
        }
        self.0
    }

    /// Determines the offset inside an aligned 4 KiB page.
    pub fn offset_4kib(&self) -> (r: u16)
        ensures
            r == field_of(self@, 0, 12),
    {
        get_field_u16(self.0, 0, 12)
    }

    /// Determines the offset inside an aligned 2 MiB page.
    pub fn offset_2mib(&self) -> (r: u32)
        ensures
            r == field_of(self@, 0, 21),
    {
        get_field_u32(self.0, 0, 21)
    }

    /// Determines the offset inside an aligned 1 GiB page.
    pub fn offset_1gib(&self) -> (r: u32)
        ensures
            r == field_of(self@, 0, 30),
    {
        get_field_u32(self.0, 0, 30)
    }

    /// Determines the physical page number used by a 4 KiB mapping or table pointer.
    pub fn frame_4kib(&self) -> (r: u64)
        ensures
            r == field_of(self@, 12, 40),
    {
        get_field(self.0, 12, 40)
    }

    /// Determines the physical page number used by a 2 MiB leaf mapping.
    pub fn frame_2mib(&self) -> (r: u32)
        ensures
            r == field_of(self@, 21, 31),
    {
        get_field_u32(self.0, 21, 31)
    }

    /// Determines the physical page number used by a 1 GiB leaf mapping.
    pub fn frame_1gib(&self) -> (r: u32)
        ensures
            r == field_of(self@, 30, 22),
    {
        get_field_u32(self.0, 30, 22)
    }
}

/// A compile-time linear-address translation mode.
///
/// Implementations are sealed to the two architectural modes.
pub trait LaMode: Sealed {
    /// Number of low linear-address bits translated by this mode.
    spec fn spec_width() -> u8;

    /// Returns the number of translated low linear-address bits.
    fn width() -> (r: u8)
        ensures
            r == Self::spec_width(),
            r == 48 || r == 57,
    ;
}

/// Four-level translation with 48-bit paging canonicality (CR4.LA57 clear).
#[derive(Debug, Clone, Copy, PartialEq, Eq, PartialOrd, Ord, Hash)]
pub struct La48;

/// Five-level translation with 57-bit paging canonicality (CR4.LA57 set).
#[derive(Debug, Clone, Copy, PartialEq, Eq, PartialOrd, Ord, Hash)]
pub struct La57;

impl Sealed for La48 {}

impl LaMode for La48 {
    open spec fn spec_width() -> u8 {
        48
    }

    fn width() -> (r: u8) {
        48
    }
}

impl Sealed for La57 {}

impl LaMode for La57 {
    open spec fn spec_width() -> u8 {
        57
    }

    fn width() -> (r: u8) {
        57
    }
}

/// Decides canonicality of `v` under `width` translated bits.
fn canonical_exec(width: u8, v: u64) -> (r: bool)
    requires
        width == 48 || width == 57,
    ensures
        r == canonical(width, v),
{
    if width == 48 {
        let upper = get_field(v, 48, 16);
        match get_bit(v, 47) {
            State::Cleared => upper == 0,
            State::Raised => upper == 0xffff,
        }
    } else {
        let upper = get_field(v, 57, 7);
        match get_bit(v, 56) {
            State::Cleared => upper == 0,
            State::Raised => upper == 0x7f,
        }
    }
}

/// Every LA48-canonical address is LA57-canonical.
pub proof fn lemma_canonical48_implies_canonical57(v: u64)
    ensures
        canonical(48, v) ==> canonical(57, v),
{
    assert(((v >> 48u64) & !(u64::MAX << 16u64)) == (if (v >> 47u64) & 1u64 == 1u64 {
        0xffffu64
    } else {
        0u64
    }) ==> ((v >> 57u64) & !(u64::MAX << 7u64)) == (if (v >> 56u64) & 1u64 == 1u64 {
        0x7fu64
    } else {
        0u64
    })) by (bit_vector);
}

/// An x86-64 linear address value.
///
/// All 64 bits are kept because canonicality depends on the active mode:
/// LA48 requires bits 63..48 to repeat bit 47, LA57 requires bits 63..57 to
/// repeat bit 56. The stored value is canonical for at least one of them.
#[derive(Debug, Clone, Copy, PartialEq, Eq, PartialOrd, Ord, Hash)]
pub struct La(u64);

impl View for La {
    type V = u64;

    closed spec fn view(&self) -> u64 {
        self.0
    }
}

impl La {
    #[verifier::type_invariant]
    spec fn canonical_somewhere(self) -> bool {
        canonical(48, self.0) || canonical(57, self.0)
    }

    /// Returns the linear-address representation.
    pub fn bits(self) -> (r: u64)
        ensures
            r == self@,
            canonical(48, r) || canonical(57, r),
    {
        proof {
            use_type_invariant(self);
        }
        self.0
    }

    /// Creates a linear address when `value` is canonical for `M`.
    ///
    /// The mode classifies the upper bits and is not stored in the result.
    pub fn new<M: LaMode>(value: u64) -> (r: Option<Self>)
        ensures
            r is Some <==> canonical(M::spec_width(), value),
            r matches Some(a) ==> a@ == value,
    {
        if canonical_exec(M::width(), value) {
            Some(Self(value))
        } else {
            None
        }
    }

    /// Determines whether this address is paging-canonical for `M`.
    pub fn is_canonical<M: LaMode>(self) -> (r: bool)
        ensures
            r == canonical(M::spec_width(), self@),
    {
        canonical_exec(M::width(), self.0)
    }

    /// Determines the PML5 selector carried in bits 56 through 48.
    ///
    /// It takes part in translation only under LA57; under LA48 the same bits
    /// are the canonical sign extension.
    pub fn pml5_index(&self) -> (r: u16)
        ensures
            r == field_of(self@, 48, 9),
    {
        get_field_u16(self.0, 48, 9)
    }

    /// Determines the PML4 selector carried in bits 47 through 39.
    pub fn pml4_index(&self) -> (r: u16)
        ensures
            r == field_of(self@, 39, 9),
    {
        get_field_u16(self.0, 39, 9)
    }

    /// Determines the PDPT selector carried in bits 38 through 30.
    pub fn pdpt_index(&self) -> (r: u16)
        ensures
            r == field_of(self@, 30, 9),
    {
        get_field_u16(self.0, 30, 9)
    }

    /// Determines the page-directory selector carried in bits 29 through 21.
    pub fn page_directory_index(&self) -> (r: u16)
        ensures
            r == field_of(self@, 21, 9),
    {
        get_field_u16(self.0, 21, 9)
    }

    /// Determines the page-table selector carried in bits 20 through 12.
    pub fn page_table_index(&self) -> (r: u16)
        ensures
            r == field_of(self@, 12, 9),
    {
        get_field_u16(self.0, 12, 9)
    }

    /// Determines the offset carried in bits 11 through 0.
    pub fn offset_4kib(&self) -> (r: u16)
        ensures
            r == field_of(self@, 0, 12),
    {
        get_field_u16(self.0, 0, 12)
    }

    /// Determines the bits that must sign-extend bit 47 under LA48.
    pub fn la48_upper(&self) -> (r: u16)
        ensures
            r == field_of(self@, 48, 16),
    {
        get_field_u16(self.0, 48, 16)
    }

    /// Determines the bits that must sign-extend bit 56 under LA57.
    pub fn la57_upper(&self) -> (r: u8)
        ensures
            r == field_of(self@, 57, 7),
    {
        get_field_u8(self.0, 57, 7)
    }
}

/// Whether `v` is an LA48-canonical, 4 KiB-aligned linear address.
pub open spec fn la48_page_base(v: u64) -> bool {
    canonical(48, v) && field_of(v, 0, 12) == 0
}

/// A page-aligned linear address in the LA48 canonical domain.
#[derive(Debug, Clone, Copy, PartialEq, Eq, PartialOrd, Ord, Hash)]
pub struct La48Page(La);

impl View for La48Page {
    type V = u64;

    closed spec fn view(&self) -> u64 {
        self.0@
    }
}

impl La48Page {
    #[verifier::type_invariant]
    spec fn aligned_la48(self) -> bool {
        la48_page_base(self.0@)
    }

    /// Creates an LA48 page base from a canonical, 4 KiB-aligned address.
    ///
    /// Returns `None` when `address` is non-canonical under LA48 or has a
    /// nonzero page offset.
    pub fn new(address: La) -> (r: Option<Self>)
        ensures
            r is Some <==> la48_page_base(address@),
            r matches Some(p) ==> p@ == address@,
    {
        let is_canonical = address.is_canonical::<La48>();
        let page_aligned = address.offset_4kib() == 0;
        if is_canonical && page_aligned {
            Some(Self(address))
        } else {
            None
        }
    }

    /// Creates an LA48 page base from its raw address image.
    ///
    /// Returns `None` when `target_bits` is non-canonical under LA48 or is not
    /// 4 KiB-aligned.
    pub fn raw(target_bits: u64) -> (r: Option<Self>)
        ensures
            r is Some <==> la48_page_base(target_bits),
            r matches Some(p) ==> p@ == target_bits,
    {
        match La::new::<La48>(target_bits) {
            Some(target_address) => Self::new(target_address),
            None => None,
        }
    }

    /// Returns the represented linear page base.
    pub fn address(self) -> (r: La)
        ensures
            r@ == self@,
            la48_page_base(r@),
    {
        proof {
            use_type_invariant(self);
        }
        self.0
    }

    /// Returns the linear page-base image.
    pub fn bits(self) -> (r: u64)
        ensures
            r == self@,
            la48_page_base(r),
    {
        proof {
            use_type_invariant(self);
        }
        self.0.bits()
    }
}

} // verus!
