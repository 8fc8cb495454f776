//! In-memory descriptor tables.

use vstd::prelude::*;

use crate::arch::x86::privilege::PrivilegeLevel;
use crate::bits::{
    State, bit_of, field_of, lemma_low_mask_values, get_bit, get_field_u16, get_field_u8, set_bit,
    set_bit_u8, set_field, set_field_u8, with_bit, with_field,
};
use crate::sealed::Sealed;

verus! {

/// An enumeration of all distinct descriptor tables.
#[derive(Debug, Clone, Copy, PartialEq, Eq, PartialOrd, Ord, Hash)]
pub enum DescriptorTableType {
    /// An Interrupt Descriptor Table.
    Idt,
    /// A Global Descriptor Table.
    Gdt,
    /// A Local Descriptor Table.
    Ldt,
}

/// A marker trait that encodes a descriptor table.
pub trait DescriptorTable: Sealed {
    /// The type of this descriptor table.
    spec fn spec_table_type() -> DescriptorTableType;

    /// Returns the type of this descriptor table.
    fn table_type() -> (r: DescriptorTableType)
        ensures
            r == Self::spec_table_type(),
    ;
}

/// An Interrupt Descriptor Table marker type.
#[derive(Debug, Clone, Copy, PartialEq, Eq, PartialOrd, Ord, Hash)]
pub struct Idt;

/// A Global Descriptor Table marker type.
#[derive(Debug, Clone, Copy, PartialEq, Eq, PartialOrd, Ord, Hash)]
pub struct Gdt;

/// A Local Descriptor Table marker type.
#[derive(Debug, Clone, Copy, PartialEq, Eq, PartialOrd, Ord, Hash)]
pub struct Ldt;

impl Sealed for Idt {}

impl DescriptorTable for Idt {
    open spec fn spec_table_type() -> DescriptorTableType {
        DescriptorTableType::Idt
    }

    fn table_type() -> (r: DescriptorTableType) {
        DescriptorTableType::Idt
    }
}

impl Sealed for Gdt {}

impl DescriptorTable for Gdt {
    open spec fn spec_table_type() -> DescriptorTableType {
        DescriptorTableType::Gdt
    }

    fn table_type() -> (r: DescriptorTableType) {
        DescriptorTableType::Gdt
    }
}

impl Sealed for Ldt {}

impl DescriptorTable for Ldt {
    open spec fn spec_table_type() -> DescriptorTableType {
        DescriptorTableType::Ldt
    }

    fn table_type() -> (r: DescriptorTableType) {
        DescriptorTableType::Ldt
    }
}

/// The largest thirteen-bit descriptor-table index.
pub open spec fn max_descriptor_index() -> u16 {
    8191
}

/// A thirteen-bit, nonzero index into a Global or Local Descriptor Table.
///
/// The null descriptor, index zero, is not representable. For multi-slot
/// descriptors the first slot is used.
#[derive(Debug, Clone, Copy, PartialEq, Eq, PartialOrd, Ord, Hash)]
pub struct DescriptorIndex(u16);

impl View for DescriptorIndex {
    type V = u16;

    closed spec fn view(&self) -> u16 {
        self.0
    }
}

impl DescriptorIndex {
    /// The bits used as the underlying index.
    pub const BITS: u32 = 13;

    #[verifier::type_invariant]
    spec fn in_domain(self) -> bool {
        1 <= self.0 <= max_descriptor_index()
    }

    /// The maximum descriptor index.
    #[allow(non_snake_case)]
    pub fn MAX() -> (r: Self)
        ensures
            r@ == max_descriptor_index(),
    {
        Self(8191)
    }

    /// The minimum descriptor index: the first non-null entry of a table.
    #[allow(non_snake_case)]
    pub fn MIN() -> (r: Self)
        ensures
            r@ == 1,
    {
        Self(1)
    }

    /// Creates a descriptor index from its raw selector index.
    ///
    /// Returns `None` for the null index or for a value outside the
    /// thirteen-bit index range.
    pub fn lift(target_index: u16) -> (r: Option<Self>)
        ensures
            r is Some <==> 1 <= target_index <= max_descriptor_index(),
            r matches Some(i) ==> i@ == target_index,
    {
        if target_index == 0 {
            None
        } else {
            Self::new(target_index)
        }
    }

    /// Creates a descriptor index from a nonzero raw index.
    ///
    /// Returns `None` when the index exceeds the thirteen-bit range.
    pub fn new(target_index: u16) -> (r: Option<Self>)
        requires
            target_index != 0,
        ensures
            r is Some <==> target_index <= max_descriptor_index(),
            r matches Some(i) ==> i@ == target_index,
    {
        if target_index <= 8191 {
            Some(Self(target_index))
        } else {
            None
        }
    }

    /// Creates a descriptor index the caller knows to be in range.
    pub fn new_unchecked(target_index: u16) -> (r: Self)
        requires
            1 <= target_index <= max_descriptor_index(),
        ensures
            r@ == target_index,
    {
        Self(target_index)
    }

    /// Retrieves the raw index.
    pub fn raw(&self) -> (r: u16)
        ensures
            r == self@,
            1 <= r <= max_descriptor_index(),
    {
        proof {
            use_type_invariant(self);
        }
        self.0
    }
}

/// The limit encoded in a segment-descriptor image, before granularity
/// scaling: bits 15..0 and 51..48 joined into twenty bits.
pub open spec fn encoded_limit(v: u64) -> int {
    field_of(v, 0, 16) + field_of(v, 48, 4) * 0x1_0000
}

/// The base encoded in a segment-descriptor image: bits 31..16, 39..32 and
/// 63..56 joined into thirty-two bits.
pub open spec fn encoded_base(v: u64) -> int {
    field_of(v, 16, 16) + field_of(v, 32, 8) * 0x1_0000 + field_of(v, 56, 8) * 0x100_0000
}

/// The byte limit a segment descriptor describes: the encoded limit, scaled
/// to 4 KiB units with the low twelve bits filled when granularity is set.
pub open spec fn effective_limit_of(v: u64) -> int {
    if bit_of(v, 55) {
        encoded_limit(v) * 0x1000 + 0xfff
    } else {
        encoded_limit(v)
    }
}

/// The access byte of a flat code or data segment at privilege `dpl`.
pub open spec fn flat_access(dpl: u8, code: bool) -> u64 {
    (if code { 0x9bu64 } else { 0x93u64 }) | ((dpl as u64) << 5)
}

/// A raw segment-descriptor image.
///
/// Every `u64` is representable; no segment or system-descriptor semantics
/// are implied.
#[derive(Debug, Clone, Copy, PartialEq, Eq, PartialOrd, Ord, Hash)]
pub struct RawSegmentDescriptor(u64);

impl View for RawSegmentDescriptor {
    type V = u64;

    closed spec fn view(&self) -> u64 {
        self.0
    }
}

impl RawSegmentDescriptor {
    /// The mandated null segment descriptor.
    #[allow(non_snake_case)]
    pub fn NULL() -> (r: Self)
        ensures
            r@ == 0,
    {
        Self(0)
    }

    /// Constructs a raw segment-descriptor image.
    pub fn new(value: u64) -> (r: Self)
        ensures
            r@ == value,
    {
        Self(value)
    }

    /// Constructs a flat, readable, accessed long-mode code descriptor.
    ///
    /// The limit is all ones at page granularity, and the long-mode flag is
    /// set.
    pub fn long_mode_code(privilege: PrivilegeLevel) -> (r: Self)
        ensures
            r@ == 0x00af_0000_0000_ffffu64 | (flat_access(privilege.value(), true) << 40),
    {
        let dpl = privilege.raw();
        let mut access_byte = RawAccessByte::new(0);
        access_byte.present_mut(State::Raised);
        access_byte.privilege_mut(dpl);
        access_byte.system_mut(State::Raised);
        access_byte.executable_mut(State::Raised);
        access_byte.read_write_mut(State::Raised);
        access_byte.accessed_mut(State::Raised);
        let access = access_byte.raw();
        let mut descriptor = Self::NULL();
        descriptor.limit_low_mut(0xffff);
        descriptor.limit_high_mut(0xf);
        descriptor.access_byte_mut(access);
        descriptor.long_mode_mut(State::Raised);
        descriptor.granularity_mut(State::Raised);
        proof {
            let d = dpl as u64;
            let a = access as u64;
            let v = descriptor@;
            assert(v == (0x00af_0000_0000_ffffu64 | ((0x9bu64 | (d << 5u64)) << 40u64))) by (bit_vector)
                requires
                    a == ((((((0u64 | (1u64 << 7u64)) & !(!(u64::MAX << 2u64) << 5u64)) | ((d
                        & !(u64::MAX << 2u64)) << 5u64)) | (1u64 << 4u64)) | (1u64 << 3u64)) | (1u64
                        << 1u64)) | (1u64 << 0u64),
                    v == (((((0u64 & !(!(u64::MAX << 16u64) << 0u64)) | ((0xffffu64 & !(
                    u64::MAX << 16u64)) << 0u64)) & !(!(u64::MAX << 4u64) << 48u64)) | ((0xfu64 & !(
                    u64::MAX << 4u64)) << 48u64)) & !(!(u64::MAX << 8u64) << 40u64) | ((a & !(u64::MAX
                        << 8u64)) << 40u64)) | (1u64 << 53u64) | (1u64 << 55u64),
                    d <= 3,
            ;
        }
        descriptor
    }

    /// Constructs a flat, writable, accessed data descriptor with the default
    /// operand-size flag set.
    ///
    /// The limit is all ones at page granularity.
    pub fn flat_data(privilege: PrivilegeLevel) -> (r: Self)
        ensures
            r@ == 0x00cf_0000_0000_ffffu64 | (flat_access(privilege.value(), false) << 40),
    {
        let dpl = privilege.raw();
        let mut access_byte = RawAccessByte::new(0);
        access_byte.present_mut(State::Raised);
        access_byte.privilege_mut(dpl);
        access_byte.system_mut(State::Raised);
        access_byte.read_write_mut(State::Raised);
        access_byte.accessed_mut(State::Raised);
        let access = access_byte.raw();
        let mut descriptor = Self::NULL();
        descriptor.limit_low_mut(0xffff);
        descriptor.limit_high_mut(0xf);
        descriptor.access_byte_mut(access);
        descriptor.default_size_mut(State::Raised);
        descriptor.granularity_mut(State::Raised);
        proof {
            let d = dpl as u64;
            let a = access as u64;
            let v = descriptor@;
            assert(v == (0x00cf_0000_0000_ffffu64 | ((0x93u64 | (d << 5u64)) << 40u64))) by (bit_vector)
                requires
                    a == (((((0u64 | (1u64 << 7u64)) & !(!(u64::MAX << 2u64) << 5u64)) | ((d
                        & !(u64::MAX << 2u64)) << 5u64)) | (1u64 << 4u64)) | (1u64 << 1u64)) | (1u64
                        << 0u64),
                    v == (((((0u64 & !(!(u64::MAX << 16u64) << 0u64)) | ((0xffffu64 & !(
                    u64::MAX << 16u64)) << 0u64)) & !(!(u64::MAX << 4u64) << 48u64)) | ((0xfu64 & !(
                    u64::MAX << 4u64)) << 48u64)) & !(!(u64::MAX << 8u64) << 40u64) | ((a & !(u64::MAX
                        << 8u64)) << 40u64)) | (1u64 << 54u64) | (1u64 << 55u64),
                    d <= 3,
            ;
        }
        descriptor
    }

    /// Returns the encoded descriptor value.
    pub fn raw(self) -> (r: u64)
        ensures
            r == self@,
    {
        self.0
    }

    /// Returns the thirty-two-bit base encoded by this descriptor.
    pub fn base(&self) -> (r: u32)
        ensures
            r == encoded_base(self@),
    {
        let low = get_field_u16(self.0, 16, 16) as u32;
        let middle = get_field_u8(self.0, 32, 8) as u32;
        let high = get_field_u8(self.0, 56, 8) as u32;
        proof {
            assert(low | (middle << 16u32) | (high << 24u32) == low + middle * 0x1_0000 + high
                * 0x100_0000) by (bit_vector)
                requires
                    low <= 0xffff,
                    middle <= 0xff,
                    high <= 0xff,
            ;
        }
        low | (middle << 16) | (high << 24)
    }

    /// Returns the effective byte limit described by this descriptor.
    pub fn effective_limit(&self) -> (r: u32)
        ensures
            r == effective_limit_of(self@),
    {
        let low = get_field_u16(self.0, 0, 16) as u32;
        let high = get_field_u8(self.0, 48, 4) as u32;
        let encoded = low | (high << 16);
        proof {
            lemma_low_mask_values();
            assert(encoded == low + high * 0x1_0000 && (encoded << 12u32) | 0xfffu32 == encoded
                * 0x1000 + 0xfff) by (bit_vector)
                requires
                    encoded == low | (high << 16u32),
                    low <= 0xffff,
                    high <= 0xf,
            ;
        }
        match get_bit(self.0, 55) {
            State::Cleared => encoded,
            State::Raised => (encoded << 12) | 0x0fff,
        }
    }

    /// Returns the raw access byte encoded by this descriptor.
    pub fn access(&self) -> (r: RawAccessByte)
        ensures
            r@ == field_of(self@, 40, 8),
    {
        RawAccessByte::new(get_field_u8(self.0, 40, 8))
    }

    /// Determines whether the available-for-system-software flag is set.
    pub fn is_available(&self) -> (r: bool)
        ensures
            r == bit_of(self@, 52),
    {
        get_bit(self.0, 52).set()
    }

    /// Determines whether this descriptor selects 64-bit code semantics.
    pub fn is_long_mode(&self) -> (r: bool)
        ensures
            r == bit_of(self@, 53),
    {
        get_bit(self.0, 53).set()
    }

    /// Determines whether the default operand-size flag is set.
    pub fn has_default_size(&self) -> (r: bool)
        ensures
            r == bit_of(self@, 54),
    {
        get_bit(self.0, 54).set()
    }

    /// Determines whether the limit uses 4 KiB granularity.
    pub fn has_page_granularity(&self) -> (r: bool)
        ensures
            r == bit_of(self@, 55),
    {
        get_bit(self.0, 55).set()
    }

    /// Determines the available-for-system-software flag.
    pub fn available(&self) -> (r: State)
        ensures
            r == State::of(bit_of(self@, 52)),
    {
        get_bit(self.0, 52)
    }

    /// Determines the 64-bit code-segment flag.
    pub fn long_mode(&self) -> (r: State)
        ensures
            r == State::of(bit_of(self@, 53)),
    {
        get_bit(self.0, 53)
    }

    /// Sets or clears the 64-bit code-segment flag.
    pub fn long_mode_mut(&mut self, state: State)
        ensures
            final(self)@ == with_bit(old(self)@, 53, state.is_set()),
    {
        self.0 = set_bit(self.0, 53, state);
    }

    /// Determines the default operand-size flag.
    pub fn default_size(&self) -> (r: State)
        ensures
            r == State::of(bit_of(self@, 54)),
    {
        get_bit(self.0, 54)
    }

    /// Sets or clears the default operand-size flag.
    pub fn default_size_mut(&mut self, state: State)
        ensures
            final(self)@ == with_bit(old(self)@, 54, state.is_set()),
    {
        self.0 = set_bit(self.0, 54, state);
    }

    /// Determines the limit-granularity flag.
    pub fn granularity(&self) -> (r: State)
        ensures
            r == State::of(bit_of(self@, 55)),
    {
        get_bit(self.0, 55)
    }

    /// Sets or clears the limit-granularity flag.
    pub fn granularity_mut(&mut self, state: State)
        ensures
            final(self)@ == with_bit(old(self)@, 55, state.is_set()),
    {
        self.0 = set_bit(self.0, 55, state);
    }

    /// Accesses the Limit field (low part, bits 15..0) in this descriptor.
    pub fn limit_low(&self) -> (r: u16)
        ensures
            r == field_of(self@, 0, 16),
    {
        get_field_u16(self.0, 0, 16)
    }

    /// Writes the Limit field (low part, bits 15..0) in this descriptor.
    pub fn limit_low_mut(&mut self, value: u16)
        ensures
            final(self)@ == with_field(old(self)@, 0, 16, (value as u64)),
    {
        self.0 = set_field(self.0, 0, 16, (value as u64));
    }

    /// Accesses the Limit field (high part, bits 51..48) in this descriptor.
    pub fn limit_high(&self) -> (r: u8)
        ensures
            r == field_of(self@, 48, 4),
    {
        get_field_u8(self.0, 48, 4)
    }

    /// Writes the Limit field (high part, bits 51..48) in this descriptor.
    pub fn limit_high_mut(&mut self, value: u8)
        ensures
            final(self)@ == with_field(old(self)@, 48, 4, (value as u64)),
    {
        self.0 = set_field(self.0, 48, 4, (value as u64));
    }

    /// Accesses the Base field (low part, bits 31..16) in this descriptor.
    pub fn base_low(&self) -> (r: u16)
        ensures
            r == field_of(self@, 16, 16),
    {
        get_field_u16(self.0, 16, 16)
    }

    /// Writes the Base field (low part, bits 31..16) in this descriptor.
    pub fn base_low_mut(&mut self, value: u16)
        ensures
            final(self)@ == with_field(old(self)@, 16, 16, (value as u64)),
    {
        self.0 = set_field(self.0, 16, 16, (value as u64));
    }

    /// Accesses the Base field (middle part, bits 39..32) in this descriptor.
    pub fn base_middle(&self) -> (r: u8)
        ensures
            r == field_of(self@, 32, 8),
    {
        get_field_u8(self.0, 32, 8)
    }

    /// Writes the Base field (middle part, bits 39..32) in this descriptor.
    pub fn base_middle_mut(&mut self, value: u8)
        ensures
            final(self)@ == with_field(old(self)@, 32, 8, (value as u64)),
    {
        self.0 = set_field(self.0, 32, 8, (value as u64));
    }

    /// Accesses the Base field (high part, bits 63..56) in this descriptor.
    pub fn base_high(&self) -> (r: u8)
        ensures
            r == field_of(self@, 56, 8),
    {
        get_field_u8(self.0, 56, 8)
    }

    /// Writes the Base field (high part, bits 63..56) in this descriptor.
    pub fn base_high_mut(&mut self, value: u8)
        ensures
            final(self)@ == with_field(old(self)@, 56, 8, (value as u64)),
    {
        self.0 = set_field(self.0, 56, 8, (value as u64));
    }

    /// Accesses the Flags field (bits 55..52) in this descriptor.
    pub fn flags(&self) -> (r: u8)
        ensures
            r == field_of(self@, 52, 4),
    {
        get_field_u8(self.0, 52, 4)
    }

    /// Writes the Flags field (bits 55..52) in this descriptor.
    pub fn flags_mut(&mut self, value: u8)
        ensures
            final(self)@ == with_field(old(self)@, 52, 4, (value as u64)),
    {
        self.0 = set_field(self.0, 52, 4, (value as u64));
    }

    /// Accesses the Access Byte field (bits 47..40) in this descriptor.
    pub fn access_byte(&self) -> (r: u8)
        ensures
            r == field_of(self@, 40, 8),
    {
        get_field_u8(self.0, 40, 8)
    }

    /// Writes the Access Byte field (bits 47..40) in this descriptor.
    pub fn access_byte_mut(&mut self, value: u8)
        ensures
            final(self)@ == with_field(old(self)@, 40, 8, (value as u64)),
    {
        self.0 = set_field(self.0, 40, 8, (value as u64));
    }
}

/// System descriptor type values of the Type field in an access byte.
#[derive(Debug, Clone, Copy, PartialEq, Eq, PartialOrd, Ord, Hash)]
#[non_exhaustive]
pub enum SystemDescriptorType {
    /// 16-bit available Task State Segment; not available in long mode.
    TssAvailable16,
    /// Local Descriptor Table.
    Ldt,
    /// 16-bit busy Task State Segment; not available in long mode.
    TssBusy16,
    /// 16-bit call gate; not available in long mode.
    CallGate16,
    /// Task gate, for protected-mode hardware task switching.
    TaskGate,
    /// 16-bit interrupt gate; not available in long mode.
    InterruptGate16,
    /// 16-bit trap gate; not available in long mode.
    TrapGate16,
    /// Available 32-bit TSS, or 64-bit TSS in long mode.
    TssAvailable32,
    /// Busy 32-bit TSS, or 64-bit TSS in long mode.
    TssBusy32,
    /// 32-bit call gate; not available in long mode.
    CallGate32,
    /// 32-bit interrupt gate, or 64-bit interrupt gate in long mode.
    InterruptGate32,
    /// 32-bit trap gate, or 64-bit trap gate in long mode.
    TrapGate32,
}

impl SystemDescriptorType {
    /// The four-bit type code of this descriptor type.
    pub open spec fn value(self) -> u8 {
        match self {
            SystemDescriptorType::TssAvailable16 => 0x1,
            SystemDescriptorType::Ldt => 0x2,
            SystemDescriptorType::TssBusy16 => 0x3,
            SystemDescriptorType::CallGate16 => 0x4,
            SystemDescriptorType::TaskGate => 0x5,
            SystemDescriptorType::InterruptGate16 => 0x6,
            SystemDescriptorType::TrapGate16 => 0x7,
            SystemDescriptorType::TssAvailable32 => 0x9,
            SystemDescriptorType::TssBusy32 => 0xB,
            SystemDescriptorType::CallGate32 => 0xC,
            SystemDescriptorType::InterruptGate32 => 0xE,
            SystemDescriptorType::TrapGate32 => 0xF,
        }
    }

    /// Returns the four-bit type code of this descriptor type.
    pub fn raw(self) -> (r: u8)
        ensures
            r == self.value(),
    {
        match self {
            SystemDescriptorType::TssAvailable16 => 0x1,
            SystemDescriptorType::Ldt => 0x2,
            SystemDescriptorType::TssBusy16 => 0x3,
            SystemDescriptorType::CallGate16 => 0x4,
            SystemDescriptorType::TaskGate => 0x5,
            SystemDescriptorType::InterruptGate16 => 0x6,
            SystemDescriptorType::TrapGate16 => 0x7,
            SystemDescriptorType::TssAvailable32 => 0x9,
            SystemDescriptorType::TssBusy32 => 0xB,
            SystemDescriptorType::CallGate32 => 0xC,
            SystemDescriptorType::InterruptGate32 => 0xE,
            SystemDescriptorType::TrapGate32 => 0xF,
        }
    }

    /// Identifies a type code; codes 0x0, 0x8, 0xA and 0xD are reserved.
    pub fn lift(code: u8) -> (r: Option<Self>)
        ensures
            r matches Some(t) ==> t.value() == code,
            r is None <==> (code == 0 || code == 8 || code == 0xA || code == 0xD || code > 0xF),
    {
        match code {
            0x1 => Some(SystemDescriptorType::TssAvailable16),
            0x2 => Some(SystemDescriptorType::Ldt),
            0x3 => Some(SystemDescriptorType::TssBusy16),
            0x4 => Some(SystemDescriptorType::CallGate16),
            0x5 => Some(SystemDescriptorType::TaskGate),
            0x6 => Some(SystemDescriptorType::InterruptGate16),
            0x7 => Some(SystemDescriptorType::TrapGate16),
            0x9 => Some(SystemDescriptorType::TssAvailable32),
            0xB => Some(SystemDescriptorType::TssBusy32),
            0xC => Some(SystemDescriptorType::CallGate32),
            0xE => Some(SystemDescriptorType::InterruptGate32),
            0xF => Some(SystemDescriptorType::TrapGate32),
            _ => None,
        }
    }
}

/// An access byte of a segment descriptor.
///
/// Every bit pattern is kept as one complete architectural access byte,
/// without a higher-level descriptor-class interpretation.
#[derive(Debug, Clone, Copy, PartialEq, Eq, PartialOrd, Ord, Hash)]
pub struct RawAccessByte(u8);

impl View for RawAccessByte {
    type V = u8;

    closed spec fn view(&self) -> u8 {
        self.0
    }
}

impl RawAccessByte {
    /// Constructs a raw access byte from its architectural image.
    pub fn new(value: u8) -> (r: Self)
        ensures
            r@ == value,
    {
        Self(value)
    }

    /// Returns the architectural access-byte image.
    pub fn raw(self) -> (r: u8)
        ensures
            r == self@,
    {
        self.0
    }

    /// Returns the four descriptor type bits without class interpretation.
    pub fn type_bits(&self) -> (r: u8)
        ensures
            r == field_of(self@ as u64, 0, 4),
    {
        get_field_u8(self.0 as u64, 0, 4)
    }

    /// Returns the descriptor privilege level.
    pub fn dpl(&self) -> (r: u8)
        ensures
            r == field_of(self@ as u64, 5, 2),
    {
        get_field_u8(self.0 as u64, 5, 2)
    }

    /// Determines whether this descriptor is present.
    pub fn is_present(&self) -> (r: bool)
        ensures
            r == bit_of(self@ as u64, 7),
    {
        get_bit(self.0 as u64, 7).set()
    }

    /// Determines whether the descriptor-class bit selects code or data.
    pub fn is_code_or_data(&self) -> (r: bool)
        ensures
            r == bit_of(self@ as u64, 4),
    {
        get_bit(self.0 as u64, 4).set()
    }

    /// Accesses the Present bit in this access byte.
    pub fn present(&self) -> (r: State)
        ensures
            r == State::of(bit_of((self@ as u64), 7)),
    {
        get_bit((self.0 as u64), 7)
    }

    /// Sets or clears the Present bit in this access byte.
    pub fn present_mut(&mut self, state: State)
        ensures
            (final(self)@ as u64) == with_bit((old(self)@ as u64), 7, state.is_set()),
    {
        self.0 = set_bit_u8(self.0, 7, state);
    }

    /// Accesses the descriptor-class (System) bit in this access byte.
    pub fn system(&self) -> (r: State)
        ensures
            r == State::of(bit_of((self@ as u64), 4)),
    {
        get_bit((self.0 as u64), 4)
    }

    /// Sets or clears the descriptor-class (System) bit in this access byte.
    pub fn system_mut(&mut self, state: State)
        ensures
            (final(self)@ as u64) == with_bit((old(self)@ as u64), 4, state.is_set()),
    {
        self.0 = set_bit_u8(self.0, 4, state);
    }

    /// Accesses the Executable bit in this access byte.
    pub fn executable(&self) -> (r: State)
        ensures
            r == State::of(bit_of((self@ as u64), 3)),
    {
        get_bit((self.0 as u64), 3)
    }

    /// Sets or clears the Executable bit in this access byte.
    pub fn executable_mut(&mut self, state: State)
        ensures
            (final(self)@ as u64) == with_bit((old(self)@ as u64), 3, state.is_set()),
    {
        self.0 = set_bit_u8(self.0, 3, state);
    }

    /// Accesses the Direction/Conforming bit in this access byte.
    pub fn direction(&self) -> (r: State)
        ensures
            r == State::of(bit_of((self@ as u64), 2)),
    {
        get_bit((self.0 as u64), 2)
    }

    /// Sets or clears the Direction/Conforming bit in this access byte.
    pub fn direction_mut(&mut self, state: State)
        ensures
            (final(self)@ as u64) == with_bit((old(self)@ as u64), 2, state.is_set()),
    {
        self.0 = set_bit_u8(self.0, 2, state);
    }

    /// Accesses the Read/Write bit in this access byte.
    pub fn read_write(&self) -> (r: State)
        ensures
            r == State::of(bit_of((self@ as u64), 1)),
    {
        get_bit((self.0 as u64), 1)
    }

    /// Sets or clears the Read/Write bit in this access byte.
    pub fn read_write_mut(&mut self, state: State)
        ensures
            (final(self)@ as u64) == with_bit((old(self)@ as u64), 1, state.is_set()),
    {
        self.0 = set_bit_u8(self.0, 1, state);
    }

    /// Accesses the Accessed bit in this access byte.
    pub fn accessed(&self) -> (r: State)
        ensures
            r == State::of(bit_of((self@ as u64), 0)),
    {
        get_bit((self.0 as u64), 0)
    }

    /// Sets or clears the Accessed bit in this access byte.
    pub fn accessed_mut(&mut self, state: State)
        ensures
            (final(self)@ as u64) == with_bit((old(self)@ as u64), 0, state.is_set()),
    {
        self.0 = set_bit_u8(self.0, 0, state);
    }

    /// Accesses the Descriptor Privilege Level field.
    pub fn privilege(&self) -> (r: u8)
        ensures
            r == field_of((self@ as u64), 5, 2),
    {
        get_field_u8((self.0 as u64), 5, 2)
    }

    /// Writes the Descriptor Privilege Level field.
    pub fn privilege_mut(&mut self, value: u8)
        ensures
            (final(self)@ as u64) == with_field((old(self)@ as u64), 5, 2, (value as u64)),
    {
        self.0 = set_field_u8(self.0, 5, 2, (value as u64));
    }

    /// Accesses the system-descriptor Type field, which overlaps the
    /// Executable, Direction, Read/Write and Accessed bits.
    pub fn descriptor_type(&self) -> (r: u8)
        ensures
            r == field_of((self@ as u64), 0, 4),
    {
        get_field_u8((self.0 as u64), 0, 4)
    }

    /// Writes the system-descriptor Type field, which overlaps the
    /// Executable, Direction, Read/Write and Accessed bits.
    pub fn descriptor_type_mut(&mut self, value: u8)
        ensures
            (final(self)@ as u64) == with_field((old(self)@ as u64), 0, 4, (value as u64)),
    {
        self.0 = set_field_u8(self.0, 0, 4, (value as u64));
    }
}

} // verus!
