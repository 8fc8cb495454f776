//! Long-mode descriptor-table registers and the task-state-segment
//! descriptor.

use vstd::prelude::*;

use crate::agnostic::partitioned::Partitioned;
use crate::arch::x86::descriptor::{DescriptorIndex, DescriptorTable, Gdt, Idt, SystemDescriptorType};
use crate::arch::x86_64::paging::address::La;
use crate::arch::x86_64::task::{MAX_SEGMENT_LIMIT, RawTaskStateSegment, TASK_STATE_BASE_SIZE};
use crate::bits::{
    State, bit_of, field_of, get_bit, get_field, get_field_u16, get_field_u32, get_field_u8,
    set_bit, set_field, u64_le_bytes, with_bit, with_field,
};

verus! {

/// A descriptor-table register value: the linear base of a table of kind `T`
/// and its limit, the table's length in bytes minus one.
#[derive(Debug, PartialEq, Eq, PartialOrd, Ord, Hash)]
pub struct DescriptorTableRegister<T: DescriptorTable> {
    base: La,
    limit: u16,
    table: core::marker::PhantomData<T>,
}

/// The GDTR value.
pub type GdtRegister = DescriptorTableRegister<Gdt>;

/// The IDTR value.
pub type IdtRegister = DescriptorTableRegister<Idt>;

impl<T: DescriptorTable> View for DescriptorTableRegister<T> {
    type V = (u64, u16);

    /// The base address and the limit.
    closed spec fn view(&self) -> (u64, u16) {
        (self.base@, self.limit)
    }
}

impl<T: DescriptorTable> Clone for DescriptorTableRegister<T> {
    fn clone(&self) -> (r: Self)
        ensures
            r@ == self@,
    {
        DescriptorTableRegister { base: self.base, limit: self.limit, table: core::marker::PhantomData }
    }
}

impl<T: DescriptorTable> Copy for DescriptorTableRegister<T> {

}

impl<T: DescriptorTable> DescriptorTableRegister<T> {
    /// Composes a register value from a base and a limit.
    pub fn new(base: La, limit: u16) -> (r: Self)
        ensures
            r@ == (base@, limit),
    {
        DescriptorTableRegister { base, limit, table: core::marker::PhantomData }
    }

    /// The register value for a table of `byte_length` bytes, when its limit
    /// fits the 16-bit limit field.
    pub fn fit(base: La, byte_length: u32) -> (r: Option<Self>)
        requires
            byte_length != 0,
        ensures
            r is Some <==> byte_length - 1 <= u16::MAX,
            r matches Some(d) ==> d@ == (base@, (byte_length - 1) as u16),
    {
        let target_value = byte_length - 1;
        if target_value <= 0xffff {
            Some(Self::new(base, target_value as u16))
        } else {
            None
        }
    }

    /// The base address.
    pub fn base(&self) -> (r: La)
        ensures
            r@ == self@.0,
    {
        self.base
    }

    /// The limit.
    pub fn limit(&self) -> (r: u16)
        ensures
            r == self@.1,
    {
        self.limit
    }
}

/// The GDT index of the supervisor code segment.
#[allow(non_snake_case)]
pub fn SUPERVISOR_CODE_INDEX() -> (r: DescriptorIndex)
    ensures
        r@ == 1,
{
    DescriptorIndex::new_unchecked(1)
}

/// The GDT index of the supervisor data segment.
#[allow(non_snake_case)]
pub fn SUPERVISOR_DATA_INDEX() -> (r: DescriptorIndex)
    ensures
        r@ == 2,
{
    DescriptorIndex::new_unchecked(2)
}

/// The GDT index of the task-state-segment descriptor.
#[allow(non_snake_case)]
pub fn TASK_INDEX() -> (r: DescriptorIndex)
    ensures
        r@ == 3,
{
    DescriptorIndex::new_unchecked(3)
}

/// The low eight bytes of a sixteen-byte system descriptor.
pub type TssDescriptorLow = Partitioned<0, 63>;

/// The high eight bytes of a sixteen-byte system descriptor.
pub type TssDescriptorHigh = Partitioned<64, 127>;

/// The low word of the descriptor of an available long-mode TSS at ring zero
/// with base `base` and limit `limit`: limit 15..0 in bits 15..0, base 23..0
/// in bits 39..16, type 9 in bits 43..40, present bit 47, limit 19..16 in
/// bits 51..48 and base 31..24 in bits 63..56.
pub open spec fn tss_low_image(base: u64, limit: u64) -> u64 {
    field_of(limit, 0, 16) | (field_of(base, 0, 16) << 16u64) | (field_of(base, 16, 8) << 32u64) | (
    9u64 << 40u64) | (1u64 << 47u64) | (field_of(limit, 16, 4) << 48u64) | (field_of(base, 24, 8)
        << 56u64)
}

/// The low word of such a descriptor carries the type of an available TSS,
/// privilege zero and the present bit.
pub proof fn lemma_tss_low_image(base: u64, limit: u64)
    ensures
        field_of(tss_low_image(base, limit), 40, 4) == 9,
        field_of(tss_low_image(base, limit), 45, 2) == 0,
        bit_of(tss_low_image(base, limit), 47),
{
    let v = tss_low_image(base, limit);
    assert(((v >> 40u64) & !(u64::MAX << 4u64)) == 9u64 && ((v >> 45u64) & !(u64::MAX << 2u64))
        == 0u64 && ((v >> 47u64) & 1u64) == 1u64) by (bit_vector)
        requires
            v == ((limit >> 0u64) & !(u64::MAX << 16u64)) | (((base >> 0u64) & !(u64::MAX
                << 16u64)) << 16u64) | (((base >> 16u64) & !(u64::MAX << 8u64)) << 32u64) | (9u64
                << 40u64) | (1u64 << 47u64) | (((limit >> 16u64) & !(u64::MAX << 4u64)) << 48u64)
                | (((base >> 24u64) & !(u64::MAX << 8u64)) << 56u64),
    ;
}

/// The raw sixteen-byte long-mode TSS descriptor; every image is
/// representable.
#[derive(Debug, Clone, Copy, PartialEq, Eq, PartialOrd, Ord, Hash)]
pub struct RawLongModeTssDescriptor(TssDescriptorLow, TssDescriptorHigh);

impl View for RawLongModeTssDescriptor {
    type V = (u64, u64);

    /// The low and high words.
    closed spec fn view(&self) -> (u64, u64) {
        (self.0@, self.1@)
    }
}

impl RawLongModeTssDescriptor {
    /// Composes a descriptor from its two words.
    pub fn new(low: u64, high: u64) -> (r: Self)
        ensures
            r@ == (low, high),
    {
        Self(TssDescriptorLow::raw(low), TssDescriptorHigh::raw(high))
    }

    /// The sixteen-byte image of the descriptor as it is stored in the GDT:
    /// the low word then the high word, each little-endian.
    pub fn to_bytes(&self) -> (r: [u8; 16])
        ensures
            r@ == vstd::bytes::spec_u64_to_le_bytes(self@.0) + vstd::bytes::spec_u64_to_le_bytes(
                self@.1,
            ),
    {
        let low = u64_le_bytes(*self.0.value());
        let high = u64_le_bytes(*self.1.value());
        let r: [u8; 16] = [
            low[0],
            low[1],
            low[2],
            low[3],
            low[4],
            low[5],
            low[6],
            low[7],
            high[0],
            high[1],
            high[2],
            high[3],
            high[4],
            high[5],
            high[6],
            high[7],
        ];
        assert(r@ =~= low@ + high@);
        r
    }

    /// The low word.
    pub fn low(&self) -> (r: &TssDescriptorLow)
        ensures
            r@ == self@.0,
    {
        &self.0
    }

    /// The low word, for writing.
    pub fn low_mut(&mut self) -> (r: &mut TssDescriptorLow)
        ensures
            r@ == old(self)@.0,
            final(self)@ == (final(r)@, old(self)@.1),
    {
        &mut self.0
    }

    /// The high word.
    pub fn high(&self) -> (r: &TssDescriptorHigh)
        ensures
            r@ == self@.1,
    {
        &self.1
    }

    /// The high word, for writing.
    pub fn high_mut(&mut self) -> (r: &mut TssDescriptorHigh)
        ensures
            r@ == old(self)@.1,
            final(self)@ == (old(self)@.0, final(r)@),
    {
        &mut self.1
    }

    /// Reads bits 15..0 of the limit.
    pub fn limit_low(&self) -> (r: u16)
        ensures
            r == field_of(self@.0, 0, 16),
    {
        get_field_u16(*self.0.value(), 0, 16)
    }

    /// Writes bits 15..0 of the limit; the other bits stay.
    pub fn limit_low_mut(&mut self, value: u16)
        ensures
            final(self)@ == (with_field(old(self)@.0, 0, 16, value as u64), old(self)@.1),
    {
        self.0 = TssDescriptorLow::raw(set_field(*self.0.value(), 0, 16, value as u64));
    }

    /// Reads bits 15..0 of the base.
    pub fn base_low(&self) -> (r: u16)
        ensures
            r == field_of(self@.0, 16, 16),
    {
        get_field_u16(*self.0.value(), 16, 16)
    }

    /// Writes bits 15..0 of the base; the other bits stay.
    pub fn base_low_mut(&mut self, value: u16)
        ensures
            final(self)@ == (with_field(old(self)@.0, 16, 16, value as u64), old(self)@.1),
    {
        self.0 = TssDescriptorLow::raw(set_field(*self.0.value(), 16, 16, value as u64));
    }

    /// Reads bits 23..16 of the base.
    pub fn base_middle(&self) -> (r: u8)
        ensures
            r == field_of(self@.0, 32, 8),
    {
        get_field_u8(*self.0.value(), 32, 8)
    }

    /// Writes bits 23..16 of the base; the other bits stay.
    pub fn base_middle_mut(&mut self, value: u8)
        ensures
            final(self)@ == (with_field(old(self)@.0, 32, 8, value as u64), old(self)@.1),
    {
        self.0 = TssDescriptorLow::raw(set_field(*self.0.value(), 32, 8, value as u64));
    }

    /// Reads the system-descriptor type.
    pub fn descriptor_type(&self) -> (r: u8)
        ensures
            r == field_of(self@.0, 40, 4),
    {
        get_field_u8(*self.0.value(), 40, 4)
    }

    /// Writes the system-descriptor type; the other bits stay.
    pub fn descriptor_type_mut(&mut self, value: u8)
        ensures
            final(self)@ == (with_field(old(self)@.0, 40, 4, value as u64), old(self)@.1),
    {
        self.0 = TssDescriptorLow::raw(set_field(*self.0.value(), 40, 4, value as u64));
    }

    /// Reads the descriptor privilege level.
    pub fn privilege(&self) -> (r: u8)
        ensures
            r == field_of(self@.0, 45, 2),
    {
        get_field_u8(*self.0.value(), 45, 2)
    }

    /// Writes the descriptor privilege level; the other bits stay.
    pub fn privilege_mut(&mut self, value: u8)
        ensures
            final(self)@ == (with_field(old(self)@.0, 45, 2, value as u64), old(self)@.1),
    {
        self.0 = TssDescriptorLow::raw(set_field(*self.0.value(), 45, 2, value as u64));
    }

    /// Reads the present bit.
    pub fn present(&self) -> (r: State)
        ensures
            r == State::of(bit_of(self@.0, 47)),
    {
        get_bit(*self.0.value(), 47)
    }

    /// Sets or clears the present bit; the other bits stay.
    pub fn present_mut(&mut self, state: State)
        ensures
            final(self)@ == (with_bit(old(self)@.0, 47, state.is_set()), old(self)@.1),
    {
        self.0 = TssDescriptorLow::raw(set_bit(*self.0.value(), 47, state));
    }

    /// Reads bits 19..16 of the limit.
    pub fn limit_high(&self) -> (r: u8)
        ensures
            r == field_of(self@.0, 48, 4),
    {
        get_field_u8(*self.0.value(), 48, 4)
    }

    /// Writes bits 19..16 of the limit; the other bits stay.
    pub fn limit_high_mut(&mut self, value: u8)
        ensures
            final(self)@ == (with_field(old(self)@.0, 48, 4, value as u64), old(self)@.1),
    {
        self.0 = TssDescriptorLow::raw(set_field(*self.0.value(), 48, 4, value as u64));
    }

    /// Reads bits 31..24 of the base.
    pub fn base_high(&self) -> (r: u8)
        ensures
            r == field_of(self@.0, 56, 8),
    {
        get_field_u8(*self.0.value(), 56, 8)
    }

    /// Writes bits 31..24 of the base; the other bits stay.
    pub fn base_high_mut(&mut self, value: u8)
        ensures
            final(self)@ == (with_field(old(self)@.0, 56, 8, value as u64), old(self)@.1),
    {
        self.0 = TssDescriptorLow::raw(set_field(*self.0.value(), 56, 8, value as u64));
    }

    /// Reads bits 63..32 of the base.
    pub fn base_upper(&self) -> (r: u32)
        ensures
            r == field_of(self@.1, 0, 32),
    {
        get_field_u32(*self.1.value(), 0, 32)
    }

    /// Writes bits 63..32 of the base; the other bits stay.
    pub fn base_upper_mut(&mut self, value: u32)
        ensures
            final(self)@ == (old(self)@.0, with_field(old(self)@.1, 0, 32, value as u64)),
    {
        self.1 = TssDescriptorHigh::raw(set_field(*self.1.value(), 0, 32, value as u64));
    }
}

/// The descriptor of an available long-mode TSS at ring zero, present, with a
/// canonical base and the limit of the task-state area it was built for.
#[derive(Debug, Clone, Copy, PartialEq, Eq, PartialOrd, Ord, Hash)]
pub struct LongModeTssDescriptor(RawLongModeTssDescriptor);

impl View for LongModeTssDescriptor {
    type V = (u64, u64);

    closed spec fn view(&self) -> (u64, u64) {
        self.0@
    }
}

impl LongModeTssDescriptor {
    #[verifier::type_invariant]
    spec fn available_tss_at_ring0(self) -> bool {
        &&& field_of(self.0@.0, 40, 4) == 9
        &&& field_of(self.0@.0, 45, 2) == 0
        &&& bit_of(self.0@.0, 47)
    }

    /// The descriptor of the task-state segment `state` placed at `base`,
    /// when the segment's limit fits the descriptor.
    pub fn new<const N: usize>(base: La, state: &RawTaskStateSegment<N>) -> (r: Option<Self>)
        ensures
            r is Some <==> TASK_STATE_BASE_SIZE + N - 1 <= MAX_SEGMENT_LIMIT,
            r matches Some(d) ==> d@ == (
                tss_low_image(base@, (TASK_STATE_BASE_SIZE + N - 1) as u64),
                field_of(base@, 32, 32),
            ),
    {
        match state.limit() {
            Some(limit) => {
                let target_value = base.bits();
                let descriptor_kind = SystemDescriptorType::TssAvailable32.raw() as u64;
                let low = get_field(limit, 0, 16) | (get_field(target_value, 0, 16) << 16u64) | (
                get_field(target_value, 16, 8) << 32u64) | (descriptor_kind << 40u64) | (1u64
                    << 47u64) | (get_field(limit, 16, 4) << 48u64) | (get_field(
                    target_value,
                    24,
                    8,
                ) << 56u64);
                let high = get_field(target_value, 32, 32);
                proof {
                    lemma_tss_low_image(target_value, limit);
                }
                Some(Self(RawLongModeTssDescriptor::new(low, high)))
            },
            None => None,
        }
    }

    /// The raw descriptor.
    pub fn raw(self) -> (r: RawLongModeTssDescriptor)
        ensures
            r@ == self@,
    {
        self.0
    }

    /// Reads bits 15..0 of the limit.
    pub fn limit_low(&self) -> (r: u16)
        ensures
            r == field_of(self@.0, 0, 16),
    {
        self.0.limit_low()
    }

    /// Reads bits 15..0 of the base.
    pub fn base_low(&self) -> (r: u16)
        ensures
            r == field_of(self@.0, 16, 16),
    {
        self.0.base_low()
    }

    /// Reads bits 23..16 of the base.
    pub fn base_middle(&self) -> (r: u8)
        ensures
            r == field_of(self@.0, 32, 8),
    {
        self.0.base_middle()
    }

    /// Reads the system-descriptor type.
    pub fn descriptor_type(&self) -> (r: u8)
        ensures
            r == field_of(self@.0, 40, 4),
    {
        self.0.descriptor_type()
    }

    /// Reads the descriptor privilege level.
    pub fn privilege(&self) -> (r: u8)
        ensures
            r == field_of(self@.0, 45, 2),
    {
        self.0.privilege()
    }

    /// Reads the present bit.
    pub fn present(&self) -> (r: State)
        ensures
            r == State::of(bit_of(self@.0, 47)),
    {
        self.0.present()
    }

    /// Reads bits 19..16 of the limit.
    pub fn limit_high(&self) -> (r: u8)
        ensures
            r == field_of(self@.0, 48, 4),
    {
        self.0.limit_high()
    }

    /// Reads bits 31..24 of the base.
    pub fn base_high(&self) -> (r: u8)
        ensures
            r == field_of(self@.0, 56, 8),
    {
        self.0.base_high()
    }

    /// Reads bits 63..32 of the base.
    pub fn base_upper(&self) -> (r: u32)
        ensures
            r == field_of(self@.1, 0, 32),
    {
        self.0.base_upper()
    }
}

} // verus!
