//! Long-mode task-state and task-register representations.
//!
//! The long-mode task-state segment holds the stack pointers loaded on
//! privilege changes and interrupt-stack switches, followed by an optional
//! I/O permission bitmap. [`TaskStateSegment`] keeps every stack as a checked
//! linear address and its bitmap terminated; [`RawTaskStateSegment`] is the
//! exact image, with each stack split into two 32-bit halves.

use vstd::prelude::*;

use crate::agnostic::partitioned::Partitioned;
use crate::arch::x86::descriptor::DescriptorIndex;
use crate::arch::x86::privilege::PrivilegeLevel;
use crate::arch::x86::segmentation::{
    RawSegmentSelector, SegmentSelector, TableIndicator, selector_image,
};
use crate::arch::x86_64::paging::address::{La, La48, La57, canonical};
use crate::bits::{State, bit_of, field_of, le_u16, le_u32, push_le_u16, push_le_u32, with_field};

verus! {

/// The size in bytes of the fixed part of the long-mode task-state segment;
/// an I/O permission bitmap starts right after it.
pub const TASK_STATE_BASE_SIZE: u16 = 104;

/// The largest limit a system-segment descriptor can encode (20 bits).
pub const MAX_SEGMENT_LIMIT: usize = 0xfffff;

/// The selector image of a task register that names a GDT entry at ring zero.
pub open spec fn task_selector_accepted(v: u16) -> bool {
    &&& field_of(v as u64, 0, 2) == 0
    &&& !bit_of(v as u64, 2)
    &&& field_of(v as u64, 3, 13) != 0
}

/// A task-register selector: a non-null GDT entry requested at ring zero.
///
/// Installing an available long-mode TSS descriptor at that entry is left to
/// the code that builds the GDT.
#[derive(Debug, Clone, Copy, PartialEq, Eq, PartialOrd, Ord, Hash)]
pub struct TaskRegisterSelector(SegmentSelector);

impl View for TaskRegisterSelector {
    type V = u16;

    /// The descriptor index.
    closed spec fn view(&self) -> u16 {
        self.0@.0
    }
}

impl TaskRegisterSelector {
    #[verifier::type_invariant]
    spec fn global_ring0(self) -> bool {
        &&& self.0@.1 == TableIndicator::Gdt
        &&& self.0@.2 == PrivilegeLevel::Ring0
    }

    /// Accepts a selector image that names a non-null GDT entry at ring zero.
    pub fn lift(target_value: u16) -> (r: Option<Self>)
        ensures
            r is Some <==> task_selector_accepted(target_value),
            r matches Some(s) ==> s@ == field_of(target_value as u64, 3, 13),
    {
        proof {
            crate::bits::lemma_field_bound(target_value as u64, 3, 13);
            crate::bits::lemma_low_mask_values();
        }
        let selector = RawSegmentSelector::new(target_value);
        let requested_privilege = PrivilegeLevel::lift(selector.requested_privilege_level());
        let table = selector.table_indicator();
        let index = DescriptorIndex::lift(selector.index());
        match (requested_privilege, table, index) {
            (Some(PrivilegeLevel::Ring0), State::Cleared, Some(index)) => Some(Self::new(index)),
            _ => None,
        }
    }

    /// The task-register selector for a GDT index.
    pub fn new(target_index: DescriptorIndex) -> (r: Self)
        ensures
            r@ == target_index@,
    {
        Self(SegmentSelector::new(target_index, TableIndicator::Gdt, PrivilegeLevel::Ring0))
    }

    /// The GDT index.
    pub fn index(self) -> (r: DescriptorIndex)
        ensures
            r@ == self@,
    {
        *self.0.index()
    }

    /// The selector image: the index in bits 15..3, TI and RPL zero.
    pub fn raw(self) -> (r: u16)
        ensures
            r == selector_image(self@, TableIndicator::Gdt, PrivilegeLevel::Ring0),
            r == self@ * 8,
    {
        proof {
            use_type_invariant(self);
        }
        self.0.raw().raw()
    }
}

/// Bits 31..0 of a stack pointer.
pub type TaskStackLow = Partitioned<0, 31>;

/// Bits 63..32 of a stack pointer.
pub type TaskStackHigh = Partitioned<32, 63>;

/// The 64-bit stack pointer rebuilt from its two halves.
pub open spec fn stack_image(low: u64, high: u64) -> u64 {
    with_field(with_field(0, 0, 32, low), 32, 32, high)
}

/// Splitting a pointer into its halves and rebuilding it gives it back.
pub proof fn lemma_stack_round_trip(p: u64)
    ensures
        stack_image(field_of(p, 0, 32), field_of(p, 32, 32)) == p,
{
    assert(((((0u64 & !(!(u64::MAX << 32u64) << 0u64)) | ((((p >> 0u64) & !(u64::MAX << 32u64))
        & !(u64::MAX << 32u64)) << 0u64)) & !(!(u64::MAX << 32u64) << 32u64)) | ((((p >> 32u64)
        & !(u64::MAX << 32u64)) & !(u64::MAX << 32u64)) << 32u64)) == p) by (bit_vector);
}

/// Lifts a rebuilt stack pointer into a linear address canonical under
/// either paging mode.
fn lift_stack(low: u64, high: u64) -> (r: Option<La>)
    ensures
        r is Some <==> (canonical(48, stack_image(low, high)) || canonical(
            57,
            stack_image(low, high),
        )),
        r matches Some(p) ==> p@ == stack_image(low, high),
{
    let mut target_value: u64 = 0;
    let _ = TaskStackLow::raw(low).merge(&mut target_value);
    let _ = TaskStackHigh::raw(high).merge(&mut target_value);
    match La::new::<La48>(target_value) {
        Some(pointer) => Some(pointer),
        None => La::new::<La57>(target_value),
    }
}

/// The image of a privilege-level stack pointer (RSP0, RSP1 or RSP2).
#[derive(Debug, Clone, Copy, PartialEq, Eq)]
pub struct RawPrivilegeStack(TaskStackLow, TaskStackHigh);

impl View for RawPrivilegeStack {
    type V = (u64, u64);

    /// The low and high halves.
    closed spec fn view(&self) -> (u64, u64) {
        (self.0@, self.1@)
    }
}

impl RawPrivilegeStack {
    /// Composes a stack image from its halves.
    pub fn new(low: TaskStackLow, high: TaskStackHigh) -> (r: Self)
        ensures
            r@ == (low@, high@),
    {
        Self(low, high)
    }

    /// The low half.
    pub fn low(&self) -> (r: &TaskStackLow)
        ensures
            r@ == self@.0,
    {
        &self.0
    }

    /// The low half, for writing.
    pub fn low_mut(&mut self) -> (r: &mut TaskStackLow)
        ensures
            r@ == old(self)@.0,
            final(self)@ == (final(r)@, old(self)@.1),
    {
        &mut self.0
    }

    /// The high half.
    pub fn high(&self) -> (r: &TaskStackHigh)
        ensures
            r@ == self@.1,
    {
        &self.1
    }

    /// The high half, for writing.
    pub fn high_mut(&mut self) -> (r: &mut TaskStackHigh)
        ensures
            r@ == old(self)@.1,
            final(self)@ == (old(self)@.0, final(r)@),
    {
        &mut self.1
    }

    /// Splits a linear address into the two halves.
    fn lower(pointer: La) -> (r: Self)
        ensures
            r@ == (field_of(pointer@, 0, 32), field_of(pointer@, 32, 32)),
    {
        let target_value = pointer.bits();
        Self(TaskStackLow::away(target_value), TaskStackHigh::away(target_value))
    }

    /// Rebuilds the stack pointer, when it is canonical under either paging
    /// mode.
    pub fn lift(self) -> (r: Option<La>)
        ensures
            r is Some <==> (canonical(48, stack_image(self@.0, self@.1)) || canonical(
                57,
                stack_image(self@.0, self@.1),
            )),
            r matches Some(p) ==> p@ == stack_image(self@.0, self@.1),
    {
        lift_stack(*self.0.value(), *self.1.value())
    }
}

/// The image of an interrupt-stack-table pointer (IST1 to IST7).
#[derive(Debug, Clone, Copy, PartialEq, Eq)]
pub struct RawInterruptStack(TaskStackLow, TaskStackHigh);

impl View for RawInterruptStack {
    type V = (u64, u64);

    /// The low and high halves.
    closed spec fn view(&self) -> (u64, u64) {
        (self.0@, self.1@)
    }
}

impl RawInterruptStack {
    /// Composes a stack image from its halves.
    pub fn new(low: TaskStackLow, high: TaskStackHigh) -> (r: Self)
        ensures
            r@ == (low@, high@),
    {
        Self(low, high)
    }

    /// The low half.
    pub fn low(&self) -> (r: &TaskStackLow)
        ensures
            r@ == self@.0,
    {
        &self.0
    }

    /// The low half, for writing.
    pub fn low_mut(&mut self) -> (r: &mut TaskStackLow)
        ensures
            r@ == old(self)@.0,
            final(self)@ == (final(r)@, old(self)@.1),
    {
        &mut self.0
    }

    /// The high half.
    pub fn high(&self) -> (r: &TaskStackHigh)
        ensures
            r@ == self@.1,
    {
        &self.1
    }

    /// The high half, for writing.
    pub fn high_mut(&mut self) -> (r: &mut TaskStackHigh)
        ensures
            r@ == old(self)@.1,
            final(self)@ == (old(self)@.0, final(r)@),
    {
        &mut self.1
    }

    /// Splits a linear address into the two halves.
    fn lower(pointer: La) -> (r: Self)
        ensures
            r@ == (field_of(pointer@, 0, 32), field_of(pointer@, 32, 32)),
    {
        let target_value = pointer.bits();
        Self(TaskStackLow::away(target_value), TaskStackHigh::away(target_value))
    }

    /// Rebuilds the stack pointer, when it is canonical under either paging
    /// mode.
    pub fn lift(self) -> (r: Option<La>)
        ensures
            r is Some <==> (canonical(48, stack_image(self@.0, self@.1)) || canonical(
                57,
                stack_image(self@.0, self@.1),
            )),
            r matches Some(p) ==> p@ == stack_image(self@.0, self@.1),
    {
        lift_stack(*self.0.value(), *self.1.value())
    }
}

/// The offset of the I/O permission bitmap from the start of the task-state
/// segment; every `u16` is representable.
#[derive(Debug, Clone, Copy, PartialEq, Eq)]
pub struct TaskIoMapBase(u16);

impl View for TaskIoMapBase {
    type V = u16;

    closed spec fn view(&self) -> u16 {
        self.0
    }
}

impl TaskIoMapBase {
    /// Wraps an offset.
    pub fn new(target_value: u16) -> (r: Self)
        ensures
            r@ == target_value,
    {
        Self(target_value)
    }

    /// The offset.
    pub fn raw(self) -> (r: u16)
        ensures
            r == self@,
    {
        self.0
    }
}

/// The eight bytes of a stack pointer as the task-state segment stores it:
/// the low half, then the high half, each as a little-endian 32-bit word.
pub open spec fn stack_bytes(stack: (u64, u64)) -> Seq<u8> {
    le_u32(stack.0 as u32) + le_u32(stack.1 as u32)
}

/// Appends the bytes of a stack pointer.
fn push_stack(out: &mut Vec<u8>, low: &TaskStackLow, high: &TaskStackHigh)
    ensures
        final(out)@ == old(out)@ + stack_bytes((low@, high@)),
{
    push_le_u32(out, *low.value() as u32);
    push_le_u32(out, *high.value() as u32);
    assert(out@ =~= old(out)@ + stack_bytes((low@, high@)));
}

/// The byte layout of the fixed part of the long-mode task-state segment:
/// the reserved header word at offset 0, RSP0..RSP2 at 4, 12 and 20, two
/// reserved words at 28 and 32, IST1..IST7 at 36, 44, .., 84, two reserved
/// words at 92 and 96, a reserved half-word at 100 and the bitmap offset at
/// 102; 104 bytes in all.
pub open spec fn task_state_base_layout(bytes: Seq<u8>, base: RawTaskStateSegmentBase) -> bool {
    &&& bytes.len() == 104
    &&& bytes.subrange(0, 4) == le_u32(base.reserved_fields().0)
    &&& forall|i: int|
        0 <= i < 3 ==> bytes.subrange(4 + 8 * i, 12 + 8 * i) == stack_bytes(
            #[trigger] base.privilege_stacks()[i],
        )
    &&& forall|i: int|
        0 <= i < 2 ==> bytes.subrange(28 + 4 * i, 32 + 4 * i) == le_u32(
            #[trigger] base.reserved_fields().1[i],
        )
    &&& forall|i: int|
        0 <= i < 7 ==> bytes.subrange(36 + 8 * i, 44 + 8 * i) == stack_bytes(
            #[trigger] base.interrupt_stacks()[i],
        )
    &&& forall|i: int|
        0 <= i < 2 ==> bytes.subrange(92 + 4 * i, 96 + 4 * i) == le_u32(
            #[trigger] base.reserved_fields().2[i],
        )
    &&& bytes.subrange(100, 102) == le_u16(base.reserved_fields().3)
    &&& bytes.subrange(102, 104) == le_u16(base.io_map_offset())
}

/// The fixed part of the long-mode task-state segment, field by field.
#[derive(Debug, Clone, Copy)]
pub struct RawTaskStateSegmentBase {
    reserved_header: u32,
    rsp0: RawPrivilegeStack,
    rsp1: RawPrivilegeStack,
    rsp2: RawPrivilegeStack,
    reserved_privilege: [u32; 2],
    ist0: RawInterruptStack,
    ist1: RawInterruptStack,
    ist2: RawInterruptStack,
    ist3: RawInterruptStack,
    ist4: RawInterruptStack,
    ist5: RawInterruptStack,
    ist6: RawInterruptStack,
    reserved_interrupt: [u32; 2],
    reserved_io: u16,
    io_map_base: TaskIoMapBase,
}

impl RawTaskStateSegmentBase {
    /// The images of RSP0, RSP1 and RSP2, in order.
    pub closed spec fn privilege_stacks(&self) -> Seq<(u64, u64)> {
        seq![self.rsp0@, self.rsp1@, self.rsp2@]
    }

    /// The images of the seven interrupt-stack-table pointers, in order.
    pub closed spec fn interrupt_stacks(&self) -> Seq<(u64, u64)> {
        seq![self.ist0@, self.ist1@, self.ist2@, self.ist3@, self.ist4@, self.ist5@, self.ist6@]
    }

    /// The reserved fields: the header word, the two words after the
    /// privilege stacks, the two words after the interrupt stacks, and the
    /// half-word before the bitmap offset.
    pub closed spec fn reserved_fields(&self) -> (u32, Seq<u32>, Seq<u32>, u16) {
        (self.reserved_header, self.reserved_privilege@, self.reserved_interrupt@, self.reserved_io)
    }

    /// The offset of the I/O permission bitmap.
    pub closed spec fn io_map_offset(&self) -> u16 {
        self.io_map_base@
    }

    /// Composes the fixed part from every one of its fields.
    #[allow(clippy::too_many_arguments)]
    pub fn new(
        reserved_header: u32,
        rsp0: RawPrivilegeStack,
        rsp1: RawPrivilegeStack,
        rsp2: RawPrivilegeStack,
        reserved_privilege: [u32; 2],
        ist0: RawInterruptStack,
        ist1: RawInterruptStack,
        ist2: RawInterruptStack,
        ist3: RawInterruptStack,
        ist4: RawInterruptStack,
        ist5: RawInterruptStack,
        ist6: RawInterruptStack,
        reserved_interrupt: [u32; 2],
        reserved_io: u16,
        io_map_base: TaskIoMapBase,
    ) -> (r: Self)
        ensures
            r.privilege_stacks() == seq![rsp0@, rsp1@, rsp2@],
            r.interrupt_stacks() == seq![ist0@, ist1@, ist2@, ist3@, ist4@, ist5@, ist6@],
            r.reserved_fields() == (
                reserved_header,
                reserved_privilege@,
                reserved_interrupt@,
                reserved_io,
            ),
            r.io_map_offset() == io_map_base@,
    {
        RawTaskStateSegmentBase {
            reserved_header,
            rsp0,
            rsp1,
            rsp2,
            reserved_privilege,
            ist0,
            ist1,
            ist2,
            ist3,
            ist4,
            ist5,
            ist6,
            reserved_interrupt,
            reserved_io,
            io_map_base,
        }
    }

    /// Lowers the checked stacks of a task-state segment, with every reserved
    /// field zero and the bitmap right after the fixed part.
    fn lower<const N: usize>(state: &TaskStateSegment<N>) -> (r: Self)
        ensures
            forall|i: int|
                0 <= i < 3 ==> #[trigger] r.privilege_stacks()[i] == (
                    field_of(state@.0[i], 0, 32),
                    field_of(state@.0[i], 32, 32),
                ),
            forall|i: int|
                0 <= i < 7 ==> #[trigger] r.interrupt_stacks()[i] == (
                    field_of(state@.0[i + 3], 0, 32),
                    field_of(state@.0[i + 3], 32, 32),
                ),
            r.reserved_fields() == (0u32, seq![0u32, 0u32], seq![0u32, 0u32], 0u16),
            r.io_map_offset() == TASK_STATE_BASE_SIZE,
    {
        let r = RawTaskStateSegmentBase {
            reserved_header: 0,
            rsp0: RawPrivilegeStack::lower(state.rsp0),
            rsp1: RawPrivilegeStack::lower(state.rsp1),
            rsp2: RawPrivilegeStack::lower(state.rsp2),
            reserved_privilege: [0; 2],
            ist0: RawInterruptStack::lower(state.ist0),
            ist1: RawInterruptStack::lower(state.ist1),
            ist2: RawInterruptStack::lower(state.ist2),
            ist3: RawInterruptStack::lower(state.ist3),
            ist4: RawInterruptStack::lower(state.ist4),
            ist5: RawInterruptStack::lower(state.ist5),
            ist6: RawInterruptStack::lower(state.ist6),
            reserved_interrupt: [0; 2],
            reserved_io: 0,
            io_map_base: TaskIoMapBase::new(TASK_STATE_BASE_SIZE),
        };
        assert(r.reserved_privilege@ =~= seq![0u32, 0u32]);
        assert(r.reserved_interrupt@ =~= seq![0u32, 0u32]);
        r
    }

    /// Returns the image of RSP0.
    pub fn rsp0(&self) -> (r: &RawPrivilegeStack)
        ensures
            r@ == self.privilege_stacks()[0],
    {
        &self.rsp0
    }

    /// Returns the image of RSP0, for writing; the other fields stay.
    pub fn rsp0_mut(&mut self) -> (r: &mut RawPrivilegeStack)
        ensures
            r@ == old(self).privilege_stacks()[0],
            final(self).privilege_stacks() == old(self).privilege_stacks().update(0, final(r)@),
            final(self).interrupt_stacks() == old(self).interrupt_stacks(),
            final(self).reserved_fields() == old(self).reserved_fields(),
            final(self).io_map_offset() == old(self).io_map_offset(),
    {
        &mut self.rsp0
    }

    /// Returns the image of RSP1.
    pub fn rsp1(&self) -> (r: &RawPrivilegeStack)
        ensures
            r@ == self.privilege_stacks()[1],
    {
        &self.rsp1
    }

    /// Returns the image of RSP1, for writing; the other fields stay.
    pub fn rsp1_mut(&mut self) -> (r: &mut RawPrivilegeStack)
        ensures
            r@ == old(self).privilege_stacks()[1],
            final(self).privilege_stacks() == old(self).privilege_stacks().update(1, final(r)@),
            final(self).interrupt_stacks() == old(self).interrupt_stacks(),
            final(self).reserved_fields() == old(self).reserved_fields(),
            final(self).io_map_offset() == old(self).io_map_offset(),
    {
        &mut self.rsp1
    }

    /// Returns the image of RSP2.
    pub fn rsp2(&self) -> (r: &RawPrivilegeStack)
        ensures
            r@ == self.privilege_stacks()[2],
    {
        &self.rsp2
    }

    /// Returns the image of RSP2, for writing; the other fields stay.
    pub fn rsp2_mut(&mut self) -> (r: &mut RawPrivilegeStack)
        ensures
            r@ == old(self).privilege_stacks()[2],
            final(self).privilege_stacks() == old(self).privilege_stacks().update(2, final(r)@),
            final(self).interrupt_stacks() == old(self).interrupt_stacks(),
            final(self).reserved_fields() == old(self).reserved_fields(),
            final(self).io_map_offset() == old(self).io_map_offset(),
    {
        &mut self.rsp2
    }

    /// Returns the image of interrupt stack 1.
    pub fn ist0(&self) -> (r: &RawInterruptStack)
        ensures
            r@ == self.interrupt_stacks()[0],
    {
        &self.ist0
    }

    /// Returns the image of interrupt stack 1, for writing; the other fields stay.
    pub fn ist0_mut(&mut self) -> (r: &mut RawInterruptStack)
        ensures
            r@ == old(self).interrupt_stacks()[0],
            final(self).interrupt_stacks() == old(self).interrupt_stacks().update(0, final(r)@),
            final(self).privilege_stacks() == old(self).privilege_stacks(),
            final(self).reserved_fields() == old(self).reserved_fields(),
            final(self).io_map_offset() == old(self).io_map_offset(),
    {
        &mut self.ist0
    }

    /// Returns the image of interrupt stack 2.
    pub fn ist1(&self) -> (r: &RawInterruptStack)
        ensures
            r@ == self.interrupt_stacks()[1],
    {
        &self.ist1
    }

    /// Returns the image of interrupt stack 2, for writing; the other fields stay.
    pub fn ist1_mut(&mut self) -> (r: &mut RawInterruptStack)
        ensures
            r@ == old(self).interrupt_stacks()[1],
            final(self).interrupt_stacks() == old(self).interrupt_stacks().update(1, final(r)@),
            final(self).privilege_stacks() == old(self).privilege_stacks(),
            final(self).reserved_fields() == old(self).reserved_fields(),
            final(self).io_map_offset() == old(self).io_map_offset(),
    {
        &mut self.ist1
    }

    /// Returns the image of interrupt stack 3.
    pub fn ist2(&self) -> (r: &RawInterruptStack)
        ensures
            r@ == self.interrupt_stacks()[2],
    {
        &self.ist2
    }

    /// Returns the image of interrupt stack 3, for writing; the other fields stay.
    pub fn ist2_mut(&mut self) -> (r: &mut RawInterruptStack)
        ensures
            r@ == old(self).interrupt_stacks()[2],
            final(self).interrupt_stacks() == old(self).interrupt_stacks().update(2, final(r)@),
            final(self).privilege_stacks() == old(self).privilege_stacks(),
            final(self).reserved_fields() == old(self).reserved_fields(),
            final(self).io_map_offset() == old(self).io_map_offset(),
    {
        &mut self.ist2
    }

    /// Returns the image of interrupt stack 4.
    pub fn ist3(&self) -> (r: &RawInterruptStack)
        ensures
            r@ == self.interrupt_stacks()[3],
    {
        &self.ist3
    }

    /// Returns the image of interrupt stack 4, for writing; the other fields stay.
    pub fn ist3_mut(&mut self) -> (r: &mut RawInterruptStack)
        ensures
            r@ == old(self).interrupt_stacks()[3],
            final(self).interrupt_stacks() == old(self).interrupt_stacks().update(3, final(r)@),
            final(self).privilege_stacks() == old(self).privilege_stacks(),
            final(self).reserved_fields() == old(self).reserved_fields(),
            final(self).io_map_offset() == old(self).io_map_offset(),
    {
        &mut self.ist3
    }

    /// Returns the image of interrupt stack 5.
    pub fn ist4(&self) -> (r: &RawInterruptStack)
        ensures
            r@ == self.interrupt_stacks()[4],
    {
        &self.ist4
    }

    /// Returns the image of interrupt stack 5, for writing; the other fields stay.
    pub fn ist4_mut(&mut self) -> (r: &mut RawInterruptStack)
        ensures
            r@ == old(self).interrupt_stacks()[4],
            final(self).interrupt_stacks() == old(self).interrupt_stacks().update(4, final(r)@),
            final(self).privilege_stacks() == old(self).privilege_stacks(),
            final(self).reserved_fields() == old(self).reserved_fields(),
            final(self).io_map_offset() == old(self).io_map_offset(),
    {
        &mut self.ist4
    }

    /// Returns the image of interrupt stack 6.
    pub fn ist5(&self) -> (r: &RawInterruptStack)
        ensures
            r@ == self.interrupt_stacks()[5],
    {
        &self.ist5
    }

    /// Returns the image of interrupt stack 6, for writing; the other fields stay.
    pub fn ist5_mut(&mut self) -> (r: &mut RawInterruptStack)
        ensures
            r@ == old(self).interrupt_stacks()[5],
            final(self).interrupt_stacks() == old(self).interrupt_stacks().update(5, final(r)@),
            final(self).privilege_stacks() == old(self).privilege_stacks(),
            final(self).reserved_fields() == old(self).reserved_fields(),
            final(self).io_map_offset() == old(self).io_map_offset(),
    {
        &mut self.ist5
    }

    /// Returns the image of interrupt stack 7.
    pub fn ist6(&self) -> (r: &RawInterruptStack)
        ensures
            r@ == self.interrupt_stacks()[6],
    {
        &self.ist6
    }

    /// Returns the image of interrupt stack 7, for writing; the other fields stay.
    pub fn ist6_mut(&mut self) -> (r: &mut RawInterruptStack)
        ensures
            r@ == old(self).interrupt_stacks()[6],
            final(self).interrupt_stacks() == old(self).interrupt_stacks().update(6, final(r)@),
            final(self).privilege_stacks() == old(self).privilege_stacks(),
            final(self).reserved_fields() == old(self).reserved_fields(),
            final(self).io_map_offset() == old(self).io_map_offset(),
    {
        &mut self.ist6
    }

    /// The exact 104-byte image of the fixed part, as the processor reads it.
    #[verifier::rlimit(50)]
    pub fn to_bytes(&self) -> (r: Vec<u8>)
        ensures
            task_state_base_layout(r@, *self),
    {
        let mut out: Vec<u8> = Vec::new();
        push_le_u32(&mut out, self.reserved_header);
        push_stack(&mut out, self.rsp0.low(), self.rsp0.high());
        push_stack(&mut out, self.rsp1.low(), self.rsp1.high());
        push_stack(&mut out, self.rsp2.low(), self.rsp2.high());
        push_le_u32(&mut out, self.reserved_privilege[0]);
        push_le_u32(&mut out, self.reserved_privilege[1]);
        push_stack(&mut out, self.ist0.low(), self.ist0.high());
        push_stack(&mut out, self.ist1.low(), self.ist1.high());
        push_stack(&mut out, self.ist2.low(), self.ist2.high());
        push_stack(&mut out, self.ist3.low(), self.ist3.high());
        push_stack(&mut out, self.ist4.low(), self.ist4.high());
        push_stack(&mut out, self.ist5.low(), self.ist5.high());
        push_stack(&mut out, self.ist6.low(), self.ist6.high());
        push_le_u32(&mut out, self.reserved_interrupt[0]);
        push_le_u32(&mut out, self.reserved_interrupt[1]);
        push_le_u16(&mut out, self.reserved_io);
        push_le_u16(&mut out, self.io_map_base.raw());
        proof {
            let b = out@;
            let ps = self.privilege_stacks();
            let is = self.interrupt_stacks();
            let rf = self.reserved_fields();
            assert(b.subrange(0, 4) =~= le_u32(rf.0));
            assert(b.subrange(4, 12) =~= stack_bytes(ps[0]));
            assert(b.subrange(12, 20) =~= stack_bytes(ps[1]));
            assert(b.subrange(20, 28) =~= stack_bytes(ps[2]));
            assert(b.subrange(28, 32) =~= le_u32(rf.1[0]));
            assert(b.subrange(32, 36) =~= le_u32(rf.1[1]));
            assert(b.subrange(36, 44) =~= stack_bytes(is[0]));
            assert(b.subrange(44, 52) =~= stack_bytes(is[1]));
            assert(b.subrange(52, 60) =~= stack_bytes(is[2]));
            assert(b.subrange(60, 68) =~= stack_bytes(is[3]));
            assert(b.subrange(68, 76) =~= stack_bytes(is[4]));
            assert(b.subrange(76, 84) =~= stack_bytes(is[5]));
            assert(b.subrange(84, 92) =~= stack_bytes(is[6]));
            assert(b.subrange(92, 96) =~= le_u32(rf.2[0]));
            assert(b.subrange(96, 100) =~= le_u32(rf.2[1]));
            assert(b.subrange(100, 102) =~= le_u16(rf.3));
            assert(b.subrange(102, 104) =~= le_u16(self.io_map_offset()));
            assert forall|i: int| 0 <= i < 3 implies b.subrange(4 + 8 * i, 12 + 8 * i)
                == stack_bytes(#[trigger] ps[i]) by {
                if i == 1 {
                } else if i == 2 {
                }
            }
            assert forall|i: int| 0 <= i < 7 implies b.subrange(36 + 8 * i, 44 + 8 * i)
                == stack_bytes(#[trigger] is[i]) by {
                if i == 1 {
                } else if i == 2 {
                } else if i == 3 {
                } else if i == 4 {
                } else if i == 5 {
                } else if i == 6 {
                }
            }
            assert forall|i: int| 0 <= i < 2 implies b.subrange(28 + 4 * i, 32 + 4 * i)
                == le_u32(#[trigger] rf.1[i]) by {
                if i == 1 {
                }
            }
            assert forall|i: int| 0 <= i < 2 implies b.subrange(92 + 4 * i, 96 + 4 * i)
                == le_u32(#[trigger] rf.2[i]) by {
                if i == 1 {
                }
            }
        }
        out
    }

    /// The offset of the I/O permission bitmap.
    pub fn io_map_base(&self) -> (r: TaskIoMapBase)
        ensures
            r@ == self.io_map_offset(),
    {
        self.io_map_base
    }

    /// The offset of the I/O permission bitmap, for writing; the other fields
    /// stay.
    pub fn io_map_base_mut(&mut self) -> (r: &mut TaskIoMapBase)
        ensures
            r@ == old(self).io_map_offset(),
            final(self).io_map_offset() == final(r)@,
            final(self).privilege_stacks() == old(self).privilege_stacks(),
            final(self).interrupt_stacks() == old(self).interrupt_stacks(),
            final(self).reserved_fields() == old(self).reserved_fields(),
    {
        &mut self.io_map_base
    }
}

/// The trailing I/O permission bitmap image: one bit per port, set when the
/// port is denied, followed by an all-ones terminator byte. A raw image may
/// lack the terminator.
#[derive(Debug, Clone, Copy, PartialEq, Eq)]
pub struct RawIoPermissionMap<const N: usize>([u8; N]);

impl<const N: usize> View for RawIoPermissionMap<N> {
    type V = Seq<u8>;

    closed spec fn view(&self) -> Seq<u8> {
        self.0@
    }
}

impl<const N: usize> RawIoPermissionMap<N> {
    /// Wraps a bitmap image.
    pub fn new(target_value: [u8; N]) -> (r: Self)
        ensures
            r@ == target_value@,
    {
        Self(target_value)
    }

    /// The bitmap bytes.
    pub fn raw(&self) -> (r: &[u8; N])
        ensures
            r@ == self@,
    {
        &self.0
    }

    /// The bitmap bytes, for writing.
    pub fn raw_mut(&mut self) -> (r: &mut [u8; N])
        ensures
            r@ == old(self)@,
            final(self)@ == final(r)@,
    {
        &mut self.0
    }
}

/// An x86 I/O port number; every `u16` is a port.
#[derive(Debug, Clone, Copy, PartialEq, Eq, PartialOrd, Ord, Hash)]
pub struct IoPort(u16);

impl View for IoPort {
    type V = u16;

    closed spec fn view(&self) -> u16 {
        self.0
    }
}

impl IoPort {
    /// Wraps a port number.
    pub fn new(target_value: u16) -> (r: Self)
        ensures
            r@ == target_value,
    {
        Self(target_value)
    }

    /// The port number.
    pub fn raw(self) -> (r: u16)
        ensures
            r == self@,
    {
        self.0
    }
}

/// Whether an I/O port may be accessed at a privilege above the I/O
/// privilege level.
#[derive(Debug, Clone, Copy, PartialEq, Eq, PartialOrd, Ord, Hash)]
pub enum IoPermission {
    /// The port's bit is clear.
    Permitted,
    /// The port's bit is set.
    Denied,
}

/// Whether a bitmap ends in the all-ones terminator, or is empty.
pub open spec fn io_map_terminated(map: Seq<u8>) -> bool {
    map.len() == 0 || map.last() == 0xffu8
}

/// Whether a port has a bit in a bitmap of `len` bytes: its byte comes
/// before the terminator.
pub open spec fn port_in_map(len: nat, port: u16) -> bool {
    port / 8 < len - 1
}

/// Whether the bit of a port is set.
pub open spec fn port_bit(map: Seq<u8>, port: u16) -> bool {
    (map[(port / 8) as int] >> ((port % 8) as u8)) & 1u8 == 1u8
}

/// The permission a bitmap records for a port, if the port has a bit.
pub open spec fn permission_of(map: Seq<u8>, port: u16) -> Option<IoPermission> {
    if port_in_map(map.len(), port) {
        if port_bit(map, port) {
            Some(IoPermission::Denied)
        } else {
            Some(IoPermission::Permitted)
        }
    } else {
        None
    }
}

/// The bitmap with the bit of a port set (denied) or cleared (permitted).
pub open spec fn with_port(map: Seq<u8>, port: u16, denied: bool) -> Seq<u8> {
    let i = (port / 8) as int;
    let mask = 1u8 << ((port % 8) as u8);
    map.update(i, if denied { map[i] | mask } else { map[i] & !mask })
}

/// How the bit operations of one byte behave.
proof fn lemma_byte_bits(b: u8, i: u8, j: u8)
    requires
        i < 8,
        j < 8,
    ensures
        ((b & (1u8 << i)) == 0) == ((b >> i) & 1u8 != 1u8),
        (((b | (1u8 << i)) >> j) & 1u8 == 1u8) == (i == j || (b >> j) & 1u8 == 1u8),
        (((b & !(1u8 << i)) >> j) & 1u8 == 1u8) == (i != j && (b >> j) & 1u8 == 1u8),
        (b >> i) & 1u8 == 1u8 ==> ((b & !(1u8 << i)) | (1u8 << i)) == b,
        (b >> i) & 1u8 != 1u8 ==> ((b | (1u8 << i)) & !(1u8 << i)) == b,
{
    assert(((b & (1u8 << i)) == 0) == ((b >> i) & 1u8 != 1u8) && (((b | (1u8 << i)) >> j) & 1u8
        == 1u8) == (i == j || (b >> j) & 1u8 == 1u8) && (((b & !(1u8 << i)) >> j) & 1u8 == 1u8)
        == (i != j && (b >> j) & 1u8 == 1u8) && ((b >> i) & 1u8 == 1u8 ==> ((b & !(1u8 << i)) | (
    1u8 << i)) == b) && ((b >> i) & 1u8 != 1u8 ==> ((b | (1u8 << i)) & !(1u8 << i)) == b))
        by (bit_vector)
        requires
            i < 8,
            j < 8,
    ;
}

/// Recording a permission for a port that has a bit changes what the bitmap
/// records for that port only, and keeps the terminator.
pub proof fn lemma_port_update(map: Seq<u8>, port: u16, denied: bool, other: u16)
    requires
        port_in_map(map.len(), port),
    ensures
        permission_of(with_port(map, port, denied), port) == Some(
            if denied {
                IoPermission::Denied
            } else {
                IoPermission::Permitted
            },
        ),
        other != port ==> permission_of(with_port(map, port, denied), other) == permission_of(
            map,
            other,
        ),
        with_port(map, port, denied).len() == map.len(),
        with_port(map, port, denied).last() == map.last(),
{
    let i = (port / 8) as int;
    let b = map[i];
    lemma_byte_bits(b, (port % 8) as u8, (port % 8) as u8);
    if other != port && port_in_map(map.len(), other) && other / 8 == port / 8 {
        lemma_byte_bits(b, (port % 8) as u8, (other % 8) as u8);
    }
}

/// Permitting a port and denying it again gives back a bitmap in which the
/// port was denied, and denying then permitting gives back one in which it was
/// permitted: each update undoes the other.
pub proof fn lemma_port_update_inverse(map: Seq<u8>, port: u16)
    requires
        port_in_map(map.len(), port),
    ensures
        port_bit(map, port) ==> with_port(with_port(map, port, false), port, true) == map,
        !port_bit(map, port) ==> with_port(with_port(map, port, true), port, false) == map,
{
    let i = (port / 8) as int;
    lemma_byte_bits(map[i], (port % 8) as u8, (port % 8) as u8);
    assert(port_bit(map, port) ==> with_port(with_port(map, port, false), port, true) =~= map);
    assert(!port_bit(map, port) ==> with_port(with_port(map, port, true), port, false) =~= map);
}

/// A checked I/O permission bitmap: empty (no bitmap), or ending in the
/// all-ones terminator. Safe updates change only port bits.
#[derive(Debug, Clone, Copy, PartialEq, Eq)]
pub struct IoPermissionMap<const N: usize>(RawIoPermissionMap<N>);

impl<const N: usize> View for IoPermissionMap<N> {
    type V = Seq<u8>;

    closed spec fn view(&self) -> Seq<u8> {
        self.0@
    }
}

impl<const N: usize> IoPermissionMap<N> {
    #[verifier::type_invariant]
    spec fn terminated(self) -> bool {
        io_map_terminated(self.0@)
    }

    /// A bitmap that denies every port it covers.
    pub fn new() -> (r: Self)
        ensures
            r@ == Seq::new(N as nat, |i: int| 0xffu8),
    {
        let r = Self(RawIoPermissionMap::new([0xffu8; N]));
        assert(r@ =~= Seq::new(N as nat, |i: int| 0xffu8));
        r
    }

    /// Accepts a raw bitmap that is empty or ends in the terminator.
    pub fn lift(target_value: RawIoPermissionMap<N>) -> (r: Option<Self>)
        ensures
            r is Some <==> io_map_terminated(target_value@),
            r matches Some(m) ==> m@ == target_value@,
    {
        if N == 0 {
            Some(Self(target_value))
        } else if target_value.raw()[N - 1] == 0xff {
            Some(Self(target_value))
        } else {
            None
        }
    }

    /// The number of ports the bitmap covers: eight per byte before the
    /// terminator, saturated at `usize::MAX`.
    pub fn capacity(&self) -> (r: usize)
        ensures
            r == (if N == 0 {
                0
            } else if (N - 1) * 8 > usize::MAX {
                usize::MAX as int
            } else {
                (N - 1) * 8
            }),
    {
        if N == 0 {
            0
        } else if N - 1 > usize::MAX / 8 {
            usize::MAX
        } else {
            (N - 1) * 8
        }
    }

    /// The permission recorded for a port, or `None` when the bitmap does not
    /// cover it.
    pub fn permission(&self, port: IoPort) -> (r: Option<IoPermission>)
        ensures
            r == permission_of(self@, port@),
    {
        let target_port = port.raw();
        let byte_index = (target_port / 8) as usize;
        let bit_index = (target_port % 8) as u8;
        if N >= 1 && byte_index < N - 1 {
            let target_byte = self.0.raw()[byte_index];
            proof {
                lemma_byte_bits(target_byte, bit_index, bit_index);
            }
            if target_byte & (1u8 << bit_index) == 0 {
                Some(IoPermission::Permitted)
            } else {
                Some(IoPermission::Denied)
            }
        } else {
            None
        }
    }

    /// Permits a port: clears its bit. Returns `None`, and changes nothing,
    /// when the bitmap does not cover the port.
    pub fn permit(&mut self, port: IoPort) -> (r: Option<()>)
        ensures
            r is Some <==> port_in_map(N as nat, port@),
            r is Some ==> final(self)@ == with_port(old(self)@, port@, false),
            r is Some ==> permission_of(final(self)@, port@) == Some(IoPermission::Permitted),
            r is Some ==> forall|other: u16|
                other != port@ ==> #[trigger] permission_of(final(self)@, other)
                    == permission_of(old(self)@, other),
            r is None ==> final(self)@ == old(self)@,
    {
        let r = self.replace(port, IoPermission::Permitted);
        proof {
            if r is Some {
                assert forall|other: u16|
                    other != port@ implies #[trigger] permission_of(final(self)@, other)
                    == permission_of(old(self)@, other) by {
                    lemma_port_update(old(self)@, port@, false, other);
                }
                lemma_port_update(old(self)@, port@, false, port@);
            }
        }
        r
    }

    /// Denies a port: sets its bit. Returns `None`, and changes nothing, when
    /// the bitmap does not cover the port.
    pub fn deny(&mut self, port: IoPort) -> (r: Option<()>)
        ensures
            r is Some <==> port_in_map(N as nat, port@),
            r is Some ==> final(self)@ == with_port(old(self)@, port@, true),
            r is Some ==> permission_of(final(self)@, port@) == Some(IoPermission::Denied),
            r is Some ==> forall|other: u16|
                other != port@ ==> #[trigger] permission_of(final(self)@, other)
                    == permission_of(old(self)@, other),
            r is None ==> final(self)@ == old(self)@,
    {
        let r = self.replace(port, IoPermission::Denied);
        proof {
            if r is Some {
                assert forall|other: u16|
                    other != port@ implies #[trigger] permission_of(final(self)@, other)
                    == permission_of(old(self)@, other) by {
                    lemma_port_update(old(self)@, port@, true, other);
                }
                lemma_port_update(old(self)@, port@, true, port@);
            }
        }
        r
    }

    /// The raw bitmap.
    pub fn raw(&self) -> (r: &RawIoPermissionMap<N>)
        ensures
            r@ == self@,
            io_map_terminated(r@),
    {
        proof {
            use_type_invariant(self);
        }
        &self.0
    }

    /// Records a permission for a covered port.
    fn replace(&mut self, port: IoPort, permission: IoPermission) -> (r: Option<()>)
        ensures
            r is Some <==> port_in_map(N as nat, port@),
            r is Some ==> final(self)@ == with_port(
                old(self)@,
                port@,
                permission == IoPermission::Denied,
            ),
            r is None ==> final(self)@ == old(self)@,
    {
        proof {
            use_type_invariant(&*self);
        }
        let target_port = port.raw();
        let byte_index = (target_port / 8) as usize;
        let bit_index = (target_port % 8) as u8;
        if N >= 1 && byte_index < N - 1 {
            let mut bytes = *self.0.raw();
            let target_byte = bytes[byte_index];
            let updated = match permission {
                IoPermission::Permitted => target_byte & !(1u8 << bit_index),
                IoPermission::Denied => target_byte | (1u8 << bit_index),
            };
            bytes[byte_index] = updated;
            proof {
                assert(bytes@ =~= with_port(
                    old(self)@,
                    port@,
                    permission == IoPermission::Denied,
                ));
            }
            *self = Self(RawIoPermissionMap::new(bytes));
            Some(())
        } else {
            None
        }
    }
}

impl<const N: usize> Default for IoPermissionMap<N> {
    fn default() -> (r: Self)
        ensures
            r@ == Seq::new(N as nat, |i: int| 0xffu8),
    {
        Self::new()
    }
}

/// The complete task-state segment image: the fixed part, then the I/O
/// permission bitmap.
#[derive(Debug, Clone, Copy)]
pub struct RawTaskStateSegment<const N: usize>(RawTaskStateSegmentBase, RawIoPermissionMap<N>);

impl<const N: usize> View for RawTaskStateSegment<N> {
    type V = (RawTaskStateSegmentBase, Seq<u8>);

    /// The fixed part and the bitmap bytes.
    closed spec fn view(&self) -> (RawTaskStateSegmentBase, Seq<u8>) {
        (self.0, self.1@)
    }
}

impl<const N: usize> RawTaskStateSegment<N> {
    /// The fixed part.
    pub fn base(&self) -> (r: &RawTaskStateSegmentBase)
        ensures
            *r == self@.0,
    {
        &self.0
    }

    /// The fixed part, for writing; the bitmap stays.
    pub fn base_mut(&mut self) -> (r: &mut RawTaskStateSegmentBase)
        ensures
            *r == old(self)@.0,
            final(self)@ == (*final(r), old(self)@.1),
    {
        &mut self.0
    }

    /// The bitmap.
    pub fn io_map(&self) -> (r: &RawIoPermissionMap<N>)
        ensures
            r@ == self@.1,
    {
        &self.1
    }

    /// The bitmap, for writing; the fixed part stays.
    pub fn io_map_mut(&mut self) -> (r: &mut RawIoPermissionMap<N>)
        ensures
            r@ == old(self)@.1,
            final(self)@ == (old(self)@.0, final(r)@),
    {
        &mut self.1
    }

    /// The exact image of the segment as the processor reads it: the 104
    /// bytes of the fixed part, then the bitmap.
    pub fn to_bytes(&self) -> (r: Vec<u8>)
        ensures
            r@.len() == TASK_STATE_BASE_SIZE + N,
            task_state_base_layout(r@.subrange(0, TASK_STATE_BASE_SIZE as int), self@.0),
            r@.subrange(TASK_STATE_BASE_SIZE as int, TASK_STATE_BASE_SIZE + N) == self@.1,
    {
        let mut out = self.0.to_bytes();
        let ghost base = out@;
        let map = self.1.raw();
        let mut i: usize = 0;
        while i < N
            invariant
                i <= N,
                map@ == self@.1,
                map@.len() == N,
                out@ == base + map@.subrange(0, i as int),
            decreases N - i,
        {
            out.push(map[i]);
            i = i + 1;
            assert(out@ =~= base + map@.subrange(0, i as int));
        }
        assert(out@.subrange(0, 104) =~= base);
        assert(out@.subrange(104, 104 + N) =~= self@.1);
        out
    }

    /// The descriptor limit of the segment: its length in bytes minus one, when
    /// it fits the 20-bit limit field.
    pub fn limit(&self) -> (r: Option<u64>)
        ensures
            r is Some <==> TASK_STATE_BASE_SIZE + N - 1 <= MAX_SEGMENT_LIMIT,
            r matches Some(l) ==> l == TASK_STATE_BASE_SIZE + N - 1,
    {
        let fixed_limit = (TASK_STATE_BASE_SIZE - 1) as usize;
        if N <= MAX_SEGMENT_LIMIT - fixed_limit {
            Some((fixed_limit + N) as u64)
        } else {
            None
        }
    }
}

/// A checked long-mode task-state segment: every stack pointer is a
/// canonical linear address and the I/O permission bitmap is terminated. The
/// raw image, with its reserved fields and split stack words, is produced by
/// [`TaskStateSegment::raw`].
#[derive(Debug, Clone, Copy, PartialEq, Eq)]
pub struct TaskStateSegment<const N: usize> {
    rsp0: La,
    rsp1: La,
    rsp2: La,
    ist0: La,
    ist1: La,
    ist2: La,
    ist3: La,
    ist4: La,
    ist5: La,
    ist6: La,
    io_map: IoPermissionMap<N>,
}

impl<const N: usize> View for TaskStateSegment<N> {
    type V = (Seq<u64>, Seq<u8>);

    /// The ten stack pointers, RSP0..RSP2 then IST1..IST7, and the bitmap.
    closed spec fn view(&self) -> (Seq<u64>, Seq<u8>) {
        (
            seq![
                self.rsp0@,
                self.rsp1@,
                self.rsp2@,
                self.ist0@,
                self.ist1@,
                self.ist2@,
                self.ist3@,
                self.ist4@,
                self.ist5@,
                self.ist6@,
            ],
            self.io_map@,
        )
    }
}

impl<const N: usize> TaskStateSegment<N> {
    /// A segment whose stacks are all zero and whose bitmap denies every port.
    pub fn new() -> (r: Self)
        ensures
            r@.0 == Seq::new(10, |i: int| 0u64),
            r@.1 == Seq::new(N as nat, |i: int| 0xffu8),
    {
        proof {
            crate::bits::lemma_zero_image(48, 16, 47);
        }
        let zero = La::new::<La48>(0).unwrap();
        let r = TaskStateSegment {
            rsp0: zero,
            rsp1: zero,
            rsp2: zero,
            ist0: zero,
            ist1: zero,
            ist2: zero,
            ist3: zero,
            ist4: zero,
            ist5: zero,
            ist6: zero,
            io_map: IoPermissionMap::new(),
        };
        assert(r@.0 =~= Seq::new(10, |i: int| 0u64));
        r
    }

    /// The exact image: each stack split into halves, reserved fields zero,
    /// the bitmap right after the fixed part.
    pub fn raw(&self) -> (r: RawTaskStateSegment<N>)
        ensures
            forall|i: int|
                0 <= i < 3 ==> #[trigger] r@.0.privilege_stacks()[i] == (
                    field_of(self@.0[i], 0, 32),
                    field_of(self@.0[i], 32, 32),
                ),
            forall|i: int|
                0 <= i < 7 ==> #[trigger] r@.0.interrupt_stacks()[i] == (
                    field_of(self@.0[i + 3], 0, 32),
                    field_of(self@.0[i + 3], 32, 32),
                ),
            r@.0.reserved_fields() == (0u32, seq![0u32, 0u32], seq![0u32, 0u32], 0u16),
            r@.0.io_map_offset() == TASK_STATE_BASE_SIZE,
            r@.1 == self@.1,
            io_map_terminated(r@.1),
    {
        let base = RawTaskStateSegmentBase::lower(self);
        let io_map = *self.io_map.raw();
        RawTaskStateSegment(base, io_map)
    }

    /// The RSP0 pointer.
    pub fn rsp0(&self) -> (r: &La)
        ensures
            r@ == self@.0[0],
    {
        &self.rsp0
    }

    /// The RSP0 pointer, for writing; the other fields stay.
    pub fn rsp0_mut(&mut self) -> (r: &mut La)
        ensures
            r@ == old(self)@.0[0],
            final(self)@ == (old(self)@.0.update(0, final(r)@), old(self)@.1),
    {
        &mut self.rsp0
    }

    /// The RSP1 pointer.
    pub fn rsp1(&self) -> (r: &La)
        ensures
            r@ == self@.0[1],
    {
        &self.rsp1
    }

    /// The RSP1 pointer, for writing; the other fields stay.
    pub fn rsp1_mut(&mut self) -> (r: &mut La)
        ensures
            r@ == old(self)@.0[1],
            final(self)@ == (old(self)@.0.update(1, final(r)@), old(self)@.1),
    {
        &mut self.rsp1
    }

    /// The RSP2 pointer.
    pub fn rsp2(&self) -> (r: &La)
        ensures
            r@ == self@.0[2],
    {
        &self.rsp2
    }

    /// The RSP2 pointer, for writing; the other fields stay.
    pub fn rsp2_mut(&mut self) -> (r: &mut La)
        ensures
            r@ == old(self)@.0[2],
            final(self)@ == (old(self)@.0.update(2, final(r)@), old(self)@.1),
    {
        &mut self.rsp2
    }

    /// The interrupt stack 1 pointer.
    pub fn ist0(&self) -> (r: &La)
        ensures
            r@ == self@.0[3],
    {
        &self.ist0
    }

    /// The interrupt stack 1 pointer, for writing; the other fields stay.
    pub fn ist0_mut(&mut self) -> (r: &mut La)
        ensures
            r@ == old(self)@.0[3],
            final(self)@ == (old(self)@.0.update(3, final(r)@), old(self)@.1),
    {
        &mut self.ist0
    }

    /// The interrupt stack 2 pointer.
    pub fn ist1(&self) -> (r: &La)
        ensures
            r@ == self@.0[4],
    {
        &self.ist1
    }

    /// The interrupt stack 2 pointer, for writing; the other fields stay.
    pub fn ist1_mut(&mut self) -> (r: &mut La)
        ensures
            r@ == old(self)@.0[4],
            final(self)@ == (old(self)@.0.update(4, final(r)@), old(self)@.1),
    {
        &mut self.ist1
    }

    /// The interrupt stack 3 pointer.
    pub fn ist2(&self) -> (r: &La)
        ensures
            r@ == self@.0[5],
    {
        &self.ist2
    }

    /// The interrupt stack 3 pointer, for writing; the other fields stay.
    pub fn ist2_mut(&mut self) -> (r: &mut La)
        ensures
            r@ == old(self)@.0[5],
            final(self)@ == (old(self)@.0.update(5, final(r)@), old(self)@.1),
    {
        &mut self.ist2
    }

    /// The interrupt stack 4 pointer.
    pub fn ist3(&self) -> (r: &La)
        ensures
            r@ == self@.0[6],
    {
        &self.ist3
    }

    /// The interrupt stack 4 pointer, for writing; the other fields stay.
    pub fn ist3_mut(&mut self) -> (r: &mut La)
        ensures
            r@ == old(self)@.0[6],
            final(self)@ == (old(self)@.0.update(6, final(r)@), old(self)@.1),
    {
        &mut self.ist3
    }

    /// The interrupt stack 5 pointer.
    pub fn ist4(&self) -> (r: &La)
        ensures
            r@ == self@.0[7],
    {
        &self.ist4
    }

    /// The interrupt stack 5 pointer, for writing; the other fields stay.
    pub fn ist4_mut(&mut self) -> (r: &mut La)
        ensures
            r@ == old(self)@.0[7],
            final(self)@ == (old(self)@.0.update(7, final(r)@), old(self)@.1),
    {
        &mut self.ist4
    }

    /// The interrupt stack 6 pointer.
    pub fn ist5(&self) -> (r: &La)
        ensures
            r@ == self@.0[8],
    {
        &self.ist5
    }

    /// The interrupt stack 6 pointer, for writing; the other fields stay.
    pub fn ist5_mut(&mut self) -> (r: &mut La)
        ensures
            r@ == old(self)@.0[8],
            final(self)@ == (old(self)@.0.update(8, final(r)@), old(self)@.1),
    {
        &mut self.ist5
    }

    /// The interrupt stack 7 pointer.
    pub fn ist6(&self) -> (r: &La)
        ensures
            r@ == self@.0[9],
    {
        &self.ist6
    }

    /// The interrupt stack 7 pointer, for writing; the other fields stay.
    pub fn ist6_mut(&mut self) -> (r: &mut La)
        ensures
            r@ == old(self)@.0[9],
            final(self)@ == (old(self)@.0.update(9, final(r)@), old(self)@.1),
    {
        &mut self.ist6
    }

    /// The I/O permission bitmap.
    pub fn io_map(&self) -> (r: &IoPermissionMap<N>)
        ensures
            r@ == self@.1,
    {
        &self.io_map
    }

    /// The I/O permission bitmap, for writing; the stacks stay.
    pub fn io_map_mut(&mut self) -> (r: &mut IoPermissionMap<N>)
        ensures
            r@ == old(self)@.1,
            final(self)@ == (old(self)@.0, final(r)@),
    {
        &mut self.io_map
    }
}

impl<const N: usize> Default for TaskStateSegment<N> {
    fn default() -> (r: Self)
        ensures
            r@.0 == Seq::new(10, |i: int| 0u64),
            r@.1 == Seq::new(N as nat, |i: int| 0xffu8),
    {
        Self::new()
    }
}

} // verus!
