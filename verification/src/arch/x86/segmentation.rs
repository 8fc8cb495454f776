//! Segmentation in x86.

use vstd::prelude::*;

use crate::arch::x86::descriptor::{DescriptorIndex, RawSegmentDescriptor};
use crate::arch::x86::privilege::PrivilegeLevel;
use crate::bits::{
    State, bit_of, field_of, get_bit, get_field_u16, get_field_u8, set_bit_u16, set_field_u16,
    with_bit, with_field,
};

verus! {

/// The descriptor table a segment selector draws from.
#[derive(Debug, Clone, Copy, PartialEq, Eq, PartialOrd, Ord, Hash)]
pub enum TableIndicator {
    /// Use the Global Descriptor Table.
    Gdt,
    /// Use the Local Descriptor Table.
    Ldt,
}

impl TableIndicator {
    /// The value of the TI bit for this table.
    pub open spec fn value(self) -> u8 {
        match self {
            TableIndicator::Gdt => 0,
            TableIndicator::Ldt => 1,
        }
    }

    /// Returns the value of the TI bit for this table.
    pub fn raw(self) -> (r: u8)
        ensures
            r == self.value(),
    {
        match self {
            TableIndicator::Gdt => 0,
            TableIndicator::Ldt => 1,
        }
    }
}

/// The selector image for an index, a table and a requested privilege level:
/// index in bits 15..3, TI in bit 2, RPL in bits 1..0.
pub open spec fn selector_image(index: u16, table: TableIndicator, rpl: PrivilegeLevel) -> int {
    index * 8 + table.value() * 4 + rpl.value()
}

/// A raw segment-selector image with the exact bit layout the processor
/// expects.
///
/// | Bits | Field | Description |
/// |---|---|---|
/// | 15..3 | Index | Index into the descriptor table |
/// | 2 | TI | Table indicator (GDT or LDT) |
/// | 1..0 | RPL | Requested privilege level |
#[derive(Debug, Clone, Copy, PartialEq, Eq, PartialOrd, Ord, Hash)]
pub struct RawSegmentSelector(u16);

impl View for RawSegmentSelector {
    type V = u16;

    closed spec fn view(&self) -> u16 {
        self.0
    }
}

impl RawSegmentSelector {
    /// Constructs a zeroed selector.
    pub fn zeroed() -> (r: Self)
        ensures
            r@ == 0,
    {
        Self(0)
    }

    /// Constructs a selector from its raw image.
    pub fn new(target_value: u16) -> (r: Self)
        ensures
            r@ == target_value,
    {
        Self(target_value)
    }

    /// Returns the raw selector image.
    pub fn raw(self) -> (r: u16)
        ensures
            r == self@,
    {
        self.0
    }

    /// Accesses the Index field (bits 15..3).
    pub fn index(&self) -> (r: u16)
        ensures
            r == field_of((self@ as u64), 3, 13),
    {
        get_field_u16((self.0 as u64), 3, 13)
    }

    /// Writes the Index field (bits 15..3).
    pub fn index_mut(&mut self, value: u16)
        ensures
            (final(self)@ as u64) == with_field((old(self)@ as u64), 3, 13, (value as u64)),
    {
        self.0 = set_field_u16(self.0, 3, 13, (value as u64));
    }

    /// Accesses the TI (table indicator) bit (bit 2).
    pub fn table_indicator(&self) -> (r: State)
        ensures
            r == State::of(bit_of((self@ as u64), 2)),
    {
        get_bit((self.0 as u64), 2)
    }

    /// Sets or clears the TI (table indicator) bit (bit 2).
    pub fn table_indicator_mut(&mut self, state: State)
        ensures
            (final(self)@ as u64) == with_bit((old(self)@ as u64), 2, state.is_set()),
    {
        self.0 = set_bit_u16(self.0, 2, state);
    }

    /// Accesses the RPL (requested privilege level) field (bits 1..0).
    pub fn requested_privilege_level(&self) -> (r: u8)
        ensures
            r == field_of((self@ as u64), 0, 2),
    {
        get_field_u8((self.0 as u64), 0, 2)
    }

    /// Writes the RPL (requested privilege level) field (bits 1..0).
    pub fn requested_privilege_level_mut(&mut self, value: u8)
        ensures
            (final(self)@ as u64) == with_field((old(self)@ as u64), 0, 2, (value as u64)),
    {
        self.0 = set_field_u16(self.0, 0, 2, (value as u64));
    }
}

/// A high-level segment selector into a descriptor table.
#[derive(Debug, Clone, Copy, PartialEq, Eq, PartialOrd, Ord, Hash)]
pub struct SegmentSelector {
    /// The thirteen-bit segment index into the descriptor table.
    descriptor_index: DescriptorIndex,
    /// Whether the Global or the Local Descriptor Table is the source.
    descriptor_table: TableIndicator,
    /// The requested privilege level; the processor checks the effective
    /// level `max(CPL, RPL)` against the descriptor.
    requested_privilege_level: PrivilegeLevel,
}

impl View for SegmentSelector {
    type V = (u16, TableIndicator, PrivilegeLevel);

    closed spec fn view(&self) -> (u16, TableIndicator, PrivilegeLevel) {
        (self.descriptor_index@, self.descriptor_table, self.requested_privilege_level)
    }
}

impl SegmentSelector {
    /// Composes a selector from its three fields.
    pub fn new(index: DescriptorIndex, table: TableIndicator, privilege: PrivilegeLevel) -> (r: Self)
        ensures
            r@ == (index@, table, privilege),
    {
        SegmentSelector {
            descriptor_index: index,
            descriptor_table: table,
            requested_privilege_level: privilege,
        }
    }

    /// Determines the bit-for-bit raw representation of this selector.
    pub fn raw(&self) -> (r: RawSegmentSelector)
        ensures
            r@ == selector_image(self@.0, self@.1, self@.2),
    {
        let index = self.descriptor_index.raw();
        let mut target_selector = RawSegmentSelector::zeroed();
        target_selector.index_mut(index);
        let ghost v1 = target_selector@ as u64;
        let target_state = match self.descriptor_table {
            TableIndicator::Gdt => State::Cleared,
            TableIndicator::Ldt => State::Raised,
        };
        target_selector.table_indicator_mut(target_state);
        let ghost v2 = target_selector@ as u64;
        let rpl = self.requested_privilege_level.raw();
        target_selector.requested_privilege_level_mut(rpl);
        proof {
            let i = index as u64;
            let t = self.descriptor_table.value() as u64;
            let p = rpl as u64;
            let v = target_selector@ as u64;
            assert(v == i * 8 + t * 4 + p) by (bit_vector)
                requires
                    v1 == (0u64 & !(!(u64::MAX << 13u64) << 3u64)) | ((i & !(u64::MAX << 13u64))
                        << 3u64),
                    v2 == (if t == 1 { v1 | (1u64 << 2u64) } else { v1 & !(1u64 << 2u64) }),
                    v == (v2 & !(!(u64::MAX << 2u64) << 0u64)) | ((p & !(u64::MAX << 2u64)) << 0u64),
                    1 <= i <= 8191,
                    t <= 1,
                    p <= 3,
            ;
        }
        target_selector
    }

    /// The descriptor index of this selector.
    pub fn index(&self) -> (r: &DescriptorIndex)
        ensures
            r@ == self@.0,
    {
        &self.descriptor_index
    }

    /// Mutably borrows the descriptor index of this selector.
    pub fn index_mut(&mut self) -> (r: &mut DescriptorIndex)
        ensures
            r@ == old(self)@.0,
            final(self)@ == (final(r)@, old(self)@.1, old(self)@.2),
    {
        &mut self.descriptor_index
    }

    /// The descriptor table of this selector.
    pub fn table(&self) -> (r: &TableIndicator)
        ensures
            *r == self@.1,
    {
        &self.descriptor_table
    }

    /// Mutably borrows the descriptor table of this selector.
    pub fn table_mut(&mut self) -> (r: &mut TableIndicator)
        ensures
            *r == old(self)@.1,
            final(self)@ == (old(self)@.0, *final(r), old(self)@.2),
    {
        &mut self.descriptor_table
    }

    /// The requested privilege level of this selector.
    pub fn privilege(&self) -> (r: &PrivilegeLevel)
        ensures
            *r == self@.2,
    {
        &self.requested_privilege_level
    }

    /// Mutably borrows the requested privilege level of this selector.
    pub fn privilege_mut(&mut self) -> (r: &mut PrivilegeLevel)
        ensures
            *r == old(self)@.2,
            final(self)@ == (old(self)@.0, old(self)@.1, *final(r)),
    {
        &mut self.requested_privilege_level
    }
}

/// A raw selector for a code segment, whose low two bits carry the current
/// privilege level when loaded into CS.
#[derive(Debug, Clone, Copy, PartialEq, Eq, PartialOrd, Ord, Hash)]
pub struct RawCodeSegment(RawSegmentSelector);

impl View for RawCodeSegment {
    type V = u16;

    closed spec fn view(&self) -> u16 {
        self.0@
    }
}

impl RawCodeSegment {
    /// Wraps a raw selector image known to select a code segment.
    pub fn new(selector: RawSegmentSelector) -> (r: Self)
        ensures
            r@ == selector@,
    {
        Self(selector)
    }

    /// Returns the raw selector.
    pub fn raw(self) -> (r: RawSegmentSelector)
        ensures
            r@ == self@,
    {
        self.0
    }

    /// Accesses the Index field (bits 15..3).
    pub fn index(&self) -> (r: u16)
        ensures
            r == field_of((self@ as u64), 3, 13),
    {
        get_field_u16((self.0.0 as u64), 3, 13)
    }

    /// Writes the Index field (bits 15..3).
    pub fn index_mut(&mut self, value: u16)
        ensures
            (final(self)@ as u64) == with_field((old(self)@ as u64), 3, 13, (value as u64)),
    {
        self.0.0 = set_field_u16(self.0.0, 3, 13, (value as u64));
    }

    /// Accesses the TI bit (bit 2).
    pub fn table_indicator(&self) -> (r: State)
        ensures
            r == State::of(bit_of((self@ as u64), 2)),
    {
        get_bit((self.0.0 as u64), 2)
    }

    /// Sets or clears the TI bit (bit 2).
    pub fn table_indicator_mut(&mut self, state: State)
        ensures
            (final(self)@ as u64) == with_bit((old(self)@ as u64), 2, state.is_set()),
    {
        self.0.0 = set_bit_u16(self.0.0, 2, state);
    }

    /// Accesses the CPL field (bits 1..0).
    pub fn current_privilege_level(&self) -> (r: u8)
        ensures
            r == field_of((self@ as u64), 0, 2),
    {
        get_field_u8((self.0.0 as u64), 0, 2)
    }

    /// Writes the CPL field (bits 1..0).
    pub fn current_privilege_level_mut(&mut self, value: u8)
        ensures
            (final(self)@ as u64) == with_field((old(self)@ as u64), 0, 2, (value as u64)),
    {
        self.0.0 = set_field_u16(self.0.0, 0, 2, (value as u64));
    }
}

/// A raw selector for a data segment.
#[derive(Debug, Clone, Copy, PartialEq, Eq, PartialOrd, Ord, Hash)]
pub struct RawDataSegment(RawSegmentSelector);

impl View for RawDataSegment {
    type V = u16;

    closed spec fn view(&self) -> u16 {
        self.0@
    }
}

impl RawDataSegment {
    /// Wraps a raw selector image known to select a data segment.
    pub fn new(selector: RawSegmentSelector) -> (r: Self)
        ensures
            r@ == selector@,
    {
        Self(selector)
    }

    /// Borrows the underlying raw selector.
    pub fn selector(&self) -> (r: &RawSegmentSelector)
        ensures
            r@ == self@,
    {
        &self.0
    }
}

/// Whether a descriptor image is a present code descriptor: present,
/// code-or-data class and executable.
pub open spec fn is_code_descriptor(d: u64) -> bool {
    bit_of(d, 47) && bit_of(d, 44) && bit_of(d, 43)
}

/// Whether a descriptor image is a present data descriptor: present,
/// code-or-data class and not executable.
pub open spec fn is_data_descriptor(d: u64) -> bool {
    bit_of(d, 47) && bit_of(d, 44) && !bit_of(d, 43)
}

/// Whether the access byte of descriptor image `d` shows a present,
/// code-or-data, executable descriptor; and likewise for data.
fn descriptor_class(descriptor: &RawSegmentDescriptor) -> (r: (bool, bool))
    ensures
        r.0 == is_code_descriptor(descriptor@),
        r.1 == is_data_descriptor(descriptor@),
{
    let present = get_bit(descriptor.raw(), 47).set();
    let class = get_bit(descriptor.raw(), 44).set();
    let executable = get_bit(descriptor.raw(), 43).set();
    (present && class && executable, present && class && !executable)
}

/// A selector for a valid code-segment descriptor.
#[derive(Debug, Clone, Copy, PartialEq, Eq, PartialOrd, Ord, Hash)]
pub struct CodeSegment(SegmentSelector);

impl View for CodeSegment {
    type V = (u16, TableIndicator, PrivilegeLevel);

    closed spec fn view(&self) -> (u16, TableIndicator, PrivilegeLevel) {
        self.0@
    }
}

impl CodeSegment {
    /// Pairs a selector with the descriptor it names, accepting it only when
    /// the descriptor is a present code descriptor.
    pub fn new(selector: SegmentSelector, descriptor: RawSegmentDescriptor) -> (r: Option<Self>)
        ensures
            r is Some <==> is_code_descriptor(descriptor@),
            r matches Some(c) ==> c@ == selector@,
    {
        if descriptor_class(&descriptor).0 {
            Some(Self(selector))
        } else {
            None
        }
    }

    /// Returns the selector of this code segment.
    pub fn selector(&self) -> (r: &SegmentSelector)
        ensures
            r@ == self@,
    {
        &self.0
    }

    /// Returns the raw selector image of this code segment.
    pub fn raw(&self) -> (r: RawSegmentSelector)
        ensures
            r@ == selector_image(self@.0, self@.1, self@.2),
    {
        self.0.raw()
    }

    /// The descriptor index of this code segment.
    pub fn index(&self) -> (r: &DescriptorIndex)
        ensures
            r@ == self@.0,
    {
        self.0.index()
    }

    /// Mutably borrows the descriptor index of this code segment.
    pub fn index_mut(&mut self) -> (r: &mut DescriptorIndex)
        ensures
            r@ == old(self)@.0,
            final(self)@ == (final(r)@, old(self)@.1, old(self)@.2),
    {
        self.0.index_mut()
    }

    /// The descriptor table of this code segment.
    pub fn table(&self) -> (r: &TableIndicator)
        ensures
            *r == self@.1,
    {
        self.0.table()
    }

    /// Mutably borrows the descriptor table of this code segment.
    pub fn table_mut(&mut self) -> (r: &mut TableIndicator)
        ensures
            *r == old(self)@.1,
            final(self)@ == (old(self)@.0, *final(r), old(self)@.2),
    {
        self.0.table_mut()
    }

    /// The current privilege level of this code segment.
    pub fn privilege(&self) -> (r: &PrivilegeLevel)
        ensures
            *r == self@.2,
    {
        self.0.privilege()
    }

    /// Mutably borrows the current privilege level of this code segment.
    pub fn privilege_mut(&mut self) -> (r: &mut PrivilegeLevel)
        ensures
            *r == old(self)@.2,
            final(self)@ == (old(self)@.0, old(self)@.1, *final(r)),
    {
        self.0.privilege_mut()
    }
}

/// A selector for a valid data-segment descriptor.
#[derive(Debug, Clone, Copy, PartialEq, Eq, PartialOrd, Ord, Hash)]
pub struct DataSegment(SegmentSelector);

impl View for DataSegment {
    type V = (u16, TableIndicator, PrivilegeLevel);

    closed spec fn view(&self) -> (u16, TableIndicator, PrivilegeLevel) {
        self.0@
    }
}

impl DataSegment {
    /// Pairs a selector with the descriptor it names, accepting it only when
    /// the descriptor is a present data descriptor.
    pub fn new(selector: SegmentSelector, descriptor: RawSegmentDescriptor) -> (r: Option<Self>)
        ensures
            r is Some <==> is_data_descriptor(descriptor@),
            r matches Some(d) ==> d@ == selector@,
    {
        if descriptor_class(&descriptor).1 {
            Some(Self(selector))
        } else {
            None
        }
    }

    /// Returns the selector of this data segment.
    pub fn selector(&self) -> (r: &SegmentSelector)
        ensures
            r@ == self@,
    {
        &self.0
    }

    /// Returns the raw selector image of this data segment.
    pub fn raw(&self) -> (r: RawSegmentSelector)
        ensures
            r@ == selector_image(self@.0, self@.1, self@.2),
    {
        self.0.raw()
    }

    /// The descriptor index of this data segment.
    pub fn index(&self) -> (r: &DescriptorIndex)
        ensures
            r@ == self@.0,
    {
        self.0.index()
    }

    /// The descriptor table of this data segment.
    pub fn table(&self) -> (r: &TableIndicator)
        ensures
            *r == self@.1,
    {
        self.0.table()
    }

    /// The requested privilege level of this data segment.
    pub fn privilege(&self) -> (r: &PrivilegeLevel)
        ensures
            *r == self@.2,
    {
        self.0.privilege()
    }
}

impl core::ops::Deref for RawDataSegment {
    type Target = RawSegmentSelector;

    fn deref(&self) -> (r: &RawSegmentSelector)
        ensures
            r@ == self@,
    {
        &self.0
    }
}

impl core::ops::Deref for DataSegment {
    type Target = SegmentSelector;

    fn deref(&self) -> (r: &SegmentSelector)
        ensures
            r@ == self@,
    {
        &self.0
    }
}

} // verus!
