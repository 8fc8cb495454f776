//! Page-table pages for x86-64 four-level and five-level paging.
//!
//! Each table page holds exactly 512 entries of its level; the array is the
//! hardware table itself. The five index types carry the selectors of a
//! linear address, each bounded to 0..=511, and each indexes only the table of
//! its own level.

use vstd::prelude::*;

use super::address::La;
use super::entry::{Pde, Pdpte, Pml4e, Pml5e, Pte};
use crate::bits::{field_of, lemma_field_bound, lemma_low_mask_values};

verus! {

/// The number of entries in every table page.
pub const ENTRY_COUNT: usize = 512;

/// The largest index of a table page.
const LAST_ENTRY_INDEX: u16 = 511;

/// An index into a PML5, in 0..=511.
#[derive(Debug, Clone, Copy, PartialEq, Eq, PartialOrd, Ord, Hash)]
pub struct Pml5Index(u16);

impl View for Pml5Index {
    type V = u16;

    closed spec fn view(&self) -> u16 {
        self.0
    }
}

impl Pml5Index {
    #[verifier::type_invariant]
    spec fn in_table(self) -> bool {
        self.0 <= LAST_ENTRY_INDEX
    }

    /// Accepts an index that lies inside a table page.
    pub fn new(value: u16) -> (r: Option<Self>)
        ensures
            r is Some <==> value <= 511,
            r matches Some(i) ==> i@ == value,
    {
        if value <= LAST_ENTRY_INDEX {
            Some(Self(value))
        } else {
            None
        }
    }

    /// The PML5 selector of a linear address: bits 56..48.
    pub fn from_address(address: &La) -> (r: Self)
        ensures
            r@ == field_of(address@, 48, 9),
    {
        proof {
            lemma_field_bound(address@, 48, 9);
            lemma_low_mask_values();
        }
        Self(address.pml5_index())
    }

    /// The position this index selects in the entry array.
    fn array_index(self) -> (r: usize)
        ensures
            r == self@,
            r < ENTRY_COUNT,
    {
        proof {
            use_type_invariant(self);
        }
        self.0 as usize
    }
}

/// An index into a PML4, in 0..=511.
#[derive(Debug, Clone, Copy, PartialEq, Eq, PartialOrd, Ord, Hash)]
pub struct Pml4Index(u16);

impl View for Pml4Index {
    type V = u16;

    closed spec fn view(&self) -> u16 {
        self.0
    }
}

impl Pml4Index {
    #[verifier::type_invariant]
    spec fn in_table(self) -> bool {
        self.0 <= LAST_ENTRY_INDEX
    }

    /// Accepts an index that lies inside a table page.
    pub fn new(value: u16) -> (r: Option<Self>)
        ensures
            r is Some <==> value <= 511,
            r matches Some(i) ==> i@ == value,
    {
        if value <= LAST_ENTRY_INDEX {
            Some(Self(value))
        } else {
            None
        }
    }

    /// The PML4 selector of a linear address: bits 47..39.
    pub fn from_address(address: &La) -> (r: Self)
        ensures
            r@ == field_of(address@, 39, 9),
    {
        proof {
            lemma_field_bound(address@, 39, 9);
            lemma_low_mask_values();
        }
        Self(address.pml4_index())
    }

    /// The position this index selects in the entry array.
    fn array_index(self) -> (r: usize)
        ensures
            r == self@,
            r < ENTRY_COUNT,
    {
        proof {
            use_type_invariant(self);
        }
        self.0 as usize
    }
}

/// An index into a page-directory-pointer table, in 0..=511.
#[derive(Debug, Clone, Copy, PartialEq, Eq, PartialOrd, Ord, Hash)]
pub struct PdptIndex(u16);

impl View for PdptIndex {
    type V = u16;

    closed spec fn view(&self) -> u16 {
        self.0
    }
}

impl PdptIndex {
    #[verifier::type_invariant]
    spec fn in_table(self) -> bool {
        self.0 <= LAST_ENTRY_INDEX
    }

    /// Accepts an index that lies inside a table page.
    pub fn new(value: u16) -> (r: Option<Self>)
        ensures
            r is Some <==> value <= 511,
            r matches Some(i) ==> i@ == value,
    {
        if value <= LAST_ENTRY_INDEX {
            Some(Self(value))
        } else {
            None
        }
    }

    /// The page-directory-pointer table selector of a linear address: bits 38..30.
    pub fn from_address(address: &La) -> (r: Self)
        ensures
            r@ == field_of(address@, 30, 9),
    {
        proof {
            lemma_field_bound(address@, 30, 9);
            lemma_low_mask_values();
        }
        Self(address.pdpt_index())
    }

    /// The position this index selects in the entry array.
    fn array_index(self) -> (r: usize)
        ensures
            r == self@,
            r < ENTRY_COUNT,
    {
        proof {
            use_type_invariant(self);
        }
        self.0 as usize
    }
}

/// An index into a page directory, in 0..=511.
#[derive(Debug, Clone, Copy, PartialEq, Eq, PartialOrd, Ord, Hash)]
pub struct PdIndex(u16);

impl View for PdIndex {
    type V = u16;

    closed spec fn view(&self) -> u16 {
        self.0
    }
}

impl PdIndex {
    #[verifier::type_invariant]
    spec fn in_table(self) -> bool {
        self.0 <= LAST_ENTRY_INDEX
    }

    /// Accepts an index that lies inside a table page.
    pub fn new(value: u16) -> (r: Option<Self>)
        ensures
            r is Some <==> value <= 511,
            r matches Some(i) ==> i@ == value,
    {
        if value <= LAST_ENTRY_INDEX {
            Some(Self(value))
        } else {
            None
        }
    }

    /// The page directory selector of a linear address: bits 29..21.
    pub fn from_address(address: &La) -> (r: Self)
        ensures
            r@ == field_of(address@, 21, 9),
    {
        proof {
            lemma_field_bound(address@, 21, 9);
            lemma_low_mask_values();
        }
        Self(address.page_directory_index())
    }

    /// The position this index selects in the entry array.
    fn array_index(self) -> (r: usize)
        ensures
            r == self@,
            r < ENTRY_COUNT,
    {
        proof {
            use_type_invariant(self);
        }
        self.0 as usize
    }
}

/// An index into a page table, in 0..=511.
#[derive(Debug, Clone, Copy, PartialEq, Eq, PartialOrd, Ord, Hash)]
pub struct PtIndex(u16);

impl View for PtIndex {
    type V = u16;

    closed spec fn view(&self) -> u16 {
        self.0
    }
}

impl PtIndex {
    #[verifier::type_invariant]
    spec fn in_table(self) -> bool {
        self.0 <= LAST_ENTRY_INDEX
    }

    /// Accepts an index that lies inside a table page.
    pub fn new(value: u16) -> (r: Option<Self>)
        ensures
            r is Some <==> value <= 511,
            r matches Some(i) ==> i@ == value,
    {
        if value <= LAST_ENTRY_INDEX {
            Some(Self(value))
        } else {
            None
        }
    }

    /// The page table selector of a linear address: bits 20..12.
    pub fn from_address(address: &La) -> (r: Self)
        ensures
            r@ == field_of(address@, 12, 9),
    {
        proof {
            lemma_field_bound(address@, 12, 9);
            lemma_low_mask_values();
        }
        Self(address.page_table_index())
    }

    /// The position this index selects in the entry array.
    fn array_index(self) -> (r: usize)
        ensures
            r == self@,
            r < ENTRY_COUNT,
    {
        proof {
            use_type_invariant(self);
        }
        self.0 as usize
    }
}

/// One PML5 table page: 512 entries.
#[derive(Debug, Clone, PartialEq, Eq)]
pub struct Pml5([Pml5e; ENTRY_COUNT]);

impl View for Pml5 {
    type V = Seq<u64>;

    /// The entry images, in table order.
    closed spec fn view(&self) -> Seq<u64> {
        self.0@.map_values(|e: Pml5e| e@)
    }
}

impl Pml5 {
    /// A table whose 512 entries are all empty.
    pub fn empty() -> (r: Self)
        ensures
            r@ == Seq::new(512, |i: int| 0u64),
    {
        let e = Pml5e::empty();
        let r = Self([e; ENTRY_COUNT]);
        assert(r@ =~= Seq::new(512, |i: int| 0u64));
        r
    }

    /// The entry array.
    pub fn entries(&self) -> (r: &[Pml5e; ENTRY_COUNT])
        ensures
            r@.map_values(|e: Pml5e| e@) == self@,
    {
        &self.0
    }

    /// The entry array, for writing.
    pub fn entries_mut(&mut self) -> (r: &mut [Pml5e; ENTRY_COUNT])
        ensures
            r@.map_values(|e: Pml5e| e@) == old(self)@,
            final(self)@ == final(r)@.map_values(|e: Pml5e| e@),
    {
        &mut self.0
    }

    /// The entry at an index.
    pub fn index(&self, index: Pml5Index) -> (r: &Pml5e)
        ensures
            0 <= index@ < 512,
            r@ == self@[index@ as int],
    {
        let i = index.array_index();
        &self.0[i]
    }

    /// The entry at an index, for writing; the other entries stay.
    pub fn index_mut(&mut self, index: Pml5Index) -> (r: &mut Pml5e)
        ensures
            0 <= index@ < 512,
            r@ == old(self)@[index@ as int],
            final(self)@ == old(self)@.update(index@ as int, final(r)@),
    {
        let i = index.array_index();
        &mut self.0[i]
    }
}

/// One PML4 table page: 512 entries.
#[derive(Debug, Clone, PartialEq, Eq)]
pub struct Pml4([Pml4e; ENTRY_COUNT]);

impl View for Pml4 {
    type V = Seq<u64>;

    /// The entry images, in table order.
    closed spec fn view(&self) -> Seq<u64> {
        self.0@.map_values(|e: Pml4e| e@)
    }
}

impl Pml4 {
    /// A table whose 512 entries are all empty.
    pub fn empty() -> (r: Self)
        ensures
            r@ == Seq::new(512, |i: int| 0u64),
    {
        let e = Pml4e::empty();
        let r = Self([e; ENTRY_COUNT]);
        assert(r@ =~= Seq::new(512, |i: int| 0u64));
        r
    }

    /// The entry array.
    pub fn entries(&self) -> (r: &[Pml4e; ENTRY_COUNT])
        ensures
            r@.map_values(|e: Pml4e| e@) == self@,
    {
        &self.0
    }

    /// The entry array, for writing.
    pub fn entries_mut(&mut self) -> (r: &mut [Pml4e; ENTRY_COUNT])
        ensures
            r@.map_values(|e: Pml4e| e@) == old(self)@,
            final(self)@ == final(r)@.map_values(|e: Pml4e| e@),
    {
        &mut self.0
    }

    /// The entry at an index.
    pub fn index(&self, index: Pml4Index) -> (r: &Pml4e)
        ensures
            0 <= index@ < 512,
            r@ == self@[index@ as int],
    {
        let i = index.array_index();
        &self.0[i]
    }

    /// The entry at an index, for writing; the other entries stay.
    pub fn index_mut(&mut self, index: Pml4Index) -> (r: &mut Pml4e)
        ensures
            0 <= index@ < 512,
            r@ == old(self)@[index@ as int],
            final(self)@ == old(self)@.update(index@ as int, final(r)@),
    {
        let i = index.array_index();
        &mut self.0[i]
    }
}

/// One page-directory-pointer table page: 512 entries.
#[derive(Debug, Clone, PartialEq, Eq)]
pub struct Pdpt([Pdpte; ENTRY_COUNT]);

impl View for Pdpt {
    type V = Seq<u64>;

    /// The entry images, in table order.
    closed spec fn view(&self) -> Seq<u64> {
        self.0@.map_values(|e: Pdpte| e@)
    }
}

impl Pdpt {
    /// A table whose 512 entries are all empty.
    pub fn empty() -> (r: Self)
        ensures
            r@ == Seq::new(512, |i: int| 0u64),
    {
        let e = Pdpte::empty();
        let r = Self([e; ENTRY_COUNT]);
        assert(r@ =~= Seq::new(512, |i: int| 0u64));
        r
    }

    /// The entry array.
    pub fn entries(&self) -> (r: &[Pdpte; ENTRY_COUNT])
        ensures
            r@.map_values(|e: Pdpte| e@) == self@,
    {
        &self.0
    }

    /// The entry array, for writing.
    pub fn entries_mut(&mut self) -> (r: &mut [Pdpte; ENTRY_COUNT])
        ensures
            r@.map_values(|e: Pdpte| e@) == old(self)@,
            final(self)@ == final(r)@.map_values(|e: Pdpte| e@),
    {
        &mut self.0
    }

    /// The entry at an index.
    pub fn index(&self, index: PdptIndex) -> (r: &Pdpte)
        ensures
            0 <= index@ < 512,
            r@ == self@[index@ as int],
    {
        let i = index.array_index();
        &self.0[i]
    }

    /// The entry at an index, for writing; the other entries stay.
    pub fn index_mut(&mut self, index: PdptIndex) -> (r: &mut Pdpte)
        ensures
            0 <= index@ < 512,
            r@ == old(self)@[index@ as int],
            final(self)@ == old(self)@.update(index@ as int, final(r)@),
    {
        let i = index.array_index();
        &mut self.0[i]
    }
}

/// One page directory page: 512 entries.
#[derive(Debug, Clone, PartialEq, Eq)]
pub struct PageDirectory([Pde; ENTRY_COUNT]);

impl View for PageDirectory {
    type V = Seq<u64>;

    /// The entry images, in table order.
    closed spec fn view(&self) -> Seq<u64> {
        self.0@.map_values(|e: Pde| e@)
    }
}

impl PageDirectory {
    /// A table whose 512 entries are all empty.
    pub fn empty() -> (r: Self)
        ensures
            r@ == Seq::new(512, |i: int| 0u64),
    {
        let e = Pde::empty();
        let r = Self([e; ENTRY_COUNT]);
        assert(r@ =~= Seq::new(512, |i: int| 0u64));
        r
    }

    /// The entry array.
    pub fn entries(&self) -> (r: &[Pde; ENTRY_COUNT])
        ensures
            r@.map_values(|e: Pde| e@) == self@,
    {
        &self.0
    }

    /// The entry array, for writing.
    pub fn entries_mut(&mut self) -> (r: &mut [Pde; ENTRY_COUNT])
        ensures
            r@.map_values(|e: Pde| e@) == old(self)@,
            final(self)@ == final(r)@.map_values(|e: Pde| e@),
    {
        &mut self.0
    }

    /// The entry at an index.
    pub fn index(&self, index: PdIndex) -> (r: &Pde)
        ensures
            0 <= index@ < 512,
            r@ == self@[index@ as int],
    {
        let i = index.array_index();
        &self.0[i]
    }

    /// The entry at an index, for writing; the other entries stay.
    pub fn index_mut(&mut self, index: PdIndex) -> (r: &mut Pde)
        ensures
            0 <= index@ < 512,
            r@ == old(self)@[index@ as int],
            final(self)@ == old(self)@.update(index@ as int, final(r)@),
    {
        let i = index.array_index();
        &mut self.0[i]
    }
}

/// One page table page: 512 entries.
#[derive(Debug, Clone, PartialEq, Eq)]
pub struct PageTable([Pte; ENTRY_COUNT]);

impl View for PageTable {
    type V = Seq<u64>;

    /// The entry images, in table order.
    closed spec fn view(&self) -> Seq<u64> {
        self.0@.map_values(|e: Pte| e@)
    }
}

impl PageTable {
    /// A table whose 512 entries are all empty.
    pub fn empty() -> (r: Self)
        ensures
            r@ == Seq::new(512, |i: int| 0u64),
    {
        let e = Pte::empty();
        let r = Self([e; ENTRY_COUNT]);
        assert(r@ =~= Seq::new(512, |i: int| 0u64));
        r
    }

    /// The entry array.
    pub fn entries(&self) -> (r: &[Pte; ENTRY_COUNT])
        ensures
            r@.map_values(|e: Pte| e@) == self@,
    {
        &self.0
    }

    /// The entry array, for writing.
    pub fn entries_mut(&mut self) -> (r: &mut [Pte; ENTRY_COUNT])
        ensures
            r@.map_values(|e: Pte| e@) == old(self)@,
            final(self)@ == final(r)@.map_values(|e: Pte| e@),
    {
        &mut self.0
    }

    /// The entry at an index.
    pub fn index(&self, index: PtIndex) -> (r: &Pte)
        ensures
            0 <= index@ < 512,
            r@ == self@[index@ as int],
    {
        let i = index.array_index();
        &self.0[i]
    }

    /// The entry at an index, for writing; the other entries stay.
    pub fn index_mut(&mut self, index: PtIndex) -> (r: &mut Pte)
        ensures
            0 <= index@ < 512,
            r@ == old(self)@[index@ as int],
            final(self)@ == old(self)@.update(index@ as int, final(r)@),
    {
        let i = index.array_index();
        &mut self.0[i]
    }
}

} // verus!
