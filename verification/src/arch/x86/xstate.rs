//! x86 extended-control and XSTATE component masks.
//!
//! [`XstateComponents`] names the architectural state components shared by
//! XCR0, IA32_XSS, IA32_XFD and IA32_XFD_ERR. Register wrappers keep their
//! own identities while sharing this vocabulary.

use vstd::prelude::*;

use crate::bits::{State, bit_of, get_bit, set_bit, with_bit};

verus! {

/// Evidence that the current processor supports extended feature disable.
#[derive(Debug, Clone, Copy, PartialEq, Eq, PartialOrd, Ord, Hash)]
pub struct Xfd(());

impl Xfd {
    /// Creates the XFD capability evidence.
    ///
    /// The caller states that the current processor reports XFD support.
    pub fn attest() -> (r: Self) {
        Self(())
    }
}

/// Evidence that the current processor supports supervisor XSAVE state
/// through IA32_XSS.
#[derive(Debug, Clone, Copy, PartialEq, Eq, PartialOrd, Ord, Hash)]
pub struct XsaveSupervisor(());

impl XsaveSupervisor {
    /// Creates the supervisor XSAVE capability evidence.
    ///
    /// The caller states that the current processor reports supervisor
    /// XSAVE support.
    pub fn attest() -> (r: Self) {
        Self(())
    }
}

/// Whether every component of `b` is also a component of `a`.
pub open spec fn contains_all(a: u64, b: u64) -> bool {
    a & b == b
}

/// A bitmap of XSTATE components.
///
/// Every bit is kept, including bits with no name here, so values that need
/// processor-specific validation before installation are representable.
#[derive(Debug, Clone, Copy, PartialEq, Eq, PartialOrd, Ord, Hash)]
pub struct XstateComponents(u64);

impl View for XstateComponents {
    type V = u64;

    closed spec fn view(&self) -> u64 {
        self.0
    }
}

impl XstateComponents {
    /// The x87 floating-point state component (bit 0).
    #[allow(non_snake_case)]
    pub fn X87() -> (r: Self)
        ensures
            r@ == 0x1,
    {
        Self(0x1)
    }

    /// The SSE register state component (bit 1).
    #[allow(non_snake_case)]
    pub fn SSE() -> (r: Self)
        ensures
            r@ == 0x2,
    {
        Self(0x2)
    }

    /// The AVX upper-half state component (bit 2).
    #[allow(non_snake_case)]
    pub fn AVX() -> (r: Self)
        ensures
            r@ == 0x4,
    {
        Self(0x4)
    }

    /// The MPX bound registers component (bit 3).
    #[allow(non_snake_case)]
    pub fn BNDREGS() -> (r: Self)
        ensures
            r@ == 0x8,
    {
        Self(0x8)
    }

    /// The MPX bound configuration and status component (bit 4).
    #[allow(non_snake_case)]
    pub fn BNDCSR() -> (r: Self)
        ensures
            r@ == 0x10,
    {
        Self(0x10)
    }

    /// The AVX-512 opmask registers component (bit 5).
    #[allow(non_snake_case)]
    pub fn OPMASK() -> (r: Self)
        ensures
            r@ == 0x20,
    {
        Self(0x20)
    }

    /// The upper halves of ZMM0 through ZMM15 component (bit 6).
    #[allow(non_snake_case)]
    pub fn ZMM_HI256() -> (r: Self)
        ensures
            r@ == 0x40,
    {
        Self(0x40)
    }

    /// The ZMM16 through ZMM31 component (bit 7).
    #[allow(non_snake_case)]
    pub fn HI16_ZMM() -> (r: Self)
        ensures
            r@ == 0x80,
    {
        Self(0x80)
    }

    /// The processor trace state component (bit 8).
    #[allow(non_snake_case)]
    pub fn PT() -> (r: Self)
        ensures
            r@ == 0x100,
    {
        Self(0x100)
    }

    /// The protection-key rights register component (bit 9).
    #[allow(non_snake_case)]
    pub fn PKRU() -> (r: Self)
        ensures
            r@ == 0x200,
    {
        Self(0x200)
    }

    /// The PASID state component (bit 10).
    #[allow(non_snake_case)]
    pub fn PASID() -> (r: Self)
        ensures
            r@ == 0x400,
    {
        Self(0x400)
    }

    /// The user-mode control-flow enforcement state component (bit 11).
    #[allow(non_snake_case)]
    pub fn CET_USER() -> (r: Self)
        ensures
            r@ == 0x800,
    {
        Self(0x800)
    }

    /// The supervisor-mode control-flow enforcement state component (bit 12).
    #[allow(non_snake_case)]
    pub fn CET_SUPERVISOR() -> (r: Self)
        ensures
            r@ == 0x1000,
    {
        Self(0x1000)
    }

    /// The hardware duty cycling state component (bit 13).
    #[allow(non_snake_case)]
    pub fn HDC() -> (r: Self)
        ensures
            r@ == 0x2000,
    {
        Self(0x2000)
    }

    /// The user-interrupt state component (bit 14).
    #[allow(non_snake_case)]
    pub fn UINTR() -> (r: Self)
        ensures
            r@ == 0x4000,
    {
        Self(0x4000)
    }

    /// The last branch record state component (bit 15).
    #[allow(non_snake_case)]
    pub fn LBR() -> (r: Self)
        ensures
            r@ == 0x8000,
    {
        Self(0x8000)
    }

    /// The hardware P-state state component (bit 16).
    #[allow(non_snake_case)]
    pub fn HWP() -> (r: Self)
        ensures
            r@ == 0x10000,
    {
        Self(0x10000)
    }

    /// The AMX tile configuration component (bit 17).
    #[allow(non_snake_case)]
    pub fn TILE_CONFIG() -> (r: Self)
        ensures
            r@ == 0x20000,
    {
        Self(0x20000)
    }

    /// The AMX tile data component (bit 18).
    #[allow(non_snake_case)]
    pub fn TILE_DATA() -> (r: Self)
        ensures
            r@ == 0x40000,
    {
        Self(0x40000)
    }

    /// The APX extended general-purpose registers component (bit 19).
    #[allow(non_snake_case)]
    pub fn APX() -> (r: Self)
        ensures
            r@ == 0x80000,
    {
        Self(0x80000)
    }

    /// The empty component set.
    #[allow(non_snake_case)]
    pub fn EMPTY() -> (r: Self)
        ensures
            r@ == 0,
    {
        Self(0)
    }

    /// The empty component set.
    pub fn empty() -> (r: Self)
        ensures
            r@ == 0,
    {
        Self(0)
    }

    /// Keeps every bit of an image, named or not.
    pub fn from_bits_retain(bits: u64) -> (r: Self)
        ensures
            r@ == bits,
    {
        Self(bits)
    }

    /// Keeps every bit of an image, named or not.
    pub fn new(target_value: u64) -> (r: Self)
        ensures
            r@ == target_value,
    {
        Self(target_value)
    }

    /// Returns the complete bitmap.
    pub fn bits(&self) -> (r: u64)
        ensures
            r == self@,
    {
        self.0
    }

    /// Returns the complete bitmap.
    pub fn raw(self) -> (r: u64)
        ensures
            r == self@,
    {
        self.0
    }

    /// Whether every component of `other` is present.
    pub fn contains(&self, other: Self) -> (r: bool)
        ensures
            r == contains_all(self@, other@),
    {
        self.0 & other.0 == other.0
    }

    /// Whether no component is present.
    pub fn is_empty(&self) -> (r: bool)
        ensures
            r == (self@ == 0),
    {
        self.0 == 0
    }

    /// The components present in either set.
    pub fn union(self, other: Self) -> (r: Self)
        ensures
            r@ == self@ | other@,
    {
        Self(self.0 | other.0)
    }

    /// The components present in both sets.
    pub fn intersection(self, other: Self) -> (r: Self)
        ensures
            r@ == self@ & other@,
    {
        Self(self.0 & other.0)
    }

    /// The components of this set that are not in `other`.
    pub fn difference(self, other: Self) -> (r: Self)
        ensures
            r@ == self@ & !other@,
    {
        Self(self.0 & !other.0)
    }

    /// Adds every component of `other`.
    pub fn insert(&mut self, other: Self)
        ensures
            final(self)@ == old(self)@ | other@,
    {
        self.0 = self.0 | other.0;
    }

    /// Removes every component of `other`.
    pub fn remove(&mut self, other: Self)
        ensures
            final(self)@ == old(self)@ & !other@,
    {
        self.0 = self.0 & !other.0;
    }

    /// Reads the component at bit `N`.
    pub fn component<const N: u64>(&self) -> (r: State)
        requires
            N < 64,
        ensures
            r == State::of(bit_of(self@, N)),
    {
        get_bit(self.0, N)
    }

    /// Sets or clears the component at bit `N`.
    pub fn component_mut<const N: u64>(&mut self, state: State)
        requires
            N < 64,
        ensures
            final(self)@ == with_bit(old(self)@, N, state.is_set()),
    {
        self.0 = set_bit(self.0, N, state);
    }
}

/// Component sets form a lattice: the union contains both operands, the
/// intersection is contained in both, containment is antisymmetric, and
/// removing components undoes inserting them into a set that lacked them.
pub proof fn lemma_component_algebra(a: u64, b: u64)
    ensures
        contains_all(a | b, a),
        contains_all(a | b, b),
        contains_all(a, a & b),
        contains_all(b, a & b),
        contains_all(a, b) && contains_all(b, a) ==> a == b,
        a & b == 0 ==> (a | b) & !b == a,
        contains_all(a, b) ==> a | b == a,
{
    assert(((a | b) & a) == a && ((a | b) & b) == b && (a & (a & b)) == (a & b) && (b & (a & b))
        == (a & b) && ((a & b) == b && (b & a) == a ==> a == b) && ((a & b) == 0 ==> ((a | b)
        & !b) == a) && ((a & b) == b ==> (a | b) == a)) by (bit_vector);
}

/// The XCR0 extended control register: the user-state components enabled for
/// XSAVE.
///
/// Every bit is kept, including values that need processor-specific
/// validation before installation.
#[derive(Debug, Clone, Copy, PartialEq, Eq, PartialOrd, Ord, Hash)]
pub struct Xcr0(XstateComponents);

impl View for Xcr0 {
    type V = u64;

    closed spec fn view(&self) -> u64 {
        self.0@
    }
}

impl Xcr0 {
    /// The register value with no component enabled.
    #[allow(non_snake_case)]
    pub fn EMPTY() -> (r: Self)
        ensures
            r@ == 0,
    {
        Self(XstateComponents::empty())
    }

    /// Constructs XCR0 from its raw image, keeping every bit.
    pub fn new(target_value: u64) -> (r: Self)
        ensures
            r@ == target_value,
    {
        Self(XstateComponents::from_bits_retain(target_value))
    }

    /// Returns the raw image.
    pub fn bits(self) -> (r: u64)
        ensures
            r == self@,
    {
        self.0.bits()
    }

    /// Borrows the component set.
    pub fn components(&self) -> (r: &XstateComponents)
        ensures
            r@ == self@,
    {
        &self.0
    }

    /// Mutably borrows the component set.
    pub fn components_mut(&mut self) -> (r: &mut XstateComponents)
        ensures
            r@ == old(self)@,
            final(self)@ == final(r)@,
    {
        &mut self.0
    }

    /// Whether every component enabled in `required` is enabled here.
    pub fn contains(self, required: Self) -> (r: bool)
        ensures
            r == contains_all(self@, required@),
    {
        self.0.contains(required.0)
    }

    /// The components enabled in either value.
    pub fn union(self, other: Self) -> (r: Self)
        ensures
            r@ == self@ | other@,
    {
        Self(self.0.union(other.0))
    }

    /// The components enabled in both values.
    pub fn intersection(self, other: Self) -> (r: Self)
        ensures
            r@ == self@ & other@,
    {
        Self(self.0.intersection(other.0))
    }

    /// Whether no component is enabled.
    pub fn is_empty(self) -> (r: bool)
        ensures
            r == (self@ == 0),
    {
        self.0.is_empty()
    }
}

} // verus!
