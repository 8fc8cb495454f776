//! Privilege management for x86.

use vstd::prelude::*;

verus! {

/// An x86 privilege level.
#[derive(Debug, Clone, Copy, PartialEq, Eq, PartialOrd, Ord, Hash)]
#[non_exhaustive]
pub enum PrivilegeLevel {
    /// Privilege level zero, the supervisor level used by Nekor.
    Ring0,
    /// Privilege level one.
    Ring1,
    /// Privilege level two.
    Ring2,
    /// Privilege level three, the user level used by Nekor.
    Ring3,
}

impl PrivilegeLevel {
    /// The architectural number of this level.
    pub open spec fn value(self) -> u8 {
        match self {
            PrivilegeLevel::Ring0 => 0,
            PrivilegeLevel::Ring1 => 1,
            PrivilegeLevel::Ring2 => 2,
            PrivilegeLevel::Ring3 => 3,
        }
    }

    /// Lifts a bare level number into a declared privilege level.
    pub fn lift(target_value: u8) -> (r: Option<Self>)
        ensures
            r is Some <==> target_value <= 3,
            r matches Some(l) ==> l.value() == target_value,
    {
        match target_value {
            0 => Some(PrivilegeLevel::Ring0),
            1 => Some(PrivilegeLevel::Ring1),
            2 => Some(PrivilegeLevel::Ring2),
            3 => Some(PrivilegeLevel::Ring3),
            _ => None,
        }
    }

    /// Returns the bare level number of this privilege level.
    pub fn raw(self) -> (r: u8)
        ensures
            r == self.value(),
            r <= 3,
    {
        match self {
            PrivilegeLevel::Ring0 => 0,
            PrivilegeLevel::Ring1 => 1,
            PrivilegeLevel::Ring2 => 2,
            PrivilegeLevel::Ring3 => 3,
        }
    }
}

/// An I/O privilege level: the constraint on I/O instruction execution
/// carried in RFLAGS, distinct from the current privilege level.
#[derive(Debug, Clone, Copy, PartialEq, Eq, PartialOrd, Ord, Hash)]
#[non_exhaustive]
pub enum IoPrivilegeLevel {
    /// I/O privilege level zero.
    Ring0,
    /// I/O privilege level one.
    Ring1,
    /// I/O privilege level two.
    Ring2,
    /// I/O privilege level three.
    Ring3,
}

impl IoPrivilegeLevel {
    /// The architectural number of this level.
    pub open spec fn value(self) -> u8 {
        match self {
            IoPrivilegeLevel::Ring0 => 0,
            IoPrivilegeLevel::Ring1 => 1,
            IoPrivilegeLevel::Ring2 => 2,
            IoPrivilegeLevel::Ring3 => 3,
        }
    }

    /// Lifts a bare level number into a declared I/O privilege level.
    pub fn lift(target_value: u8) -> (r: Option<Self>)
        ensures
            r is Some <==> target_value <= 3,
            r matches Some(l) ==> l.value() == target_value,
    {
        match target_value {
            0 => Some(IoPrivilegeLevel::Ring0),
            1 => Some(IoPrivilegeLevel::Ring1),
            2 => Some(IoPrivilegeLevel::Ring2),
            3 => Some(IoPrivilegeLevel::Ring3),
            _ => None,
        }
    }

    /// Returns the bare level number of this I/O privilege level.
    pub fn raw(self) -> (r: u8)
        ensures
            r == self.value(),
            r <= 3,
    {
        match self {
            IoPrivilegeLevel::Ring0 => 0,
            IoPrivilegeLevel::Ring1 => 1,
            IoPrivilegeLevel::Ring2 => 2,
            IoPrivilegeLevel::Ring3 => 3,
        }
    }
}

/// Lifting the number of a level gives the level back, and a number that
/// lifts is the number of the level it lifts to: `lift` and `raw` are inverse
/// on both privilege-level families.
pub proof fn lemma_level_numbers_round_trip(
    level: PrivilegeLevel,
    io_level: IoPrivilegeLevel,
    n: u8,
)
    ensures
        level.value() <= 3,
        forall|other: PrivilegeLevel| other.value() == level.value() ==> other == level,
        io_level.value() <= 3,
        forall|other: IoPrivilegeLevel| other.value() == io_level.value() ==> other == io_level,
        n <= 3 ==> exists|l: PrivilegeLevel| l.value() == n,
        n <= 3 ==> exists|l: IoPrivilegeLevel| l.value() == n,
{
    if n <= 3 {
        let l = if n == 0 {
            PrivilegeLevel::Ring0
        } else if n == 1 {
            PrivilegeLevel::Ring1
        } else if n == 2 {
            PrivilegeLevel::Ring2
        } else {
            PrivilegeLevel::Ring3
        };
        assert(l.value() == n);
        let i = if n == 0 {
            IoPrivilegeLevel::Ring0
        } else if n == 1 {
            IoPrivilegeLevel::Ring1
        } else if n == 2 {
            IoPrivilegeLevel::Ring2
        } else {
            IoPrivilegeLevel::Ring3
        };
        assert(i.value() == n);
    }
}

/// Marks the privilege level numbers that are valid: zero through three.
pub trait AssertPrivilegeLevelIsValid<const N: u8> {}

/// The witness type whose implementations of [`AssertPrivilegeLevelIsValid`]
/// enumerate the valid privilege levels.
pub struct AssertPrivilegeLevel;

impl AssertPrivilegeLevelIsValid<0> for AssertPrivilegeLevel {}

impl AssertPrivilegeLevelIsValid<1> for AssertPrivilegeLevel {}

impl AssertPrivilegeLevelIsValid<2> for AssertPrivilegeLevel {}

impl AssertPrivilegeLevelIsValid<3> for AssertPrivilegeLevel {}

/// A value of type `T` carried together with the claim that the current
/// privilege level is `N`. It is made only by [`Cpl::claim`].
#[derive(Debug, Clone, Copy, PartialEq, Eq, PartialOrd, Ord, Hash)]
pub struct Cpl<const N: u8, T>(pub T, Claimed);

/// The private part of a [`Cpl`], which only [`Cpl::claim`] supplies. It
/// keeps the token on the thread that claimed it: a [`Cpl`] is neither `Send`
/// nor `Sync`, so it cannot be handed to code that runs elsewhere.
#[derive(Debug, Clone, Copy, PartialEq, Eq, PartialOrd, Ord, Hash)]
struct Claimed(core::marker::PhantomData<std::rc::Rc<()>>);

impl<const N: u8, T> View for Cpl<N, T> {
    type V = T;

    /// The carried value.
    closed spec fn view(&self) -> T {
        self.0
    }
}

impl<const N: u8, T> Cpl<N, T> {
    /// Asserts that the current privilege level is `N`.
    ///
    /// The caller promises that the token is only ever used in an execution
    /// context whose current privilege level is exactly `N`, and never crosses
    /// a privilege boundary.
    pub fn claim(target_value: T) -> (r: Self)
        where AssertPrivilegeLevel: AssertPrivilegeLevelIsValid<N>
        requires
            N <= 3,
        ensures
            r@ == target_value,
    {
        Cpl(target_value, Claimed(core::marker::PhantomData))
    }
}

} // verus!
