//! Feature detection through the x86 `cpuid` instruction.

use vstd::prelude::*;

use crate::arch::x86::cpuid::{CpuidResult, cpuid_count};
use crate::bits::{field_of, get_field_u32};
use crate::sealed::Sealed;

pub mod qualified;

verus! {

/// A `cpuid` output register.
pub trait Output: Sealed {
    /// The value of this register in a `cpuid` result.
    spec fn spec_grab(target_result: CpuidResult) -> u32;

    /// Reads this register of a `cpuid` result.
    fn grab(target_result: &CpuidResult) -> (r: u32)
        ensures
            r == Self::spec_grab(*target_result),
    ;
}

/// The `eax` output register.
#[derive(Debug, PartialOrd, Ord, Eq, PartialEq, Copy, Clone)]
pub struct Eax;

/// The `ebx` output register.
#[derive(Debug, PartialOrd, Ord, Eq, PartialEq, Copy, Clone)]
pub struct Ebx;

/// The `ecx` output register.
#[derive(Debug, PartialOrd, Ord, Eq, PartialEq, Copy, Clone)]
pub struct Ecx;

/// The `edx` output register.
#[derive(Debug, PartialOrd, Ord, Eq, PartialEq, Copy, Clone)]
pub struct Edx;

impl Sealed for Eax {}

impl Sealed for Ebx {}

impl Sealed for Ecx {}

impl Sealed for Edx {}

impl Output for Eax {
    open spec fn spec_grab(target_result: CpuidResult) -> u32 {
        target_result.eax
    }

    fn grab(target_result: &CpuidResult) -> (r: u32) {
        target_result.eax
    }
}

impl Output for Ebx {
    open spec fn spec_grab(target_result: CpuidResult) -> u32 {
        target_result.ebx
    }

    fn grab(target_result: &CpuidResult) -> (r: u32) {
        target_result.ebx
    }
}

impl Output for Ecx {
    open spec fn spec_grab(target_result: CpuidResult) -> u32 {
        target_result.ecx
    }

    fn grab(target_result: &CpuidResult) -> (r: u32) {
        target_result.ecx
    }
}

impl Output for Edx {
    open spec fn spec_grab(target_result: CpuidResult) -> u32 {
        target_result.edx
    }

    fn grab(target_result: &CpuidResult) -> (r: u32) {
        target_result.edx
    }
}

/// An operation whose output can be kept once computed.
///
/// The library itself keeps no process-wide store, because it holds no
/// mutable global state: its implementations of [`Cached::lazy`] perform the
/// operation and its [`Cached::cached`] reports that no output is kept. A
/// platform layer that owns a store keeps each output in a [`Store`], whose
/// contract is the caching decision.
pub trait Cached: Sized {
    /// The output of the operation.
    type Output;

    /// The output, computed now or taken from where it is kept.
    fn lazy() -> Self::Output;

    /// The kept output, without performing the operation.
    fn cached() -> Option<Self::Output>;

    /// Performs the operation.
    fn unconditional() -> Self::Output;
}

/// The kept output of a cached operation: empty until the operation is first
/// performed lazily, then the first output, for good.
#[derive(Debug, Clone, Copy, PartialEq, Eq)]
pub struct Store<T>(Option<T>);

impl<T> View for Store<T> {
    type V = Option<T>;

    closed spec fn view(&self) -> Option<T> {
        self.0
    }
}

impl<T: Copy> Store<T> {
    /// A store that keeps nothing yet.
    pub fn empty() -> (r: Self)
        ensures
            r@ is None,
    {
        Store(None)
    }

    /// The kept output, if any; the operation is not performed.
    pub fn cached(&self) -> (r: Option<T>)
        ensures
            r == self@,
    {
        self.0
    }

    /// The output of a lazy use, given the output the operation has just
    /// produced, for a store that was found empty: a store that already keeps
    /// an output gives that output back and is unchanged; an empty one keeps
    /// `fresh` and gives it back.
    pub fn fill(&mut self, fresh: T) -> (r: T)
        ensures
            (r, final(self)@) == spec_fill(old(self)@, fresh),
    {
        match self.0 {
            Some(kept) => kept,
            None => {
                self.0 = Some(fresh);
                fresh
            },
        }
    }
}

/// The caching decision of a lazy use: from the kept output and the output
/// the operation has just produced, the output that is given back and the
/// output that is kept afterwards.
pub open spec fn spec_fill<T>(kept: Option<T>, fresh: T) -> (T, Option<T>) {
    match kept {
        Some(k) => (k, Some(k)),
        None => (fresh, Some(fresh)),
    }
}

/// Lazy uses agree: after a first lazy use, whatever a second lazy use
/// produces, it gives back what the first gave back and keeps it.
pub proof fn lemma_store_keeps_first<T>(kept: Option<T>, first: T, second: T)
    ensures
        spec_fill(spec_fill(kept, first).1, second).0 == spec_fill(kept, first).0,
        spec_fill(spec_fill(kept, first).1, second).1 == spec_fill(kept, first).1,
        spec_fill(kept, first).1 == Some(spec_fill(kept, first).0),
{
}

/// The output of a `cpuid` leaf and subleaf fixed at compile time.
#[derive(Debug, Copy, Clone)]
pub struct Cpuid<const LEAF: u32, const SUBLEAF: u32>(pub CpuidResult);

impl<const LEAF: u32, const SUBLEAF: u32> Cached for Cpuid<LEAF, SUBLEAF> {
    type Output = Self;

    fn unconditional() -> Self {
        Cpuid(cpuid_count(LEAF, SUBLEAF))
    }

    fn lazy() -> Self {
        Self::unconditional()
    }

    fn cached() -> (r: Option<Self>)
        ensures
            r is None,
    {
        None
    }
}

/// One output register of a `cpuid` leaf and subleaf fixed at compile time.
#[derive(Debug)]
pub struct CpuidReg<R: Output, const LEAF: u32, const SUBLEAF: u32>(
    pub u32,
    pub core::marker::PhantomData<R>,
);

impl<R: Output, const LEAF: u32, const SUBLEAF: u32> Clone for CpuidReg<R, LEAF, SUBLEAF> {
    fn clone(&self) -> (r: Self)
        ensures
            r.0 == self.0,
    {
        CpuidReg(self.0, core::marker::PhantomData)
    }
}

impl<R: Output, const LEAF: u32, const SUBLEAF: u32> Copy for CpuidReg<R, LEAF, SUBLEAF> {

}

impl<R: Output, const LEAF: u32, const SUBLEAF: u32> CpuidReg<R, LEAF, SUBLEAF> {
    /// The register `R` of a `cpuid` output.
    pub fn of(target_result: &CpuidResult) -> (r: Self)
        ensures
            r.0 == R::spec_grab(*target_result),
    {
        CpuidReg(R::grab(target_result), core::marker::PhantomData)
    }
}

impl<R: Output, const LEAF: u32, const SUBLEAF: u32> Cached for CpuidReg<R, LEAF, SUBLEAF> {
    type Output = Self;

    fn unconditional() -> Self {
        let Cpuid(target_value) = Cpuid::<LEAF, SUBLEAF>::unconditional();
        Self::of(&target_value)
    }

    fn lazy() -> Self {
        let Cpuid(target_value) = Cpuid::<LEAF, SUBLEAF>::lazy();
        Self::of(&target_value)
    }

    fn cached() -> (r: Option<Self>)
        ensures
            r is None,
    {
        match Cpuid::<LEAF, SUBLEAF>::cached() {
            Some(Cpuid(target_value)) => Some(Self::of(&target_value)),
            None => None,
        }
    }
}

/// Whether bits `N` through `M`, both included, name a field of a 32-bit
/// register.
pub open spec fn spec_field_fits(n: usize, m: usize) -> bool {
    n <= m < 32
}

/// Bits `n` through `m`, both included, of the register value `v`, shifted
/// down to bit zero; zero where those bits do not name a field of the
/// register.
pub open spec fn spec_register_field(v: u32, n: usize, m: usize) -> u32 {
    if spec_field_fits(n, m) {
        field_of(v as u64, n as u64, (m - n + 1) as u64) as u32
    } else {
        0
    }
}

/// The field of bits `N` through `M`, both included, of the output register
/// `R` of a `cpuid` leaf and subleaf fixed at compile time.
pub struct CpuidField<const N: usize, const M: usize, R: Output, const LEAF: u32, const SUBLEAF: u32>(
    pub core::marker::PhantomData<R>,
);

impl<const N: usize, const M: usize, R: Output, const LEAF: u32, const SUBLEAF: u32> CpuidField<
    N,
    M,
    R,
    LEAF,
    SUBLEAF,
> {
    /// Bits `N` through `M` of a register, shifted down to bit zero.
    pub fn of(register: &CpuidReg<R, LEAF, SUBLEAF>) -> (r: u32)
        ensures
            r == spec_register_field(register.0, N, M),
    {
        if N <= M && M < 32 {
            let width: u64 = (M - N + 1) as u64;
            get_field_u32(register.0 as u64, N as u64, width)
        } else {
            0
        }
    }
}

impl<const N: usize, const M: usize, R: Output, const LEAF: u32, const SUBLEAF: u32> Cached for CpuidField<
    N,
    M,
    R,
    LEAF,
    SUBLEAF,
> {
    type Output = u32;

    fn unconditional() -> u32 {
        Self::of(&CpuidReg::<R, LEAF, SUBLEAF>::unconditional())
    }

    fn lazy() -> u32 {
        Self::of(&CpuidReg::<R, LEAF, SUBLEAF>::lazy())
    }

    fn cached() -> (r: Option<u32>)
        ensures
            r is None,
    {
        match CpuidReg::<R, LEAF, SUBLEAF>::cached() {
            Some(register) => Some(Self::of(&register)),
            None => None,
        }
    }
}

} // verus!
