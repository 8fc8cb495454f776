//! Statically selected architectural CPUID records.

use vstd::prelude::*;

verus! {

/// The four output registers of one CPUID execution.
#[derive(Debug, Clone, Copy, PartialEq, Eq, Hash)]
pub struct CpuidResult {
    /// The `EAX` output.
    pub eax: u32,
    /// The `EBX` output.
    pub ebx: u32,
    /// The `ECX` output.
    pub ecx: u32,
    /// The `EDX` output.
    pub edx: u32,
}

/// Executes CPUID for a leaf and subleaf through `core::arch::x86_64::__cpuid_count`.
///
/// Nothing is claimed of the result: it is whatever the executing processor
/// reports.
#[verifier::external_body]
pub(crate) fn cpuid_count(leaf: u32, subleaf: u32) -> (r: CpuidResult) {
    let result = core::arch::x86_64::__cpuid_count(leaf, subleaf);
    CpuidResult { eax: result.eax, ebx: result.ebx, ecx: result.ecx, edx: result.edx }
}

/// The complete output of one compile-time selected CPUID leaf and subleaf.
///
/// The selector pair is part of the type; the record is the complete
/// architectural output for exactly that pair.
#[derive(Debug, Clone, Copy, PartialEq, Eq)]
pub struct Cpuid<const LEAF: u32, const SUBLEAF: u32>(CpuidResult);

impl<const LEAF: u32, const SUBLEAF: u32> View for Cpuid<LEAF, SUBLEAF> {
    type V = CpuidResult;

    closed spec fn view(&self) -> CpuidResult {
        self.0
    }
}

impl<const LEAF: u32, const SUBLEAF: u32> Cpuid<LEAF, SUBLEAF> {
    /// Executes the selector pair encoded by this type on the current
    /// processor.
    pub fn read() -> (r: Self) {
        Self(cpuid_count(LEAF, SUBLEAF))
    }

    /// Borrows the complete CPUID result.
    pub fn result(&self) -> (r: &CpuidResult)
        ensures
            *r == self@,
    {
        &self.0
    }

    /// Constructs a record from an already known result, such as a replayed
    /// or simulated processor's output.
    pub fn synthetic(result: CpuidResult) -> (r: Self)
        ensures
            r@ == result,
    {
        Self(result)
    }
}

} // verus!
