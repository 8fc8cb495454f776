//! Named x86 features, each located by a `cpuid` leaf, subleaf, output
//! register and bit.
//!
//! For each feature, `detect` reads the feature's bit out of the output of
//! its `cpuid` leaf and subleaf; the record type fixes the leaf and subleaf,
//! and the contract fixes the register and the bit. `supported` executes that
//! `cpuid` on the running processor and hands its output to `detect`.

use vstd::prelude::*;

use crate::bits::{bit_of, get_bit};
use crate::feature::x86::{Cached, Cpuid};
use crate::feature::{Feature, Present, Signal};

verus! {

/// A marker type to indicate support for the `XSAVE` instruction by the processor.
#[derive(Debug, Clone, Copy, Hash, PartialEq, PartialOrd, Eq, Ord)]
pub struct XSave;

impl XSave {
    /// Reads bit 26 of `ecx` from the output of `cpuid` leaf 0x01,
    /// subleaf 0x00.
    pub fn detect(record: &Cpuid<0x01, 0x00>) -> (r: Signal)
        ensures
            r == Signal::Detected(Present::of(bit_of(record.0.ecx as u64, 26))),
    {
        Signal::state(get_bit(record.0.ecx as u64, 26))
    }
}

impl Feature for XSave {
    /// Detected on the running processor by [`XSave::detect`].
    fn supported() -> (r: Signal)
        ensures
            r is Detected,
    {
        Self::detect(&Cpuid::<0x01, 0x00>::lazy())
    }
}

/// A marker type to indicate support for the `XSAVEOPT` instruction by the processor.
///
/// This has a dependency on the [`XSave`] feature.
#[derive(Debug, Clone, Copy, Hash, PartialEq, PartialOrd, Eq, Ord)]
pub struct XSaveOpt;

impl XSaveOpt {
    /// Reads bit 0 of `eax` from the output of `cpuid` leaf 0x0D,
    /// subleaf 0x01.
    pub fn detect(record: &Cpuid<0x0D, 0x01>) -> (r: Signal)
        ensures
            r == Signal::Detected(Present::of(bit_of(record.0.eax as u64, 0))),
    {
        Signal::state(get_bit(record.0.eax as u64, 0))
    }
}

impl Feature for XSaveOpt {
    /// Detected on the running processor by [`XSaveOpt::detect`].
    fn supported() -> (r: Signal)
        ensures
            r is Detected,
    {
        Self::detect(&Cpuid::<0x0D, 0x01>::lazy())
    }
}

/// A marker type to indicate support for the `XSAVEC` instruction by the processor.
#[derive(Debug, Clone, Copy, Hash, PartialEq, PartialOrd, Eq, Ord)]
pub struct XSaveC;

impl XSaveC {
    /// Reads bit 1 of `eax` from the output of `cpuid` leaf 0x0D,
    /// subleaf 0x01.
    pub fn detect(record: &Cpuid<0x0D, 0x01>) -> (r: Signal)
        ensures
            r == Signal::Detected(Present::of(bit_of(record.0.eax as u64, 1))),
    {
        Signal::state(get_bit(record.0.eax as u64, 1))
    }
}

impl Feature for XSaveC {
    /// Detected on the running processor by [`XSaveC::detect`].
    fn supported() -> (r: Signal)
        ensures
            r is Detected,
    {
        Self::detect(&Cpuid::<0x0D, 0x01>::lazy())
    }
}

/// A marker type to indicate support for the `XSAVES` instruction by the processor.
///
/// This has a dependency on the [`XSave`] feature.
#[derive(Debug, Clone, Copy, Hash, PartialEq, PartialOrd, Eq, Ord)]
pub struct XSaveS;

impl XSaveS {
    /// Reads bit 3 of `eax` from the output of `cpuid` leaf 0x0D,
    /// subleaf 0x01.
    pub fn detect(record: &Cpuid<0x0D, 0x01>) -> (r: Signal)
        ensures
            r == Signal::Detected(Present::of(bit_of(record.0.eax as u64, 3))),
    {
        Signal::state(get_bit(record.0.eax as u64, 3))
    }
}

impl Feature for XSaveS {
    /// Detected on the running processor by [`XSaveS::detect`].
    fn supported() -> (r: Signal)
        ensures
            r is Detected,
    {
        Self::detect(&Cpuid::<0x0D, 0x01>::lazy())
    }
}

/// A marker type to indicate support for the `CMPXCHG16B` instruction by the processor.
#[derive(Debug, Clone, Copy, Hash, PartialEq, PartialOrd, Eq, Ord)]
pub struct CmpXChg16b;

impl CmpXChg16b {
    /// Reads bit 13 of `ecx` from the output of `cpuid` leaf 0x01,
    /// subleaf 0x00.
    pub fn detect(record: &Cpuid<0x01, 0x00>) -> (r: Signal)
        ensures
            r == Signal::Detected(Present::of(bit_of(record.0.ecx as u64, 13))),
    {
        Signal::state(get_bit(record.0.ecx as u64, 13))
    }
}

impl Feature for CmpXChg16b {
    /// Detected on the running processor by [`CmpXChg16b::detect`].
    fn supported() -> (r: Signal)
        ensures
            r is Detected,
    {
        Self::detect(&Cpuid::<0x01, 0x00>::lazy())
    }
}

/// A marker type to indicate support for the `MONITOR` and `MWAIT` instructions.
#[derive(Debug, Clone, Copy, Hash, PartialEq, PartialOrd, Eq, Ord)]
pub struct Monitor;

impl Monitor {
    /// Reads bit 3 of `ecx` from the output of `cpuid` leaf 0x01,
    /// subleaf 0x00.
    pub fn detect(record: &Cpuid<0x01, 0x00>) -> (r: Signal)
        ensures
            r == Signal::Detected(Present::of(bit_of(record.0.ecx as u64, 3))),
    {
        Signal::state(get_bit(record.0.ecx as u64, 3))
    }
}

impl Feature for Monitor {
    /// Detected on the running processor by [`Monitor::detect`].
    fn supported() -> (r: Signal)
        ensures
            r is Detected,
    {
        Self::detect(&Cpuid::<0x01, 0x00>::lazy())
    }
}

/// A marker type to indicate support for the `MONITORX` and `MWAITX` instructions.
///
/// This is only available on *AMD processors*.
#[derive(Debug, Clone, Copy, Hash, PartialEq, PartialOrd, Eq, Ord)]
pub struct MonitorX;

impl MonitorX {
    /// Reads bit 29 of `ecx` from the output of `cpuid` leaf 0x80000001,
    /// subleaf 0x00.
    pub fn detect(record: &Cpuid<0x80000001, 0x00>) -> (r: Signal)
        ensures
            r == Signal::Detected(Present::of(bit_of(record.0.ecx as u64, 29))),
    {
        Signal::state(get_bit(record.0.ecx as u64, 29))
    }
}

impl Feature for MonitorX {
    /// Detected on the running processor by [`MonitorX::detect`].
    fn supported() -> (r: Signal)
        ensures
            r is Detected,
    {
        Self::detect(&Cpuid::<0x80000001, 0x00>::lazy())
    }
}

/// A marker type to indicate support for the instructions provided by the `WAITPKG` extension.
#[derive(Debug, Clone, Copy, Hash, PartialEq, PartialOrd, Eq, Ord)]
pub struct Waitpkg;

impl Waitpkg {
    /// Reads bit 5 of `ecx` from the output of `cpuid` leaf 0x07,
    /// subleaf 0x00.
    pub fn detect(record: &Cpuid<0x07, 0x00>) -> (r: Signal)
        ensures
            r == Signal::Detected(Present::of(bit_of(record.0.ecx as u64, 5))),
    {
        Signal::state(get_bit(record.0.ecx as u64, 5))
    }
}

impl Feature for Waitpkg {
    /// Detected on the running processor by [`Waitpkg::detect`].
    fn supported() -> (r: Signal)
        ensures
            r is Detected,
    {
        Self::detect(&Cpuid::<0x07, 0x00>::lazy())
    }
}

/// A marker type to indicate support for the `serialize` instruction.
#[derive(Debug, Clone, Copy, Hash, PartialEq, PartialOrd, Eq, Ord)]
pub struct Serialize;

impl Serialize {
    /// Reads bit 14 of `edx` from the output of `cpuid` leaf 0x07,
    /// subleaf 0x00.
    pub fn detect(record: &Cpuid<0x07, 0x00>) -> (r: Signal)
        ensures
            r == Signal::Detected(Present::of(bit_of(record.0.edx as u64, 14))),
    {
        Signal::state(get_bit(record.0.edx as u64, 14))
    }
}

impl Feature for Serialize {
    /// Detected on the running processor by [`Serialize::detect`].
    fn supported() -> (r: Signal)
        ensures
            r is Detected,
    {
        Self::detect(&Cpuid::<0x07, 0x00>::lazy())
    }
}

/// A marker type to indicate support for the `ADX` architectural extension by the processor.
#[derive(Debug, Clone, Copy, Hash, PartialEq, PartialOrd, Eq, Ord)]
pub struct Adx;

impl Adx {
    /// Reads bit 19 of `ebx` from the output of `cpuid` leaf 0x07,
    /// subleaf 0x00.
    pub fn detect(record: &Cpuid<0x07, 0x00>) -> (r: Signal)
        ensures
            r == Signal::Detected(Present::of(bit_of(record.0.ebx as u64, 19))),
    {
        Signal::state(get_bit(record.0.ebx as u64, 19))
    }
}

impl Feature for Adx {
    /// Detected on the running processor by [`Adx::detect`].
    fn supported() -> (r: Signal)
        ensures
            r is Detected,
    {
        Self::detect(&Cpuid::<0x07, 0x00>::lazy())
    }
}

/// A marker type to indicate support for the `AES` architectural extension by the processor.
#[derive(Debug, Clone, Copy, Hash, PartialEq, PartialOrd, Eq, Ord)]
pub struct Aes;

impl Aes {
    /// Reads bit 25 of `ecx` from the output of `cpuid` leaf 0x01,
    /// subleaf 0x00.
    pub fn detect(record: &Cpuid<0x01, 0x00>) -> (r: Signal)
        ensures
            r == Signal::Detected(Present::of(bit_of(record.0.ecx as u64, 25))),
    {
        Signal::state(get_bit(record.0.ecx as u64, 25))
    }
}

impl Feature for Aes {
    /// Detected on the running processor by [`Aes::detect`].
    fn supported() -> (r: Signal)
        ensures
            r is Detected,
    {
        Self::detect(&Cpuid::<0x01, 0x00>::lazy())
    }
}

/// A marker type to indicate support for the `AVX` architectural extension by the processor.
#[derive(Debug, Clone, Copy, Hash, PartialEq, PartialOrd, Eq, Ord)]
pub struct Avx;

impl Avx {
    /// Reads bit 28 of `ecx` from the output of `cpuid` leaf 0x01,
    /// subleaf 0x00.
    pub fn detect(record: &Cpuid<0x01, 0x00>) -> (r: Signal)
        ensures
            r == Signal::Detected(Present::of(bit_of(record.0.ecx as u64, 28))),
    {
        Signal::state(get_bit(record.0.ecx as u64, 28))
    }
}

impl Feature for Avx {
    /// Detected on the running processor by [`Avx::detect`].
    fn supported() -> (r: Signal)
        ensures
            r is Detected,
    {
        Self::detect(&Cpuid::<0x01, 0x00>::lazy())
    }
}

/// A marker type to indicate support for the `AVX2` architectural extension by the processor.
#[derive(Debug, Clone, Copy, Hash, PartialEq, PartialOrd, Eq, Ord)]
pub struct Avx2;

impl Avx2 {
    /// Reads bit 5 of `ebx` from the output of `cpuid` leaf 0x07,
    /// subleaf 0x00.
    pub fn detect(record: &Cpuid<0x07, 0x00>) -> (r: Signal)
        ensures
            r == Signal::Detected(Present::of(bit_of(record.0.ebx as u64, 5))),
    {
        Signal::state(get_bit(record.0.ebx as u64, 5))
    }
}

impl Feature for Avx2 {
    /// Detected on the running processor by [`Avx2::detect`].
    fn supported() -> (r: Signal)
        ensures
            r is Detected,
    {
        Self::detect(&Cpuid::<0x07, 0x00>::lazy())
    }
}

/// A marker type to indicate support for the `AVX512BF16` architectural extension by the processor.
#[derive(Debug, Clone, Copy, Hash, PartialEq, PartialOrd, Eq, Ord)]
pub struct Avx512Bf16;

impl Avx512Bf16 {
    /// Reads bit 5 of `eax` from the output of `cpuid` leaf 0x07,
    /// subleaf 0x01.
    pub fn detect(record: &Cpuid<0x07, 0x01>) -> (r: Signal)
        ensures
            r == Signal::Detected(Present::of(bit_of(record.0.eax as u64, 5))),
    {
        Signal::state(get_bit(record.0.eax as u64, 5))
    }
}

impl Feature for Avx512Bf16 {
    /// Detected on the running processor by [`Avx512Bf16::detect`].
    fn supported() -> (r: Signal)
        ensures
            r is Detected,
    {
        Self::detect(&Cpuid::<0x07, 0x01>::lazy())
    }
}

/// A marker type to indicate support for the `AVX512BITALG` architectural extension by the processor.
#[derive(Debug, Clone, Copy, Hash, PartialEq, PartialOrd, Eq, Ord)]
pub struct Avx512Bitalg;

impl Avx512Bitalg {
    /// Reads bit 12 of `ecx` from the output of `cpuid` leaf 0x07,
    /// subleaf 0x00.
    pub fn detect(record: &Cpuid<0x07, 0x00>) -> (r: Signal)
        ensures
            r == Signal::Detected(Present::of(bit_of(record.0.ecx as u64, 12))),
    {
        Signal::state(get_bit(record.0.ecx as u64, 12))
    }
}

impl Feature for Avx512Bitalg {
    /// Detected on the running processor by [`Avx512Bitalg::detect`].
    fn supported() -> (r: Signal)
        ensures
            r is Detected,
    {
        Self::detect(&Cpuid::<0x07, 0x00>::lazy())
    }
}

/// A marker type to indicate support for the `AVX512BW` architectural extension by the processor.
#[derive(Debug, Clone, Copy, Hash, PartialEq, PartialOrd, Eq, Ord)]
pub struct Avx512Bw;

impl Avx512Bw {
    /// Reads bit 30 of `ebx` from the output of `cpuid` leaf 0x07,
    /// subleaf 0x00.
    pub fn detect(record: &Cpuid<0x07, 0x00>) -> (r: Signal)
        ensures
            r == Signal::Detected(Present::of(bit_of(record.0.ebx as u64, 30))),
    {
        Signal::state(get_bit(record.0.ebx as u64, 30))
    }
}

impl Feature for Avx512Bw {
    /// Detected on the running processor by [`Avx512Bw::detect`].
    fn supported() -> (r: Signal)
        ensures
            r is Detected,
    {
        Self::detect(&Cpuid::<0x07, 0x00>::lazy())
    }
}

/// A marker type to indicate support for the `AVX512CD` architectural extension by the processor.
#[derive(Debug, Clone, Copy, Hash, PartialEq, PartialOrd, Eq, Ord)]
pub struct Avx512Cd;

impl Avx512Cd {
    /// Reads bit 28 of `ebx` from the output of `cpuid` leaf 0x07,
    /// subleaf 0x00.
    pub fn detect(record: &Cpuid<0x07, 0x00>) -> (r: Signal)
        ensures
            r == Signal::Detected(Present::of(bit_of(record.0.ebx as u64, 28))),
    {
        Signal::state(get_bit(record.0.ebx as u64, 28))
    }
}

impl Feature for Avx512Cd {
    /// Detected on the running processor by [`Avx512Cd::detect`].
    fn supported() -> (r: Signal)
        ensures
            r is Detected,
    {
        Self::detect(&Cpuid::<0x07, 0x00>::lazy())
    }
}

/// A marker type to indicate support for the `AVX512DQ` architectural extension by the processor.
#[derive(Debug, Clone, Copy, Hash, PartialEq, PartialOrd, Eq, Ord)]
pub struct Avx512Dq;

impl Avx512Dq {
    /// Reads bit 17 of `ebx` from the output of `cpuid` leaf 0x07,
    /// subleaf 0x00.
    pub fn detect(record: &Cpuid<0x07, 0x00>) -> (r: Signal)
        ensures
            r == Signal::Detected(Present::of(bit_of(record.0.ebx as u64, 17))),
    {
        Signal::state(get_bit(record.0.ebx as u64, 17))
    }
}

impl Feature for Avx512Dq {
    /// Detected on the running processor by [`Avx512Dq::detect`].
    fn supported() -> (r: Signal)
        ensures
            r is Detected,
    {
        Self::detect(&Cpuid::<0x07, 0x00>::lazy())
    }
}

/// A marker type to indicate support for the `AVX512F` architectural extension by the processor.
#[derive(Debug, Clone, Copy, Hash, PartialEq, PartialOrd, Eq, Ord)]
pub struct Avx512F;

impl Avx512F {
    /// Reads bit 16 of `ebx` from the output of `cpuid` leaf 0x07,
    /// subleaf 0x00.
    pub fn detect(record: &Cpuid<0x07, 0x00>) -> (r: Signal)
        ensures
            r == Signal::Detected(Present::of(bit_of(record.0.ebx as u64, 16))),
    {
        Signal::state(get_bit(record.0.ebx as u64, 16))
    }
}

impl Feature for Avx512F {
    /// Detected on the running processor by [`Avx512F::detect`].
    fn supported() -> (r: Signal)
        ensures
            r is Detected,
    {
        Self::detect(&Cpuid::<0x07, 0x00>::lazy())
    }
}

/// A marker type to indicate support for the `AVX512FP16` architectural extension by the processor.
#[derive(Debug, Clone, Copy, Hash, PartialEq, PartialOrd, Eq, Ord)]
pub struct Avx512Fp16;

impl Avx512Fp16 {
    /// Reads bit 23 of `edx` from the output of `cpuid` leaf 0x07,
    /// subleaf 0x00.
    pub fn detect(record: &Cpuid<0x07, 0x00>) -> (r: Signal)
        ensures
            r == Signal::Detected(Present::of(bit_of(record.0.edx as u64, 23))),
    {
        Signal::state(get_bit(record.0.edx as u64, 23))
    }
}

impl Feature for Avx512Fp16 {
    /// Detected on the running processor by [`Avx512Fp16::detect`].
    fn supported() -> (r: Signal)
        ensures
            r is Detected,
    {
        Self::detect(&Cpuid::<0x07, 0x00>::lazy())
    }
}

/// A marker type to indicate support for the `AVX512IFMA` architectural extension by the processor.
#[derive(Debug, Clone, Copy, Hash, PartialEq, PartialOrd, Eq, Ord)]
pub struct Avx512Ifma;

impl Avx512Ifma {
    /// Reads bit 21 of `ebx` from the output of `cpuid` leaf 0x07,
    /// subleaf 0x00.
    pub fn detect(record: &Cpuid<0x07, 0x00>) -> (r: Signal)
        ensures
            r == Signal::Detected(Present::of(bit_of(record.0.ebx as u64, 21))),
    {
        Signal::state(get_bit(record.0.ebx as u64, 21))
    }
}

impl Feature for Avx512Ifma {
    /// Detected on the running processor by [`Avx512Ifma::detect`].
    fn supported() -> (r: Signal)
        ensures
            r is Detected,
    {
        Self::detect(&Cpuid::<0x07, 0x00>::lazy())
    }
}

/// A marker type to indicate support for the `AVX512VBMI` architectural extension by the processor.
#[derive(Debug, Clone, Copy, Hash, PartialEq, PartialOrd, Eq, Ord)]
pub struct Avx512Vbmi;

impl Avx512Vbmi {
    /// Reads bit 1 of `ecx` from the output of `cpuid` leaf 0x07,
    /// subleaf 0x00.
    pub fn detect(record: &Cpuid<0x07, 0x00>) -> (r: Signal)
        ensures
            r == Signal::Detected(Present::of(bit_of(record.0.ecx as u64, 1))),
    {
        Signal::state(get_bit(record.0.ecx as u64, 1))
    }
}

impl Feature for Avx512Vbmi {
    /// Detected on the running processor by [`Avx512Vbmi::detect`].
    fn supported() -> (r: Signal)
        ensures
            r is Detected,
    {
        Self::detect(&Cpuid::<0x07, 0x00>::lazy())
    }
}

/// A marker type to indicate support for the `AVX512VBMI2` architectural extension by the processor.
#[derive(Debug, Clone, Copy, Hash, PartialEq, PartialOrd, Eq, Ord)]
pub struct Avx512Vbmi2;

impl Avx512Vbmi2 {
    /// Reads bit 6 of `ecx` from the output of `cpuid` leaf 0x07,
    /// subleaf 0x00.
    pub fn detect(record: &Cpuid<0x07, 0x00>) -> (r: Signal)
        ensures
            r == Signal::Detected(Present::of(bit_of(record.0.ecx as u64, 6))),
    {
        Signal::state(get_bit(record.0.ecx as u64, 6))
    }
}

impl Feature for Avx512Vbmi2 {
    /// Detected on the running processor by [`Avx512Vbmi2::detect`].
    fn supported() -> (r: Signal)
        ensures
            r is Detected,
    {
        Self::detect(&Cpuid::<0x07, 0x00>::lazy())
    }
}

/// A marker type to indicate support for the `AVX512VL` architectural extension by the processor.
#[derive(Debug, Clone, Copy, Hash, PartialEq, PartialOrd, Eq, Ord)]
pub struct Avx512Vl;

impl Avx512Vl {
    /// Reads bit 31 of `ebx` from the output of `cpuid` leaf 0x07,
    /// subleaf 0x00.
    pub fn detect(record: &Cpuid<0x07, 0x00>) -> (r: Signal)
        ensures
            r == Signal::Detected(Present::of(bit_of(record.0.ebx as u64, 31))),
    {
        Signal::state(get_bit(record.0.ebx as u64, 31))
    }
}

impl Feature for Avx512Vl {
    /// Detected on the running processor by [`Avx512Vl::detect`].
    fn supported() -> (r: Signal)
        ensures
            r is Detected,
    {
        Self::detect(&Cpuid::<0x07, 0x00>::lazy())
    }
}

/// A marker type to indicate support for the `AVX512VNNI` architectural extension by the processor.
#[derive(Debug, Clone, Copy, Hash, PartialEq, PartialOrd, Eq, Ord)]
pub struct Avx512Vnni;

impl Avx512Vnni {
    /// Reads bit 11 of `ecx` from the output of `cpuid` leaf 0x07,
    /// subleaf 0x00.
    pub fn detect(record: &Cpuid<0x07, 0x00>) -> (r: Signal)
        ensures
            r == Signal::Detected(Present::of(bit_of(record.0.ecx as u64, 11))),
    {
        Signal::state(get_bit(record.0.ecx as u64, 11))
    }
}

impl Feature for Avx512Vnni {
    /// Detected on the running processor by [`Avx512Vnni::detect`].
    fn supported() -> (r: Signal)
        ensures
            r is Detected,
    {
        Self::detect(&Cpuid::<0x07, 0x00>::lazy())
    }
}

/// A marker type to indicate support for the `AVX512VP2INTERSECT` architectural extension by the processor.
#[derive(Debug, Clone, Copy, Hash, PartialEq, PartialOrd, Eq, Ord)]
pub struct Avx512Vp2Intersect;

impl Avx512Vp2Intersect {
    /// Reads bit 8 of `edx` from the output of `cpuid` leaf 0x07,
    /// subleaf 0x00.
    pub fn detect(record: &Cpuid<0x07, 0x00>) -> (r: Signal)
        ensures
            r == Signal::Detected(Present::of(bit_of(record.0.edx as u64, 8))),
    {
        Signal::state(get_bit(record.0.edx as u64, 8))
    }
}

impl Feature for Avx512Vp2Intersect {
    /// Detected on the running processor by [`Avx512Vp2Intersect::detect`].
    fn supported() -> (r: Signal)
        ensures
            r is Detected,
    {
        Self::detect(&Cpuid::<0x07, 0x00>::lazy())
    }
}

/// A marker type to indicate support for the `AVX512VPOPCNTDQ` architectural extension by the processor.
#[derive(Debug, Clone, Copy, Hash, PartialEq, PartialOrd, Eq, Ord)]
pub struct Avx512Vpopcntdq;

impl Avx512Vpopcntdq {
    /// Reads bit 14 of `ecx` from the output of `cpuid` leaf 0x07,
    /// subleaf 0x00.
    pub fn detect(record: &Cpuid<0x07, 0x00>) -> (r: Signal)
        ensures
            r == Signal::Detected(Present::of(bit_of(record.0.ecx as u64, 14))),
    {
        Signal::state(get_bit(record.0.ecx as u64, 14))
    }
}

impl Feature for Avx512Vpopcntdq {
    /// Detected on the running processor by [`Avx512Vpopcntdq::detect`].
    fn supported() -> (r: Signal)
        ensures
            r is Detected,
    {
        Self::detect(&Cpuid::<0x07, 0x00>::lazy())
    }
}

/// A marker type to indicate support for the `AVXIFMA` architectural extension by the processor.
#[derive(Debug, Clone, Copy, Hash, PartialEq, PartialOrd, Eq, Ord)]
pub struct AvxIfma;

impl AvxIfma {
    /// Reads bit 23 of `eax` from the output of `cpuid` leaf 0x07,
    /// subleaf 0x01.
    pub fn detect(record: &Cpuid<0x07, 0x01>) -> (r: Signal)
        ensures
            r == Signal::Detected(Present::of(bit_of(record.0.eax as u64, 23))),
    {
        Signal::state(get_bit(record.0.eax as u64, 23))
    }
}

impl Feature for AvxIfma {
    /// Detected on the running processor by [`AvxIfma::detect`].
    fn supported() -> (r: Signal)
        ensures
            r is Detected,
    {
        Self::detect(&Cpuid::<0x07, 0x01>::lazy())
    }
}

/// A marker type to indicate support for the `AVXNECONVERT` architectural extension by the processor.
#[derive(Debug, Clone, Copy, Hash, PartialEq, PartialOrd, Eq, Ord)]
pub struct AvxNeConvert;

impl AvxNeConvert {
    /// Reads bit 5 of `edx` from the output of `cpuid` leaf 0x07,
    /// subleaf 0x01.
    pub fn detect(record: &Cpuid<0x07, 0x01>) -> (r: Signal)
        ensures
            r == Signal::Detected(Present::of(bit_of(record.0.edx as u64, 5))),
    {
        Signal::state(get_bit(record.0.edx as u64, 5))
    }
}

impl Feature for AvxNeConvert {
    /// Detected on the running processor by [`AvxNeConvert::detect`].
    fn supported() -> (r: Signal)
        ensures
            r is Detected,
    {
        Self::detect(&Cpuid::<0x07, 0x01>::lazy())
    }
}

/// A marker type to indicate support for the `AVXVNNI` architectural extension by the processor.
#[derive(Debug, Clone, Copy, Hash, PartialEq, PartialOrd, Eq, Ord)]
pub struct AvxVnni;

impl AvxVnni {
    /// Reads bit 4 of `eax` from the output of `cpuid` leaf 0x07,
    /// subleaf 0x01.
    pub fn detect(record: &Cpuid<0x07, 0x01>) -> (r: Signal)
        ensures
            r == Signal::Detected(Present::of(bit_of(record.0.eax as u64, 4))),
    {
        Signal::state(get_bit(record.0.eax as u64, 4))
    }
}

impl Feature for AvxVnni {
    /// Detected on the running processor by [`AvxVnni::detect`].
    fn supported() -> (r: Signal)
        ensures
            r is Detected,
    {
        Self::detect(&Cpuid::<0x07, 0x01>::lazy())
    }
}

/// A marker type to indicate support for the `AVXVNNIINT16` architectural extension by the processor.
#[derive(Debug, Clone, Copy, Hash, PartialEq, PartialOrd, Eq, Ord)]
pub struct AvxVnniInt16;

impl AvxVnniInt16 {
    /// Reads bit 10 of `edx` from the output of `cpuid` leaf 0x07,
    /// subleaf 0x01.
    pub fn detect(record: &Cpuid<0x07, 0x01>) -> (r: Signal)
        ensures
            r == Signal::Detected(Present::of(bit_of(record.0.edx as u64, 10))),
    {
        Signal::state(get_bit(record.0.edx as u64, 10))
    }
}

impl Feature for AvxVnniInt16 {
    /// Detected on the running processor by [`AvxVnniInt16::detect`].
    fn supported() -> (r: Signal)
        ensures
            r is Detected,
    {
        Self::detect(&Cpuid::<0x07, 0x01>::lazy())
    }
}

/// A marker type to indicate support for the `AVXVNNIINT8` architectural extension by the processor.
#[derive(Debug, Clone, Copy, Hash, PartialEq, PartialOrd, Eq, Ord)]
pub struct AvxVnniInt8;

impl AvxVnniInt8 {
    /// Reads bit 4 of `edx` from the output of `cpuid` leaf 0x07,
    /// subleaf 0x01.
    pub fn detect(record: &Cpuid<0x07, 0x01>) -> (r: Signal)
        ensures
            r == Signal::Detected(Present::of(bit_of(record.0.edx as u64, 4))),
    {
        Signal::state(get_bit(record.0.edx as u64, 4))
    }
}

impl Feature for AvxVnniInt8 {
    /// Detected on the running processor by [`AvxVnniInt8::detect`].
    fn supported() -> (r: Signal)
        ensures
            r is Detected,
    {
        Self::detect(&Cpuid::<0x07, 0x01>::lazy())
    }
}

/// A marker type to indicate support for the `BMI1` architectural extension by the processor.
#[derive(Debug, Clone, Copy, Hash, PartialEq, PartialOrd, Eq, Ord)]
pub struct Bmi1;

impl Bmi1 {
    /// Reads bit 3 of `ebx` from the output of `cpuid` leaf 0x07,
    /// subleaf 0x00.
    pub fn detect(record: &Cpuid<0x07, 0x00>) -> (r: Signal)
        ensures
            r == Signal::Detected(Present::of(bit_of(record.0.ebx as u64, 3))),
    {
        Signal::state(get_bit(record.0.ebx as u64, 3))
    }
}

impl Feature for Bmi1 {
    /// Detected on the running processor by [`Bmi1::detect`].
    fn supported() -> (r: Signal)
        ensures
            r is Detected,
    {
        Self::detect(&Cpuid::<0x07, 0x00>::lazy())
    }
}

/// A marker type to indicate support for the `BMI2` architectural extension by the processor.
#[derive(Debug, Clone, Copy, Hash, PartialEq, PartialOrd, Eq, Ord)]
pub struct Bmi2;

impl Bmi2 {
    /// Reads bit 8 of `ebx` from the output of `cpuid` leaf 0x07,
    /// subleaf 0x00.
    pub fn detect(record: &Cpuid<0x07, 0x00>) -> (r: Signal)
        ensures
            r == Signal::Detected(Present::of(bit_of(record.0.ebx as u64, 8))),
    {
        Signal::state(get_bit(record.0.ebx as u64, 8))
    }
}

impl Feature for Bmi2 {
    /// Detected on the running processor by [`Bmi2::detect`].
    fn supported() -> (r: Signal)
        ensures
            r is Detected,
    {
        Self::detect(&Cpuid::<0x07, 0x00>::lazy())
    }
}

/// A marker type to indicate support for the `F16C` architectural extension by the processor.
#[derive(Debug, Clone, Copy, Hash, PartialEq, PartialOrd, Eq, Ord)]
pub struct F16c;

impl F16c {
    /// Reads bit 29 of `ecx` from the output of `cpuid` leaf 0x01,
    /// subleaf 0x00.
    pub fn detect(record: &Cpuid<0x01, 0x00>) -> (r: Signal)
        ensures
            r == Signal::Detected(Present::of(bit_of(record.0.ecx as u64, 29))),
    {
        Signal::state(get_bit(record.0.ecx as u64, 29))
    }
}

impl Feature for F16c {
    /// Detected on the running processor by [`F16c::detect`].
    fn supported() -> (r: Signal)
        ensures
            r is Detected,
    {
        Self::detect(&Cpuid::<0x01, 0x00>::lazy())
    }
}

/// A marker type to indicate support for the `FMA` architectural extension by the processor.
#[derive(Debug, Clone, Copy, Hash, PartialEq, PartialOrd, Eq, Ord)]
pub struct Fma;

impl Fma {
    /// Reads bit 12 of `ecx` from the output of `cpuid` leaf 0x01,
    /// subleaf 0x00.
    pub fn detect(record: &Cpuid<0x01, 0x00>) -> (r: Signal)
        ensures
            r == Signal::Detected(Present::of(bit_of(record.0.ecx as u64, 12))),
    {
        Signal::state(get_bit(record.0.ecx as u64, 12))
    }
}

impl Feature for Fma {
    /// Detected on the running processor by [`Fma::detect`].
    fn supported() -> (r: Signal)
        ensures
            r is Detected,
    {
        Self::detect(&Cpuid::<0x01, 0x00>::lazy())
    }
}

/// A marker type to indicate support for the `FXSR` architectural extension by the processor.
#[derive(Debug, Clone, Copy, Hash, PartialEq, PartialOrd, Eq, Ord)]
pub struct Fxsr;

impl Fxsr {
    /// Reads bit 24 of `edx` from the output of `cpuid` leaf 0x01,
    /// subleaf 0x00.
    pub fn detect(record: &Cpuid<0x01, 0x00>) -> (r: Signal)
        ensures
            r == Signal::Detected(Present::of(bit_of(record.0.edx as u64, 24))),
    {
        Signal::state(get_bit(record.0.edx as u64, 24))
    }
}

impl Feature for Fxsr {
    /// Detected on the running processor by [`Fxsr::detect`].
    fn supported() -> (r: Signal)
        ensures
            r is Detected,
    {
        Self::detect(&Cpuid::<0x01, 0x00>::lazy())
    }
}

/// A marker type to indicate support for the `GFNI` architectural extension by the processor.
#[derive(Debug, Clone, Copy, Hash, PartialEq, PartialOrd, Eq, Ord)]
pub struct Gfni;

impl Gfni {
    /// Reads bit 8 of `ecx` from the output of `cpuid` leaf 0x07,
    /// subleaf 0x00.
    pub fn detect(record: &Cpuid<0x07, 0x00>) -> (r: Signal)
        ensures
            r == Signal::Detected(Present::of(bit_of(record.0.ecx as u64, 8))),
    {
        Signal::state(get_bit(record.0.ecx as u64, 8))
    }
}

impl Feature for Gfni {
    /// Detected on the running processor by [`Gfni::detect`].
    fn supported() -> (r: Signal)
        ensures
            r is Detected,
    {
        Self::detect(&Cpuid::<0x07, 0x00>::lazy())
    }
}

/// A marker type to indicate support for the `KL` architectural extension by the processor.
#[derive(Debug, Clone, Copy, Hash, PartialEq, PartialOrd, Eq, Ord)]
pub struct Kl;

impl Kl {
    /// Reads bit 23 of `ecx` from the output of `cpuid` leaf 0x07,
    /// subleaf 0x00.
    pub fn detect(record: &Cpuid<0x07, 0x00>) -> (r: Signal)
        ensures
            r == Signal::Detected(Present::of(bit_of(record.0.ecx as u64, 23))),
    {
        Signal::state(get_bit(record.0.ecx as u64, 23))
    }
}

impl Feature for Kl {
    /// Detected on the running processor by [`Kl::detect`].
    fn supported() -> (r: Signal)
        ensures
            r is Detected,
    {
        Self::detect(&Cpuid::<0x07, 0x00>::lazy())
    }
}

/// A marker type to indicate support for the `LZCNT` instruction by the processor.
#[derive(Debug, Clone, Copy, Hash, PartialEq, PartialOrd, Eq, Ord)]
pub struct Lzcnt;

impl Lzcnt {
    /// Reads bit 5 of `ecx` from the output of `cpuid` leaf 0x80000001,
    /// subleaf 0x00.
    pub fn detect(record: &Cpuid<0x80000001, 0x00>) -> (r: Signal)
        ensures
            r == Signal::Detected(Present::of(bit_of(record.0.ecx as u64, 5))),
    {
        Signal::state(get_bit(record.0.ecx as u64, 5))
    }
}

impl Feature for Lzcnt {
    /// Detected on the running processor by [`Lzcnt::detect`].
    fn supported() -> (r: Signal)
        ensures
            r is Detected,
    {
        Self::detect(&Cpuid::<0x80000001, 0x00>::lazy())
    }
}

/// A marker type to indicate support for the `MOVBE` instruction by the processor.
#[derive(Debug, Clone, Copy, Hash, PartialEq, PartialOrd, Eq, Ord)]
pub struct Movbe;

impl Movbe {
    /// Reads bit 22 of `ecx` from the output of `cpuid` leaf 0x01,
    /// subleaf 0x00.
    pub fn detect(record: &Cpuid<0x01, 0x00>) -> (r: Signal)
        ensures
            r == Signal::Detected(Present::of(bit_of(record.0.ecx as u64, 22))),
    {
        Signal::state(get_bit(record.0.ecx as u64, 22))
    }
}

impl Feature for Movbe {
    /// Detected on the running processor by [`Movbe::detect`].
    fn supported() -> (r: Signal)
        ensures
            r is Detected,
    {
        Self::detect(&Cpuid::<0x01, 0x00>::lazy())
    }
}

/// A marker type to indicate support for the `PCLMULQDQ` instruction by the processor.
#[derive(Debug, Clone, Copy, Hash, PartialEq, PartialOrd, Eq, Ord)]
pub struct Pclmulqdq;

impl Pclmulqdq {
    /// Reads bit 1 of `ecx` from the output of `cpuid` leaf 0x01,
    /// subleaf 0x00.
    pub fn detect(record: &Cpuid<0x01, 0x00>) -> (r: Signal)
        ensures
            r == Signal::Detected(Present::of(bit_of(record.0.ecx as u64, 1))),
    {
        Signal::state(get_bit(record.0.ecx as u64, 1))
    }
}

impl Feature for Pclmulqdq {
    /// Detected on the running processor by [`Pclmulqdq::detect`].
    fn supported() -> (r: Signal)
        ensures
            r is Detected,
    {
        Self::detect(&Cpuid::<0x01, 0x00>::lazy())
    }
}

/// A marker type to indicate support for the `POPCNT` instruction by the processor.
#[derive(Debug, Clone, Copy, Hash, PartialEq, PartialOrd, Eq, Ord)]
pub struct Popcnt;

impl Popcnt {
    /// Reads bit 23 of `ecx` from the output of `cpuid` leaf 0x01,
    /// subleaf 0x00.
    pub fn detect(record: &Cpuid<0x01, 0x00>) -> (r: Signal)
        ensures
            r == Signal::Detected(Present::of(bit_of(record.0.ecx as u64, 23))),
    {
        Signal::state(get_bit(record.0.ecx as u64, 23))
    }
}

impl Feature for Popcnt {
    /// Detected on the running processor by [`Popcnt::detect`].
    fn supported() -> (r: Signal)
        ensures
            r is Detected,
    {
        Self::detect(&Cpuid::<0x01, 0x00>::lazy())
    }
}

/// A marker type to indicate support for the `RDRAND` instruction by the processor.
#[derive(Debug, Clone, Copy, Hash, PartialEq, PartialOrd, Eq, Ord)]
pub struct Rdrand;

impl Rdrand {
    /// Reads bit 30 of `ecx` from the output of `cpuid` leaf 0x01,
    /// subleaf 0x00.
    pub fn detect(record: &Cpuid<0x01, 0x00>) -> (r: Signal)
        ensures
            r == Signal::Detected(Present::of(bit_of(record.0.ecx as u64, 30))),
    {
        Signal::state(get_bit(record.0.ecx as u64, 30))
    }
}

impl Feature for Rdrand {
    /// Detected on the running processor by [`Rdrand::detect`].
    fn supported() -> (r: Signal)
        ensures
            r is Detected,
    {
        Self::detect(&Cpuid::<0x01, 0x00>::lazy())
    }
}

/// A marker type to indicate support for the `RDSEED` instruction by the processor.
#[derive(Debug, Clone, Copy, Hash, PartialEq, PartialOrd, Eq, Ord)]
pub struct Rdseed;

impl Rdseed {
    /// Reads bit 18 of `ebx` from the output of `cpuid` leaf 0x07,
    /// subleaf 0x00.
    pub fn detect(record: &Cpuid<0x07, 0x00>) -> (r: Signal)
        ensures
            r == Signal::Detected(Present::of(bit_of(record.0.ebx as u64, 18))),
    {
        Signal::state(get_bit(record.0.ebx as u64, 18))
    }
}

impl Feature for Rdseed {
    /// Detected on the running processor by [`Rdseed::detect`].
    fn supported() -> (r: Signal)
        ensures
            r is Detected,
    {
        Self::detect(&Cpuid::<0x07, 0x00>::lazy())
    }
}

/// A marker type to indicate support for the `SHA` architectural extension by the processor.
#[derive(Debug, Clone, Copy, Hash, PartialEq, PartialOrd, Eq, Ord)]
pub struct Sha;

impl Sha {
    /// Reads bit 29 of `ebx` from the output of `cpuid` leaf 0x07,
    /// subleaf 0x00.
    pub fn detect(record: &Cpuid<0x07, 0x00>) -> (r: Signal)
        ensures
            r == Signal::Detected(Present::of(bit_of(record.0.ebx as u64, 29))),
    {
        Signal::state(get_bit(record.0.ebx as u64, 29))
    }
}

impl Feature for Sha {
    /// Detected on the running processor by [`Sha::detect`].
    fn supported() -> (r: Signal)
        ensures
            r is Detected,
    {
        Self::detect(&Cpuid::<0x07, 0x00>::lazy())
    }
}

/// A marker type to indicate support for the `SHA512` architectural extension by the processor.
#[derive(Debug, Clone, Copy, Hash, PartialEq, PartialOrd, Eq, Ord)]
pub struct Sha512;

impl Sha512 {
    /// Reads bit 0 of `eax` from the output of `cpuid` leaf 0x07,
    /// subleaf 0x01.
    pub fn detect(record: &Cpuid<0x07, 0x01>) -> (r: Signal)
        ensures
            r == Signal::Detected(Present::of(bit_of(record.0.eax as u64, 0))),
    {
        Signal::state(get_bit(record.0.eax as u64, 0))
    }
}

impl Feature for Sha512 {
    /// Detected on the running processor by [`Sha512::detect`].
    fn supported() -> (r: Signal)
        ensures
            r is Detected,
    {
        Self::detect(&Cpuid::<0x07, 0x01>::lazy())
    }
}

/// A marker type to indicate support for the `SM3` architectural extension by the processor.
#[derive(Debug, Clone, Copy, Hash, PartialEq, PartialOrd, Eq, Ord)]
pub struct Sm3;

impl Sm3 {
    /// Reads bit 1 of `eax` from the output of `cpuid` leaf 0x07,
    /// subleaf 0x01.
    pub fn detect(record: &Cpuid<0x07, 0x01>) -> (r: Signal)
        ensures
            r == Signal::Detected(Present::of(bit_of(record.0.eax as u64, 1))),
    {
        Signal::state(get_bit(record.0.eax as u64, 1))
    }
}

impl Feature for Sm3 {
    /// Detected on the running processor by [`Sm3::detect`].
    fn supported() -> (r: Signal)
        ensures
            r is Detected,
    {
        Self::detect(&Cpuid::<0x07, 0x01>::lazy())
    }
}

/// A marker type to indicate support for the `SM4` architectural extension by the processor.
#[derive(Debug, Clone, Copy, Hash, PartialEq, PartialOrd, Eq, Ord)]
pub struct Sm4;

impl Sm4 {
    /// Reads bit 2 of `eax` from the output of `cpuid` leaf 0x07,
    /// subleaf 0x01.
    pub fn detect(record: &Cpuid<0x07, 0x01>) -> (r: Signal)
        ensures
            r == Signal::Detected(Present::of(bit_of(record.0.eax as u64, 2))),
    {
        Signal::state(get_bit(record.0.eax as u64, 2))
    }
}

impl Feature for Sm4 {
    /// Detected on the running processor by [`Sm4::detect`].
    fn supported() -> (r: Signal)
        ensures
            r is Detected,
    {
        Self::detect(&Cpuid::<0x07, 0x01>::lazy())
    }
}

/// A marker type to indicate support for the `SSE` architectural extension by the processor.
#[derive(Debug, Clone, Copy, Hash, PartialEq, PartialOrd, Eq, Ord)]
pub struct Sse;

impl Sse {
    /// Reads bit 25 of `edx` from the output of `cpuid` leaf 0x01,
    /// subleaf 0x00.
    pub fn detect(record: &Cpuid<0x01, 0x00>) -> (r: Signal)
        ensures
            r == Signal::Detected(Present::of(bit_of(record.0.edx as u64, 25))),
    {
        Signal::state(get_bit(record.0.edx as u64, 25))
    }
}

impl Feature for Sse {
    /// Detected on the running processor by [`Sse::detect`].
    fn supported() -> (r: Signal)
        ensures
            r is Detected,
    {
        Self::detect(&Cpuid::<0x01, 0x00>::lazy())
    }
}

/// A marker type to indicate support for the `SSE2` architectural extension by the processor.
#[derive(Debug, Clone, Copy, Hash, PartialEq, PartialOrd, Eq, Ord)]
pub struct Sse2;

impl Sse2 {
    /// Reads bit 26 of `edx` from the output of `cpuid` leaf 0x01,
    /// subleaf 0x00.
    pub fn detect(record: &Cpuid<0x01, 0x00>) -> (r: Signal)
        ensures
            r == Signal::Detected(Present::of(bit_of(record.0.edx as u64, 26))),
    {
        Signal::state(get_bit(record.0.edx as u64, 26))
    }
}

impl Feature for Sse2 {
    /// Detected on the running processor by [`Sse2::detect`].
    fn supported() -> (r: Signal)
        ensures
            r is Detected,
    {
        Self::detect(&Cpuid::<0x01, 0x00>::lazy())
    }
}

/// A marker type to indicate support for the `SSE3` architectural extension by the processor.
#[derive(Debug, Clone, Copy, Hash, PartialEq, PartialOrd, Eq, Ord)]
pub struct Sse3;

impl Sse3 {
    /// Reads bit 0 of `ecx` from the output of `cpuid` leaf 0x01,
    /// subleaf 0x00.
    pub fn detect(record: &Cpuid<0x01, 0x00>) -> (r: Signal)
        ensures
            r == Signal::Detected(Present::of(bit_of(record.0.ecx as u64, 0))),
    {
        Signal::state(get_bit(record.0.ecx as u64, 0))
    }
}

impl Feature for Sse3 {
    /// Detected on the running processor by [`Sse3::detect`].
    fn supported() -> (r: Signal)
        ensures
            r is Detected,
    {
        Self::detect(&Cpuid::<0x01, 0x00>::lazy())
    }
}

/// A marker type to indicate support for the `SSE4.1` architectural extension by the processor.
#[derive(Debug, Clone, Copy, Hash, PartialEq, PartialOrd, Eq, Ord)]
pub struct Sse41;

impl Sse41 {
    /// Reads bit 19 of `ecx` from the output of `cpuid` leaf 0x01,
    /// subleaf 0x00.
    pub fn detect(record: &Cpuid<0x01, 0x00>) -> (r: Signal)
        ensures
            r == Signal::Detected(Present::of(bit_of(record.0.ecx as u64, 19))),
    {
        Signal::state(get_bit(record.0.ecx as u64, 19))
    }
}

impl Feature for Sse41 {
    /// Detected on the running processor by [`Sse41::detect`].
    fn supported() -> (r: Signal)
        ensures
            r is Detected,
    {
        Self::detect(&Cpuid::<0x01, 0x00>::lazy())
    }
}

/// A marker type to indicate support for the `SSE4.2` architectural extension by the processor.
#[derive(Debug, Clone, Copy, Hash, PartialEq, PartialOrd, Eq, Ord)]
pub struct Sse42;

impl Sse42 {
    /// Reads bit 20 of `ecx` from the output of `cpuid` leaf 0x01,
    /// subleaf 0x00.
    pub fn detect(record: &Cpuid<0x01, 0x00>) -> (r: Signal)
        ensures
            r == Signal::Detected(Present::of(bit_of(record.0.ecx as u64, 20))),
    {
        Signal::state(get_bit(record.0.ecx as u64, 20))
    }
}

impl Feature for Sse42 {
    /// Detected on the running processor by [`Sse42::detect`].
    fn supported() -> (r: Signal)
        ensures
            r is Detected,
    {
        Self::detect(&Cpuid::<0x01, 0x00>::lazy())
    }
}

/// A marker type to indicate support for the `SSE4A` architectural extension by the processor.
#[derive(Debug, Clone, Copy, Hash, PartialEq, PartialOrd, Eq, Ord)]
pub struct Sse4a;

impl Sse4a {
    /// Reads bit 6 of `ecx` from the output of `cpuid` leaf 0x80000001,
    /// subleaf 0x00.
    pub fn detect(record: &Cpuid<0x80000001, 0x00>) -> (r: Signal)
        ensures
            r == Signal::Detected(Present::of(bit_of(record.0.ecx as u64, 6))),
    {
        Signal::state(get_bit(record.0.ecx as u64, 6))
    }
}

impl Feature for Sse4a {
    /// Detected on the running processor by [`Sse4a::detect`].
    fn supported() -> (r: Signal)
        ensures
            r is Detected,
    {
        Self::detect(&Cpuid::<0x80000001, 0x00>::lazy())
    }
}

/// A marker type to indicate support for the `SSSE3` architectural extension by the processor.
#[derive(Debug, Clone, Copy, Hash, PartialEq, PartialOrd, Eq, Ord)]
pub struct Ssse3;

impl Ssse3 {
    /// Reads bit 9 of `ecx` from the output of `cpuid` leaf 0x01,
    /// subleaf 0x00.
    pub fn detect(record: &Cpuid<0x01, 0x00>) -> (r: Signal)
        ensures
            r == Signal::Detected(Present::of(bit_of(record.0.ecx as u64, 9))),
    {
        Signal::state(get_bit(record.0.ecx as u64, 9))
    }
}

impl Feature for Ssse3 {
    /// Detected on the running processor by [`Ssse3::detect`].
    fn supported() -> (r: Signal)
        ensures
            r is Detected,
    {
        Self::detect(&Cpuid::<0x01, 0x00>::lazy())
    }
}

/// A marker type to indicate support for the `TBM` architectural extension by the processor.
#[derive(Debug, Clone, Copy, Hash, PartialEq, PartialOrd, Eq, Ord)]
pub struct Tbm;

impl Tbm {
    /// Reads bit 21 of `ecx` from the output of `cpuid` leaf 0x80000001,
    /// subleaf 0x00.
    pub fn detect(record: &Cpuid<0x80000001, 0x00>) -> (r: Signal)
        ensures
            r == Signal::Detected(Present::of(bit_of(record.0.ecx as u64, 21))),
    {
        Signal::state(get_bit(record.0.ecx as u64, 21))
    }
}

impl Feature for Tbm {
    /// Detected on the running processor by [`Tbm::detect`].
    fn supported() -> (r: Signal)
        ensures
            r is Detected,
    {
        Self::detect(&Cpuid::<0x80000001, 0x00>::lazy())
    }
}

/// A marker type to indicate support for the `VAES` architectural extension by the processor.
#[derive(Debug, Clone, Copy, Hash, PartialEq, PartialOrd, Eq, Ord)]
pub struct Vaes;

impl Vaes {
    /// Reads bit 9 of `ecx` from the output of `cpuid` leaf 0x07,
    /// subleaf 0x00.
    pub fn detect(record: &Cpuid<0x07, 0x00>) -> (r: Signal)
        ensures
            r == Signal::Detected(Present::of(bit_of(record.0.ecx as u64, 9))),
    {
        Signal::state(get_bit(record.0.ecx as u64, 9))
    }
}

impl Feature for Vaes {
    /// Detected on the running processor by [`Vaes::detect`].
    fn supported() -> (r: Signal)
        ensures
            r is Detected,
    {
        Self::detect(&Cpuid::<0x07, 0x00>::lazy())
    }
}

/// A marker type to indicate support for the `VPCLMULQDQ` architectural extension by the processor.
#[derive(Debug, Clone, Copy, Hash, PartialEq, PartialOrd, Eq, Ord)]
pub struct Vpclmulqdq;

impl Vpclmulqdq {
    /// Reads bit 10 of `ecx` from the output of `cpuid` leaf 0x07,
    /// subleaf 0x00.
    pub fn detect(record: &Cpuid<0x07, 0x00>) -> (r: Signal)
        ensures
            r == Signal::Detected(Present::of(bit_of(record.0.ecx as u64, 10))),
    {
        Signal::state(get_bit(record.0.ecx as u64, 10))
    }
}

impl Feature for Vpclmulqdq {
    /// Detected on the running processor by [`Vpclmulqdq::detect`].
    fn supported() -> (r: Signal)
        ensures
            r is Detected,
    {
        Self::detect(&Cpuid::<0x07, 0x00>::lazy())
    }
}

/// A marker type to indicate support for the `WIDEKL` architectural extension by the processor.
#[derive(Debug, Clone, Copy, Hash, PartialEq, PartialOrd, Eq, Ord)]
pub struct Widekl;

impl Widekl {
    /// Reads bit 25 of `ecx` from the output of `cpuid` leaf 0x07,
    /// subleaf 0x00.
    pub fn detect(record: &Cpuid<0x07, 0x00>) -> (r: Signal)
        ensures
            r == Signal::Detected(Present::of(bit_of(record.0.ecx as u64, 25))),
    {
        Signal::state(get_bit(record.0.ecx as u64, 25))
    }
}

impl Feature for Widekl {
    /// Detected on the running processor by [`Widekl::detect`].
    fn supported() -> (r: Signal)
        ensures
            r is Detected,
    {
        Self::detect(&Cpuid::<0x07, 0x00>::lazy())
    }
}

} // verus!
