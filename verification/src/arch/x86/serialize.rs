//! Serialization of the instruction stream.
//!
//! A serializing instruction completes every earlier instruction before any
//! later one starts; code patching depends on it. The `serialize` instruction
//! and a self-directed interrupt return are issued by the platform layer;
//! `cpuid`, available on every processor from the i686 on, is issued here.

use vstd::prelude::*;

use crate::arch::x86::cpuid::cpuid_count;

verus! {

/// Serialization through a self-directed interrupt return, available at any
/// privilege level.
#[derive(Debug, Clone, Copy, PartialEq, PartialOrd, Ord, Eq, Hash)]
pub struct IRet;

/// Serialization through the `cpuid` instruction.
#[derive(Debug, Clone, Copy, PartialEq, PartialOrd, Ord, Eq, Hash)]
pub struct CpuId;

/// Serialization through the `serialize` instruction, where the processor
/// has it.
#[derive(Debug, Clone, Copy, PartialEq, PartialOrd, Ord, Eq, Hash)]
pub struct Serialize;

impl CpuId {
    /// Executes `cpuid` leaf zero, a serializing instruction, and discards
    /// its output.
    pub fn ubiquitous() {
        let _ = cpuid_count(0, 0);
    }
}

} // verus!
