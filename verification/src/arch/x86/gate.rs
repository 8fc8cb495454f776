//! Interrupt gate types.
//!
//! An interrupt gate runs its service routine with interrupts masked, a trap
//! gate leaves them enabled, and a task gate switches to the task-state
//! segment its selector names. Nekor runs in long mode only, so 16-bit and
//! 32-bit gates are modeled for completeness.

use vstd::prelude::*;

verus! {

/// An interrupt gate intended for 16-bit code, protected mode only.
///
/// Its service routine runs with a sixteen-bit instruction pointer and a
/// sixteen-bit stack frame.
#[derive(Debug, Clone, Copy, PartialEq, Eq, PartialOrd, Ord)]
#[non_exhaustive]
pub enum GateType16 {
    /// A 16-bit interrupt gate.
    Interrupt,
    /// A 16-bit trap gate.
    Trap,
}

impl GateType16 {
    /// The four-bit gate type code.
    pub open spec fn value(self) -> u8 {
        match self {
            GateType16::Interrupt => 0x06,
            GateType16::Trap => 0x07,
        }
    }

    /// Returns the four-bit gate type code.
    pub fn raw(self) -> (r: u8)
        ensures
            r == self.value(),
    {
        match self {
            GateType16::Interrupt => 0x06,
            GateType16::Trap => 0x07,
        }
    }
}

/// An interrupt gate intended for 32-bit protected-mode code.
#[derive(Debug, Clone, Copy, PartialEq, Eq, PartialOrd, Ord)]
#[non_exhaustive]
pub enum GateType32 {
    /// A 32-bit interrupt gate.
    Interrupt,
    /// A 32-bit trap gate.
    Trap,
}

impl GateType32 {
    /// The four-bit gate type code.
    pub open spec fn value(self) -> u8 {
        match self {
            GateType32::Interrupt => 0x0E,
            GateType32::Trap => 0x0F,
        }
    }

    /// Returns the four-bit gate type code.
    pub fn raw(self) -> (r: u8)
        ensures
            r == self.value(),
    {
        match self {
            GateType32::Interrupt => 0x0E,
            GateType32::Trap => 0x0F,
        }
    }
}

/// The type of a protected-mode gate descriptor.
#[derive(Debug, Clone, Copy, PartialEq, Eq, PartialOrd, Ord)]
#[non_exhaustive]
pub enum GateType {
    /// A task gate for hardware multitasking (type `0x5`); protected mode
    /// only, and unused by Nekor.
    Task,
    /// A 16-bit interrupt or trap gate.
    Bits16(GateType16),
    /// A 32-bit interrupt or trap gate.
    Bits32(GateType32),
}

impl GateType {
    /// The four-bit gate type code.
    pub open spec fn value(self) -> u8 {
        match self {
            GateType::Task => 0x05,
            GateType::Bits16(g) => g.value(),
            GateType::Bits32(g) => g.value(),
        }
    }

    /// Returns the four-bit gate type code.
    pub fn raw(self) -> (r: u8)
        ensures
            r == self.value(),
    {
        match self {
            GateType::Task => 0x05,
            GateType::Bits16(g) => g.raw(),
            GateType::Bits32(g) => g.raw(),
        }
    }

    /// Identifies a gate type code; every other code is not a gate.
    pub fn lift(code: u8) -> (r: Option<Self>)
        ensures
            r is Some <==> (code == 0x05 || code == 0x06 || code == 0x07 || code == 0x0E || code
                == 0x0F),
            r matches Some(g) ==> g.value() == code,
    {
        match code {
            0x05 => Some(GateType::Task),
            0x06 => Some(GateType::Bits16(GateType16::Interrupt)),
            0x07 => Some(GateType::Bits16(GateType16::Trap)),
            0x0E => Some(GateType::Bits32(GateType32::Interrupt)),
            0x0F => Some(GateType::Bits32(GateType32::Trap)),
            _ => None,
        }
    }
}

} // verus!
