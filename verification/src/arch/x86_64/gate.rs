//! Interrupt gates of the 64-bit mode.

use vstd::prelude::*;

use crate::arch::x86::gate::GateType32;

verus! {

/// The type of a long-mode interrupt gate. Long mode accepts only these two
/// kinds; their codes are those of the 32-bit interrupt and trap gates.
#[derive(Debug, Clone, Copy, PartialEq, Eq, PartialOrd, Ord)]
#[non_exhaustive]
pub enum GateType64 {
    /// A 64-bit interrupt gate: interrupts are disabled on entry.
    Interrupt,
    /// A 64-bit trap gate: the interrupt flag is left unchanged on entry.
    Trap,
}

impl GateType64 {
    /// The 32-bit gate whose code this gate shares.
    pub open spec fn inherited(self) -> GateType32 {
        match self {
            GateType64::Interrupt => GateType32::Interrupt,
            GateType64::Trap => GateType32::Trap,
        }
    }

    /// The four-bit gate type code.
    pub open spec fn value(self) -> u8 {
        self.inherited().value()
    }

    /// Returns the four-bit gate type code.
    pub fn raw(self) -> (r: u8)
        ensures
            r == self.value(),
            r == (match self {
                GateType64::Interrupt => 0x0Eu8,
                GateType64::Trap => 0x0Fu8,
            }),
    {
        match self {
            GateType64::Interrupt => GateType32::Interrupt.raw(),
            GateType64::Trap => GateType32::Trap.raw(),
        }
    }
}

} // verus!
