//! x86 Flexible Return and Event Delivery capability facts.

use vstd::prelude::*;

verus! {

/// Evidence that the current processor exposes FRED transitions and their
/// architectural MSRs.
#[derive(Debug, Clone, Copy, PartialEq, Eq, PartialOrd, Ord, Hash)]
pub struct Fred(());

impl Fred {
    /// Creates the FRED capability evidence.
    ///
    /// The caller states that the current processor reports the FRED
    /// architectural feature.
    pub fn attest() -> (r: Self) {
        Self(())
    }
}

/// A FRED supervisor stack level.
#[derive(Debug, Clone, Copy, PartialEq, Eq, PartialOrd, Ord, Hash)]
pub enum Level {
    /// Ordinary supervisor event stack level.
    Zero,
    /// First machine-safety stack level.
    One,
    /// Second machine-safety stack level.
    Two,
    /// Third machine-safety stack level.
    Three,
}

impl Level {
    /// The architectural number of this level.
    pub open spec fn value(self) -> u8 {
        match self {
            Level::Zero => 0,
            Level::One => 1,
            Level::Two => 2,
            Level::Three => 3,
        }
    }

    /// Lifts a bare stack-level number into a declared level.
    pub fn lift(target_value: u8) -> (r: Option<Self>)
        ensures
            r is Some <==> target_value <= 3,
            r matches Some(l) ==> l.value() == target_value,
    {
        match target_value {
            0 => Some(Level::Zero),
            1 => Some(Level::One),
            2 => Some(Level::Two),
            3 => Some(Level::Three),
            _ => None,
        }
    }

    /// Returns the bare stack-level number.
    pub fn raw(self) -> (r: u8)
        ensures
            r == self.value(),
            r <= 3,
    {
        match self {
            Level::Zero => 0,
            Level::One => 1,
            Level::Two => 2,
            Level::Three => 3,
        }
    }
}

/// A stack level is determined by its number: `lift` of `raw` gives the level
/// back.
pub proof fn lemma_level_number_identifies(level: Level)
    ensures
        level.value() <= 3,
        forall|other: Level| other.value() == level.value() ==> other == level,
{
}

} // verus!
