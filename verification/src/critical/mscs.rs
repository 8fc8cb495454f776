//! Machine-stop critical sections.
//!
//! The initiating core sends an inter-processor interrupt to every other core;
//! each halts at once and spins until released. It is faster than a
//! stable-point section but more intrusive, and serves microcode updates and
//! other changes for which the whole machine must stop now.

use vstd::prelude::*;

verus! {

/// A machine-stop critical section.
#[derive(Debug)]
pub struct MsCs;

} // verus!
