//! Stable-point critical sections.
//!
//! A stable point is a place in kernel code where a core holds no lock and
//! has no half-done work, so it can be stopped without hazard. While no
//! stable-point section is active, reaching a stable point does nothing; while
//! one is active, the stable-point entry is patched to trap, and the core is
//! suspended there until the machine is released. Runtime code patching uses
//! this.

use vstd::prelude::*;

verus! {

/// A stable point.
#[derive(Debug)]
pub struct Stablepoint;

impl Stablepoint {
    /// An opportunity for machine-wide stable-point synchronization: nothing
    /// happens here unless the entry has been patched to trap. Called only
    /// where no lock is held and no operation is half done.
    pub fn opportunity() {
    }
}

} // verus!
