//! Local critical sections: interrupts disabled on the current core.
//!
//! They cost very little and serve processor initialization and code that
//! must not be preempted. They do not hold off non-maskable interrupts.

use vstd::prelude::*;

verus! {

/// The local critical section of the current core. Entering it disables
/// maskable interrupts (`cli`), leaving it enables them again (`sti`); the
/// platform layer issues both.
#[derive(Debug)]
pub struct Lcs;

/// The proof that the caller is inside the local critical section. Owning it
/// allows ending the section; borrowing it only proves the section is held.
#[derive(Debug)]
pub struct LcsToken(core::marker::PhantomData<Lcs>);

impl LcsToken {
    /// A token for a local critical section that the caller holds.
    pub fn raw() -> (r: Self) {
        LcsToken(core::marker::PhantomData)
    }
}

} // verus!
