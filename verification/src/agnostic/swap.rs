//! A two-slot swap chain for replacing critical system structures.
//!
//! One slot is active and always holds a value; the other is prepared in the
//! background and becomes active in one step with [`Swap::now`]. This suits
//! structures such as interrupt and descriptor tables, which must never be
//! observed half-written.

use vstd::prelude::*;

verus! {

/// The value held by the active slot of a swap-chain state.
pub open spec fn active_of<S>(state: (Option<S>, Option<S>, bool)) -> S {
    if state.2 {
        state.1.unwrap()
    } else {
        state.0.unwrap()
    }
}

/// The contents of the inactive slot of a swap-chain state.
pub open spec fn inactive_of<S>(state: (Option<S>, Option<S>, bool)) -> Option<S> {
    if state.2 {
        state.0
    } else {
        state.1
    }
}

/// A state whose active slot holds a value.
pub open spec fn active_present<S>(state: (Option<S>, Option<S>, bool)) -> bool {
    if state.2 {
        state.1 is Some
    } else {
        state.0 is Some
    }
}

/// A state with the active slot replaced.
pub open spec fn with_active<S>(state: (Option<S>, Option<S>, bool), value: S) -> (
    Option<S>,
    Option<S>,
    bool,
) {
    if state.2 {
        (state.0, Some(value), true)
    } else {
        (Some(value), state.1, false)
    }
}

/// A state with the inactive slot replaced.
pub open spec fn with_inactive<S>(state: (Option<S>, Option<S>, bool), slot: Option<S>) -> (
    Option<S>,
    Option<S>,
    bool,
) {
    if state.2 {
        (slot, state.1, true)
    } else {
        (state.0, slot, false)
    }
}

/// A two-slot swap chain: a left and a right slot, and which one is active.
#[derive(Debug)]
pub struct Swap<S> {
    left: Option<S>,
    right: Option<S>,
    right_active: bool,
}

impl<S> View for Swap<S> {
    type V = (Option<S>, Option<S>, bool);

    /// The left slot, the right slot, and whether the right one is active.
    closed spec fn view(&self) -> (Option<S>, Option<S>, bool) {
        (self.left, self.right, self.right_active)
    }
}

impl<S> Swap<S> {
    /// Whether the active slot holds a value.
    pub open spec fn wf(&self) -> bool {
        active_present(self@)
    }

    /// Starts a chain whose left slot is active and holds `target_value`.
    pub fn chain(target_value: S) -> (r: Self)
        ensures
            r@ == (Some(target_value), None::<S>, false),
            r.wf(),
    {
        Swap { left: Some(target_value), right: None, right_active: false }
    }

    /// The active value.
    pub fn active(&self) -> (r: &S)
        requires
            self.wf(),
        ensures
            *r == active_of(self@),
    {
        if self.right_active {
            self.right.as_ref().unwrap()
        } else {
            self.left.as_ref().unwrap()
        }
    }

    /// The active value, for writing; the inactive slot stays.
    pub fn active_mut(&mut self) -> (r: &mut S)
        requires
            old(self).wf(),
        ensures
            *r == active_of(old(self)@),
            final(self)@ == with_active(old(self)@, *final(r)),
    {
        if self.right_active {
            self.right.as_mut().unwrap()
        } else {
            self.left.as_mut().unwrap()
        }
    }

    /// The inactive slot.
    pub fn inactive(&self) -> (r: &Option<S>)
        ensures
            *r == inactive_of(self@),
    {
        if self.right_active {
            &self.left
        } else {
            &self.right
        }
    }

    /// The inactive slot, for preparing the next value; the active slot stays.
    pub fn inactive_mut(&mut self) -> (r: &mut Option<S>)
        ensures
            *r == inactive_of(old(self)@),
            final(self)@ == with_inactive(old(self)@, *final(r)),
    {
        if self.right_active {
            &mut self.left
        } else {
            &mut self.right
        }
    }

    /// The left slot.
    pub fn left(&self) -> (r: &Option<S>)
        ensures
            *r == self@.0,
    {
        &self.left
    }

    /// The right slot.
    pub fn right(&self) -> (r: &Option<S>)
        ensures
            *r == self@.1,
    {
        &self.right
    }

    /// The left slot, for writing; emptying it while it is active leaves a
    /// chain that is no longer well formed.
    pub fn left_mut(&mut self) -> (r: &mut Option<S>)
        ensures
            *r == old(self)@.0,
            final(self)@ == (*final(r), old(self)@.1, old(self)@.2),
    {
        &mut self.left
    }

    /// The right slot, for writing; emptying it while it is active leaves a
    /// chain that is no longer well formed.
    pub fn right_mut(&mut self) -> (r: &mut Option<S>)
        ensures
            *r == old(self)@.1,
            final(self)@ == (old(self)@.0, *final(r), old(self)@.2),
    {
        &mut self.right
    }

    /// Makes the prepared inactive slot active and returns it.
    pub fn now(&mut self) -> (r: &mut S)
        requires
            inactive_of(old(self)@) is Some,
        ensures
            *r == inactive_of(old(self)@).unwrap(),
            final(self)@.2 == !old(self)@.2,
            final(self)@ == with_active((old(self)@.0, old(self)@.1, !old(self)@.2), *final(r)),
    {
        self.right_active = !self.right_active;
        self.active_mut()
    }
}

/// Preparing the inactive slot and swapping makes the prepared value active
/// and leaves the previously active slot, untouched, as the inactive one.
pub proof fn lemma_swap_activates_prepared<S>(state: (Option<S>, Option<S>, bool), prepared: S)
    ensures
        ({
            let ready = with_inactive(state, Some(prepared));
            let flipped = (ready.0, ready.1, !ready.2);
            &&& active_present(flipped)
            &&& active_of(flipped) == prepared
            &&& inactive_of(flipped) == (if state.2 {
                state.1
            } else {
                state.0
            })
        }),
{
}

} // verus!
