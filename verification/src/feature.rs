//! Architecture-agnostic processor-feature inquiries.
//!
//! A [`Signal`] says whether a feature is present and whether that answer was
//! fixed when the kernel was built (a feature baseline) or detected on the
//! running processor.

use vstd::prelude::*;

use crate::bits::State;

pub mod x86;

verus! {

/// Whether a processor feature is present.
#[derive(Debug, Clone, Hash, Copy, PartialEq, PartialOrd, Ord, Eq)]
pub enum Present {
    /// The feature is absent.
    No,
    /// The feature is present.
    Yes,
}

impl Present {
    /// The presence that a feature bit reports.
    pub open spec fn of(bit: bool) -> Present {
        if bit {
            Present::Yes
        } else {
            Present::No
        }
    }

    /// Both features present.
    pub open spec fn both(self, other: Present) -> Present {
        if self == Present::Yes && other == Present::Yes {
            Present::Yes
        } else {
            Present::No
        }
    }

    /// Requires both features to be present.
    pub fn and(&self, target_right: Self) -> (r: Self)
        ensures
            r == self.both(target_right),
    {
        match (self, target_right) {
            (Present::Yes, Present::Yes) => Present::Yes,
            _ => Present::No,
        }
    }
}

/// A feature-support signal: whether the feature is present, and whether
/// that was fixed at build time or detected at run time.
#[derive(Debug, Clone, Hash, Copy, PartialEq, PartialOrd, Ord, Eq)]
pub enum Signal {
    /// Fixed when the kernel was built.
    Guaranteed(Present),
    /// Detected on the running processor.
    Detected(Present),
}

impl Signal {
    /// The presence a signal carries, whatever its source.
    pub open spec fn presence(self) -> Present {
        match self {
            Signal::Guaranteed(p) => p,
            Signal::Detected(p) => p,
        }
    }

    /// A signal fixed at build time to `S`.
    pub fn forced<const S: bool>() -> (r: Self)
        ensures
            r == Signal::Guaranteed(if S { Present::Yes } else { Present::No }),
    {
        if S {
            Signal::Guaranteed(Present::Yes)
        } else {
            Signal::Guaranteed(Present::No)
        }
    }

    /// The signal of a feature whose availability is unknown: absent.
    pub fn unknown() -> (r: Self)
        ensures
            r == Signal::Guaranteed(Present::No),
    {
        Signal::Guaranteed(Present::No)
    }

    /// The detected signal of a feature bit.
    pub fn state(target_state: State) -> (r: Self)
        ensures
            r == Signal::Detected(if target_state.is_set() { Present::Yes } else { Present::No }),
    {
        match target_state {
            State::Raised => Signal::Detected(Present::Yes),
            State::Cleared => Signal::Detected(Present::No),
        }
    }

    /// Requires another signal on top of this one: present only when both
    /// are, and fixed at build time only when both are.
    pub fn and(&self, target_signal: Self) -> (r: Self)
        ensures
            r.presence() == self.presence().both(target_signal.presence()),
            r is Guaranteed <==> (*self is Guaranteed && target_signal is Guaranteed),
    {
        match (self, target_signal) {
            (Signal::Guaranteed(left), Signal::Guaranteed(right)) => Signal::Guaranteed(
                left.and(right),
            ),
            (Signal::Guaranteed(left), Signal::Detected(right)) => Signal::Detected(
                left.and(right),
            ),
            (Signal::Detected(left), Signal::Guaranteed(right)) => Signal::Detected(
                left.and(right),
            ),
            (Signal::Detected(left), Signal::Detected(right)) => Signal::Detected(left.and(right)),
        }
    }

    /// Whether this signal carries the given presence, whatever its source.
    pub fn is(&self, present_left: Present) -> (r: bool)
        ensures
            r == (self.presence() == present_left),
    {
        let present_right = match self {
            Signal::Guaranteed(p) => *p,
            Signal::Detected(p) => *p,
        };
        match (present_left, present_right) {
            (Present::Yes, Present::Yes) => true,
            (Present::No, Present::No) => true,
            _ => false,
        }
    }
}

/// Combining signals is commutative and associative in what they say, a
/// present build-time signal is its identity and an absent one absorbs.
pub proof fn lemma_presence_algebra(a: Present, b: Present, c: Present)
    ensures
        a.both(b) == b.both(a),
        a.both(b).both(c) == a.both(b.both(c)),
        a.both(Present::Yes) == a,
        a.both(Present::No) == Present::No,
        a.both(a) == a,
{
}

/// A processor extension that may be absent.
///
/// A feature baseline fixes the answer at build time through
/// [`Feature::PREDETERMINED`]; otherwise the feature is looked up on the
/// running processor.
pub trait Feature {
    /// The signal fixed at build time, if any.
    const PREDETERMINED: Option<Signal> = None;

    /// Whether the running processor supports the feature, or the baseline
    /// that fixes the answer. Without a detection of its own, a feature is
    /// its baseline, or unknown (absent) when it has none.
    fn supported() -> (r: Signal)
        default_ensures
            r == (match Self::PREDETERMINED {
                Some(signal) => signal,
                None => Signal::Guaranteed(Present::No),
            }),
    {
        match Self::PREDETERMINED {
            Some(signal) => signal,
            None => Signal::unknown(),
        }
    }
}

} // verus!
