//! The cancellation probe: a polled query that reports whether the
//! user has asked the run to stop.
//!
//! A probe is modelled as an oracle: a fixed sequence of answers
//! (`answer_at`) together with a cursor (`polls`) that advances by one
//! at every query.  Verified code that polls a probe can therefore
//! relate its outcome to the exact poll at which cancellation was
//! first observed.
use vstd::prelude::*;

verus! {

/// A shared, read-only cancellation capability, polled at every
/// animation tick and every printed line.  `should_cancel` never
/// blocks and has no effect beyond advancing the poll cursor.
pub trait CancelProbe: Sized {
    /// How many times this probe has been queried.
    spec fn polls(&self) -> nat;

    /// The answer the probe gives to its `k`-th query.
    spec fn answer_at(&self, k: nat) -> bool;

    /// Query the probe once.
    fn should_cancel(&mut self) -> (r: bool)
        ensures
            final(self).polls() == old(self).polls() + 1,
            r == old(self).answer_at(old(self).polls()),
            forall|k: nat| final(self).answer_at(k) == old(self).answer_at(k),
    ;
}

/// A probe that never reports cancellation: a run with it always
/// completes.
pub struct NeverCancel {
    calls: Ghost<nat>,
}

impl NeverCancel {
    pub fn new() -> (r: NeverCancel)
        ensures
            r.polls() == 0,
    {
        NeverCancel { calls: Ghost(0) }
    }
}

impl CancelProbe for NeverCancel {
    closed spec fn polls(&self) -> nat {
        self.calls@
    }

    open spec fn answer_at(&self, k: nat) -> bool {
        false
    }

    fn should_cancel(&mut self) -> (r: bool) {
        proof {
            self.calls@ = self.calls@ + 1;
        }
        false
    }
}

/// A probe that reports cancellation from its `threshold`-th query on:
/// with `threshold == 0` the very first check already cancels.
pub struct CancelAfter {
    threshold: usize,
    seen: usize,
    calls: Ghost<nat>,
}

impl CancelAfter {
    #[verifier::type_invariant]
    spec fn inv(self) -> bool {
        if self.calls@ < self.threshold as nat {
            self.seen as nat == self.calls@
        } else {
            self.seen == self.threshold
        }
    }

    pub fn new(threshold: usize) -> (r: CancelAfter)
        ensures
            r.polls() == 0,
            forall|k: nat| r.answer_at(k) == (k >= threshold as nat),
    {
        CancelAfter { threshold, seen: 0, calls: Ghost(0) }
    }
}

impl CancelProbe for CancelAfter {
    closed spec fn polls(&self) -> nat {
        self.calls@
    }

    closed spec fn answer_at(&self, k: nat) -> bool {
        k >= self.threshold as nat
    }

    fn should_cancel(&mut self) -> (r: bool) {
        proof {
            use_type_invariant(&*self);
        }
        let r = self.seen >= self.threshold;
        let new_seen = if self.seen < self.threshold {
            self.seen + 1
        } else {
            self.seen
        };
        let ghost c = self.calls@ + 1;
        *self = CancelAfter { threshold: self.threshold, seen: new_seen, calls: Ghost(c) };
        r
    }
}

} // verus!
