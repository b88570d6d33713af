//! Single-flight gate: admits one pipeline run at a time.
//!
//! A single boolean flag owned by the orchestrator. Acquisition is a
//! check-and-set; the caller must perform it inside one critical section
//! so that two concurrent requests cannot both pass.

use vstd::prelude::*;

verus! {

/// The single-flight gate: `held` is true while a pipeline run is active.
pub struct Gate {
    pub held: bool,
}

/// The lock state after an attempted acquisition: held in either case
/// (it was already held, or the caller now holds it).
pub open spec fn gate_after_try_acquire(held: bool) -> bool {
    true
}

/// Whether an attempted acquisition succeeds: only when the lock was free.
pub open spec fn try_acquire_succeeds(held: bool) -> bool {
    !held
}

/// The lock state after a release: always free.
pub open spec fn gate_after_release(held: bool) -> bool {
    false
}

impl Gate {
    /// A fresh gate is free.
    pub fn new() -> (g: Gate)
        ensures
            !g.held,
    {
        Gate { held: false }
    }

    /// Check-and-set acquisition: succeeds exactly when the lock was
    /// free, and leaves it held in either case. Non-blocking: a losing
    /// caller is rejected, never queued.
    pub fn try_acquire(&mut self) -> (r: bool)
        ensures
            r == try_acquire_succeeds(old(self).held),
            final(self).held == gate_after_try_acquire(old(self).held),
    {
        if self.held {
            false
        } else {
            self.held = true;
            true
        }
    }

    /// Unconditionally clears the lock. Must run on every exit path of a
    /// run; a missed release wedges the service until restart.
    pub fn release(&mut self)
        ensures
            final(self).held == gate_after_release(old(self).held),
    {
        self.held = false;
    }
}

/// Reports whether a run is active.
pub fn check_semaphore(g: &Gate) -> (r: bool)
    ensures
        r == g.held,
{
    g.held
}

/// Sets the run flag to the given value.
pub fn set_semaphore(g: &mut Gate, value: bool)
    ensures
        final(g).held == value,
{
    g.held = value;
}

/// Single-flight law: of two acquisitions attempted in one critical
/// section against a free gate, exactly the first succeeds; after a
/// release, a further acquisition succeeds again.
pub proof fn lemma_single_flight()
    ensures
        try_acquire_succeeds(false),
        !try_acquire_succeeds(gate_after_try_acquire(false)),
        forall|h: bool| try_acquire_succeeds(gate_after_release(h)),
{
}

} // verus!
