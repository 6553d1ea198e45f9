//! The critical-section discipline: any state reachable from both normal
//! and interrupt execution is touched only with interrupt delivery disabled
//! on the core and the guarding spin lock held, in that order. On a single
//! core this ordering is what keeps a handler from spinning forever on a
//! lock the interrupted code still holds: the lock is only ever held while
//! delivery is off, so no interrupt is ever delivered to a core that holds
//! it.

use vstd::prelude::*;

verus! {

/// The core's interrupt-delivery flag and the spin lock guarding the state
/// shared with interrupt context.
pub struct CoreState {
    interrupts_enabled: bool,
    lock_held: bool,
}

/// Evidence of an entered critical section: remembers whether delivery was
/// enabled at entry, so leaving restores exactly the previous state.
pub struct SectionToken {
    saved_interrupts: bool,
}

impl SectionToken {
    /// Whether interrupt delivery was enabled when the section was entered.
    pub closed spec fn saved(self) -> bool {
        self.saved_interrupts
    }
}

impl CoreState {
    /// Whether the core delivers hardware interrupts.
    pub closed spec fn interrupts_enabled(self) -> bool {
        self.interrupts_enabled
    }

    /// Whether the shared-state lock is held.
    pub closed spec fn lock_held(self) -> bool {
        self.lock_held
    }

    /// The discipline's invariant: the lock is only ever held while
    /// interrupt delivery is off.
    pub open spec fn disciplined(self) -> bool {
        self.lock_held() ==> !self.interrupts_enabled()
    }

    /// Whether the core currently delivers hardware interrupts.
    pub fn interrupts_on(&self) -> (r: bool)
        ensures
            r == self.interrupts_enabled(),
    {
        self.interrupts_enabled
    }

    /// Whether the shared-state lock is currently held.
    pub fn holding_lock(&self) -> (r: bool)
        ensures
            r == self.lock_held(),
    {
        self.lock_held
    }

    /// The state at boot entry: delivery off, lock free.
    pub fn new() -> (r: CoreState)
        ensures
            !r.interrupts_enabled(),
            !r.lock_held(),
            r.disciplined(),
    {
        CoreState { interrupts_enabled: false, lock_held: false }
    }

    /// Globally enables interrupt delivery: the last step of the boot
    /// sequence, taken only once the vector table is loaded, the
    /// controllers are initialized and no lock is held.
    pub fn enable_interrupts(&mut self)
        requires
            !old(self).lock_held(),
        ensures
            final(self).interrupts_enabled(),
            !final(self).lock_held(),
            final(self).disciplined(),
    {
        self.interrupts_enabled = true;
    }

    /// Enters a critical section: disables delivery, then takes the lock.
    /// The returned token records the state to restore.
    pub fn enter_critical(&mut self) -> (t: SectionToken)
        requires
            old(self).disciplined(),
            !old(self).lock_held(),
        ensures
            t.saved() == old(self).interrupts_enabled(),
            !final(self).interrupts_enabled(),
            final(self).lock_held(),
            final(self).disciplined(),
    {
        let saved = self.interrupts_enabled;
        self.interrupts_enabled = false;
        self.lock_held = true;
        SectionToken { saved_interrupts: saved }
    }

    /// Leaves a critical section: releases the lock, then restores the
    /// delivery state saved at entry. The hold therefore spans exactly the
    /// section's body.
    pub fn exit_critical(&mut self, t: SectionToken)
        requires
            old(self).lock_held(),
            !old(self).interrupts_enabled(),
        ensures
            !final(self).lock_held(),
            final(self).interrupts_enabled() == t.saved(),
            final(self).disciplined(),
    {
        self.lock_held = false;
        self.interrupts_enabled = t.saved_interrupts;
    }
}

/// Law: under the discipline, an interrupt is only ever delivered to a core
/// that does not hold the shared-state lock - so a handler entering a
/// critical section never waits on the code it preempted.
pub proof fn lemma_handler_never_blocks(s: CoreState)
    requires
        s.disciplined(),
        s.interrupts_enabled(),
    ensures
        !s.lock_held(),
{
}

} // verus!
