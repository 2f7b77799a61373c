//! Activation state and the pointer-motion corrector.
//!
//! One `ActivationState` lives inside each delegate object. It records
//! whether the owning application is foreground-active and whether a
//! pointer-motion correction has been armed and is awaiting the next
//! pointer-move notification.
//!
//! The corrector exists because the first pointer-move delivered after a
//! window regains activation can be dropped or stale: arming on resignation
//! and firing exactly once on the next pointer move forces one corrective
//! re-evaluation of the cursor state.

use vstd::prelude::*;

verus! {

/// Which step of the arm-and-fire correction cycle the corrector is in.
#[derive(Clone, Copy, PartialEq, Eq, Structural, Debug)]
pub enum Refocus {
    /// No correction pending.
    Idle,
    /// A correction was armed on resignation and awaits the next pointer move.
    Armed,
}

/// Mathematical view of an `ActivationState`.
pub struct ActivationView {
    pub active: bool,
    pub refocus: Refocus,
}

/// Per-delegate activation bookkeeping: the foreground-active flag plus the
/// pending-correction state. Exclusively owned by its delegate; torn down
/// exactly once through `destroy`.
pub struct ActivationState {
    active: bool,
    refocus: Refocus,
}

impl View for ActivationState {
    type V = ActivationView;

    closed spec fn view(&self) -> ActivationView {
        ActivationView { active: self.active, refocus: self.refocus }
    }
}

impl ActivationState {
    /// Fresh state: not active, no correction pending.
    pub fn new() -> (s: Self)
        ensures
            s@ == (ActivationView { active: false, refocus: Refocus::Idle }),
    {
        ActivationState { active: false, refocus: Refocus::Idle }
    }

    /// Pure state update of the foreground-active flag; the pending
    /// correction is untouched.
    pub fn set_active(&mut self, value: bool)
        ensures
            final(self)@ == (ActivationView { active: value, refocus: old(self)@.refocus }),
    {
        self.active = value;
    }

    /// Whether the owning application is currently foreground-active.
    pub fn is_active(&self) -> (b: bool)
        ensures
            b == self@.active,
    {
        self.active
    }

    /// Corrector, step one: arm a correction when the owning window resigns
    /// active status. Arming twice has the same effect as arming once.
    pub fn arm(&mut self)
        ensures
            final(self)@ == (ActivationView { active: old(self)@.active, refocus: Refocus::Armed }),
    {
        self.refocus = Refocus::Armed;
    }

    /// Corrector, step two: called for every native pointer-move
    /// notification. Returns whether the caller must synthesize a re-dispatch
    /// of the current pointer position before any ordinary handling of the
    /// notification; the pending flag is cleared, so a given arm cycle fires
    /// at most once.
    pub fn on_pointer_moved(&mut self) -> (redispatch: bool)
        ensures
            redispatch == (old(self)@.refocus == Refocus::Armed),
            final(self)@ == (ActivationView { active: old(self)@.active, refocus: Refocus::Idle }),
    {
        match self.refocus {
            Refocus::Armed => {
                self.refocus = Refocus::Idle;
                true
            },
            Refocus::Idle => false,
        }
    }

    /// Explicit teardown. Consuming the state makes destruction
    /// exactly-once: no activation or pointer notification can reach the
    /// state afterwards, so a pending correction can never fire across
    /// destruction.
    pub fn destroy(self) {
    }
}

} // verus!
