//! The application delegate: lifecycle translation over the activation state.
//!
//! A four-state machine per application — `NotLaunched`, `Launched`,
//! `Active`, `Inactive` — driven by the platform's lifecycle notifications.
//! Launch completion signals the application's readiness exactly once, no
//! matter how many times the platform repeats the notification; becoming
//! active and resigning drive the activation flag, and resignation arms the
//! pointer-motion corrector. Notifications that match no transition are
//! accepted and change nothing.
//!
//! Each handler's postcondition equates the new state with a spec-level
//! transition function, so the whole machine is pinned down and the laws in
//! `laws` are proved against the same functions.

use vstd::prelude::*;

use crate::activation::ActivationState;
use crate::activation::ActivationView;
use crate::activation::Refocus;
use crate::open_request::EventQueue;
use crate::open_request::FileCandidate;
use crate::open_request::kept_paths;
use crate::open_request::path_views;
use crate::open_request::translate_open_files;
use crate::open_request::translate_open_urls;

verus! {

/// Where the application stands in its launch/activation lifecycle.
#[derive(Clone, Copy, PartialEq, Eq, Structural, Debug)]
pub enum LaunchPhase {
    /// The platform has not yet reported launch completion.
    NotLaunched,
    /// Launch completed; the application has never been active yet.
    Launched,
    /// The application is foreground-active.
    Active,
    /// The application was active once and has resigned active status.
    Inactive,
}

/// Mathematical view of an `AppDelegate`.
pub struct DelegateView {
    pub phase: LaunchPhase,
    pub activation: ActivationView,
}

/// The state a delegate starts in: nothing launched, nothing active,
/// no correction pending.
pub open spec fn initial_view() -> DelegateView {
    DelegateView {
        phase: LaunchPhase::NotLaunched,
        activation: ActivationView { active: false, refocus: Refocus::Idle },
    }
}

/// Launch completion: fires the readiness signal on the first notification
/// only. The returned flag says whether the signal is owed for this call.
pub open spec fn spec_launch_completed(v: DelegateView) -> (DelegateView, bool) {
    if v.phase == LaunchPhase::NotLaunched {
        (DelegateView { phase: LaunchPhase::Launched, activation: v.activation }, true)
    } else {
        (v, false)
    }
}

/// Becoming active: only meaningful once launched and not already active;
/// sets the activation flag and leaves any pending correction in place, so a
/// correction armed on resignation survives into the new activation and can
/// fire on the next pointer move.
pub open spec fn spec_became_active(v: DelegateView) -> DelegateView {
    if v.phase == LaunchPhase::Launched || v.phase == LaunchPhase::Inactive {
        DelegateView {
            phase: LaunchPhase::Active,
            activation: ActivationView { active: true, refocus: v.activation.refocus },
        }
    } else {
        v
    }
}

/// Resigning active status: clears the activation flag and then arms the
/// pointer-motion corrector, in that order, so arming observes the already
/// inactive flag.
pub open spec fn spec_resigned_active(v: DelegateView) -> DelegateView {
    if v.phase == LaunchPhase::Active {
        DelegateView {
            phase: LaunchPhase::Inactive,
            activation: ActivationView { active: false, refocus: Refocus::Armed },
        }
    } else {
        v
    }
}

/// A pointer-move notification: fires the correction exactly when one is
/// armed, and clears it, so each arm cycle fires at most once. The phase and
/// the activation flag are untouched.
pub open spec fn spec_pointer_moved(v: DelegateView) -> (DelegateView, bool) {
    if v.activation.refocus == Refocus::Armed {
        (
            DelegateView {
                phase: v.phase,
                activation: ActivationView { active: v.activation.active, refocus: Refocus::Idle },
            },
            true,
        )
    } else {
        (v, false)
    }
}

/// One delegate object: the lifecycle phase plus the activation state it
/// exclusively owns. Created once per native delegate, destroyed exactly
/// once with it.
pub struct AppDelegate {
    phase: LaunchPhase,
    activation: ActivationState,
}

impl View for AppDelegate {
    type V = DelegateView;

    closed spec fn view(&self) -> DelegateView {
        DelegateView { phase: self.phase, activation: self.activation@ }
    }
}

impl AppDelegate {
    /// A fresh delegate in the initial state.
    pub fn new() -> (d: Self)
        ensures
            d@ == initial_view(),
    {
        AppDelegate { phase: LaunchPhase::NotLaunched, activation: ActivationState::new() }
    }

    /// The platform reported launch completion. Returns whether the caller
    /// must now deliver the application's readiness signal: true on the
    /// first notification, false on every repeat.
    pub fn handle_launch_completed(&mut self) -> (launched_now: bool)
        ensures
            final(self)@ == spec_launch_completed(old(self)@).0,
            launched_now == spec_launch_completed(old(self)@).1,
    {
        match self.phase {
            LaunchPhase::NotLaunched => {
                self.phase = LaunchPhase::Launched;
                true
            },
            _ => false,
        }
    }

    /// The platform reported that the application became active.
    pub fn handle_became_active(&mut self)
        ensures
            final(self)@ == spec_became_active(old(self)@),
    {
        match self.phase {
            LaunchPhase::Launched | LaunchPhase::Inactive => {
                self.activation.set_active(true);
                self.phase = LaunchPhase::Active;
            },
            _ => {},
        }
    }

    /// The platform reported that the application resigned active status:
    /// the activation flag is cleared first, then the corrector is armed.
    pub fn handle_resigned_active(&mut self)
        ensures
            final(self)@ == spec_resigned_active(old(self)@),
    {
        match self.phase {
            LaunchPhase::Active => {
                self.activation.set_active(false);
                self.activation.arm();
                self.phase = LaunchPhase::Inactive;
            },
            _ => {},
        }
    }

    /// A native pointer-move notification arrived. Returns whether the
    /// caller must synthesize a re-dispatch of the current pointer position
    /// before any ordinary handling of the notification. The notification's
    /// payload is not consulted: the decision depends on the correction
    /// state alone, and the synthetic re-dispatch reads the live pointer
    /// position on the platform side.
    pub fn handle_pointer_moved(&mut self) -> (redispatch: bool)
        ensures
            final(self)@ == spec_pointer_moved(old(self)@).0,
            redispatch == spec_pointer_moved(old(self)@).1,
    {
        self.activation.on_pointer_moved()
    }

    /// The platform asked the application to open a batch of files, each
    /// candidate already probed for existence by the platform-binding
    /// layer. Keeps the existing paths in input order; enqueues an event
    /// exactly when something was kept, and returns whether the request is
    /// accepted — the caller translates that into the platform's
    /// success/failure acknowledgement. The delegate's own state is
    /// untouched.
    pub fn handle_open_files(
        &self,
        items: &Vec<FileCandidate>,
        queue: &mut EventQueue,
    ) -> (accepted: bool)
        ensures
            accepted == (kept_paths(items@).len() != 0),
            accepted == (exists|i: int| 0 <= i < items@.len() && (#[trigger] items@[i]).exists),
            accepted ==> final(queue)@ == old(queue)@.push(kept_paths(items@)),
            !accepted ==> final(queue)@ == old(queue)@,
    {
        let (accepted, event) = translate_open_files(items);
        match event {
            Some(event) => {
                queue.enqueue(event);
            },
            None => {},
        }
        accepted
    }

    /// The platform asked the application to open a batch of urls, handed
    /// over in their absolute string form. No filtering and no failure
    /// path: an event is enqueued even for an empty batch. The delegate's
    /// own state is untouched.
    pub fn handle_open_urls(&self, urls: Vec<String>, queue: &mut EventQueue)
        ensures
            final(queue)@ == old(queue)@.push(path_views(urls@)),
    {
        let event = translate_open_urls(urls);
        queue.enqueue(event);
    }

    /// Whether the delegate currently considers the application active.
    pub fn is_active(&self) -> (b: bool)
        ensures
            b == self@.activation.active,
    {
        self.activation.is_active()
    }

    /// Teardown of the delegate and, with it, exactly-once destruction of
    /// the activation state it owns. After this no notification can reach
    /// the corrector, so a still-armed correction can never fire.
    pub fn destroy(self) {
        let AppDelegate { phase: _, activation } = self;
        activation.destroy();
    }
}

} // verus!
