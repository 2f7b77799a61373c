//! The bridge's guarantees, stated and proved over the same spec-level
//! transition functions that the delegate's handler contracts are pinned
//! to: the readiness signal fires at most once, an armed correction fires
//! exactly once per arm cycle, a correction never fires unless resignation
//! armed it, and the delegate's structural invariant survives every
//! notification.

use vstd::prelude::*;

use crate::activation::Refocus;
use crate::delegate::DelegateView;
use crate::delegate::LaunchPhase;
use crate::delegate::initial_view;
use crate::delegate::spec_became_active;
use crate::delegate::spec_launch_completed;
use crate::delegate::spec_pointer_moved;
use crate::delegate::spec_resigned_active;

verus! {

/// One state-affecting platform notification, payload-free: open requests
/// are excluded because their handlers take the delegate by shared
/// reference and so cannot touch its state.
#[derive(Clone, Copy, PartialEq, Eq, Structural, Debug)]
pub enum Notification {
    LaunchCompleted,
    BecameActive,
    ResignedActive,
    PointerMoved,
}

/// The delegate state after one notification.
pub open spec fn spec_step(v: DelegateView, n: Notification) -> DelegateView {
    match n {
        Notification::LaunchCompleted => spec_launch_completed(v).0,
        Notification::BecameActive => spec_became_active(v),
        Notification::ResignedActive => spec_resigned_active(v),
        Notification::PointerMoved => spec_pointer_moved(v).0,
    }
}

/// The delegate state after a whole sequence of notifications, delivered
/// one at a time in order, as the platform's single-threaded dispatcher
/// does.
pub open spec fn spec_run(v: DelegateView, ns: Seq<Notification>) -> DelegateView
    decreases ns.len(),
{
    if ns.len() == 0 {
        v
    } else {
        spec_run(spec_step(v, ns[0]), ns.drop_first())
    }
}

/// The delegate's structural invariant: the activation flag agrees with
/// the lifecycle phase, and a correction can only be pending once the
/// application has been active at least once — that is, in the `Inactive`
/// phase where resignation armed it, or back in `Active` during the
/// transition window before the next pointer move consumes it.
pub open spec fn wf(v: DelegateView) -> bool {
    &&& v.activation.active <==> v.phase == LaunchPhase::Active
    &&& v.activation.refocus == Refocus::Armed ==> (v.phase == LaunchPhase::Inactive
        || v.phase == LaunchPhase::Active)
}

/// A fresh delegate satisfies the invariant.
pub proof fn lemma_wf_initial()
    ensures
        wf(initial_view()),
{
}

/// Every notification preserves the invariant.
pub proof fn lemma_wf_preserved(v: DelegateView, n: Notification)
    requires
        wf(v),
    ensures
        wf(spec_step(v, n)),
{
}

/// The invariant survives any sequence of notifications.
pub proof fn lemma_wf_run(v: DelegateView, ns: Seq<Notification>)
    requires
        wf(v),
    ensures
        wf(spec_run(v, ns)),
    decreases ns.len(),
{
    if ns.len() != 0 {
        lemma_wf_preserved(v, ns[0]);
        lemma_wf_run(spec_step(v, ns[0]), ns.drop_first());
    }
}

/// Launch idempotence: however the delegate got where it is, a repeated
/// launch-completion notification never signals readiness again — so two
/// consecutive notifications signal at most once, and from the initial
/// state exactly the first one signals.
pub proof fn lemma_launch_signal_once(v: DelegateView)
    ensures
        !spec_launch_completed(spec_launch_completed(v).0).1,
        v == initial_view() ==> spec_launch_completed(v).1,
{
}

/// Arm/fire discipline: from any active state, resigning and then becoming
/// active again leaves the correction armed, so the next pointer move fires
/// exactly one synthetic re-dispatch and the pointer move after it fires
/// none.
pub proof fn lemma_arm_then_single_fire(v: DelegateView)
    requires
        v.phase == LaunchPhase::Active,
    ensures
        ({
            let rearmed = spec_became_active(spec_resigned_active(v));
            spec_pointer_moved(rearmed).1
                && !spec_pointer_moved(spec_pointer_moved(rearmed).0).1
        }),
{
}

/// No arm, no fire: starting with no pending correction, a run of
/// notifications in which the application never resigns active status
/// leaves no correction pending, and so a pointer move at any point of such
/// a run never synthesizes a re-dispatch.
pub proof fn lemma_no_arm_no_fire(v: DelegateView, ns: Seq<Notification>)
    requires
        v.activation.refocus == Refocus::Idle,
        forall|i: int| 0 <= i < ns.len() ==> ns[i] != Notification::ResignedActive,
    ensures
        spec_run(v, ns).activation.refocus == Refocus::Idle,
        !spec_pointer_moved(spec_run(v, ns)).1,
    decreases ns.len(),
{
    if ns.len() != 0 {
        assert(ns[0] != Notification::ResignedActive);
        lemma_no_arm_no_fire(spec_step(v, ns[0]), ns.drop_first());
    }
}

} // verus!
