use activation_bridge::activation::ActivationState;
use activation_bridge::delegate::AppDelegate;

#[test]
fn launch_completed_signals_exactly_once() {
    let mut d = AppDelegate::new();
    assert!(d.handle_launch_completed());
    assert!(!d.handle_launch_completed());
    assert!(!d.handle_launch_completed());
    d.destroy();
}

#[test]
fn arm_then_single_fire() {
    let mut d = AppDelegate::new();
    d.handle_launch_completed();
    d.handle_became_active();
    assert!(d.is_active());
    d.handle_resigned_active();
    assert!(!d.is_active());
    d.handle_became_active();
    assert!(d.is_active());
    assert!(d.handle_pointer_moved());
    assert!(!d.handle_pointer_moved());
    d.destroy();
}

#[test]
fn fire_happens_while_still_inactive_too() {
    let mut d = AppDelegate::new();
    d.handle_launch_completed();
    d.handle_became_active();
    d.handle_resigned_active();
    assert!(d.handle_pointer_moved());
    assert!(!d.handle_pointer_moved());
    d.destroy();
}

#[test]
fn no_resign_means_no_fire() {
    let mut d = AppDelegate::new();
    assert!(!d.handle_pointer_moved());
    d.handle_launch_completed();
    assert!(!d.handle_pointer_moved());
    d.handle_became_active();
    assert!(!d.handle_pointer_moved());
    assert!(!d.handle_pointer_moved());
    d.destroy();
}

#[test]
fn resign_before_launch_is_a_no_op() {
    let mut d = AppDelegate::new();
    d.handle_resigned_active();
    assert!(!d.is_active());
    assert!(!d.handle_pointer_moved());
    d.destroy();
}

#[test]
fn became_active_before_launch_is_a_no_op() {
    let mut d = AppDelegate::new();
    d.handle_became_active();
    assert!(!d.is_active());
    d.destroy();
}

#[test]
fn repeated_resignations_still_fire_once() {
    let mut d = AppDelegate::new();
    d.handle_launch_completed();
    d.handle_became_active();
    d.handle_resigned_active();
    d.handle_resigned_active();
    d.handle_became_active();
    assert!(d.handle_pointer_moved());
    assert!(!d.handle_pointer_moved());
    d.destroy();
}

#[test]
fn each_arm_cycle_fires_again() {
    let mut d = AppDelegate::new();
    d.handle_launch_completed();
    d.handle_became_active();
    d.handle_resigned_active();
    d.handle_became_active();
    assert!(d.handle_pointer_moved());
    assert!(!d.handle_pointer_moved());
    d.handle_resigned_active();
    d.handle_became_active();
    assert!(d.handle_pointer_moved());
    assert!(!d.handle_pointer_moved());
    d.destroy();
}

#[test]
fn activation_state_tracks_the_flag_and_the_arming() {
    let mut s = ActivationState::new();
    assert!(!s.is_active());
    s.set_active(true);
    assert!(s.is_active());
    assert!(!s.on_pointer_moved());
    s.arm();
    s.arm();
    assert!(s.is_active());
    assert!(s.on_pointer_moved());
    assert!(!s.on_pointer_moved());
    s.destroy();
}
