use chase::{Collider, ColliderState};

fn circle(x: f64, y: f64, r: f64) -> Collider<(f64, f64, f64)> {
    Collider::new((x, y, r))
}

#[test]
fn collider_starts_enabled() {
    let c = circle(0.0, 0.0, 1.0);
    assert_eq!(c.state(), ColliderState::Enabled);
    assert_eq!(c.shape, (0.0, 0.0, 1.0));
}

#[test]
fn collider_two_enabled_may_collide() {
    let a = circle(0.0, 0.0, 1.0);
    let b = circle(0.0, 0.0, 1.0);
    assert!(a.can_collide_with(&b));
}

#[test]
fn collider_disabled_other_never_collides() {
    let a = circle(0.0, 0.0, 1.0);
    let mut b = circle(0.0, 0.0, 1.0);
    b.disable();
    assert!(!a.can_collide_with(&b));
    assert!(!b.can_collide_with(&a));
}

#[test]
fn collider_reenabled_other_collides_again() {
    let a = circle(0.0, 0.0, 1.0);
    let mut b = circle(0.0, 0.0, 1.0);
    b.disable();
    b.enable();
    assert!(a.can_collide_with(&b));
}

#[test]
fn collider_both_disabled_never_collide() {
    let mut a = circle(0.0, 0.0, 1.0);
    let mut b = circle(0.0, 0.0, 1.0);
    a.disable();
    b.disable();
    assert!(!a.can_collide_with(&b));
}

#[test]
fn collider_enable_twice_is_enable_once() {
    let mut c = circle(3.0, 4.0, 2.0);
    c.enable();
    assert_eq!(c.state(), ColliderState::Enabled);
    c.enable();
    assert_eq!(c.state(), ColliderState::Enabled);
    assert_eq!(c.shape, (3.0, 4.0, 2.0));
}

#[test]
fn collider_disable_twice_is_disable_once() {
    let mut c = circle(3.0, 4.0, 2.0);
    c.disable();
    assert_eq!(c.state(), ColliderState::Disabled);
    c.disable();
    assert_eq!(c.state(), ColliderState::Disabled);
    assert_eq!(c.shape, (3.0, 4.0, 2.0));
}
