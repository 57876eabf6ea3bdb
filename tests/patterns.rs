use raytracer::patterns::{checker_uses_first, ring_uses_first, stripe_uses_first};

fn floor(v: f64) -> i64 {
    v.floor() as i64
}

#[test]
fn stripe_pattern_alternates_x() {
    assert!(stripe_uses_first(floor(0.0)));
    assert!(stripe_uses_first(floor(0.9)));
    assert!(!stripe_uses_first(floor(1.0)));
    assert!(!stripe_uses_first(floor(-0.1)));
    assert!(!stripe_uses_first(floor(-1.0)));
    assert!(stripe_uses_first(floor(-1.1)));
}

#[test]
fn ring_pattern() {
    let d = |x: f64, z: f64| floor((x * x + z * z).sqrt());
    assert!(ring_uses_first(d(0.0, 0.0)));
    assert!(!ring_uses_first(d(1.0, 0.0)));
    assert!(!ring_uses_first(d(0.0, 1.0)));
    assert!(!ring_uses_first(d(0.708, 0.708)));
    assert!(ring_uses_first(d(0.5, 0.0)));
}

#[test]
fn repeat_x() {
    assert!(checker_uses_first(floor(0.0), floor(0.0), floor(0.0)));
    assert!(checker_uses_first(floor(0.99), floor(0.0), floor(0.0)));
    assert!(!checker_uses_first(floor(1.01), floor(0.0), floor(0.0)));
}

#[test]
fn repeat_y() {
    assert!(checker_uses_first(floor(0.0), floor(0.0), floor(0.0)));
    assert!(checker_uses_first(floor(0.0), floor(0.99), floor(0.0)));
    assert!(!checker_uses_first(floor(0.0), floor(1.01), floor(0.0)));
}

#[test]
fn repeat_z() {
    assert!(checker_uses_first(floor(0.0), floor(0.0), floor(0.0)));
    assert!(checker_uses_first(floor(0.0), floor(0.0), floor(0.99)));
    assert!(!checker_uses_first(floor(0.0), floor(0.0), floor(1.01)));
}

#[test]
fn checker_extreme_floors() {
    assert!(!checker_uses_first(i64::MAX, i64::MAX, i64::MAX));
    assert!(checker_uses_first(i64::MIN, i64::MIN, i64::MIN));
    assert!(checker_uses_first(i64::MAX, i64::MIN, 1));
    assert!(!checker_uses_first(-1, 0, 0));
}
