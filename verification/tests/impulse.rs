use critters::{clamp_intent, isqrt, BugData, BugSort, Team, Vec2};

#[test]
fn isqrt_exact_squares() {
    assert_eq!(isqrt(0), 0);
    assert_eq!(isqrt(1), 1);
    assert_eq!(isqrt(15), 3);
    assert_eq!(isqrt(16), 4);
    assert_eq!(isqrt(25_000_000), 5000);
    assert_eq!(isqrt(u64::MAX), 4294967295);
}

#[test]
fn clamp_zeroes_dead_zone() {
    // |(30, 30)|^2 = 1800 <= 50^2: inside the dead zone.
    assert_eq!(clamp_intent(Vec2::new(30, 30)), Vec2::new(0, 0));
    // |(40, 30)| = 50 exactly: still treated as noise (the rule keeps only
    // magnitudes strictly above 0.05 world units).
    assert_eq!(clamp_intent(Vec2::new(40, 30)), Vec2::new(0, 0));
    assert_eq!(clamp_intent(Vec2::new(0, 0)), Vec2::new(0, 0));
}

#[test]
fn clamp_keeps_vectors_within_cap() {
    assert_eq!(clamp_intent(Vec2::new(41, 30)), Vec2::new(41, 30));
    assert_eq!(clamp_intent(Vec2::new(3000, 0)), Vec2::new(3000, 0));
    assert_eq!(clamp_intent(Vec2::new(0, -4000)), Vec2::new(0, -4000));
}

#[test]
fn clamp_scales_long_vectors_to_cap() {
    // |(3000, 4000)| = 5000: scaled by 4000/5000.
    assert_eq!(clamp_intent(Vec2::new(3000, 4000)), Vec2::new(2400, 3200));
    assert_eq!(clamp_intent(Vec2::new(5000, 0)), Vec2::new(4000, 0));
    assert_eq!(clamp_intent(Vec2::new(-3000, -4000)), Vec2::new(-2400, -3200));
    // The stored magnitude never exceeds the cap.
    let r = clamp_intent(Vec2::new(123_456, -654_321));
    let norm_sq = (r.x as i64) * (r.x as i64) + (r.y as i64) * (r.y as i64);
    assert!(norm_sq <= 4000 * 4000);
    assert!(norm_sq > 0);
}

#[test]
fn intent_is_clamped_when_stored() {
    let mut bug = BugData::new(BugSort::Beetle, Team::Red);
    bug.set_impulse_intent(Vec2::new(8000, 0));
    assert_eq!(*bug.impulse_intent(), Vec2::new(4000, 0));
    bug.set_impulse_intent(Vec2::new(10, 10));
    assert_eq!(*bug.impulse_intent(), Vec2::new(0, 0));
    bug.reset_impulse_intent();
    assert_eq!(*bug.impulse_intent(), Vec2::new(0, 0));
}

#[test]
fn health_never_leaves_range() {
    let mut bug = BugData::new(BugSort::Ant, Team::Blue);
    assert_eq!(bug.health(), 4);
    bug.add_health(10);
    assert_eq!(bug.health(), 4);
    bug.add_health(-1);
    assert_eq!(bug.health(), 3);
    bug.add_health(-100);
    assert_eq!(bug.health(), 0);
    bug.add_health(1);
    assert_eq!(bug.health(), 1);
    bug.add_health(isize::MIN);
    assert_eq!(bug.health(), 0);
    bug.add_health(isize::MAX);
    assert_eq!(bug.health(), 4);
}

#[test]
fn teams_oppose() {
    assert_eq!(Team::from_index(0), Team::Red);
    assert_eq!(Team::from_index(1), Team::Blue);
    assert_eq!(Team::from_index(2), Team::Red);
    assert_eq!(Team::Red.enemy(), Team::Blue);
    assert_eq!(Team::Blue.enemy(), Team::Red);
}
