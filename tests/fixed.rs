use dj_turntable::{lerp, map_range, rotation_speed_of};

#[test]
fn lerp_exact_values() {
    assert_eq!(lerp(0, 1_000_000, 300_000), 300_000);
    assert_eq!(lerp(1_000_000, 0, 300_000), 700_000);
    assert_eq!(lerp(5, 10, 0), 5);
    assert_eq!(lerp(5, 10, 1_000_000), 10);
    assert_eq!(lerp(-10, 10, 500_000), 0);
}

#[test]
fn lerp_rounds_toward_start() {
    // 7 * 0.3 = 2.1
    assert_eq!(lerp(0, 7, 300_000), 2);
    assert_eq!(lerp(0, -7, 300_000), -2);
    assert_eq!(lerp(7, 0, 300_000), 5);
}

#[test]
fn lerp_extremes() {
    assert_eq!(lerp(i64::MIN, i64::MAX, 1_000_000), i64::MAX);
    assert_eq!(lerp(i64::MAX, i64::MIN, 1_000_000), i64::MIN);
}

#[test]
fn rotation_speed_values() {
    assert_eq!(rotation_speed_of(250, 500, 500_000), 1_000_000);
    assert_eq!(rotation_speed_of(-250, 500, 500_000), -1_000_000);
    assert_eq!(rotation_speed_of(0, 500, 1), 0);
    assert_eq!(rotation_speed_of(1, 3, 1_000_000), 333_333);
    assert_eq!(rotation_speed_of(-1, 3, 1_000_000), -333_333);
    assert_eq!(rotation_speed_of(i64::MAX, 1, 1), i64::MAX);
    assert_eq!(rotation_speed_of(i64::MIN, 1, 1), -i64::MAX);
}

#[test]
fn map_range_values() {
    assert_eq!(map_range(0, 0, 127, 920_000, 1_080_000), 920_000);
    assert_eq!(map_range(127, 0, 127, 920_000, 1_080_000), 1_080_000);
    assert_eq!(map_range(64, 0, 127, 920_000, 1_080_000), 1_000_629);
    assert_eq!(map_range(5, 0, 10, -100, 100), 0);
}
