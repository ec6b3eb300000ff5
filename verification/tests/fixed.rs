use sprite_anim::fixed::{displace, nudge, pixel_position, round_to_pixel, SUBPIXELS};

#[test]
fn a_pixel_has_a_thousand_subpixels() {
    assert_eq!(SUBPIXELS, 1000);
    assert_eq!(pixel_position(0), 0);
    assert_eq!(pixel_position(64), 64_000);
    assert_eq!(pixel_position(-7), -7_000);
    assert_eq!(pixel_position(i32::MAX), i32::MAX as i64 * 1000);
    assert_eq!(pixel_position(i32::MIN), i32::MIN as i64 * 1000);
}

#[test]
fn rounding_is_to_the_nearest_pixel_halves_away_from_zero() {
    assert_eq!(round_to_pixel(0), 0);
    assert_eq!(round_to_pixel(499), 0);
    assert_eq!(round_to_pixel(500), 1);
    assert_eq!(round_to_pixel(1_499), 1);
    assert_eq!(round_to_pixel(1_500), 2);
    assert_eq!(round_to_pixel(2_500), 3);
    assert_eq!(round_to_pixel(-499), 0);
    assert_eq!(round_to_pixel(-500), -1);
    assert_eq!(round_to_pixel(-1_499), -1);
    assert_eq!(round_to_pixel(-1_500), -2);
    assert_eq!(round_to_pixel(-2_500), -3);
    assert_eq!(round_to_pixel(64_300), 64);
    assert_eq!(round_to_pixel(64_600), 65);
}

#[test]
fn rounding_undoes_pixel_position() {
    for px in [0, 1, -1, 64, 112, i32::MAX, i32::MIN, i32::MAX - 1, i32::MIN + 1] {
        assert_eq!(round_to_pixel(pixel_position(px)), px);
    }
}

#[test]
fn rounding_saturates_at_the_pixel_range() {
    let max = i32::MAX as i64 * 1000;
    let min = i32::MIN as i64 * 1000;
    assert_eq!(round_to_pixel(max + 499), i32::MAX);
    assert_eq!(round_to_pixel(max + 500), i32::MAX);
    assert_eq!(round_to_pixel(max - 500), i32::MAX);
    assert_eq!(round_to_pixel(max - 501), i32::MAX - 1);
    assert_eq!(round_to_pixel(min - 499), i32::MIN);
    assert_eq!(round_to_pixel(min - 500), i32::MIN);
    assert_eq!(round_to_pixel(min + 500), i32::MIN);
    assert_eq!(round_to_pixel(min + 501), i32::MIN + 1);
    assert_eq!(round_to_pixel(i64::MAX), i32::MAX);
    assert_eq!(round_to_pixel(i64::MIN), i32::MIN);
    assert_eq!(round_to_pixel(i64::MIN + 1), i32::MIN);
}

#[test]
fn displace_adds_velocity_times_time() {
    assert_eq!(displace(0, 0, 0), 0);
    assert_eq!(displace(5, 0, u128::MAX), 5);
    assert_eq!(displace(5, i64::MAX, 0), 5);
    assert_eq!(displace(64_000, 300, 10), 67_000);
    assert_eq!(displace(64_000, -300, 10), 61_000);
    assert_eq!(displace(-1, 1, 1), 0);
    assert_eq!(displace(i64::MIN, 1, i64::MAX as u128), -1);
    assert_eq!(displace(i64::MIN, 1, u64::MAX as u128), i64::MAX);
    assert_eq!(displace(i64::MAX, -1, u64::MAX as u128), i64::MIN);
    assert_eq!(displace(i64::MAX, -2, i64::MAX as u128), i64::MIN + 1);
}

#[test]
fn displace_saturates() {
    assert_eq!(displace(i64::MAX, 1, 1), i64::MAX);
    assert_eq!(displace(i64::MIN, -1, 1), i64::MIN);
    assert_eq!(displace(0, 1, u128::MAX), i64::MAX);
    assert_eq!(displace(0, -1, u128::MAX), i64::MIN);
    assert_eq!(displace(0, 1, 1u128 << 64), i64::MAX);
    assert_eq!(displace(i64::MAX, -1, 1u128 << 64), i64::MIN);
    assert_eq!(displace(i64::MIN, 1, 1u128 << 64), i64::MAX);
    assert_eq!(displace(0, i64::MAX, u64::MAX as u128), i64::MAX);
    assert_eq!(displace(0, i64::MIN, u64::MAX as u128), i64::MIN);
    assert_eq!(displace(i64::MAX, i64::MIN, 1), -1);
    assert_eq!(displace(i64::MIN, i64::MAX, 1), -1);
    assert_eq!(displace(i64::MIN, i64::MAX, 2), i64::MAX - 1);
    assert_eq!(displace(i64::MIN, i64::MAX, 3), i64::MAX);
}

#[test]
fn nudge_adds_and_saturates() {
    assert_eq!(nudge(64_000, 4_000), 68_000);
    assert_eq!(nudge(64_000, -4_000), 60_000);
    assert_eq!(nudge(i64::MAX - 1, 4_000), i64::MAX);
    assert_eq!(nudge(i64::MIN + 1, -4_000), i64::MIN);
    assert_eq!(nudge(i64::MAX, i64::MIN), -1);
    assert_eq!(nudge(i64::MIN, i64::MIN), i64::MIN);
    assert_eq!(nudge(i64::MAX, i64::MAX), i64::MAX);
}
