use soccer_strategy::fixed_point::{clamp_to_coordinate, integer_sqrt, scale};

#[test]
fn integer_sqrt_of_small_numbers() {
    let expected = [0u64, 1, 1, 1, 2, 2, 2, 2, 2, 3, 3];
    for (n, root) in expected.iter().enumerate() {
        assert_eq!(integer_sqrt(n as u128), *root, "n = {}", n);
    }
}

#[test]
fn integer_sqrt_around_perfect_squares() {
    assert_eq!(integer_sqrt(24), 4);
    assert_eq!(integer_sqrt(25), 5);
    assert_eq!(integer_sqrt(26), 5);
    assert_eq!(integer_sqrt(999_999), 999);
    assert_eq!(integer_sqrt(1_000_000), 1000);
    let big = 4_294_967_295u128;
    assert_eq!(integer_sqrt(big * big - 1), 4_294_967_294);
    assert_eq!(integer_sqrt(big * big), 4_294_967_295);
    assert_eq!(integer_sqrt(2 * big * big), 6_074_000_998);
}

#[test]
fn integer_sqrt_of_the_largest_number() {
    assert_eq!(integer_sqrt(u128::MAX), u64::MAX);
    let root = u64::MAX as u128;
    assert_eq!(integer_sqrt(root * root), u64::MAX);
    assert_eq!(integer_sqrt(root * root - 1), u64::MAX - 1);
}

#[test]
fn scale_rounds_towards_zero() {
    assert_eq!(scale(7, 1, 2), 3);
    assert_eq!(scale(-7, 1, 2), -3);
    assert_eq!(scale(1, 999_999, 1_000_000), 0);
    assert_eq!(scale(-1, 999_999, 1_000_000), 0);
    assert_eq!(scale(600, 16_667, 1_000_000), 10);
    assert_eq!(scale(-600, 16_667, 1_000_000), -10);
    assert_eq!(scale(0, 5, 3), 0);
    assert_eq!(scale(5, 0, 3), 0);
}

#[test]
fn scale_handles_the_widest_operands() {
    assert_eq!(scale(i64::MAX, u64::MAX, 1), (i64::MAX as i128) * (u64::MAX as i128));
    assert_eq!(scale(i64::MIN, u64::MAX, 1), (i64::MIN as i128) * (u64::MAX as i128));
    assert_eq!(scale(i64::MIN, u64::MAX, u64::MAX), i64::MIN as i128);
    assert_eq!(scale(i64::MIN, 1, u64::MAX), 0);
}

#[test]
fn clamp_keeps_values_in_range() {
    assert_eq!(clamp_to_coordinate(0), 0);
    assert_eq!(clamp_to_coordinate(-12345), -12345);
    assert_eq!(clamp_to_coordinate(i32::MAX as i128), i32::MAX);
    assert_eq!(clamp_to_coordinate(i32::MIN as i128), i32::MIN);
}

#[test]
fn clamp_stops_at_the_bounds() {
    assert_eq!(clamp_to_coordinate(i32::MAX as i128 + 1), i32::MAX);
    assert_eq!(clamp_to_coordinate(i32::MIN as i128 - 1), i32::MIN);
    assert_eq!(clamp_to_coordinate(i128::MAX), i32::MAX);
    assert_eq!(clamp_to_coordinate(i128::MIN), i32::MIN);
}
