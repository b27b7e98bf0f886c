use solar_nbody::numeric::{isqrt, mul_div_floor, mul_div_signed, wide_mul};

#[test]
fn isqrt_small_values() {
    assert_eq!(isqrt(0), 0);
    assert_eq!(isqrt(1), 1);
    assert_eq!(isqrt(2), 1);
    assert_eq!(isqrt(3), 1);
    assert_eq!(isqrt(4), 2);
    assert_eq!(isqrt(10), 3);
    assert_eq!(isqrt(99), 9);
    assert_eq!(isqrt(100), 10);
}

#[test]
fn isqrt_large_values() {
    assert_eq!(isqrt(1_000_000_000_000_000_000_000_000_000_000_000_000), 1_000_000_000_000_000_000);
    assert_eq!(
        isqrt(999_999_999_999_999_999_999_999_999_999_999_999),
        999_999_999_999_999_999
    );
    // Squared earth-sun distance in milli-meters squared.
    let ssq = 22_380_160_000_000_000_000_000_000_000u128;
    let r = isqrt(ssq);
    assert_eq!(r, 149_600_000_000_000);
    assert!(r * r <= ssq && ssq < (r + 1) * (r + 1));
}

#[test]
fn wide_mul_splits_exactly() {
    assert_eq!(wide_mul(0, u128::MAX), (0, 0));
    assert_eq!(wide_mul(1, u128::MAX), (0, u128::MAX));
    assert_eq!(wide_mul(2, 1u128 << 127), (1, 0));
    assert_eq!(wide_mul(u128::MAX, u128::MAX), (u128::MAX - 1, 1));
}

#[test]
fn mul_div_floor_survives_wide_products() {
    // a * b overflows 128 bits; the quotient is exact.
    let a = 1_000_000_000_000_000_000_000_000_000_000u128; // 1e30
    let b = 100_000_000u128; // 1e8
    let d = 100_000_000_000_000_000_000u128; // 1e20
    assert_eq!(mul_div_floor(a, b, d), 1_000_000_000_000_000_000); // 1e18
    assert_eq!(mul_div_floor(u128::MAX, u128::MAX, u128::MAX), u128::MAX);
    assert_eq!(mul_div_floor(7, 9, 10), 6);
    assert_eq!(mul_div_floor(0, u128::MAX, 3), 0);
}

#[test]
fn mul_div_signed_truncates_toward_zero() {
    assert_eq!(mul_div_signed(7, 3, 2), 10);
    assert_eq!(mul_div_signed(-7, 3, 2), -10);
    assert_eq!(mul_div_signed(-1, 1, 2), 0);
    assert_eq!(mul_div_signed(1, 1, 2), 0);
    assert_eq!(mul_div_signed(-1_000_000, 644_444_444, 1_000_000), -644_444_444);
}
