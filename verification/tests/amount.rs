use solana_wallet::amount::lamports_from_bits;

fn by_float(amount: f64) -> u64 {
    (amount * 1_000_000_000u64 as f64) as u64
}

fn check(amount: f64) {
    assert_eq!(lamports_from_bits(amount.to_bits()), by_float(amount), "amount {:e}", amount);
}

#[test]
fn conversion_truncates_below_the_atomic_unit() {
    assert_eq!(lamports_from_bits(1.0000000009f64.to_bits()), 1_000_000_000);
    assert_ne!(lamports_from_bits(1.0000000009f64.to_bits()), 1_000_000_001);
}

#[test]
fn conversion_of_plain_amounts() {
    assert_eq!(lamports_from_bits(0.0f64.to_bits()), 0);
    assert_eq!(lamports_from_bits(1.0f64.to_bits()), 1_000_000_000);
    assert_eq!(lamports_from_bits(2.5f64.to_bits()), 2_500_000_000);
    assert_eq!(lamports_from_bits(0.000000001f64.to_bits()), 1);
    assert_eq!(lamports_from_bits(0.0000000005f64.to_bits()), 0);
    assert_eq!(lamports_from_bits(123456.789f64.to_bits()), 123_456_789_000_000);
}

#[test]
fn conversion_is_the_same_on_each_call() {
    let bits = 0.1f64.to_bits();
    assert_eq!(lamports_from_bits(bits), lamports_from_bits(bits));
    assert_eq!(lamports_from_bits(bits), 100_000_000);
}

#[test]
fn conversion_of_amounts_that_are_no_amounts() {
    assert_eq!(lamports_from_bits(f64::NAN.to_bits()), 0);
    assert_eq!(lamports_from_bits((-f64::NAN).to_bits()), 0);
    assert_eq!(lamports_from_bits(f64::INFINITY.to_bits()), u64::MAX);
    assert_eq!(lamports_from_bits(f64::NEG_INFINITY.to_bits()), 0);
    assert_eq!(lamports_from_bits((-1.5f64).to_bits()), 0);
    assert_eq!(lamports_from_bits((-0.0f64).to_bits()), 0);
    assert_eq!(lamports_from_bits(f64::MAX.to_bits()), u64::MAX);
    assert_eq!(lamports_from_bits(1e300f64.to_bits()), u64::MAX);
    assert_eq!(lamports_from_bits(f64::MIN_POSITIVE.to_bits()), 0);
    assert_eq!(lamports_from_bits(5e-324f64.to_bits()), 0);
}

#[test]
fn conversion_saturates_at_the_largest_amount() {
    // 2^64 atomic units are about 18446744073.7 units
    check(18446744073.0);
    check(18446744073.709551);
    check(18446744073.709553);
    check(18446744074.0);
    check(18446744073709551616.0);
    assert_eq!(lamports_from_bits(18446744074.0f64.to_bits()), u64::MAX);
}

#[test]
fn conversion_agrees_with_the_float_product_on_awkward_decimals() {
    for amount in [
        0.29, 0.57, 0.07, 1.1, 2.675, 4.35, 0.1 + 0.2, 1.005, 8.2, 19.99, 0.999999999,
        0.9999999999, 0.99999999999999989, 1.0000000000000002, 9007199254.740992,
        9007199254.740993, 4503599627.370496, 0.3333333333333333, 1e-9, 1.5e-9, 2.5e-9,
        3.5e-9, 1e-10, 9.999999999e-10, 1e9, 1e10, 123456789.123456789, 0.000123456789,
    ] {
        check(amount);
    }
}

#[test]
fn conversion_agrees_with_the_float_product_on_many_bit_patterns() {
    let mut state: u64 = 0x9E37_79B9_7F4A_7C15;
    for _ in 0..200_000 {
        state ^= state << 13;
        state ^= state >> 7;
        state ^= state << 17;
        check(f64::from_bits(state));
        // the same significand with an exponent near the amounts in use
        let near = (state & 0x000F_FFFF_FFFF_FFFF) | ((1023 - 40 + (state >> 58)) << 52);
        check(f64::from_bits(near));
    }
}

#[test]
fn conversion_agrees_with_the_float_product_around_rounding_ties() {
    for whole in 0..2000u64 {
        for step in 0..64u64 {
            let amount = whole as f64 + step as f64 / 64.0 + 1e-9 * step as f64;
            check(amount);
            check(f64::from_bits(amount.to_bits() + 1));
            check(f64::from_bits(amount.to_bits().wrapping_sub(1)));
        }
    }
}
