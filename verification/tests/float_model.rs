use shippingservice::binary64::{
    floor_i64, hundredfold_mod_hundred, is_finite_non_negative_number,
};
use shippingservice::quote::{create_quote_from_float, Quote};

/// The quote as floating-point hardware gives it, for a total whose
/// hundredfold is below 2^127.
fn native_quote(value: f64) -> Quote {
    Quote {
        dollars: value.floor() as i64,
        cents: (((value * 100_f64).floor() as u128) % 100) as i32,
    }
}

fn within_reach(value: f64) -> bool {
    value.is_finite() && (value * 100_f64).abs() < 1.0e38
}

fn next_random(state: &mut u64) -> u64 {
    *state ^= *state << 13;
    *state ^= *state >> 7;
    *state ^= *state << 17;
    *state
}

#[test]
fn floor_matches_hardware_on_chosen_values() {
    let values: Vec<f64> = vec![
        0.0, -0.0, 0.5, -0.5, 1.0, -1.0, 1.5, -1.5, 8.99, 17.98, 26.97, 0.29, 0.57, 1.15,
        4.35, 1e-320, -1e-320, 5e-324, -5e-324, 2.2250738585072014e-308, 1e300, -1e300,
        9007199254740992.0, 9007199254740993.0, -9007199254740992.0, 4503599627370496.5,
        9223372036854775807.0, -9223372036854775808.0, 9223372036854774784.0,
        -9223372036854777856.0, 1.8446744073709552e19, f64::MAX, f64::MIN, f64::INFINITY,
        f64::NEG_INFINITY, f64::NAN, f64::MIN_POSITIVE, f64::EPSILON, 0.9999999999999999,
        -0.9999999999999999, 2147483647.0, 2147483648.0, -2147483648.0, -2147483649.0,
        21474836.47, 21474836.48, -21474836.48, -21474836.49, 21474836.475,
    ];
    for value in values {
        assert_eq!(floor_i64(value.to_bits()), value.floor() as i64, "floor of {}", value);
    }
}

#[test]
fn hundredfold_matches_hardware_on_chosen_values() {
    let values: Vec<f64> = vec![
        0.0, -0.0, 0.5, -0.5, 1.0, -1.0, 1.5, -1.5, 8.99, 17.98, 26.97, 0.29, 0.57, 1.15,
        4.35, 1e-320, -1e-320, 5e-324, -5e-324, 2.2250738585072014e-308, 1e30, -1e30,
        9007199254740992.0, 9007199254740993.0, -9007199254740992.0, 4503599627370496.5,
        4503599627370495.5, f64::MIN_POSITIVE, f64::EPSILON, 0.009999999999999998, 0.01,
        0.010000000000000002, 2147483647.0, 21474836.47, 21474836.48, -21474836.48,
        -21474836.49, 21474836.475, 0.005, 0.015, 0.025, 1.005, 2.675, 1e15, 1e16,
        30000000.25, 123456789012.34, 1000000000000000.5, 3.0e18, 9.3e18, 1.0e35,
    ];
    for value in values {
        assert_eq!(
            hundredfold_mod_hundred(value.to_bits()) as u128,
            ((value * 100_f64).abs().floor() as u128) % 100,
            "hundredfold of {}",
            value
        );
    }
}

#[test]
fn hundredfold_beyond_the_hardware_range_keeps_rounding() {
    // The largest double times 100 is beyond the format; rounded to 53 bits
    // it is 0x1c1fffffffffff8 * 2^978 * 2^-3, which ends in 56.
    assert_eq!(hundredfold_mod_hundred(f64::MAX.to_bits()), 56);
    assert_eq!(hundredfold_mod_hundred(1e300_f64.to_bits()), 56);
    assert_eq!(hundredfold_mod_hundred((2.0_f64).powi(100).to_bits()), 0);
}

#[test]
fn quote_matches_hardware_on_every_cent_up_to_a_thousand_dollars() {
    for cents in 0..100_000u32 {
        let value: f64 = (cents as f64) / 100_f64;
        assert_eq!(create_quote_from_float(value.to_bits()), native_quote(value));
    }
}

#[test]
fn quote_matches_hardware_on_multiples_of_the_flat_rate() {
    for count in 0..200_000u32 {
        let value: f64 = (count as f64) * 8.99_f64;
        assert_eq!(create_quote_from_float(value.to_bits()), native_quote(value));
    }
    for step in 0..2_000u32 {
        let count: u32 = u32::MAX - step * 2_000_000;
        let value: f64 = (count as f64) * 8.99_f64;
        assert_eq!(create_quote_from_float(value.to_bits()), native_quote(value), "{}", count);
    }
}

#[test]
fn quote_matches_hardware_on_random_patterns() {
    let mut state: u64 = 0x9e37_79b9_7f4a_7c15;
    let mut compared: u32 = 0;
    for _ in 0..600_000u32 {
        let bits: u64 = next_random(&mut state) >> 1;
        let value: f64 = f64::from_bits(bits);
        assert_eq!(is_finite_non_negative_number(bits), value.is_finite());
        if within_reach(value) {
            assert_eq!(create_quote_from_float(bits), native_quote(value), "pattern {:#x}", bits);
            compared += 1;
        }
    }
    assert!(compared > 200_000);
}

#[test]
fn quote_matches_hardware_on_random_prices() {
    let mut state: u64 = 0x2545_f491_4f6c_dd1d;
    for _ in 0..300_000u32 {
        let raw: u64 = next_random(&mut state);
        let value: f64 = (raw % 1_000_000_000_000) as f64 / 1000_f64;
        assert_eq!(create_quote_from_float(value.to_bits()), native_quote(value), "{}", value);
    }
}

#[test]
fn quote_matches_hardware_on_random_large_prices() {
    let mut state: u64 = 0x1234_5678_9abc_def1;
    for _ in 0..300_000u32 {
        let raw: u64 = next_random(&mut state);
        let value: f64 = (raw % 1_000_000_000_000_000_000) as f64 / 64_f64;
        assert_eq!(create_quote_from_float(value.to_bits()), native_quote(value), "{}", value);
    }
}

#[test]
fn only_finite_numbers_not_below_zero_are_prices() {
    for value in [0.0, -0.0, 5e-324, 8.99, f64::MAX] {
        assert!(is_finite_non_negative_number(value.to_bits()), "{}", value);
    }
    for value in [-5e-324, -8.99, f64::MIN, f64::INFINITY, f64::NEG_INFINITY, f64::NAN, -f64::NAN]
    {
        assert!(!is_finite_non_negative_number(value.to_bits()), "{}", value);
    }
}

#[test]
fn dollars_grow_with_the_total() {
    let mut state: u64 = 0x0123_4567_89ab_cdef;
    for _ in 0..200_000u32 {
        let first: u64 = next_random(&mut state) >> 1;
        let second: u64 = next_random(&mut state) >> 1;
        let (smaller, larger) = if first <= second { (first, second) } else { (second, first) };
        if !is_finite_non_negative_number(larger) {
            continue;
        }
        assert!(f64::from_bits(smaller) <= f64::from_bits(larger));
        assert!(
            create_quote_from_float(smaller).dollars <= create_quote_from_float(larger).dollars
        );
    }
    let mut previous: i64 = 0;
    for count in 0..100_000u32 {
        let dollars = create_quote_from_float(((count as f64) * 8.99_f64).to_bits()).dollars;
        assert!(previous <= dollars);
        previous = dollars;
    }
}
