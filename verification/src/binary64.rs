//! IEEE 754 binary64 numbers, read from their 64-bit patterns.
//!
//! A price arrives as a double-precision number. Everything the service needs
//! from such a number (its floor, and the last two digits of its hundredfold)
//! is computed here on the bit pattern with integer arithmetic only, and is
//! proved equal to the mathematical definition of the format: a finite pattern
//! stands for `±significand × 2^exponent`.

use vstd::prelude::*;
use vstd::arithmetic::div_mod::{
    lemma_div_by_multiple, lemma_div_denominator, lemma_div_is_ordered,
    lemma_mul_mod_noop_general, lemma_mul_mod_noop_right,
};
use vstd::arithmetic::mul::{lemma_mul_inequality, lemma_mul_is_associative};
use vstd::arithmetic::power2::{
    pow2, lemma2_to64, lemma2_to64_rest, lemma_pow2_adds, lemma_pow2_pos,
    lemma_pow2_strictly_increases, lemma_pow2_unfold,
};
use vstd::bits::{lemma_u64_shl_is_mul, lemma_u64_pow2_no_overflow};

verus! {

/// The pattern's top bit: set for negative numbers.
pub const SIGN_BIT: u64 = 0x8000_0000_0000_0000;

/// 2^52: the implicit leading bit of a normal significand.
pub const HIDDEN_BIT: u64 = 0x0010_0000_0000_0000;

/// 2^53: one more than the largest significand.
pub const SIGNIFICAND_LIMIT: u64 = 0x0020_0000_0000_0000;

/// The biased exponent that marks infinities and NaNs.
pub const EXPONENT_SPECIAL: u64 = 2047;

/// Whether the sign bit is set.
pub open spec fn is_negative(bits: u64) -> bool {
    bits >= SIGN_BIT
}

/// The eleven exponent bits, as a number.
pub open spec fn biased_exponent(bits: u64) -> nat {
    ((bits / HIDDEN_BIT) % 2048) as nat
}

/// The low 52 bits, as a number.
pub open spec fn fraction(bits: u64) -> nat {
    (bits % HIDDEN_BIT) as nat
}

/// Not a number.
pub open spec fn is_nan(bits: u64) -> bool {
    biased_exponent(bits) == EXPONENT_SPECIAL && fraction(bits) != 0
}

/// Positive or negative infinity.
pub open spec fn is_infinite(bits: u64) -> bool {
    biased_exponent(bits) == EXPONENT_SPECIAL && fraction(bits) == 0
}

/// Neither an infinity nor a NaN.
pub open spec fn is_finite(bits: u64) -> bool {
    biased_exponent(bits) < EXPONENT_SPECIAL
}

/// The integer `m` of a finite pattern's magnitude `m × 2^e`.
pub open spec fn significand(bits: u64) -> nat {
    if biased_exponent(bits) == 0 {
        fraction(bits)
    } else {
        HIDDEN_BIT as nat + fraction(bits)
    }
}

/// The integer `e` of a finite pattern's magnitude `m × 2^e`.
pub open spec fn exponent(bits: u64) -> int {
    if biased_exponent(bits) == 0 {
        -1074
    } else {
        biased_exponent(bits) - 1075
    }
}

/// A finite number that is not below zero (negative zero counts as zero).
pub open spec fn is_finite_non_negative(bits: u64) -> bool {
    is_finite(bits) && (!is_negative(bits) || significand(bits) == 0)
}

/// `floor(m × 2^e)`.
pub open spec fn scaled_floor(m: nat, e: int) -> nat {
    if e >= 0 {
        m * pow2(e as nat)
    } else {
        m / pow2((-e) as nat)
    }
}

/// Whether `m × 2^e` is an integer.
pub open spec fn scaled_is_integer(m: nat, e: int) -> bool {
    e >= 0 || m % pow2((-e) as nat) == 0
}

/// The largest integer that is not above the number a finite pattern stands for.
pub open spec fn floor_of(bits: u64) -> int {
    let m: nat = significand(bits);
    let e: int = exponent(bits);
    if !is_negative(bits) {
        scaled_floor(m, e) as int
    } else if scaled_is_integer(m, e) {
        -(scaled_floor(m, e) as int)
    } else {
        -(scaled_floor(m, e) as int) - 1
    }
}

/// The `i64` nearest to an integer.
pub open spec fn saturate_i64(v: int) -> i64 {
    if v < i64::MIN {
        i64::MIN
    } else if v > i64::MAX {
        i64::MAX
    } else {
        v as i64
    }
}

/// The floor of the number, converted to `i64` the way a float-to-integer
/// conversion does: NaN becomes 0, and what lies outside the range becomes the
/// nearest bound.
pub open spec fn floor_to_i64(bits: u64) -> i64 {
    if is_nan(bits) {
        0
    } else if is_infinite(bits) {
        if is_negative(bits) {
            i64::MIN
        } else {
            i64::MAX
        }
    } else {
        saturate_i64(floor_of(bits))
    }
}

/// How many low bits `p` has beyond the 53 that a significand holds.
pub open spec fn excess_bits(p: nat) -> nat
    decreases p,
{
    if p < SIGNIFICAND_LIMIT {
        0
    } else {
        1 + excess_bits(p / 2)
    }
}

/// `p / 2^k`, rounded to the nearest integer, a tie going to the even one.
pub open spec fn round_half_even(p: nat, k: nat) -> nat {
    let q: nat = p / pow2(k);
    let r: nat = p % pow2(k);
    if 2 * r > pow2(k) || (2 * r == pow2(k) && q % 2 == 1) {
        q + 1
    } else {
        q
    }
}

/// The magnitude of the product of a finite number and 100, as double-precision
/// multiplication rounds it, with its fractional part dropped.
///
/// The exact product is `100 × m × 2^e`. Its `k` excess bits are rounded away
/// (to nearest, ties to even), which leaves `r × 2^(e + k)`; of that the
/// integer part is taken. Where the product is too large for the format, this
/// is the integer that the same rounding gives with no bound on the exponent.
pub open spec fn hundredfold_magnitude(bits: u64) -> nat
    recommends
        is_finite(bits),
{
    let p: nat = 100 * significand(bits);
    let k: nat = excess_bits(p);
    scaled_floor(round_half_even(p, k), exponent(bits) + k)
}

proof fn lemma_pow2_at_least(s: nat, low: nat)
    requires
        low <= s,
    ensures
        pow2(low) <= pow2(s),
{
    if low < s {
        lemma_pow2_strictly_increases(low, s);
    }
}

proof fn lemma_scaled_up_is_large(m: nat, e: nat, low: nat)
    requires
        low <= e,
    ensures
        m * pow2(e) >= m * pow2(low),
{
    lemma_pow2_at_least(e, low);
    let a: nat = pow2(low);
    let b: nat = pow2(e);
    assert(m * b >= m * a) by (nonlinear_arith)
        requires
            a <= b,
    ;
}

proof fn lemma_small_over_large(m: nat, s: nat)
    requires
        m < pow2(54),
        s >= 54,
    ensures
        m / pow2(s) == 0,
        m % pow2(s) == m,
{
    lemma_pow2_at_least(s, 54);
    let d: nat = pow2(s);
    assert(m / d == 0 && m % d == m) by (nonlinear_arith)
        requires
            m < d,
    ;
}

/// The floor of a finite number that is not below zero is not below zero.
pub proof fn lemma_non_negative(bits: u64)
    requires
        is_finite_non_negative(bits),
    ensures
        floor_of(bits) == scaled_floor(significand(bits), exponent(bits)),
        floor_of(bits) >= 0,
        floor_to_i64(bits) >= 0,
{
    if is_negative(bits) {
        let e: int = exponent(bits);
        if e < 0 {
            let d: nat = pow2((-e) as nat);
            lemma_pow2_pos((-e) as nat);
            assert(0nat / d == 0 && 0nat % d == 0) by (nonlinear_arith)
                requires
                    d > 0,
            ;
        } else {
            let d: nat = pow2(e as nat);
            assert(0 * d == 0) by (nonlinear_arith);
        }
    }
}

/// Whether the number of one finite pattern is at most that of another, signs
/// aside: the significands are compared once both stand at the smaller of the
/// two exponents.
pub open spec fn magnitude_le(a: u64, b: u64) -> bool {
    let d: int = exponent(b) - exponent(a);
    if d >= 0 {
        significand(a) <= significand(b) * pow2(d as nat)
    } else {
        significand(a) * pow2((-d) as nat) <= significand(b)
    }
}

proof fn lemma_scaled_floor_grows(m: nat, n: nat, e: int)
    requires
        m <= n,
    ensures
        scaled_floor(m, e) <= scaled_floor(n, e),
{
    if e >= 0 {
        lemma_mul_inequality(m as int, n as int, pow2(e as nat) as int);
    } else {
        lemma_pow2_pos((-e) as nat);
        lemma_div_is_ordered(m as int, n as int, pow2((-e) as nat) as int);
    }
}

/// `floor((m × 2^d) × 2^e)` is `floor(m × 2^(e + d))`.
proof fn lemma_scaled_floor_shifts(m: nat, d: nat, e: int)
    ensures
        scaled_floor(m * pow2(d), e) == scaled_floor(m, e + d),
{
    lemma_pow2_pos(d);
    if e >= 0 {
        lemma_pow2_adds(d, e as nat);
        lemma_mul_is_associative(m as int, pow2(d) as int, pow2(e as nat) as int);
    } else if e + d >= 0 {
        let low: nat = (-e) as nat;
        let high: nat = (e + d) as nat;
        lemma_pow2_pos(low);
        lemma_pow2_adds(high, low);
        lemma_mul_is_associative(m as int, pow2(high) as int, pow2(low) as int);
        lemma_div_by_multiple((m * pow2(high)) as int, pow2(low) as int);
    } else {
        let rest: nat = (-(e + d)) as nat;
        lemma_pow2_pos(rest);
        lemma_pow2_adds(d, rest);
        lemma_div_denominator((m * pow2(d)) as int, pow2(d) as int, pow2(rest) as int);
        lemma_div_by_multiple(m as int, pow2(d) as int);
    }
}

/// The floor of a finite number that is not below zero grows with the number.
pub proof fn lemma_floor_grows(a: u64, b: u64)
    requires
        is_finite_non_negative(a),
        is_finite_non_negative(b),
        magnitude_le(a, b),
    ensures
        floor_of(a) <= floor_of(b),
        floor_to_i64(a) <= floor_to_i64(b),
{
    lemma_non_negative(a);
    lemma_non_negative(b);
    let d: int = exponent(b) - exponent(a);
    if d >= 0 {
        lemma_scaled_floor_grows(
            significand(a),
            significand(b) * pow2(d as nat),
            exponent(a),
        );
        lemma_scaled_floor_shifts(significand(b), d as nat, exponent(a));
    } else {
        lemma_scaled_floor_grows(
            significand(a) * pow2((-d) as nat),
            significand(b),
            exponent(b),
        );
        lemma_scaled_floor_shifts(significand(a), (-d) as nat, exponent(b));
    }
}

proof fn lemma_excess_bits_of_product(p: nat)
    ensures
        p < 0x0020_0000_0000_0000 ==> excess_bits(p) == 0,
        p < 0x0800_0000_0000_0000 ==> excess_bits(p) <= 6,
        0x0400_0000_0000_0000 <= p < 0x0800_0000_0000_0000 ==> excess_bits(p) == 6,
        0x0800_0000_0000_0000 <= p < 0x1000_0000_0000_0000 ==> excess_bits(p) == 7,
{
    reveal_with_fuel(excess_bits, 9);
}

/// Rounding away the excess bits leaves at most 53 bits, or exactly 2^53.
proof fn lemma_rounded_bound(p: nat)
    ensures
        p / pow2(excess_bits(p)) < SIGNIFICAND_LIMIT,
        round_half_even(p, excess_bits(p)) <= SIGNIFICAND_LIMIT,
    decreases p,
{
    if p < SIGNIFICAND_LIMIT {
        lemma2_to64();
    } else {
        let k: nat = excess_bits(p / 2);
        lemma_rounded_bound(p / 2);
        lemma_pow2_pos(k);
        lemma_pow2_unfold(k + 1);
        lemma_div_denominator(p as int, 2, pow2(k) as int);
    }
}

/// 2^s as a machine integer.
fn power_of_two(s: u64) -> (d: u64)
    requires
        s < 64,
    ensures
        d == pow2(s as nat),
        d >= 1,
{
    proof {
        lemma_u64_pow2_no_overflow(s as nat);
        lemma_u64_shl_is_mul(1u64, s);
    }
    1u64 << s
}

/// Tells whether a pattern is a finite number that is not below zero.
pub fn is_finite_non_negative_number(bits: u64) -> (yes: bool)
    ensures
        yes == is_finite_non_negative(bits),
{
    let biased: u64 = (bits / HIDDEN_BIT) % 2048;
    let frac: u64 = bits % HIDDEN_BIT;
    biased != EXPONENT_SPECIAL && (bits < SIGN_BIT || (biased == 0 && frac == 0))
}

/// The floor of a double, converted to `i64` with saturation.
pub fn floor_i64(bits: u64) -> (r: i64)
    ensures
        r == floor_to_i64(bits),
{
    let negative: bool = bits >= SIGN_BIT;
    let biased: u64 = (bits / HIDDEN_BIT) % 2048;
    let frac: u64 = bits % HIDDEN_BIT;
    if biased == EXPONENT_SPECIAL {
        if frac != 0 {
            return 0;
        }
        return if negative { i64::MIN } else { i64::MAX };
    }
    if biased == 0 {
        // Subnormal or zero: the magnitude is below 1.
        proof {
            lemma2_to64_rest();
            lemma_small_over_large(frac as nat, 1074);
        }
        return if negative && frac != 0 { -1 } else { 0 };
    }
    let m: u64 = HIDDEN_BIT + frac;
    if biased >= 1075 {
        let up: u64 = biased - 1075;
        if up >= 11 {
            proof {
                lemma2_to64();
                lemma_scaled_up_is_large(m as nat, up as nat, 11);
            }
            return if negative { i64::MIN } else { i64::MAX };
        }
        proof {
            lemma2_to64();
            lemma_pow2_at_least(10, up as nat);
            let d: nat = pow2(up as nat);
            assert(m * d <= 0x001f_ffff_ffff_ffff * 1024) by (nonlinear_arith)
                requires
                    m <= 0x001f_ffff_ffff_ffff,
                    d <= 1024,
            ;
            lemma_u64_shl_is_mul(m, up);
        }
        let v: u64 = m << up;
        return if negative { -(v as i64) } else { v as i64 };
    }
    let down: u64 = 1075 - biased;
    if down >= 54 {
        proof {
            lemma2_to64_rest();
            lemma_small_over_large(m as nat, down as nat);
        }
        return if negative { -1 } else { 0 };
    }
    let d: u64 = power_of_two(down);
    let q: u64 = m / d;
    let rest: u64 = m % d;
    if !negative {
        q as i64
    } else if rest == 0 {
        -(q as i64)
    } else {
        -(q as i64) - 1
    }
}

/// 2^e modulo 100.
fn pow2_mod_hundred(e: u64) -> (r: u64)
    ensures
        r == pow2(e as nat) % 100,
        r < 100,
{
    let mut r: u64 = 1;
    let mut i: u64 = 0;
    proof {
        lemma2_to64();
    }
    while i < e
        invariant
            i <= e,
            r == pow2(i as nat) % 100,
        decreases e - i,
    {
        proof {
            lemma_pow2_unfold((i + 1) as nat);
            lemma_mul_mod_noop_right(2, pow2(i as nat) as int, 100);
        }
        r = (2 * r) % 100;
        i += 1;
    }
    r
}

/// The last two decimal digits of the integer part of a double times 100, the
/// product rounded as the multiplication rounds.
pub fn hundredfold_mod_hundred(bits: u64) -> (r: u64)
    requires
        is_finite(bits),
    ensures
        r == hundredfold_magnitude(bits) % 100,
{
    let biased: u64 = (bits / HIDDEN_BIT) % 2048;
    let frac: u64 = bits % HIDDEN_BIT;
    if biased == 0 {
        // Subnormal or zero: a hundred times it is still far below 1.
        proof {
            let p: nat = 100 * (frac as nat);
            let k: nat = excess_bits(p);
            lemma_excess_bits_of_product(p);
            lemma_rounded_bound(p);
            lemma2_to64_rest();
            lemma_small_over_large(round_half_even(p, k), (1074 - k) as nat);
        }
        return 0;
    }
    let m: u64 = HIDDEN_BIT + frac;
    let p: u64 = 100 * m;
    let k: u64 = if p < 0x0800_0000_0000_0000 { 6 } else { 7 };
    let unit: u64 = if k == 6 { 64 } else { 128 };
    let q: u64 = p / unit;
    let rest: u64 = p % unit;
    let rounded: u64 = if 2 * rest > unit || (2 * rest == unit && q % 2 == 1) {
        q + 1
    } else {
        q
    };
    proof {
        lemma2_to64();
        lemma_excess_bits_of_product(p as nat);
        assert(excess_bits(p as nat) == k);
        assert(pow2(k as nat) == unit);
        assert(rounded == round_half_even(p as nat, k as nat));
        assert(HIDDEN_BIT <= rounded <= SIGNIFICAND_LIMIT);
    }
    if biased + k >= 1075 {
        // The product is an integer: the rounded significand times a power of two.
        let up: u64 = biased + k - 1075;
        let factor: u64 = pow2_mod_hundred(up);
        let low: u64 = rounded % 100;
        proof {
            lemma_mul_mod_noop_general(rounded as int, pow2(up as nat) as int, 100);
            assert(low * factor <= 99 * 99) by (nonlinear_arith)
                requires
                    low <= 99,
                    factor <= 99,
            ;
        }
        return (low * factor) % 100;
    }
    let down: u64 = 1075 - (biased + k);
    if down >= 54 {
        proof {
            lemma2_to64_rest();
            lemma_small_over_large(rounded as nat, down as nat);
        }
        return 0;
    }
    let d: u64 = power_of_two(down);
    (rounded / d) % 100
}

} // verus!
