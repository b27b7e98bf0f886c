//! Exact integer arithmetic the physics core is built on: truncating signed
//! division, a 256-bit-intermediate multiply-then-divide, and an integer
//! square root.
//!
//! Everything here is ordinary verified code; the contracts pin each result
//! to a mathematical function of the inputs.

use vstd::arithmetic::div_mod::{
    lemma_div_of0, lemma_div_pos_is_pos, lemma_fundamental_div_mod,
    lemma_fundamental_div_mod_converse, lemma_mod_division_less_than_divisor,
    lemma_multiply_divide_le, lemma_multiply_divide_lt,
};
use vstd::arithmetic::mul::lemma_mul_inequality;
use vstd::math::abs;
use vstd::prelude::*;

verus! {

/// 2^64, the limb base of the wide multiplication.
pub const TWO64: u128 = 0x1_0000_0000_0000_0000;

/// The value of a 256-bit quantity held as a high and a low 128-bit half.
pub open spec fn wide_val(hi: u128, lo: u128) -> int {
    hi * 0x1_0000_0000_0000_0000_0000_0000_0000_0000int + lo
}

/// Truncating division (rounding toward zero, as Rust's `/` does),
/// for a positive divisor.
pub open spec fn tdiv(x: int, d: int) -> int {
    if x >= 0 {
        x / d
    } else {
        -((-x) / d)
    }
}

/// `x * m / d` with the division truncated toward zero, for `m, d > 0`.
pub open spec fn tmuldiv(x: int, m: int, d: int) -> int {
    if x >= 0 {
        (x * m) / d
    } else {
        -(((-x) * m) / d)
    }
}

/// Floor of the square root: the largest `r` with `r * r <= s`.
pub open spec fn sqrt_floor(s: nat) -> nat
    decreases s,
{
    if s == 0 {
        0
    } else {
        let p = sqrt_floor((s - 1) as nat);
        if (p + 1) * (p + 1) <= s {
            p + 1
        } else {
            p
        }
    }
}

/// `sqrt_floor` is indeed the floor of the square root.
pub proof fn lemma_sqrt_floor_bounds(s: nat)
    ensures
        (sqrt_floor(s) as int) * (sqrt_floor(s) as int) <= s,
        s < (sqrt_floor(s) as int + 1) * (sqrt_floor(s) as int + 1),
    decreases s,
{
    if s > 0 {
        lemma_sqrt_floor_bounds((s - 1) as nat);
        let p = sqrt_floor((s - 1) as nat);
        let f = sqrt_floor(s);
        if (p + 1) * (p + 1) <= s {
            assert(f == p + 1);
            assert(((s - 1) as nat) < (p + 1) * (p + 1));
            assert(f * f <= s) by (nonlinear_arith)
                requires
                    f == p + 1 && (p + 1) * (p + 1) <= s,
            ;
            assert(s < (f + 1) * (f + 1)) by (nonlinear_arith)
                requires
                    f == p + 1 && s <= (p + 1) * (p + 1) && p >= 0,
            ;
        } else {
            assert(f == p);
            assert(p * p <= (s - 1) as nat);
            assert(f * f <= s) by (nonlinear_arith)
                requires
                    f == p && p * p <= s,
            ;
            assert(s < (f + 1) * (f + 1)) by (nonlinear_arith)
                requires
                    f == p && s < (p + 1) * (p + 1),
            ;
        }
    } else {
        assert(sqrt_floor(s) == 0);
    }
}

/// Any `r` inside the square-root window equals `sqrt_floor(s)`.
pub proof fn lemma_sqrt_floor_unique(s: nat, r: nat)
    requires
        (r as int) * (r as int) <= s,
        s < (r as int + 1) * (r as int + 1),
    ensures
        r == sqrt_floor(s),
{
    lemma_sqrt_floor_bounds(s);
    let f = sqrt_floor(s);
    if r < f {
        assert((r + 1) * (r + 1) <= f * f) by (nonlinear_arith)
            requires
                r + 1 <= f,
        ;
    }
    if f < r {
        assert((f + 1) * (f + 1) <= r * r) by (nonlinear_arith)
            requires
                f + 1 <= r,
        ;
    }
}

/// Integer square root by bisection.
pub fn isqrt(s: u128) -> (r: u128)
    requires
        s <= 1_000_000_000_000_000_000_000_000_000_000_000_000u128,
    ensures
        r == sqrt_floor(s as nat),
        r * r <= s < (r + 1) * (r + 1),
{
    let mut lo: u128 = 0;
    let mut hi: u128 = 1_000_000_000_000_000_001;
    proof {
        assert(s < hi * hi) by (nonlinear_arith)
            requires
                s <= 1_000_000_000_000_000_000_000_000_000_000_000_000u128
                    && hi == 1_000_000_000_000_000_001u128,
        ;
    }
    while lo + 1 < hi
        invariant
            lo < hi <= 1_000_000_000_000_000_001,
            lo * lo <= s,
            s < hi * hi,
        decreases hi - lo,
    {
        let mid = lo + (hi - lo) / 2;
        proof {
            assert(mid * mid <= 1_000_000_000_000_000_001u128 * 1_000_000_000_000_000_001u128)
                by (nonlinear_arith)
                requires
                    0 <= mid <= 1_000_000_000_000_000_001u128,
            ;
        }
        if mid * mid <= s {
            lo = mid;
        } else {
            hi = mid;
        }
    }
    proof {
        lemma_sqrt_floor_unique(s as nat, lo as nat);
    }
    lo
}

/// Full 256-bit product of two 128-bit values, as a high and a low half.
pub fn wide_mul(a: u128, b: u128) -> (r: (u128, u128))
    ensures
        wide_val(r.0, r.1) == a * b,
{
    let a1 = a / TWO64;
    let a0 = a % TWO64;
    let b1 = b / TWO64;
    let b0 = b % TWO64;
    proof {
        lemma_limb_bounds(a, a1, a0);
        lemma_limb_bounds(b, b1, b0);
        lemma_limb_product_bound(a0, b0);
        lemma_limb_product_bound(a1, b0);
        lemma_limb_product_bound(a0, b1);
        lemma_limb_product_bound(a1, b1);
    }
    let p00 = a0 * b0;
    let t1 = a1 * b0 + p00 / TWO64;
    let t2 = a0 * b1 + t1 % TWO64;
    let hi = a1 * b1 + t1 / TWO64 + t2 / TWO64;
    let lo = (t2 % TWO64) * TWO64 + p00 % TWO64;
    proof {
        let t = TWO64 as int;
        lemma_fundamental_div_mod(p00 as int, t);
        lemma_fundamental_div_mod(t1 as int, t);
        lemma_fundamental_div_mod(t2 as int, t);
        assert(wide_val(hi, lo) == a * b) by (nonlinear_arith)
            requires
                t == TWO64 as int,
                a == a1 * t + a0,
                b == b1 * t + b0,
                p00 == a0 * b0,
                p00 == t * (p00 as int / t) + p00 as int % t,
                t1 == a1 * b0 + p00 as int / t,
                t1 == t * (t1 as int / t) + t1 as int % t,
                t2 == a0 * b1 + t1 as int % t,
                t2 == t * (t2 as int / t) + t2 as int % t,
                hi == a1 * b1 + t1 as int / t + t2 as int / t,
                lo == (t2 as int % t) * t + p00 as int % t,
                wide_val(hi, lo) == hi * (t * t) + lo,
        ;
    }
    (hi, lo)
}

/// The two limbs of a 128-bit value are below 2^64.
proof fn lemma_limb_bounds(x: u128, x1: u128, x0: u128)
    requires
        x1 == x / TWO64,
        x0 == x % TWO64,
    ensures
        x1 < TWO64,
        x0 < TWO64,
        x == x1 * TWO64 + x0,
{
    lemma_multiply_divide_lt(x as int, TWO64 as int, TWO64 as int);
    lemma_fundamental_div_mod(x as int, TWO64 as int);
}

/// The product of two limbs fits in 128 bits with room for two more limbs.
proof fn lemma_limb_product_bound(x: u128, y: u128)
    requires
        x < TWO64,
        y < TWO64,
    ensures
        x * y <= (TWO64 - 1) * (TWO64 - 1),
{
    lemma_mul_inequality(x as int, TWO64 - 1, y as int);
    lemma_mul_inequality(y as int, TWO64 - 1, TWO64 - 1);
}

/// `a * b / (d as int)` (floor), exact even where `a * b` exceeds 128 bits.
pub fn mul_div_floor(a: u128, b: u128, d: u128) -> (q: u128)
    requires
        d > 0,
        a * b / (d as int) <= u128::MAX,
    ensures
        q == a * b / (d as int),
{
    let (hi, lo) = wide_mul(a, b);
    let ghost n: int = wide_val(hi, lo);
    proof {
        lemma_fundamental_div_mod(a * b, d as int);
        lemma_mod_division_less_than_divisor(a * b, d as int);
        assert((a * b / (d as int)) * d <= u128::MAX * d) by (nonlinear_arith)
            requires
                a * b / (d as int) <= u128::MAX && d > 0,
        ;
    }
    let mut qlo: u128 = 0;
    let mut qhi: u128 = u128::MAX;
    while qlo < qhi
        invariant
            n == wide_val(hi, lo),
            n == a * b,
            d > 0,
            qlo <= qhi,
            qlo * d <= n,
            n < qhi * d + d,
        decreases qhi - qlo,
    {
        let mid = qlo + (qhi - qlo - 1) / 2 + 1;
        let (mhi, mlo) = wide_mul(mid, d);
        let m_le_n: bool = mhi < hi || (mhi == hi && mlo <= lo);
        proof {
            assert(m_le_n == (wide_val(mhi, mlo) <= wide_val(hi, lo)));
        }
        if m_le_n {
            qlo = mid;
        } else {
            qhi = mid - 1;
            proof {
                assert((mid - 1) * d + d == mid * d) by (nonlinear_arith);
            }
        }
    }
    proof {
        lemma_fundamental_div_mod_converse(n, d as int, qlo as int, n - qlo * d);
    }
    qlo
}

/// Truncating division is odd: negating the dividend negates the quotient.
pub proof fn lemma_tdiv_neg(x: int, d: int)
    requires
        d >= 1,
    ensures
        tdiv(-x, d) == -tdiv(x, d),
{
    if x == 0 {
        lemma_div_of0(d);
    }
}

/// A cap on the magnitude of `tmuldiv`: if `|x| <= xcap` and
/// `xcap * m <= cap * d`, then `|x * m / d| <= cap`.
pub proof fn lemma_tmuldiv_cap(x: int, m: int, d: int, xcap: int, cap: int)
    requires
        d >= 1,
        m >= 0,
        abs(x) <= xcap,
        xcap * m <= cap * d,
    ensures
        abs(tmuldiv(x, m, d)) <= cap,
        abs(tmuldiv(x, m, d)) == (abs(x) * m) / d,
{
    let xa = abs(x);
    assert(xa * m <= d * cap && xa * m >= 0) by (nonlinear_arith)
        requires
            0 <= xa <= xcap && m >= 0 && xcap * m <= cap * d,
    ;
    lemma_div_pos_is_pos(xa * m, d);
    lemma_multiply_divide_le(xa * m, d, cap);
    if x >= 0 {
        assert(tmuldiv(x, m, d) == (xa * m) / d);
    } else {
        assert(tmuldiv(x, m, d) == -((xa * m) / d));
    }
}

/// `x * m / d` with the division truncated toward zero, on a signed value.
pub fn mul_div_signed(x: i128, m: u128, d: u128) -> (q: i128)
    requires
        d > 0,
        x > i128::MIN,
        abs(x as int) * m / (d as int) <= i128::MAX,
    ensures
        q == tmuldiv(x as int, m as int, d as int),
{
    if x >= 0 {
        let mag = mul_div_floor(x as u128, m, d);
        mag as i128
    } else {
        let mag = mul_div_floor((-x) as u128, m, d);
        -(mag as i128)
    }
}

} // verus!
