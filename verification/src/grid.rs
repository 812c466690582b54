//! Whole-number lengths: changing units, and writing them with a fixed number of decimals.
use vstd::arithmetic::div_mod::{lemma_fundamental_div_mod, lemma_fundamental_div_mod_converse};
use vstd::prelude::*;

verus! {

/// The nearest number that a coordinate can hold.
pub open spec fn clamp64(x: int) -> i64 {
    if x < i64::MIN {
        i64::MIN
    } else if x > i64::MAX {
        i64::MAX
    } else {
        x as i64
    }
}

/// The nearest number that a coordinate can hold.
pub fn clamp_i64(x: i128) -> (r: i64)
    ensures
        r == clamp64(x as int),
{
    if x < i64::MIN as i128 {
        i64::MIN
    } else if x > i64::MAX as i128 {
        i64::MAX
    } else {
        x as i64
    }
}

/// A quotient to the nearest whole number, and up half way between.
pub open spec fn half_up(m: int, d: int) -> int {
    (2 * m + d) / (2 * d)
}

/// A quotient to the nearest whole number, and away from zero half way between.
pub open spec fn nearest(a: int, d: int) -> int {
    if a < 0 {
        -half_up(-a, d)
    } else {
        half_up(a, d)
    }
}

/// The nearest whole number is no further away than half of what is divided by.
pub proof fn nearest_is_near(a: int, d: int)
    requires
        d > 0,
    ensures
        -d <= 2 * (a - nearest(a, d) * d) <= d,
{
    let m = if a < 0 {
        -a
    } else {
        a
    };
    let n = half_up(m, d);
    lemma_fundamental_div_mod(2 * m + d, 2 * d);
    assert(-d <= 2 * (m - n * d) <= d) by (nonlinear_arith)
        requires
            d > 0,
            2 * m + d == 2 * d * n + (2 * m + d) % (2 * d),
            0 <= (2 * m + d) % (2 * d) < 2 * d,
    ;
    assert((-n) * d == -(n * d)) by (nonlinear_arith);
}

/// A whole number of times what is divided by comes out exactly.
pub proof fn nearest_of_multiple(n: int, d: int)
    requires
        d > 0,
    ensures
        nearest(n * d, d) == n,
{
    let r = nearest(n * d, d);
    nearest_is_near(n * d, d);
    assert(r == n) by (nonlinear_arith)
        requires
            d > 0,
            -d <= 2 * (n * d - r * d) <= d,
    ;
}

/// `x` times `num` over `den`, to the nearest whole number.
pub fn nearest_ratio(x: i64, num: u64, den: u64) -> (r: i128)
    requires
        den > 0,
    ensures
        r == nearest(x * num, den as int),
        -0x7fff_ffff_ffff_ffff_ffff_ffff_ffff_ffff <= r,
{
    let p: i128 = times(x, num);
    let m: i128 = if p < 0 {
        -p
    } else {
        p
    };
    let d: i128 = den as i128;
    let q: i128 = m / d;
    let rest: i128 = m % d;
    assert(m == q * d + rest && 0 <= rest < d && 0 <= q <= m) by (nonlinear_arith)
        requires
            d > 0,
            m >= 0,
            q == m / d,
            rest == m % d,
    ;
    let up = 2 * rest >= d;
    let n: i128 = if up {
        assert(q < 0x7fff_ffff_ffff_ffff_ffff_ffff_ffff_ffff) by (nonlinear_arith)
            requires
                m == q * d + rest,
                d > 0,
                2 * rest >= d,
                q >= 0,
                m <= 0x7fff_ffff_ffff_ffff_ffff_ffff_ffff_ffff,
        ;
        q + 1
    } else {
        q
    };
    proof {
        let left: int = if up {
            2 * rest - d
        } else {
            2 * rest + d
        };
        assert(2 * m + d == n * (2 * d) + left) by (nonlinear_arith)
            requires
                m == q * d + rest,
                up ==> n == q + 1 && left == 2 * rest - d,
                !up ==> n == q && left == 2 * rest + d,
        ;
        lemma_fundamental_div_mod_converse(2 * m + d, 2 * d, n as int, left);
    }
    if p < 0 {
        -n
    } else {
        n
    }
}

/// A coordinate times a whole factor, which always fits.
pub fn times(x: i64, num: u64) -> (r: i128)
    ensures
        r == x * num,
        -0x7fff_ffff_ffff_ffff_ffff_ffff_ffff_ffff <= r,
{
    proof {
        assert(-0x8000_0000_0000_0000 * 0xffff_ffff_ffff_ffff <= x * num
            <= 0x7fff_ffff_ffff_ffff * 0xffff_ffff_ffff_ffff) by (nonlinear_arith)
            requires
                -0x8000_0000_0000_0000 <= x <= 0x7fff_ffff_ffff_ffff,
                0 <= num <= 0xffff_ffff_ffff_ffff,
        ;
    }
    x as i128 * num as i128
}

/// Half a step is rounded away from zero, and rounding is the same on both sides of it.
pub proof fn half_goes_outward(a: int, d: int)
    requires
        d > 0,
    ensures
        nearest(-a, d) == -nearest(a, d),
        a > 0 && 2 * (nearest(a, d) * d - a) != d ==> 2 * (nearest(a, d) * d - a) < d,
        a > 0 ==> 2 * (a - nearest(a, d) * d) < d,
{
    if a > 0 {
        nearest_is_near(a, d);
        let q = half_up(a, d);
        assert(2 * a + d < (q + 1) * (2 * d)) by (nonlinear_arith)
            requires
                d > 0,
                q == (2 * a + d) / (2 * d),
        ;
        assert((q + 1) * (2 * d) == 2 * (q * d) + 2 * d) by (nonlinear_arith);
    } else if a == 0 {
        assert(d / (2 * d) == 0) by (nonlinear_arith)
            requires
                d > 0,
        ;
    }
}

} // verus!
