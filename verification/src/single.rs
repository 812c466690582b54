//! Single-precision arithmetic on whole numbers: what a number of twenty-four significant bits
//! makes of them.
use vstd::prelude::*;

use crate::units::{round_to, rounded};

verus! {

/// The first whole number that needs more than twenty-four bits.
pub const BITS_24: u64 = 0x100_0000;

/// The first whole number that needs more than twenty-three bits.
pub const BITS_23: u64 = 0x80_0000;

/// How far apart the single-precision numbers are around a whole number, where that is one or more.
pub open spec fn spacing(n: nat) -> nat
    decreases n,
{
    if n < BITS_24 {
        1
    } else {
        2 * spacing(n / 2)
    }
}

/// The single-precision number that is nearest to a whole number.
pub open spec fn single(n: nat) -> nat {
    rounded(n, spacing(n)) * spacing(n)
}

/// The power of two, at least `p`, that brings the quotient of `n` and `d` to twenty-four bits.
pub open spec fn scale_from(n: nat, d: nat, p: nat) -> nat
    decreases
            if n * p < BITS_23 * d {
                BITS_23 * d - n * p
            } else {
                0
            },
{
    if n == 0 || p == 0 || n * p >= BITS_23 * d {
        p
    } else {
        proof {
            assert(n * (2 * p) > n * p) by (nonlinear_arith)
                requires
                    n > 0,
                    p > 0,
            ;
        }
        scale_from(n, d, 2 * p)
    }
}

/// The power of two that brings the quotient of `n` and `d`, which is less than one, to twenty-four
/// bits.
pub open spec fn scale(n: nat, d: nat) -> nat {
    scale_from(n, d, 1)
}

/// The whole part of what single precision makes of `a` times the quotient of `n` and `d`, where
/// that quotient is less than one: both factors and the product are rounded.
pub open spec fn single_share(a: nat, n: nat, d: nat) -> nat {
    let p = scale(n, single(d));
    single(single(a) * rounded(n * p, single(d))) / p
}

proof fn rounded_near(n: nat, d: nat)
    requires
        d > 0,
    ensures
        2 * (rounded(n, d) * d) <= 2 * n + d,
        2 * n <= 2 * (rounded(n, d) * d) + d,
{
    let q = n / d;
    vstd::arithmetic::div_mod::lemma_fundamental_div_mod(n as int, d as int);
    assert((q + 1) * d == q * d + d && d * q == q * d) by (nonlinear_arith);
}

proof fn rounded_grows(a: nat, b: nat, d: nat)
    requires
        a <= b,
        d > 0,
    ensures
        rounded(a, d) <= rounded(b, d),
{
    vstd::arithmetic::div_mod::lemma_div_is_ordered(a as int, b as int, d as int);
    vstd::arithmetic::div_mod::lemma_fundamental_div_mod(a as int, d as int);
    vstd::arithmetic::div_mod::lemma_fundamental_div_mod(b as int, d as int);
}

proof fn rounded_of_multiple(q: nat, d: nat)
    requires
        d > 0,
    ensures
        rounded(q * d, d) == q,
{
    vstd::arithmetic::div_mod::lemma_div_multiples_vanish(q as int, d as int);
    vstd::arithmetic::div_mod::lemma_mod_multiples_basic(q as int, d as int);
    assert(q * d == d * q) by (nonlinear_arith);
}

proof fn spacing_bounds(n: nat)
    ensures
        spacing(n) >= 1,
        n < BITS_24 * spacing(n),
        spacing(n) > 1 ==> BITS_23 * spacing(n) <= n,
    decreases n,
{
    if n >= BITS_24 {
        spacing_bounds(n / 2);
    }
}

proof fn spacing_doubles(a: nat, b: nat)
    requires
        a <= b,
    ensures
        spacing(a) == spacing(b) || 2 * spacing(a) <= spacing(b),
    decreases b,
{
    if b >= BITS_24 {
        if a >= BITS_24 {
            spacing_doubles(a / 2, b / 2);
        } else {
            spacing_bounds(b / 2);
        }
    }
}

/// Rounding to single precision keeps the order of numbers.
pub proof fn single_grows(a: nat, b: nat)
    requires
        a <= b,
    ensures
        single(a) <= single(b),
{
    let s = spacing(a);
    let t = spacing(b);
    spacing_bounds(a);
    spacing_bounds(b);
    spacing_doubles(a, b);
    if s == t {
        rounded_grows(a, b, s);
        vstd::arithmetic::mul::lemma_mul_inequality(
            rounded(a, s) as int,
            rounded(b, s) as int,
            s as int,
        );
    } else {
        rounded_grows(a, BITS_24 as nat * s, s);
        rounded_of_multiple(BITS_24 as nat, s);
        rounded_grows(BITS_23 as nat * t, b, t);
        rounded_of_multiple(BITS_23 as nat, t);
        vstd::arithmetic::mul::lemma_mul_inequality(
            rounded(a, s) as int,
            BITS_24 as int,
            s as int,
        );
        vstd::arithmetic::mul::lemma_mul_inequality(
            BITS_23 as int,
            rounded(b, t) as int,
            t as int,
        );
    }
}

/// Rounding to single precision changes a number by one part in two to the twenty-fourth at most.
pub proof fn single_is_near(n: nat)
    ensures
        BITS_24 * single(n) <= (BITS_24 + 1) * n,
        BITS_24 * n <= BITS_24 * single(n) + n,
{
    spacing_bounds(n);
    rounded_near(n, spacing(n));
    if spacing(n) == 1 {
        rounded_of_multiple(n, 1);
    }
}

proof fn scale_bounds(n: nat, d: nat, p: nat)
    requires
        0 < n,
        0 < p,
        n * p < BITS_24 * d,
    ensures
        p <= scale_from(n, d, p),
        BITS_23 * d <= n * scale_from(n, d, p) < BITS_24 * d,
    decreases
            if n * p < BITS_23 * d {
                BITS_23 * d - n * p
            } else {
                0
            },
{
    if n * p < BITS_23 * d {
        assert(n * (2 * p) == 2 * (n * p) && n * p > 0) by (nonlinear_arith)
            requires
                n > 0,
                p > 0,
        ;
        scale_bounds(n, d, 2 * p);
    }
}

/// A number of at most twenty bits stays less than a greater one in single precision.
proof fn singles_apart(n: nat, d: nat)
    requires
        n < 0x10_0000,
        n < d,
    ensures
        n < single(d),
        single(n) == n,
{
    rounded_of_multiple(n, 1);
    rounded_of_multiple(n + 1, 1);
    assert(spacing(n) == 1 && spacing(n + 1) == 1);
    single_grows(n + 1, d);
}

/// The share of a number that is no greater than the divisor is no greater than the dividend.
pub proof fn share_is_bounded(a: nat, n: nat, d: nat)
    requires
        a <= d,
        0 < n < 0x10_0000,
        n < d,
    ensures
        single_share(a, n, d) <= n,
{
    let m = single(d);
    let p = scale(n, m);
    singles_apart(n, d);
    scale_bounds(n, m, 1);
    let q = rounded(n * p, m);
    rounded_near(n * p, m);
    single_grows(a, d);
    let x = single(a) * q;
    assert(x <= q * m) by (nonlinear_arith)
        requires
            x == single(a) * q,
            single(a) <= m,
    ;
    single_is_near(x);
    let s = single(x);
    let np = n * p;
    assert(2 * x <= 2 * np + m);
    assert(BITS_24 * x <= (BITS_24 + 1) * np) by (nonlinear_arith)
        requires
            2 * x <= 2 * np + m,
            BITS_23 * m <= np,
            BITS_23 == 0x80_0000,
            BITS_24 == 0x100_0000,
    ;
    assert(s < np + p) by (nonlinear_arith)
        requires
            BITS_24 * s <= (BITS_24 + 1) * x,
            BITS_24 * x <= (BITS_24 + 1) * np,
            np == n * p,
            n < 0x10_0000,
            p > 0,
            BITS_24 == 0x100_0000,
    ;
    assert(s / p <= n) by (nonlinear_arith)
        requires
            s < n * p + p,
            p > 0,
    ;
}

/// The share of a greater number is no less.
pub proof fn share_grows(a: nat, b: nat, n: nat, d: nat)
    requires
        a <= b,
        0 < n < 0x10_0000,
        n < d,
    ensures
        single_share(a, n, d) <= single_share(b, n, d),
{
    let m = single(d);
    let p = scale(n, m);
    singles_apart(n, d);
    scale_bounds(n, m, 1);
    let q = rounded(n * p, m);
    single_grows(a, b);
    vstd::arithmetic::mul::lemma_mul_inequality(single(a) as int, single(b) as int, q as int);
    single_grows(single(a) * q, single(b) * q);
    vstd::arithmetic::div_mod::lemma_div_is_ordered(
        single(single(a) * q) as int,
        single(single(b) * q) as int,
        p as int,
    );
}

fn spacing_of(n: u64) -> (r: u64)
    ensures
        r == spacing(n as nat),
        1 <= r,
{
    let mut m: u64 = n;
    let mut s: u64 = 1;
    while m >= BITS_24
        invariant
            1 <= s,
            s * m <= n,
            spacing(n as nat) == s * spacing(m as nat),
        decreases m,
    {
        assert(s * m <= n && m >= 2 ==> 2 * s <= n) by (nonlinear_arith)
            requires
                1 <= s,
        ;
        assert((2 * s) * (m / 2) <= s * m && s * (2 * spacing((m / 2) as nat)) == (2 * s) * spacing(
            (m / 2) as nat,
        )) by (nonlinear_arith)
            requires
                1 <= s,
        ;
        s = 2 * s;
        m = m / 2;
    }
    assert(s * spacing(m as nat) == s) by (nonlinear_arith)
        requires
            spacing(m as nat) == 1,
    ;
    s
}

proof fn single_fits(n: nat)
    requires
        n <= 0x100_0000_0000_0000,
    ensures
        single(n) <= 0x200_0000_0000_0000,
        n <= 0x1_0000_0000 ==> single(n) <= 0x1_0000_0000,
{
    single_is_near(n);
    assert(single(n) <= 2 * n) by (nonlinear_arith)
        requires
            BITS_24 * single(n) <= (BITS_24 + 1) * n,
            BITS_24 == 0x100_0000,
    ;
    if n <= 0x1_0000_0000 {
        single_grows(n, 0x1_0000_0000);
        assert(spacing(0x1_0000_0000) == 0x200) by {
            reveal_with_fuel(spacing, 10);
        }
        rounded_of_multiple(BITS_23 as nat, 0x200);
    }
}

fn to_single(n: u64) -> (r: u64)
    requires
        n <= 0x100_0000_0000_0000,
    ensures
        r == single(n as nat),
{
    let s: u64 = spacing_of(n);
    proof {
        single_fits(n as nat);
    }
    round_to(n as u128, s as u128) as u64 * s
}

fn scale_of(n: u64, d: u64) -> (r: u64)
    requires
        0 < n < d,
        d <= 0x1_0000_0000,
    ensures
        r == scale(n as nat, d as nat),
        0 < r,
        BITS_23 * d <= n * r < BITS_24 * d,
{
    let mut p: u64 = 1;
    while n * p < BITS_23 * d
        invariant
            0 < n < d,
            d <= 0x1_0000_0000,
            0 < p,
            n * p < BITS_24 * d,
            scale(n as nat, d as nat) == scale_from(n as nat, d as nat, p as nat),
        ensures
            0 < p,
            BITS_23 * d <= n * p < BITS_24 * d,
            p == scale(n as nat, d as nat),
        decreases BITS_24 * d - n * p,
    {
        assert(n * (2 * p) == 2 * (n * p) && n * p >= p) by (nonlinear_arith)
            requires
                0 < n,
                0 < p,
        ;
        p = 2 * p;
    }
    p
}

/// Computes the whole part of what single precision makes of `a` times the quotient of `n` and `d`.
pub fn single_share_of(a: u32, n: u32, d: u32) -> (r: u32)
    requires
        a <= d,
        0 < n < 0x10_0000,
        n < d,
    ensures
        r == single_share(a as nat, n as nat, d as nat),
        r <= n,
{
    let m: u64 = to_single(d as u64);
    proof {
        single_fits(d as nat);
        single_fits(a as nat);
        single_grows(a as nat, d as nat);
        share_is_bounded(a as nat, n as nat, d as nat);
        singles_apart(n as nat, d as nat);
    }
    let p: u64 = scale_of(n as u64, m);
    let np: u64 = n as u64 * p;
    let q: u64 = round_to(np as u128, m as u128) as u64;
    let s: u64 = to_single(a as u64);
    proof {
        rounded_grows(np as nat, BITS_24 as nat * m as nat, m as nat);
        rounded_of_multiple(BITS_24 as nat, m as nat);
        assert(s * q <= 0x1_0000_0000 * BITS_24) by (nonlinear_arith)
            requires
                s <= 0x1_0000_0000,
                q <= BITS_24,
        ;
    }
    (to_single(s * q) / p) as u32
}

/// A product of two bounded factors is bounded by the product of the bounds.
proof fn factors_bound(k: int, l: int, x: int, y: int, u: int, v: int)
    requires
        0 <= k,
        0 <= l,
        0 <= x,
        0 <= u,
        k * x <= y,
        l * u <= v,
        0 <= y,
    ensures
        (k * l) * (x * u) <= y * v,
{
    assert((k * x) * (l * u) <= y * v) by (nonlinear_arith)
        requires
            0 <= k * x <= y,
            0 <= l * u <= v,
            0 <= k,
            0 <= l,
            0 <= x,
            0 <= u,
            k * x <= y,
            l * u <= v,
            0 <= y,
    ;
    assert((k * x) * (l * u) == (k * l) * (x * u)) by (nonlinear_arith);
}

/// The share of a number is the number times the quotient, but for less than two: rounding takes it up
/// by less than one, and cutting and rounding down by less than two.
pub proof fn share_is_near(a: nat, n: nat, d: nat)
    requires
        a <= d,
        0 < n < 0x10_0000,
        n < d,
    ensures
        single_share(a, n, d) * d < a * n + d,
        a * n < (single_share(a, n, d) + 2) * d,
{
    let k = BITS_24 as int;
    let m = single(d) as int;
    let p = scale(n, m as nat) as int;
    singles_apart(n, d);
    scale_bounds(n, m as nat, 1);
    let np = n * p;
    let q = rounded(np as nat, m as nat) as int;
    rounded_near(np as nat, m as nat);
    let sa = single(a) as int;
    let x = sa * q;
    assert(x >= 0) by (nonlinear_arith)
        requires
            x == sa * q,
            sa >= 0,
            q >= 0,
    ;
    let s = single(x as nat) as int;
    single_is_near(a);
    single_is_near(d);
    single_is_near(x as nat);
    let qm = q * m;
    let aq = a * q;
    let anp = a * np;
    assert(k * m <= 2 * np);
    assert(k * qm <= (k + 1) * np && (k - 1) * np <= k * qm);
    assert(k * x <= (k + 1) * aq && (k - 1) * aq <= k * x) by (nonlinear_arith)
        requires
            x == sa * q,
            aq == a * q,
            q >= 0,
            k * sa <= (k + 1) * a,
            k * a <= k * sa + a,
    ;
    assert(k * s <= (k + 1) * x && (k - 1) * x <= k * s) by (nonlinear_arith)
        requires
            k * s <= (k + 1) * x,
            k * x <= k * s + x,
    ;
    assert((k - 1) * d <= k * m && k * m <= (k + 1) * d) by (nonlinear_arith)
        requires
            k * m <= (k + 1) * d,
            k * d <= k * m + d,
    ;
    share_from_above(k, s, x, aq, a as int, q, m, d as int, np);
    share_from_below(k, s, x, aq, a as int, q, m, d as int, np);
    let t = single_share(a, n, d) as int;
    vstd::arithmetic::div_mod::lemma_fundamental_div_mod(s, p);
    vstd::arithmetic::div_mod::lemma_mod_bound(s, p);
    assert(t * p <= s < (t + 1) * p) by (nonlinear_arith)
        requires
            s == p * t + s % p,
            0 <= s % p < p,
    ;
    let di = d as int;
    let dp = di * p;
    assert(16 * anp <= k * dp) by (nonlinear_arith)
        requires
            anp == a * np,
            np == n * p,
            dp == di * p,
            0 <= a <= di,
            16 * n <= k,
            0 <= n,
            0 < p,
    ;
    let sd = s * di;
    assert(dp > 0) by (nonlinear_arith)
        requires
            dp == di * p,
            di > 0,
            p > 0,
    ;
    assert(sd < anp + dp);
    assert(anp < sd + dp);
    assert(t * di < a * n + di) by (nonlinear_arith)
        requires
            t * p <= s,
            s * di < a * (n * p) + di * p,
            p > 0,
            di > 0,
    ;
    assert(a * n < (t + 2) * di) by (nonlinear_arith)
        requires
            s < (t + 1) * p,
            a * (n * p) < s * di + di * p,
            p > 0,
            di > 0,
    ;
}

proof fn share_from_above(k: int, s: int, x: int, aq: int, a: int, q: int, m: int, d: int, np: int)
    requires
        k == 0x100_0000,
        0 <= s,
        0 <= x,
        0 <= a,
        0 <= q,
        0 <= m,
        0 <= d,
        0 <= np,
        aq == a * q,
        k * s <= (k + 1) * x,
        k * x <= (k + 1) * aq,
        k * (q * m) <= (k + 1) * np,
        (k - 1) * d <= k * m,
    ensures
        (k - 1) * (s * d - a * np) <= 5 * (a * np),
{
    let anp = a * np;
    assert(aq >= 0) by (nonlinear_arith)
        requires
            aq == a * q,
            a >= 0,
            q >= 0,
    ;
    assert((k * k) * s <= ((k + 1) * (k + 1)) * aq) by (nonlinear_arith)
        requires
            k * s <= (k + 1) * x,
            k * x <= (k + 1) * aq,
            k > 0,
    ;
    let c = (k + 1) * (k + 1);
    factors_bound(k * k, k - 1, s, c * aq, d, k * m);
    assert(((k * k) * (k - 1)) * (s * d) <= (c * aq) * (k * m));
    assert((c * aq) * (k * m) == c * (a * (k * (q * m)))) by (nonlinear_arith)
        requires
            aq == a * q,
    ;
    assert(a * (k * (q * m)) <= a * ((k + 1) * np)) by (nonlinear_arith)
        requires
            0 <= a,
            k * (q * m) <= (k + 1) * np,
    ;
    assert(a * ((k + 1) * np) == (k + 1) * anp) by (nonlinear_arith)
        requires
            anp == a * np,
    ;
    let sd = s * d;
    assert(((k * k) * (k - 1)) * sd <= c * ((k + 1) * anp)) by (nonlinear_arith)
        requires
            ((k * k) * (k - 1)) * sd <= c * (a * (k * (q * m))),
            a * (k * (q * m)) <= (k + 1) * anp,
            c >= 0,
    ;
    assert(anp >= 0) by (nonlinear_arith)
        requires
            anp == a * np,
            a >= 0,
            np >= 0,
    ;
    assert(4722366201394668503040 * sd <= 4722367327294625677313 * anp) by (nonlinear_arith)
        requires
            ((k * k) * (k - 1)) * sd <= c * ((k + 1) * anp),
            c == (k + 1) * (k + 1),
            k == 0x100_0000,
    ;
    assert((k - 1) * (sd - anp) <= 5 * anp);
}

proof fn share_from_below(k: int, s: int, x: int, aq: int, a: int, q: int, m: int, d: int, np: int)
    requires
        k == 0x100_0000,
        0 <= s,
        0 <= x,
        0 <= a,
        0 <= q,
        0 <= m,
        0 <= d,
        0 <= np,
        aq == a * q,
        (k - 1) * x <= k * s,
        (k - 1) * aq <= k * x,
        (k - 1) * np <= k * (q * m),
        k * m <= (k + 1) * d,
    ensures
        (k + 1) * (a * np - s * d) <= 4 * (a * np),
{
    let anp = a * np;
    let sd = s * d;
    assert(aq >= 0) by (nonlinear_arith)
        requires
            aq == a * q,
            a >= 0,
            q >= 0,
    ;
    let b = (k - 1) * (k - 1);
    assert(b * aq <= (k * k) * s) by (nonlinear_arith)
        requires
            (k - 1) * x <= k * s,
            (k - 1) * aq <= k * x,
            k > 1,
            b == (k - 1) * (k - 1),
    ;
    factors_bound(b, k, aq, (k * k) * s, m, (k + 1) * d);
    assert((b * k) * (aq * m) == b * (a * (k * (q * m)))) by (nonlinear_arith)
        requires
            aq == a * q,
    ;
    assert(a * ((k - 1) * np) <= a * (k * (q * m))) by (nonlinear_arith)
        requires
            0 <= a,
            (k - 1) * np <= k * (q * m),
    ;
    assert(a * ((k - 1) * np) == (k - 1) * anp) by (nonlinear_arith)
        requires
            anp == a * np,
    ;
    assert(((k * k) * s) * ((k + 1) * d) == ((k * k) * (k + 1)) * sd) by (nonlinear_arith)
        requires
            sd == s * d,
    ;
    assert(b * ((k - 1) * anp) <= ((k * k) * (k + 1)) * sd) by (nonlinear_arith)
        requires
            b * (a * (k * (q * m))) <= ((k * k) * (k + 1)) * sd,
            (k - 1) * anp <= a * (k * (q * m)),
            b >= 0,
    ;
    assert(anp >= 0) by (nonlinear_arith)
        requires
            anp == a * np,
            a >= 0,
            np >= 0,
    ;
    assert(4722365638444765413375 * anp <= 4722366764344621924352 * sd) by (nonlinear_arith)
        requires
            b * ((k - 1) * anp) <= ((k * k) * (k + 1)) * sd,
            b == (k - 1) * (k - 1),
            k == 0x100_0000,
    ;
    assert((k + 1) * (anp - sd) <= 4 * anp);
}

} // verus!
