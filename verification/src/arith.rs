//! Exact integer arithmetic with rounding toward negative infinity.
//!
//! Coordinates are fixed-point integers, so every quotient that the view
//! transform forms has to be rounded. All of them round the same way: down.

use vstd::prelude::*;
use vstd::arithmetic::div_mod::lemma_fundamental_div_mod;
use vstd::arithmetic::div_mod::lemma_fundamental_div_mod_converse;
use vstd::arithmetic::div_mod::lemma_mod_bound;

verus! {

/// The greatest integer `q` with `q * d <= n` when `d` is positive, and with
/// `q * d >= n` when `d` is negative: the quotient `n / d` rounded down.
pub open spec fn floor_div(n: int, d: int) -> int
    recommends
        d != 0,
{
    if d > 0 {
        n / d
    } else {
        (-n) / (-d)
    }
}

/// Whether `v` can be stored in a coordinate.
pub open spec fn fits_i32(v: int) -> bool {
    i32::MIN <= v <= i32::MAX
}

/// Linear interpolation from one interval to another: the value that lies in
/// `to_start..to_end` where `x` lies in `from_start..from_end`, rounded down.
/// `from_start` maps to `to_start` and `from_end` to `to_end`; an `x` outside
/// the first interval is extrapolated.
pub open spec fn spec_remap(x: int, from_start: int, from_end: int, to_start: int, to_end: int) -> int
    recommends
        from_start != from_end,
{
    to_start + floor_div((x - from_start) * (to_end - to_start), from_end - from_start)
}

/// Maps `x` from the interval `from` to the interval `to`, each given as
/// `(start, end)`. `None` when `from` has no length, or when the exact result
/// does not fit a coordinate.
pub fn remap(x: i32, from: (i32, i32), to: (i32, i32)) -> (r: Option<i32>)
    ensures
        (from.0 != from.1 && fits_i32(
            spec_remap(x as int, from.0 as int, from.1 as int, to.0 as int, to.1 as int),
        )) == (r is Some),
        r matches Some(v) ==> v == spec_remap(
            x as int,
            from.0 as int,
            from.1 as int,
            to.0 as int,
            to.1 as int,
        ),
{
    let offset: i64 = x as i64 - from.0 as i64;
    let to_len: i64 = to.1 as i64 - to.0 as i64;
    let from_len: i64 = from.1 as i64 - from.0 as i64;
    if from_len == 0 {
        return None;
    }
    let v: i128 = to.0 as i128 + mul_div_floor(offset, to_len, from_len);
    if i32::MIN as i128 <= v && v <= i32::MAX as i128 {
        Some(v as i32)
    } else {
        None
    }
}

/// The product `a * b` divided by `d`, rounded down, with the product formed
/// exactly before the division.
pub(crate) fn mul_div_floor(a: i64, b: i64, d: i64) -> (q: i128)
    requires
        d != 0,
    ensures
        q == floor_div(a * b, d as int),
        -0x4000_0000_0000_0000_0000_0000_0000_0000 <= q <= 0x4000_0000_0000_0000_0000_0000_0000_0000,
{
    div_floor(mul_wide(a, b), d as i128)
}

/// The exact product of two machine integers.
pub(crate) fn mul_wide(a: i64, b: i64) -> (p: i128)
    ensures
        p == a * b,
        -0x4000_0000_0000_0000_0000_0000_0000_0000 <= p <= 0x4000_0000_0000_0000_0000_0000_0000_0000,
{
    assert(-0x4000_0000_0000_0000_0000_0000_0000_0000 <= a * b
        <= 0x4000_0000_0000_0000_0000_0000_0000_0000) by (nonlinear_arith)
        requires
            -0x8000_0000_0000_0000 <= a <= 0x8000_0000_0000_0000,
            -0x8000_0000_0000_0000 <= b <= 0x8000_0000_0000_0000,
    ;
    (a as i128) * (b as i128)
}

/// The quotient of two machine integers, rounded down.
pub(crate) fn div_floor(n: i128, d: i128) -> (q: i128)
    requires
        d != 0,
        n != i128::MIN,
        d != i128::MIN,
    ensures
        q == floor_div(n as int, d as int),
        -vstd::math::abs(n as int) <= q <= vstd::math::abs(n as int),
{
    let (m, e): (i128, i128) = if d < 0 {
        (-n, -d)
    } else {
        (n, d)
    };
    proof {
        lemma_floor_div_bounds(m as int, e as int);
    }
    if m >= 0 {
        let q: i128 = m / e;
        assert(0 <= q <= m) by (nonlinear_arith)
            requires
                q * e <= m,
                m < q * e + e,
                e > 0,
                m >= 0,
        ;
        q
    } else {
        let p: i128 = (-m - 1) / e;
        proof {
            lemma_floor_div_bounds(-m - 1, e as int);
            assert(0 <= p <= -m - 1) by (nonlinear_arith)
                requires
                    p * e <= -m - 1,
                    -m - 1 < p * e + e,
                    e > 0,
                    -m - 1 >= 0,
            ;
            assert((-p - 1) * e == -(p * e) - e) by (nonlinear_arith);
            lemma_floor_div_unique(m as int, e as int, -p - 1);
        }
        -p - 1
    }
}

/// `floor_div(n, d)` is the one integer whose product with `d` lies within
/// one `d` of `n`, on the side of `n` that rounding down leaves it.
pub proof fn lemma_floor_div_bounds(n: int, d: int)
    requires
        d != 0,
    ensures
        d > 0 ==> floor_div(n, d) * d <= n < floor_div(n, d) * d + d,
        d < 0 ==> floor_div(n, d) * d >= n > floor_div(n, d) * d + d,
{
    if d > 0 {
        lemma_fundamental_div_mod(n, d);
        lemma_mod_bound(n, d);
        assert(d * (n / d) == (n / d) * d) by (nonlinear_arith);
    } else {
        let m = -n;
        let e = -d;
        lemma_fundamental_div_mod(m, e);
        lemma_mod_bound(m, e);
        assert(e * (m / e) == -((m / e) * d)) by (nonlinear_arith)
            requires
                e == -d,
        ;
    }
}

/// Any integer that satisfies the bounds of `lemma_floor_div_bounds` is the
/// rounded quotient.
pub proof fn lemma_floor_div_unique(n: int, d: int, q: int)
    requires
        d > 0 ==> q * d <= n < q * d + d,
        d < 0 ==> q * d >= n > q * d + d,
        d != 0,
    ensures
        q == floor_div(n, d),
{
    if d > 0 {
        lemma_fundamental_div_mod_converse(n, d, q, n - q * d);
    } else {
        let e = -d;
        assert(q * e == -(q * d)) by (nonlinear_arith)
            requires
                e == -d,
        ;
        lemma_fundamental_div_mod_converse(-n, e, q, -n - q * e);
    }
}

/// The start of the first interval maps to the start of the second, and the
/// end to the end, with no rounding.
pub proof fn lemma_remap_endpoints(from_start: int, from_end: int, to_start: int, to_end: int)
    requires
        from_start != from_end,
    ensures
        spec_remap(from_start, from_start, from_end, to_start, to_end) == to_start,
        spec_remap(from_end, from_start, from_end, to_start, to_end) == to_end,
{
    let w = from_end - from_start;
    let t = to_end - to_start;
    assert((from_start - from_start) * t == 0) by (nonlinear_arith);
    assert(0 * w == 0) by (nonlinear_arith);
    lemma_floor_div_unique(0, w, 0);
    assert(t * w == w * t) by (nonlinear_arith);
    lemma_floor_div_unique(w * t, w, t);
}

/// A value inside the first interval maps inside the second, whichever way
/// round either interval is given.
pub proof fn lemma_remap_stays_inside(x: int, from_start: int, from_end: int, to_start: int, to_end: int)
    requires
        from_start != from_end,
        from_start <= x <= from_end || from_end <= x <= from_start,
    ensures
        to_start <= to_end ==> to_start <= spec_remap(x, from_start, from_end, to_start, to_end)
            <= to_end,
        to_end <= to_start ==> to_end <= spec_remap(x, from_start, from_end, to_start, to_end)
            <= to_start,
{
    let t = to_end - to_start;
    // the offset and the length, both made non-negative
    let (a, w) = if from_end > from_start {
        (x - from_start, from_end - from_start)
    } else {
        (from_start - x, from_start - from_end)
    };
    lemma_product_sign(x - from_start, t);
    assert(floor_div((x - from_start) * t, from_end - from_start) == floor_div(a * t, w));
    let k = floor_div(a * t, w);
    lemma_floor_div_bounds(a * t, w);
    assert(t >= 0 ==> 0 <= a * t <= w * t) by (nonlinear_arith)
        requires
            0 <= a <= w,
    ;
    assert(t <= 0 ==> w * t <= a * t <= 0) by (nonlinear_arith)
        requires
            0 <= a <= w,
    ;
    assert(w * t == t * w) by (nonlinear_arith);
    lemma_product_of_difference(k, t, w);
    lemma_product_of_difference(k - t, 1, w);
    lemma_product_of_difference(k, 1, w);
    lemma_product_sign(1, w);
    lemma_product_sign(k, w);
    lemma_product_sign(k + 1, w);
    lemma_product_sign(k - t, w);
    lemma_product_sign(k - t + 1, w);
}

/// Mapping a value to the second interval and back returns it up to
/// rounding: the difference, measured in units of the second interval's
/// length, is less than the two lengths together. Where the second length is
/// a whole multiple of the first, nothing is lost.
pub proof fn lemma_remap_round_trip(x: int, from_start: int, from_end: int, to_start: int, to_end: int)
    requires
        from_start != from_end,
        to_start != to_end,
    ensures
        ({
            let there = spec_remap(x, from_start, from_end, to_start, to_end);
            let back = spec_remap(there, to_start, to_end, from_start, from_end);
            &&& vstd::math::abs(back - x) * vstd::math::abs(to_end - to_start) < vstd::math::abs(
                to_end - to_start,
            ) + vstd::math::abs(from_end - from_start)
            &&& vstd::math::abs(to_end - to_start) % vstd::math::abs(from_end - from_start) == 0
                ==> back == x
        }),
{
    let w = from_end - from_start;
    let t = to_end - to_start;
    let a = x - from_start;
    let k = floor_div(a * t, w);
    let j = floor_div(k * w, t);
    let e = j - a;
    lemma_floor_div_bounds(a * t, w);
    lemma_floor_div_bounds(k * w, t);
    // e * t == j * t - a * t, and likewise one further from zero on either side
    lemma_product_of_difference(j, a, t);
    lemma_product_of_difference(j - a, 1, t);
    lemma_product_of_difference(j - a, -1, t);
    lemma_product_sign(1, t);
    lemma_product_sign(-1, t);
    // the sign of e from the sign of e * t
    lemma_product_sign(e, t);
    lemma_product_sign(e + 1, t);
    lemma_product_sign(e - 1, t);
    assert(vstd::math::abs(e) * vstd::math::abs(t) < vstd::math::abs(t) + vstd::math::abs(w));
    if vstd::math::abs(t) % vstd::math::abs(w) == 0 {
        let m = vstd::math::abs(t) as int / vstd::math::abs(w) as int;
        lemma_fundamental_div_mod(vstd::math::abs(t) as int, vstd::math::abs(w) as int);
        let c = if (t > 0) == (w > 0) {
            m
        } else {
            -m
        };
        lemma_product_sign(w, m);
        assert(t == w * c);
        assert(a * t == (a * c) * w) by (nonlinear_arith)
            requires
                t == w * c,
        ;
        lemma_floor_div_unique(a * t, w, a * c);
        assert(k * w == a * t);
        lemma_floor_div_unique(k * w, t, a);
    }
}

/// Multiplying the numerator by `k` multiplies the rounded quotient by `k`
/// and adds less than `k`.
pub proof fn lemma_floor_div_scaled(n: int, d: int, k: int)
    requires
        d != 0,
        k >= 1,
    ensures
        k * floor_div(n, d) <= floor_div(k * n, d) < k * floor_div(n, d) + k,
{
    // the same quotients over a positive divisor
    let (m, e) = if d > 0 {
        (n, d)
    } else {
        (-n, -d)
    };
    lemma_product_sign(k, n);
    let q = floor_div(m, e);
    let r = floor_div(k * m, e);
    assert(q == floor_div(n, d));
    assert(r == floor_div(k * n, d));
    lemma_floor_div_bounds(m, e);
    lemma_floor_div_bounds(k * m, e);
    // k * m is (k * q) * e plus k times what rounding dropped
    let s = m - q * e;
    assert(k * m == (k * q) * e + k * s) by (nonlinear_arith)
        requires
            s == m - q * e,
    ;
    assert(0 <= k * s <= k * e - k) by (nonlinear_arith)
        requires
            0 <= s <= e - 1,
            k >= 1,
    ;
    lemma_product_of_difference(k * q, r, e);
    lemma_product_sign(k * q - r, e);
    lemma_product_of_difference(k * q, k, e);
    lemma_product_of_difference(r, k * q + k, e);
    lemma_product_sign(r - (k * q + k), e);
}

/// How the sign and size of a product follow from those of its factors.
proof fn lemma_product_sign(x: int, t: int)
    ensures
        x == 0 ==> x * t == 0,
        t > 0 && x >= 1 ==> x * t >= t,
        t > 0 && x <= -1 ==> x * t <= -t,
        t < 0 && x >= 1 ==> x * t <= t,
        t < 0 && x <= -1 ==> x * t >= -t,
        (-x) * t == -(x * t),
        x * (-t) == -(x * t),
        (-x) * (-t) == x * t,
{
    assert(x == 0 ==> x * t == 0) by (nonlinear_arith);
    assert(t > 0 && x >= 1 ==> x * t >= t) by (nonlinear_arith);
    assert(t > 0 && x <= -1 ==> x * t <= -t) by (nonlinear_arith);
    assert(t < 0 && x >= 1 ==> x * t <= t) by (nonlinear_arith);
    assert(t < 0 && x <= -1 ==> x * t >= -t) by (nonlinear_arith);
    assert((-x) * t == -(x * t)) by (nonlinear_arith);
    assert(x * (-t) == -(x * t)) by (nonlinear_arith);
    assert((-x) * (-t) == x * t) by (nonlinear_arith);
}

/// Multiplication distributes over a difference and over a sum.
proof fn lemma_product_of_difference(x: int, y: int, t: int)
    ensures
        (x - y) * t == x * t - y * t,
        (x + y) * t == x * t + y * t,
{
    assert((x - y) * t == x * t - y * t) by (nonlinear_arith);
    assert((x + y) * t == x * t + y * t) by (nonlinear_arith);
}

} // verus!
