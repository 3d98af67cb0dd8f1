//! Fixed-point arithmetic shared by the whole engine.
//!
//! Every quantity is an `i128`. Prices and money are counted in ticks of
//! `1 / SCALE` of the quote currency. Weights, rates and statistics are
//! ratios in units of `1 / SCALE`, rounded down, and saturate at
//! `RATIO_LIMIT`. Returns that are compounded, and the equity and cumulative
//! return that they compound to, are counted in the finer units of
//! `1 / FINE`, so that rounding does not add up along a path; they are
//! rounded to the units of a table only where they are written.

use vstd::prelude::*;
use vstd::arithmetic::div_mod::lemma_fundamental_div_mod;
use vstd::arithmetic::div_mod::lemma_fundamental_div_mod_converse;

verus! {

/// The fixed-point representation of the ratio `1`.
pub const SCALE: i128 = 100_000_000;

/// Largest magnitude a ratio can take; larger values saturate here.
pub const RATIO_LIMIT: i128 = 1_000_000_000_000_000;

/// Largest price, in ticks, that a series may hold.
pub const MAX_PRICE: i128 = 1_000_000_000_000_000_000;

/// Largest number of days a series may hold.
pub const MAX_DAYS: usize = 10_000;

/// The fine fixed-point representation of `1`, for returns that are
/// compounded and for what they compound to.
pub const FINE: i128 = 10_000_000_000_000_000;

/// Fine units in one unit of a ratio: `FINE / SCALE`.
pub const FINE_PER_UNIT: i128 = 100_000_000;

/// Largest magnitude of a fine return, ten million; larger returns
/// saturate here.
pub const RETURN_LIMIT: i128 = 100_000_000_000_000_000_000_000;

/// Largest magnitude of a compounded value (equity, cumulative return), in
/// fine units: ten thousand million; larger values saturate here.
pub const EQUITY_LIMIT: i128 = 100_000_000_000_000_000_000_000_000;

/// Largest magnitude of a product that is formed before it is scaled down.
pub const PRODUCT_LIMIT: i128 = 100_000_000_000_000_000_000_000_000_000_000_000_000;

/// Largest divisor of a ratio.
pub const DIVISOR_LIMIT: i128 = 100_000_000_000_000_000_000_000_000;

/// Largest magnitude accepted by the windowed indicators.
pub const VALUE_LIMIT: i128 = 10_000_000_000_000_000_000_000_000_000_000_000;

/// The magnitude of `x`.
pub open spec fn abs(x: int) -> int {
    if x < 0 {
        -x
    } else {
        x
    }
}

/// `x`, or the bound that it lies beyond.
pub open spec fn clamp(x: int, lo: int, hi: int) -> int {
    if x < lo {
        lo
    } else if x > hi {
        hi
    } else {
        x
    }
}

/// `num / den` as a ratio: scaled by `SCALE`, rounded down, saturated.
pub open spec fn ratio(num: int, den: int) -> int {
    clamp(num * SCALE / den, -RATIO_LIMIT, RATIO_LIMIT as int)
}

/// `a` multiplied by the ratio `r`, rounded down.
pub open spec fn scaled(a: int, r: int) -> int {
    a * r / (SCALE as int)
}

/// `num / den` as a fine return: scaled by `FINE`, rounded down,
/// saturated.
pub open spec fn fine_ratio(num: int, den: int) -> int {
    clamp(num * FINE / den, -RETURN_LIMIT, RETURN_LIMIT as int)
}

/// A fine value in units of a ratio, rounded down.
pub open spec fn coarse(x: int) -> int {
    x / (FINE_PER_UNIT as int)
}

/// One step of compounding: the value plus the value times the fine
/// return, rounded down to a fine unit and saturated at `EQUITY_LIMIT`.
pub open spec fn compound(value: int, fine_return: int) -> int {
    clamp(value + value * fine_return / (FINE as int), -EQUITY_LIMIT, EQUITY_LIMIT as int)
}

/// Every element of `s` has magnitude at most `limit`.
pub open spec fn all_within(s: Seq<i128>, limit: int) -> bool {
    forall|i: int| 0 <= i < s.len() ==> -limit <= #[trigger] s[i] <= limit
}

/// Whether every element has magnitude at most `limit`.
pub fn is_all_within(s: &[i128], limit: i128) -> (b: bool)
    requires
        limit >= 0,
    ensures
        b == all_within(s@, limit as int),
{
    let mut i: usize = 0;
    while i < s.len()
        invariant
            i <= s.len(),
            limit >= 0,
            forall|j: int| 0 <= j < i ==> -limit <= #[trigger] s[j] <= limit,
        decreases s.len() - i,
    {
        if s[i] < -limit || s[i] > limit {
            return false;
        }
        i = i + 1;
    }
    true
}

/// The quotient of a negative dividend, rounded down, from a quotient of
/// a dividend that is not negative.
pub proof fn lemma_floor_div_negative(a: int, b: int)
    requires
        a < 0,
        b > 0,
    ensures
        a / b == -((-(a + 1)) / b) - 1,
{
    let n = -(a + 1);
    let m = n / b;
    let r = n % b;
    lemma_fundamental_div_mod(n, b);
    assert(a == (-m - 1) * b + (b - 1 - r)) by (nonlinear_arith)
        requires
            n == b * m + r,
            a == -n - 1,
    ;
    lemma_fundamental_div_mod_converse(a, b, -m - 1, b - 1 - r);
}

/// Division is monotone in the dividend.
pub proof fn lemma_div_monotone(a: int, b: int, d: int)
    requires
        a <= b,
        d > 0,
    ensures
        a / d <= b / d,
{
    vstd::arithmetic::div_mod::lemma_div_is_ordered(a, b, d);
}

/// Floor division of a signed value by a positive divisor.
pub fn floor_div(a: i128, b: i128) -> (q: i128)
    requires
        b > 0,
    ensures
        q == a / b,
{
    if a >= 0 {
        a / b
    } else {
        let n: i128 = -(a + 1);
        let m: i128 = n / b;
        proof {
            lemma_floor_div_negative(a as int, b as int);
        }
        -m - 1
    }
}

/// Computes `clamp(x, lo, hi)`.
pub fn clamp_to(x: i128, lo: i128, hi: i128) -> (r: i128)
    ensures
        r == clamp(x as int, lo as int, hi as int),
{
    if x < lo {
        lo
    } else if x > hi {
        hi
    } else {
        x
    }
}

/// Computes `ratio(num, den)`.
pub fn ratio_of(num: i128, den: i128) -> (r: i128)
    requires
        0 < den <= DIVISOR_LIMIT,
    ensures
        r == ratio(num as int, den as int),
        -RATIO_LIMIT <= r <= RATIO_LIMIT,
{
    let q = floor_div(num, den);
    proof {
        lemma_ratio_split(num as int, den as int);
    }
    if q >= 10_000_000 {
        RATIO_LIMIT
    } else if q < -10_000_001 {
        -RATIO_LIMIT
    } else {
        proof {
            lemma_fundamental_div_mod(num as int, den as int);
            assert(den * q <= den * 10_000_000 && den * q >= den * -10_000_001)
                by (nonlinear_arith)
                requires
                    -10_000_001 <= q <= 10_000_000,
                    den > 0,
            ;
        }
        let rem: i128 = num - q * den;
        let t = floor_div(rem * SCALE, den);
        proof {
            lemma_div_monotone(0, rem * SCALE, den as int);
            lemma_div_monotone(rem * SCALE, den * SCALE, den as int);
            vstd::arithmetic::div_mod::lemma_div_multiples_vanish(SCALE as int, den as int);
        }
        clamp_to(q * SCALE + t, -RATIO_LIMIT, RATIO_LIMIT)
    }
}

/// A scaled quotient splits into the scaled whole part and the scaled
/// quotient of the remainder.
pub proof fn lemma_ratio_split(num: int, den: int)
    requires
        den > 0,
    ensures
        num * SCALE / den == (num / den) * SCALE + ((num % den) * SCALE) / den,
        0 <= ((num % den) * SCALE) / den < SCALE,
{
    let q = num / den;
    let rem = num % den;
    lemma_fundamental_div_mod(num, den);
    assert(num * SCALE == rem * SCALE + (q * SCALE) * den) by (nonlinear_arith)
        requires
            num == den * q + rem,
    ;
    vstd::arithmetic::div_mod::lemma_hoist_over_denominator(rem * SCALE, q * SCALE, den as nat);
    assert(0 <= rem * SCALE <= (den - 1) * SCALE) by (nonlinear_arith)
        requires
            0 <= rem < den,
    ;
    lemma_div_monotone(0, rem * SCALE, den);
    assert(rem * SCALE < den * SCALE) by (nonlinear_arith)
        requires
            0 <= rem < den,
    ;
    vstd::arithmetic::div_mod::lemma_div_multiples_vanish(SCALE as int, den);
    if (rem * SCALE) / den >= SCALE {
        lemma_fundamental_div_mod(rem * SCALE, den);
        assert(den * ((rem * SCALE) / den) >= den * SCALE) by (nonlinear_arith)
            requires
                (rem * SCALE) / den >= SCALE,
                den > 0,
        ;
    }
}

/// Computes `scaled(a, r)`.
pub fn scale_by(a: i128, r: i128) -> (p: i128)
    requires
        -PRODUCT_LIMIT <= a * r <= PRODUCT_LIMIT,
    ensures
        p == scaled(a as int, r as int),
{
    floor_div(a * r, SCALE)
}

/// The product of two bounded values is bounded by the product of the bounds.
pub proof fn lemma_product_bound(a: int, r: int, la: int, lr: int)
    requires
        -la <= a <= la,
        -lr <= r <= lr,
    ensures
        -(la * lr) <= a * r <= la * lr,
{
    assert(-(la * lr) <= a * r <= la * lr) by (nonlinear_arith)
        requires
            -la <= a <= la,
            -lr <= r <= lr,
    ;
}

/// `r` is the integer square root of `n`.
pub open spec fn is_isqrt(n: int, r: int) -> bool {
    r >= 0 && r * r <= n < (r + 1) * (r + 1)
}

/// The integer square root of `n`: the largest `r` with `r * r <= n`,
/// and zero for a negative `n`.
pub open spec fn isqrt(n: int) -> int {
    if n < 0 {
        0
    } else {
        choose|r: int| is_isqrt(n, r)
    }
}

/// At most one value is the integer square root of `n`.
pub proof fn lemma_isqrt_unique(n: int, r1: int, r2: int)
    requires
        is_isqrt(n, r1),
        is_isqrt(n, r2),
    ensures
        r1 == r2,
{
    if r1 < r2 {
        assert((r1 + 1) * (r1 + 1) <= r2 * r2) by (nonlinear_arith)
            requires
                0 <= r1,
                r1 + 1 <= r2,
        ;
    } else if r2 < r1 {
        assert((r2 + 1) * (r2 + 1) <= r1 * r1) by (nonlinear_arith)
            requires
                0 <= r2,
                r2 + 1 <= r1,
        ;
    }
}

/// Any value with the defining property is the integer square root.
pub proof fn lemma_isqrt_is(n: int, r: int)
    requires
        is_isqrt(n, r),
    ensures
        isqrt(n) == r,
{
    assert(r * r >= 0) by (nonlinear_arith);
    let c = choose|c: int| is_isqrt(n, c);
    lemma_isqrt_unique(n, c, r);
}

/// Computes the integer square root; zero for a negative argument.
pub fn isqrt_of(n: i128) -> (r: i128)
    ensures
        r == isqrt(n as int),
        n >= 0 ==> is_isqrt(n as int, r as int),
        0 <= r < 0x1_0000_0000_0000_0000,
{
    if n < 0 {
        0
    } else {
        let r = isqrt_unsigned(n as u128);
        r as i128
    }
}

/// Computes the integer square root by bisection.
pub fn isqrt_unsigned(n: u128) -> (r: u128)
    ensures
        r == isqrt(n as int),
        is_isqrt(n as int, r as int),
        r < 0x1_0000_0000_0000_0000,
{
    let mut lo: u128 = 0;
    let mut hi: u128 = 0x1_0000_0000_0000_0000;
    assert(hi * hi > n) by (nonlinear_arith)
        requires
            hi == 0x1_0000_0000_0000_0000,
            n <= u128::MAX,
    ;
    assert(lo * lo <= n) by (nonlinear_arith)
        requires
            lo == 0,
            n >= 0,
    ;
    while hi - lo > 1
        invariant
            lo < hi <= 0x1_0000_0000_0000_0000,
            lo * lo <= n < hi * hi,
        decreases hi - lo,
    {
        let mid: u128 = lo + (hi - lo) / 2;
        assert(mid * mid <= 0xffff_ffff_ffff_ffff * 0xffff_ffff_ffff_ffff) by (nonlinear_arith)
            requires
                0 <= mid <= 0xffff_ffff_ffff_ffff,
        ;
        if mid * mid <= n {
            lo = mid;
        } else {
            hi = mid;
        }
    }
    proof {
        assert(hi == lo + 1);
        lemma_isqrt_is(n as int, lo as int);
    }
    lo
}


/// Computes `fine_ratio(num, den)`.
pub fn fine_ratio_of(num: i128, den: i128) -> (r: i128)
    requires
        den > 0,
        -PRODUCT_LIMIT / 10_000_000_000_000_000 <= num <= PRODUCT_LIMIT / 10_000_000_000_000_000,
    ensures
        r == fine_ratio(num as int, den as int),
        -RETURN_LIMIT <= r <= RETURN_LIMIT,
{
    clamp_to(floor_div(num * FINE, den), -RETURN_LIMIT, RETURN_LIMIT)
}

/// Computes `coarse(x)`.
pub fn to_coarse(x: i128) -> (c: i128)
    ensures
        c == coarse(x as int),
{
    floor_div(x, FINE_PER_UNIT)
}

/// A product of two numbers, each split into whole fine units and a rest,
/// splits into a whole part and the product of the rests.
pub proof fn lemma_fine_product(a: int, r: int)
    ensures
        a * r / (FINE as int) == ((a / (FINE as int)) * (r / (FINE as int))) * FINE + (a / (
        FINE as int)) * (r % (FINE as int)) + (a % (FINE as int)) * (r / (FINE as int)) + ((a % (
        FINE as int)) * (r % (FINE as int))) / (FINE as int),
{
    let f = FINE as int;
    let ah = a / f;
    let al = a % f;
    let rh = r / f;
    let rl = r % f;
    lemma_fundamental_div_mod(a, f);
    lemma_fundamental_div_mod(r, f);
    let whole = (ah * rh) * f + ah * rl + al * rh;
    let x = f * ah;
    let y = f * rh;
    assert((x + al) * (y + rl) == x * y + x * rl + al * y + al * rl) by (nonlinear_arith);
    assert(x * y == ((ah * rh) * f) * f) by (nonlinear_arith)
        requires
            x == f * ah,
            y == f * rh,
    ;
    assert(x * rl == (ah * rl) * f) by (nonlinear_arith)
        requires
            x == f * ah,
    ;
    assert(al * y == (al * rh) * f) by (nonlinear_arith)
        requires
            y == f * rh,
    ;
    assert(whole * f == ((ah * rh) * f) * f + (ah * rl) * f + (al * rh) * f) by (nonlinear_arith)
        requires
            whole == (ah * rh) * f + ah * rl + al * rh,
    ;
    assert(a * r == al * rl + whole * f);
    vstd::arithmetic::div_mod::lemma_hoist_over_denominator(al * rl, whole, f as nat);
}

/// The value times the fine number, in the units of the value, rounded
/// down.
pub fn fine_mul(a: i128, r: i128) -> (p: i128)
    requires
        -EQUITY_LIMIT <= a <= EQUITY_LIMIT,
        -EQUITY_LIMIT <= r <= EQUITY_LIMIT,
    ensures
        p == a * r / (FINE as int),
{
    let ah = floor_div(a, FINE);
    let rh = floor_div(r, FINE);
    proof {
        lemma_fundamental_div_mod(a as int, FINE as int);
        lemma_fundamental_div_mod(r as int, FINE as int);
        lemma_div_monotone(a as int, EQUITY_LIMIT as int, FINE as int);
        lemma_div_monotone(-EQUITY_LIMIT as int, a as int, FINE as int);
        lemma_div_monotone(r as int, EQUITY_LIMIT as int, FINE as int);
        lemma_div_monotone(-EQUITY_LIMIT as int, r as int, FINE as int);
        assert(EQUITY_LIMIT as int / (FINE as int) == 10_000_000_000);
        assert(-EQUITY_LIMIT as int / (FINE as int) == -10_000_000_000);
    }
    let al: i128 = a - ah * FINE;
    let rl: i128 = r - rh * FINE;
    proof {
        assert(al == (a as int) % (FINE as int));
        assert(rl == (r as int) % (FINE as int));
        lemma_product_bound(ah as int, rh as int, 10_000_000_000, 10_000_000_000);
        lemma_product_bound(ah as int, rl as int, 10_000_000_000, FINE as int);
        lemma_product_bound(al as int, rh as int, FINE as int, 10_000_000_000);
        lemma_product_bound(al as int, rl as int, FINE as int, FINE as int);
        assert(al * rl >= 0) by (nonlinear_arith)
            requires
                al >= 0,
                rl >= 0,
        ;
        lemma_div_monotone(0, al * rl, FINE as int);
        lemma_div_monotone(al * rl, FINE * FINE, FINE as int);
        vstd::arithmetic::div_mod::lemma_div_multiples_vanish(FINE as int, FINE as int);
        lemma_fine_product(a as int, r as int);
    }
    let hh: i128 = ah * rh;
    hh * FINE + ah * rl + al * rh + floor_div(al * rl, FINE)
}

/// Computes `compound(value, fine_return)`.
pub fn compound_of(value: i128, fine_return: i128) -> (next: i128)
    requires
        -EQUITY_LIMIT <= value <= EQUITY_LIMIT,
        -RETURN_LIMIT <= fine_return <= RETURN_LIMIT,
    ensures
        next == compound(value as int, fine_return as int),
        -EQUITY_LIMIT <= next <= EQUITY_LIMIT,
{
    let gain = fine_mul(value, fine_return);
    proof {
        lemma_product_bound(
            value as int,
            fine_return as int,
            EQUITY_LIMIT as int,
            RETURN_LIMIT as int,
        );
        let top: int = 10_000_000_000_000_000_000_000_000_000_000_000_000_000_000_000_000int;
        let bound: int = 1_000_000_000_000_000_000_000_000_000_000_000int;
        assert(EQUITY_LIMIT == 100_000_000_000_000_000_000_000_000int);
        assert(RETURN_LIMIT == 100_000_000_000_000_000_000_000int);
        assert(100_000_000_000_000_000_000_000_000int * 100_000_000_000_000_000_000_000int
            == top);
        assert(top == bound * 10_000_000_000_000_000int);
        lemma_div_monotone(value * fine_return, top, FINE as int);
        lemma_div_monotone(-top, value * fine_return, FINE as int);
        vstd::arithmetic::div_mod::lemma_div_multiples_vanish(bound, FINE as int);
        vstd::arithmetic::div_mod::lemma_div_multiples_vanish(-bound, FINE as int);
        assert(top / (FINE as int) == bound);
        assert(-top / (FINE as int) == -bound);
    }
    clamp_to(value + gain, -EQUITY_LIMIT, EQUITY_LIMIT)
}

/// A step whose return is not negative does not lower a value that is not
/// negative.
pub proof fn lemma_compound_monotone(value: int, fine_return: int)
    requires
        0 <= value <= EQUITY_LIMIT,
        fine_return >= 0,
    ensures
        compound(value, fine_return) >= value,
{
    assert(value * fine_return >= 0) by (nonlinear_arith)
        requires
            value >= 0,
            fine_return >= 0,
    ;
    lemma_div_monotone(0, value * fine_return, FINE as int);
}

/// A step whose return is at least minus one leaves a value that is not
/// negative not negative.
pub proof fn lemma_compound_nonnegative(value: int, fine_return: int)
    requires
        0 <= value <= EQUITY_LIMIT,
        fine_return >= -FINE,
    ensures
        compound(value, fine_return) >= 0,
{
    assert(value * fine_return >= FINE * -value) by (nonlinear_arith)
        requires
            value >= 0,
            fine_return >= -FINE,
    ;
    lemma_div_monotone(FINE * -value, value * fine_return, FINE as int);
    vstd::arithmetic::div_mod::lemma_div_multiples_vanish(-value, FINE as int);
}

/// A fine ratio that does not saturate is the quotient rounded down: it
/// lies less than one fine unit below the quotient.
pub proof fn lemma_fine_ratio_floor(num: int, den: int)
    requires
        den > 0,
        -RETURN_LIMIT <= num * FINE / den <= RETURN_LIMIT,
    ensures
        fine_ratio(num, den) * den <= num * FINE < (fine_ratio(num, den) + 1) * den,
{
    let q = num * FINE / den;
    lemma_fundamental_div_mod(num * FINE, den);
    assert(q * den <= num * FINE < (q + 1) * den) by (nonlinear_arith)
        requires
            num * FINE == den * q + (num * FINE) % den,
            0 <= (num * FINE) % den < den,
    ;
}

/// A step that does not saturate is the product of the value and one plus
/// the return, rounded down: it lies less than one fine unit below the
/// product.
pub proof fn lemma_compound_floor(value: int, fine_return: int)
    requires
        -EQUITY_LIMIT <= value + value * fine_return / (FINE as int) <= EQUITY_LIMIT,
    ensures
        compound(value, fine_return) * FINE <= value * (FINE + fine_return) < (compound(
            value,
            fine_return,
        ) + 1) * FINE,
{
    let f = FINE as int;
    let p = value * fine_return;
    let q = p / f;
    lemma_fundamental_div_mod(p, f);
    assert(value * (f + fine_return) == value * f + p) by (nonlinear_arith)
        requires
            p == value * fine_return,
    ;
    assert((value + q) * f == value * f + q * f) by (nonlinear_arith);
    assert((value + q + 1) * f == value * f + q * f + f) by (nonlinear_arith);
    assert(f * q == q * f) by (nonlinear_arith);
}

} // verus!
