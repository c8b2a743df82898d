//! Saturating fixed-point arithmetic on `i64` thousandths.
//!
//! A value `v` stands for the real number `v / 1000`. Every operation computes
//! the exact mathematical result, rounds it down to the next thousandth where a
//! division is involved, and then clamps it into the range of `i64`, so no
//! operation can overflow or fault.

use vstd::prelude::*;
use vstd::arithmetic::div_mod::{
    lemma_div_is_ordered, lemma_div_multiples_vanish, lemma_div_pos_is_pos,
    lemma_fundamental_div_mod, lemma_fundamental_div_mod_converse_div,
};

verus! {

/// The fixed-point representation of the real number one.
pub const ONE: i64 = 1000;

/// `v` clamped into the range of `i64`.
pub open spec fn clamp(v: int) -> int {
    if v < i64::MIN {
        i64::MIN as int
    } else if v > i64::MAX {
        i64::MAX as int
    } else {
        v
    }
}

/// Clamped sum.
pub open spec fn sum(a: int, b: int) -> int {
    clamp(a + b)
}

/// Clamped difference.
pub open spec fn diff(a: int, b: int) -> int {
    clamp(a - b)
}

/// The floor of `n / d`, for a divisor of either sign; `d` is not zero.
pub open spec fn floor_div(n: int, d: int) -> int {
    if d > 0 {
        n / d
    } else {
        (-n) / (-d)
    }
}

/// Clamped floor of `a * b / c`. A zero divisor gives the limit of the range on
/// the side of the numerator's sign, and zero for a zero numerator.
pub open spec fn ratio(a: int, b: int, c: int) -> int {
    if c != 0 {
        clamp(floor_div(a * b, c))
    } else if a * b > 0 {
        i64::MAX as int
    } else if a * b < 0 {
        i64::MIN as int
    } else {
        0
    }
}

/// Clamped fixed-point product: the floor of `a * b / 1000`.
pub open spec fn prod(a: int, b: int) -> int {
    ratio(a, b, ONE as int)
}

/// Clamped fixed-point quotient: the floor of `a * 1000 / b`.
pub open spec fn quot(a: int, b: int) -> int {
    ratio(a, ONE as int, b)
}

/// `v` clamped into the range of `i64`.
pub fn narrow(v: i128) -> (r: i64)
    ensures
        r == clamp(v as int),
{
    if v < -9223372036854775808i128 {
        i64::MIN
    } else if v > 9223372036854775807i128 {
        i64::MAX
    } else {
        v as i64
    }
}

/// Saturating sum.
pub fn sat_add(a: i64, b: i64) -> (r: i64)
    ensures
        r == sum(a as int, b as int),
{
    narrow(a as i128 + b as i128)
}

/// Saturating difference.
pub fn sat_sub(a: i64, b: i64) -> (r: i64)
    ensures
        r == diff(a as int, b as int),
{
    narrow(a as i128 - b as i128)
}

/// The product of two `i64` values lies strictly inside the range of `i128`.
pub proof fn lemma_product_bound(a: int, b: int)
    requires
        i64::MIN <= a <= i64::MAX,
        i64::MIN <= b <= i64::MAX,
    ensures
        -0x4000_0000_0000_0000_0000_0000_0000_0000 <= a * b
            <= 0x4000_0000_0000_0000_0000_0000_0000_0000,
{
    assert(-0x4000_0000_0000_0000_0000_0000_0000_0000 <= a * b
        <= 0x4000_0000_0000_0000_0000_0000_0000_0000) by (nonlinear_arith)
        requires
            -0x8000_0000_0000_0000 <= a <= 0x8000_0000_0000_0000,
            -0x8000_0000_0000_0000 <= b <= 0x8000_0000_0000_0000,
    ;
}

fn wide_floor_div(n: i128, d: i128) -> (r: i128)
    requires
        d != 0,
        d > i128::MIN,
        n > i128::MIN,
    ensures
        r == floor_div(n as int, d as int),
{
    let nn: i128 = if d > 0 { n } else { -n };
    let dd: i128 = if d > 0 { d } else { -d };
    if nn >= 0 {
        nn / dd
    } else {
        let an: i128 = -nn;
        let q: i128 = an / dd;
        let m: i128 = an % dd;
        proof {
            lemma_fundamental_div_mod(an as int, dd as int);
            if m == 0 {
                assert(nn as int == (-q) * dd + 0) by (nonlinear_arith)
                    requires
                        an == dd * q + m,
                        m == 0,
                        nn == -an,
                ;
                lemma_fundamental_div_mod_converse_div(
                    nn as int,
                    dd as int,
                    -q as int,
                    0,
                );
            } else {
                assert(nn as int == (-q - 1) * dd + (dd - m)) by (nonlinear_arith)
                    requires
                        an == dd * q + m,
                        nn == -an,
                ;
                lemma_fundamental_div_mod_converse_div(
                    nn as int,
                    dd as int,
                    -q - 1,
                    dd - m,
                );
            }
        }
        if m == 0 {
            -q
        } else {
            -q - 1
        }
    }
}

/// Saturating floor of `a * b / c`.
pub fn mul_div(a: i64, b: i64, c: i64) -> (r: i64)
    ensures
        r == ratio(a as int, b as int, c as int),
{
    proof {
        lemma_product_bound(a as int, b as int);
    }
    let n: i128 = (a as i128) * (b as i128);
    if c != 0 {
        narrow(wide_floor_div(n, c as i128))
    } else if n > 0 {
        i64::MAX
    } else if n < 0 {
        i64::MIN
    } else {
        0
    }
}

/// The clamped floor of `i * span / n`: the part of `span` that belongs to the
/// first `i` of `n` equal shares; `n` is positive.
pub open spec fn share(i: int, span: int, n: int) -> int {
    clamp((i * span) / n)
}

/// No more than `n` shares of a span that is not negative lie inside the span.
pub proof fn lemma_share_range(i: int, span: int, n: int)
    requires
        0 <= i <= n,
        0 < n,
        0 <= span,
    ensures
        0 <= (i * span) / n <= span,
{
    assert(0 <= i * span <= n * span) by (nonlinear_arith)
        requires
            0 <= i <= n,
            0 <= span,
    ;
    lemma_div_pos_is_pos(i * span, n);
    lemma_div_is_ordered(i * span, n * span, n);
    assert((n * span) / n == span) by {
        lemma_div_multiples_vanish(span, n);
        assert(n * span == span * n) by (nonlinear_arith);
    }
}

/// The part of `span` that belongs to the first `i` of `n` equal shares.
pub fn share_of(i: usize, span: i64, n: usize) -> (r: i64)
    requires
        n > 0,
    ensures
        r == share(i as int, span as int, n as int),
{
    proof {
        assert(-0xffff_ffff_ffff_ffff * 0x8000_0000_0000_0000 <= i * span
            <= 0xffff_ffff_ffff_ffff * 0x8000_0000_0000_0000) by (nonlinear_arith)
            requires
                0 <= i <= 0xffff_ffff_ffff_ffff,
                -0x8000_0000_0000_0000 <= span <= 0x8000_0000_0000_0000,
        ;
    }
    let p: i128 = (i as i128) * (span as i128);
    narrow(wide_floor_div(p, n as i128))
}

/// Saturating fixed-point product.
pub fn fx_mul(a: i64, b: i64) -> (r: i64)
    ensures
        r == prod(a as int, b as int),
{
    mul_div(a, b, ONE)
}

/// Saturating fixed-point quotient.
pub fn fx_div(a: i64, b: i64) -> (r: i64)
    ensures
        r == quot(a as int, b as int),
{
    mul_div(a, ONE, b)
}

/// `r` is the floor of the square root of `n`.
pub open spec fn is_root(n: int, r: int) -> bool {
    0 <= r && r * r <= n < (r + 1) * (r + 1)
}

/// The floor of the square root of `n`, for `n >= 0`.
pub open spec fn root(n: int) -> int {
    choose|r: int| is_root(n, r)
}

/// A number has at most one floor square root.
pub proof fn lemma_root_unique(n: int, r: int, s: int)
    requires
        is_root(n, r),
        is_root(n, s),
    ensures
        r == s,
{
    if r < s {
        assert((r + 1) * (r + 1) <= s * s) by (nonlinear_arith)
            requires
                0 <= r,
                r + 1 <= s,
        ;
    } else if s < r {
        assert((s + 1) * (s + 1) <= r * r) by (nonlinear_arith)
            requires
                0 <= s,
                s + 1 <= r,
        ;
    }
}

/// Floor square root by bisection.
pub fn isqrt(n: u128) -> (r: u128)
    ensures
        r == root(n as int),
        is_root(n as int, r as int),
        r < 0x1_0000_0000_0000_0000,
{
    let mut lo: u128 = 0;
    let mut hi: u128 = 0x1_0000_0000_0000_0000;
    assert(n < hi * hi) by (nonlinear_arith)
        requires
            hi == 0x1_0000_0000_0000_0000,
            n <= u128::MAX,
    ;
    while hi - lo > 1
        invariant
            lo < hi <= 0x1_0000_0000_0000_0000,
            lo * lo <= n < hi * hi,
        decreases hi - lo,
    {
        let mid: u128 = lo + (hi - lo) / 2;
        assert(mid * mid <= 0xffff_ffff_ffff_ffff * 0xffff_ffff_ffff_ffff) by (nonlinear_arith)
            requires
                0 <= mid <= 0xffff_ffff_ffff_ffff,
        ;
        if mid * mid <= n {
            lo = mid;
        } else {
            hi = mid;
        }
    }
    proof {
        assert(hi == lo + 1);
        let witness = lo as int;
        assert(is_root(n as int, witness));
        lemma_root_unique(n as int, witness, root(n as int));
    }
    lo
}

} // verus!
