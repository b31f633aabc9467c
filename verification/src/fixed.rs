//! Q16.16 fixed-point scalars: an `i32` raw value `r` stands for `r / 65536`.

use vstd::prelude::*;
use vstd::arithmetic::div_mod::{lemma_fundamental_div_mod, lemma_fundamental_div_mod_converse};

verus! {

/// The raw value of the number one.
pub const ONE: i32 = 65536;

/// The raw value of one half.
pub const HALF: i32 = 32768;

/// `v` limited to the range of `i32`.
pub open spec fn clamp_i32(v: int) -> int {
    if v < i32::MIN as int {
        i32::MIN as int
    } else if v > i32::MAX as int {
        i32::MAX as int
    } else {
        v
    }
}

/// The quotient `a / b` rounded towards negative infinity, for `b != 0`.
pub open spec fn floor_div(a: int, b: int) -> int {
    if b > 0 {
        a / b
    } else {
        (-a) / (-b)
    }
}

/// The fixed-point product of two raw values, before it is limited to `i32`.
pub open spec fn mul_exact(a: int, b: int) -> int {
    (a * b) / 65536
}

/// The fixed-point product of two raw values.
pub open spec fn mul_spec(a: int, b: int) -> int {
    clamp_i32(mul_exact(a, b))
}

/// The fixed-point quotient of two raw values.  The quotient by zero is the
/// end of the range on the side of the dividend, and zero for zero.
pub open spec fn div_spec(a: int, b: int) -> int {
    if b != 0 {
        clamp_i32(floor_div(a * 65536, b))
    } else if a > 0 {
        i32::MAX as int
    } else if a < 0 {
        i32::MIN as int
    } else {
        0
    }
}

/// `r` is the integer square root of `v`: the largest `r` with `r * r <= v`.
pub open spec fn is_isqrt(v: int, r: int) -> bool {
    0 <= r && r * r <= v && v < (r + 1) * (r + 1)
}

/// The integer square root of `v`, for `v >= 0`.
pub open spec fn isqrt_spec(v: int) -> int {
    choose|r: int| is_isqrt(v, r)
}

/// A quotient is fixed by the two multiples of the divisor that enclose the dividend.
pub proof fn lemma_div_between(a: int, b: int, q: int)
    requires
        b > 0,
        q * b <= a < (q + 1) * b,
    ensures
        a / b == q,
{
    assert((q + 1) * b == q * b + b) by (nonlinear_arith);
    lemma_fundamental_div_mod_converse(a, b, q, a - q * b);
}

/// The quotient by a positive divisor encloses the dividend.
pub proof fn lemma_div_bounds(a: int, b: int)
    requires
        b > 0,
    ensures
        (a / b) * b <= a < (a / b + 1) * b,
{
    assert((a / b) * b <= a < (a / b + 1) * b) by (nonlinear_arith)
        requires
            b > 0,
    ;
}

/// There is at most one integer square root.
pub proof fn lemma_isqrt_unique(v: int, r: int, s: int)
    requires
        is_isqrt(v, r),
        is_isqrt(v, s),
    ensures
        r == s,
{
    assert(r == s) by (nonlinear_arith)
        requires
            0 <= r,
            0 <= s,
            r * r <= v,
            v < (r + 1) * (r + 1),
            s * s <= v,
            v < (s + 1) * (s + 1),
    ;
}

/// The product of two bounded integers is bounded by the product of the bounds.
pub proof fn lemma_mul_bounded(a: int, b: int, m: int, n: int)
    requires
        -m <= a <= m,
        -n <= b <= n,
    ensures
        -(m * n) <= a * b <= m * n,
{
    assert(-(m * n) <= a * b <= m * n) by (nonlinear_arith)
        requires
            -m <= a <= m,
            -n <= b <= n,
    ;
}

/// Limits a wide value to the range of `i32`.
pub fn saturate(v: i128) -> (r: i32)
    ensures
        r == clamp_i32(v as int),
{
    if v < -2147483648 {
        -2147483648
    } else if v > 2147483647 {
        2147483647
    } else {
        v as i32
    }
}

/// Divides rounding towards negative infinity.
pub fn div_floor(a: i128, b: i128) -> (q: i128)
    requires
        b != 0,
        i128::MIN < a,
        i128::MIN < b,
    ensures
        q == floor_div(a as int, b as int),
{
    let (n, d): (i128, i128) = if b > 0 {
        (a, b)
    } else {
        (-a, -b)
    };
    if n >= 0 {
        n / d
    } else {
        let m: i128 = -n - 1;
        let q: i128 = m / d;
        proof {
            lemma_div_bounds(m as int, d as int);
            let qi = q as int;
            assert((-qi - 1) * d == -(qi * d) - d) by (nonlinear_arith);
            assert((-qi - 1 + 1) * d == -(qi * d)) by (nonlinear_arith);
            assert((qi + 1) * d == qi * d + d) by (nonlinear_arith);
            lemma_div_between(n as int, d as int, -qi - 1);
        }
        -q - 1
    }
}

/// The remainder of the division that rounds towards negative infinity: it
/// is never negative.
pub fn mod_floor(a: i128, b: i128) -> (r: i128)
    requires
        b > 0,
        i128::MIN < a - b,
    ensures
        r == a % b,
        0 <= r < b,
{
    let q: i128 = div_floor(a, b);
    proof {
        lemma_div_bounds(a as int, b as int);
        assert((a / b + 1) * b == (a / b) * b + b) by (nonlinear_arith);
        lemma_fundamental_div_mod(a as int, b as int);
        assert(b * (a / b) == (a / b) * b) by (nonlinear_arith);
    }
    a - q * b
}

/// Multiplies two fixed-point numbers, rounding down and saturating.
pub fn mul_fixed(a: i32, b: i32) -> (r: i32)
    ensures
        r == mul_spec(a as int, b as int),
{
    proof {
        lemma_mul_bounded(a as int, b as int, 0x8000_0000, 0x8000_0000);
    }
    let p: i128 = (a as i128) * (b as i128);
    saturate(div_floor(p, 65536))
}

/// Divides two fixed-point numbers, rounding down and saturating.  The
/// quotient by zero is the end of the range on the side of the dividend,
/// and zero for zero.
pub fn div_fixed(a: i32, b: i32) -> (r: i32)
    ensures
        r == div_spec(a as int, b as int),
{
    if b != 0 {
        saturate(div_floor((a as i128) * 65536, b as i128))
    } else if a > 0 {
        i32::MAX
    } else if a < 0 {
        i32::MIN
    } else {
        0
    }
}

/// The integer square root: the largest `r` whose square does not exceed `v`.
pub fn isqrt(v: u64) -> (r: u64)
    ensures
        is_isqrt(v as int, r as int),
        r == isqrt_spec(v as int),
        r < 0x1_0000_0000,
{
    let mut lo: u64 = 0;
    let mut hi: u64 = 0x1_0000_0000;
    while hi - lo > 1
        invariant
            lo < hi <= 0x1_0000_0000,
            lo * lo <= v,
            v < hi * hi,
        decreases hi - lo,
    {
        let mid: u64 = lo + (hi - lo) / 2;
        proof {
            lemma_mul_bounded(mid as int, mid as int, 0xffff_ffff, 0xffff_ffff);
        }
        if mid * mid <= v {
            lo = mid;
        } else {
            hi = mid;
        }
    }
    proof {
        assert(hi == lo + 1);
        assert(is_isqrt(v as int, lo as int));
        lemma_isqrt_unique(v as int, lo as int, isqrt_spec(v as int));
    }
    lo
}

} // verus!
