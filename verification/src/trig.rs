//! Fixed-point trigonometry and an integer square root.
//!
//! Angles are milliradians; the circle is 6284 milliradians (twice the
//! fixed-point half-turn of 3142), and sines come out scaled by 1000. The
//! sine uses a rational approximation on the half-turn, reflected for the
//! other half, so the same input always yields the same output and the
//! result never leaves [-1000, 1000].

use vstd::prelude::*;

verus! {

/// Half a turn, in milliradians.
pub const PI_MRAD: i64 = 3142;

/// A full turn, in milliradians.
pub const TWO_PI_MRAD: i64 = 6284;

/// Largest angle magnitude, in milliradians, the sine accepts.
pub const MRAD_ABS_MAX: i64 = 1_000_000_000_000_000;

/// The rational sine approximation on the first half-turn, scaled by 1000:
/// for `x` in [0, 3142] this is `16000 * x * (3142 - x)` over
/// `49_370_820 - 4 * x * (3142 - x)`, which stays within [0, 1000].
pub open spec fn sin_half_spec(x: int) -> int {
    let p = x * (3142 - x);
    (16000 * p) / (49_370_820 - 4 * p)
}

/// The sine over one full turn, scaled by 1000: the first half-turn as
/// `sin_half_spec`, the second reflected negative.
pub open spec fn sin_circle_spec(m: int) -> int {
    if m <= 3142 {
        sin_half_spec(m)
    } else {
        -sin_half_spec(m - 3142)
    }
}

/// The sine of any angle in milliradians, scaled by 1000: the angle is
/// reduced to one turn, negative angles by oddness.
pub open spec fn sin_milli_spec(x: int) -> int {
    if x >= 0 {
        sin_circle_spec(x % 6284)
    } else {
        -sin_circle_spec((-x) % 6284)
    }
}

/// The cosine of any angle in milliradians, scaled by 1000: the sine a
/// quarter-turn ahead.
pub open spec fn cos_milli_spec(x: int) -> int {
    sin_milli_spec(x + 1571)
}

/// The product `x * (3142 - x)` stays within [0, 2_468_041] on [0, 3142].
proof fn lemma_half_product_bounds(x: int)
    requires
        0 <= x <= 3142,
    ensures
        0 <= x * (3142 - x) <= 2_468_041,
{
    assert(0 <= x * (3142 - x) <= 2_468_041) by (nonlinear_arith)
        requires
            0 <= x <= 3142,
    ;
}

/// `sin_half_spec` stays within [0, 1000] on [0, 3142].
pub proof fn lemma_sin_half_bounds(x: int)
    requires
        0 <= x <= 3142,
    ensures
        0 <= sin_half_spec(x) <= 1000,
{
    lemma_half_product_bounds(x);
    let p = x * (3142 - x);
    let num = 16000 * p;
    let den = 49_370_820 - 4 * p;
    assert(den >= 39_498_656);
    assert(num >= 0);
    assert(num <= 1000 * den);
    assert(0 <= num / den <= 1000) by (nonlinear_arith)
        requires
            num >= 0,
            den > 0,
            num <= 1000 * den,
    ;
}

/// `sin_milli_spec` stays within [-1000, 1000] everywhere.
pub proof fn lemma_sin_milli_bounds(x: int)
    ensures
        -1000 <= sin_milli_spec(x) <= 1000,
{
    if x >= 0 {
        let m = x % 6284;
        assert(0 <= m < 6284);
        if m <= 3142 {
            lemma_sin_half_bounds(m);
        } else {
            lemma_sin_half_bounds(m - 3142);
        }
    } else {
        let m = (-x) % 6284;
        assert(0 <= m < 6284);
        if m <= 3142 {
            lemma_sin_half_bounds(m);
        } else {
            lemma_sin_half_bounds(m - 3142);
        }
    }
}

/// Computes `sin_half_spec` on [0, 3142].
fn sin_half(x: i64) -> (r: i64)
    requires
        0 <= x <= 3142,
    ensures
        r == sin_half_spec(x as int),
        0 <= r <= 1000,
{
    proof {
        lemma_half_product_bounds(x as int);
        lemma_sin_half_bounds(x as int);
    }
    let p: i64 = x * (3142 - x);
    let num: u64 = (16000 * p) as u64;
    let den: u64 = (49_370_820 - 4 * p) as u64;
    (num / den) as i64
}

/// Computes the fixed-point sine, scaled by 1000, of an angle in
/// milliradians.
pub fn sin_milli(x: i64) -> (r: i64)
    requires
        -MRAD_ABS_MAX <= x <= MRAD_ABS_MAX,
    ensures
        r == sin_milli_spec(x as int),
        -1000 <= r <= 1000,
{
    proof {
        lemma_sin_milli_bounds(x as int);
    }
    if x >= 0 {
        let m: i64 = x % 6284;
        if m <= 3142 {
            sin_half(m)
        } else {
            -sin_half(m - 3142)
        }
    } else {
        let m: i64 = (-x) % 6284;
        if m <= 3142 {
            -sin_half(m)
        } else {
            sin_half(m - 3142)
        }
    }
}

/// Computes the fixed-point cosine, scaled by 1000, of an angle in
/// milliradians.
pub fn cos_milli(x: i64) -> (r: i64)
    requires
        -MRAD_ABS_MAX <= x <= MRAD_ABS_MAX - 1571,
    ensures
        r == cos_milli_spec(x as int),
        -1000 <= r <= 1000,
{
    sin_milli(x + 1571)
}

/// The integer square root: the largest `r` with `r * r <= n`.
pub open spec fn isqrt_spec(n: int) -> int
    decreases n,
{
    if n <= 0 {
        0
    } else {
        let r = isqrt_spec(n - 1);
        if (r + 1) * (r + 1) <= n {
            r + 1
        } else {
            r
        }
    }
}

/// `isqrt_spec` is the rounded-down square root: its square is at most
/// `n` and the next square is beyond `n`.
pub proof fn lemma_isqrt_bounds(n: int)
    requires
        n >= 0,
    ensures
        0 <= isqrt_spec(n),
        isqrt_spec(n) * isqrt_spec(n) <= n,
        n < (isqrt_spec(n) + 1) * (isqrt_spec(n) + 1),
    decreases n,
{
    if n > 0 {
        lemma_isqrt_bounds(n - 1);
        let r = isqrt_spec(n - 1);
        if (r + 1) * (r + 1) <= n {
            assert(n < (r + 2) * (r + 2)) by (nonlinear_arith)
                requires
                    r >= 0,
                    n - 1 < (r + 1) * (r + 1),
            ;
        }
    }
}

/// Any nonnegative `r` whose square brackets `n` is the integer square
/// root of `n`.
pub proof fn lemma_isqrt_unique(n: int, r: int)
    requires
        n >= 0,
        r >= 0,
        r * r <= n,
        n < (r + 1) * (r + 1),
    ensures
        r == isqrt_spec(n),
{
    lemma_isqrt_bounds(n);
    let s = isqrt_spec(n);
    assert(r == s) by (nonlinear_arith)
        requires
            r >= 0,
            s >= 0,
            r * r <= n,
            n < (r + 1) * (r + 1),
            s * s <= n,
            n < (s + 1) * (s + 1),
    ;
}

/// Computes the integer square root by counting up; intended for the small
/// direction vectors of the camera, whose squared length stays tiny.
pub fn isqrt_u64(n: u64) -> (r: u64)
    requires
        n <= 0x1_0000_0000,
    ensures
        r * r <= n < (r + 1) * (r + 1),
        r == isqrt_spec(n as int),
{
    let mut r: u64 = 0;
    let mut sq: u64 = 0;
    while sq + 2 * r + 1 <= n
        invariant
            n <= 0x1_0000_0000,
            sq == r * r,
            sq <= n,
            r <= 0x1_0000,
        decreases n - sq,
    {
        proof {
            assert((r + 1) * (r + 1) == r * r + 2 * r + 1) by (nonlinear_arith);
            assert(r < 0x1_0000) by (nonlinear_arith)
                requires
                    (r + 1) * (r + 1) <= n,
                    n <= 0x1_0000_0000,
                    r >= 0,
            ;
        }
        sq = sq + 2 * r + 1;
        r = r + 1;
    }
    proof {
        assert((r + 1) * (r + 1) == r * r + 2 * r + 1) by (nonlinear_arith);
        lemma_isqrt_unique(n as int, r as int);
    }
    r
}

} // verus!
