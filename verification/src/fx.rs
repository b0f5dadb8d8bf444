//! Fixed-point scalar arithmetic.
//!
//! Every coordinate in this crate is an `i64` holding a pixel value scaled
//! by [`SCALE`]: the value `SCALE` is one pixel, `SCALE / 2` half a pixel.
//! Working on scaled integers keeps all of the geometry inside machine
//! integers, where it can be verified exactly; the only rounding is the
//! truncating division that the contracts below spell out.

use vstd::prelude::*;

verus! {

/// Fixed-point units per pixel.
pub const SCALE: i64 = 4096;

/// Largest magnitude accepted for a coordinate, width, radius or thickness
/// handed to the drawing API, in fixed-point units (2^30, one quarter
/// million pixels). The bound keeps every intermediate product of the
/// tessellators inside `i64`.
pub const MAX_COORD: i64 = 0x4000_0000;

/// A value small enough to be a drawing-API input.
pub open spec fn in_range(c: i64) -> bool {
    -MAX_COORD <= c <= MAX_COORD
}

/// Truncating division (the rounding of Rust's `/`): the quotient is
/// rounded toward zero. Meaningful for `b > 0`.
pub open spec fn trunc_div(a: int, b: int) -> int
    recommends
        b > 0,
{
    if a >= 0 {
        a / b
    } else {
        -((-a) / b)
    }
}

/// Divides `a` by the positive `b`, rounding toward zero.
pub fn trunc_div_i64(a: i64, b: i64) -> (q: i64)
    requires
        b > 0,
        a > i64::MIN,
    ensures
        q == trunc_div(a as int, b as int),
{
    if a >= 0 {
        ((a as u64) / (b as u64)) as i64
    } else {
        let m: u64 = (-a) as u64;
        -((m / (b as u64)) as i64)
    }
}

/// Dividing a value bounded by `k * b` by `b` gives a quotient bounded by
/// `k`.
pub proof fn lemma_trunc_div_shrink(a: int, b: int, k: int)
    requires
        b >= 1,
        k >= 0,
        -(k * b) <= a <= k * b,
    ensures
        -k <= trunc_div(a, b) <= k,
{
    assert(-k <= trunc_div(a, b) <= k) by (nonlinear_arith)
        requires
            b >= 1,
            k >= 0,
            -(k * b) <= a <= k * b,
            trunc_div(a, b) == (if a >= 0 { a / b } else { -((-a) / b) }),
    ;
}

/// Whether `r` is the floor of the square root of `m`.
pub open spec fn is_sqrt_floor(m: int, r: int) -> bool {
    0 <= r && r * r <= m && m < (r + 1) * (r + 1)
}

/// The floor of the square root of `m` (meaningful for `m >= 0`).
pub open spec fn sqrt_floor(m: int) -> int {
    choose|r: int| is_sqrt_floor(m, r)
}

/// Every non-negative integer has a floor square root.
proof fn lemma_sqrt_exists(m: nat)
    ensures
        exists|r: int| is_sqrt_floor(m as int, r),
    decreases m,
{
    if m == 0 {
        assert(is_sqrt_floor(0, 0));
    } else {
        lemma_sqrt_exists((m - 1) as nat);
        let r = choose|r: int| #[trigger] is_sqrt_floor(m - 1, r);
        if (r + 1) * (r + 1) <= m {
            assert(is_sqrt_floor(m as int, r + 1)) by (nonlinear_arith)
                requires
                    is_sqrt_floor(m - 1, r),
                    (r + 1) * (r + 1) <= m,
            ;
        } else {
            assert(is_sqrt_floor(m as int, r));
        }
    }
}

/// The floor square root of a non-negative integer satisfies its defining
/// inequalities.
pub proof fn lemma_sqrt_floor_props(m: int)
    requires
        m >= 0,
    ensures
        is_sqrt_floor(m, sqrt_floor(m)),
{
    lemma_sqrt_exists(m as nat);
}

/// The floor square root is unique, so any `r` satisfying
/// [`is_sqrt_floor`] is [`sqrt_floor`].
pub proof fn lemma_sqrt_floor_unique(m: int, r: int)
    requires
        is_sqrt_floor(m, r),
    ensures
        r == sqrt_floor(m),
{
    lemma_sqrt_exists(m as nat);
    let q = sqrt_floor(m);
    assert(is_sqrt_floor(m, q));
    assert(r == q) by (nonlinear_arith)
        requires
            is_sqrt_floor(m, r),
            is_sqrt_floor(m, q),
    ;
}

/// The integer square root: the largest `r` with `r * r <= x`.
pub fn isqrt_u64(x: u64) -> (r: u64)
    ensures
        r * r <= x < (r + 1) * (r + 1),
        r == sqrt_floor(x as int),
        r < 0x1_0000_0000,
{
    let mut lo: u64 = 0;
    let mut hi: u64 = 0x1_0000_0000;
    while lo + 1 < hi
        invariant
            lo < hi <= 0x1_0000_0000,
            lo * lo <= x,
            x < hi * hi,
        decreases hi - lo,
    {
        let mid: u64 = lo + (hi - lo) / 2;
        assert(mid * mid < 0x1_0000_0000_0000_0000) by (nonlinear_arith)
            requires
                mid < 0x1_0000_0000,
        ;
        if mid * mid <= x {
            lo = mid;
        } else {
            hi = mid;
        }
    }
    proof {
        lemma_sqrt_floor_unique(x as int, lo as int);
    }
    lo
}

/// The fixed-point half-wave sine. `t` measures a fraction of a half turn
/// in `SCALE` units (`0` is `0` rad, `SCALE` is pi rad); the result is the
/// sine in `SCALE` units. The rational approximation below agrees with the
/// exact sine to about three decimal places across the whole half turn.
pub open spec fn sin_half_spec(t: int) -> int {
    let p = t * (SCALE - t);
    (16 * p * SCALE) / (5 * SCALE * SCALE - 4 * p)
}

/// Computes [`sin_half_spec`] exactly.
pub fn sin_half_fx(t: i64) -> (s: i64)
    requires
        0 <= t <= SCALE,
    ensures
        s == sin_half_spec(t as int),
        0 <= s <= SCALE,
{
    proof {
        assert(0 <= t * (SCALE - t) <= 0x40_0000) by (nonlinear_arith)
            requires
                0 <= t <= 4096,
        ;
    }
    let p: i64 = t * (SCALE - t);
    let num: u64 = (16 * p * SCALE) as u64;
    let den: u64 = (5 * SCALE * SCALE - 4 * p) as u64;
    let s: i64 = (num / den) as i64;
    proof {
        assert(num as int / den as int <= 4096) by (nonlinear_arith)
            requires
                num <= 4096 * den,
                den > 0,
        ;
    }
    s
}

/// Landmarks of the fixed-point sine: it vanishes at both ends of the
/// half turn and peaks at exactly one at the quarter turn.
pub proof fn lemma_sin_landmarks()
    ensures
        sin_half_spec(0) == 0,
        sin_half_spec(SCALE as int) == 0,
        sin_half_spec(SCALE as int / 2) == SCALE,
{
    assert(sin_half_spec(0) == 0 && sin_half_spec(4096) == 0 && sin_half_spec(2048) == 4096)
        by (nonlinear_arith)
        requires
            sin_half_spec(0) == (16 * (0 * (4096 - 0)) * 4096) / (5 * 4096 * 4096 - 4 * (0 * (4096
                - 0))),
            sin_half_spec(4096) == (16 * (4096 * (4096 - 4096)) * 4096) / (5 * 4096 * 4096 - 4 * (
            4096 * (4096 - 4096))),
            sin_half_spec(2048) == (16 * (2048 * (4096 - 2048)) * 4096) / (5 * 4096 * 4096 - 4 * (
            2048 * (4096 - 2048))),
    ;
}

/// The fixed-point full-wave sine. `a` measures a fraction of a full turn
/// in half-turn `SCALE` units, so `a` ranges over `[0, 2 * SCALE)`.
pub open spec fn sin_turn_spec(a: int) -> int {
    if a <= SCALE {
        sin_half_spec(a)
    } else {
        -sin_half_spec(a - SCALE)
    }
}

/// Computes [`sin_turn_spec`] exactly.
pub fn sin_turn_fx(a: i64) -> (s: i64)
    requires
        0 <= a < 2 * SCALE,
    ensures
        s == sin_turn_spec(a as int),
        -SCALE <= s <= SCALE,
{
    if a <= SCALE {
        sin_half_fx(a)
    } else {
        -sin_half_fx(a - SCALE)
    }
}

/// Shifts a full-turn angle by a quarter turn, wrapping at the full turn,
/// turning the sine into the cosine of the unshifted angle.
pub open spec fn quarter_shift(a: int) -> int {
    if a + SCALE / 2 < 2 * SCALE {
        a + SCALE / 2
    } else {
        a + SCALE / 2 - 2 * SCALE
    }
}

/// The angle of rim vertex `i` of an `n`-gon, as a fraction of a full turn
/// in half-turn `SCALE` units.
pub open spec fn rim_angle(i: int, n: int) -> int
    recommends
        0 <= i < n,
{
    (2 * SCALE * i) / n
}

/// The fixed-point cosine of `-2 * pi * i / n` (the cosine is even, so the
/// sign of the angle does not show).
pub open spec fn rim_cos(i: int, n: int) -> int {
    sin_turn_spec(quarter_shift(rim_angle(i, n)))
}

/// The fixed-point sine of `-2 * pi * i / n`: the negated sine of the
/// positive angle.
pub open spec fn rim_sin(i: int, n: int) -> int {
    -sin_turn_spec(rim_angle(i, n))
}

/// Computes the fixed-point unit vector at rim position `i` of `n`, that is
/// `(rim_cos(i, n), rim_sin(i, n))`.
pub fn rim_unit(i: usize, n: usize) -> (cs: (i64, i64))
    requires
        i < n <= 0x1_0000,
    ensures
        cs.0 == rim_cos(i as int, n as int),
        cs.1 == rim_sin(i as int, n as int),
        -SCALE <= cs.0 <= SCALE,
        -SCALE <= cs.1 <= SCALE,
{
    proof {
        assert(2 * (SCALE as u64) * (i as u64) < 0x4000_0000) by (nonlinear_arith)
            requires
                SCALE == 4096,
                i < 0x1_0000,
        ;
    }
    let num: u64 = 2 * (SCALE as u64) * (i as u64);
    let a: i64 = (num / (n as u64)) as i64;
    proof {
        assert(a < 2 * SCALE) by (nonlinear_arith)
            requires
                a == (2 * 4096 * i) / (n as int),
                0 <= i < n,
        ;
    }
    let b: i64 = if a + SCALE / 2 < 2 * SCALE {
        a + SCALE / 2
    } else {
        a + SCALE / 2 - 2 * SCALE
    };
    let c: i64 = sin_turn_fx(b);
    let s: i64 = sin_turn_fx(a);
    (c, -s)
}

} // verus!
