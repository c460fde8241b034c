//! Fixed-point micro-unit arithmetic.
//!
//! A fixed-point value is an `i64` counting millionths: `FX_ONE` stands for
//! 1.0 playfield widths (or one second, for timers). Values that evolve
//! frame by frame are kept inside `[-FX_LIMIT, FX_LIMIT]`, which leaves ample
//! headroom for every per-frame displacement while ruling out overflow.

use vstd::prelude::*;

verus! {

/// One playfield width (or one second), in micro-units.
pub const FX_ONE: i64 = 1_000_000;

/// Every evolving fixed-point quantity stays within this magnitude.
pub const FX_LIMIT: i64 = 0x400_0000_0000;

/// Largest frame delta the simulation accepts: 0.1 s.
pub const DT_MAX: i64 = 100_000;

/// `v` pulled into `[-FX_LIMIT, FX_LIMIT]`.
pub open spec fn fx_clip(v: int) -> int {
    if v < -FX_LIMIT {
        -FX_LIMIT as int
    } else if v > FX_LIMIT {
        FX_LIMIT as int
    } else {
        v
    }
}

/// `p + d`, pulled into `[-FX_LIMIT, FX_LIMIT]`.
pub fn fx_shift(p: i64, d: i64) -> (r: i64)
    requires
        -FX_LIMIT <= p <= FX_LIMIT,
        -0x4000_0000_0000_0000 <= d <= 0x4000_0000_0000_0000,
    ensures
        r == fx_clip(p + d),
        -FX_LIMIT <= r <= FX_LIMIT,
{
    let s: i64 = p + d;
    if s < -FX_LIMIT {
        -FX_LIMIT
    } else if s > FX_LIMIT {
        FX_LIMIT
    } else {
        s
    }
}

/// A timer decremented by `dt`, floored at `-FX_LIMIT`.
pub fn tick_down(t: i64, dt: i64) -> (r: i64)
    requires
        -FX_LIMIT <= t <= FX_LIMIT,
        0 <= dt <= DT_MAX,
    ensures
        r == fx_clip(t - dt),
        -FX_LIMIT <= r <= t,
{
    let s: i64 = t - dt;
    if s < -FX_LIMIT {
        -FX_LIMIT
    } else {
        s
    }
}

/// `a + b`, saturating at `u64::MAX`.
pub open spec fn sat_add_spec(a: u64, b: u64) -> u64 {
    if a + b <= u64::MAX {
        (a + b) as u64
    } else {
        u64::MAX
    }
}

/// `a + b`, saturating at `u64::MAX`.
pub fn sat_add_u64(a: u64, b: u64) -> (r: u64)
    ensures
        r == sat_add_spec(a, b),
        a + b <= u64::MAX ==> r == a + b,
        a + b > u64::MAX ==> r == u64::MAX,
{
    if a <= u64::MAX - b {
        a + b
    } else {
        u64::MAX
    }
}

/// `r` is the floor of the square root of `x`.
pub open spec fn is_floor_sqrt(x: int, r: int) -> bool {
    0 <= r && r * r <= x < (r + 1) * (r + 1)
}

/// The floor of the square root of `x`, as a mathematical function.
pub open spec fn floor_sqrt(x: int) -> int
    decreases x,
{
    if x <= 0 {
        0
    } else {
        let r = floor_sqrt(x - 1);
        if (r + 1) * (r + 1) <= x {
            r + 1
        } else {
            r
        }
    }
}

pub proof fn lemma_floor_sqrt(x: int)
    requires
        x >= 0,
    ensures
        is_floor_sqrt(x, floor_sqrt(x)),
    decreases x,
{
    if x == 0 {
    } else {
        lemma_floor_sqrt(x - 1);
        let r = floor_sqrt(x - 1);
        if (r + 1) * (r + 1) <= x {
            assert(x < ((r + 1) + 1) * ((r + 1) + 1)) by (nonlinear_arith)
                requires
                    x - 1 < (r + 1) * (r + 1),
                    r >= 0,
            ;
        }
    }
}

pub proof fn lemma_floor_sqrt_unique(x: int, r: int)
    requires
        x >= 0,
        is_floor_sqrt(x, r),
    ensures
        r == floor_sqrt(x),
{
    lemma_floor_sqrt(x);
    let s = floor_sqrt(x);
    if r < s {
        assert((r + 1) * (r + 1) <= s * s) by (nonlinear_arith)
            requires
                0 <= r + 1 <= s,
        ;
    }
    if s < r {
        assert((s + 1) * (s + 1) <= r * r) by (nonlinear_arith)
            requires
                0 <= s + 1 <= r,
        ;
    }
}

/// Floor of the square root of `x`.
pub fn isqrt_u64(x: u64) -> (r: u64)
    requires
        x < 0x4000_0000_0000_0000,
    ensures
        r * r <= x,
        x < (r + 1) * (r + 1),
        r == floor_sqrt(x as int),
{
    let mut lo: u64 = 0;
    let mut hi: u64 = 0x8000_0000;
    while lo + 1 < hi
        invariant
            lo < hi <= 0x8000_0000,
            lo * lo <= x,
            x < hi * hi,
        decreases hi - lo,
    {
        let mid: u64 = lo + (hi - lo) / 2;
        assert(lo < mid < hi);
        assert(mid * mid <= 0x4000_0000_0000_0000) by (nonlinear_arith)
            requires
                mid <= 0x8000_0000,
        ;
        if mid * mid <= x {
            lo = mid;
        } else {
            hi = mid;
        }
    }
    proof {
        lemma_floor_sqrt_unique(x as int, lo as int);
    }
    lo
}

} // verus!
