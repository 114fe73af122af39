//! Fixed-point scalar helpers shared by the simulation: the global scale,
//! sine-range mapping, and an exact integer square root.

use vstd::prelude::*;

verus! {

/// Number of fixed-point steps per distance unit: all coordinates, radii and
/// color channels are carried as multiples of 1/1000 of a unit.
pub const SCALE: i64 = 1000;

/// Largest magnitude (in milli-units) any coordinate handled by the
/// simulation may reach; keeps squared distances inside `u64`.
pub const COORD_LIMIT: i64 = 1_000_000_000;

/// Linear interpolation of a scaled sine value `s` in [-SCALE, SCALE] into
/// the interval [lo, hi], as exact integer arithmetic (quotient truncated
/// toward zero; the numerator is never negative).
pub open spec fn spec_map_range(s: int, lo: int, hi: int) -> int {
    lo + ((s + 1000) * (hi - lo)) / 2000
}

/// Maps a scaled sine value `s` in [-SCALE, SCALE] onto [lo, hi]: the result
/// always stays in [lo, hi] and the endpoints are hit exactly at s = ±SCALE.
pub fn map_range(s: i64, lo: i64, hi: i64) -> (r: i64)
    requires
        -1000 <= s <= 1000,
        lo <= hi,
        -COORD_LIMIT <= lo,
        hi <= COORD_LIMIT,
    ensures
        r == spec_map_range(s as int, lo as int, hi as int),
        lo <= r <= hi,
        s == -1000 ==> r == lo,
        s == 1000 ==> r == hi,
{
    proof {
        lemma_map_range_in_bounds(s as int, lo as int, hi as int);
    }
    lo + ((s + 1000) * (hi - lo)) / 2000
}

/// For every scaled sine value in [-SCALE, SCALE] and every interval
/// [lo, hi], the mapped value lies in [lo, hi], and the endpoints are
/// reached exactly where the sine is exactly -1 or 1.
pub proof fn lemma_map_range_in_bounds(s: int, lo: int, hi: int)
    requires
        -1000 <= s <= 1000,
        lo <= hi,
    ensures
        lo <= spec_map_range(s, lo, hi) <= hi,
        s == -1000 ==> spec_map_range(s, lo, hi) == lo,
        s == 1000 ==> spec_map_range(s, lo, hi) == hi,
{
    assert(0 <= (s + 1000) * (hi - lo)) by (nonlinear_arith)
        requires
            -1000 <= s,
            lo <= hi,
    ;
    assert((s + 1000) * (hi - lo) <= 2000 * (hi - lo)) by (nonlinear_arith)
        requires
            s <= 1000,
            lo <= hi,
    ;
    let num = (s + 1000) * (hi - lo);
    vstd::arithmetic::div_mod::lemma_div_pos_is_pos(num, 2000);
    vstd::arithmetic::div_mod::lemma_div_is_ordered(num, 2000 * (hi - lo), 2000);
    vstd::arithmetic::div_mod::lemma_div_by_multiple(hi - lo, 2000);
    if s == -1000 {
        assert((s + 1000) * (hi - lo) == 0) by (nonlinear_arith)
            requires
                s == -1000,
        ;
        assert(num / 2000 == 0) by {
            vstd::arithmetic::div_mod::lemma_div_of0(2000);
        }
    }
    if s == 1000 {
        assert(num == 2000 * (hi - lo));
    }
}

/// `r` is the integer square root of `n`, rounded down.
pub open spec fn is_sqrt_floor(n: int, r: int) -> bool {
    &&& 0 <= r
    &&& r * r <= n
    &&& n < (r + 1) * (r + 1)
}

/// The integer square root of `n`, rounded down (meaningful for `n >= 0`).
pub open spec fn sqrt_floor(n: int) -> int {
    choose|r: int| is_sqrt_floor(n, r)
}

/// At most one integer qualifies as the rounded-down square root of `n`.
pub proof fn lemma_sqrt_floor_unique(n: int, r: int)
    requires
        is_sqrt_floor(n, r),
    ensures
        sqrt_floor(n) == r,
{
    assert(is_sqrt_floor(n, sqrt_floor(n)));
    let q = sqrt_floor(n);
    if q < r {
        assert((q + 1) * (q + 1) <= r * r) by (nonlinear_arith)
            requires
                0 <= q,
                q < r,
        ;
    }
    if r < q {
        assert((r + 1) * (r + 1) <= q * q) by (nonlinear_arith)
            requires
                0 <= r,
                r < q,
        ;
    }
}

/// Integer square root, rounded down, by binary search.
pub fn isqrt(n: u64) -> (r: u64)
    ensures
        is_sqrt_floor(n as int, r as int),
        r == sqrt_floor(n as int),
{
    let mut lo: u64 = 0;
    let mut hi: u64 = 4_294_967_296;
    assert((hi as int) * (hi as int) > n as int) by (nonlinear_arith)
        requires
            hi == 4_294_967_296u64,
            n <= u64::MAX,
    ;
    while lo + 1 < hi
        invariant
            0 <= lo < hi <= 4_294_967_296,
            (lo as int) * (lo as int) <= n as int,
            (n as int) < (hi as int) * (hi as int),
        decreases hi - lo,
    {
        let mid: u64 = lo + (hi - lo) / 2;
        assert(lo < mid < hi);
        assert((mid as int) * (mid as int) <= 4_294_967_296 * 4_294_967_296) by (nonlinear_arith)
            requires
                0 <= mid <= 4_294_967_296u64,
        ;
        if (mid as u128) * (mid as u128) <= n as u128 {
            lo = mid;
        } else {
            hi = mid;
        }
    }
    proof {
        lemma_sqrt_floor_unique(n as int, lo as int);
    }
    lo
}

} // verus!
