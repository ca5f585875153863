//! XP/level arithmetic.
//!
//! A member's level grows with the square root of accumulated XP:
//! level(xp) = (ceil(sqrt(20 * xp + 500)) - 50) / 10 once xp reaches 100,
//! and 0 below that. The square root is computed exactly on integers: the
//! result is the unique r with (r - 1)^2 < v <= r^2.

use vstd::prelude::*;

verus! {

/// The largest XP amount whose level can be computed: for `xp` up to this
/// bound the intermediate `20 * xp + 500` of the level formula stays
/// within `i32`.
pub const MAX_LEVEL_XP: i32 = 107_374_157;

/// `r` is the ceiling of the square root of `v`, for `v >= 1`.
pub open spec fn is_ceil_sqrt(r: int, v: int) -> bool {
    &&& r >= 1
    &&& (r - 1) * (r - 1) < v
    &&& v <= r * r
}

/// The ceiling of the square root of `v`, for `v >= 1`.
pub open spec fn ceil_sqrt_spec(v: int) -> int {
    choose|r: int| is_ceil_sqrt(r, v)
}

/// At most one integer is the ceiling square root of a given value.
pub proof fn lemma_ceil_sqrt_unique(a: int, b: int, v: int)
    requires
        is_ceil_sqrt(a, v),
        is_ceil_sqrt(b, v),
    ensures
        a == b,
{
    if a < b {
        assert((b - 1) * (b - 1) >= a * a) by (nonlinear_arith)
            requires 1 <= a, a <= b - 1,;
    }
    if b < a {
        assert((a - 1) * (a - 1) >= b * b) by (nonlinear_arith)
            requires 1 <= b, b <= a - 1,;
    }
}

/// The level a member has at `xp` accumulated points.
pub open spec fn spec_xp_to_lvl(xp: int) -> int {
    if xp < 100 {
        0
    } else {
        (ceil_sqrt_spec(20 * xp + 500) - 50) / 10
    }
}

/// Ceiling of the integer square root, by binary search.
pub fn ceil_sqrt(v: u32) -> (r: u32)
    requires
        1 <= v,
    ensures
        is_ceil_sqrt(r as int, v as int),
        r == ceil_sqrt_spec(v as int),
{
    let mut lo: u32 = 1;
    let mut hi: u32 = 65536;
    proof {
        assert(65536int * 65536int >= v as int);
    }
    while lo < hi
        invariant
            1 <= lo <= hi <= 65536,
            (lo - 1) * (lo - 1) < v as int,
            hi * hi >= v as int,
        decreases hi - lo,
    {
        let mid: u32 = lo + (hi - lo) / 2;
        proof {
            assert((mid as int) * (mid as int) <= 65536int * 65536int) by (nonlinear_arith)
                requires 0 <= (mid as int), (mid as int) <= 65536,;
        }
        if (mid as u64) * (mid as u64) >= v as u64 {
            hi = mid;
        } else {
            lo = mid + 1;
        }
    }
    proof {
        assert(is_ceil_sqrt(lo as int, v as int));
        lemma_ceil_sqrt_unique(lo as int, ceil_sqrt_spec(v as int), v as int);
    }
    lo
}

/// Calculate the member's level from the amount of XP they have.
pub fn xp_to_lvl(xp: i32) -> (r: i32)
    requires
        xp < 100 || 20 * xp + 500 <= i32::MAX,
    ensures
        r == spec_xp_to_lvl(xp as int),
{
    if xp < 100 {
        0
    } else {
        let v: i32 = 20 * xp + 500;
        let s: u32 = ceil_sqrt(v as u32);
        proof {
            if s < 50 {
                assert(s as int * (s as int) < 2500) by (nonlinear_arith)
                    requires 1 <= s as int <= 49,;
            }
            if s > 46341 {
                assert((s as int - 1) * (s as int - 1) >= 46341int * 46341int) by (nonlinear_arith)
                    requires s as int - 1 >= 46341,;
            }
        }
        (s as i32 - 50) / 10
    }
}

/// Calculate the amount of XP a level costs in total.
pub fn lvl_to_xp(lvl: i32) -> (r: i32)
    requires
        5 * lvl * lvl <= i32::MAX,
        5 * lvl * lvl + 50 * lvl + 100 <= i32::MAX,
    ensures
        r == 5 * lvl * lvl + 50 * lvl + 100,
{
    proof {
        assert((lvl as int) * (lvl as int) >= 0) by (nonlinear_arith);
        assert(5 * (lvl as int) * (lvl as int) == 5 * ((lvl as int) * (lvl as int)))
            by (nonlinear_arith);
        if lvl >= 20725 || lvl <= -20725 {
            assert((lvl as int) * (lvl as int) >= 20725int * 20725int) by (nonlinear_arith)
                requires (lvl as int) >= 20725 || (lvl as int) <= -20725,;
            assert(false);
        }
    }
    5 * (lvl * lvl) + 50 * lvl + 100
}

/// Calculate the amount of XP still needed to reach the next level.
pub fn xp_to_next_lvl(lvl: i32, xp: i32) -> (r: i32)
    requires
        5 * lvl * lvl <= i32::MAX,
        5 * lvl * lvl + 5 * lvl + 100 <= i32::MAX,
        i32::MIN <= 5 * lvl * lvl + 5 * lvl + 100 - xp <= i32::MAX,
    ensures
        r == 5 * lvl * lvl + 5 * lvl + 100 - xp,
{
    proof {
        assert((lvl as int) * (lvl as int) >= 0) by (nonlinear_arith);
        assert(5 * (lvl as int) * (lvl as int) == 5 * ((lvl as int) * (lvl as int)))
            by (nonlinear_arith);
        if lvl >= 20725 || lvl <= -20725 {
            assert((lvl as int) * (lvl as int) >= 20725int * 20725int) by (nonlinear_arith)
                requires (lvl as int) >= 20725 || (lvl as int) <= -20725,;
            assert(false);
        }
    }
    (5 * (lvl * lvl) + 5 * lvl + 100) - xp
}

} // verus!
