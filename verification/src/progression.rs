//! The progression curve: cumulative experience thresholds for each level and
//! the level reached by a given amount of experience.
//!
//! Advancing from `level` to `level + 1` costs `5 * level^(3/2)` experience,
//! rounded to the nearest integer.  Since `5 * level^(3/2) = sqrt(25 * level^3)`,
//! the curve is defined exactly over the integers by a rounded square root,
//! with no floating point involved.

use vstd::prelude::*;

verus! {

/// Floor of the square root of `x`.
pub open spec fn sqrt_floor(x: nat) -> nat
    decreases x,
{
    if x == 0 {
        0
    } else {
        let r = sqrt_floor((x - 1) as nat);
        if (r + 1) * (r + 1) <= x {
            r + 1
        } else {
            r
        }
    }
}

pub proof fn lemma_sqrt_floor_bounds(x: nat)
    ensures
        sqrt_floor(x) * sqrt_floor(x) <= x,
        x < (sqrt_floor(x) + 1) * (sqrt_floor(x) + 1),
    decreases x,
{
    let s = sqrt_floor(x);
    if x == 0 {
        assert(s == 0);
        assert(s * s <= x && x < (s + 1) * (s + 1)) by (nonlinear_arith)
            requires s == 0 && x == 0;
    } else {
        lemma_sqrt_floor_bounds((x - 1) as nat);
        let r = sqrt_floor((x - 1) as nat);
        if (r + 1) * (r + 1) <= x {
            assert(s == r + 1);
            assert(x == (r + 1) * (r + 1));
            assert(s * s <= x && x < (s + 1) * (s + 1)) by (nonlinear_arith)
                requires s == r + 1 && x == (r + 1) * (r + 1);
        } else {
            assert(s == r);
            assert(r * r <= x - 1);
            assert(s * s <= x && x < (s + 1) * (s + 1)) by (nonlinear_arith)
                requires s == r && r * r <= x - 1 && x < (r + 1) * (r + 1);
        }
    }
}

pub proof fn lemma_sqrt_floor_unique(x: nat, r: nat)
    requires
        r * r <= x,
        x < (r + 1) * (r + 1),
    ensures
        r == sqrt_floor(x),
{
    lemma_sqrt_floor_bounds(x);
    let s = sqrt_floor(x);
    if r < s {
        assert((r + 1) * (r + 1) <= s * s) by (nonlinear_arith)
            requires r + 1 <= s;
    }
    if s < r {
        assert((s + 1) * (s + 1) <= r * r) by (nonlinear_arith)
            requires s + 1 <= r;
    }
}

/// The square root of `x`, rounded to the nearest integer.
///
/// `r` is the nearest integer to `sqrt(x)` exactly when
/// `(r - 1/2)^2 <= x <= (r + 1/2)^2`; over the integers the upper case is
/// `x <= r*r + r`, so the floor is rounded up exactly when `x > r*r + r`.
pub open spec fn sqrt_round(x: nat) -> nat {
    let r = sqrt_floor(x);
    if x > r * r + r {
        r + 1
    } else {
        r
    }
}

/// Experience needed to advance from `level` to `level + 1`:
/// `5 * level^(3/2)`, rounded to the nearest integer.
pub open spec fn experience_delta(level: nat) -> nat {
    sqrt_round(25 * level * level * level)
}

/// Cumulative experience required to reach `level`: the sum of the deltas of
/// levels `1` to `level - 1`.  Reaching level 1 (or below) costs nothing.
pub open spec fn experience_all(level: nat) -> nat
    decreases level,
{
    if level <= 1 {
        0
    } else {
        experience_all((level - 1) as nat) + experience_delta((level - 1) as nat)
    }
}

/// `level` is what a total of `exp` experience earns: its threshold is met,
/// the next one is not.
pub open spec fn is_level_for(exp: nat, level: nat) -> bool {
    &&& 1 <= level
    &&& experience_all(level) <= exp
    &&& exp < experience_all(level + 1)
}

pub proof fn lemma_delta_at_least_five(level: nat)
    requires
        1 <= level,
    ensures
        5 <= experience_delta(level),
{
    assert(25 <= 25 * level * level * level) by (nonlinear_arith)
        requires 1 <= level;
    let x: nat = 25 * level * level * level;
    let r = sqrt_floor(x);
    lemma_sqrt_floor_bounds(x);
    if r < 5 {
        assert((r + 1) * (r + 1) <= 25) by (nonlinear_arith)
            requires r + 1 <= 5;
    }
}

pub proof fn lemma_all_monotone(a: nat, b: nat)
    requires
        a <= b,
    ensures
        experience_all(a) <= experience_all(b),
    decreases b,
{
    if a < b && 1 < b {
        lemma_all_monotone(a, (b - 1) as nat);
    }
}

/// Each level past the first costs at least five experience, so the
/// thresholds grow at least linearly.
pub proof fn lemma_all_lower_bound(level: nat)
    requires
        1 <= level,
    ensures
        5 * (level - 1) <= experience_all(level),
    decreases level,
{
    if level > 1 {
        lemma_all_lower_bound((level - 1) as nat);
        lemma_delta_at_least_five((level - 1) as nat);
    }
}

/// Floor of the square root, by binary search on the root.
pub fn sqrt_floor_u128(x: u128) -> (r: u128)
    ensures
        r == sqrt_floor(x as nat),
{
    let mut lo: u128 = 0;
    let mut hi: u128 = 0x1_0000_0000_0000_0000;
    if x < hi {
        // a root below 2^32 keeps every square in range and tightens the search
        hi = if x < 0x1_0000_0000 { x + 1 } else { 0x1_0000_0000 };
    }
    proof {
        assert((x as nat) < (hi as nat) * (hi as nat)) by (nonlinear_arith)
            requires
                hi == 0x1_0000_0000_0000_0000 && x <= u128::MAX
                || hi == 0x1_0000_0000 && x < 0x1_0000_0000_0000_0000
                || hi == x + 1 && x < 0x1_0000_0000;
    }
    while hi - lo > 1
        invariant
            lo < hi,
            hi <= 0x1_0000_0000_0000_0000,
            (lo as nat) * (lo as nat) <= x as nat,
            (x as nat) < (hi as nat) * (hi as nat),
        decreases hi - lo,
    {
        let mid = lo + (hi - lo) / 2;
        proof {
            assert((mid as nat) * (mid as nat) < u128::MAX) by (nonlinear_arith)
                requires mid < 0x1_0000_0000_0000_0000;
        }
        if mid * mid <= x {
            lo = mid;
        } else {
            hi = mid;
        }
    }
    proof {
        lemma_sqrt_floor_unique(x as nat, lo as nat);
    }
    lo
}

/// Experience needed to advance from `level` to `level + 1`.
pub fn experience_for_level(level: u32) -> (r: u64)
    ensures
        r == experience_delta(level as nat),
{
    let l: u128 = level as u128;
    let a: u128 = 25 * l;
    proof {
        assert((a as nat) * (l as nat) < 0x20_0000_0000_0000_0000) by (nonlinear_arith)
            requires a < 0x20_0000_0000 && l < 0x1_0000_0000;
    }
    let b: u128 = a * l;
    proof {
        assert((b as nat) * (l as nat) < 0x20_0000_0000_0000_0000_0000_0000) by (nonlinear_arith)
            requires b < 0x20_0000_0000_0000_0000 && l < 0x1_0000_0000;
    }
    let cube: u128 = b * l;
    let r = sqrt_floor_u128(cube);
    proof {
        lemma_sqrt_floor_bounds(cube as nat);
        assert(r < 0x8_0000_0000_0000) by (nonlinear_arith)
            requires
                (r as nat) * (r as nat) <= cube as nat,
                cube < 0x20_0000_0000_0000_0000_0000_0000;
        assert((r as nat) * (r as nat) + r < u128::MAX) by (nonlinear_arith)
            requires r < 0x8_0000_0000_0000;
    }
    if cube > r * r + r {
        (r + 1) as u64
    } else {
        r as u64
    }
}

/// The delta of any level a 32-bit threshold can reach fits comfortably
/// in 64 bits.
proof fn lemma_delta_upper_bound(level: nat)
    requires
        level <= u32::MAX,
    ensures
        experience_delta(level) <= 0x8_0000_0000_0000,
{
    assert(25 * level * level * level < 0x20_0000_0000_0000_0000_0000_0000) by (nonlinear_arith)
        requires level <= u32::MAX;
    let x: nat = 25 * level * level * level;
    let r = sqrt_floor(x);
    lemma_sqrt_floor_bounds(x);
    if r >= 0x8_0000_0000_0000 {
        assert(0x20_0000_0000_0000_0000_0000_0000 <= r * r) by (nonlinear_arith)
            requires 0x8_0000_0000_0000 <= r;
    }
}

/// Cumulative experience required to reach `level`.
pub fn experience_all_for_level(level: u32) -> (r: u32)
    requires
        experience_all(level as nat) <= u32::MAX,
    ensures
        r == experience_all(level as nat),
{
    let mut total: u64 = 0;
    let mut n: u32 = 1;
    while n < level
        invariant
            1 <= n,
            level >= 1 ==> n <= level,
            level <= 1 ==> n == 1,
            total == experience_all(n as nat),
            experience_all(level as nat) <= u32::MAX,
        decreases level - n,
    {
        proof {
            lemma_all_monotone((n + 1) as nat, level as nat);
        }
        total = total + experience_for_level(n);
        n = n + 1;
    }
    proof {
        if level >= 1 {
            assert(n == level);
        } else {
            assert(experience_all(0) == 0);
            assert(experience_all(1) == 0);
        }
        assert(total == experience_all(level as nat));
        assert(total <= u32::MAX);
    }
    total as u32
}

/// Largest level whose cumulative threshold the given experience meets.
pub fn level_from_experience(exp: u32) -> (r: u32)
    ensures
        is_level_for(exp as nat, r as nat),
{
    let mut level: u32 = 1;
    let mut total: u64 = 0;
    proof {
        lemma_delta_upper_bound(1);
    }
    let mut d: u64 = experience_for_level(1);
    while total + d <= exp as u64
        invariant
            1 <= level,
            total == experience_all(level as nat),
            total <= exp,
            d == experience_delta(level as nat),
            d <= 0x8_0000_0000_0000,
            5 * (level - 1) <= total,
        decreases exp - total,
    {
        proof {
            lemma_delta_at_least_five(level as nat);
            lemma_all_lower_bound((level + 1) as nat);
            lemma_delta_upper_bound((level + 1) as nat);
        }
        total = total + d;
        level = level + 1;
        d = experience_for_level(level);
    }
    level
}

/// What the status report calls the distance to the next level: one past
/// the threshold of the level after next, less the experience held.
pub fn experience_to_next_level(level: u32, experience: u32) -> (r: u32)
    requires
        level + 2 <= u32::MAX,
        experience_all((level + 2) as nat) + 1 <= u32::MAX,
        experience <= experience_all((level + 2) as nat),
    ensures
        r == experience_all((level + 2) as nat) + 1 - experience,
{
    let next = experience_all_for_level(level + 2) + 1;
    next - experience
}

/// The curve inverts: the cumulative threshold of a level earns exactly
/// that level back.
pub proof fn lemma_level_inverts_experience(level: nat)
    requires
        1 <= level,
    ensures
        is_level_for(experience_all(level), level),
{
    lemma_delta_at_least_five(level);
}

/// At most one level answers to a given amount of experience.
pub proof fn lemma_level_for_unique(exp: nat, a: nat, b: nat)
    requires
        is_level_for(exp, a),
        is_level_for(exp, b),
    ensures
        a == b,
{
    if a < b {
        lemma_all_monotone(a + 1, b);
    }
    if b < a {
        lemma_all_monotone(b + 1, a);
    }
}

/// Each threshold is the previous one plus that level's rounded delta.
pub proof fn lemma_experience_all_step(level: nat)
    ensures
        experience_all(level + 1) == experience_all(level) + experience_delta(level),
{
    if level == 0 {
        assert(experience_delta(0) == 0);
    }
}

} // verus!
