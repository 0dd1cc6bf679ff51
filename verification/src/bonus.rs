//! The attribute randomizer: a random partition of a drawn bonus-point
//! budget over a number of attribute slots.  Character creation and monster
//! spawning share the same distributor and differ only in their slot count
//! and budget range.

use vstd::prelude::*;
use crate::random::RandomSource;

verus! {

/// Sum of a sequence of bonus points.
pub open spec fn points_sum(s: Seq<u32>) -> int
    decreases s.len(),
{
    if s.len() == 0 {
        0
    } else {
        points_sum(s.drop_last()) + s.last()
    }
}

proof fn lemma_points_sum_push(s: Seq<u32>, v: u32)
    ensures
        points_sum(s.push(v)) == points_sum(s) + v,
{
    assert(s.push(v).drop_last() =~= s);
}

pub proof fn lemma_points_sum_nonneg(s: Seq<u32>)
    ensures
        0 <= points_sum(s),
    decreases s.len(),
{
    if s.len() > 0 {
        lemma_points_sum_nonneg(s.drop_last());
    }
}

/// Every slot is bounded by the whole sum.
pub proof fn lemma_points_sum_element_bound(s: Seq<u32>, i: int)
    requires
        0 <= i < s.len(),
    ensures
        s[i] <= points_sum(s),
    decreases s.len(),
{
    if i == s.len() - 1 {
        lemma_points_sum_nonneg(s.drop_last());
    } else {
        lemma_points_sum_element_bound(s.drop_last(), i);
    }
}

/// Adding `v` to one slot adds `v` to the sum.
proof fn lemma_points_sum_update(s: Seq<u32>, i: int, v: u32)
    requires
        0 <= i < s.len(),
        s[i] + v <= u32::MAX,
    ensures
        points_sum(s.update(i, (s[i] + v) as u32)) == points_sum(s) + v,
    decreases s.len(),
{
    let t = s.update(i, (s[i] + v) as u32);
    if i == s.len() - 1 {
        assert(t.drop_last() =~= s.drop_last());
    } else {
        assert(t.drop_last() =~= s.drop_last().update(i, (s[i] + v) as u32));
        assert(t.last() == s.last());
        lemma_points_sum_update(s.drop_last(), i, v);
    }
}

/// The sum of five slots, written out.
pub proof fn lemma_points_sum_five(s: Seq<u32>)
    requires
        s.len() == 5,
    ensures
        points_sum(s) == s[0] + s[1] + s[2] + s[3] + s[4],
{
    let s4 = s.drop_last();
    let s3 = s4.drop_last();
    let s2 = s3.drop_last();
    let s1 = s2.drop_last();
    let s0 = s1.drop_last();
    assert(s0.len() == 0);
    assert(points_sum(s1) == points_sum(s0) + s1.last());
    assert(points_sum(s2) == points_sum(s1) + s2.last());
    assert(points_sum(s3) == points_sum(s2) + s3.last());
    assert(points_sum(s4) == points_sum(s3) + s4.last());
    assert(points_sum(s) == points_sum(s4) + s.last());
}

/// The sum of six slots, written out.
pub proof fn lemma_points_sum_six(s: Seq<u32>)
    requires
        s.len() == 6,
    ensures
        points_sum(s) == s[0] + s[1] + s[2] + s[3] + s[4] + s[5],
{
    lemma_points_sum_five(s.drop_last());
    assert(points_sum(s) == points_sum(s.drop_last()) + s.last());
}

/// Distribute `budget` bonus points over `slots` attribute slots: repeatedly
/// pick a slot uniformly at random, give it a uniform share of what is left,
/// until nothing is left.  The returned bonuses are non-negative and sum to
/// the budget exactly.
pub fn distribute_bonus_points(slots: usize, budget: u32, rng: &mut RandomSource) -> (bonuses: Vec<u32>)
    requires
        1 <= slots,
    ensures
        bonuses@.len() == slots,
        points_sum(bonuses@) == budget,
{
    let mut bonuses: Vec<u32> = Vec::new();
    let mut k: usize = 0;
    while k < slots
        invariant
            k <= slots,
            bonuses@.len() == k,
            points_sum(bonuses@) == 0,
        decreases slots - k,
    {
        proof {
            lemma_points_sum_push(bonuses@, 0);
        }
        bonuses.push(0);
        k = k + 1;
    }
    let mut remaining: u32 = budget;
    while remaining > 0
        invariant
            1 <= slots,
            bonuses@.len() == slots,
            points_sum(bonuses@) + remaining == budget,
        decreases remaining,
    {
        let slot = rng.next_below(slots as u64) as usize;
        let points = rng.draw_range(1, remaining as u64 + 1) as u32;
        proof {
            lemma_points_sum_element_bound(bonuses@, slot as int);
            lemma_points_sum_nonneg(bonuses@);
            lemma_points_sum_update(bonuses@, slot as int, points);
        }
        bonuses[slot] = bonuses[slot] + points;
        remaining = remaining - points;
    }
    bonuses
}

/// Roll the bonus points of a new character: a budget of 5 to 30 points over
/// the six slots hit points, mana points, agility, luck, attack and defense.
pub fn roll_character_bonuses(rng: &mut RandomSource) -> (r: (u32, Vec<u32>))
    ensures
        5 <= r.0 < 31,
        r.1@.len() == 6,
        points_sum(r.1@) == r.0,
{
    let budget = rng.draw_range(5, 31) as u32;
    let bonuses = distribute_bonus_points(6, budget, rng);
    (budget, bonuses)
}

/// Roll the bonus points of a spawned monster: the bounds of the budget are
/// themselves drawn (the lower from 1 to 2, the upper from 4 to 9), and the
/// budget is spread over the five slots hit points, mana points, agility,
/// attack and defense.
pub fn roll_monster_bonuses(rng: &mut RandomSource) -> (r: (u32, Vec<u32>))
    ensures
        1 <= r.0 < 9,
        r.1@.len() == 5,
        points_sum(r.1@) == r.0,
{
    let lo = rng.draw_range(1, 3);
    let hi = rng.draw_range(4, 10);
    let budget = rng.draw_range(lo, hi) as u32;
    let bonuses = distribute_bonus_points(5, budget, rng);
    (budget, bonuses)
}

} // verus!
