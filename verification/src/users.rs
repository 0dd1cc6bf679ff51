//! Characters of the guild: the persistent record of one registered player
//! and the randomized roll of a fresh one.

use vstd::prelude::*;
use crate::bonus;
use crate::random::RandomSource;

verus! {

/// A registered player and their persistent stats.
#[derive(Debug)]
pub struct User {
    pub user_id: i32,
    pub npub: String,
    pub level: i32,
    pub experience: i32,
    pub gold: i32,
    pub current_hp: i32,
    pub max_hp: i32,
    pub current_mp: i32,
    pub max_mp: i32,
    pub attack: i32,
    pub defense: i32,
    pub agility: i32,
    pub luck: i32,
}

impl User {
    /// A well-formed character: a positive level, nothing negative, and
    /// current points within their maxima.
    pub open spec fn wf(self) -> bool {
        &&& 1 <= self.level
        &&& 0 <= self.experience
        &&& 0 <= self.gold
        &&& 0 <= self.current_hp <= self.max_hp
        &&& 0 <= self.current_mp <= self.max_mp
        &&& 0 <= self.attack
        &&& 0 <= self.defense
        &&& 0 <= self.agility
        &&& 0 <= self.luck
    }
}

/// Roll a fresh level-1 character for `npub`: base stats of 10 hit points,
/// 0 mana, 3 attack, 3 defense, 3 agility and 0 luck, plus a randomized
/// bonus budget of 5 to 30 points spread over the six stats.  The storage
/// id is left at zero for the storage layer to assign.
pub fn new_user(npub: String, rng: &mut RandomSource) -> (u: User)
    ensures
        u.wf(),
        u.user_id == 0,
        u.npub@ == npub@,
        u.level == 1,
        u.experience == 0,
        u.gold == 0,
        u.max_hp == u.current_hp,
        u.max_mp == u.current_mp,
        10 <= u.current_hp,
        0 <= u.current_mp,
        3 <= u.attack,
        3 <= u.defense,
        3 <= u.agility,
        0 <= u.luck,
        5 <= (u.current_hp - 10) + u.current_mp + (u.agility - 3) + u.luck + (u.attack - 3)
            + (u.defense - 3) < 31,
{
    let (budget, b) = bonus::roll_character_bonuses(rng);
    proof {
        bonus::lemma_points_sum_six(b@);
        assert forall|i: int| 0 <= i < 6 implies b@[i] <= 30 by {
            bonus::lemma_points_sum_element_bound(b@, i);
        }
    }
    let hp_bonus = b[0] as i32;
    let mp_bonus = b[1] as i32;
    let agility_bonus = b[2] as i32;
    let luck_bonus = b[3] as i32;
    let attack_bonus = b[4] as i32;
    let defense_bonus = b[5] as i32;
    User {
        user_id: 0,
        npub,
        level: 1,
        experience: 0,
        gold: 0,
        current_hp: 10 + hp_bonus,
        max_hp: 10 + hp_bonus,
        current_mp: mp_bonus,
        max_mp: mp_bonus,
        attack: 3 + attack_bonus,
        defense: 3 + defense_bonus,
        agility: 3 + agility_bonus,
        luck: luck_bonus,
    }
}

} // verus!
