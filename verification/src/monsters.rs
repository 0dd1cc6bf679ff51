//! Monsters: the template drawn from the bestiary, the randomized stats of a
//! spawned instance, and the record of a defeat.

use vstd::prelude::*;
use crate::bonus;

verus! {

/// The lifecycle status of a monster instance that is still alive.
pub const MONSTER_ALIVE: i32 = 1;

/// The lifecycle status of a defeated monster instance.
pub const MONSTER_DEFEATED: i32 = 2;

/// A monster: either a template of the bestiary or one spawned instance.
#[derive(Debug)]
pub struct Monster {
    pub id: i32,
    pub level: i32,
    pub status: i32,
    pub name: String,
    pub picture: String,
    pub attack: i32,
    pub defense: i32,
    pub agility: i32,
    pub experience_reward: i32,
    pub gold_reward: i32,
    pub hp: i32,
    pub mp: i32,
    pub defeat_user_id: i32,
}

impl Monster {
    /// A well-formed monster: nothing negative.
    pub open spec fn wf(self) -> bool {
        &&& 0 <= self.attack
        &&& 0 <= self.defense
        &&& 0 <= self.agility
        &&& 0 <= self.experience_reward
        &&& 0 <= self.gold_reward
        &&& 0 <= self.hp
        &&& 0 <= self.mp
    }
}

/// The stats of one instance spawned from `template`: the template's stats
/// plus the five rolled bonuses, in the slot order hit points, mana points,
/// agility, attack, defense.  Rewards, name and depiction are copied; the
/// instance starts alive and undefeated.
pub fn spawned_monster(template: &Monster, bonuses: &Vec<u32>) -> (m: Monster)
    requires
        bonuses@.len() == 5,
        bonus::points_sum(bonuses@) <= 30,
        template.hp <= i32::MAX - 30,
        template.mp <= i32::MAX - 30,
        template.attack <= i32::MAX - 30,
        template.defense <= i32::MAX - 30,
        template.agility <= i32::MAX - 30,
    ensures
        m.hp == template.hp + bonuses@[0],
        m.mp == template.mp + bonuses@[1],
        m.agility == template.agility + bonuses@[2],
        m.attack == template.attack + bonuses@[3],
        m.defense == template.defense + bonuses@[4],
        m.id == template.id,
        m.level == template.level,
        m.status == MONSTER_ALIVE,
        m.name@ == template.name@,
        m.picture@ == template.picture@,
        m.experience_reward == template.experience_reward,
        m.gold_reward == template.gold_reward,
        m.defeat_user_id == -1,
        template.wf() ==> m.wf(),
{
    proof {
        assert forall|i: int| 0 <= i < 5 implies bonuses@[i] <= 30 by {
            bonus::lemma_points_sum_element_bound(bonuses@, i);
        }
    }
    Monster {
        id: template.id,
        level: template.level,
        status: MONSTER_ALIVE,
        name: template.name.clone(),
        picture: template.picture.clone(),
        attack: template.attack + bonuses[3] as i32,
        defense: template.defense + bonuses[4] as i32,
        agility: template.agility + bonuses[2] as i32,
        experience_reward: template.experience_reward,
        gold_reward: template.gold_reward,
        hp: template.hp + bonuses[0] as i32,
        mp: template.mp + bonuses[1] as i32,
        defeat_user_id: -1,
    }
}

/// The record of `monster` once `user_id` has defeated it: the status flips
/// to defeated and the defeater is remembered; everything else is kept.
pub fn mark_defeated(monster: &Monster, user_id: i32) -> (m: Monster)
    ensures
        m.status == MONSTER_DEFEATED,
        m.defeat_user_id == user_id,
        m.id == monster.id,
        m.level == monster.level,
        m.name@ == monster.name@,
        m.picture@ == monster.picture@,
        m.attack == monster.attack,
        m.defense == monster.defense,
        m.agility == monster.agility,
        m.experience_reward == monster.experience_reward,
        m.gold_reward == monster.gold_reward,
        m.hp == monster.hp,
        m.mp == monster.mp,
{
    Monster {
        id: monster.id,
        level: monster.level,
        status: MONSTER_DEFEATED,
        name: monster.name.clone(),
        picture: monster.picture.clone(),
        attack: monster.attack,
        defense: monster.defense,
        agility: monster.agility,
        experience_reward: monster.experience_reward,
        gold_reward: monster.gold_reward,
        hp: monster.hp,
        mp: monster.mp,
        defeat_user_id: user_id,
    }
}

} // verus!
