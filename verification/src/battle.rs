//! The combat resolver: a turn-based battle between one character and one
//! monster instance, budgeted at twenty turns, with a structured transcript
//! of every action in chronological order, and the progression applier that
//! turns the outcome into the character's next persistent record.

use vstd::prelude::*;
use crate::monsters::Monster;
use crate::progression;
use crate::random::RandomSource;
use crate::users::User;

verus! {

/// One line of the battle transcript, in the order it happened.
#[derive(Debug)]
pub enum BattleEvent {
    /// The monster shows itself.
    Appeared,
    /// The character struck the monster for `damage`.
    UserAttackHit { damage: i64 },
    /// The monster dodged the character's attack.
    UserAttackDodged,
    /// The monster struck the character for `damage`, leaving them at `user_hp`.
    MonsterAttackHit { damage: i64, user_hp: i64 },
    /// The character dodged the monster's attack.
    MonsterAttackDodged,
    /// Both still stood when the turn budget ran out.
    Fled,
    /// The monster fell, yielding the rewards.
    Won { experience: i32, gold: i32 },
    /// The character's new total experience reached a higher level.
    LevelUp,
    /// The character fell.
    Lost,
}

/// The chance of a dodge, in hundredths: a base of 10, plus the defender's
/// agility lead clamped between 0 and 100.  At 100 and above the defender
/// always dodges; a faster attacker never pushes it below the base.
pub open spec fn dodge_threshold(agility_difference: int) -> int {
    10 + if agility_difference < 0 {
        0
    } else if agility_difference > 100 {
        100
    } else {
        agility_difference
    }
}

/// A dodge lead's worth never shrinks as the defender gets relatively
/// faster, and strictly grows while the clamp has not saturated.
pub proof fn lemma_dodge_threshold_monotone(d1: int, d2: int)
    requires
        d1 <= d2,
    ensures
        dodge_threshold(d1) <= dodge_threshold(d2),
        0 <= d1 && d1 < d2 && d2 <= 100 ==> dodge_threshold(d1) < dodge_threshold(d2),
{
}

/// Whether an attack is dodged: `roll` is a uniform draw from 0 to 99, and
/// the attack is dodged when it falls below the dodge threshold.
pub fn should_dodge(defense_agility: i64, attack_agility: i64, roll: u64) -> (r: bool)
    requires
        roll < 100,
        -0x1_0000_0000_0000 <= defense_agility <= 0x1_0000_0000_0000,
        -0x1_0000_0000_0000 <= attack_agility <= 0x1_0000_0000_0000,
    ensures
        r == (roll < dodge_threshold(defense_agility - attack_agility)),
{
    let agility_difference = defense_agility - attack_agility;
    let clamped: i64 = if agility_difference < 0 {
        0
    } else if agility_difference > 100 {
        100
    } else {
        agility_difference
    };
    (roll as i64) < 10 + clamped
}

/// Where a finished exchange of blows left the two combatants.
pub struct Combat {
    pub user_hp: i64,
    pub monster_hp: i64,
    pub turns_used: u32,
    pub log: Vec<BattleEvent>,
}

impl Combat {
    /// The turn budget ran out with both still standing.
    pub open spec fn fled(self) -> bool {
        self.user_hp > 0 && self.monster_hp > 0
    }

    /// The monster fell and the character still stands.
    pub open spec fn won(self) -> bool {
        self.user_hp > 0 && self.monster_hp <= 0
    }

    /// The character fell.
    pub open spec fn lost(self) -> bool {
        self.user_hp <= 0
    }
}

/// A finished combat ends in exactly one of fleeing, victory and defeat.
pub proof fn lemma_outcomes_exclusive(c: Combat)
    ensures
        c.fled() || c.won() || c.lost(),
        !(c.fled() && c.won()),
        !(c.fled() && c.lost()),
        !(c.won() && c.lost()),
{
}

/// All the damage the transcript says the monster took.
pub open spec fn damage_to_monster(log: Seq<BattleEvent>) -> int
    decreases log.len(),
{
    if log.len() == 0 {
        0
    } else {
        damage_to_monster(log.drop_last()) + match log.last() {
            BattleEvent::UserAttackHit { damage } => damage as int,
            _ => 0,
        }
    }
}

/// All the damage the transcript says the character took.
pub open spec fn damage_to_user(log: Seq<BattleEvent>) -> int
    decreases log.len(),
{
    if log.len() == 0 {
        0
    } else {
        damage_to_user(log.drop_last()) + match log.last() {
            BattleEvent::MonsterAttackHit { damage, .. } => damage as int,
            _ => 0,
        }
    }
}

proof fn lemma_damage_log_push(log: Seq<BattleEvent>, e: BattleEvent)
    ensures
        damage_to_monster(log.push(e)) == damage_to_monster(log) + match e {
            BattleEvent::UserAttackHit { damage } => damage as int,
            _ => 0,
        },
        damage_to_user(log.push(e)) == damage_to_user(log) + match e {
            BattleEvent::MonsterAttackHit { damage, .. } => damage as int,
            _ => 0,
        },
{
    assert(log.push(e).drop_last() =~= log);
}

/// Run the exchange of blows: up to twenty turns while both stand, the
/// character striking first each turn and the monster answering only if it
/// survives the blow.  The transcript accounts exactly for every hit point
/// either side lost.
pub fn run_combat(user: &User, monster: &Monster, rng: &mut RandomSource) -> (c: Combat)
    requires
        user.wf(),
        monster.wf(),
    ensures
        c.turns_used <= 20,
        c.log@.len() >= 1,
        c.log@[0] == BattleEvent::Appeared,
        c.user_hp <= user.current_hp,
        c.monster_hp <= monster.hp,
        c.fled() ==> c.turns_used == 20,
        user.current_hp - c.user_hp == damage_to_user(c.log@),
        monster.hp - c.monster_hp == damage_to_monster(c.log@),
        // each turn fought leaves one or two lines in the transcript
        1 + c.turns_used <= c.log@.len() <= 1 + 2 * c.turns_used,
        // no turn is fought only when someone was down at the start
        c.turns_used == 0 ==> user.current_hp <= 0 || monster.hp <= 0,
{
    let mut log: Vec<BattleEvent> = Vec::new();
    proof {
        lemma_damage_log_push(log@, BattleEvent::Appeared);
    }
    log.push(BattleEvent::Appeared);
    let mut user_hp: i64 = user.current_hp as i64;
    let mut monster_hp: i64 = monster.hp as i64;
    let mut turn: u32 = 20;

    while user_hp > 0 && monster_hp > 0 && turn > 0
        invariant
            user.wf(),
            monster.wf(),
            turn <= 20,
            log@.len() >= 1,
            log@[0] == BattleEvent::Appeared,
            user_hp <= user.current_hp,
            monster_hp <= monster.hp,
            -0x8_0000_0000i64 <= user_hp,
            -0x8_0000_0000i64 <= monster_hp,
            user.current_hp - user_hp == damage_to_user(log@),
            monster.hp - monster_hp == damage_to_monster(log@),
            1 + (20 - turn) <= log@.len() <= 1 + 2 * (20 - turn),
            turn == 20 ==> user_hp == user.current_hp && monster_hp == monster.hp,
        decreases turn,
    {
        // the character's attack
        let luck_roll = rng.next_below(user.luck as u64 + 1);
        let dodge_roll = rng.next_below(100);
        if !should_dodge(monster.agility as i64, user.agility as i64 + luck_roll as i64, dodge_roll) {
            let coin = rng.next_below(2);
            let second_luck_roll = rng.next_below(user.luck as u64 + 1);
            let attack_roll: i64 = user.attack as i64 + coin as i64 + second_luck_roll as i64;
            let raw = attack_roll - monster.defense as i64;
            let damage: i64 = if raw > 0 { raw } else { 0 };
            monster_hp = monster_hp - damage;
            proof {
                lemma_damage_log_push(log@, BattleEvent::UserAttackHit { damage });
            }
            log.push(BattleEvent::UserAttackHit { damage });
        } else {
            proof {
                lemma_damage_log_push(log@, BattleEvent::UserAttackDodged);
            }
            log.push(BattleEvent::UserAttackDodged);
        }

        // the monster's answer, if it still stands
        if monster_hp > 0 {
            let dodge_roll = rng.next_below(100);
            if !should_dodge(user.agility as i64, monster.agility as i64, dodge_roll) {
                let coin = rng.next_below(2);
                let attack_roll: i64 = monster.attack as i64 + coin as i64;
                let raw = attack_roll - user.defense as i64;
                let damage: i64 = if raw > 0 { raw } else { 0 };
                user_hp = user_hp - damage;
                proof {
                    lemma_damage_log_push(log@, BattleEvent::MonsterAttackHit { damage, user_hp });
                }
                log.push(BattleEvent::MonsterAttackHit { damage, user_hp });
            } else {
                proof {
                    lemma_damage_log_push(log@, BattleEvent::MonsterAttackDodged);
                }
                log.push(BattleEvent::MonsterAttackDodged);
            }
        }
        turn = turn - 1;
    }

    Combat { user_hp, monster_hp, turns_used: 20 - turn, log }
}

/// The character's record after a defeat: gold halves (rounding down), hit
/// and mana points are restored to their maxima, and nothing else moves.
pub fn apply_defeat(user: &User) -> (u: User)
    requires
        user.wf(),
    ensures
        u.wf(),
        u.gold == user.gold / 2,
        u.current_hp == user.max_hp,
        u.current_mp == user.max_mp,
        u.user_id == user.user_id,
        u.npub@ == user.npub@,
        u.level == user.level,
        u.experience == user.experience,
        u.max_hp == user.max_hp,
        u.max_mp == user.max_mp,
        u.attack == user.attack,
        u.defense == user.defense,
        u.agility == user.agility,
        u.luck == user.luck,
{
    User {
        user_id: user.user_id,
        npub: user.npub.clone(),
        level: user.level,
        experience: user.experience,
        gold: user.gold / 2,
        current_hp: user.max_hp,
        max_hp: user.max_hp,
        current_mp: user.max_mp,
        max_mp: user.max_mp,
        attack: user.attack,
        defense: user.defense,
        agility: user.agility,
        luck: user.luck,
    }
}

/// The character's record after a victory over `monster`, having `user_hp`
/// hit points left: the monster's rewards are added to experience and gold,
/// the level is recomputed from the new total experience, and the flag says
/// whether that level is higher than before.
pub fn apply_victory(user: &User, monster: &Monster, user_hp: i32) -> (r: (User, bool))
    requires
        user.wf(),
        monster.wf(),
        0 < user_hp <= user.max_hp,
        user.experience + monster.experience_reward <= i32::MAX,
        user.gold + monster.gold_reward <= i32::MAX,
    ensures
        r.0.wf(),
        r.0.experience == user.experience + monster.experience_reward,
        r.0.gold == user.gold + monster.gold_reward,
        r.0.current_hp == user_hp,
        progression::is_level_for(r.0.experience as nat, r.0.level as nat),
        r.1 == (r.0.level > user.level),
        r.0.user_id == user.user_id,
        r.0.npub@ == user.npub@,
        r.0.max_hp == user.max_hp,
        r.0.current_mp == user.current_mp,
        r.0.max_mp == user.max_mp,
        r.0.attack == user.attack,
        r.0.defense == user.defense,
        r.0.agility == user.agility,
        r.0.luck == user.luck,
{
    let new_experience = user.experience + monster.experience_reward;
    let level = progression::level_from_experience(new_experience as u32);
    proof {
        progression::lemma_all_lower_bound(level as nat);
    }
    let new_level = level as i32;
    let u = User {
        user_id: user.user_id,
        npub: user.npub.clone(),
        level: new_level,
        experience: new_experience,
        gold: user.gold + monster.gold_reward,
        current_hp: user_hp,
        max_hp: user.max_hp,
        current_mp: user.current_mp,
        max_mp: user.max_mp,
        attack: user.attack,
        defense: user.defense,
        agility: user.agility,
        luck: user.luck,
    };
    let leveled_up = new_level > user.level;
    (u, leveled_up)
}

/// The pairing of one character and one monster instance with the battle's
/// outcome and its transcript, as it is persisted for audit.
pub struct BattleResult {
    pub user_id: i32,
    pub monster_id: i32,
    pub victory: bool,
    pub experience_gain: i32,
    pub gold_gain: i32,
    pub battle_log: Vec<BattleEvent>,
}

/// Everything one battle decides: the audit record, the character's next
/// persistent record, whether the monster is to be marked defeated, and the
/// final state of the exchange.
pub struct BattleReport {
    pub result: BattleResult,
    pub updated_user: User,
    pub monster_defeated: bool,
    pub user_hp: i64,
    pub monster_hp: i64,
    pub turns_used: u32,
}

/// Resolve one battle.  The turn loop runs at most twenty turns; the
/// outcome is exactly one of fleeing (both stand, no reward, no change),
/// victory (rewards granted, level recomputed, monster marked defeated) and
/// defeat (gold halved, hit and mana points restored); and the transcript
/// opens with the monster's appearance, accounts for every hit point lost,
/// and closes with the outcome.
pub fn simulate_battle(user: &User, monster: &Monster, rng: &mut RandomSource) -> (r: BattleReport)
    requires
        user.wf(),
        monster.wf(),
        user.experience + monster.experience_reward <= i32::MAX,
        user.gold + monster.gold_reward <= i32::MAX,
    ensures
        r.result.user_id == user.user_id,
        r.result.monster_id == monster.id,
        r.turns_used <= 20,
        r.user_hp <= user.current_hp,
        r.monster_hp <= monster.hp,
        r.user_hp > 0 && r.monster_hp > 0 ==> r.turns_used == 20,
        r.result.victory == (r.user_hp > 0 && r.monster_hp <= 0),
        r.monster_defeated == r.result.victory,
        r.result.victory ==> r.result.experience_gain == monster.experience_reward
            && r.result.gold_gain == monster.gold_reward,
        !r.result.victory ==> r.result.experience_gain == 0 && r.result.gold_gain == 0,
        r.updated_user.wf(),
        r.updated_user.user_id == user.user_id,
        r.updated_user.npub@ == user.npub@,
        r.updated_user.max_hp == user.max_hp,
        r.updated_user.max_mp == user.max_mp,
        r.updated_user.attack == user.attack,
        r.updated_user.defense == user.defense,
        r.updated_user.agility == user.agility,
        r.updated_user.luck == user.luck,
        // fleeing changes nothing
        r.user_hp > 0 && r.monster_hp > 0 ==> r.updated_user.level == user.level
            && r.updated_user.experience == user.experience
            && r.updated_user.gold == user.gold
            && r.updated_user.current_hp == user.current_hp
            && r.updated_user.current_mp == user.current_mp,
        // victory grants the rewards and recomputes the level
        r.result.victory ==> r.updated_user.experience == user.experience
                + monster.experience_reward
            && r.updated_user.gold == user.gold + monster.gold_reward
            && r.updated_user.current_hp == r.user_hp
            && r.updated_user.current_mp == user.current_mp
            && progression::is_level_for(
                r.updated_user.experience as nat,
                r.updated_user.level as nat,
            ),
        // defeat halves the gold and restores hit and mana points
        r.user_hp <= 0 ==> r.updated_user.gold == user.gold / 2
            && r.updated_user.level == user.level
            && r.updated_user.experience == user.experience
            && r.updated_user.current_hp == user.max_hp
            && r.updated_user.current_mp == user.max_mp,
        // the transcript opens with the appearance, accounts for the damage,
        // and closes with the outcome
        r.result.battle_log@.len() >= 2 + r.turns_used,
        r.result.battle_log@[0] == BattleEvent::Appeared,
        user.current_hp - r.user_hp == damage_to_user(r.result.battle_log@),
        monster.hp - r.monster_hp == damage_to_monster(r.result.battle_log@),
        r.user_hp > 0 && r.monster_hp > 0 ==> r.result.battle_log@.last() == BattleEvent::Fled,
        r.user_hp <= 0 ==> r.result.battle_log@.last() == BattleEvent::Lost,
        r.result.victory && r.updated_user.level > user.level ==> r.result.battle_log@.last()
            == BattleEvent::LevelUp
            && r.result.battle_log@[r.result.battle_log@.len() - 2] == (BattleEvent::Won {
            experience: monster.experience_reward,
            gold: monster.gold_reward,
        }),
        r.result.victory && r.updated_user.level <= user.level ==> r.result.battle_log@.last()
            == (BattleEvent::Won {
            experience: monster.experience_reward,
            gold: monster.gold_reward,
        }),
{
    let combat = run_combat(user, monster, rng);
    let Combat { user_hp, monster_hp, turns_used, log: mut log } = combat;

    if user_hp > 0 && monster_hp > 0 {
        proof {
            lemma_damage_log_push(log@, BattleEvent::Fled);
        }
        log.push(BattleEvent::Fled);
        let updated_user = User {
            user_id: user.user_id,
            npub: user.npub.clone(),
            level: user.level,
            experience: user.experience,
            gold: user.gold,
            current_hp: user.current_hp,
            max_hp: user.max_hp,
            current_mp: user.current_mp,
            max_mp: user.max_mp,
            attack: user.attack,
            defense: user.defense,
            agility: user.agility,
            luck: user.luck,
        };
        BattleReport {
            result: BattleResult {
                user_id: user.user_id,
                monster_id: monster.id,
                victory: false,
                experience_gain: 0,
                gold_gain: 0,
                battle_log: log,
            },
            updated_user,
            monster_defeated: false,
            user_hp,
            monster_hp,
            turns_used,
        }
    } else if user_hp > 0 {
        let won = BattleEvent::Won {
            experience: monster.experience_reward,
            gold: monster.gold_reward,
        };
        proof {
            lemma_damage_log_push(log@, won);
        }
        log.push(won);
        let (updated_user, leveled_up) = apply_victory(user, monster, user_hp as i32);
        if leveled_up {
            proof {
                lemma_damage_log_push(log@, BattleEvent::LevelUp);
            }
            log.push(BattleEvent::LevelUp);
        }
        BattleReport {
            result: BattleResult {
                user_id: user.user_id,
                monster_id: monster.id,
                victory: true,
                experience_gain: monster.experience_reward,
                gold_gain: monster.gold_reward,
                battle_log: log,
            },
            updated_user,
            monster_defeated: true,
            user_hp,
            monster_hp,
            turns_used,
        }
    } else {
        proof {
            lemma_damage_log_push(log@, BattleEvent::Lost);
        }
        log.push(BattleEvent::Lost);
        let updated_user = apply_defeat(user);
        BattleReport {
            result: BattleResult {
                user_id: user.user_id,
                monster_id: monster.id,
                victory: false,
                experience_gain: 0,
                gold_gain: 0,
                battle_log: log,
            },
            updated_user,
            monster_defeated: false,
            user_hp,
            monster_hp,
            turns_used,
        }
    }
}

} // verus!
