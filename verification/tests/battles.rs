use guild_quest::battle::{
    apply_defeat, apply_victory, should_dodge, simulate_battle, BattleEvent,
};
use guild_quest::monsters::Monster;
use guild_quest::random::RandomSource;
use guild_quest::users::User;

/// A script of one whole turn in which nobody dodges and every roll is the
/// minimum: the luck draw, the dodge draw, the coin, the second luck draw,
/// then the monster's dodge draw and coin.
fn never_dodge_minimum_rolls() -> RandomSource {
    RandomSource::Scripted { draws: vec![0, 99, 0, 0, 99, 0], next: 0 }
}

fn user(attack: i32, defense: i32, agility: i32, luck: i32, hp: i32, max_hp: i32) -> User {
    User {
        user_id: 7,
        npub: String::from("abcd"),
        level: 1,
        experience: 0,
        gold: 0,
        current_hp: hp,
        max_hp,
        current_mp: 2,
        max_mp: 4,
        attack,
        defense,
        agility,
        luck,
    }
}

fn monster(attack: i32, defense: i32, agility: i32, hp: i32) -> Monster {
    Monster {
        id: 11,
        level: 1,
        status: 1,
        name: String::from("Gnoll"),
        picture: String::from("gnoll.png"),
        attack,
        defense,
        agility,
        experience_reward: 10,
        gold_reward: 7,
        hp,
        mp: 0,
        defeat_user_id: -1,
    }
}

#[test]
fn dodge_threshold_behaves_at_its_boundaries() {
    // equal agility: the base chance of 10 in 100
    assert!(should_dodge(2, 2, 9));
    assert!(!should_dodge(2, 2, 10));
    // a lead of 90 saturates the chance: every roll dodges
    assert!(should_dodge(92, 2, 99));
    // a faster attacker never pushes the chance below the base
    assert!(should_dodge(2, 52, 9));
    assert!(!should_dodge(2, 52, 10));
}

#[test]
fn an_even_match_with_minimum_rolls_is_won_on_the_tenth_turn() {
    let u = user(3, 2, 2, 0, 10, 10);
    let m = monster(3, 2, 2, 10);
    let mut rng = never_dodge_minimum_rolls();
    let report = simulate_battle(&u, &m, &mut rng);

    // one point of damage each way per turn; the character strikes first
    assert_eq!(report.user_hp, 1);
    assert_eq!(report.monster_hp, 0);
    assert_eq!(report.turns_used, 10);
    assert!(report.result.victory);
    assert!(report.monster_defeated);
    assert_eq!(report.result.user_id, 7);
    assert_eq!(report.result.monster_id, 11);
    assert_eq!(report.result.experience_gain, 10);
    assert_eq!(report.result.gold_gain, 7);

    // experience 10 lies between the thresholds of levels 2 and 3
    assert_eq!(report.updated_user.level, 2);
    assert_eq!(report.updated_user.experience, 10);
    assert_eq!(report.updated_user.gold, 7);
    assert_eq!(report.updated_user.current_hp, 1);
    assert_eq!(report.updated_user.max_hp, 10);

    let log = &report.result.battle_log;
    assert_eq!(log.len(), 22);
    assert!(matches!(log[0], BattleEvent::Appeared));
    assert!(matches!(log[1], BattleEvent::UserAttackHit { damage: 1 }));
    assert!(matches!(log[2], BattleEvent::MonsterAttackHit { damage: 1, user_hp: 9 }));
    assert!(matches!(log[19], BattleEvent::UserAttackHit { damage: 1 }));
    assert!(matches!(log[20], BattleEvent::Won { experience: 10, gold: 7 }));
    assert!(matches!(log[21], BattleEvent::LevelUp));
}

#[test]
fn a_hopeless_fight_ends_in_defeat_with_the_penalty() {
    let mut u = user(0, 0, 0, 0, 1, 9);
    u.gold = 7;
    u.level = 3;
    u.experience = 30;
    let m = monster(5, 99, 0, 10);
    let mut rng = never_dodge_minimum_rolls();
    let report = simulate_battle(&u, &m, &mut rng);

    assert_eq!(report.user_hp, -4);
    assert!(!report.result.victory);
    assert!(!report.monster_defeated);
    assert_eq!(report.result.experience_gain, 0);
    assert_eq!(report.result.gold_gain, 0);

    // gold halves by integer floor division; hit and mana points respawn full
    assert_eq!(report.updated_user.gold, 3);
    assert_eq!(report.updated_user.current_hp, 9);
    assert_eq!(report.updated_user.current_mp, 4);
    assert_eq!(report.updated_user.level, 3);
    assert_eq!(report.updated_user.experience, 30);

    let log = &report.result.battle_log;
    assert!(matches!(log[log.len() - 1], BattleEvent::Lost));
}

#[test]
fn an_armored_stalemate_ends_in_flight_after_twenty_turns() {
    let u = user(3, 99, 2, 0, 10, 10);
    let m = monster(3, 99, 2, 10);
    let mut rng = never_dodge_minimum_rolls();
    let report = simulate_battle(&u, &m, &mut rng);

    assert_eq!(report.turns_used, 20);
    assert_eq!(report.user_hp, 10);
    assert_eq!(report.monster_hp, 10);
    assert!(!report.result.victory);
    assert!(!report.monster_defeated);
    assert_eq!(report.result.experience_gain, 0);
    assert_eq!(report.result.gold_gain, 0);
    assert_eq!(report.updated_user.gold, 0);
    assert_eq!(report.updated_user.current_hp, 10);
    assert_eq!(report.updated_user.level, 1);

    let log = &report.result.battle_log;
    assert!(matches!(log[log.len() - 1], BattleEvent::Fled));
}

#[test]
fn every_battle_ends_within_twenty_turns_in_one_outcome() {
    let mut rng = RandomSource::System;
    for _ in 0..50 {
        let u = user(3, 2, 2, 1, 10, 10);
        let m = monster(3, 2, 2, 10);
        let report = simulate_battle(&u, &m, &mut rng);
        assert!(report.turns_used <= 20);
        let fled = report.user_hp > 0 && report.monster_hp > 0;
        let won = report.user_hp > 0 && report.monster_hp <= 0;
        let lost = report.user_hp <= 0;
        assert_eq!([fled, won, lost].iter().filter(|b| **b).count(), 1);
        assert_eq!(report.result.victory, won);
        if fled {
            assert_eq!(report.turns_used, 20);
        }
    }
}

#[test]
fn the_level_up_note_triggers_exactly_at_the_threshold() {
    let m = monster(3, 2, 2, 10);
    // reward 10; the threshold of level 2 is 5 and of level 3 is 19

    // 9 + 10 = 19: exactly the threshold of level 3
    let mut u = user(3, 2, 2, 0, 10, 10);
    u.experience = 9;
    u.level = 2;
    let (after, leveled) = apply_victory(&u, &m, 4);
    assert_eq!(after.experience, 19);
    assert_eq!(after.level, 3);
    assert!(leveled);
    assert_eq!(after.current_hp, 4);

    // 8 + 10 = 18: one point short of the threshold
    let mut u = user(3, 2, 2, 0, 10, 10);
    u.experience = 8;
    u.level = 2;
    let (after, leveled) = apply_victory(&u, &m, 4);
    assert_eq!(after.experience, 18);
    assert_eq!(after.level, 2);
    assert!(!leveled);
}

#[test]
fn the_defeat_penalty_halves_gold_and_restores_points() {
    let mut u = user(3, 2, 2, 0, 2, 12);
    u.gold = 7;
    let after = apply_defeat(&u);
    assert_eq!(after.gold, 3);
    assert_eq!(after.current_hp, 12);
    assert_eq!(after.current_mp, 4);
    assert_eq!(after.max_hp, 12);
    assert_eq!(after.level, u.level);
    assert_eq!(after.experience, u.experience);
    assert_eq!(after.npub, u.npub);
}
