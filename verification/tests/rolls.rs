use guild_quest::bonus::{distribute_bonus_points, roll_character_bonuses, roll_monster_bonuses};
use guild_quest::monsters::{mark_defeated, spawned_monster, Monster};
use guild_quest::random::RandomSource;
use guild_quest::users::new_user;

fn scripted(draws: Vec<u64>) -> RandomSource {
    RandomSource::Scripted { draws, next: 0 }
}

#[test]
fn distributed_points_sum_to_the_budget() {
    let mut rng = RandomSource::System;
    for _ in 0..100 {
        let bonuses = distribute_bonus_points(6, 17, &mut rng);
        assert_eq!(bonuses.len(), 6);
        assert_eq!(bonuses.iter().sum::<u32>(), 17);
    }
}

#[test]
fn a_scripted_distribution_is_reproducible() {
    // slots 0, 1, 2 get 5, 4 and 1 points
    let mut rng = scripted(vec![0, 4, 1, 3, 2, 2]);
    let bonuses = distribute_bonus_points(6, 10, &mut rng);
    assert_eq!(bonuses, vec![5, 4, 1, 0, 0, 0]);
}

#[test]
fn character_rolls_stay_in_their_budget_range() {
    let mut rng = RandomSource::System;
    for _ in 0..100 {
        let (budget, bonuses) = roll_character_bonuses(&mut rng);
        assert!((5..31).contains(&budget));
        assert_eq!(bonuses.len(), 6);
        assert_eq!(bonuses.iter().sum::<u32>(), budget);
    }
}

#[test]
fn monster_rolls_stay_in_their_budget_range() {
    let mut rng = RandomSource::System;
    for _ in 0..100 {
        let (budget, bonuses) = roll_monster_bonuses(&mut rng);
        assert!((1..9).contains(&budget));
        assert_eq!(bonuses.len(), 5);
        assert_eq!(bonuses.iter().sum::<u32>(), budget);
    }
}

#[test]
fn a_fresh_character_starts_from_the_base_stats() {
    // budget 5 + 0 % 26 = 5, every point on the first slot (hit points)
    let mut rng = scripted(vec![0]);
    let user = new_user(String::from("a1b2"), &mut rng);
    assert_eq!(user.user_id, 0);
    assert_eq!(user.npub, "a1b2");
    assert_eq!(user.level, 1);
    assert_eq!(user.experience, 0);
    assert_eq!(user.gold, 0);
    assert_eq!(user.current_hp, 15);
    assert_eq!(user.max_hp, 15);
    assert_eq!(user.current_mp, 0);
    assert_eq!(user.max_mp, 0);
    assert_eq!(user.attack, 3);
    assert_eq!(user.defense, 3);
    assert_eq!(user.agility, 3);
    assert_eq!(user.luck, 0);
}

#[test]
fn fresh_characters_spend_their_whole_budget() {
    let mut rng = RandomSource::System;
    for _ in 0..50 {
        let user = new_user(String::from("key"), &mut rng);
        let spent = (user.current_hp - 10) + user.current_mp + (user.attack - 3)
            + (user.defense - 3) + (user.agility - 3) + user.luck;
        assert!((5..31).contains(&spent));
        assert_eq!(user.current_hp, user.max_hp);
        assert_eq!(user.current_mp, user.max_mp);
    }
}

fn template() -> Monster {
    Monster {
        id: 4,
        level: 2,
        status: 1,
        name: String::from("Slime"),
        picture: String::from("slime.png"),
        attack: 6,
        defense: 5,
        agility: 4,
        experience_reward: 10,
        gold_reward: 7,
        hp: 12,
        mp: 3,
        defeat_user_id: -1,
    }
}

#[test]
fn a_spawned_instance_adds_its_bonuses_by_slot() {
    let t = template();
    let m = spawned_monster(&t, &vec![1, 2, 3, 4, 5]);
    assert_eq!(m.hp, 13);
    assert_eq!(m.mp, 5);
    assert_eq!(m.agility, 7);
    assert_eq!(m.attack, 10);
    assert_eq!(m.defense, 10);
    assert_eq!(m.id, t.id);
    assert_eq!(m.level, t.level);
    assert_eq!(m.status, 1);
    assert_eq!(m.name, "Slime");
    assert_eq!(m.picture, "slime.png");
    assert_eq!(m.experience_reward, 10);
    assert_eq!(m.gold_reward, 7);
    assert_eq!(m.defeat_user_id, -1);
}

#[test]
fn a_defeated_monster_remembers_its_defeater() {
    let t = template();
    let m = mark_defeated(&t, 42);
    assert_eq!(m.status, 2);
    assert_eq!(m.defeat_user_id, 42);
    assert_eq!(m.hp, t.hp);
    assert_eq!(m.mp, t.mp);
    assert_eq!(m.name, "Slime");
}
