use guild_quest::progression::{
    experience_all_for_level, experience_for_level, experience_to_next_level,
    level_from_experience,
};

#[test]
fn delta_values_match_the_rounded_curve() {
    // 5 * level^1.5, rounded to the nearest integer
    assert_eq!(experience_for_level(1), 5);
    assert_eq!(experience_for_level(2), 14);
    assert_eq!(experience_for_level(3), 26);
    assert_eq!(experience_for_level(4), 40);
    assert_eq!(experience_for_level(9), 135);
    assert_eq!(experience_for_level(100), 5000);
}

#[test]
fn cumulative_thresholds() {
    assert_eq!(experience_all_for_level(0), 0);
    assert_eq!(experience_all_for_level(1), 0);
    assert_eq!(experience_all_for_level(2), 5);
    assert_eq!(experience_all_for_level(3), 19);
    assert_eq!(experience_all_for_level(4), 45);
    assert_eq!(experience_all_for_level(5), 85);
}

#[test]
fn each_threshold_is_the_previous_plus_the_delta() {
    for level in 0..200u32 {
        assert_eq!(
            experience_all_for_level(level + 1),
            experience_all_for_level(level) + experience_for_level(level) as u32
        );
    }
}

#[test]
fn the_curve_inverts_at_every_threshold() {
    for level in 1..300u32 {
        assert_eq!(level_from_experience(experience_all_for_level(level)), level);
    }
}

#[test]
fn level_changes_exactly_at_the_threshold() {
    assert_eq!(level_from_experience(0), 1);
    assert_eq!(level_from_experience(4), 1);
    assert_eq!(level_from_experience(5), 2);
    assert_eq!(level_from_experience(18), 2);
    assert_eq!(level_from_experience(19), 3);
    assert_eq!(level_from_experience(u32::MAX), 5405);
}

#[test]
fn distance_to_the_next_level() {
    // one past the threshold of the level after next, less what is held
    assert_eq!(experience_to_next_level(1, 0), 20);
    assert_eq!(experience_to_next_level(1, 7), 13);
    assert_eq!(experience_to_next_level(2, 19), 27);
}
