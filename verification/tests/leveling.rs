use starosta::activity::{
    can_credit_voice, can_handle_message, earns_voice_xp, handle_message, voice_minute,
    MessageOutcome,
};
use starosta::leveling::{
    add_xp, can_add_xp, can_step, get_xp_multiplier, get_xp_needed, levelup_step, try_levelup,
    LevelCurve, MSG_XP_AMOUNT, VOICE_XP_AMOUNT,
};
use starosta::profile::{create_default_profile, default_chips};
use starosta::standard_curve::{standard_curve, standard_threshold_list, STANDARD_LEVELS};

fn formula(level: u64) -> u64 {
    let l = level as f64;
    (100.0 * (l + 1.0).powf(1.3) * (l + 2.0).ln() + 100.0) as u64
}

fn formula_curve(levels: u64) -> LevelCurve {
    let mut thresholds = Vec::new();
    let mut level = 0;
    while level < levels {
        thresholds.push(formula(level));
        level += 1;
    }
    LevelCurve::new(thresholds).expect("the formula grows strictly")
}

#[test]
fn default_profile_has_starting_values() {
    let profile = create_default_profile();
    assert_eq!(default_chips(), 100);
    assert_eq!(profile.xp, 0);
    assert_eq!(profile.level, 0);
    assert_eq!(profile.minutes, 0);
    assert_eq!(profile.chips, 100);
    assert_eq!(profile.last_daily, 0);
    assert_eq!(profile.xp_booster_x2_until, 0);
    assert_eq!(profile.xp_booster_x5_until, 0);
    assert_eq!(profile.last_msg_time, 0);
    assert_eq!(profile.spam_counter, 0);
    assert_eq!(profile.spam_block_until, 0);
}

#[test]
fn admin_overrides_touch_one_field_each() {
    let mut profile = create_default_profile();
    profile.set_level(7);
    profile.set_xp(33);
    profile.set_chips(5);
    let mut expected = create_default_profile();
    expected.level = 7;
    expected.xp = 33;
    expected.chips = 5;
    assert_eq!(profile, expected);
}

#[test]
fn thresholds_follow_the_formula() {
    let curve = formula_curve(60);
    assert_eq!(curve.len(), 60);
    assert_eq!(get_xp_needed(&curve, 0), Some(169));
    assert_eq!(get_xp_needed(&curve, 1), Some(370));
    assert_eq!(get_xp_needed(&curve, 5), Some(2098));
    assert_eq!(get_xp_needed(&curve, 10), Some(5712));
    assert_eq!(get_xp_needed(&curve, 59), Some(formula(59)));
    assert_eq!(get_xp_needed(&curve, 60), None);
    assert_eq!(get_xp_needed(&curve, u64::MAX), None);
}

#[test]
fn standard_curve_is_the_formula_rounded_down() {
    let list = standard_threshold_list();
    assert_eq!(STANDARD_LEVELS, 200);
    assert_eq!(list.len(), STANDARD_LEVELS);
    let mut level = 0;
    while level < STANDARD_LEVELS {
        assert_eq!(list[level], formula(level as u64), "level {}", level);
        level += 1;
    }
    assert_eq!(list[0], 169);
    assert_eq!(list[50], 65_650);
    assert_eq!(list[199], 519_959);
}

#[test]
fn standard_curve_grows_strictly() {
    let curve = standard_curve();
    assert_eq!(curve.len(), STANDARD_LEVELS);
    let mut level = 0;
    while level + 1 < STANDARD_LEVELS as u64 {
        assert!(get_xp_needed(&curve, level).unwrap() < get_xp_needed(&curve, level + 1).unwrap());
        level += 1;
    }
    assert_eq!(get_xp_needed(&curve, 0), Some(169));
    assert_eq!(get_xp_needed(&curve, 199), Some(519_959));
    assert_eq!(get_xp_needed(&curve, 200), None);
}

#[test]
fn leveling_on_the_standard_curve() {
    let curve = standard_curve();
    let mut profile = create_default_profile();
    profile.xp = 169 + 370 + 678 + 1075 + 1550;
    assert_eq!(try_levelup(&mut profile, &curve), Some(4));
    assert_eq!(profile.xp, 1550);
    profile.xp += 1;
    assert_eq!(try_levelup(&mut profile, &curve), Some(5));
    assert_eq!(profile.xp, 0);
}

#[test]
fn thresholds_grow_strictly() {
    let curve = formula_curve(200);
    let mut level = 0;
    while level + 1 < 200 {
        let lower = get_xp_needed(&curve, level).unwrap();
        let higher = get_xp_needed(&curve, level + 1).unwrap();
        assert!(lower < higher);
        level += 1;
    }
}

#[test]
fn curve_refuses_thresholds_that_do_not_grow() {
    assert!(LevelCurve::new(vec![100, 100]).is_none());
    assert!(LevelCurve::new(vec![100, 200, 150]).is_none());
    assert!(LevelCurve::new(vec![3, 2]).is_none());
    assert!(LevelCurve::new(vec![]).is_some());
    assert!(LevelCurve::new(vec![7]).is_some());
    assert!(LevelCurve::new(vec![0, 1, u64::MAX]).is_some());
}

#[test]
fn levelup_pays_thresholds_in_turn() {
    let curve = formula_curve(60);
    let mut profile = create_default_profile();
    profile.xp = 169 + 370 + 5;
    assert_eq!(try_levelup(&mut profile, &curve), Some(2));
    assert_eq!(profile.level, 2);
    assert_eq!(profile.xp, 5);
}

#[test]
fn levelup_is_idempotent() {
    let curve = formula_curve(60);
    let mut profile = create_default_profile();
    profile.xp = 1217 + 100;
    assert_eq!(try_levelup(&mut profile, &curve), Some(3));
    let after_first = profile;
    assert_eq!(try_levelup(&mut profile, &curve), None);
    assert_eq!(profile, after_first);
}

#[test]
fn levelup_needs_the_full_threshold() {
    let curve = formula_curve(60);
    let mut profile = create_default_profile();
    profile.xp = 168;
    assert_eq!(try_levelup(&mut profile, &curve), None);
    assert_eq!(profile.level, 0);
    assert_eq!(profile.xp, 168);
    profile.xp = 169;
    assert_eq!(try_levelup(&mut profile, &curve), Some(1));
    assert_eq!(profile.xp, 0);
}

#[test]
fn levelup_stops_at_the_end_of_the_curve() {
    let curve = LevelCurve::new(vec![10, 20]).unwrap();
    let mut profile = create_default_profile();
    profile.xp = 1000;
    assert_eq!(try_levelup(&mut profile, &curve), Some(2));
    assert_eq!(profile.level, 2);
    assert_eq!(profile.xp, 970);
    assert_eq!(try_levelup(&mut profile, &curve), None);
    profile.level = 9;
    assert_eq!(try_levelup(&mut profile, &curve), None);
    assert_eq!(profile.level, 9);
    assert_eq!(profile.xp, 970);
}

#[test]
fn levelup_leaves_other_fields_alone() {
    let curve = formula_curve(10);
    let mut profile = create_default_profile();
    profile.xp = 500;
    profile.chips = 77;
    profile.minutes = 12;
    profile.last_daily = 99;
    profile.spam_counter = 3;
    try_levelup(&mut profile, &curve);
    assert_eq!(profile.chips, 77);
    assert_eq!(profile.minutes, 12);
    assert_eq!(profile.last_daily, 99);
    assert_eq!(profile.spam_counter, 3);
}

#[test]
fn multiplier_is_one_without_boosters() {
    let profile = create_default_profile();
    assert_eq!(get_xp_multiplier(&profile, 1_000), 1);
}

#[test]
fn multiplier_is_two_with_only_x2() {
    let mut profile = create_default_profile();
    profile.xp_booster_x2_until = 2_000;
    assert_eq!(get_xp_multiplier(&profile, 1_999), 2);
    assert_eq!(get_xp_multiplier(&profile, 2_000), 1);
}

#[test]
fn multiplier_is_five_with_x5() {
    let mut profile = create_default_profile();
    profile.xp_booster_x5_until = 2_000;
    assert_eq!(get_xp_multiplier(&profile, 1_999), 5);
    assert_eq!(get_xp_multiplier(&profile, 2_000), 1);
}

#[test]
fn x5_wins_over_x2() {
    let mut profile = create_default_profile();
    profile.xp_booster_x2_until = 5_000;
    profile.xp_booster_x5_until = 2_000;
    assert_eq!(get_xp_multiplier(&profile, 1_000), 5);
    assert_eq!(get_xp_multiplier(&profile, 2_000), 2);
    assert_eq!(get_xp_multiplier(&profile, 5_000), 1);
}

#[test]
fn add_xp_multiplies_the_base() {
    let mut profile = create_default_profile();
    assert_eq!(add_xp(&mut profile, 2, 100), 2);
    assert_eq!(profile.xp, 2);
    profile.xp_booster_x2_until = 200;
    assert_eq!(add_xp(&mut profile, 2, 100), 4);
    assert_eq!(profile.xp, 6);
    profile.xp_booster_x5_until = 200;
    assert_eq!(add_xp(&mut profile, 2, 100), 10);
    assert_eq!(profile.xp, 16);
    assert_eq!(add_xp(&mut profile, 10, 100), 50);
    assert_eq!(profile.xp, 66);
}

#[test]
fn message_and_voice_amounts() {
    assert_eq!(MSG_XP_AMOUNT, 2);
    assert_eq!(VOICE_XP_AMOUNT, 10);
}

#[test]
fn voice_minute_credits_time_and_xp() {
    let curve = formula_curve(60);
    let mut profile = create_default_profile();
    assert_eq!(voice_minute(&mut profile, &curve, 50), None);
    assert_eq!(profile.xp, 10);
    assert_eq!(profile.minutes, 1);
    profile.xp_booster_x5_until = 100;
    profile.xp = 160;
    assert_eq!(voice_minute(&mut profile, &curve, 50), Some(1));
    assert_eq!(profile.level, 1);
    assert_eq!(profile.xp, 160 + 50 - 169);
    assert_eq!(profile.minutes, 2);
}

#[test]
fn voice_xp_needs_an_open_ear_and_mouth() {
    assert!(earns_voice_xp(false, false, false));
    assert!(!earns_voice_xp(true, false, false));
    assert!(!earns_voice_xp(false, true, false));
    assert!(!earns_voice_xp(false, false, true));
}

#[test]
fn message_earns_and_levels() {
    let curve = formula_curve(60);
    let mut profile = create_default_profile();
    profile.xp = 168;
    let outcome = handle_message(&mut profile, &curve, 1_700_000_000_000, 1_700_000_000);
    assert_eq!(outcome, MessageOutcome::Counted { gained: 2, reached: Some(1) });
    assert_eq!(profile.level, 1);
    assert_eq!(profile.xp, 1);
    assert_eq!(profile.last_msg_time, 1_700_000_000_000);
    assert_eq!(profile.spam_counter, 0);
}

#[test]
fn message_under_booster_earns_more() {
    let curve = formula_curve(60);
    let mut profile = create_default_profile();
    profile.xp_booster_x2_until = 1_700_000_100;
    let outcome = handle_message(&mut profile, &curve, 1_700_000_000_000, 1_700_000_000);
    assert_eq!(outcome, MessageOutcome::Counted { gained: 4, reached: None });
    assert_eq!(profile.xp, 4);
}

#[test]
fn room_for_experience_is_checked() {
    let mut profile = create_default_profile();
    assert!(can_add_xp(&profile, 2, 0));
    assert!(can_add_xp(&profile, u64::MAX, 0));
    assert!(can_credit_voice(&profile, 0));
    assert!(can_handle_message(&profile, 5_000, 5));
    profile.xp = u64::MAX - 3;
    assert!(can_add_xp(&profile, 3, 0));
    assert!(!can_add_xp(&profile, 4, 0));
    assert!(can_handle_message(&profile, 5_000, 5));
    assert!(!can_credit_voice(&profile, 0));
    profile.xp_booster_x2_until = 10;
    assert!(!can_handle_message(&profile, 5_000, 5));
    assert!(can_handle_message(&profile, 10_000, 10));
    profile.spam_block_until = 6_000;
    assert!(can_handle_message(&profile, 5_000, 5));
    profile = create_default_profile();
    profile.minutes = u64::MAX;
    assert!(!can_credit_voice(&profile, 0));
    profile = create_default_profile();
    profile.xp_booster_x5_until = 100;
    assert!(!can_add_xp(&profile, u64::MAX / 5 + 1, 50));
    assert!(can_add_xp(&profile, u64::MAX / 5, 50));
}

#[test]
fn a_step_pays_one_threshold() {
    let mut profile = create_default_profile();
    profile.level = 200;
    profile.xp = 1_000_000;
    let threshold = formula(200);
    assert_eq!(threshold, 523_830);
    assert_eq!(levelup_step(&mut profile, threshold), Some(201));
    assert_eq!(profile.level, 201);
    assert_eq!(profile.xp, 1_000_000 - 523_830);
    let before = profile;
    assert_eq!(levelup_step(&mut profile, formula(201)), None);
    assert_eq!(profile, before);
    profile.xp = 7;
    assert_eq!(levelup_step(&mut profile, 7), Some(202));
    assert_eq!(profile.xp, 0);
    assert_eq!(levelup_step(&mut profile, 0), Some(203));
}

#[test]
fn steps_continue_where_the_table_ends() {
    let curve = standard_curve();
    let mut profile = create_default_profile();
    profile.level = 199;
    profile.xp = 519_959 + 523_830 + 10;
    assert_eq!(try_levelup(&mut profile, &curve), Some(200));
    assert_eq!(profile.xp, 523_830 + 10);
    assert_eq!(try_levelup(&mut profile, &curve), None);
    let next = formula(profile.level);
    assert_eq!(levelup_step(&mut profile, next), Some(201));
    assert_eq!(profile.xp, 10);
}

#[test]
fn steps_on_the_table_are_leveling() {
    let curve = standard_curve();
    let mut at_once = create_default_profile();
    at_once.xp = 5_000;
    let mut by_steps = at_once;
    try_levelup(&mut at_once, &curve);
    loop {
        let next = get_xp_needed(&curve, by_steps.level).unwrap();
        if levelup_step(&mut by_steps, next).is_none() {
            break;
        }
    }
    assert_eq!(by_steps, at_once);
    assert_eq!(at_once.level, 5);
    assert_eq!(at_once.xp, 5_000 - 3_843);
}

#[test]
fn the_last_level_takes_no_step() {
    let mut profile = create_default_profile();
    profile.level = u64::MAX;
    profile.xp = 50;
    assert!(!can_step(&profile, 50));
    assert!(can_step(&profile, 51));
    assert_eq!(levelup_step(&mut profile, 51), None);
    profile.level = u64::MAX - 1;
    assert!(can_step(&profile, 50));
    assert_eq!(levelup_step(&mut profile, 50), Some(u64::MAX));
}
