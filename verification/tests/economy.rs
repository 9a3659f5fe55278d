use starosta::economy::{
    active_booster, booster_for, booster_offer, buy_booster, can_boost, can_buy, can_claim,
    can_stake, casino, daily, daily_claim, parse_booster, purchase_booster, settle_wager,
    try_purchase_booster, wager, wait_parts, ActiveBooster, BoosterTier, EconomyError,
};
use starosta::errors::{economy_error_kind, ErrorKind};
use starosta::profile::create_default_profile;

#[test]
fn daily_claim_succeeds_after_exactly_a_day() {
    let mut profile = create_default_profile();
    assert_eq!(daily_claim(&mut profile, 1_000_000, 75), Ok(75));
    assert_eq!(profile.chips, 175);
    assert_eq!(profile.last_daily, 1_000_000);
    assert_eq!(daily_claim(&mut profile, 1_000_000 + 86_400, 60), Ok(60));
    assert_eq!(profile.chips, 235);
    assert_eq!(profile.last_daily, 1_086_400);
}

#[test]
fn daily_claim_one_second_early_fails_with_the_deficit() {
    let mut profile = create_default_profile();
    assert_eq!(daily_claim(&mut profile, 1_000_000, 75), Ok(75));
    let before = profile;
    assert_eq!(
        daily_claim(&mut profile, 1_000_000 + 86_399, 60),
        Err(EconomyError::Cooldown { remaining: 1 })
    );
    assert_eq!(profile, before);
    assert_eq!(
        daily_claim(&mut profile, 1_000_000, 60),
        Err(EconomyError::Cooldown { remaining: 86_400 })
    );
    assert_eq!(
        daily_claim(&mut profile, 1_000_000 + 3_600, 60),
        Err(EconomyError::Cooldown { remaining: 82_800 })
    );
    assert_eq!(profile, before);
}

#[test]
fn daily_draws_a_bonus_in_range() {
    let mut round = 0;
    while round < 200 {
        let mut profile = create_default_profile();
        let bonus = daily(&mut profile, 1_700_000_000).expect("no claim before");
        assert!(bonus >= 50 && bonus < 150);
        assert_eq!(profile.chips, 100 + bonus);
        assert_eq!(profile.last_daily, 1_700_000_000);
        assert_eq!(
            daily(&mut profile, 1_700_000_000 + 10),
            Err(EconomyError::Cooldown { remaining: 86_390 })
        );
        assert_eq!(profile.chips, 100 + bonus);
        round += 1;
    }
}

#[test]
fn wait_is_shown_in_hours_and_minutes() {
    assert_eq!(wait_parts(86_399), (23, 59));
    assert_eq!(wait_parts(3_600), (1, 0));
    assert_eq!(wait_parts(59), (0, 0));
    assert_eq!(wait_parts(0), (0, 0));
}

#[test]
fn wager_over_budget_is_refused() {
    let mut profile = create_default_profile();
    assert_eq!(settle_wager(&mut profile, 150, true), Err(EconomyError::InsufficientFunds));
    assert_eq!(profile.chips, 100);
    assert_eq!(wager(&mut profile, 150, 1, 1), Err(EconomyError::InsufficientFunds));
    assert_eq!(casino(&mut profile, 150), Err(EconomyError::InsufficientFunds));
    assert_eq!(profile.chips, 100);
}

#[test]
fn wager_of_zero_is_refused() {
    let mut profile = create_default_profile();
    assert_eq!(settle_wager(&mut profile, 0, true), Err(EconomyError::InsufficientFunds));
    assert_eq!(wager(&mut profile, 0, 1, 2), Err(EconomyError::InsufficientFunds));
    assert_eq!(casino(&mut profile, 0), Err(EconomyError::InsufficientFunds));
    assert_eq!(profile, create_default_profile());
}

#[test]
fn forced_win_credits_the_stake() {
    let mut profile = create_default_profile();
    assert_eq!(settle_wager(&mut profile, 50, true), Ok(true));
    assert_eq!(profile.chips, 150);
    let mut other = create_default_profile();
    assert_eq!(wager(&mut other, 50, 1, 1), Ok(true));
    assert_eq!(other.chips, 150);
}

#[test]
fn forced_loss_debits_the_stake() {
    let mut profile = create_default_profile();
    assert_eq!(settle_wager(&mut profile, 50, false), Ok(false));
    assert_eq!(profile.chips, 50);
    assert_eq!(wager(&mut profile, 50, 0, 1), Ok(false));
    assert_eq!(profile.chips, 0);
    assert_eq!(wager(&mut profile, 1, 0, 1), Err(EconomyError::InsufficientFunds));
}

#[test]
fn casino_moves_exactly_the_stake() {
    let mut wins = 0;
    let mut round = 0;
    while round < 400 {
        let mut profile = create_default_profile();
        match casino(&mut profile, 40) {
            Ok(true) => {
                assert_eq!(profile.chips, 140);
                wins += 1;
            }
            Ok(false) => assert_eq!(profile.chips, 60),
            Err(_) => panic!("the stake is covered"),
        }
        round += 1;
    }
    assert!(wins > 0 && wins < 400);
}

#[test]
fn buying_x2_leaves_x5_alone() {
    let mut profile = create_default_profile();
    profile.chips = 2500;
    profile.xp_booster_x5_until = 77;
    let now = 1_700_000_000;
    assert_eq!(buy_booster(&mut profile, BoosterTier::X2, 2000, 86_400, now), Ok(500));
    assert_eq!(profile.chips, 500);
    assert_eq!(profile.xp_booster_x2_until, now + 86_400);
    assert_eq!(profile.xp_booster_x5_until, 77);
}

#[test]
fn buying_x5_leaves_x2_alone() {
    let mut profile = create_default_profile();
    profile.chips = 5000;
    profile.xp_booster_x2_until = 123;
    let now = 1_700_000_000;
    assert_eq!(buy_booster(&mut profile, BoosterTier::X5, 5000, 86_400, now), Ok(0));
    assert_eq!(profile.chips, 0);
    assert_eq!(profile.xp_booster_x5_until, now + 86_400);
    assert_eq!(profile.xp_booster_x2_until, 123);
}

#[test]
fn buying_again_restarts_the_clock() {
    let mut profile = create_default_profile();
    profile.chips = 4000;
    assert_eq!(buy_booster(&mut profile, BoosterTier::X2, 2000, 86_400, 1_000), Ok(2000));
    assert_eq!(buy_booster(&mut profile, BoosterTier::X2, 2000, 86_400, 2_000), Ok(0));
    assert_eq!(profile.xp_booster_x2_until, 88_400);
}

#[test]
fn booster_needs_the_price() {
    let mut profile = create_default_profile();
    profile.chips = 1999;
    let before = profile;
    assert_eq!(
        buy_booster(&mut profile, BoosterTier::X2, 2000, 86_400, 5),
        Err(EconomyError::InsufficientFunds)
    );
    assert_eq!(profile, before);
}

#[test]
fn booster_list_prices() {
    assert_eq!(booster_offer(BoosterTier::X2), (2000, 86_400));
    assert_eq!(booster_offer(BoosterTier::X5), (5000, 86_400));
}

#[test]
fn booster_names_ignore_case() {
    assert_eq!(parse_booster("x2"), Some(BoosterTier::X2));
    assert_eq!(parse_booster("X2"), Some(BoosterTier::X2));
    assert_eq!(parse_booster("x5"), Some(BoosterTier::X5));
    assert_eq!(parse_booster("X5"), Some(BoosterTier::X5));
    assert_eq!(parse_booster("x3"), None);
    assert_eq!(parse_booster(""), None);
    assert_eq!(parse_booster(" x2"), None);
    assert_eq!(booster_for("x2"), Some(BoosterTier::X2));
    assert_eq!(booster_for("x5"), Some(BoosterTier::X5));
    assert_eq!(booster_for("X2"), None);
    assert_eq!(booster_for("x"), None);
}

#[test]
fn purchase_by_name() {
    let mut profile = create_default_profile();
    profile.chips = 6000;
    assert_eq!(purchase_booster(&mut profile, "X5", 100), Ok((BoosterTier::X5, 1000)));
    assert_eq!(profile.xp_booster_x5_until, 86_500);
    assert_eq!(purchase_booster(&mut profile, "x9", 100), Err(EconomyError::UnknownBooster));
    assert_eq!(purchase_booster(&mut profile, "x2", 100), Err(EconomyError::InsufficientFunds));
    assert_eq!(profile.chips, 1000);
    assert_eq!(profile.xp_booster_x2_until, 0);
}

#[test]
fn shop_shows_the_booster_that_counts() {
    let mut profile = create_default_profile();
    assert_eq!(active_booster(&profile, 1_000), None);
    profile.xp_booster_x2_until = 1_000 + 7_300;
    assert_eq!(
        active_booster(&profile, 1_000),
        Some(ActiveBooster { tier: BoosterTier::X2, hours_left: 2 })
    );
    profile.xp_booster_x5_until = 1_000 + 3_599;
    assert_eq!(
        active_booster(&profile, 1_000),
        Some(ActiveBooster { tier: BoosterTier::X5, hours_left: 0 })
    );
    assert_eq!(
        active_booster(&profile, 1_000 + 3_599),
        Some(ActiveBooster { tier: BoosterTier::X2, hours_left: 1 })
    );
    assert_eq!(active_booster(&profile, 1_000 + 7_300), None);
}

#[test]
fn economy_errors_have_kinds() {
    assert_eq!(economy_error_kind(EconomyError::Cooldown { remaining: 5 }), ErrorKind::Cooldown);
    assert_eq!(economy_error_kind(EconomyError::InsufficientFunds), ErrorKind::Validation);
    assert_eq!(economy_error_kind(EconomyError::UnknownBooster), ErrorKind::Validation);
}

#[test]
fn limits_of_the_counters_are_checked() {
    let mut profile = create_default_profile();
    assert!(can_claim(&profile, 1_700_000_000, 150));
    assert!(can_stake(&profile, 50));
    assert!(can_stake(&profile, 0));
    assert!(can_boost(1_700_000_000, 86_400));
    assert!(!can_boost(i64::MAX, 1));
    assert!(!can_boost(i64::MIN, -1));
    assert!(can_buy(&profile, 2000, 1, i64::MAX));
    profile.chips = 2000;
    assert!(!can_buy(&profile, 2000, 1, i64::MAX));
    assert!(can_buy(&profile, 2000, 1, i64::MAX - 1));
    assert!(can_buy(&profile, 2001, 1, i64::MAX));
    profile.chips = 100;
    profile.chips = u64::MAX;
    assert!(!can_claim(&profile, 1_700_000_000, 150));
    assert!(can_claim(&profile, 10, 150));
    assert!(!can_stake(&profile, 1));
    assert!(can_stake(&profile, 0));
    profile.chips = 100;
    profile.last_daily = i64::MAX;
    assert!(!can_claim(&profile, i64::MIN, 1));
    assert!(!can_claim(&profile, 0, 1));
    profile.last_daily = i64::MAX - 86_400;
    assert!(can_claim(&profile, 0, u64::MAX));
    assert_eq!(
        daily_claim(&mut profile, 0, u64::MAX),
        Err(EconomyError::Cooldown { remaining: i64::MAX })
    );
}

#[test]
fn a_refused_purchase_sets_no_end() {
    let mut profile = create_default_profile();
    assert_eq!(
        buy_booster(&mut profile, BoosterTier::X2, 2000, 86_400, i64::MAX),
        Err(EconomyError::InsufficientFunds)
    );
    assert_eq!(
        try_purchase_booster(&mut profile, "x2", i64::MAX),
        Some(Err(EconomyError::InsufficientFunds))
    );
    assert_eq!(
        try_purchase_booster(&mut profile, "nothing", i64::MAX),
        Some(Err(EconomyError::UnknownBooster))
    );
    assert_eq!(profile, create_default_profile());
    profile.chips = 5000;
    assert_eq!(try_purchase_booster(&mut profile, "x5", i64::MAX), None);
    assert_eq!(profile.chips, 5000);
    assert_eq!(profile.xp_booster_x5_until, 0);
    assert_eq!(
        try_purchase_booster(&mut profile, "X5", 1_000),
        Some(Ok((BoosterTier::X5, 0)))
    );
    assert_eq!(profile.xp_booster_x5_until, 87_400);
}
