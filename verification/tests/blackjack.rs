use starosta::blackjack::{
    can_play, can_settle, fresh_deck, hand_value, is_countable, settle_round, Round, RoundEvent,
    RoundStatus, RoundStep, IDLE_WINDOW_SECS,
};
use starosta::profile::create_default_profile;

fn sorted(cards: &[u8]) -> Vec<u8> {
    let mut copy = cards.to_vec();
    copy.sort();
    copy
}

fn round_with(
    deck: Vec<u8>,
    player: Vec<u8>,
    dealer: Vec<u8>,
    bet: u64,
) -> Round {
    Round { deck, player, dealer, bet, status: RoundStatus::Playing }
}

#[test]
fn two_tens_and_an_ace_make_21() {
    assert_eq!(hand_value(&vec![10, 10, 11]), 21);
}

#[test]
fn hand_values() {
    assert_eq!(hand_value(&vec![]), 0);
    assert_eq!(hand_value(&vec![11]), 11);
    assert_eq!(hand_value(&vec![11, 11]), 12);
    assert_eq!(hand_value(&vec![11, 10]), 21);
    assert_eq!(hand_value(&vec![11, 11, 11]), 13);
    assert_eq!(hand_value(&vec![10, 9, 5]), 24);
    assert_eq!(hand_value(&vec![11, 9, 5]), 15);
    assert_eq!(hand_value(&vec![11, 11, 10, 10]), 22);
    assert_eq!(hand_value(&vec![5, 6, 10]), 21);
    assert_eq!(hand_value(&vec![11, 5, 5]), 21);
}

#[test]
fn fresh_deck_has_four_of_each_rank() {
    let deck = fresh_deck();
    assert_eq!(deck.len(), 52);
    assert_eq!(&deck[0..13], &[2, 3, 4, 5, 6, 7, 8, 9, 10, 10, 10, 10, 11]);
    assert_eq!(&deck[13..26], &deck[0..13]);
    assert_eq!(&deck[39..52], &deck[0..13]);
    assert_eq!(deck.iter().filter(|&&c| c == 10).count(), 16);
    assert_eq!(deck.iter().filter(|&&c| c == 11).count(), 4);
    assert_eq!(deck.iter().map(|&c| c as u32).sum::<u32>(), 380);
}

#[test]
fn deal_takes_cards_from_the_end() {
    let round = Round::deal(vec![2, 3, 4, 5, 6, 7], 30);
    assert_eq!(round.player, vec![7, 6]);
    assert_eq!(round.dealer, vec![5, 4]);
    assert_eq!(round.deck, vec![2, 3]);
    assert_eq!(round.bet, 30);
    assert_eq!(round.status, RoundStatus::Playing);
}

#[test]
fn start_deals_from_a_shuffled_full_deck() {
    let mut differs = false;
    let mut attempt = 0;
    while attempt < 5 {
        let round = Round::start(25);
        assert_eq!(round.status, RoundStatus::Playing);
        assert_eq!(round.bet, 25);
        assert_eq!(round.player.len(), 2);
        assert_eq!(round.dealer.len(), 2);
        assert_eq!(round.deck.len(), 48);
        let mut all = round.deck.clone();
        all.extend_from_slice(&round.dealer);
        all.extend_from_slice(&round.player);
        assert_eq!(sorted(&all), sorted(&fresh_deck()));
        let unshuffled = Round::deal(fresh_deck(), 25);
        if round.deck != unshuffled.deck || round.player != unshuffled.player {
            differs = true;
        }
        attempt += 1;
    }
    assert!(differs);
}

#[test]
fn hit_draws_one_card() {
    let mut round = round_with(vec![2, 3], vec![10, 5], vec![9, 8], 10);
    round.hit();
    assert_eq!(round.player, vec![10, 5, 3]);
    assert_eq!(round.deck, vec![2]);
    assert_eq!(round.status, RoundStatus::Playing);
    assert_eq!(round.dealer, vec![9, 8]);
}

#[test]
fn hit_over_21_loses() {
    let mut round = round_with(vec![2, 10], vec![10, 5], vec![9, 8], 10);
    assert_eq!(round.advance(RoundEvent::Hit), RoundStep::Settle);
    assert_eq!(round.status, RoundStatus::Lost);
    assert_eq!(round.player, vec![10, 5, 10]);
}

#[test]
fn hit_on_an_empty_deck_yields_a_ten() {
    let mut round = round_with(vec![], vec![5, 5], vec![9, 8], 10);
    round.hit();
    assert_eq!(round.player, vec![5, 5, 10]);
    assert_eq!(round.status, RoundStatus::Playing);
    assert!(round.deck.is_empty());
}

#[test]
fn dealer_draws_to_seventeen() {
    let mut round = round_with(vec![9, 4, 2, 3], vec![10, 9], vec![10, 2], 10);
    round.stand();
    assert_eq!(round.dealer, vec![10, 2, 3, 2]);
    assert_eq!(round.deck, vec![9, 4]);
    assert_eq!(round.status, RoundStatus::Won);
}

#[test]
fn dealer_bust_wins_the_round() {
    let mut round = round_with(vec![10], vec![10, 2], vec![10, 6], 10);
    round.stand();
    assert_eq!(round.dealer, vec![10, 6, 10]);
    assert_eq!(round.status, RoundStatus::Won);
}

#[test]
fn lower_hand_loses_and_equal_hands_tie() {
    let mut lower = round_with(vec![5], vec![10, 7], vec![10, 8], 10);
    lower.stand();
    assert_eq!(lower.status, RoundStatus::Lost);
    assert_eq!(lower.deck, vec![5]);
    let mut level = round_with(vec![5], vec![10, 8], vec![10, 8], 10);
    level.stand();
    assert_eq!(level.status, RoundStatus::Push);
}

#[test]
fn dealer_stops_when_the_deck_runs_out() {
    let mut round = round_with(vec![2], vec![10, 9], vec![5, 5], 10);
    round.stand();
    assert_eq!(round.dealer, vec![5, 5, 2]);
    assert!(round.deck.is_empty());
    assert_eq!(round.status, RoundStatus::Won);
}

#[test]
fn timeout_abandons_without_a_result() {
    assert_eq!(IDLE_WINDOW_SECS, 60);
    let mut round = round_with(vec![2, 3], vec![10, 5], vec![9, 8], 10);
    assert_eq!(round.advance(RoundEvent::Timeout), RoundStep::Abandon);
    assert_eq!(round.status, RoundStatus::Playing);
    assert_eq!(round.player, vec![10, 5]);
    assert_eq!(round.deck, vec![2, 3]);
}

#[test]
fn events_drive_a_round() {
    let mut round = round_with(vec![10, 7, 3], vec![5, 6], vec![10, 7], 10);
    assert_eq!(round.advance(RoundEvent::Hit), RoundStep::Continue);
    assert_eq!(round.player, vec![5, 6, 3]);
    assert_eq!(round.advance(RoundEvent::Hit), RoundStep::Continue);
    assert_eq!(hand_value(&round.player), 21);
    assert_eq!(round.advance(RoundEvent::Stand), RoundStep::Settle);
    assert_eq!(round.status, RoundStatus::Won);
    assert_eq!(round.advance(RoundEvent::Hit), RoundStep::Abandon);
    assert_eq!(round.advance(RoundEvent::Stand), RoundStep::Abandon);
    assert_eq!(round.status, RoundStatus::Won);
    assert_eq!(round.player.len(), 4);
}

#[test]
fn settlement_moves_the_bet_only_on_win_or_loss() {
    let mut profile = create_default_profile();
    settle_round(&mut profile, 40, RoundStatus::Won);
    assert_eq!(profile.chips, 140);
    settle_round(&mut profile, 40, RoundStatus::Push);
    assert_eq!(profile.chips, 140);
    settle_round(&mut profile, 40, RoundStatus::Playing);
    assert_eq!(profile.chips, 140);
    settle_round(&mut profile, 40, RoundStatus::Lost);
    assert_eq!(profile.chips, 100);
    settle_round(&mut profile, 500, RoundStatus::Lost);
    assert_eq!(profile.chips, 0);
}

#[test]
fn a_round_needs_a_covered_bet() {
    let mut profile = create_default_profile();
    assert!(can_play(Some(&profile), 100));
    assert!(can_play(Some(&profile), 1));
    assert!(!can_play(Some(&profile), 101));
    assert!(!can_play(Some(&profile), 0));
    profile.chips = 0;
    assert!(!can_play(Some(&profile), 1));
    profile.chips = u64::MAX;
    assert!(can_play(Some(&profile), u64::MAX));
}

#[test]
fn a_first_time_member_plays_on_the_starting_balance() {
    assert!(can_play(None, 10));
    assert!(can_play(None, 1));
    assert!(can_play(None, 100));
    assert!(!can_play(None, 101));
    assert!(!can_play(None, 0));
}

#[test]
fn limits_of_a_round_are_checked() {
    assert!(is_countable(&vec![]));
    assert!(is_countable(&vec![255; 1000]));
    let round = Round::start(5);
    assert!(round.can_advance());
    let mut profile = create_default_profile();
    assert!(can_settle(&profile, u64::MAX - 100, RoundStatus::Won));
    assert!(!can_settle(&profile, u64::MAX - 99, RoundStatus::Won));
    assert!(can_settle(&profile, u64::MAX, RoundStatus::Lost));
    assert!(can_settle(&profile, u64::MAX, RoundStatus::Push));
    assert!(can_settle(&profile, u64::MAX, RoundStatus::Playing));
    profile.chips = 0;
    assert!(can_settle(&profile, u64::MAX, RoundStatus::Won));
}
