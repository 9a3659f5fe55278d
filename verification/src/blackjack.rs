//! Blackjack: the deck, the value of a hand, and a round as a state machine
//! that the caller drives with the player's choices.

use vstd::prelude::*;
use crate::chance::shuffle_cards;
use crate::profile::{UserProfile, STARTING_CHIPS};

verus! {

/// The value of an ace before it is softened.
pub const ACE: u8 = 11;

/// A hand above this is bust.
pub const BUST_LIMIT: u64 = 21;

/// The dealer draws while below this.
pub const DEALER_STANDS_AT: u64 = 17;

/// Cards in a deck.
pub const DECK_SIZE: usize = 52;

/// Seconds that a round waits for the player's next choice.
pub const IDLE_WINDOW_SECS: u64 = 60;

/// The card that a hit yields once the deck has run out.
pub const FALLBACK_CARD: u8 = 10;

/// The thirteen ranks of a suit as card values: two to ten at face value,
/// the three court cards at ten, the ace at eleven.
pub open spec fn rank_values() -> Seq<u8> {
    seq![2u8, 3u8, 4u8, 5u8, 6u8, 7u8, 8u8, 9u8, 10u8, 10u8, 10u8, 10u8, 11u8]
}

/// An unshuffled deck: the thirteen ranks, four times over.
pub open spec fn fresh_deck_cards() -> Seq<u8> {
    Seq::new(DECK_SIZE as nat, |i: int| rank_values()[i % 13])
}

/// The cards of a hand added up, every ace at eleven.
pub open spec fn card_sum(hand: Seq<u8>) -> int
    decreases hand.len(),
{
    if hand.len() == 0 {
        0
    } else {
        card_sum(hand.drop_last()) + hand.last()
    }
}

/// The number of aces in a hand.
pub open spec fn ace_count(hand: Seq<u8>) -> int
    decreases hand.len(),
{
    if hand.len() == 0 {
        0
    } else {
        ace_count(hand.drop_last()) + if hand.last() == ACE {
            1int
        } else {
            0int
        }
    }
}

/// Takes ten off `total` for one ace after the other, while the total is
/// bust and an ace is left to count as one.
pub open spec fn soften(total: int, aces: int) -> int
    decreases aces,
{
    if total > BUST_LIMIT && aces > 0 {
        soften(total - 10, aces - 1)
    } else {
        total
    }
}

/// The value of a hand under the soft-ace rule.
pub open spec fn hand_total(hand: Seq<u8>) -> int {
    soften(card_sum(hand), ace_count(hand))
}

/// A hand small enough for its sum to be held in 64 bits.
pub open spec fn countable(hand: Seq<u8>) -> bool {
    hand.len() * 255 <= u64::MAX
}

/// How a round stands.
#[derive(Clone, Copy, Debug, PartialEq, Eq, Structural)]
pub enum RoundStatus {
    /// The player may still hit or stand.
    Playing,
    /// The dealer went bust or ended below the player.
    Won,
    /// The player went bust or ended below the dealer.
    Lost,
    /// Both ended level.
    Push,
}

/// What the player, or the clock, does to a running round.
#[derive(Clone, Copy, Debug, PartialEq, Eq, Structural)]
pub enum RoundEvent {
    Hit,
    Stand,
    /// The player let the idle window pass.
    Timeout,
}

/// What the caller does after an event.
#[derive(Clone, Copy, Debug, PartialEq, Eq, Structural)]
pub enum RoundStep {
    /// Show the table and wait for the next choice.
    Continue,
    /// Show the final table and settle the bet.
    Settle,
    /// Stop listening; there is nothing to settle.
    Abandon,
}

/// One round of blackjack. Cards are drawn from the end of `deck`.
#[derive(Clone, Debug)]
pub struct Round {
    pub deck: Vec<u8>,
    pub player: Vec<u8>,
    pub dealer: Vec<u8>,
    pub bet: u64,
    pub status: RoundStatus,
}

/// A round as contracts see it.
pub struct RoundView {
    pub deck: Seq<u8>,
    pub player: Seq<u8>,
    pub dealer: Seq<u8>,
    pub bet: u64,
    pub status: RoundStatus,
}

impl View for Round {
    type V = RoundView;

    open spec fn view(&self) -> RoundView {
        RoundView {
            deck: self.deck@,
            player: self.player@,
            dealer: self.dealer@,
            bet: self.bet,
            status: self.status,
        }
    }
}

/// The result of a finished round from the two hand values: the player wins
/// when the dealer is bust or lower, loses when lower, and ties otherwise.
pub open spec fn showdown(player_total: int, dealer_total: int) -> RoundStatus {
    if dealer_total > BUST_LIMIT || player_total > dealer_total {
        RoundStatus::Won
    } else if player_total < dealer_total {
        RoundStatus::Lost
    } else {
        RoundStatus::Push
    }
}

/// Deck and dealer's hand once the dealer has drawn: one card after the other
/// from the end of the deck, while the hand is below [`DEALER_STANDS_AT`] and
/// the deck has cards.
pub open spec fn dealer_draws(deck: Seq<u8>, dealer: Seq<u8>) -> (Seq<u8>, Seq<u8>)
    decreases deck.len(),
{
    if hand_total(dealer) < DEALER_STANDS_AT && deck.len() > 0 {
        dealer_draws(deck.drop_last(), dealer.push(deck.last()))
    } else {
        (deck, dealer)
    }
}

/// A round dealt from `deck`: the last two cards to the player, the two
/// before them to the dealer.
pub open spec fn dealt(deck: Seq<u8>, bet: u64) -> RoundView {
    let n = deck.len() as int;
    RoundView {
        deck: deck.take(n - 4),
        player: seq![deck[n - 1], deck[n - 2]],
        dealer: seq![deck[n - 3], deck[n - 4]],
        bet,
        status: RoundStatus::Playing,
    }
}

/// The round after the player has taken a card.
pub open spec fn after_hit(round: RoundView) -> RoundView {
    let card = if round.deck.len() > 0 {
        round.deck.last()
    } else {
        FALLBACK_CARD
    };
    let deck = if round.deck.len() > 0 {
        round.deck.drop_last()
    } else {
        round.deck
    };
    let player = round.player.push(card);
    RoundView {
        deck,
        player,
        status: if hand_total(player) > BUST_LIMIT {
            RoundStatus::Lost
        } else {
            RoundStatus::Playing
        },
        ..round
    }
}

/// The round after the player has stood.
pub open spec fn after_stand(round: RoundView) -> RoundView {
    let (deck, dealer) = dealer_draws(round.deck, round.dealer);
    RoundView {
        deck,
        dealer,
        status: showdown(hand_total(round.player), hand_total(dealer)),
        ..round
    }
}

/// The round after `event`; a round that is over takes no more events.
pub open spec fn after_event(round: RoundView, event: RoundEvent) -> RoundView {
    if round.status != RoundStatus::Playing {
        round
    } else {
        match event {
            RoundEvent::Hit => after_hit(round),
            RoundEvent::Stand => after_stand(round),
            RoundEvent::Timeout => round,
        }
    }
}

/// What the caller does once `event` has been applied to `round`.
pub open spec fn step_after(round: RoundView, event: RoundEvent) -> RoundStep {
    if round.status != RoundStatus::Playing || event == RoundEvent::Timeout {
        RoundStep::Abandon
    } else if after_event(round, event).status == RoundStatus::Playing {
        RoundStep::Continue
    } else {
        RoundStep::Settle
    }
}

/// The profile after a round that ended in `status` on a bet of `bet`: the
/// bet is credited on a win, debited on a loss as far as the balance goes, and
/// nothing moves otherwise.
pub open spec fn paid_out(profile: UserProfile, bet: u64, status: RoundStatus) -> UserProfile {
    match status {
        RoundStatus::Won => UserProfile { chips: (profile.chips + bet) as u64, ..profile },
        RoundStatus::Lost => UserProfile {
            chips: if profile.chips >= bet {
                (profile.chips - bet) as u64
            } else {
                0
            },
            ..profile
        },
        _ => profile,
    }
}

/// Both hands of the round can still be valued: the player's with one more
/// card, the dealer's with all that the deck holds.
pub open spec fn playable(round: RoundView) -> bool {
    countable(round.player.push(0)) && countable(round.dealer + round.deck)
}

/// The balance has room for the bet, where the round was won.
pub open spec fn payout_fits(profile: UserProfile, bet: u64, status: RoundStatus) -> bool {
    status == RoundStatus::Won ==> profile.chips + bet <= u64::MAX
}

/// The value of rank `k` of a suit, counted from the two.
fn rank_value(k: usize) -> (value: u8)
    requires
        k < 13,
    ensures
        value == rank_values()[k as int],
{
    if k < 9 {
        (k + 2) as u8
    } else if k < 12 {
        10
    } else {
        ACE
    }
}

/// Builds the unshuffled deck.
pub fn fresh_deck() -> (deck: Vec<u8>)
    ensures
        deck@ == fresh_deck_cards(),
{
    let mut deck: Vec<u8> = Vec::new();
    let mut i: usize = 0;
    while i < DECK_SIZE
        invariant
            i <= DECK_SIZE,
            deck@.len() == i,
            forall|j: int| 0 <= j < i ==> deck@[j] == rank_values()[j % 13],
        decreases DECK_SIZE - i,
    {
        deck.push(rank_value(i % 13));
        i += 1;
    }
    assert(deck@ =~= fresh_deck_cards());
    deck
}

/// Whether [`hand_value`] can value the hand.
pub fn is_countable(hand: &Vec<u8>) -> (fits: bool)
    ensures
        fits == countable(hand@),
{
    hand.len() as u128 * 255 <= u64::MAX as u128
}

/// The value of a hand: the cards added up, then ten taken off for each ace
/// while the total is above [`BUST_LIMIT`] and an ace is left to soften.
pub fn hand_value(hand: &Vec<u8>) -> (total: u64)
    requires
        countable(hand@),
    ensures
        total == hand_total(hand@),
{
    let mut total: u64 = 0;
    let mut aces: usize = 0;
    let mut i: usize = 0;
    while i < hand.len()
        invariant
            i <= hand.len(),
            countable(hand@),
            total == card_sum(hand@.take(i as int)),
            aces == ace_count(hand@.take(i as int)),
            total <= 255 * i,
            aces <= i,
        decreases hand.len() - i,
    {
        assert(hand@.take(i + 1).drop_last() =~= hand@.take(i as int));
        total += hand[i] as u64;
        if hand[i] == ACE {
            aces += 1;
        }
        i += 1;
    }
    assert(hand@.take(i as int) =~= hand@);
    while total > BUST_LIMIT && aces > 0
        invariant
            soften(total as int, aces as int) == hand_total(hand@),
        decreases aces,
    {
        total -= 10;
        aces -= 1;
    }
    total
}

/// What softening comes to: ten comes off for each ace, but for no more aces
/// than it takes to bring the total to [`BUST_LIMIT`] or below.
pub proof fn lemma_soften_closed_form(total: int, aces: int)
    requires
        0 <= aces,
    ensures
        total <= BUST_LIMIT ==> soften(total, aces) == total,
        total > BUST_LIMIT && aces >= (total - 12) / 10 ==> soften(total, aces) == total - 10 * ((
        total - 12) / 10) && soften(total, aces) <= BUST_LIMIT,
        total > BUST_LIMIT && aces < (total - 12) / 10 ==> soften(total, aces) == total - 10 * aces
            && soften(total, aces) > BUST_LIMIT,
    decreases aces,
{
    if total > BUST_LIMIT && aces > 0 {
        lemma_soften_closed_form(total - 10, aces - 1);
    }
}

/// The chips that a member can stake: those of their profile, or the
/// starting balance for a member who has no profile yet.
pub open spec fn chips_at_hand(profile: Option<&UserProfile>) -> u64 {
    match profile {
        Some(p) => p.chips,
        None => STARTING_CHIPS,
    }
}

/// Whether a member may open a round on `bet`: the bet is not zero, and the
/// balance covers it. A member without a profile counts with the starting
/// balance, which is theirs at the first interaction.
pub fn can_play(profile: Option<&UserProfile>, bet: u64) -> (allowed: bool)
    ensures
        allowed == (bet != 0 && bet <= chips_at_hand(profile)),
{
    let chips = match profile {
        Some(p) => p.chips,
        None => STARTING_CHIPS,
    };
    bet != 0 && bet <= chips
}

impl Round {
    /// Deals a round from `deck`, drawing from its end: two cards to the
    /// player, then two to the dealer.
    pub fn deal(deck: Vec<u8>, bet: u64) -> (round: Round)
        requires
            deck@.len() >= 4,
        ensures
            round@ == dealt(deck@, bet),
    {
        let mut deck = deck;
        let ghost cards = deck@;
        let mut player: Vec<u8> = Vec::new();
        let mut dealer: Vec<u8> = Vec::new();
        let n = deck.len();
        let p1 = deck.pop().unwrap();
        let p2 = deck.pop().unwrap();
        let d1 = deck.pop().unwrap();
        let d2 = deck.pop().unwrap();
        player.push(p1);
        player.push(p2);
        dealer.push(d1);
        dealer.push(d2);
        let round = Round { deck, player, dealer, bet, status: RoundStatus::Playing };
        assert(round@.deck =~= cards.take(n - 4));
        assert(round@.player =~= seq![cards[n - 1], cards[n - 2]]);
        assert(round@.dealer =~= seq![cards[n - 3], cards[n - 4]]);
        round
    }

    /// Opens a round on a freshly shuffled deck.
    pub fn start(bet: u64) -> (round: Round)
        ensures
            round@.status == RoundStatus::Playing,
            round@.bet == bet,
            round@.player.len() == 2,
            round@.dealer.len() == 2,
            round@.deck.len() == DECK_SIZE - 4,
            (round@.deck + round@.dealer.reverse() + round@.player.reverse()).to_multiset()
                == fresh_deck_cards().to_multiset(),
    {
        let mut deck = fresh_deck();
        shuffle_cards(&mut deck);
        proof {
            deck@.to_multiset_ensures();
            fresh_deck_cards().to_multiset_ensures();
        }
        let ghost cards = deck@;
        let round = Round::deal(deck, bet);
        proof {
            let n = cards.len() as int;
            assert(round@.dealer.reverse() =~= seq![cards[n - 4], cards[n - 3]]);
            assert(round@.player.reverse() =~= seq![cards[n - 2], cards[n - 1]]);
            assert(round@.deck + round@.dealer.reverse() + round@.player.reverse() =~= cards);
        }
        round
    }

    /// The player takes a card from the deck, or a ten once the deck is
    /// empty, and loses at once on going bust.
    pub fn hit(&mut self)
        requires
            old(self)@.status == RoundStatus::Playing,
            countable(old(self)@.player.push(0)),
        ensures
            final(self)@ == after_hit(old(self)@),
    {
        let card = match self.deck.pop() {
            Some(card) => card,
            None => FALLBACK_CARD,
        };
        self.player.push(card);
        if hand_value(&self.player) > BUST_LIMIT {
            self.status = RoundStatus::Lost;
        }
        assert(self@.deck =~= after_hit(old(self)@).deck);
    }

    /// The player stands: the dealer draws, and the two hands are compared.
    pub fn stand(&mut self)
        requires
            old(self)@.status == RoundStatus::Playing,
            countable(old(self)@.player),
            countable(old(self)@.dealer + old(self)@.deck),
        ensures
            final(self)@ == after_stand(old(self)@),
    {
        loop
            invariant
                self@.player == old(self)@.player,
                self@.bet == old(self)@.bet,
                self@.status == old(self)@.status,
                (self@.dealer + self@.deck).len() == (old(self)@.dealer + old(self)@.deck).len(),
                countable(old(self)@.dealer + old(self)@.deck),
                dealer_draws(self@.deck, self@.dealer) == dealer_draws(
                    old(self)@.deck,
                    old(self)@.dealer,
                ),
            ensures
                self@.player == old(self)@.player,
                self@.bet == old(self)@.bet,
                self@.status == old(self)@.status,
                countable(self@.dealer),
                (self@.deck, self@.dealer) == dealer_draws(old(self)@.deck, old(self)@.dealer),
            decreases self@.deck.len(),
        {
            if hand_value(&self.dealer) >= DEALER_STANDS_AT {
                break ;
            }
            match self.deck.pop() {
                Some(card) => {
                    self.dealer.push(card);
                },
                None => {
                    break ;
                },
            }
        }
        let player_total = hand_value(&self.player);
        let dealer_total = hand_value(&self.dealer);
        self.status = if dealer_total > BUST_LIMIT || player_total > dealer_total {
            RoundStatus::Won
        } else if player_total < dealer_total {
            RoundStatus::Lost
        } else {
            RoundStatus::Push
        };
    }

    /// Whether [`Round::advance`] can take another event.
    pub fn can_advance(&self) -> (fits: bool)
        ensures
            fits == playable(self@),
    {
        let most: u128 = u64::MAX as u128 / 255;
        (self.player.len() as u128) < most && self.dealer.len() as u128 + self.deck.len() as u128
            <= most
    }

    /// Applies one event to the round and says what the caller is to do next.
    ///
    /// A hit or a stand moves a running round on; the round is then either
    /// still running or ready to be settled, once. A timeout abandons a
    /// running round as it stands. A round that is over ignores every event
    /// and is not settled again.
    pub fn advance(&mut self, event: RoundEvent) -> (step: RoundStep)
        requires
            playable(old(self)@),
        ensures
            final(self)@ == after_event(old(self)@, event),
            step == step_after(old(self)@, event),
    {
        if self.status != RoundStatus::Playing {
            return RoundStep::Abandon;
        }
        match event {
            RoundEvent::Hit => {
                self.hit();
            },
            RoundEvent::Stand => {
                self.stand();
            },
            RoundEvent::Timeout => {
                return RoundStep::Abandon;
            },
        }
        if self.status == RoundStatus::Playing {
            RoundStep::Continue
        } else {
            RoundStep::Settle
        }
    }
}

/// Whether [`settle_round`] can book the round.
pub fn can_settle(profile: &UserProfile, bet: u64, status: RoundStatus) -> (fits: bool)
    ensures
        fits == payout_fits(*profile, bet, status),
{
    match status {
        RoundStatus::Won => profile.chips <= u64::MAX - bet,
        _ => true,
    }
}

/// Books a finished round: the bet is credited on a win and debited on a
/// loss, the debit stopping at an empty balance; a tie, or a round that never
/// finished, moves no chips.
pub fn settle_round(profile: &mut UserProfile, bet: u64, status: RoundStatus)
    requires
        payout_fits(*old(profile), bet, status),
    ensures
        *final(profile) == paid_out(*old(profile), bet, status),
{
    match status {
        RoundStatus::Won => {
            profile.chips += bet;
        },
        RoundStatus::Lost => {
            profile.chips = profile.chips.saturating_sub(bet);
        },
        _ => {},
    }
}

} // verus!
