//! Chips: the daily reward, wagers and booster purchases.

use vstd::prelude::*;
use crate::chance::{random_in_range, random_ratio};
use crate::profile::UserProfile;
use crate::text::{lowercase, to_lowercase};

verus! {

/// Seconds that must pass between two daily rewards.
pub const DAILY_COOLDOWN: i64 = 86400;

/// Smallest daily reward.
pub const DAILY_BONUS_MIN: u64 = 50;

/// The daily reward stays below this.
pub const DAILY_BONUS_END: u64 = 150;

/// Largest daily reward.
pub const DAILY_BONUS_MAX: u64 = 149;

/// The casino pays out nine times in twenty.
pub const CASINO_WIN_NUMERATOR: u32 = 9;

/// See [`CASINO_WIN_NUMERATOR`].
pub const CASINO_WIN_DENOMINATOR: u32 = 20;

/// Price of the doubling booster.
pub const BOOSTER_X2_PRICE: u64 = 2000;

/// Price of the fivefold booster.
pub const BOOSTER_X5_PRICE: u64 = 5000;

/// Seconds that a purchased booster runs.
pub const BOOSTER_DURATION: i64 = 86400;

/// Why the economy turned a request down. No request that fails changes the
/// profile.
#[derive(Clone, Copy, Debug, PartialEq, Eq, Structural)]
pub enum EconomyError {
    /// The daily reward was claimed less than a day ago; `remaining` seconds
    /// are still to wait.
    Cooldown { remaining: i64 },
    /// The stake is zero, or the balance does not cover the stake or price.
    InsufficientFunds,
    /// No booster of that name is on sale.
    UnknownBooster,
}

/// The two boosters on sale.
#[derive(Clone, Copy, Debug, PartialEq, Eq, Structural)]
pub enum BoosterTier {
    X2,
    X5,
}

/// A booster that is running, and the whole hours it still has.
#[derive(Clone, Copy, Debug, PartialEq, Eq, Structural)]
pub struct ActiveBooster {
    pub tier: BoosterTier,
    pub hours_left: i64,
}

/// Seconds still to wait at `now` for a profile last rewarded at `last_daily`;
/// positive exactly while the cooldown runs.
pub open spec fn cooldown_left(last_daily: i64, now: i64) -> int {
    DAILY_COOLDOWN - (now - last_daily)
}

/// The profile after a daily reward of `bonus` chips at `now`.
pub open spec fn rewarded(profile: UserProfile, now: i64, bonus: u64) -> UserProfile {
    UserProfile { chips: (profile.chips + bonus) as u64, last_daily: now, ..profile }
}

/// A stake that the balance allows: not zero, not above the chips held.
pub open spec fn stake_allowed(profile: UserProfile, amount: u64) -> bool {
    amount != 0 && amount <= profile.chips
}

/// The profile after a decided stake: credited on a win, debited on a loss,
/// the debit stopping at an empty balance.
pub open spec fn settled(profile: UserProfile, amount: u64, won: bool) -> UserProfile {
    if won {
        UserProfile { chips: (profile.chips + amount) as u64, ..profile }
    } else if profile.chips >= amount {
        UserProfile { chips: (profile.chips - amount) as u64, ..profile }
    } else {
        UserProfile { chips: 0, ..profile }
    }
}

/// The profile after buying `tier` at `now`: the price is gone and that
/// tier's expiry is set anew; the other tier keeps its expiry.
pub open spec fn boosted(
    profile: UserProfile,
    tier: BoosterTier,
    price: u64,
    duration: i64,
    now: i64,
) -> UserProfile {
    match tier {
        BoosterTier::X2 => UserProfile {
            chips: (profile.chips - price) as u64,
            xp_booster_x2_until: (now + duration) as i64,
            ..profile
        },
        BoosterTier::X5 => UserProfile {
            chips: (profile.chips - price) as u64,
            xp_booster_x5_until: (now + duration) as i64,
            ..profile
        },
    }
}

/// The booster that a name stands for, by its lower-case form.
pub open spec fn booster_named(lower: Seq<char>) -> Option<BoosterTier> {
    if lower == "x2"@ {
        Some(BoosterTier::X2)
    } else if lower == "x5"@ {
        Some(BoosterTier::X5)
    } else {
        None
    }
}

/// The price of a booster.
pub open spec fn price_of(tier: BoosterTier) -> u64 {
    match tier {
        BoosterTier::X2 => BOOSTER_X2_PRICE,
        BoosterTier::X5 => BOOSTER_X5_PRICE,
    }
}

/// The booster that counts at `now`, if any: the fivefold one while it runs,
/// else the doubling one while it runs.
pub open spec fn booster_at(profile: UserProfile, now: i64) -> Option<ActiveBooster> {
    if now < profile.xp_booster_x5_until {
        Some(ActiveBooster {
            tier: BoosterTier::X5,
            hours_left: ((profile.xp_booster_x5_until - now) / 3600) as i64,
        })
    } else if now < profile.xp_booster_x2_until {
        Some(ActiveBooster {
            tier: BoosterTier::X2,
            hours_left: ((profile.xp_booster_x2_until - now) / 3600) as i64,
        })
    } else {
        None
    }
}

/// A claim at `now` stays within range: the wait it may be told fits the
/// clock, and the balance has room for a reward of `bonus`.
pub open spec fn claim_fits(profile: UserProfile, now: i64, bonus: u64) -> bool {
    &&& cooldown_left(profile.last_daily, now) <= i64::MAX
    &&& cooldown_left(profile.last_daily, now) <= 0 ==> profile.chips + bonus <= u64::MAX
}

/// The balance has room for the winnings of a stake that is allowed.
pub open spec fn stake_fits(profile: UserProfile, amount: u64) -> bool {
    stake_allowed(profile, amount) ==> profile.chips + amount <= u64::MAX
}

/// A booster bought at `now` ends within the range of the clock.
pub open spec fn booster_fits(now: i64, duration: i64) -> bool {
    i64::MIN <= now + duration <= i64::MAX
}

/// A purchase at `price` stays within range: where the balance covers the
/// price, the booster's end fits the clock. A purchase that is refused sets
/// no end.
pub open spec fn purchase_fits(profile: UserProfile, price: u64, duration: i64, now: i64) -> bool {
    profile.chips >= price ==> booster_fits(now, duration)
}

/// A purchase by name stays within range: where the name, in lower case,
/// stands for a booster, buying that booster at its list price does.
pub open spec fn named_purchase_fits(profile: UserProfile, lower: Seq<char>, now: i64) -> bool {
    booster_named(lower) matches Some(tier) ==> purchase_fits(
        profile,
        price_of(tier),
        BOOSTER_DURATION,
        now,
    )
}

/// Whether [`daily_claim`] can take a claim at `now` for a reward of `bonus`;
/// with [`DAILY_BONUS_MAX`] for the bonus, whether [`daily`] can.
pub fn can_claim(profile: &UserProfile, now: i64, bonus: u64) -> (fits: bool)
    ensures
        fits == claim_fits(*profile, now, bonus),
{
    let remaining: i128 = DAILY_COOLDOWN as i128 - (now as i128 - profile.last_daily as i128);
    if remaining > i64::MAX as i128 {
        false
    } else if remaining <= 0 {
        profile.chips <= u64::MAX - bonus
    } else {
        true
    }
}

/// Whether [`wager`] and [`casino`] can take a stake of `amount`, and
/// [`settle_wager`] a win on it.
pub fn can_stake(profile: &UserProfile, amount: u64) -> (fits: bool)
    ensures
        fits == stake_fits(*profile, amount),
{
    if amount == 0 || profile.chips < amount {
        true
    } else {
        profile.chips <= u64::MAX - amount
    }
}

/// Whether a booster of `duration` seconds that starts at `now` ends within
/// the range of the clock.
pub fn can_boost(now: i64, duration: i64) -> (fits: bool)
    ensures
        fits == booster_fits(now, duration),
{
    let end: i128 = now as i128 + duration as i128;
    i64::MIN as i128 <= end && end <= i64::MAX as i128
}

/// Whether [`buy_booster`] can take the purchase.
pub fn can_buy(profile: &UserProfile, price: u64, duration: i64, now: i64) -> (fits: bool)
    ensures
        fits == purchase_fits(*profile, price, duration, now),
{
    profile.chips < price || can_boost(now, duration)
}

/// Pays out a daily reward of `bonus` chips, unless the last one is less than
/// a day old.
pub fn daily_claim(profile: &mut UserProfile, now: i64, bonus: u64) -> (outcome: Result<
    u64,
    EconomyError,
>)
    requires
        claim_fits(*old(profile), now, bonus),
    ensures
        cooldown_left(old(profile).last_daily, now) > 0 ==> *final(profile) == *old(profile)
            && outcome == Err::<u64, EconomyError>(
            EconomyError::Cooldown { remaining: cooldown_left(old(profile).last_daily, now) as i64 },
        ),
        cooldown_left(old(profile).last_daily, now) <= 0 ==> *final(profile) == rewarded(
            *old(profile),
            now,
            bonus,
        ) && outcome == Ok::<u64, EconomyError>(bonus),
{
    let remaining: i128 = DAILY_COOLDOWN as i128 - (now as i128 - profile.last_daily as i128);
    if remaining > 0 {
        Err(EconomyError::Cooldown { remaining: remaining as i64 })
    } else {
        profile.chips += bonus;
        profile.last_daily = now;
        Ok(bonus)
    }
}

/// Claims the daily reward at `now`: a random bonus of at least
/// [`DAILY_BONUS_MIN`] and below [`DAILY_BONUS_END`] chips, drawn only when
/// the cooldown is over.
pub fn daily(profile: &mut UserProfile, now: i64) -> (outcome: Result<u64, EconomyError>)
    requires
        claim_fits(*old(profile), now, DAILY_BONUS_MAX),
    ensures
        cooldown_left(old(profile).last_daily, now) > 0 ==> *final(profile) == *old(profile)
            && outcome == Err::<u64, EconomyError>(
            EconomyError::Cooldown { remaining: cooldown_left(old(profile).last_daily, now) as i64 },
        ),
        cooldown_left(old(profile).last_daily, now) <= 0 ==> (outcome matches Ok(bonus)
            && DAILY_BONUS_MIN <= bonus < DAILY_BONUS_END && *final(profile) == rewarded(
            *old(profile),
            now,
            bonus,
        )),
{
    let remaining: i128 = DAILY_COOLDOWN as i128 - (now as i128 - profile.last_daily as i128);
    if remaining > 0 {
        Err(EconomyError::Cooldown { remaining: remaining as i64 })
    } else {
        let bonus = random_in_range(DAILY_BONUS_MIN, DAILY_BONUS_END);
        daily_claim(profile, now, bonus)
    }
}

/// Books the outcome of a stake of `amount` chips: refused when the stake is
/// zero or above the balance, else credited on a win and debited on a loss.
pub fn settle_wager(profile: &mut UserProfile, amount: u64, won: bool) -> (outcome: Result<
    bool,
    EconomyError,
>)
    requires
        won ==> stake_fits(*old(profile), amount),
    ensures
        !stake_allowed(*old(profile), amount) ==> *final(profile) == *old(profile) && outcome
            == Err::<bool, EconomyError>(EconomyError::InsufficientFunds),
        stake_allowed(*old(profile), amount) ==> *final(profile) == settled(
            *old(profile),
            amount,
            won,
        ) && outcome == Ok::<bool, EconomyError>(won),
{
    if amount == 0 || profile.chips < amount {
        Err(EconomyError::InsufficientFunds)
    } else {
        if won {
            profile.chips += amount;
        } else {
            profile.chips = profile.chips.saturating_sub(amount);
        }
        Ok(won)
    }
}

/// Stakes `amount` chips on a draw that wins `numerator` times in
/// `denominator`. A refused stake draws nothing.
pub fn wager(profile: &mut UserProfile, amount: u64, numerator: u32, denominator: u32) -> (outcome:
    Result<bool, EconomyError>)
    requires
        denominator > 0,
        numerator <= denominator,
        stake_fits(*old(profile), amount),
    ensures
        !stake_allowed(*old(profile), amount) ==> *final(profile) == *old(profile) && outcome
            == Err::<bool, EconomyError>(EconomyError::InsufficientFunds),
        stake_allowed(*old(profile), amount) ==> (outcome matches Ok(won) && *final(profile)
            == settled(*old(profile), amount, won) && (numerator == denominator ==> won) && (
        numerator == 0 ==> !won)),
{
    if amount == 0 || profile.chips < amount {
        Err(EconomyError::InsufficientFunds)
    } else {
        let won = random_ratio(numerator, denominator);
        settle_wager(profile, amount, won)
    }
}

/// One round at the casino: a stake that wins nine times in twenty.
pub fn casino(profile: &mut UserProfile, amount: u64) -> (outcome: Result<bool, EconomyError>)
    requires
        stake_fits(*old(profile), amount),
    ensures
        !stake_allowed(*old(profile), amount) ==> *final(profile) == *old(profile) && outcome
            == Err::<bool, EconomyError>(EconomyError::InsufficientFunds),
        stake_allowed(*old(profile), amount) ==> (outcome matches Ok(won) && *final(profile)
            == settled(*old(profile), amount, won)),
{
    wager(profile, amount, CASINO_WIN_NUMERATOR, CASINO_WIN_DENOMINATOR)
}

/// Price and running time of a booster on sale.
pub fn booster_offer(tier: BoosterTier) -> (offer: (u64, i64))
    ensures
        offer == match tier {
            BoosterTier::X2 => (BOOSTER_X2_PRICE, BOOSTER_DURATION),
            BoosterTier::X5 => (BOOSTER_X5_PRICE, BOOSTER_DURATION),
        },
{
    match tier {
        BoosterTier::X2 => (BOOSTER_X2_PRICE, BOOSTER_DURATION),
        BoosterTier::X5 => (BOOSTER_X5_PRICE, BOOSTER_DURATION),
    }
}

/// Buys a booster at `now` for `price` chips. The chosen tier then runs for
/// `duration` seconds from `now`, whatever it had left; the other tier is not
/// touched. Returns the balance that remains.
pub fn buy_booster(
    profile: &mut UserProfile,
    tier: BoosterTier,
    price: u64,
    duration: i64,
    now: i64,
) -> (outcome: Result<u64, EconomyError>)
    requires
        purchase_fits(*old(profile), price, duration, now),
    ensures
        old(profile).chips < price ==> *final(profile) == *old(profile) && outcome == Err::<
            u64,
            EconomyError,
        >(EconomyError::InsufficientFunds),
        old(profile).chips >= price ==> *final(profile) == boosted(
            *old(profile),
            tier,
            price,
            duration,
            now,
        ) && outcome == Ok::<u64, EconomyError>((old(profile).chips - price) as u64),
{
    if profile.chips < price {
        Err(EconomyError::InsufficientFunds)
    } else {
        profile.chips -= price;
        match tier {
            BoosterTier::X2 => {
                profile.xp_booster_x2_until = now + duration;
            },
            BoosterTier::X5 => {
                profile.xp_booster_x5_until = now + duration;
            },
        }
        Ok(profile.chips)
    }
}

/// The booster that the shop shows as running at `now`, with the whole hours
/// it has left.
pub fn active_booster(profile: &UserProfile, now: i64) -> (active: Option<ActiveBooster>)
    ensures
        active == booster_at(*profile, now),
{
    if now < profile.xp_booster_x5_until {
        let left: i128 = (profile.xp_booster_x5_until as i128 - now as i128) / 3600;
        Some(ActiveBooster { tier: BoosterTier::X5, hours_left: left as i64 })
    } else if now < profile.xp_booster_x2_until {
        let left: i128 = (profile.xp_booster_x2_until as i128 - now as i128) / 3600;
        Some(ActiveBooster { tier: BoosterTier::X2, hours_left: left as i64 })
    } else {
        None
    }
}

/// The booster that a name in lower case stands for.
pub fn booster_for(lower: &str) -> (tier: Option<BoosterTier>)
    ensures
        tier == booster_named(lower@),
{
    if lower.eq("x2") {
        Some(BoosterTier::X2)
    } else if lower.eq("x5") {
        Some(BoosterTier::X5)
    } else {
        None
    }
}

/// Reads the name of a booster, in any letter case.
pub fn parse_booster(name: &str) -> (tier: Option<BoosterTier>)
    ensures
        tier == booster_named(lowercase(name@)),
{
    let lower = to_lowercase(name);
    booster_for(lower.as_str())
}

/// What buying the booster whose name, in lower case, is `lower` comes to
/// at `now`: refused with `UnknownBooster` when no booster has that name, and
/// with `InsufficientFunds` when the balance is below the list price; else
/// the tier bought and the balance that remains.
pub open spec fn purchase_outcome(profile: UserProfile, lower: Seq<char>) -> Result<
    (BoosterTier, u64),
    EconomyError,
> {
    match booster_named(lower) {
        None => Err(EconomyError::UnknownBooster),
        Some(tier) => if profile.chips < price_of(tier) {
            Err(EconomyError::InsufficientFunds)
        } else {
            Ok((tier, (profile.chips - price_of(tier)) as u64))
        },
    }
}

/// The profile after the purchase by name: changed only where the purchase
/// went through.
pub open spec fn after_purchase(profile: UserProfile, lower: Seq<char>, now: i64) -> UserProfile {
    match purchase_outcome(profile, lower) {
        Ok((tier, _)) => boosted(profile, tier, price_of(tier), BOOSTER_DURATION, now),
        Err(_) => profile,
    }
}

/// Buys the booster called `name` at `now`, at its list price and for its
/// list duration.
///
/// Refused with `UnknownBooster` when no booster has that name, and with
/// `InsufficientFunds` when the balance is below the price. Returns the tier
/// bought and the balance that remains.
pub fn purchase_booster(profile: &mut UserProfile, name: &str, now: i64) -> (outcome: Result<
    (BoosterTier, u64),
    EconomyError,
>)
    requires
        named_purchase_fits(*old(profile), lowercase(name@), now),
    ensures
        outcome == purchase_outcome(*old(profile), lowercase(name@)),
        *final(profile) == after_purchase(*old(profile), lowercase(name@), now),
{
    match parse_booster(name) {
        None => Err(EconomyError::UnknownBooster),
        Some(tier) => {
            let (price, duration) = booster_offer(tier);
            match buy_booster(profile, tier, price, duration, now) {
                Ok(left) => Ok((tier, left)),
                Err(reason) => Err(reason),
            }
        },
    }
}

/// Buys the booster called `name` at `now` as [`purchase_booster`] does,
/// where the booster's end fits the clock; where it does not, nothing is
/// bought and `None` says so.
pub fn try_purchase_booster(profile: &mut UserProfile, name: &str, now: i64) -> (outcome: Option<
    Result<(BoosterTier, u64), EconomyError>,
>)
    ensures
        named_purchase_fits(*old(profile), lowercase(name@), now) ==> outcome == Some(
            purchase_outcome(*old(profile), lowercase(name@)),
        ) && *final(profile) == after_purchase(*old(profile), lowercase(name@), now),
        !named_purchase_fits(*old(profile), lowercase(name@), now) ==> outcome is None
            && *final(profile) == *old(profile),
{
    let fits = match parse_booster(name) {
        None => true,
        Some(tier) => {
            let (price, duration) = booster_offer(tier);
            can_buy(profile, price, duration, now)
        },
    };
    if fits {
        Some(purchase_booster(profile, name, now))
    } else {
        None
    }
}

/// The whole hours and the whole minutes past them in a wait of `remaining`
/// seconds.
pub fn wait_parts(remaining: i64) -> (parts: (i64, i64))
    requires
        remaining >= 0,
    ensures
        parts.0 == remaining / 3600,
        parts.1 == (remaining % 3600) / 60,
{
    (remaining / 3600, (remaining % 3600) / 60)
}

/// Buying one booster never touches the other: its expiry is neither
/// extended nor reset, and the booster bought runs from the purchase on for
/// its duration, whatever it had left.
pub proof fn lemma_purchase_leaves_other_tier(
    profile: UserProfile,
    price: u64,
    duration: i64,
    now: i64,
)
    requires
        booster_fits(now, duration),
    ensures
        boosted(profile, BoosterTier::X2, price, duration, now).xp_booster_x5_until
            == profile.xp_booster_x5_until,
        boosted(profile, BoosterTier::X2, price, duration, now).xp_booster_x2_until == now
            + duration,
        boosted(profile, BoosterTier::X5, price, duration, now).xp_booster_x2_until
            == profile.xp_booster_x2_until,
        boosted(profile, BoosterTier::X5, price, duration, now).xp_booster_x5_until == now
            + duration,
{
}

/// After a reward at `claimed_at`, a claim succeeds from a full cooldown
/// later on and at no moment before; a claim that comes early is told the
/// seconds by which it does. So the claim exactly a cooldown later succeeds,
/// and the one a second before it is one second short.
pub proof fn lemma_daily_cooldown(profile: UserProfile, claimed_at: i64, bonus: u64, later: i64)
    ensures
        ({
            let after = rewarded(profile, claimed_at, bonus);
            &&& later - claimed_at >= DAILY_COOLDOWN <==> cooldown_left(after.last_daily, later)
                <= 0
            &&& later - claimed_at < DAILY_COOLDOWN ==> cooldown_left(after.last_daily, later)
                == DAILY_COOLDOWN - (later - claimed_at)
            &&& later == claimed_at + DAILY_COOLDOWN ==> cooldown_left(after.last_daily, later)
                <= 0
            &&& later == claimed_at + DAILY_COOLDOWN - 1 ==> cooldown_left(after.last_daily, later)
                == 1
        }),
{
}

} // verus!
