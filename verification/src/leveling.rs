//! Experience, boosters and the level curve.
//!
//! A level curve is data: entry `l` is the experience that a member at level
//! `l` must hold to reach level `l + 1`. A curve is accepted only if its
//! thresholds grow strictly; a member at or past the end of the curve does
//! not level further on it. The community's own curve is tabulated in
//! [`crate::standard_curve`]; past the end of a table, a caller who knows the
//! next threshold levels one step at a time with [`levelup_step`].

use vstd::prelude::*;
use crate::profile::UserProfile;

verus! {

/// Experience granted for one message, before boosters.
pub const MSG_XP_AMOUNT: u64 = 2;

/// Experience granted for one minute in a voice channel, before boosters.
pub const VOICE_XP_AMOUNT: u64 = 10;

/// Every threshold is smaller than all that follow it.
pub open spec fn strictly_increasing(thresholds: Seq<u64>) -> bool {
    forall|i: int, j: int| 0 <= i < j < thresholds.len() ==> thresholds[i] < thresholds[j]
}

/// The experience needed to leave `level`, or `None` past the end of the curve.
pub open spec fn needed(thresholds: Seq<u64>, level: int) -> Option<u64> {
    if 0 <= level < thresholds.len() {
        Some(thresholds[level])
    } else {
        None
    }
}

/// Level and remaining experience after every threshold that the experience
/// covers has been crossed, one after the other, starting at `level`.
pub open spec fn leveled(thresholds: Seq<u64>, level: int, xp: int) -> (int, int)
    decreases thresholds.len() - level,
{
    if 0 <= level < thresholds.len() && xp >= thresholds[level] {
        leveled(thresholds, level + 1, xp - thresholds[level])
    } else {
        (level, xp)
    }
}

/// The thresholds of the levels from `from` up to, not including, `to`, added
/// up.
pub open spec fn thresholds_between(thresholds: Seq<u64>, from: int, to: int) -> int
    decreases to - from,
{
    if from >= to {
        0
    } else {
        thresholds_between(thresholds, from, to - 1) + thresholds[to - 1]
    }
}

/// The profile after one step of leveling against `threshold`: where the
/// experience covers the threshold, the threshold is paid and the level is
/// one higher; else nothing changes.
pub open spec fn stepped(profile: UserProfile, threshold: u64) -> UserProfile {
    if profile.xp >= threshold {
        UserProfile {
            xp: (profile.xp - threshold) as u64,
            level: (profile.level + 1) as u64,
            ..profile
        }
    } else {
        profile
    }
}

/// The level counter has room for the step, where the step is taken.
pub open spec fn step_fits(profile: UserProfile, threshold: u64) -> bool {
    profile.xp >= threshold ==> profile.level < u64::MAX
}

/// The profile after [`leveled`] has been applied to its level and experience.
pub open spec fn after_levelup(thresholds: Seq<u64>, profile: UserProfile) -> UserProfile {
    let (level, xp) = leveled(thresholds, profile.level as int, profile.xp as int);
    UserProfile { level: level as u64, xp: xp as u64, ..profile }
}

/// The level that leveling reports: the one reached, if any was gained.
pub open spec fn level_reached(thresholds: Seq<u64>, profile: UserProfile) -> Option<u64> {
    let level = after_levelup(thresholds, profile).level;
    if level > profile.level {
        Some(level)
    } else {
        None
    }
}

/// The profile with `raw_amount` experience added, multiplied by the booster
/// that runs at `now`.
pub open spec fn credited(profile: UserProfile, raw_amount: u64, now: i64) -> UserProfile {
    UserProfile { xp: (profile.xp + raw_amount * multiplier_at(profile, now)) as u64, ..profile }
}

/// The multiplier that boosters give at `now`: the stronger booster wins while
/// it runs, whatever the weaker one's expiry.
pub open spec fn multiplier_at(profile: UserProfile, now: i64) -> u64 {
    if now < profile.xp_booster_x5_until {
        5
    } else if now < profile.xp_booster_x2_until {
        2
    } else {
        1
    }
}

/// The experience that `raw_amount` comes to at `now` can be added to the
/// profile without leaving the range of the counter.
pub open spec fn xp_fits(profile: UserProfile, raw_amount: u64, now: i64) -> bool {
    profile.xp + raw_amount * multiplier_at(profile, now) <= u64::MAX
}

/// A validated table of level thresholds.
#[derive(Debug)]
pub struct LevelCurve {
    thresholds: Vec<u64>,
}

impl View for LevelCurve {
    type V = Seq<u64>;

    closed spec fn view(&self) -> Seq<u64> {
        self.thresholds@
    }
}

impl LevelCurve {
    #[verifier::type_invariant]
    spec fn grows(&self) -> bool {
        strictly_increasing(self.thresholds@)
    }

    /// Accepts `thresholds` as a curve exactly when they grow strictly.
    pub fn new(thresholds: Vec<u64>) -> (curve: Option<LevelCurve>)
        ensures
            curve is Some <==> strictly_increasing(thresholds@),
            curve matches Some(c) ==> c@ == thresholds@,
    {
        let n = thresholds.len();
        let mut i: usize = 1;
        while i < n
            invariant
                n == thresholds.len(),
                1 <= i,
                forall|a: int, b: int| 0 <= a < b < i && b < n ==> thresholds[a] < thresholds[b],
            decreases n - i,
        {
            if thresholds[i - 1] >= thresholds[i] {
                return None;
            }
            assert forall|a: int, b: int| 0 <= a < b < i + 1 && b < n implies thresholds[a]
                < thresholds[b] by {
                if b == i && a < i - 1 {
                    assert(thresholds[a] < thresholds[i - 1]);
                }
            }
            i += 1;
        }
        Some(LevelCurve { thresholds })
    }

    /// Number of levels that the curve describes; also the highest level that
    /// can be reached on it.
    pub fn len(&self) -> (n: usize)
        ensures
            n == self@.len(),
    {
        self.thresholds.len()
    }
}

/// Experience that a member at `level` needs for the next level.
pub fn get_xp_needed(curve: &LevelCurve, level: u64) -> (threshold: Option<u64>)
    ensures
        threshold == needed(curve@, level as int),
        strictly_increasing(curve@),
{
    proof {
        use_type_invariant(curve);
    }
    if level < curve.thresholds.len() as u64 {
        Some(curve.thresholds[level as usize])
    } else {
        None
    }
}

/// Crosses every threshold that the member's experience covers, paying each
/// from the experience held, and reports the level reached if there was one.
///
/// Afterwards the experience left is below the threshold of the level
/// reached, unless the member stands at or past the end of the curve.
pub fn try_levelup(profile: &mut UserProfile, curve: &LevelCurve) -> (reached: Option<u64>)
    ensures
        *final(profile) == after_levelup(curve@, *old(profile)),
        reached == level_reached(curve@, *old(profile)),
        final(profile).level == leveled(curve@, old(profile).level as int, old(profile).xp as int).0,
        final(profile).xp == leveled(curve@, old(profile).level as int, old(profile).xp as int).1,
        needed(curve@, final(profile).level as int) matches Some(t) ==> final(profile).xp < t,
        old(profile).level <= final(profile).level,
        final(profile).xp <= old(profile).xp,
{
    let mut reached: Option<u64> = None;
    let n = curve.thresholds.len();
    while profile.level < n as u64 && profile.xp >= curve.thresholds[profile.level as usize]
        invariant
            n == curve@.len(),
            old(profile).level <= profile.level,
            profile.xp <= old(profile).xp,
            *profile == (UserProfile { level: profile.level, xp: profile.xp, ..*old(profile) }),
            leveled(curve@, profile.level as int, profile.xp as int) == leveled(
                curve@,
                old(profile).level as int,
                old(profile).xp as int,
            ),
            reached == if profile.level > old(profile).level {
                Some(profile.level)
            } else {
                None::<u64>
            },
        decreases n - profile.level,
    {
        profile.xp -= curve.thresholds[profile.level as usize];
        profile.level += 1;
        reached = Some(profile.level);
    }
    reached
}

/// Whether [`levelup_step`] can take the step.
pub fn can_step(profile: &UserProfile, threshold: u64) -> (fits: bool)
    ensures
        fits == step_fits(*profile, threshold),
{
    profile.xp < threshold || profile.level < u64::MAX
}

/// Takes one step of leveling against `threshold`, the experience that the
/// member's level asks for: where the experience held covers it, the
/// threshold is paid and the level reached is reported; else nothing changes.
pub fn levelup_step(profile: &mut UserProfile, threshold: u64) -> (reached: Option<u64>)
    requires
        step_fits(*old(profile), threshold),
    ensures
        *final(profile) == stepped(*old(profile), threshold),
        reached == if old(profile).xp >= threshold {
            Some((old(profile).level + 1) as u64)
        } else {
            None::<u64>
        },
{
    if profile.xp >= threshold {
        profile.xp -= threshold;
        profile.level += 1;
        Some(profile.level)
    } else {
        None
    }
}

/// Leveling on a curve is taking its steps one after the other: a step
/// against the threshold of the member's level, followed by leveling, comes
/// to the same as leveling at once.
pub proof fn lemma_levelup_is_steps(thresholds: Seq<u64>, profile: UserProfile)
    requires
        profile.level < thresholds.len() <= u64::MAX,
    ensures
        after_levelup(thresholds, stepped(profile, thresholds[profile.level as int]))
            == after_levelup(thresholds, profile),
{
    let threshold = thresholds[profile.level as int];
    if profile.xp < threshold {
        lemma_leveled_stops_short(thresholds, profile.level as int, profile.xp as int);
    }
}

/// Leveling never lowers the level, never raises it past the end of the curve
/// and never adds experience.
pub proof fn lemma_leveled_bounds(thresholds: Seq<u64>, level: int, xp: int)
    ensures
        level <= leveled(thresholds, level, xp).0,
        leveled(thresholds, level, xp).0 <= level || leveled(thresholds, level, xp).0
            <= thresholds.len(),
        leveled(thresholds, level, xp).1 <= xp,
        0 <= xp ==> 0 <= leveled(thresholds, level, xp).1,
    decreases thresholds.len() - level,
{
    if 0 <= level < thresholds.len() && xp >= thresholds[level] {
        lemma_leveled_bounds(thresholds, level + 1, xp - thresholds[level]);
    }
}

/// Where leveling stops, the next threshold is out of reach.
pub proof fn lemma_leveled_stops_short(thresholds: Seq<u64>, level: int, xp: int)
    ensures
        ({
            let (reached, left) = leveled(thresholds, level, xp);
            needed(thresholds, reached) matches Some(t) ==> left < t
        }),
    decreases thresholds.len() - level,
{
    if 0 <= level < thresholds.len() && xp >= thresholds[level] {
        lemma_leveled_stops_short(thresholds, level + 1, xp - thresholds[level]);
    }
}

/// Leveling pays for exactly the levels gained: the experience held before is
/// the experience left plus the thresholds of the levels crossed.
pub proof fn lemma_leveling_conserves_experience(thresholds: Seq<u64>, level: int, xp: int)
    requires
        0 <= level,
    ensures
        xp == leveled(thresholds, level, xp).1 + thresholds_between(
            thresholds,
            level,
            leveled(thresholds, level, xp).0,
        ),
    decreases thresholds.len() - level,
{
    if 0 <= level < thresholds.len() && xp >= thresholds[level] {
        let next = xp - thresholds[level];
        lemma_leveling_conserves_experience(thresholds, level + 1, next);
        lemma_leveled_bounds(thresholds, level + 1, next);
        lemma_thresholds_between_front(thresholds, level, leveled(thresholds, level + 1, next).0);
    }
}

/// A run of thresholds is its first threshold plus the rest of the run.
proof fn lemma_thresholds_between_front(thresholds: Seq<u64>, from: int, to: int)
    requires
        from < to,
    ensures
        thresholds_between(thresholds, from, to) == thresholds[from] + thresholds_between(
            thresholds,
            from + 1,
            to,
        ),
    decreases to - from,
{
    reveal_with_fuel(thresholds_between, 2);
    if from + 1 < to {
        lemma_thresholds_between_front(thresholds, from, to - 1);
    }
}

/// Leveling a second time, with no experience earned in between, changes
/// nothing: the first pass stops only where the next threshold is out of reach.
pub proof fn lemma_levelup_idempotent(thresholds: Seq<u64>, profile: UserProfile)
    requires
        thresholds.len() <= u64::MAX,
    ensures
        after_levelup(thresholds, after_levelup(thresholds, profile)) == after_levelup(
            thresholds,
            profile,
        ),
        level_reached(thresholds, after_levelup(thresholds, profile)) == None::<u64>,
{
    lemma_leveled_bounds(thresholds, profile.level as int, profile.xp as int);
    lemma_leveled_stops_short(thresholds, profile.level as int, profile.xp as int);
}

/// On a curve, a higher level always asks for more experience than a lower one.
pub proof fn lemma_needed_strictly_increasing(thresholds: Seq<u64>, lower: int, higher: int)
    requires
        strictly_increasing(thresholds),
        0 <= lower < higher < thresholds.len(),
    ensures
        needed(thresholds, lower) is Some,
        needed(thresholds, higher) is Some,
        needed(thresholds, lower)->0 < needed(thresholds, higher)->0,
{
}

/// The multiplier that the member's boosters give at `now` (epoch seconds).
pub fn get_xp_multiplier(profile: &UserProfile, now: i64) -> (multiplier: u64)
    ensures
        multiplier == multiplier_at(*profile, now),
{
    if now < profile.xp_booster_x5_until {
        5
    } else if now < profile.xp_booster_x2_until {
        2
    } else {
        1
    }
}

/// Whether [`add_xp`] can credit `raw_amount` at `now`: the experience
/// counter has room for it.
pub fn can_add_xp(profile: &UserProfile, raw_amount: u64, now: i64) -> (fits: bool)
    ensures
        fits == xp_fits(*profile, raw_amount, now),
{
    let multiplier = get_xp_multiplier(profile, now);
    assert(raw_amount * multiplier <= 5 * u64::MAX) by (nonlinear_arith)
        requires
            multiplier <= 5,
            raw_amount <= u64::MAX,
    ;
    let total: u128 = profile.xp as u128 + raw_amount as u128 * multiplier as u128;
    total <= u64::MAX as u128
}

/// Grants `raw_amount` experience, multiplied by the booster active at `now`.
pub fn add_xp(profile: &mut UserProfile, raw_amount: u64, now: i64) -> (gained: u64)
    requires
        xp_fits(*old(profile), raw_amount, now),
    ensures
        gained == raw_amount * multiplier_at(*old(profile), now),
        *final(profile) == credited(*old(profile), raw_amount, now),
{
    let multiplier = get_xp_multiplier(profile, now);
    let gained = raw_amount * multiplier;
    profile.xp += gained;
    gained
}

/// Experience is multiplied by five while the fivefold booster runs, whether
/// or not the doubling one runs too; by two while only the doubling one runs;
/// and by one while neither does.
pub proof fn lemma_booster_precedence(profile: UserProfile, raw_amount: u64, now: i64)
    ensures
        now < profile.xp_booster_x5_until ==> multiplier_at(profile, now) == 5,
        now >= profile.xp_booster_x5_until && now < profile.xp_booster_x2_until ==> multiplier_at(
            profile,
            now,
        ) == 2,
        now >= profile.xp_booster_x5_until && now >= profile.xp_booster_x2_until ==> multiplier_at(
            profile,
            now,
        ) == 1,
        profile.xp + raw_amount * multiplier_at(profile, now) <= u64::MAX ==> credited(
            profile,
            raw_amount,
            now,
        ).xp == profile.xp + raw_amount * multiplier_at(profile, now),
{
}

} // verus!
