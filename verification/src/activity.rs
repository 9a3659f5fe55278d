//! What a message and a minute in voice do to a member's profile.

use vstd::prelude::*;
use crate::antispam::{
    block_fits, can_screen, screen_message, screened, screening, screening_at, Screening,
};
use crate::leveling::{
    add_xp, after_levelup, can_add_xp, credited, level_reached, multiplier_at, try_levelup,
    xp_fits, LevelCurve, MSG_XP_AMOUNT, VOICE_XP_AMOUNT,
};
use crate::profile::UserProfile;

verus! {

/// What became of one message.
#[derive(Clone, Copy, Debug, PartialEq, Eq, Structural)]
pub enum MessageOutcome {
    /// The member is blocked; nothing changed.
    Dropped,
    /// The member was blocked for spamming and is to be restricted and warned;
    /// no experience was earned.
    Punished,
    /// The message earned `gained` experience and, where `reached` holds a
    /// level, brought the member up to it.
    Counted { gained: u64, reached: Option<u64> },
}

/// The profile after a message that passed the throttle at `now_ms`: timed by
/// the throttle, credited with the message amount at the multiplier of
/// `now_secs`, then leveled.
pub open spec fn after_counted_message(
    thresholds: Seq<u64>,
    profile: UserProfile,
    now_ms: i64,
    now_secs: i64,
) -> UserProfile {
    after_levelup(thresholds, credited(screened(profile, now_ms), MSG_XP_AMOUNT, now_secs))
}

/// The profile after one more minute in voice at `now_secs`.
pub open spec fn after_voice_minute(thresholds: Seq<u64>, profile: UserProfile, now_secs: i64)
    -> UserProfile {
    after_levelup(
        thresholds,
        UserProfile {
            minutes: (profile.minutes + 1) as u64,
            ..credited(profile, VOICE_XP_AMOUNT, now_secs)
        },
    )
}

/// A message at this time stays within the range of the profile's clock and
/// counters: the block it may set off, and the experience it may earn.
pub open spec fn message_fits(profile: UserProfile, now_ms: i64, now_secs: i64) -> bool {
    &&& block_fits(profile, now_ms)
    &&& screening(profile, now_ms) == Screening::Passed ==> xp_fits(
        profile,
        MSG_XP_AMOUNT,
        now_secs,
    )
}

/// A minute in voice at this time stays within the range of the profile's
/// counters.
pub open spec fn voice_fits(profile: UserProfile, now_secs: i64) -> bool {
    xp_fits(profile, VOICE_XP_AMOUNT, now_secs) && profile.minutes < u64::MAX
}

/// Whether [`handle_message`] can take a message at this time.
pub fn can_handle_message(profile: &UserProfile, now_ms: i64, now_secs: i64) -> (fits: bool)
    ensures
        fits == message_fits(*profile, now_ms, now_secs),
{
    match screening_at(profile, now_ms) {
        Screening::Dropped => true,
        Screening::Punished => can_screen(profile, now_ms),
        Screening::Passed => can_add_xp(profile, MSG_XP_AMOUNT, now_secs),
    }
}

/// Whether [`voice_minute`] can credit a minute at this time.
pub fn can_credit_voice(profile: &UserProfile, now_secs: i64) -> (fits: bool)
    ensures
        fits == voice_fits(*profile, now_secs),
{
    can_add_xp(profile, VOICE_XP_AMOUNT, now_secs) && profile.minutes < u64::MAX
}

/// Handles one message of a member: the throttle first, then experience and
/// leveling for a message that passed. `now_ms` is the time in epoch
/// milliseconds, `now_secs` the same moment in epoch seconds.
pub fn handle_message(
    profile: &mut UserProfile,
    curve: &LevelCurve,
    now_ms: i64,
    now_secs: i64,
) -> (outcome: MessageOutcome)
    requires
        message_fits(*old(profile), now_ms, now_secs),
    ensures
        screening(*old(profile), now_ms) == Screening::Dropped ==> outcome
            == MessageOutcome::Dropped && *final(profile) == *old(profile),
        screening(*old(profile), now_ms) == Screening::Punished ==> outcome
            == MessageOutcome::Punished && *final(profile) == screened(*old(profile), now_ms),
        screening(*old(profile), now_ms) == Screening::Passed ==> outcome == (
        MessageOutcome::Counted {
            gained: (MSG_XP_AMOUNT * multiplier_at(*old(profile), now_secs)) as u64,
            reached: level_reached(
                curve@,
                credited(screened(*old(profile), now_ms), MSG_XP_AMOUNT, now_secs),
            ),
        }) && *final(profile) == after_counted_message(curve@, *old(profile), now_ms, now_secs),
{
    match screen_message(profile, now_ms) {
        Screening::Dropped => MessageOutcome::Dropped,
        Screening::Punished => MessageOutcome::Punished,
        Screening::Passed => {
            let gained = add_xp(profile, MSG_XP_AMOUNT, now_secs);
            let reached = try_levelup(profile, curve);
            MessageOutcome::Counted { gained, reached }
        },
    }
}

/// Whether a member in a voice channel earns for the minute: not a bot, and
/// neither deafened nor muted.
pub fn earns_voice_xp(deafened: bool, muted: bool, is_bot: bool) -> (earns: bool)
    ensures
        earns == (!deafened && !muted && !is_bot),
{
    !deafened && !muted && !is_bot
}

/// Credits one minute in voice at `now_secs`: the voice amount at the running
/// multiplier, one minute on the clock, then leveling. Returns the level
/// reached, if any, for the caller to announce.
pub fn voice_minute(profile: &mut UserProfile, curve: &LevelCurve, now_secs: i64) -> (reached:
    Option<u64>)
    requires
        voice_fits(*old(profile), now_secs),
    ensures
        *final(profile) == after_voice_minute(curve@, *old(profile), now_secs),
        reached == level_reached(
            curve@,
            UserProfile {
                minutes: (old(profile).minutes + 1) as u64,
                ..credited(*old(profile), VOICE_XP_AMOUNT, now_secs)
            },
        ),
{
    add_xp(profile, VOICE_XP_AMOUNT, now_secs);
    profile.minutes += 1;
    try_levelup(profile, curve)
}

} // verus!
