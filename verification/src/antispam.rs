//! The per-member message throttle.
//!
//! All times here are epoch milliseconds.

use vstd::prelude::*;
use crate::profile::UserProfile;

verus! {

/// Two messages closer together than this count as rapid.
pub const SPAM_WINDOW_MS: i64 = 2000;

/// This many rapid messages in a row are punished.
pub const SPAM_LIMIT: u8 = 5;

/// How long a punished member's messages are ignored.
pub const SPAM_BLOCK_MS: i64 = 30_000;

/// What the throttle makes of one message.
#[derive(Clone, Copy, Debug, PartialEq, Eq, Structural)]
pub enum Screening {
    /// The member is blocked: the message leaves no trace.
    Dropped,
    /// The message completed a rapid run: the member is blocked from now on
    /// and earns nothing for it.
    Punished,
    /// The message counts.
    Passed,
}

/// The member's block is still running at `now_ms`.
pub open spec fn is_blocked(profile: UserProfile, now_ms: i64) -> bool {
    now_ms < profile.spam_block_until
}

/// The message at `now_ms` follows the member's previous one by less than
/// [`SPAM_WINDOW_MS`].
pub open spec fn is_rapid(profile: UserProfile, now_ms: i64) -> bool {
    now_ms - profile.last_msg_time < SPAM_WINDOW_MS
}

/// Length of the rapid run that a message at `now_ms` brings the member to.
pub open spec fn run_length(profile: UserProfile, now_ms: i64) -> int {
    if is_rapid(profile, now_ms) {
        profile.spam_counter + 1
    } else {
        0
    }
}

/// What the throttle makes of a message at `now_ms`.
pub open spec fn screening(profile: UserProfile, now_ms: i64) -> Screening {
    if is_blocked(profile, now_ms) {
        Screening::Dropped
    } else if run_length(profile, now_ms) >= SPAM_LIMIT {
        Screening::Punished
    } else {
        Screening::Passed
    }
}

/// The profile after the throttle has seen a message at `now_ms`.
pub open spec fn screened(profile: UserProfile, now_ms: i64) -> UserProfile {
    match screening(profile, now_ms) {
        Screening::Dropped => profile,
        Screening::Punished => UserProfile {
            last_msg_time: now_ms,
            spam_counter: 0,
            spam_block_until: (now_ms + SPAM_BLOCK_MS) as i64,
            ..profile
        },
        Screening::Passed => UserProfile {
            last_msg_time: now_ms,
            spam_counter: run_length(profile, now_ms) as u8,
            ..profile
        },
    }
}

/// A block that starts at `now_ms`, where the message sets one off, ends
/// within the range of the clock.
pub open spec fn block_fits(profile: UserProfile, now_ms: i64) -> bool {
    screening(profile, now_ms) == Screening::Punished ==> now_ms + SPAM_BLOCK_MS <= i64::MAX
}

/// What the throttle would make of a message at `now_ms`, without letting it
/// see the message.
pub fn screening_at(profile: &UserProfile, now_ms: i64) -> (verdict: Screening)
    ensures
        verdict == screening(*profile, now_ms),
{
    if now_ms < profile.spam_block_until {
        return Screening::Dropped;
    }
    let gap: i128 = now_ms as i128 - profile.last_msg_time as i128;
    if gap < SPAM_WINDOW_MS as i128 && profile.spam_counter >= SPAM_LIMIT - 1 {
        Screening::Punished
    } else {
        Screening::Passed
    }
}

/// Whether [`screen_message`] can take a message at `now_ms`.
pub fn can_screen(profile: &UserProfile, now_ms: i64) -> (fits: bool)
    ensures
        fits == block_fits(*profile, now_ms),
{
    match screening_at(profile, now_ms) {
        Screening::Punished => now_ms <= i64::MAX - SPAM_BLOCK_MS,
        _ => true,
    }
}

/// Runs one message at `now_ms` through the throttle.
///
/// A blocked member's message is dropped and changes nothing. Otherwise the
/// message is timed against the previous one: a gap of [`SPAM_WINDOW_MS`] or
/// more starts a new run at zero, a shorter gap lengthens the run by one, and
/// a run of [`SPAM_LIMIT`] blocks the member for [`SPAM_BLOCK_MS`] and starts
/// over.
pub fn screen_message(profile: &mut UserProfile, now_ms: i64) -> (verdict: Screening)
    requires
        block_fits(*old(profile), now_ms),
    ensures
        verdict == screening(*old(profile), now_ms),
        *final(profile) == screened(*old(profile), now_ms),
{
    if now_ms < profile.spam_block_until {
        return Screening::Dropped;
    }
    let gap: i128 = now_ms as i128 - profile.last_msg_time as i128;
    let rapid = gap < SPAM_WINDOW_MS as i128;
    profile.last_msg_time = now_ms;
    if rapid && profile.spam_counter >= SPAM_LIMIT - 1 {
        profile.spam_block_until = now_ms + SPAM_BLOCK_MS;
        profile.spam_counter = 0;
        Screening::Punished
    } else if rapid {
        profile.spam_counter += 1;
        Screening::Passed
    } else {
        profile.spam_counter = 0;
        Screening::Passed
    }
}

/// A gap of [`SPAM_WINDOW_MS`] or more, for a member who is not blocked,
/// always leaves the run at zero and lets the message pass.
pub proof fn lemma_slow_message_resets_run(profile: UserProfile, now_ms: i64)
    requires
        !is_blocked(profile, now_ms),
        now_ms - profile.last_msg_time >= SPAM_WINDOW_MS,
    ensures
        screening(profile, now_ms) == Screening::Passed,
        screened(profile, now_ms).spam_counter == 0,
        screened(profile, now_ms).spam_block_until == profile.spam_block_until,
{
}

/// Five messages, each less than [`SPAM_WINDOW_MS`] after the one before,
/// from a member with no run and no block: the first four pass, the fifth is
/// punished and blocks the member for [`SPAM_BLOCK_MS`] from its own time.
pub proof fn lemma_fifth_rapid_message_blocks(
    profile: UserProfile,
    t1: i64,
    t2: i64,
    t3: i64,
    t4: i64,
    t5: i64,
)
    requires
        profile.spam_counter == 0,
        profile.spam_block_until <= t1,
        profile.spam_block_until <= t2,
        profile.spam_block_until <= t3,
        profile.spam_block_until <= t4,
        profile.spam_block_until <= t5,
        t1 - profile.last_msg_time < SPAM_WINDOW_MS,
        t2 - t1 < SPAM_WINDOW_MS,
        t3 - t2 < SPAM_WINDOW_MS,
        t4 - t3 < SPAM_WINDOW_MS,
        t5 - t4 < SPAM_WINDOW_MS,
        t5 + SPAM_BLOCK_MS <= i64::MAX,
    ensures
        ({
            let p1 = screened(profile, t1);
            let p2 = screened(p1, t2);
            let p3 = screened(p2, t3);
            let p4 = screened(p3, t4);
            let p5 = screened(p4, t5);
            &&& screening(profile, t1) == Screening::Passed
            &&& screening(p1, t2) == Screening::Passed
            &&& screening(p2, t3) == Screening::Passed
            &&& screening(p3, t4) == Screening::Passed
            &&& screening(p4, t5) == Screening::Punished
            &&& p5.spam_block_until == t5 + SPAM_BLOCK_MS
            &&& p5.spam_counter == 0
            &&& p5.xp == profile.xp
            &&& p5.level == profile.level
            &&& forall|t: i64| t5 <= t < t5 + SPAM_BLOCK_MS ==> screening(p5, t) == Screening::Dropped
        }),
{
}

} // verus!
