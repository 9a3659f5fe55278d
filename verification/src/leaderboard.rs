//! The leaderboard, and the sweep for members who have gone quiet.

use vstd::prelude::*;
use crate::profile::UserProfile;
use crate::ranking::{is_ordering, sort_order};

verus! {

/// Places on the leaderboard.
pub const LEADERBOARD_SIZE: usize = 10;

/// Seconds in a day.
pub const SECONDS_PER_DAY: i64 = 86400;

/// What marks a place on the leaderboard.
#[derive(Clone, Copy, Debug, PartialEq, Eq, Structural)]
pub enum Medal {
    Gold,
    Silver,
    Bronze,
    /// Every place after the third.
    Ribbon,
}

/// A member's standing: what the leaderboard reads of a profile.
#[derive(Clone, Copy, Debug, PartialEq, Eq, Structural)]
pub struct Standing {
    pub user: u64,
    pub level: u64,
    pub xp: u64,
    pub minutes: u64,
}

/// A line of the leaderboard.
#[derive(Clone, Copy, Debug, PartialEq, Eq, Structural)]
pub struct LeaderLine {
    /// The place, counted from one.
    pub place: usize,
    pub medal: Medal,
    pub user: u64,
    pub level: u64,
    pub xp: u64,
    /// Whole hours spent in voice.
    pub voice_hours: u64,
}

/// The medal of a place counted from zero.
pub open spec fn medal_of(index: int) -> Medal {
    if index == 0 {
        Medal::Gold
    } else if index == 1 {
        Medal::Silver
    } else if index == 2 {
        Medal::Bronze
    } else {
        Medal::Ribbon
    }
}

/// The line for a member who stands at `index`, counted from zero.
pub open spec fn line_of(standing: Standing, index: int) -> LeaderLine {
    LeaderLine {
        place: (index + 1) as usize,
        medal: medal_of(index),
        user: standing.user,
        level: standing.level,
        xp: standing.xp,
        voice_hours: standing.minutes / 60,
    }
}

/// What members are ranked by: level first, then experience.
pub open spec fn rank_keys(standings: Seq<Standing>) -> Seq<(u64, u64)> {
    Seq::new(standings.len(), |i: int| (standings[i].level, standings[i].xp))
}

/// The moment, in epoch milliseconds, before which a last message counts as
/// long ago: `days` days before `now_secs`.
pub open spec fn quiet_before(now_secs: i64, days: u64) -> int {
    (now_secs - days * SECONDS_PER_DAY) * 1000
}

/// The member has written at some time, but not within the last `days` days.
pub open spec fn gone_quiet(profile: UserProfile, now_secs: i64, days: u64) -> bool {
    profile.last_msg_time != 0 && profile.last_msg_time < quiet_before(now_secs, days)
}

/// The members among `members` who have gone quiet, in their order.
pub open spec fn quiet_members(members: Seq<(u64, UserProfile)>, now_secs: i64, days: u64) -> Seq<
    u64,
>
    decreases members.len(),
{
    if members.len() == 0 {
        Seq::empty()
    } else if gone_quiet(members.last().1, now_secs, days) {
        quiet_members(members.drop_last(), now_secs, days).push(members.last().0)
    } else {
        quiet_members(members.drop_last(), now_secs, days)
    }
}

/// What the leaderboard reads of a member's profile.
pub fn standing_of(user: u64, profile: &UserProfile) -> (standing: Standing)
    ensures
        standing == (Standing {
            user,
            level: profile.level,
            xp: profile.xp,
            minutes: profile.minutes,
        }),
{
    Standing { user, level: profile.level, xp: profile.xp, minutes: profile.minutes }
}

/// The medal of a place counted from zero.
pub fn medal_for(index: usize) -> (medal: Medal)
    ensures
        medal == medal_of(index as int),
{
    if index == 0 {
        Medal::Gold
    } else if index == 1 {
        Medal::Silver
    } else if index == 2 {
        Medal::Bronze
    } else {
        Medal::Ribbon
    }
}

/// The leaderboard: the first [`LEADERBOARD_SIZE`] members by level, by
/// experience within a level, and by their order in `standings` where both
/// are equal.
pub fn leaderboard(standings: &Vec<Standing>) -> (lines: Vec<LeaderLine>)
    ensures
        lines@.len() == if standings@.len() < LEADERBOARD_SIZE {
            standings@.len()
        } else {
            LEADERBOARD_SIZE as nat
        },
        exists|order: Seq<usize>|
            is_ordering(rank_keys(standings@), order, standings@.len() as int, true) && forall|
                i: int,
            |
                0 <= i < lines@.len() ==> lines@[i] == line_of(standings@[order[i] as int], i),
{
    let n = standings.len();
    let mut keys: Vec<(u64, u64)> = Vec::new();
    let mut i: usize = 0;
    while i < n
        invariant
            i <= n,
            n == standings@.len(),
            keys@ == rank_keys(standings@).take(i as int),
        decreases n - i,
    {
        keys.push((standings[i].level, standings[i].xp));
        assert(keys@ =~= rank_keys(standings@).take(i + 1));
        i += 1;
    }
    assert(keys@ =~= rank_keys(standings@));
    let order = sort_order(&keys, true);
    let shown = if n < LEADERBOARD_SIZE {
        n
    } else {
        LEADERBOARD_SIZE
    };
    let mut lines: Vec<LeaderLine> = Vec::new();
    let mut k: usize = 0;
    while k < shown
        invariant
            k <= shown <= n,
            n == standings@.len(),
            is_ordering(rank_keys(standings@), order@, n as int, true),
            lines@.len() == k,
            forall|i: int| 0 <= i < k ==> lines@[i] == line_of(standings@[order@[i] as int], i),
        decreases shown - k,
    {
        let standing = standings[order[k]];
        lines.push(
            LeaderLine {
                place: k + 1,
                medal: medal_for(k),
                user: standing.user,
                level: standing.level,
                xp: standing.xp,
                voice_hours: standing.minutes / 60,
            },
        );
        k += 1;
    }
    lines
}

/// Whether a member has gone quiet: they have written at some time, but
/// their last message is more than `days` days before `now_secs`. A member
/// whose last message is not known counts as active.
pub fn is_inactive(profile: &UserProfile, now_secs: i64, days: u64) -> (quiet: bool)
    ensures
        quiet == gone_quiet(*profile, now_secs, days),
{
    let span: i128 = days as i128 * 86400;
    let threshold: i128 = (now_secs as i128 - span) * 1000;
    profile.last_msg_time != 0 && (profile.last_msg_time as i128) < threshold
}

/// The members who have gone quiet, in the order of `members`.
pub fn inactive_members(members: &Vec<(u64, UserProfile)>, now_secs: i64, days: u64) -> (quiet: Vec<
    u64,
>)
    ensures
        quiet@ == quiet_members(members@, now_secs, days),
{
    let mut quiet: Vec<u64> = Vec::new();
    let mut i: usize = 0;
    while i < members.len()
        invariant
            i <= members.len(),
            quiet@ == quiet_members(members@.take(i as int), now_secs, days),
        decreases members.len() - i,
    {
        assert(members@.take(i + 1).drop_last() =~= members@.take(i as int));
        if is_inactive(&members[i].1, now_secs, days) {
            quiet.push(members[i].0);
        }
        i += 1;
    }
    assert(members@.take(i as int) =~= members@);
    quiet
}

} // verus!
