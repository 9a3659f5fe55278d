//! The three periodic tasks and what each tick sets off.

use vstd::prelude::*;
use crate::birthdays::ANNOUNCEMENT_HOUR;

verus! {

/// Seconds between two rounds of voice rewards.
pub const VOICE_PERIOD_SECS: u64 = 60;

/// Seconds between two looks at the birthdays.
pub const BIRTHDAY_PERIOD_SECS: u64 = 3600;

/// Seconds between two backups.
pub const BACKUP_PERIOD_SECS: u64 = 86400;

/// Which of the three clocks ticked.
#[derive(Clone, Copy, Debug, PartialEq, Eq, Structural)]
pub enum Tick {
    Minute,
    Hour,
    Day,
}

/// What a tick sets off.
#[derive(Clone, Copy, Debug, PartialEq, Eq, Structural)]
pub enum Task {
    /// Reward everybody who is in voice.
    VoiceRound,
    /// Announce today's birthdays.
    BirthdayAnnouncement,
    /// Send the stored records to the owner.
    Backup,
    /// Nothing this time.
    Idle,
}

/// What `tick` sets off when the local time is in hour `local_hour` of the
/// day: birthdays are announced by the hourly tick that falls into the
/// announcement hour, and by no other.
pub open spec fn task_for(tick: Tick, local_hour: u32) -> Task {
    match tick {
        Tick::Minute => Task::VoiceRound,
        Tick::Hour => if local_hour == ANNOUNCEMENT_HOUR {
            Task::BirthdayAnnouncement
        } else {
            Task::Idle
        },
        Tick::Day => Task::Backup,
    }
}

/// The period of a clock, in seconds.
pub fn period_of(tick: Tick) -> (seconds: u64)
    ensures
        seconds == match tick {
            Tick::Minute => VOICE_PERIOD_SECS,
            Tick::Hour => BIRTHDAY_PERIOD_SECS,
            Tick::Day => BACKUP_PERIOD_SECS,
        },
{
    match tick {
        Tick::Minute => VOICE_PERIOD_SECS,
        Tick::Hour => BIRTHDAY_PERIOD_SECS,
        Tick::Day => BACKUP_PERIOD_SECS,
    }
}

/// Says what a tick sets off; see [`task_for`].
pub fn on_tick(tick: Tick, local_hour: u32) -> (task: Task)
    ensures
        task == task_for(tick, local_hour),
{
    match tick {
        Tick::Minute => Task::VoiceRound,
        Tick::Hour => if local_hour == ANNOUNCEMENT_HOUR {
            Task::BirthdayAnnouncement
        } else {
            Task::Idle
        },
        Tick::Day => Task::Backup,
    }
}

} // verus!
