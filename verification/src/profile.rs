//! The per-member record that every engine of the library reads and updates.

use vstd::prelude::*;

verus! {

/// Chips granted to a member on first contact.
pub const STARTING_CHIPS: u64 = 100;

/// Progress, balance and throttling state of one member.
///
/// `last_daily` and the two booster expiries are epoch seconds. The three
/// throttling fields are epoch milliseconds and are transient: they start at
/// zero whenever a record is loaded.
#[derive(Clone, Copy, Debug, PartialEq, Eq, Structural)]
pub struct UserProfile {
    pub xp: u64,
    pub level: u64,
    pub minutes: u64,
    pub last_daily: i64,
    pub chips: u64,
    pub xp_booster_x2_until: i64,
    pub xp_booster_x5_until: i64,
    pub last_msg_time: i64,
    pub spam_counter: u8,
    pub spam_block_until: i64,
}

/// The record of a member nobody has seen yet.
pub open spec fn default_profile() -> UserProfile {
    UserProfile {
        xp: 0,
        level: 0,
        minutes: 0,
        last_daily: 0,
        chips: STARTING_CHIPS,
        xp_booster_x2_until: 0,
        xp_booster_x5_until: 0,
        last_msg_time: 0,
        spam_counter: 0,
        spam_block_until: 0,
    }
}

/// The balance a record has when the stored form carries none.
pub fn default_chips() -> (chips: u64)
    ensures
        chips == STARTING_CHIPS,
{
    STARTING_CHIPS
}

/// Creates the record of a first-time member: no progress, no boosters, the
/// starting balance.
pub fn create_default_profile() -> (profile: UserProfile)
    ensures
        profile == default_profile(),
{
    UserProfile {
        xp: 0,
        level: 0,
        minutes: 0,
        last_daily: 0,
        chips: default_chips(),
        xp_booster_x2_until: 0,
        xp_booster_x5_until: 0,
        last_msg_time: 0,
        spam_counter: 0,
        spam_block_until: 0,
    }
}

impl UserProfile {
    /// Puts the member at `level`, by an administrator's word; experience
    /// and everything else stay.
    pub fn set_level(&mut self, level: u64)
        ensures
            *final(self) == (UserProfile { level, ..*old(self) }),
    {
        self.level = level;
    }

    /// Sets the member's experience, by an administrator's word.
    pub fn set_xp(&mut self, xp: u64)
        ensures
            *final(self) == (UserProfile { xp, ..*old(self) }),
    {
        self.xp = xp;
    }

    /// Sets the member's balance, by an administrator's word.
    pub fn set_chips(&mut self, chips: u64)
        ensures
            *final(self) == (UserProfile { chips, ..*old(self) }),
    {
        self.chips = chips;
    }
}

} // verus!
