//! The profiles of all members, by member id. A member's profile comes into
//! being, with the defaults, at their first interaction.

use std::collections::HashMap;
use vstd::prelude::*;
use vstd::std_specs::iter::IteratorSpec;
use crate::profile::{create_default_profile, default_profile, UserProfile};

verus! {

/// The profile that is shown for a member: their own, or the defaults for a
/// member without one.
pub open spec fn shown_profile(members: Map<u64, UserProfile>, user: u64) -> UserProfile {
    if members.contains_key(user) {
        members[user]
    } else {
        default_profile()
    }
}

/// The profiles with one for `user`: the member's own where there is one,
/// else the defaults.
pub open spec fn enrolled(members: Map<u64, UserProfile>, user: u64) -> Map<u64, UserProfile> {
    members.insert(user, shown_profile(members, user))
}

/// The profiles of all members.
pub struct Members {
    profiles: HashMap<u64, UserProfile>,
}

impl View for Members {
    type V = Map<u64, UserProfile>;

    closed spec fn view(&self) -> Map<u64, UserProfile> {
        self.profiles@
    }
}

impl Members {
    /// No members yet.
    pub fn new() -> (members: Members)
        ensures
            members@ == Map::<u64, UserProfile>::empty(),
    {
        Members { profiles: HashMap::new() }
    }

    /// The number of members with a profile.
    pub fn len(&self) -> (n: usize)
        ensures
            n == self@.len(),
    {
        self.profiles.len()
    }

    /// The profile of a member, if they have one.
    pub fn get(&self, user: u64) -> (found: Option<UserProfile>)
        ensures
            found == if self@.contains_key(user) {
                Some(self@[user])
            } else {
                None
            },
    {
        match self.profiles.get(&user) {
            Some(profile) => Some(*profile),
            None => None,
        }
    }

    /// The profile to show for a member: their own, or the defaults. Shows
    /// only; a member without a profile still has none afterwards.
    pub fn shown(&self, user: u64) -> (profile: UserProfile)
        ensures
            profile == shown_profile(self@, user),
    {
        match self.profiles.get(&user) {
            Some(profile) => *profile,
            None => create_default_profile(),
        }
    }

    /// The profile of a member for an interaction: their own, or a new one
    /// with the defaults, which is theirs from now on.
    pub fn enroll(&mut self, user: u64) -> (profile: UserProfile)
        ensures
            profile == shown_profile(old(self)@, user),
            final(self)@ == enrolled(old(self)@, user),
    {
        let profile = self.shown(user);
        self.profiles.insert(user, profile);
        profile
    }

    /// Every member with their profile, each once, in no particular order.
    pub fn entries(&self) -> (all: Vec<(u64, UserProfile)>)
        ensures
            all@.len() == self@.len(),
            forall|i: int|
                0 <= i < all@.len() ==> self@.contains_key(all@[i].0) && self@[all@[i].0]
                    == all@[i].1,
            forall|user: u64| self@.contains_key(user) ==> all@.contains((user, self@[user])),
    {
        broadcast use vstd::std_specs::hash::group_hash_axioms;

        let mut all: Vec<(u64, UserProfile)> = Vec::new();
        for pair in it: self.profiles.iter()
            invariant
                all@.len() == it.index(),
                forall|i: int|
                    0 <= i < all@.len() ==> all@[i] == (*it.seq()[i].0, *it.seq()[i].1),
        {
            all.push((*pair.0, *pair.1));
        }
        proof {
            let walked = vstd::std_specs::hash::spec_hash_map_iter(&self.profiles).remaining();
            assert forall|user: u64| self@.contains_key(user) implies all@.contains(
                (user, self@[user]),
            ) by {
                assert(walked.contains((&user, &self@[user])));
                let i = choose|i: int|
                    0 <= i < walked.len() && walked[i] == (&user, &self@[user]);
                assert(all@[i] == (user, self@[user]));
            }
        }
        all
    }

    /// Puts `profile` on record for `user`, in place of what was there.
    pub fn store(&mut self, user: u64, profile: UserProfile)
        ensures
            final(self)@ == old(self)@.insert(user, profile),
    {
        self.profiles.insert(user, profile);
    }
}

} // verus!
