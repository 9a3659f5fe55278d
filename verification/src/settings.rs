//! What administrators configure: the role that newcomers get, per
//! community, and the channels whose messages become suggestions.

use vstd::prelude::*;

verus! {

/// The role that newcomers of a community are given.
#[derive(Clone, Copy, Debug, PartialEq, Eq, Structural)]
pub struct AutoRole {
    pub guild_id: u64,
    pub role_id: u64,
}

/// The role of the first binding for `guild` from position `start` on.
pub open spec fn bound_role_from(bindings: Seq<AutoRole>, guild: u64, start: int) -> Option<u64>
    decreases bindings.len() - start,
{
    if start < 0 || start >= bindings.len() {
        None
    } else if bindings[start].guild_id == guild {
        Some(bindings[start].role_id)
    } else {
        bound_role_from(bindings, guild, start + 1)
    }
}

/// The role that newcomers of `guild` are given, if one is bound.
pub open spec fn bound_role(bindings: Seq<AutoRole>, guild: u64) -> Option<u64> {
    bound_role_from(bindings, guild, 0)
}

/// The bindings without those for `guild`.
pub open spec fn without_guild(bindings: Seq<AutoRole>, guild: u64) -> Seq<AutoRole>
    decreases bindings.len(),
{
    if bindings.len() == 0 {
        Seq::empty()
    } else if bindings.last().guild_id == guild {
        without_guild(bindings.drop_last(), guild)
    } else {
        without_guild(bindings.drop_last(), guild).push(bindings.last())
    }
}

/// The ids without every entry equal to `id`.
pub open spec fn without_id(ids: Seq<u64>, id: u64) -> Seq<u64>
    decreases ids.len(),
{
    if ids.len() == 0 {
        Seq::empty()
    } else if ids.last() == id {
        without_id(ids.drop_last(), id)
    } else {
        without_id(ids.drop_last(), id).push(ids.last())
    }
}

/// The bindings of roles to communities.
#[derive(Clone, Debug)]
pub struct AutoRoles {
    pub bindings: Vec<AutoRole>,
}

/// The channels whose messages become suggestions.
#[derive(Clone, Debug)]
pub struct ChannelSet {
    pub channels: Vec<u64>,
}

/// What a binding at the end adds: it decides for its community only where
/// no earlier binding does.
pub proof fn lemma_bound_role_push(bindings: Seq<AutoRole>, last: AutoRole, guild: u64, start: int)
    requires
        0 <= start <= bindings.len(),
    ensures
        bound_role_from(bindings.push(last), guild, start) == match bound_role_from(
            bindings,
            guild,
            start,
        ) {
            Some(role) => Some(role),
            None => if last.guild_id == guild {
                Some(last.role_id)
            } else {
                None
            },
        },
    decreases bindings.len() - start,
{
    let longer = bindings.push(last);
    if start < bindings.len() {
        assert(longer[start] == bindings[start]);
        if bindings[start].guild_id != guild {
            lemma_bound_role_push(bindings, last, guild, start + 1);
        }
    } else {
        assert(longer[start] == last);
        assert(bound_role_from(longer, guild, start + 1) is None);
    }
}

/// Removing the bindings of a community leaves it unbound and every other
/// community as it was.
pub proof fn lemma_without_guild(bindings: Seq<AutoRole>, guild: u64, other: u64)
    ensures
        bound_role(without_guild(bindings, guild), guild) is None,
        other != guild ==> bound_role(without_guild(bindings, guild), other) == bound_role(
            bindings,
            other,
        ),
    decreases bindings.len(),
{
    if bindings.len() > 0 {
        let rest = bindings.drop_last();
        let last = bindings.last();
        lemma_without_guild(rest, guild, other);
        assert(rest.push(last) =~= bindings);
        lemma_bound_role_push(rest, last, other, 0);
        lemma_bound_role_push(without_guild(rest, guild), last, guild, 0);
        lemma_bound_role_push(without_guild(rest, guild), last, other, 0);
    }
}

/// What is left once the bindings of a community are removed holds no
/// binding for it.
pub proof fn lemma_without_guild_has_none(bindings: Seq<AutoRole>, guild: u64)
    ensures
        forall|i: int|
            0 <= i < without_guild(bindings, guild).len() ==> (#[trigger] without_guild(
                bindings,
                guild,
            )[i]).guild_id != guild,
    decreases bindings.len(),
{
    if bindings.len() > 0 {
        let rest = without_guild(bindings.drop_last(), guild);
        let kept = without_guild(bindings, guild);
        lemma_without_guild_has_none(bindings.drop_last(), guild);
        assert forall|i: int| 0 <= i < kept.len() implies (#[trigger] kept[i]).guild_id
            != guild by {
            if i < rest.len() {
                assert(kept[i] == rest[i]);
            }
        }
    }
}

/// A community has a role bound exactly when one of the bindings is for it.
pub proof fn lemma_bound_means_listed(bindings: Seq<AutoRole>, guild: u64)
    ensures
        bound_role(bindings, guild) is Some <==> exists|j: int|
            0 <= j < bindings.len() && bindings[j].guild_id == guild,
    decreases bindings.len(),
{
    if bindings.len() > 0 {
        let rest = bindings.drop_last();
        let last = bindings.last();
        lemma_bound_means_listed(rest, guild);
        assert(rest.push(last) =~= bindings);
        lemma_bound_role_push(rest, last, guild, 0);
        if exists|j: int| 0 <= j < bindings.len() && bindings[j].guild_id == guild {
            let j = choose|j: int| 0 <= j < bindings.len() && bindings[j].guild_id == guild;
            if j < rest.len() {
                assert(rest[j].guild_id == guild);
            }
        }
        if exists|j: int| 0 <= j < rest.len() && rest[j].guild_id == guild {
            let j = choose|j: int| 0 <= j < rest.len() && rest[j].guild_id == guild;
            assert(bindings[j].guild_id == guild);
        }
        if last.guild_id == guild {
            assert(bindings[bindings.len() - 1].guild_id == guild);
        }
    }
}

impl AutoRoles {
    /// No community has a role bound.
    pub fn new() -> (roles: AutoRoles)
        ensures
            roles.bindings@ == Seq::<AutoRole>::empty(),
    {
        AutoRoles { bindings: Vec::new() }
    }

    /// The role that newcomers of `guild` are given, if one is bound.
    pub fn role_for(&self, guild: u64) -> (role: Option<u64>)
        ensures
            role == bound_role(self.bindings@, guild),
    {
        let mut i: usize = 0;
        while i < self.bindings.len()
            invariant
                i <= self.bindings.len(),
                bound_role_from(self.bindings@, guild, i as int) == bound_role(
                    self.bindings@,
                    guild,
                ),
            decreases self.bindings.len() - i,
        {
            if self.bindings[i].guild_id == guild {
                return Some(self.bindings[i].role_id);
            }
            i += 1;
        }
        None
    }

    /// Takes away every binding for `guild`. Says whether there was one.
    pub fn unbind(&mut self, guild: u64) -> (removed: bool)
        ensures
            final(self).bindings@ == without_guild(old(self).bindings@, guild),
            removed == bound_role(old(self).bindings@, guild) is Some,
            bound_role(final(self).bindings@, guild) is None,
    {
        let mut kept: Vec<AutoRole> = Vec::new();
        let mut removed = false;
        let mut i: usize = 0;
        while i < self.bindings.len()
            invariant
                i <= self.bindings.len(),
                *self == *old(self),
                kept@ == without_guild(self.bindings@.take(i as int), guild),
                removed == exists|j: int| 0 <= j < i && self.bindings@[j].guild_id == guild,
            decreases self.bindings.len() - i,
        {
            assert(self.bindings@.take(i + 1).drop_last() =~= self.bindings@.take(i as int));
            if self.bindings[i].guild_id == guild {
                removed = true;
            } else {
                kept.push(self.bindings[i]);
            }
            i += 1;
        }
        proof {
            assert(self.bindings@.take(i as int) =~= self.bindings@);
            lemma_bound_means_listed(self.bindings@, guild);
            lemma_without_guild(self.bindings@, guild, guild);
        }
        self.bindings = kept;
        removed
    }

    /// Binds `role` to `guild`, in place of whatever was bound to it: the
    /// community then has this binding and no other.
    pub fn bind(&mut self, guild: u64, role: u64)
        ensures
            final(self).bindings@ == without_guild(old(self).bindings@, guild).push(
                AutoRole { guild_id: guild, role_id: role },
            ),
            bound_role(final(self).bindings@, guild) == Some(role),
            forall|i: int|
                0 <= i < final(self).bindings@.len() - 1 ==> (#[trigger] final(self).bindings@[i]).guild_id
                    != guild,
    {
        self.unbind(guild);
        self.bindings.push(AutoRole { guild_id: guild, role_id: role });
        proof {
            let kept = without_guild(old(self).bindings@, guild);
            lemma_bound_role_push(kept, AutoRole { guild_id: guild, role_id: role }, guild, 0);
            lemma_without_guild_has_none(old(self).bindings@, guild);
            assert forall|i: int| 0 <= i < self.bindings@.len() - 1 implies (
            #[trigger] self.bindings@[i]).guild_id != guild by {
                assert(self.bindings@[i] == kept[i]);
            }
        }
    }
}

impl ChannelSet {
    /// No channel takes suggestions.
    pub fn new() -> (set: ChannelSet)
        ensures
            set.channels@ == Seq::<u64>::empty(),
    {
        ChannelSet { channels: Vec::new() }
    }

    /// Whether messages in `channel` become suggestions.
    pub fn is_enabled(&self, channel: u64) -> (enabled: bool)
        ensures
            enabled == self.channels@.contains(channel),
    {
        let mut i: usize = 0;
        while i < self.channels.len()
            invariant
                i <= self.channels.len(),
                forall|j: int| 0 <= j < i ==> self.channels@[j] != channel,
            decreases self.channels.len() - i,
        {
            if self.channels[i] == channel {
                return true;
            }
            i += 1;
        }
        false
    }

    /// Lets messages in `channel` become suggestions. Says whether that is
    /// new.
    pub fn enable(&mut self, channel: u64) -> (added: bool)
        ensures
            added == !old(self).channels@.contains(channel),
            added ==> final(self).channels@ == old(self).channels@.push(channel),
            !added ==> final(self).channels@ == old(self).channels@,
            final(self).channels@.contains(channel),
    {
        if self.is_enabled(channel) {
            false
        } else {
            self.channels.push(channel);
            assert(self.channels@[self.channels@.len() - 1] == channel);
            true
        }
    }

    /// Stops messages in `channel` from becoming suggestions. Says whether
    /// they did before; `false` means the channel was not set up.
    pub fn disable(&mut self, channel: u64) -> (removed: bool)
        ensures
            final(self).channels@ == without_id(old(self).channels@, channel),
            removed == old(self).channels@.contains(channel),
            !final(self).channels@.contains(channel),
    {
        let mut kept: Vec<u64> = Vec::new();
        let mut removed = false;
        let mut i: usize = 0;
        while i < self.channels.len()
            invariant
                i <= self.channels.len(),
                *self == *old(self),
                kept@ == without_id(self.channels@.take(i as int), channel),
                removed == self.channels@.take(i as int).contains(channel),
                !kept@.contains(channel),
            decreases self.channels.len() - i,
        {
            let ghost upto = self.channels@.take(i + 1);
            let ghost before = self.channels@.take(i as int);
            assert(upto.drop_last() =~= before);
            if self.channels[i] == channel {
                removed = true;
                assert(upto[i as int] == channel);
            } else {
                let ghost kept_before = kept@;
                kept.push(self.channels[i]);
                proof {
                    if kept@.contains(channel) {
                        let at = choose|at: int| 0 <= at < kept@.len() && kept@[at] == channel;
                        assert(kept_before[at] == channel);
                    }
                    if upto.contains(channel) {
                        let at = choose|at: int| 0 <= at < upto.len() && upto[at] == channel;
                        assert(before[at] == channel);
                    }
                }
            }
            proof {
                if before.contains(channel) {
                    let at = choose|at: int| 0 <= at < before.len() && before[at] == channel;
                    assert(upto[at] == channel);
                }
            }
            i += 1;
        }
        assert(self.channels@.take(i as int) =~= self.channels@);
        self.channels = kept;
        removed
    }
}

} // verus!
