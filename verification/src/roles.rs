//! Tier roles: the table of ranks, the rank that a level earns, and the
//! changes that bring a member's roles in line with it.

use vstd::prelude::*;

verus! {

/// The tier table as contracts see it: for each tier, from the lowest, the
/// level it starts at, the name of its role and the role's colour.
pub open spec fn tier_table() -> Seq<(u64, Seq<char>, u32)> {
    seq![
        (0u64, "草 Дачник 草"@, 0x78B159u32),
        (5u64, "目 Сусід через паркан 目"@, 0x4E7F38u32),
        (10u64, "力 Тракторист 力"@, 0x3498DBu32),
        (15u64, "土 Агроном 土"@, 0x1ABC9Cu32),
        (20u64, "牛 Зоотехнік 牛"@, 0xE67E22u32),
        (25u64, "蜂 Бджоляр 蜂"@, 0xF1C40Fu32),
        (30u64, "長 Голова колгоспу 長"@, 0x9B59B6u32),
        (35u64, "金 Олігарх місцевий 金"@, 0xE91E63u32),
        (40u64, "城 Депутат райради 城"@, 0x2C3E50u32),
        (45u64, "仙 Мольфар 仙"@, 0x11806Au32),
        (50u64, "神 Дід Панас 神"@, 0xFFD700u32),
    ]
}

/// A table of tiers as contracts see it.
pub open spec fn table_view(config: Seq<(u64, &'static str, u32)>) -> Seq<(u64, Seq<char>, u32)> {
    Seq::new(config.len(), |i: int| (config[i].0, config[i].1@, config[i].2))
}

/// The starting levels never go down along the table.
pub open spec fn ascending(table: Seq<(u64, Seq<char>, u32)>) -> bool {
    forall|i: int, j: int| 0 <= i <= j < table.len() ==> table[i].0 <= table[j].0
}

/// The position of the last tier in `table` that starts at or below `level`.
pub open spec fn tier_at(table: Seq<(u64, Seq<char>, u32)>, level: u64) -> Option<int>
    decreases table.len(),
{
    if table.len() == 0 {
        None
    } else if table.last().0 <= level {
        Some(table.len() - 1)
    } else {
        tier_at(table.drop_last(), level)
    }
}

/// The tier roles, from the lowest: starting level, role name, colour.
pub fn get_roles_config() -> (config: Vec<(u64, &'static str, u32)>)
    ensures
        table_view(config@) == tier_table(),
{
    let config = vec![
        (0, "草 Дачник 草", 0x78B159),
        (5, "目 Сусід через паркан 目", 0x4E7F38),
        (10, "力 Тракторист 力", 0x3498DB),
        (15, "土 Агроном 土", 0x1ABC9C),
        (20, "牛 Зоотехнік 牛", 0xE67E22),
        (25, "蜂 Бджоляр 蜂", 0xF1C40F),
        (30, "長 Голова колгоспу 長", 0x9B59B6),
        (35, "金 Олігарх місцевий 金", 0xE91E63),
        (40, "城 Депутат райради 城", 0x2C3E50),
        (45, "仙 Мольфар 仙", 0x11806A),
        (50, "神 Дід Панас 神", 0xFFD700),
    ];
    assert(table_view(config@) =~= tier_table());
    config
}

/// The position of the last tier of `config` that starts at or below `level`.
pub fn tier_index(config: &Vec<(u64, &'static str, u32)>, level: u64) -> (found: Option<usize>)
    ensures
        found is Some <==> tier_at(table_view(config@), level) is Some,
        found matches Some(i) ==> i < config@.len() && tier_at(table_view(config@), level)
            == Some(i as int),
{
    let ghost table = table_view(config@);
    let mut best: Option<usize> = None;
    let mut i: usize = 0;
    while i < config.len()
        invariant
            i <= config.len(),
            table == table_view(config@),
            best is Some <==> tier_at(table.take(i as int), level) is Some,
            best matches Some(b) ==> b < i && tier_at(table.take(i as int), level) == Some(
                b as int,
            ),
        decreases config.len() - i,
    {
        assert(table.take(i + 1).drop_last() =~= table.take(i as int));
        if level >= config[i].0 {
            best = Some(i);
        }
        i += 1;
    }
    assert(table.take(i as int) =~= table);
    best
}

/// The name of the role that `level` earns: that of the highest tier that
/// starts at or below the level.
pub fn get_role_for_level(level: u64) -> (role: Option<&'static str>)
    ensures
        role matches Some(name) && tier_at(tier_table(), level) matches Some(i) && name@
            == tier_table()[i].1,
        tier_at(tier_table(), level) == Some(
            if level >= 50 {
                10int
            } else {
                level as int / 5
            },
        ),
{
    let config = get_roles_config();
    proof {
        lemma_tier_at_is_highest(tier_table(), level);
        lemma_standard_tier(level);
    }
    match tier_index(&config, level) {
        Some(i) => Some(config[i].1),
        None => None,
    }
}

/// In a table whose tiers start at ever higher levels, the tier found for a
/// level is the highest that the level has reached: it starts at or below the
/// level, every later tier starts above it, and no tier at or below the level
/// starts higher. No tier is found exactly when all start above the level.
pub proof fn lemma_tier_at_is_highest(table: Seq<(u64, Seq<char>, u32)>, level: u64)
    ensures
        match tier_at(table, level) {
            Some(i) => {
                &&& 0 <= i < table.len()
                &&& table[i].0 <= level
                &&& forall|j: int| i < j < table.len() ==> table[j].0 > level
                &&& ascending(table) ==> forall|j: int|
                    0 <= j < table.len() && table[j].0 <= level ==> table[j].0 <= table[i].0
            },
            None => forall|j: int| 0 <= j < table.len() ==> table[j].0 > level,
        },
    decreases table.len(),
{
    if table.len() > 0 && table.last().0 > level {
        let rest = table.drop_last();
        lemma_tier_at_is_highest(rest, level);
        if ascending(table) {
            assert forall|i: int, j: int| 0 <= i <= j < rest.len() implies rest[i].0
                <= rest[j].0 by {
                assert(table[i].0 <= table[j].0);
            }
        }
        match tier_at(rest, level) {
            Some(i) => {
                assert(table[i] == rest[i]);
                assert forall|j: int| i < j < table.len() implies table[j].0 > level by {
                    if j < rest.len() {
                        assert(rest[j].0 > level);
                    }
                }
                if ascending(table) {
                    assert forall|j: int|
                        0 <= j < table.len() && table[j].0 <= level implies table[j].0
                        <= table[i].0 by {
                        assert(rest[j] == table[j]);
                    }
                }
            },
            None => {
                assert forall|j: int| 0 <= j < table.len() implies table[j].0 > level by {
                    if j < rest.len() {
                        assert(rest[j].0 > level);
                    }
                }
            },
        }
    } else if table.len() > 0 {
        if ascending(table) {
            assert forall|j: int|
                0 <= j < table.len() && table[j].0 <= level implies table[j].0
                <= table.last().0 by {
                assert(table[j].0 <= table[table.len() - 1].0);
            }
        }
    }
}

/// On the standard table every level has a tier: a new one every five
/// levels, up to the last.
pub proof fn lemma_standard_tier(level: u64)
    ensures
        ascending(tier_table()),
        tier_at(tier_table(), level) == Some(
            if level >= 50 {
                10int
            } else {
                level as int / 5
            },
        ),
{
    let table = tier_table();
    lemma_tier_at_is_highest(table, level);
    let i = if level >= 50 {
        10int
    } else {
        level as int / 5
    };
    assert(table[i].0 <= level);
    assert(table[0].0 <= level);
}

/// A role of the community, as the platform lists it.
#[derive(Clone, Debug)]
pub struct GuildRole {
    pub id: u64,
    pub name: String,
}

impl View for GuildRole {
    type V = (u64, Seq<char>);

    open spec fn view(&self) -> (u64, Seq<char>) {
        (self.id, self.name@)
    }
}

/// The roles to give to and take from a member.
#[derive(Clone, Debug)]
pub struct RolePlan {
    pub add: Option<u64>,
    pub remove: Vec<u64>,
}

/// What a tier's role lets its holders do.
#[derive(Clone, Copy, Debug, PartialEq, Eq, Structural)]
pub enum PermissionTier {
    /// Reading, writing and speaking.
    Basic,
    /// Also nicknames, attachments, outside emoji and reactions.
    Trusted,
    /// Also the soundboard, priority speech and threads.
    Elite,
}

/// What setting up a tier's role takes.
#[derive(Clone, Copy, Debug, PartialEq, Eq, Structural)]
pub enum RoleSetup {
    /// The community has no role of that name: create one.
    Create,
    /// Bring the role with this id up to date.
    Update { id: u64 },
}

/// Tiers below this level are basic.
pub const TRUSTED_FROM: u64 = 10;

/// Tiers from this level on are elite.
pub const ELITE_FROM: u64 = 30;

/// The roles of a community as contracts see them.
pub open spec fn role_views(roles: Seq<GuildRole>) -> Seq<(u64, Seq<char>)> {
    Seq::new(roles.len(), |i: int| roles[i]@)
}

/// The names of the tiers of a table, in its order.
pub open spec fn tier_names(table: Seq<(u64, Seq<char>, u32)>) -> Seq<Seq<char>> {
    Seq::new(table.len(), |i: int| table[i].1)
}

/// The id of the first role, from position `start` on, that is called `name`.
pub open spec fn find_role_from(roles: Seq<(u64, Seq<char>)>, name: Seq<char>, start: int)
    -> Option<u64>
    decreases roles.len() - start,
{
    if start < 0 || start >= roles.len() {
        None
    } else if roles[start].1 == name {
        Some(roles[start].0)
    } else {
        find_role_from(roles, name, start + 1)
    }
}

/// The id of the first role called `name`.
pub open spec fn find_role(roles: Seq<(u64, Seq<char>)>, name: Seq<char>) -> Option<u64> {
    find_role_from(roles, name, 0)
}

/// The tier roles that a member holds, in the order of `names`: for each
/// name but `skip`, the first role of the community so called, where there is
/// one and the member has it.
pub open spec fn held_tier_roles(
    names: Seq<Seq<char>>,
    skip: Option<Seq<char>>,
    roles: Seq<(u64, Seq<char>)>,
    member: Seq<u64>,
) -> Seq<u64>
    decreases names.len(),
{
    if names.len() == 0 {
        Seq::empty()
    } else {
        let before = held_tier_roles(names.drop_last(), skip, roles, member);
        if skip == Some(names.last()) {
            before
        } else {
            match find_role(roles, names.last()) {
                Some(id) => if member.contains(id) {
                    before.push(id)
                } else {
                    before
                },
                None => before,
            }
        }
    }
}

/// The changes that bring a member at `level` in line with the tier table:
/// the role to add and the roles to remove.
///
/// Where the level has no tier, or the community has no role of the tier's
/// name, nothing is changed. Otherwise the tier's role is added unless the
/// member has it, and every other tier role that the member holds is removed;
/// a tier whose role the community lacks is passed over.
pub open spec fn planned(
    table: Seq<(u64, Seq<char>, u32)>,
    level: u64,
    roles: Seq<(u64, Seq<char>)>,
    member: Seq<u64>,
) -> (Option<u64>, Seq<u64>) {
    match tier_at(table, level) {
        None => (None, Seq::empty()),
        Some(i) => match find_role(roles, table[i].1) {
            None => (None, Seq::empty()),
            Some(target) => (
                if member.contains(target) {
                    None
                } else {
                    Some(target)
                },
                held_tier_roles(tier_names(table), Some(table[i].1), roles, member),
            ),
        },
    }
}

/// No two roles of the community share an id.
pub open spec fn distinct_ids(roles: Seq<(u64, Seq<char>)>) -> bool {
    forall|i: int, j: int| 0 <= i < j < roles.len() ==> roles[i].0 != roles[j].0
}

/// The permissions that go with a tier starting at `level`.
pub fn permission_tier(level: u64) -> (tier: PermissionTier)
    ensures
        tier == if level < TRUSTED_FROM {
            PermissionTier::Basic
        } else if level < ELITE_FROM {
            PermissionTier::Trusted
        } else {
            PermissionTier::Elite
        },
{
    if level < TRUSTED_FROM {
        PermissionTier::Basic
    } else if level < ELITE_FROM {
        PermissionTier::Trusted
    } else {
        PermissionTier::Elite
    }
}

/// The id of the first role of the community that is called `name`.
pub fn find_role_id(roles: &Vec<GuildRole>, name: &str) -> (found: Option<u64>)
    ensures
        found == find_role(role_views(roles@), name@),
{
    let ghost views = role_views(roles@);
    let mut i: usize = 0;
    while i < roles.len()
        invariant
            i <= roles.len(),
            views == role_views(roles@),
            find_role_from(views, name@, i as int) == find_role(views, name@),
        decreases roles.len() - i,
    {
        if roles[i].name.as_str().eq(name) {
            return Some(roles[i].id);
        }
        i += 1;
    }
    None
}

/// What setting up the role called `name` takes: an update where the
/// community has such a role, its creation where it has none.
pub fn role_setup(roles: &Vec<GuildRole>, name: &str) -> (setup: RoleSetup)
    ensures
        setup == match find_role(role_views(roles@), name@) {
            Some(id) => RoleSetup::Update { id },
            None => RoleSetup::Create,
        },
{
    match find_role_id(roles, name) {
        Some(id) => RoleSetup::Update { id },
        None => RoleSetup::Create,
    }
}

/// Whether `id` is among `ids`.
pub fn holds_role(ids: &Vec<u64>, id: u64) -> (found: bool)
    ensures
        found == ids@.contains(id),
{
    let mut i: usize = 0;
    while i < ids.len()
        invariant
            i <= ids.len(),
            forall|j: int| 0 <= j < i ==> ids@[j] != id,
        decreases ids.len() - i,
    {
        if ids[i] == id {
            return true;
        }
        i += 1;
    }
    false
}

/// The tier roles that a member holds, in the order of the tier table,
/// leaving out the tier called `skip` if one is given.
pub fn tier_roles_held(
    config: &Vec<(u64, &'static str, u32)>,
    skip: Option<&str>,
    roles: &Vec<GuildRole>,
    member: &Vec<u64>,
) -> (held: Vec<u64>)
    ensures
        held@ == held_tier_roles(
            tier_names(table_view(config@)),
            match skip {
                Some(name) => Some(name@),
                None => None,
            },
            role_views(roles@),
            member@,
        ),
{
    let ghost names = tier_names(table_view(config@));
    let ghost skipped: Option<Seq<char>> = match skip {
        Some(name) => Some(name@),
        None => None,
    };
    let mut held: Vec<u64> = Vec::new();
    let mut i: usize = 0;
    while i < config.len()
        invariant
            i <= config.len(),
            names == tier_names(table_view(config@)),
            skipped == match skip {
                Some(name) => Some(name@),
                None => None::<Seq<char>>,
            },
            held@ == held_tier_roles(names.take(i as int), skipped, role_views(roles@), member@),
        decreases config.len() - i,
    {
        assert(names.take(i + 1).drop_last() =~= names.take(i as int));
        assert(names.take(i + 1).last() == config@[i as int].1@);
        let name = config[i].1;
        let skip_this = match skip {
            Some(other) => other.eq(name),
            None => false,
        };
        if !skip_this {
            if let Some(id) = find_role_id(roles, name) {
                if holds_role(member, id) {
                    held.push(id);
                }
            }
        }
        i += 1;
    }
    assert(names.take(i as int) =~= names);
    held
}

/// Works out the changes that bring the roles of a member at `level` in line
/// with the tier table, from the roles of the community and those that the
/// member has.
pub fn plan_roles(level: u64, roles: &Vec<GuildRole>, member: &Vec<u64>) -> (plan: RolePlan)
    ensures
        (plan.add, plan.remove@) == planned(tier_table(), level, role_views(roles@), member@),
{
    let config = get_roles_config();
    let target_name = match tier_index(&config, level) {
        Some(i) => {
            assert(table_view(config@)[i as int].1 == config@[i as int].1@);
            config[i].1
        },
        None => {
            return RolePlan { add: None, remove: Vec::new() };
        },
    };
    match find_role_id(roles, target_name) {
        None => RolePlan { add: None, remove: Vec::new() },
        Some(target) => {
            let add = if holds_role(member, target) {
                None
            } else {
                Some(target)
            };
            let remove = tier_roles_held(&config, Some(target_name), roles, member);
            RolePlan { add, remove }
        },
    }
}

/// The member's roles `after` are those `before` with the plan carried out:
/// the role to add is there, the roles to remove are gone, the rest is as it
/// was.
pub open spec fn carried_out(before: Seq<u64>, plan: (Option<u64>, Seq<u64>), after: Seq<u64>)
    -> bool {
    forall|id: u64|
        after.contains(id) <==> (before.contains(id) || plan.0 == Some(id)) && !plan.1.contains(
            id,
        )
}

/// A role found by name is a role of the community with that name.
pub proof fn lemma_found_role_is_listed(
    roles: Seq<(u64, Seq<char>)>,
    name: Seq<char>,
    start: int,
)
    requires
        0 <= start,
        find_role_from(roles, name, start) is Some,
    ensures
        exists|k: int|
            start <= k < roles.len() && roles[k] == (find_role_from(roles, name, start)->0, name),
    decreases roles.len() - start,
{
    if start < roles.len() && roles[start].1 != name {
        lemma_found_role_is_listed(roles, name, start + 1);
    } else {
        assert(roles[start] == (find_role_from(roles, name, start)->0, name));
    }
}

/// Where no two roles share an id, roles found under different names differ.
pub proof fn lemma_names_tell_roles_apart(
    roles: Seq<(u64, Seq<char>)>,
    first: Seq<char>,
    second: Seq<char>,
)
    requires
        distinct_ids(roles),
        first != second,
        find_role(roles, first) is Some,
        find_role(roles, second) is Some,
    ensures
        find_role(roles, first) != find_role(roles, second),
{
    lemma_found_role_is_listed(roles, first, 0);
    lemma_found_role_is_listed(roles, second, 0);
    let a = choose|k: int| 0 <= k < roles.len() && roles[k] == (find_role(roles, first)->0, first);
    let b = choose|k: int|
        0 <= k < roles.len() && roles[k] == (find_role(roles, second)->0, second);
    if a < b {
        assert(roles[a].0 != roles[b].0);
    } else if b < a {
        assert(roles[b].0 != roles[a].0);
    }
}

/// A role is among the tier roles held exactly when the member has it and it
/// is the role found for one of the names that are not skipped.
pub proof fn lemma_held_tier_roles(
    names: Seq<Seq<char>>,
    skip: Option<Seq<char>>,
    roles: Seq<(u64, Seq<char>)>,
    member: Seq<u64>,
    id: u64,
)
    ensures
        held_tier_roles(names, skip, roles, member).contains(id) <==> member.contains(id) && exists|
            k: int,
        |
            0 <= k < names.len() && skip != Some(names[k]) && #[trigger] find_role(roles, names[k])
                == Some(id),
    decreases names.len(),
{
    if names.len() > 0 {
        let rest = names.drop_last();
        let before = held_tier_roles(rest, skip, roles, member);
        let all = held_tier_roles(names, skip, roles, member);
        lemma_held_tier_roles(rest, skip, roles, member, id);
        let last = names.len() - 1;
        let takes_last = skip != Some(names[last]) && find_role(roles, names[last]) == Some(id)
            && member.contains(id);
        if all.contains(id) {
            let at = choose|i: int| 0 <= i < all.len() && all[i] == id;
            if at < before.len() {
                assert(before[at] == id);
                let k = choose|k: int|
                    0 <= k < rest.len() && skip != Some(rest[k]) && #[trigger] find_role(
                        roles,
                        rest[k],
                    ) == Some(id);
                assert(names[k] == rest[k]);
            } else {
                assert(takes_last);
            }
        }
        if member.contains(id) && exists|k: int|
            0 <= k < names.len() && skip != Some(names[k]) && #[trigger] find_role(roles, names[k])
                == Some(id) {
            let k = choose|k: int|
                0 <= k < names.len() && skip != Some(names[k]) && #[trigger] find_role(
                    roles,
                    names[k],
                ) == Some(id);
            if k < last {
                assert(rest[k] == names[k]);
                let at = choose|i: int| 0 <= i < before.len() && before[i] == id;
                assert(all[at] == id);
            } else {
                assert(all[all.len() - 1] == id);
            }
        }
    }
}

/// A member who holds none of the roles found for the names has no tier
/// role to give up.
pub proof fn lemma_nothing_held(
    names: Seq<Seq<char>>,
    skip: Option<Seq<char>>,
    roles: Seq<(u64, Seq<char>)>,
    member: Seq<u64>,
)
    requires
        forall|k: int|
            0 <= k < names.len() && skip != Some(names[k]) && (#[trigger] find_role(
                roles,
                names[k],
            )) is Some ==> !member.contains(find_role(roles, names[k])->0),
    ensures
        held_tier_roles(names, skip, roles, member) == Seq::<u64>::empty(),
    decreases names.len(),
{
    if names.len() > 0 {
        let rest = names.drop_last();
        assert forall|k: int|
            0 <= k < rest.len() && skip != Some(rest[k]) && (#[trigger] find_role(
                roles,
                rest[k],
            )) is Some implies !member.contains(find_role(roles, rest[k])->0) by {
            assert(rest[k] == names[k]);
        }
        lemma_nothing_held(rest, skip, roles, member);
        let last = names.len() - 1;
        if skip != Some(names[last]) && find_role(roles, names[last]) is Some {
            assert(!member.contains(find_role(roles, names[last])->0));
        }
    }
}

/// Reconciling is idempotent: once a plan has been carried out, planning
/// again for the same level finds nothing left to change.
pub proof fn lemma_plan_is_idempotent(
    table: Seq<(u64, Seq<char>, u32)>,
    level: u64,
    roles: Seq<(u64, Seq<char>)>,
    before: Seq<u64>,
    after: Seq<u64>,
)
    requires
        distinct_ids(roles),
        carried_out(before, planned(table, level, roles, before), after),
    ensures
        planned(table, level, roles, after) == (None::<u64>, Seq::<u64>::empty()),
{
    let plan = planned(table, level, roles, before);
    if let Some(i) = tier_at(table, level) {
        let name = table[i].1;
        if let Some(target) = find_role(roles, name) {
            let names = tier_names(table);
            let skip = Some(name);
            lemma_held_tier_roles(names, skip, roles, before, target);
            if plan.1.contains(target) {
                let k = choose|k: int|
                    0 <= k < names.len() && skip != Some(names[k]) && #[trigger] find_role(
                        roles,
                        names[k],
                    ) == Some(target);
                lemma_names_tell_roles_apart(roles, names[k], name);
            }
            assert(after.contains(target));
            assert forall|k: int|
                0 <= k < names.len() && skip != Some(names[k]) && (#[trigger] find_role(
                    roles,
                    names[k],
                )) is Some implies !after.contains(find_role(roles, names[k])->0) by {
                let id = find_role(roles, names[k])->0;
                lemma_names_tell_roles_apart(roles, names[k], name);
                lemma_held_tier_roles(names, skip, roles, before, id);
            }
            lemma_nothing_held(names, skip, roles, after);
        }
    }
}

} // verus!
