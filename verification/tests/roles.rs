use starosta::roles::{
    find_role_id, get_role_for_level, get_roles_config, holds_role, permission_tier, plan_roles,
    role_setup, tier_index, tier_roles_held, GuildRole, PermissionTier, RoleSetup,
};

fn role(id: u64, name: &str) -> GuildRole {
    GuildRole { id, name: name.to_string() }
}

fn guild_roles() -> Vec<GuildRole> {
    let config = get_roles_config();
    let mut roles = vec![role(1, "@everyone"), role(2, "moderator")];
    let mut i = 0;
    while i < config.len() {
        roles.push(role(100 + i as u64, config[i].1));
        i += 1;
    }
    roles
}

#[test]
fn tier_table_is_complete() {
    let config = get_roles_config();
    assert_eq!(config.len(), 11);
    assert_eq!(config[0], (0, "草 Дачник 草", 0x78B159));
    assert_eq!(config[1], (5, "目 Сусід через паркан 目", 0x4E7F38));
    assert_eq!(config[2], (10, "力 Тракторист 力", 0x3498DB));
    assert_eq!(config[3], (15, "土 Агроном 土", 0x1ABC9C));
    assert_eq!(config[4], (20, "牛 Зоотехнік 牛", 0xE67E22));
    assert_eq!(config[5], (25, "蜂 Бджоляр 蜂", 0xF1C40F));
    assert_eq!(config[6], (30, "長 Голова колгоспу 長", 0x9B59B6));
    assert_eq!(config[7], (35, "金 Олігарх місцевий 金", 0xE91E63));
    assert_eq!(config[8], (40, "城 Депутат райради 城", 0x2C3E50));
    assert_eq!(config[9], (45, "仙 Мольфар 仙", 0x11806A));
    assert_eq!(config[10], (50, "神 Дід Панас 神", 0xFFD700));
}

#[test]
fn level_earns_the_highest_tier_reached() {
    assert_eq!(get_role_for_level(0), Some("草 Дачник 草"));
    assert_eq!(get_role_for_level(4), Some("草 Дачник 草"));
    assert_eq!(get_role_for_level(5), Some("目 Сусід через паркан 目"));
    assert_eq!(get_role_for_level(9), Some("目 Сусід через паркан 目"));
    assert_eq!(get_role_for_level(10), Some("力 Тракторист 力"));
    assert_eq!(get_role_for_level(49), Some("仙 Мольфар 仙"));
    assert_eq!(get_role_for_level(50), Some("神 Дід Панас 神"));
    assert_eq!(get_role_for_level(u64::MAX), Some("神 Дід Панас 神"));
}

#[test]
fn tier_index_takes_the_last_tier_at_or_below() {
    let table = vec![(3, "a", 0), (7, "b", 0), (7, "c", 0), (20, "d", 0)];
    assert_eq!(tier_index(&table, 0), None);
    assert_eq!(tier_index(&table, 2), None);
    assert_eq!(tier_index(&table, 3), Some(0));
    assert_eq!(tier_index(&table, 7), Some(2));
    assert_eq!(tier_index(&table, 19), Some(2));
    assert_eq!(tier_index(&table, 20), Some(3));
    assert_eq!(tier_index(&vec![], 5), None);
}

#[test]
fn permissions_grow_with_the_tier() {
    assert_eq!(permission_tier(0), PermissionTier::Basic);
    assert_eq!(permission_tier(9), PermissionTier::Basic);
    assert_eq!(permission_tier(10), PermissionTier::Trusted);
    assert_eq!(permission_tier(29), PermissionTier::Trusted);
    assert_eq!(permission_tier(30), PermissionTier::Elite);
    assert_eq!(permission_tier(50), PermissionTier::Elite);
}

#[test]
fn roles_are_found_by_exact_name() {
    let roles = vec![role(1, "alpha"), role(2, "beta"), role(3, "alpha")];
    assert_eq!(find_role_id(&roles, "alpha"), Some(1));
    assert_eq!(find_role_id(&roles, "beta"), Some(2));
    assert_eq!(find_role_id(&roles, "Beta"), None);
    assert_eq!(find_role_id(&roles, "bet"), None);
    assert_eq!(find_role_id(&roles, ""), None);
    assert_eq!(role_setup(&roles, "beta"), RoleSetup::Update { id: 2 });
    assert_eq!(role_setup(&roles, "gamma"), RoleSetup::Create);
}

#[test]
fn holding_a_role_is_membership() {
    assert!(holds_role(&vec![4, 5, 6], 5));
    assert!(!holds_role(&vec![4, 5, 6], 7));
    assert!(!holds_role(&vec![], 7));
}

#[test]
fn plan_adds_the_tier_role_and_removes_the_others() {
    let roles = guild_roles();
    let member = vec![1, 100, 103, 2];
    let plan = plan_roles(12, &roles, &member);
    assert_eq!(plan.add, Some(102));
    assert_eq!(plan.remove, vec![100, 103]);
}

#[test]
fn plan_is_empty_once_carried_out() {
    let roles = guild_roles();
    let member = vec![1, 102, 2];
    let plan = plan_roles(12, &roles, &member);
    assert_eq!(plan.add, None);
    assert!(plan.remove.is_empty());
}

#[test]
fn plan_does_nothing_without_the_target_role() {
    let mut roles = guild_roles();
    roles.retain(|r| r.id != 102);
    let member = vec![100, 103];
    let plan = plan_roles(12, &roles, &member);
    assert_eq!(plan.add, None);
    assert!(plan.remove.is_empty());
}

#[test]
fn plan_skips_tier_roles_that_are_missing() {
    let mut roles = guild_roles();
    roles.retain(|r| r.id != 100);
    let member = vec![100, 103];
    let plan = plan_roles(12, &roles, &member);
    assert_eq!(plan.add, Some(102));
    assert_eq!(plan.remove, vec![103]);
}

#[test]
fn tier_roles_held_lists_in_table_order() {
    let roles = guild_roles();
    let config = get_roles_config();
    let member = vec![110, 2, 100, 105];
    assert_eq!(tier_roles_held(&config, None, &roles, &member), vec![100, 105, 110]);
    assert_eq!(
        tier_roles_held(&config, Some(config[5].1), &roles, &member),
        vec![100, 110]
    );
    assert!(tier_roles_held(&config, None, &roles, &vec![1, 2]).is_empty());
}
