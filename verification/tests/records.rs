use starosta::leaderboard::{
    inactive_members, is_inactive, leaderboard, medal_for, standing_of, LeaderLine, Medal,
    Standing,
};
use starosta::members::Members;
use starosta::profile::create_default_profile;
use starosta::ranking::sort_order;
use starosta::schedule::{on_tick, period_of, Task, Tick};
use starosta::settings::{AutoRole, AutoRoles, ChannelSet};
use starosta::sync::{recovered_guard, safe_lock};
use starosta::text::{
    parse_decimal, parse_decimal_u32, push_decimal, push_two_digits, starts_with,
};
use std::sync::Mutex;

fn standing(user: u64, level: u64, xp: u64, minutes: u64) -> Standing {
    Standing { user, level, xp, minutes }
}

#[test]
fn order_is_rising_and_stable() {
    let keys = vec![(3, 1), (1, 9), (3, 0), (1, 9), (2, 5)];
    assert_eq!(sort_order(&keys, false), vec![1, 3, 4, 2, 0]);
    assert_eq!(sort_order(&keys, true), vec![0, 2, 4, 1, 3]);
    assert_eq!(sort_order(&vec![], false), Vec::<usize>::new());
    assert_eq!(sort_order(&vec![(7, 7)], true), vec![0]);
    assert_eq!(sort_order(&vec![(0, 0), (0, 0), (0, 0)], true), vec![0, 1, 2]);
    assert_eq!(
        sort_order(&vec![(u64::MAX, 0), (0, u64::MAX), (u64::MAX, u64::MAX)], false),
        vec![1, 0, 2]
    );
}

#[test]
fn leaderboard_ranks_by_level_then_xp() {
    let standings = vec![
        standing(10, 2, 50, 130),
        standing(11, 5, 0, 59),
        standing(12, 2, 70, 60),
        standing(13, 0, 900, 0),
    ];
    let lines = leaderboard(&standings);
    assert_eq!(
        lines,
        vec![
            LeaderLine { place: 1, medal: Medal::Gold, user: 11, level: 5, xp: 0, voice_hours: 0 },
            LeaderLine {
                place: 2,
                medal: Medal::Silver,
                user: 12,
                level: 2,
                xp: 70,
                voice_hours: 1
            },
            LeaderLine {
                place: 3,
                medal: Medal::Bronze,
                user: 10,
                level: 2,
                xp: 50,
                voice_hours: 2
            },
            LeaderLine {
                place: 4,
                medal: Medal::Ribbon,
                user: 13,
                level: 0,
                xp: 900,
                voice_hours: 0
            },
        ]
    );
}

#[test]
fn leaderboard_shows_ten_at_most() {
    let mut standings = Vec::new();
    let mut i = 0;
    while i < 25 {
        standings.push(standing(i, i % 7, i, 0));
        i += 1;
    }
    let lines = leaderboard(&standings);
    assert_eq!(lines.len(), 10);
    assert_eq!(lines[0].user, 20);
    assert_eq!(lines[0].level, 6);
    assert_eq!(lines[1].user, 13);
    assert_eq!(lines[2].user, 6);
    assert_eq!(lines[3].user, 19);
    assert_eq!(lines[9].place, 10);
    assert_eq!(lines[9].medal, Medal::Ribbon);
    assert!(leaderboard(&vec![]).is_empty());
}

#[test]
fn medals_go_to_the_first_three() {
    assert_eq!(medal_for(0), Medal::Gold);
    assert_eq!(medal_for(1), Medal::Silver);
    assert_eq!(medal_for(2), Medal::Bronze);
    assert_eq!(medal_for(3), Medal::Ribbon);
    assert_eq!(medal_for(usize::MAX), Medal::Ribbon);
}

#[test]
fn standing_reads_the_profile() {
    let mut profile = create_default_profile();
    profile.level = 4;
    profile.xp = 17;
    profile.minutes = 61;
    assert_eq!(standing_of(9, &profile), standing(9, 4, 17, 61));
}

#[test]
fn quiet_members_are_inactive() {
    let now = 1_700_000_000;
    let mut profile = create_default_profile();
    assert!(!is_inactive(&profile, now, 30));
    profile.last_msg_time = (now - 30 * 86_400) * 1000 - 1;
    assert!(is_inactive(&profile, now, 30));
    profile.last_msg_time = (now - 30 * 86_400) * 1000;
    assert!(!is_inactive(&profile, now, 30));
    profile.last_msg_time = now * 1000;
    assert!(!is_inactive(&profile, now, 30));
    assert!(!is_inactive(&profile, now, 0));
    profile.last_msg_time = now * 1000 - 1;
    assert!(is_inactive(&profile, now, 0));
    assert!(!is_inactive(&profile, now, u64::MAX));
}

#[test]
fn inactive_members_are_listed_in_order() {
    let now = 1_700_000_000;
    let mut old = create_default_profile();
    old.last_msg_time = 1_000;
    let mut recent = create_default_profile();
    recent.last_msg_time = now * 1000 - 5;
    let unknown = create_default_profile();
    let members = vec![(1, old), (2, recent), (3, unknown), (4, old)];
    assert_eq!(inactive_members(&members, now, 7), vec![1, 4]);
    assert!(inactive_members(&vec![], now, 7).is_empty());
}

#[test]
fn members_get_defaults_at_first_interaction() {
    let mut members = Members::new();
    assert_eq!(members.len(), 0);
    assert_eq!(members.get(5), None);
    assert_eq!(members.shown(5), create_default_profile());
    assert_eq!(members.len(), 0);
    let mut profile = members.enroll(5);
    assert_eq!(profile, create_default_profile());
    assert_eq!(members.len(), 1);
    profile.chips = 7;
    members.store(5, profile);
    assert_eq!(members.get(5), Some(profile));
    assert_eq!(members.enroll(5), profile);
    assert_eq!(members.shown(5).chips, 7);
    assert_eq!(members.len(), 1);
    members.enroll(9);
    let mut entries = members.entries();
    entries.sort_by_key(|entry| entry.0);
    assert_eq!(entries, vec![(5, profile), (9, create_default_profile())]);
}

#[test]
fn ticks_set_off_their_tasks() {
    assert_eq!(on_tick(Tick::Minute, 3), Task::VoiceRound);
    assert_eq!(on_tick(Tick::Minute, 9), Task::VoiceRound);
    assert_eq!(on_tick(Tick::Hour, 9), Task::BirthdayAnnouncement);
    assert_eq!(on_tick(Tick::Hour, 8), Task::Idle);
    assert_eq!(on_tick(Tick::Hour, 21), Task::Idle);
    assert_eq!(on_tick(Tick::Day, 9), Task::Backup);
    assert_eq!(period_of(Tick::Minute), 60);
    assert_eq!(period_of(Tick::Hour), 3_600);
    assert_eq!(period_of(Tick::Day), 86_400);
}

#[test]
fn a_community_has_one_auto_role() {
    let mut roles = AutoRoles::new();
    assert_eq!(roles.role_for(1), None);
    roles.bind(1, 10);
    roles.bind(2, 20);
    roles.bind(1, 11);
    assert_eq!(roles.role_for(1), Some(11));
    assert_eq!(roles.role_for(2), Some(20));
    assert_eq!(
        roles.bindings,
        vec![AutoRole { guild_id: 2, role_id: 20 }, AutoRole { guild_id: 1, role_id: 11 }]
    );
    assert!(roles.unbind(2));
    assert!(!roles.unbind(2));
    assert_eq!(roles.role_for(2), None);
    assert_eq!(roles.role_for(1), Some(11));
}

#[test]
fn stored_auto_roles_resolve_to_the_first() {
    let roles = AutoRoles {
        bindings: vec![
            AutoRole { guild_id: 1, role_id: 10 },
            AutoRole { guild_id: 1, role_id: 11 },
        ],
    };
    assert_eq!(roles.role_for(1), Some(10));
}

#[test]
fn suggestion_channels_are_a_set() {
    let mut set = ChannelSet::new();
    assert!(!set.is_enabled(5));
    assert!(set.enable(5));
    assert!(!set.enable(5));
    assert!(set.enable(6));
    assert_eq!(set.channels, vec![5, 6]);
    assert!(set.is_enabled(5));
    assert!(set.disable(5));
    assert!(!set.disable(5));
    assert!(!set.is_enabled(5));
    assert_eq!(set.channels, vec![6]);
}

#[test]
fn decimal_numbers_are_read() {
    assert_eq!(parse_decimal("0"), Some(0));
    assert_eq!(parse_decimal("007"), Some(7));
    assert_eq!(parse_decimal("+42"), Some(42));
    assert_eq!(parse_decimal("18446744073709551615"), Some(u64::MAX));
    assert_eq!(parse_decimal("18446744073709551616"), None);
    assert_eq!(parse_decimal("99999999999999999999999"), None);
    assert_eq!(parse_decimal(""), None);
    assert_eq!(parse_decimal("+"), None);
    assert_eq!(parse_decimal("++1"), None);
    assert_eq!(parse_decimal("-1"), None);
    assert_eq!(parse_decimal("1 "), None);
    assert_eq!(parse_decimal(" 1"), None);
    assert_eq!(parse_decimal("1_000"), None);
    assert_eq!(parse_decimal("٣"), None);
    assert_eq!(parse_decimal_u32("4294967295"), Some(u32::MAX));
    assert_eq!(parse_decimal_u32("4294967296"), None);
    assert_eq!(parse_decimal_u32("12"), Some(12));
    assert_eq!(parse_decimal_u32("x"), None);
}

#[test]
fn decimal_numbers_agree_with_the_standard_parser() {
    let samples = [
        "0", "1", "+1", "-1", "", "+", "00", "12345", "18446744073709551615",
        "18446744073709551616", "1a", "a1", "1.0", "+-1", "١٢",
    ];
    for sample in samples {
        assert_eq!(parse_decimal(sample), sample.parse::<u64>().ok(), "{:?}", sample);
        assert_eq!(parse_decimal_u32(sample), sample.parse::<u32>().ok(), "{:?}", sample);
    }
}

#[test]
fn decimal_numbers_are_written() {
    let mut text = String::from("n=");
    push_decimal(&mut text, 0);
    text.push(',');
    push_decimal(&mut text, 907);
    text.push(',');
    push_decimal(&mut text, u64::MAX);
    assert_eq!(text, "n=0,907,18446744073709551615");
    let mut padded = String::new();
    push_two_digits(&mut padded, 7);
    padded.push('/');
    push_two_digits(&mut padded, 10);
    padded.push('/');
    push_two_digits(&mut padded, 0);
    padded.push('/');
    push_two_digits(&mut padded, 1234);
    assert_eq!(padded, "07/10/00/1234");
}

#[test]
fn safe_lock_hands_out_the_value() {
    let mutex = Mutex::new(vec![1, 2]);
    {
        let mut guard = safe_lock(&mutex);
        guard.push(3);
    }
    let guard = safe_lock(&mutex);
    assert_eq!(*guard, vec![1, 2, 3]);
}

#[test]
fn a_sound_lock_hands_out_its_own_guard() {
    let mutex = Mutex::new(7u32);
    {
        let mut guard = recovered_guard(mutex.lock());
        *guard += 1;
    }
    assert!(mutex.try_lock().is_ok());
    assert_eq!(*recovered_guard(mutex.lock()), 8);
}

#[test]
fn prefixes_are_compared_character_for_character() {
    assert!(starts_with("idea_like_1", "idea_"));
    assert!(starts_with("idea_", "idea_"));
    assert!(starts_with("anything", ""));
    assert!(starts_with("", ""));
    assert!(!starts_with("idea", "idea_"));
    assert!(!starts_with("", "a"));
    assert!(!starts_with("Idea_1", "idea_"));
    assert!(!starts_with("xidea_", "idea_"));
    assert!(starts_with("їжак біжить", "їжак"));
    assert!(!starts_with("їжак", "іжак"));
}
