//! Behaviour of the in-memory store: round trips, overwrite semantics,
//! secondary indexing of list notifications, and the group-listing rule.

use pluralcache::in_memory_cache::InMemoryCache;
use pluralcache::models::{
    AutoproxyMode, AutoproxySettings, Group, Member, MemberGuildSettings, MemberOrId, Message,
    ProxyTag, Switch, System, SystemGuildSettings, SystemSettings,
};
use pluralcache::notifier::Notifier;
use pluralcache::provider::ProviderResult;

fn system(id: &str, name: &str) -> System {
    System {
        id: id.to_string(),
        uuid: format!("uuid-{id}"),
        name: Some(name.to_string()),
        description: None,
        tag: Some("|tag".to_string()),
        pronouns: None,
        avatar_url: None,
        banner: None,
        color: Some("ff0000".to_string()),
        created: None,
        privacy: None,
    }
}

fn member(id: &str, name: &str) -> Member {
    Member {
        id: id.to_string(),
        uuid: format!("uuid-{id}"),
        name: name.to_string(),
        display_name: Some(format!("{name}!")),
        color: None,
        birthday: None,
        pronouns: Some("they/them".to_string()),
        avatar_url: None,
        banner: None,
        description: None,
        created: None,
        proxy_tags: vec![ProxyTag::new(Some("[".to_string()), Some("]".to_string()))],
        keep_proxy: false,
        privacy: None,
    }
}

fn group(id: &str, name: &str, members: Option<Vec<Member>>) -> Group {
    Group {
        id: id.to_string(),
        uuid: format!("uuid-{id}"),
        name: name.to_string(),
        display_name: None,
        description: None,
        icon: None,
        banner: None,
        color: None,
        privacy: None,
        members,
    }
}

fn switch(id: &str) -> Switch {
    Switch {
        id: id.to_string(),
        timestamp: "2021-01-01T00:00:00Z".to_string(),
        members: vec![
            MemberOrId::Member(member("m1", "Alex")),
            MemberOrId::Id("m2".to_string()),
        ],
    }
}

fn settings() -> SystemSettings {
    SystemSettings {
        timezone: "UTC".to_string(),
        pings_enabled: true,
        latch_timeout: Some(3600),
        member_default_privacy: false,
        group_default_privacy: false,
        show_private_info: true,
        member_limit: 1000,
        group_limit: 250,
    }
}

fn message(id: &str) -> Message {
    Message {
        timestamp: "2021-01-01T00:00:00Z".to_string(),
        id: id.to_string(),
        original: "orig".to_string(),
        sender: "sender".to_string(),
        channel: "channel".to_string(),
        guild: "guild".to_string(),
        system: Some(system("s1", "Sys")),
        member: Some(member("m1", "Alex")),
    }
}

#[test]
fn round_trip_system() {
    let mut c = InMemoryCache::new();
    let s = system("s1", "Sys");
    c.notify_system(&s);
    assert_eq!(c.read_system("s1"), ProviderResult::Success(s));
}

#[test]
fn round_trip_system_settings() {
    let mut c = InMemoryCache::new();
    let v = settings();
    c.notify_system_settings("s1", &v);
    assert_eq!(c.read_system_settings("s1"), ProviderResult::Success(v));
}

#[test]
fn round_trip_system_guild_settings() {
    let mut c = InMemoryCache::new();
    let v = SystemGuildSettings {
        guild_id: Some("g1".to_string()),
        proxying_enabled: true,
        tag: None,
        tag_enabled: false,
    };
    c.notify_system_guild_settings("s1", "g1", &v);
    assert_eq!(c.read_system_guild_settings("s1", "g1"), ProviderResult::Success(v));
    assert_eq!(c.read_system_guild_settings("s1", "g2"), ProviderResult::Failed);
    assert_eq!(c.read_system_guild_settings("s2", "g1"), ProviderResult::Failed);
}

#[test]
fn round_trip_system_autoproxy() {
    let mut c = InMemoryCache::new();
    let v = AutoproxySettings {
        autoproxy_mode: AutoproxyMode::LATCH,
        autoproxy_member: Some("m1".to_string()),
        last_latch_timestamp: None,
    };
    c.notify_system_autoproxy("s1", &v);
    assert_eq!(c.read_system_autoproxy("s1"), ProviderResult::Success(v));
}

#[test]
fn round_trip_member() {
    let mut c = InMemoryCache::new();
    let m = member("m1", "Alex");
    c.notify_member(&m);
    assert_eq!(c.read_member("m1"), ProviderResult::Success(m));
}

#[test]
fn round_trip_member_guild_settings() {
    let mut c = InMemoryCache::new();
    let v = MemberGuildSettings {
        guild_id: Some("g1".to_string()),
        display_name: Some("nick".to_string()),
        avatar_url: None,
    };
    c.notify_member_guild_settings("m1", "g1", &v);
    assert_eq!(c.read_member_guild_settings("m1", "g1"), ProviderResult::Success(v));
}

#[test]
fn round_trip_group() {
    let mut c = InMemoryCache::new();
    let g = group("gr1", "Crew", None);
    c.notify_group(&g);
    assert_eq!(c.read_group("gr1"), ProviderResult::Success(g));
}

#[test]
fn round_trip_message() {
    let mut c = InMemoryCache::new();
    let m = message("msg1");
    c.notify_message(&m);
    assert_eq!(c.read_message("msg1"), ProviderResult::Success(m));
}

#[test]
fn round_trip_switch() {
    let mut c = InMemoryCache::new();
    let sw = switch("sw1");
    c.notify_switch("s1", &sw);
    assert_eq!(c.read_switch("s1", "sw1"), ProviderResult::Success(sw));
    assert_eq!(c.read_switch("s2", "sw1"), ProviderResult::Failed);
}

#[test]
fn round_trip_system_active_switch() {
    let mut c = InMemoryCache::new();
    let sw = switch("sw1");
    c.notify_system_active_switch("s1", &sw);
    assert_eq!(c.read_system_active_switch("s1", "sw1"), ProviderResult::Success(sw));
}

#[test]
fn round_trip_system_members_list() {
    let mut c = InMemoryCache::new();
    let ms = vec![member("m1", "Alex"), member("m2", "Blake")];
    c.notify_system_members("s1", &ms);
    assert_eq!(c.read_system_members("s1"), ProviderResult::Success(ms));
}

#[test]
fn round_trip_member_groups_list() {
    let mut c = InMemoryCache::new();
    let gs = vec![group("gr1", "Crew", None), group("gr2", "Band", None)];
    c.notify_member_groups("m1", &gs);
    assert_eq!(c.read_member_groups("m1"), ProviderResult::Success(gs));
}

#[test]
fn round_trip_group_members_list() {
    let mut c = InMemoryCache::new();
    let ms = vec![member("m1", "Alex")];
    c.notify_group_members("gr1", &ms);
    assert_eq!(c.read_group_members("gr1"), ProviderResult::Success(ms));
}

#[test]
fn repeated_notification_is_last_write_wins() {
    let mut c = InMemoryCache::new();
    c.notify_member(&member("m1", "Alex"));
    c.notify_member(&member("m1", "Blake"));
    let expected = member("m1", "Blake");
    assert_eq!(c.read_member("m1"), ProviderResult::Success(expected.clone()));
    // An identical repetition changes nothing.
    c.notify_member(&member("m1", "Blake"));
    assert_eq!(c.read_member("m1"), ProviderResult::Success(expected));
}

#[test]
fn empty_store_misses_are_inconclusive() {
    let c = InMemoryCache::new();
    assert_eq!(c.read_system("s1"), ProviderResult::Failed);
    assert_eq!(c.read_member("m1"), ProviderResult::Failed);
    assert_eq!(c.read_group("gr1"), ProviderResult::Failed);
    assert_eq!(c.read_message("msg1"), ProviderResult::Failed);
    assert_eq!(c.read_system_members("s1"), ProviderResult::Failed);
    assert_eq!(c.read_system_groups("s1", false), ProviderResult::Failed);
}

#[test]
fn switch_history_is_not_implemented() {
    let c = InMemoryCache::new();
    assert_eq!(
        c.read_system_switches("s1", "2021-01-01T00:00:00Z", 100),
        ProviderResult::NotImplemented
    );
}

#[test]
fn system_groups_with_member_data_served_when_complete() {
    let mut c = InMemoryCache::new();
    let gs = vec![
        group("gr1", "Crew", Some(vec![member("m1", "Alex")])),
        group("gr2", "Band", Some(vec![])),
    ];
    c.notify_system_groups("s1", &gs);
    assert_eq!(c.read_system_groups("s1", true), ProviderResult::Success(gs));
}

#[test]
fn system_groups_missing_member_data_fails_with_flag() {
    let mut c = InMemoryCache::new();
    let gs = vec![
        group("gr1", "Crew", Some(vec![member("m1", "Alex")])),
        group("gr2", "Band", None),
    ];
    c.notify_system_groups("s1", &gs);
    // One group lacks member data: the with-member query is a miss.
    assert_eq!(c.read_system_groups("s1", true), ProviderResult::Failed);
    // Without the flag the listing is served with every member field
    // cleared, even where the stored copy keeps one.
    let cleared = vec![group("gr1", "Crew", None), group("gr2", "Band", None)];
    assert_eq!(c.read_system_groups("s1", false), ProviderResult::Success(cleared));
}

#[test]
fn system_groups_without_flag_clears_member_data() {
    let mut c = InMemoryCache::new();
    let gs = vec![group("gr1", "Crew", Some(vec![member("m1", "Alex")]))];
    c.notify_system_groups("s1", &gs);
    let cleared = vec![group("gr1", "Crew", None)];
    assert_eq!(c.read_system_groups("s1", false), ProviderResult::Success(cleared));
}

#[test]
fn system_members_notification_indexes_each_member() {
    let mut c = InMemoryCache::new();
    let ms = vec![
        member("m1", "Alex"),
        member("m2", "Blake"),
        member("m3", "Casey"),
    ];
    c.notify_system_members("s1", &ms);
    assert_eq!(c.read_member("m1"), ProviderResult::Success(member("m1", "Alex")));
    assert_eq!(c.read_member("m2"), ProviderResult::Success(member("m2", "Blake")));
    assert_eq!(c.read_member("m3"), ProviderResult::Success(member("m3", "Casey")));
}

#[test]
fn group_members_notification_indexes_each_member() {
    let mut c = InMemoryCache::new();
    let ms = vec![member("m1", "Alex"), member("m2", "Blake")];
    c.notify_group_members("gr1", &ms);
    assert_eq!(c.read_member("m1"), ProviderResult::Success(member("m1", "Alex")));
    assert_eq!(c.read_member("m2"), ProviderResult::Success(member("m2", "Blake")));
}

#[test]
fn member_groups_notification_indexes_each_group() {
    let mut c = InMemoryCache::new();
    let gs = vec![group("gr1", "Crew", None), group("gr2", "Band", None)];
    c.notify_member_groups("m1", &gs);
    assert_eq!(c.read_group("gr1"), ProviderResult::Success(group("gr1", "Crew", None)));
    assert_eq!(c.read_group("gr2"), ProviderResult::Success(group("gr2", "Band", None)));
}

#[test]
fn system_groups_notification_indexes_each_group() {
    let mut c = InMemoryCache::new();
    let gs = vec![group("gr1", "Crew", None)];
    c.notify_system_groups("s1", &gs);
    assert_eq!(c.read_group("gr1"), ProviderResult::Success(group("gr1", "Crew", None)));
}

#[test]
fn switch_list_notification_serves_point_lookups() {
    let mut c = InMemoryCache::new();
    let ss = vec![switch("sw1"), switch("sw2")];
    c.notify_system_switches("s1", &ss);
    assert_eq!(c.read_switch("s1", "sw1"), ProviderResult::Success(switch("sw1")));
    assert_eq!(c.read_switch("s1", "sw2"), ProviderResult::Success(switch("sw2")));
    // The history query itself stays unanswerable.
    assert_eq!(c.read_system_switches("s1", "x", 1), ProviderResult::NotImplemented);
}

#[test]
fn reads_return_independent_copies() {
    let mut c = InMemoryCache::new();
    let m = member("m1", "Alex");
    c.notify_member(&m);
    let first = c.read_member("m1");
    let second = c.read_member("m1");
    assert_eq!(first, second);
    assert_eq!(first, ProviderResult::Success(m));
}
