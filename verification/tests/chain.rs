//! Behaviour of the orchestrator's fallback chain and observer fan-out.

use pluralcache::controller::Controller;
use pluralcache::in_memory_cache::InMemoryCache;
use pluralcache::models::{
    AutoproxySettings, Group, Member, MemberGuildSettings, Message, Switch, System,
    SystemGuildSettings, SystemSettings,
};
use pluralcache::notifier::Notifier;
use pluralcache::provider::{Provider, ProviderResult};

fn member(id: &str, name: &str) -> Member {
    Member {
        id: id.to_string(),
        uuid: format!("uuid-{id}"),
        name: name.to_string(),
        display_name: None,
        color: None,
        birthday: None,
        pronouns: None,
        avatar_url: None,
        banner: None,
        description: None,
        created: None,
        proxy_tags: vec![],
        keep_proxy: false,
        privacy: None,
    }
}

/// A source for the chain: the real store, a scripted answer for member
/// queries, or a source that must never be consulted.
enum ChainSource {
    Store(InMemoryCache),
    FixedMember(ProviderResult<Member>),
    Unreachable,
}

impl Provider for ChainSource {
    fn get_system(&mut self, id: &str) -> ProviderResult<System> {
        match self {
            ChainSource::Store(s) => s.get_system(id),
            ChainSource::FixedMember(_) => ProviderResult::Failed,
            ChainSource::Unreachable => panic!("this source must not be consulted"),
        }
    }

    fn get_system_settings(&mut self, id: &str) -> ProviderResult<SystemSettings> {
        match self {
            ChainSource::Store(s) => s.get_system_settings(id),
            ChainSource::FixedMember(_) => ProviderResult::Failed,
            ChainSource::Unreachable => panic!("this source must not be consulted"),
        }
    }

    fn get_system_guild_settings(&mut self, id: &str, guild: &str) -> ProviderResult<SystemGuildSettings> {
        match self {
            ChainSource::Store(s) => s.get_system_guild_settings(id, guild),
            ChainSource::FixedMember(_) => ProviderResult::Failed,
            ChainSource::Unreachable => panic!("this source must not be consulted"),
        }
    }

    fn get_system_autoproxy(&mut self, id: &str) -> ProviderResult<AutoproxySettings> {
        match self {
            ChainSource::Store(s) => s.get_system_autoproxy(id),
            ChainSource::FixedMember(_) => ProviderResult::Failed,
            ChainSource::Unreachable => panic!("this source must not be consulted"),
        }
    }

    fn get_system_members(&mut self, id: &str) -> ProviderResult<Vec<Member>> {
        match self {
            ChainSource::Store(s) => s.get_system_members(id),
            ChainSource::FixedMember(_) => ProviderResult::Failed,
            ChainSource::Unreachable => panic!("this source must not be consulted"),
        }
    }

    fn get_member(&mut self, id: &str) -> ProviderResult<Member> {
        match self {
            ChainSource::Store(s) => s.get_member(id),
            ChainSource::FixedMember(r) => r.clone(),
            ChainSource::Unreachable => panic!("this source must not be consulted"),
        }
    }

    fn get_member_groups(&mut self, id: &str) -> ProviderResult<Vec<Group>> {
        match self {
            ChainSource::Store(s) => s.get_member_groups(id),
            ChainSource::FixedMember(_) => ProviderResult::Failed,
            ChainSource::Unreachable => panic!("this source must not be consulted"),
        }
    }

    fn get_member_guild_settings(&mut self, id: &str, guild: &str) -> ProviderResult<MemberGuildSettings> {
        match self {
            ChainSource::Store(s) => s.get_member_guild_settings(id, guild),
            ChainSource::FixedMember(_) => ProviderResult::Failed,
            ChainSource::Unreachable => panic!("this source must not be consulted"),
        }
    }

    fn get_system_groups(&mut self, id: &str, with_member: bool) -> ProviderResult<Vec<Group>> {
        match self {
            ChainSource::Store(s) => s.get_system_groups(id, with_member),
            ChainSource::FixedMember(_) => ProviderResult::Failed,
            ChainSource::Unreachable => panic!("this source must not be consulted"),
        }
    }

    fn get_group(&mut self, id: &str) -> ProviderResult<Group> {
        match self {
            ChainSource::Store(s) => s.get_group(id),
            ChainSource::FixedMember(_) => ProviderResult::Failed,
            ChainSource::Unreachable => panic!("this source must not be consulted"),
        }
    }

    fn get_group_members(&mut self, id: &str) -> ProviderResult<Vec<Member>> {
        match self {
            ChainSource::Store(s) => s.get_group_members(id),
            ChainSource::FixedMember(_) => ProviderResult::Failed,
            ChainSource::Unreachable => panic!("this source must not be consulted"),
        }
    }

    fn get_system_switches(&mut self, id: &str, before: &str, limit: u64) -> ProviderResult<Vec<Switch>> {
        match self {
            ChainSource::Store(s) => s.get_system_switches(id, before, limit),
            ChainSource::FixedMember(_) => ProviderResult::Failed,
            ChainSource::Unreachable => panic!("this source must not be consulted"),
        }
    }

    fn get_system_active_switch(&mut self, id: &str, switch_id: &str) -> ProviderResult<Switch> {
        match self {
            ChainSource::Store(s) => s.get_system_active_switch(id, switch_id),
            ChainSource::FixedMember(_) => ProviderResult::Failed,
            ChainSource::Unreachable => panic!("this source must not be consulted"),
        }
    }

    fn get_switch(&mut self, id: &str, switch_id: &str) -> ProviderResult<Switch> {
        match self {
            ChainSource::Store(s) => s.get_switch(id, switch_id),
            ChainSource::FixedMember(_) => ProviderResult::Failed,
            ChainSource::Unreachable => panic!("this source must not be consulted"),
        }
    }

    fn get_message(&mut self, id: &str) -> ProviderResult<Message> {
        match self {
            ChainSource::Store(s) => s.get_message(id),
            ChainSource::FixedMember(_) => ProviderResult::Failed,
            ChainSource::Unreachable => panic!("this source must not be consulted"),
        }
    }
}

/// An observer that records every member notification it receives and
/// counts the rest.
#[derive(Default)]
struct CountingNotifier {
    member_values: Vec<Member>,
    other_count: usize,
}

impl Notifier for CountingNotifier {
    // The observer's abstract state is specification-only; it is never
    // asked for at run time.
    fn model(&self) -> pluralcache::cache_view::CacheView {
        panic!("the abstract model is not a run-time value")
    }

    fn notify_system(&mut self, _system: &System) {
        self.other_count += 1;
    }

    fn notify_system_settings(&mut self, _system: &str, _settings: &SystemSettings) {
        self.other_count += 1;
    }

    fn notify_system_guild_settings(&mut self, _system: &str, _guild: &str, _settings: &SystemGuildSettings) {
        self.other_count += 1;
    }

    fn notify_system_autoproxy(&mut self, _system: &str, _settings: &AutoproxySettings) {
        self.other_count += 1;
    }

    fn notify_system_members(&mut self, _system: &str, _members: &Vec<Member>) {
        self.other_count += 1;
    }

    fn notify_member(&mut self, member: &Member) {
        self.member_values.push(member.clone());
    }

    fn notify_member_groups(&mut self, _member: &str, _groups: &Vec<Group>) {
        self.other_count += 1;
    }

    fn notify_member_guild_settings(&mut self, _member: &str, _guild: &str, _settings: &MemberGuildSettings) {
        self.other_count += 1;
    }

    fn notify_system_groups(&mut self, _system: &str, _groups: &Vec<Group>) {
        self.other_count += 1;
    }

    fn notify_group(&mut self, _group: &Group) {
        self.other_count += 1;
    }

    fn notify_group_members(&mut self, _group: &str, _members: &Vec<Member>) {
        self.other_count += 1;
    }

    fn notify_system_switches(&mut self, _system: &str, _switches: &Vec<Switch>) {
        self.other_count += 1;
    }

    fn notify_system_active_switch(&mut self, _system: &str, _switch: &Switch) {
        self.other_count += 1;
    }

    fn notify_switch(&mut self, _system: &str, _switch: &Switch) {
        self.other_count += 1;
    }

    fn notify_message(&mut self, _message: &Message) {
        self.other_count += 1;
    }
}

#[test]
fn first_source_success_short_circuits_and_notifies_once() {
    let m = member("m1", "Alex");
    let mut c: Controller<ChainSource, CountingNotifier> = Controller::new();
    c.add_provider(ChainSource::FixedMember(ProviderResult::Success(m.clone())));
    c.add_provider(ChainSource::Unreachable);
    c.add_notifier(CountingNotifier::default());
    c.add_notifier(CountingNotifier::default());
    let (r, _) = c.fetch_member("m1");
    assert_eq!(r, ProviderResult::Success(m.clone()));
    // Every observer received exactly one notification, with the value.
    for i in 0..2 {
        let obs = c.notifier_at(i);
        assert_eq!(obs.member_values, vec![m.clone()]);
        assert_eq!(obs.other_count, 0);
    }
}

#[test]
fn first_source_not_found_short_circuits_without_notifying() {
    let mut c: Controller<ChainSource, CountingNotifier> = Controller::new();
    c.add_provider(ChainSource::FixedMember(ProviderResult::NotFound));
    c.add_provider(ChainSource::Unreachable);
    c.add_notifier(CountingNotifier::default());
    let (r, _) = c.fetch_member("m1");
    assert_eq!(r, ProviderResult::NotFound);
    let obs = c.notifier_at(0);
    assert!(obs.member_values.is_empty());
    assert_eq!(obs.other_count, 0);
}

#[test]
fn not_implemented_short_circuits_without_notifying() {
    let mut c: Controller<ChainSource, CountingNotifier> = Controller::new();
    c.add_provider(ChainSource::FixedMember(ProviderResult::NotImplemented));
    c.add_provider(ChainSource::Unreachable);
    c.add_notifier(CountingNotifier::default());
    let (r, _) = c.fetch_member("m1");
    assert_eq!(r, ProviderResult::NotImplemented);
    assert!(c.notifier_at(0).member_values.is_empty());
}

#[test]
fn failed_falls_through_and_success_notifies_once_not_twice() {
    let m = member("m1", "Alex");
    let mut c: Controller<ChainSource, CountingNotifier> = Controller::new();
    c.add_provider(ChainSource::FixedMember(ProviderResult::Failed));
    c.add_provider(ChainSource::FixedMember(ProviderResult::Success(m.clone())));
    c.add_notifier(CountingNotifier::default());
    let (r, _) = c.fetch_member("m1");
    assert_eq!(r, ProviderResult::Success(m.clone()));
    assert_eq!(c.notifier_at(0).member_values, vec![m]);
}

#[test]
fn unauthorized_falls_through_to_the_next_source() {
    let m = member("m1", "Alex");
    let mut c: Controller<ChainSource, CountingNotifier> = Controller::new();
    c.add_provider(ChainSource::FixedMember(ProviderResult::Unauthorized));
    c.add_provider(ChainSource::FixedMember(ProviderResult::Success(m.clone())));
    c.add_notifier(CountingNotifier::default());
    let (r, _) = c.fetch_member("m1");
    assert_eq!(r, ProviderResult::Success(m));
}

#[test]
fn all_sources_failed_returns_failed() {
    let mut c: Controller<ChainSource, CountingNotifier> = Controller::new();
    c.add_provider(ChainSource::FixedMember(ProviderResult::Failed));
    c.add_provider(ChainSource::FixedMember(ProviderResult::Failed));
    c.add_notifier(CountingNotifier::default());
    let (r, _) = c.fetch_member("m1");
    assert_eq!(r, ProviderResult::Failed);
    assert!(c.notifier_at(0).member_values.is_empty());
}

#[test]
fn empty_chain_returns_failed() {
    let mut c: Controller<ChainSource, CountingNotifier> = Controller::new();
    c.add_notifier(CountingNotifier::default());
    let (r, _) = c.fetch_member("m1");
    assert_eq!(r, ProviderResult::Failed);
}

#[test]
fn store_miss_then_remote_success_fills_the_cache() {
    // Chain = [store, remote]; the store has no entry for "m1", the remote
    // answers; the observer store is filled, so a direct read now hits.
    let m = member("m1", "Alex");
    let mut c: Controller<ChainSource, InMemoryCache> = Controller::new();
    c.add_provider(ChainSource::Store(InMemoryCache::new()));
    c.add_provider(ChainSource::FixedMember(ProviderResult::Success(m.clone())));
    c.add_notifier(InMemoryCache::new());
    let (r, _) = c.fetch_member("m1");
    assert_eq!(r, ProviderResult::Success(m.clone()));
    assert_eq!(c.notifier_at(0).read_member("m1"), ProviderResult::Success(m));
}

#[test]
fn store_hit_short_circuits_the_remote() {
    let m = member("m1", "Alex");
    let mut store = InMemoryCache::new();
    store.notify_member(&m);
    let mut c: Controller<ChainSource, InMemoryCache> = Controller::new();
    c.add_provider(ChainSource::Store(store));
    c.add_provider(ChainSource::Unreachable);
    c.add_notifier(InMemoryCache::new());
    let (r, _) = c.fetch_member("m1");
    assert_eq!(r, ProviderResult::Success(m));
}

#[test]
fn controller_satisfies_the_source_capability() {
    let m = member("m1", "Alex");
    let mut c: Controller<ChainSource, CountingNotifier> = Controller::new();
    c.add_provider(ChainSource::FixedMember(ProviderResult::Success(m.clone())));
    c.add_notifier(CountingNotifier::default());
    // Call through the Provider trait, as a nested orchestrator would.
    let r = Provider::get_member(&mut c, "m1");
    assert_eq!(r, ProviderResult::Success(m));
    let r2 = Provider::get_system(&mut c, "s1");
    assert_eq!(r2, ProviderResult::Failed);
}
