//! The result taxonomy shared by every source, and the source capability:
//! answering a typed fetch-by-key query.

use vstd::prelude::*;
use crate::models::{
    AutoproxySettings, Group, Member, MemberGuildSettings, Message, Switch, System,
    SystemGuildSettings, SystemSettings,
};

verus! {

/// The closed set of outcomes of a fetch.
///
/// `Success` is an authoritative success and `NotFound` an authoritative
/// absence; `Unauthorized` is an authoritative rejection; `Failed` is
/// inconclusive (transport error, parse error, cache miss), the only kind
/// that invites a fallback; `NotImplemented` means the source cannot answer
/// the query shape at all.
#[derive(Debug, Clone, PartialEq)]
pub enum ProviderResult<T> {
    Success(T),
    NotFound,
    Unauthorized,
    Failed,
    NotImplemented,
}

/// A component capable of answering a typed fetch-by-key query.
///
/// No result is promised: a source may answer from memory, from the
/// network, or not at all. Implementations must not abort on ordinary
/// absence; absence is `NotFound` or `Failed`.
pub trait Provider {
    fn get_system(&mut self, id: &str) -> ProviderResult<System>;

    fn get_system_settings(&mut self, id: &str) -> ProviderResult<SystemSettings>;

    fn get_system_guild_settings(&mut self, id: &str, guild: &str) -> ProviderResult<
        SystemGuildSettings,
    >;

    fn get_system_autoproxy(&mut self, id: &str) -> ProviderResult<AutoproxySettings>;

    fn get_system_members(&mut self, id: &str) -> ProviderResult<Vec<Member>>;

    fn get_member(&mut self, id: &str) -> ProviderResult<Member>;

    fn get_member_groups(&mut self, id: &str) -> ProviderResult<Vec<Group>>;

    fn get_member_guild_settings(&mut self, id: &str, guild: &str) -> ProviderResult<
        MemberGuildSettings,
    >;

    fn get_system_groups(&mut self, id: &str, with_member: bool) -> ProviderResult<Vec<Group>>;

    fn get_group(&mut self, id: &str) -> ProviderResult<Group>;

    fn get_group_members(&mut self, id: &str) -> ProviderResult<Vec<Member>>;

    fn get_system_switches(&mut self, id: &str, before: &str, limit: u64) -> ProviderResult<
        Vec<Switch>,
    >;

    fn get_system_active_switch(&mut self, id: &str, switch_id: &str) -> ProviderResult<Switch>;

    fn get_switch(&mut self, id: &str, switch_id: &str) -> ProviderResult<Switch>;

    fn get_message(&mut self, id: &str) -> ProviderResult<Message>;
}

} // verus!
