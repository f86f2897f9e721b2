//! The observer capability: recording a freshly fetched (key, value) pair.
//!
//! An observer's abstract state is a [`CacheView`]; each notification must
//! record the value exactly as the corresponding `record_*` rule says, which
//! makes notifications idempotent (last-write-wins) and obliges an observer
//! to index each nested entity of a list under its own single-entity kind.

use vstd::prelude::*;
use crate::cache_view::CacheView;
use crate::models::{
    AutoproxySettings, Group, Member, MemberGuildSettings, Message, Switch, System,
    SystemGuildSettings, SystemSettings,
};

verus! {

/// A component capable of recording a freshly fetched (key, value) pair.
pub trait Notifier {
    /// What this observer has recorded so far, as an abstract store state.
    spec fn model(&self) -> CacheView;

    fn notify_system(&mut self, system: &System)
        ensures
            final(self).model() == old(self).model().record_system(*system),
    ;

    fn notify_system_settings(&mut self, system: &str, settings: &SystemSettings)
        ensures
            final(self).model() == old(self).model().record_system_settings(system@, *settings),
    ;

    fn notify_system_guild_settings(
        &mut self,
        system: &str,
        guild: &str,
        settings: &SystemGuildSettings,
    )
        ensures
            final(self).model() == old(self).model().record_system_guild_settings(
                system@,
                guild@,
                *settings,
            ),
    ;

    fn notify_system_autoproxy(&mut self, system: &str, settings: &AutoproxySettings)
        ensures
            final(self).model() == old(self).model().record_system_autoproxy(system@, *settings),
    ;

    fn notify_system_members(&mut self, system: &str, members: &Vec<Member>)
        ensures
            final(self).model() == old(self).model().record_system_members(
                system@,
                members.deep_view(),
            ),
    ;

    fn notify_member(&mut self, member: &Member)
        ensures
            final(self).model() == old(self).model().record_member(member@),
    ;

    fn notify_member_groups(&mut self, member: &str, groups: &Vec<Group>)
        ensures
            final(self).model() == old(self).model().record_member_groups(
                member@,
                groups.deep_view(),
            ),
    ;

    fn notify_member_guild_settings(
        &mut self,
        member: &str,
        guild: &str,
        settings: &MemberGuildSettings,
    )
        ensures
            final(self).model() == old(self).model().record_member_guild_settings(
                member@,
                guild@,
                *settings,
            ),
    ;

    fn notify_system_groups(&mut self, system: &str, groups: &Vec<Group>)
        ensures
            final(self).model() == old(self).model().record_system_groups(
                system@,
                groups.deep_view(),
            ),
    ;

    fn notify_group(&mut self, group: &Group)
        ensures
            final(self).model() == old(self).model().record_group(group@),
    ;

    fn notify_group_members(&mut self, group: &str, members: &Vec<Member>)
        ensures
            final(self).model() == old(self).model().record_group_members(
                group@,
                members.deep_view(),
            ),
    ;

    fn notify_system_switches(&mut self, system: &str, switches: &Vec<Switch>)
        ensures
            final(self).model() == old(self).model().record_system_switches(
                system@,
                switches.deep_view(),
            ),
    ;

    fn notify_system_active_switch(&mut self, system: &str, switch: &Switch)
        ensures
            final(self).model() == old(self).model().record_system_active_switch(
                system@,
                switch@,
            ),
    ;

    fn notify_switch(&mut self, system: &str, switch: &Switch)
        ensures
            final(self).model() == old(self).model().record_switch(system@, switch@),
    ;

    fn notify_message(&mut self, message: &Message)
        ensures
            final(self).model() == old(self).model().record_message(message@),
    ;
}

} // verus!
