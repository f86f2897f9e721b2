//! The dual-role in-memory store: it serves cached reads (source role) and
//! absorbs cache-fill writes (observer role).
//!
//! Every read returns an independent copy; the backing tables are mutated
//! only through the observer entry points and read only through the source
//! entry points.

use vstd::prelude::*;
use crate::cache_view::{index_groups, index_members, index_switches, CacheView};
use crate::models::{
    copy_group_list, copy_member_list, AutoproxySettings, Group, GroupView, Member,
    MemberGuildSettings, MemberView, Message, Switch, System, SystemGuildSettings, SystemSettings,
};
use crate::notifier::Notifier;
use crate::provider::{Provider, ProviderResult};
use crate::table::{PairTable, StrTable};

verus! {

/// One backing table per entity kind, keyed as the data model asks.
pub struct InMemoryCache {
    systems: StrTable<System>,
    system_settings: StrTable<SystemSettings>,
    system_guild_settings: PairTable<SystemGuildSettings>,
    system_autoproxy: StrTable<AutoproxySettings>,
    system_members: StrTable<Vec<Member>>,
    members: StrTable<Member>,
    member_groups: StrTable<Vec<Group>>,
    member_guild_settings: PairTable<MemberGuildSettings>,
    system_groups: StrTable<Vec<Group>>,
    groups: StrTable<Group>,
    group_members: StrTable<Vec<Member>>,
    system_active_switch: PairTable<Switch>,
    switches: PairTable<Switch>,
    messages: StrTable<Message>,
}

impl View for InMemoryCache {
    type V = CacheView;

    closed spec fn view(&self) -> CacheView {
        CacheView {
            systems: self.systems@,
            system_settings: self.system_settings@,
            system_guild_settings: self.system_guild_settings@,
            system_autoproxy: self.system_autoproxy@,
            system_members: self.system_members@,
            members: self.members@,
            member_groups: self.member_groups@,
            member_guild_settings: self.member_guild_settings@,
            system_groups: self.system_groups@,
            groups: self.groups@,
            group_members: self.group_members@,
            system_active_switch: self.system_active_switch@,
            switches: self.switches@,
            messages: self.messages@,
        }
    }
}

impl InMemoryCache {
    pub fn new() -> (r: Self)
        ensures
            r@ == CacheView::empty(),
    {
        let r = InMemoryCache {
            systems: StrTable::new(),
            system_settings: StrTable::new(),
            system_guild_settings: PairTable::new(),
            system_autoproxy: StrTable::new(),
            system_members: StrTable::new(),
            members: StrTable::new(),
            member_groups: StrTable::new(),
            member_guild_settings: PairTable::new(),
            system_groups: StrTable::new(),
            groups: StrTable::new(),
            group_members: StrTable::new(),
            system_active_switch: PairTable::new(),
            switches: PairTable::new(),
            messages: StrTable::new(),
        };
        proof {
            assert(r@ =~= CacheView::empty());
        }
        r
    }

    /// Serves a cached system; a miss is inconclusive, never an error.
    pub fn read_system(&self, id: &str) -> (r: ProviderResult<System>)
        ensures
            (match self@.lookup_system(id@) {
                Some(v) => r matches ProviderResult::Success(s) && s == v,
                None => r is Failed,
            }),
    {
        match self.systems.get(id) {
            Some(s) => ProviderResult::Success(s.clone()),
            None => ProviderResult::Failed,
        }
    }

    pub fn read_system_settings(&self, id: &str) -> (r: ProviderResult<SystemSettings>)
        ensures
            (match self@.lookup_system_settings(id@) {
                Some(v) => r matches ProviderResult::Success(s) && s == v,
                None => r is Failed,
            }),
    {
        match self.system_settings.get(id) {
            Some(s) => ProviderResult::Success(s.clone()),
            None => ProviderResult::Failed,
        }
    }

    pub fn read_system_guild_settings(&self, id: &str, guild: &str) -> (r: ProviderResult<
        SystemGuildSettings,
    >)
        ensures
            (match self@.lookup_system_guild_settings(id@, guild@) {
                Some(v) => r matches ProviderResult::Success(s) && s == v,
                None => r is Failed,
            }),
    {
        match self.system_guild_settings.get(id, guild) {
            Some(s) => ProviderResult::Success(s.clone()),
            None => ProviderResult::Failed,
        }
    }

    pub fn read_system_autoproxy(&self, id: &str) -> (r: ProviderResult<AutoproxySettings>)
        ensures
            (match self@.lookup_system_autoproxy(id@) {
                Some(v) => r matches ProviderResult::Success(s) && s == v,
                None => r is Failed,
            }),
    {
        match self.system_autoproxy.get(id) {
            Some(s) => ProviderResult::Success(s.clone()),
            None => ProviderResult::Failed,
        }
    }

    pub fn read_system_members(&self, id: &str) -> (r: ProviderResult<Vec<Member>>)
        ensures
            (match self@.lookup_system_members(id@) {
                Some(v) => r matches ProviderResult::Success(ms) && ms.deep_view() == v,
                None => r is Failed,
            }),
    {
        match self.system_members.get(id) {
            Some(ms) => ProviderResult::Success(copy_member_list(ms)),
            None => ProviderResult::Failed,
        }
    }

    pub fn read_member(&self, id: &str) -> (r: ProviderResult<Member>)
        ensures
            (match self@.lookup_member(id@) {
                Some(v) => r matches ProviderResult::Success(m) && m@ == v,
                None => r is Failed,
            }),
    {
        match self.members.get(id) {
            Some(m) => ProviderResult::Success(m.clone()),
            None => ProviderResult::Failed,
        }
    }

    pub fn read_member_groups(&self, id: &str) -> (r: ProviderResult<Vec<Group>>)
        ensures
            (match self@.lookup_member_groups(id@) {
                Some(v) => r matches ProviderResult::Success(gs) && gs.deep_view() == v,
                None => r is Failed,
            }),
    {
        match self.member_groups.get(id) {
            Some(gs) => ProviderResult::Success(copy_group_list(gs)),
            None => ProviderResult::Failed,
        }
    }

    pub fn read_member_guild_settings(&self, id: &str, guild: &str) -> (r: ProviderResult<
        MemberGuildSettings,
    >)
        ensures
            (match self@.lookup_member_guild_settings(id@, guild@) {
                Some(v) => r matches ProviderResult::Success(s) && s == v,
                None => r is Failed,
            }),
    {
        match self.member_guild_settings.get(id, guild) {
            Some(s) => ProviderResult::Success(s.clone()),
            None => ProviderResult::Failed,
        }
    }

    /// Serves a cached group listing. A with-member query is answered only
    /// if every stored group carries embedded member data; without the
    /// flag, the served copy has every group's member field cleared.
    pub fn read_system_groups(&self, id: &str, with_member: bool) -> (r: ProviderResult<
        Vec<Group>,
    >)
        ensures
            (match self@.lookup_system_groups(id@, with_member) {
                Some(v) => r matches ProviderResult::Success(gs) && gs.deep_view() == v,
                None => r is Failed,
            }),
    {
        match self.system_groups.get(id) {
            Some(groups) => {
                let ghost stored = self@.system_groups[id@];
                if with_member {
                    let mut i: usize = 0;
                    while i < groups.len()
                        invariant
                            i <= groups@.len(),
                            with_member,
                            self@.system_groups.contains_key(id@),
                            stored == self@.system_groups[id@],
                            groups.deep_view() == stored,
                            forall|j: int| 0 <= j < i ==> stored[j].members is Some,
                        decreases groups@.len() - i,
                    {
                        if groups[i].members.is_none() {
                            proof {
                                assert(!(forall|j: int|
                                    0 <= j < stored.len() ==> stored[j].members is Some)) by {
                                    assert(stored[i as int].members is None);
                                }
                            }
                            return ProviderResult::Failed;
                        }
                        i += 1;
                    }
                    ProviderResult::Success(copy_group_list(groups))
                } else {
                    let mut out: Vec<Group> = Vec::new();
                    let mut i: usize = 0;
                    while i < groups.len()
                        invariant
                            i <= groups@.len(),
                            groups.deep_view() == stored,
                            out@.len() == i as int,
                            forall|j: int|
                                0 <= j < i ==> out@[j]@ == stored[j].without_members(),
                        decreases groups@.len() - i,
                    {
                        let mut g = groups[i].clone();
                        g.members = None;
                        proof {
                            assert(g@ =~= stored[i as int].without_members());
                        }
                        out.push(g);
                        i += 1;
                    }
                    proof {
                        assert(out.deep_view() =~= stored.map_values(
                            |g: GroupView| g.without_members(),
                        ));
                    }
                    ProviderResult::Success(out)
                }
            },
            None => ProviderResult::Failed,
        }
    }

    pub fn read_group(&self, id: &str) -> (r: ProviderResult<Group>)
        ensures
            (match self@.lookup_group(id@) {
                Some(v) => r matches ProviderResult::Success(g) && g@ == v,
                None => r is Failed,
            }),
    {
        match self.groups.get(id) {
            Some(g) => ProviderResult::Success(g.clone()),
            None => ProviderResult::Failed,
        }
    }

    pub fn read_group_members(&self, id: &str) -> (r: ProviderResult<Vec<Member>>)
        ensures
            (match self@.lookup_group_members(id@) {
                Some(v) => r matches ProviderResult::Success(ms) && ms.deep_view() == v,
                None => r is Failed,
            }),
    {
        match self.group_members.get(id) {
            Some(ms) => ProviderResult::Success(copy_member_list(ms)),
            None => ProviderResult::Failed,
        }
    }

    /// The store keeps no switch history, so a pagination query is a shape
    /// it structurally cannot answer.
    pub fn read_system_switches(&self, id: &str, before: &str, limit: u64) -> (r: ProviderResult<
        Vec<Switch>,
    >)
        ensures
            r is NotImplemented,
    {
        let _ = id;
        let _ = before;
        let _ = limit;
        ProviderResult::NotImplemented
    }

    pub fn read_system_active_switch(&self, id: &str, switch_id: &str) -> (r: ProviderResult<
        Switch,
    >)
        ensures
            (match self@.lookup_system_active_switch(id@, switch_id@) {
                Some(v) => r matches ProviderResult::Success(s) && s@ == v,
                None => r is Failed,
            }),
    {
        match self.system_active_switch.get(id, switch_id) {
            Some(s) => ProviderResult::Success(s.clone()),
            None => ProviderResult::Failed,
        }
    }

    pub fn read_switch(&self, id: &str, switch_id: &str) -> (r: ProviderResult<Switch>)
        ensures
            (match self@.lookup_switch(id@, switch_id@) {
                Some(v) => r matches ProviderResult::Success(s) && s@ == v,
                None => r is Failed,
            }),
    {
        match self.switches.get(id, switch_id) {
            Some(s) => ProviderResult::Success(s.clone()),
            None => ProviderResult::Failed,
        }
    }

    pub fn read_message(&self, id: &str) -> (r: ProviderResult<Message>)
        ensures
            (match self@.lookup_message(id@) {
                Some(v) => r matches ProviderResult::Success(m) && m@ == v,
                None => r is Failed,
            }),
    {
        match self.messages.get(id) {
            Some(m) => ProviderResult::Success(m.clone()),
            None => ProviderResult::Failed,
        }
    }
}

impl Notifier for InMemoryCache {
    open spec fn model(&self) -> CacheView {
        self@
    }

    fn notify_system(&mut self, system: &System) {
        self.systems.insert(system.id.clone(), system.clone());
        proof {
            assert(self@ =~= old(self)@.record_system(*system));
        }
    }

    fn notify_system_settings(&mut self, system: &str, settings: &SystemSettings) {
        self.system_settings.insert(system.to_owned(), settings.clone());
        proof {
            assert(self@ =~= old(self)@.record_system_settings(system@, *settings));
        }
    }

    fn notify_system_guild_settings(
        &mut self,
        system: &str,
        guild: &str,
        settings: &SystemGuildSettings,
    ) {
        self.system_guild_settings.insert(system.to_owned(), guild.to_owned(), settings.clone());
        proof {
            assert(self@ =~= old(self)@.record_system_guild_settings(system@, guild@, *settings));
        }
    }

    fn notify_system_autoproxy(&mut self, system: &str, settings: &AutoproxySettings) {
        self.system_autoproxy.insert(system.to_owned(), settings.clone());
        proof {
            assert(self@ =~= old(self)@.record_system_autoproxy(system@, *settings));
        }
    }

    fn notify_system_members(&mut self, system: &str, members: &Vec<Member>) {
        let mut i: usize = 0;
        proof {
            assert(members.deep_view().take(0) =~= Seq::<MemberView>::empty());
            assert(self@ =~= (CacheView {
                members: index_members(old(self)@.members, members.deep_view().take(0)),
                ..old(self)@
            }));
        }
        while i < members.len()
            invariant
                i <= members@.len(),
                (self@ == CacheView {
                    members: index_members(
                        old(self)@.members,
                        members.deep_view().take(i as int),
                    ),
                    ..old(self)@
                }),
            decreases members@.len() - i,
        {
            let m = &members[i];
            self.members.insert(m.id.clone(), m.clone());
            proof {
                let s = members.deep_view();
                assert(s.take(i as int + 1).drop_last() =~= s.take(i as int));
                assert(s.take(i as int + 1).last() == s[i as int]);
                assert(self@ =~= (CacheView {
                    members: index_members(old(self)@.members, s.take(i as int + 1)),
                    ..old(self)@
                }));
            }
            i += 1;
        }
        self.system_members.insert(system.to_owned(), copy_member_list(members));
        proof {
            assert(members.deep_view().take(members@.len() as int) =~= members.deep_view());
            assert(self@ =~= old(self)@.record_system_members(system@, members.deep_view()));
        }
    }

    fn notify_member(&mut self, member: &Member) {
        self.members.insert(member.id.clone(), member.clone());
        proof {
            assert(self@ =~= old(self)@.record_member(member@));
        }
    }

    fn notify_member_groups(&mut self, member: &str, groups: &Vec<Group>) {
        let mut i: usize = 0;
        proof {
            assert(groups.deep_view().take(0) =~= Seq::<GroupView>::empty());
            assert(self@ =~= (CacheView {
                groups: index_groups(
                    old(self)@.groups,
                    groups.deep_view().take(0),
                ),
                ..old(self)@
            }));
        }
        while i < groups.len()
            invariant
                i <= groups@.len(),
                (self@ == CacheView {
                    groups: index_groups(
                        old(self)@.groups,
                        groups.deep_view().take(i as int),
                    ),
                    ..old(self)@
                }),
            decreases groups@.len() - i,
        {
            let g = &groups[i];
            self.groups.insert(g.id.clone(), g.clone());
            proof {
                let s = groups.deep_view();
                assert(s.take(i as int + 1).drop_last() =~= s.take(i as int));
                assert(s.take(i as int + 1).last() == s[i as int]);
                assert(self@ =~= (CacheView {
                    groups: index_groups(old(self)@.groups, s.take(i as int + 1)),
                    ..old(self)@
                }));
            }
            i += 1;
        }
        self.member_groups.insert(member.to_owned(), copy_group_list(groups));
        proof {
            assert(groups.deep_view().take(groups@.len() as int) =~= groups.deep_view());
            assert(self@ =~= old(self)@.record_member_groups(member@, groups.deep_view()));
        }
    }

    fn notify_member_guild_settings(
        &mut self,
        member: &str,
        guild: &str,
        settings: &MemberGuildSettings,
    ) {
        self.member_guild_settings.insert(member.to_owned(), guild.to_owned(), settings.clone());
        proof {
            assert(self@ =~= old(self)@.record_member_guild_settings(member@, guild@, *settings));
        }
    }

    fn notify_system_groups(&mut self, system: &str, groups: &Vec<Group>) {
        let mut i: usize = 0;
        proof {
            assert(groups.deep_view().take(0) =~= Seq::<GroupView>::empty());
            assert(self@ =~= (CacheView {
                groups: index_groups(
                    old(self)@.groups,
                    groups.deep_view().take(0),
                ),
                ..old(self)@
            }));
        }
        while i < groups.len()
            invariant
                i <= groups@.len(),
                (self@ == CacheView {
                    groups: index_groups(
                        old(self)@.groups,
                        groups.deep_view().take(i as int),
                    ),
                    ..old(self)@
                }),
            decreases groups@.len() - i,
        {
            let g = &groups[i];
            self.groups.insert(g.id.clone(), g.clone());
            proof {
                let s = groups.deep_view();
                assert(s.take(i as int + 1).drop_last() =~= s.take(i as int));
                assert(s.take(i as int + 1).last() == s[i as int]);
                assert(self@ =~= (CacheView {
                    groups: index_groups(old(self)@.groups, s.take(i as int + 1)),
                    ..old(self)@
                }));
            }
            i += 1;
        }
        self.system_groups.insert(system.to_owned(), copy_group_list(groups));
        proof {
            assert(groups.deep_view().take(groups@.len() as int) =~= groups.deep_view());
            assert(self@ =~= old(self)@.record_system_groups(system@, groups.deep_view()));
        }
    }

    fn notify_group(&mut self, group: &Group) {
        self.groups.insert(group.id.clone(), group.clone());
        proof {
            assert(self@ =~= old(self)@.record_group(group@));
        }
    }

    fn notify_group_members(&mut self, group: &str, members: &Vec<Member>) {
        let mut i: usize = 0;
        proof {
            assert(members.deep_view().take(0) =~= Seq::<MemberView>::empty());
            assert(self@ =~= (CacheView {
                members: index_members(old(self)@.members, members.deep_view().take(0)),
                ..old(self)@
            }));
        }
        while i < members.len()
            invariant
                i <= members@.len(),
                (self@ == CacheView {
                    members: index_members(
                        old(self)@.members,
                        members.deep_view().take(i as int),
                    ),
                    ..old(self)@
                }),
            decreases members@.len() - i,
        {
            let m = &members[i];
            self.members.insert(m.id.clone(), m.clone());
            proof {
                let s = members.deep_view();
                assert(s.take(i as int + 1).drop_last() =~= s.take(i as int));
                assert(s.take(i as int + 1).last() == s[i as int]);
                assert(self@ =~= (CacheView {
                    members: index_members(old(self)@.members, s.take(i as int + 1)),
                    ..old(self)@
                }));
            }
            i += 1;
        }
        self.group_members.insert(group.to_owned(), copy_member_list(members));
        proof {
            assert(members.deep_view().take(members@.len() as int) =~= members.deep_view());
            assert(self@ =~= old(self)@.record_group_members(group@, members.deep_view()));
        }
    }

    fn notify_system_switches(&mut self, system: &str, switches: &Vec<Switch>) {
        let mut i: usize = 0;
        proof {
            assert(switches.deep_view().take(0) =~= Seq::<crate::models::SwitchView>::empty());
            assert(self@ =~= (CacheView {
                switches: index_switches(old(self)@.switches, system@, switches.deep_view().take(0)),
                ..old(self)@
            }));
        }
        while i < switches.len()
            invariant
                i <= switches@.len(),
                (self@ == CacheView {
                    switches: index_switches(
                        old(self)@.switches,
                        system@,
                        switches.deep_view().take(i as int),
                    ),
                    ..old(self)@
                }),
            decreases switches@.len() - i,
        {
            let sw = &switches[i];
            self.switches.insert(system.to_owned(), sw.id.clone(), sw.clone());
            proof {
                let s = switches.deep_view();
                assert(s.take(i as int + 1).drop_last() =~= s.take(i as int));
                assert(s.take(i as int + 1).last() == s[i as int]);
                assert(self@ =~= (CacheView {
                    switches: index_switches(old(self)@.switches, system@, s.take(i as int + 1)),
                    ..old(self)@
                }));
            }
            i += 1;
        }
        proof {
            assert(switches.deep_view().take(switches@.len() as int) =~= switches.deep_view());
            assert(self@ =~= old(self)@.record_system_switches(system@, switches.deep_view()));
        }
    }

    fn notify_system_active_switch(&mut self, system: &str, switch: &Switch) {
        self.system_active_switch.insert(system.to_owned(), switch.id.clone(), switch.clone());
        proof {
            assert(self@ =~= old(self)@.record_system_active_switch(system@, switch@));
        }
    }

    fn notify_switch(&mut self, system: &str, switch: &Switch) {
        self.switches.insert(system.to_owned(), switch.id.clone(), switch.clone());
        proof {
            assert(self@ =~= old(self)@.record_switch(system@, switch@));
        }
    }

    fn notify_message(&mut self, message: &Message) {
        self.messages.insert(message.id.clone(), message.clone());
        proof {
            assert(self@ =~= old(self)@.record_message(message@));
        }
    }
}

impl Provider for InMemoryCache {
    fn get_system(&mut self, id: &str) -> ProviderResult<System> {
        self.read_system(id)
    }

    fn get_system_settings(&mut self, id: &str) -> ProviderResult<SystemSettings> {
        self.read_system_settings(id)
    }

    fn get_system_guild_settings(&mut self, id: &str, guild: &str) -> ProviderResult<
        SystemGuildSettings,
    > {
        self.read_system_guild_settings(id, guild)
    }

    fn get_system_autoproxy(&mut self, id: &str) -> ProviderResult<AutoproxySettings> {
        self.read_system_autoproxy(id)
    }

    fn get_system_members(&mut self, id: &str) -> ProviderResult<Vec<Member>> {
        self.read_system_members(id)
    }

    fn get_member(&mut self, id: &str) -> ProviderResult<Member> {
        self.read_member(id)
    }

    fn get_member_groups(&mut self, id: &str) -> ProviderResult<Vec<Group>> {
        self.read_member_groups(id)
    }

    fn get_member_guild_settings(&mut self, id: &str, guild: &str) -> ProviderResult<
        MemberGuildSettings,
    > {
        self.read_member_guild_settings(id, guild)
    }

    fn get_system_groups(&mut self, id: &str, with_member: bool) -> ProviderResult<Vec<Group>> {
        self.read_system_groups(id, with_member)
    }

    fn get_group(&mut self, id: &str) -> ProviderResult<Group> {
        self.read_group(id)
    }

    fn get_group_members(&mut self, id: &str) -> ProviderResult<Vec<Member>> {
        self.read_group_members(id)
    }

    fn get_system_switches(&mut self, id: &str, before: &str, limit: u64) -> ProviderResult<
        Vec<Switch>,
    > {
        self.read_system_switches(id, before, limit)
    }

    fn get_system_active_switch(&mut self, id: &str, switch_id: &str) -> ProviderResult<Switch> {
        self.read_system_active_switch(id, switch_id)
    }

    fn get_switch(&mut self, id: &str, switch_id: &str) -> ProviderResult<Switch> {
        self.read_switch(id, switch_id)
    }

    fn get_message(&mut self, id: &str) -> ProviderResult<Message> {
        self.read_message(id)
    }
}

} // verus!
