//! The abstract state of the in-memory store and the rules by which
//! notifications write to it and reads are served from it.
//!
//! Every contract of the store and of the observer capability is phrased
//! over this model: `record_*` says what a notification writes, `lookup_*`
//! says what a read serves.

use vstd::prelude::*;
use crate::models::{
    AutoproxySettings, GroupView, MemberGuildSettings, MemberView, MessageView, SwitchView, System,
    SystemGuildSettings, SystemSettings,
};

verus! {

/// One mathematical map per entity kind.
#[verifier::ext_equal]
pub struct CacheView {
    pub systems: Map<Seq<char>, System>,
    pub system_settings: Map<Seq<char>, SystemSettings>,
    pub system_guild_settings: Map<(Seq<char>, Seq<char>), SystemGuildSettings>,
    pub system_autoproxy: Map<Seq<char>, AutoproxySettings>,
    pub system_members: Map<Seq<char>, Seq<MemberView>>,
    pub members: Map<Seq<char>, MemberView>,
    pub member_groups: Map<Seq<char>, Seq<GroupView>>,
    pub member_guild_settings: Map<(Seq<char>, Seq<char>), MemberGuildSettings>,
    pub system_groups: Map<Seq<char>, Seq<GroupView>>,
    pub groups: Map<Seq<char>, GroupView>,
    pub group_members: Map<Seq<char>, Seq<MemberView>>,
    pub system_active_switch: Map<(Seq<char>, Seq<char>), SwitchView>,
    pub switches: Map<(Seq<char>, Seq<char>), SwitchView>,
    pub messages: Map<Seq<char>, MessageView>,
}

/// Indexes every member of a list under its own id; a later entry shadows
/// an earlier one with the same id.
pub open spec fn index_members(
    m: Map<Seq<char>, MemberView>,
    s: Seq<MemberView>,
) -> Map<Seq<char>, MemberView>
    decreases s.len(),
{
    if s.len() == 0 {
        m
    } else {
        index_members(m, s.drop_last()).insert(s.last().id@, s.last())
    }
}

/// Indexes every group of a list under its own id.
pub open spec fn index_groups(
    m: Map<Seq<char>, GroupView>,
    s: Seq<GroupView>,
) -> Map<Seq<char>, GroupView>
    decreases s.len(),
{
    if s.len() == 0 {
        m
    } else {
        index_groups(m, s.drop_last()).insert(s.last().id@, s.last())
    }
}

/// Indexes every switch of a list under the composite (system, switch) key.
pub open spec fn index_switches(
    m: Map<(Seq<char>, Seq<char>), SwitchView>,
    system: Seq<char>,
    s: Seq<SwitchView>,
) -> Map<(Seq<char>, Seq<char>), SwitchView>
    decreases s.len(),
{
    if s.len() == 0 {
        m
    } else {
        index_switches(m, system, s.drop_last()).insert((system, s.last().id@), s.last())
    }
}

impl CacheView {
    /// The state of a freshly created store.
    pub open spec fn empty() -> CacheView {
        CacheView {
            systems: Map::empty(),
            system_settings: Map::empty(),
            system_guild_settings: Map::empty(),
            system_autoproxy: Map::empty(),
            system_members: Map::empty(),
            members: Map::empty(),
            member_groups: Map::empty(),
            member_guild_settings: Map::empty(),
            system_groups: Map::empty(),
            groups: Map::empty(),
            group_members: Map::empty(),
            system_active_switch: Map::empty(),
            switches: Map::empty(),
            messages: Map::empty(),
        }
    }

    pub open spec fn record_system(self, s: System) -> CacheView {
        CacheView { systems: self.systems.insert(s.id@, s), ..self }
    }

    pub open spec fn record_system_settings(
        self,
        system: Seq<char>,
        v: SystemSettings,
    ) -> CacheView {
        CacheView { system_settings: self.system_settings.insert(system, v), ..self }
    }

    pub open spec fn record_system_guild_settings(
        self,
        system: Seq<char>,
        guild: Seq<char>,
        v: SystemGuildSettings,
    ) -> CacheView {
        CacheView {
            system_guild_settings: self.system_guild_settings.insert((system, guild), v),
            ..self
        }
    }

    pub open spec fn record_system_autoproxy(
        self,
        system: Seq<char>,
        v: AutoproxySettings,
    ) -> CacheView {
        CacheView { system_autoproxy: self.system_autoproxy.insert(system, v), ..self }
    }

    /// Records a system's member list and indexes each listed member under
    /// its own id.
    pub open spec fn record_system_members(
        self,
        system: Seq<char>,
        ms: Seq<MemberView>,
    ) -> CacheView {
        CacheView {
            system_members: self.system_members.insert(system, ms),
            members: index_members(self.members, ms),
            ..self
        }
    }

    pub open spec fn record_member(self, m: MemberView) -> CacheView {
        CacheView { members: self.members.insert(m.id@, m), ..self }
    }

    /// Records a member's group list and indexes each listed group under
    /// its own id.
    pub open spec fn record_member_groups(
        self,
        member: Seq<char>,
        gs: Seq<GroupView>,
    ) -> CacheView {
        CacheView {
            member_groups: self.member_groups.insert(member, gs),
            groups: index_groups(self.groups, gs),
            ..self
        }
    }

    pub open spec fn record_member_guild_settings(
        self,
        member: Seq<char>,
        guild: Seq<char>,
        v: MemberGuildSettings,
    ) -> CacheView {
        CacheView {
            member_guild_settings: self.member_guild_settings.insert((member, guild), v),
            ..self
        }
    }

    /// Records a system's group list and indexes each listed group under
    /// its own id.
    pub open spec fn record_system_groups(
        self,
        system: Seq<char>,
        gs: Seq<GroupView>,
    ) -> CacheView {
        CacheView {
            system_groups: self.system_groups.insert(system, gs),
            groups: index_groups(self.groups, gs),
            ..self
        }
    }

    pub open spec fn record_group(self, g: GroupView) -> CacheView {
        CacheView { groups: self.groups.insert(g.id@, g), ..self }
    }

    /// Records a group's member list and indexes each listed member under
    /// its own id.
    pub open spec fn record_group_members(
        self,
        group: Seq<char>,
        ms: Seq<MemberView>,
    ) -> CacheView {
        CacheView {
            group_members: self.group_members.insert(group, ms),
            members: index_members(self.members, ms),
            ..self
        }
    }

    /// Records every switch of a history page under its composite key;
    /// there is no dedicated history structure, only point lookups.
    pub open spec fn record_system_switches(
        self,
        system: Seq<char>,
        ss: Seq<SwitchView>,
    ) -> CacheView {
        CacheView { switches: index_switches(self.switches, system, ss), ..self }
    }

    pub open spec fn record_system_active_switch(
        self,
        system: Seq<char>,
        sw: SwitchView,
    ) -> CacheView {
        CacheView {
            system_active_switch: self.system_active_switch.insert((system, sw.id@), sw),
            ..self
        }
    }

    pub open spec fn record_switch(self, system: Seq<char>, sw: SwitchView) -> CacheView {
        CacheView { switches: self.switches.insert((system, sw.id@), sw), ..self }
    }

    pub open spec fn record_message(self, msg: MessageView) -> CacheView {
        CacheView { messages: self.messages.insert(msg.id@, msg), ..self }
    }

    pub open spec fn lookup_system(self, id: Seq<char>) -> Option<System> {
        if self.systems.contains_key(id) {
            Some(self.systems[id])
        } else {
            None
        }
    }

    pub open spec fn lookup_system_settings(self, id: Seq<char>) -> Option<SystemSettings> {
        if self.system_settings.contains_key(id) {
            Some(self.system_settings[id])
        } else {
            None
        }
    }

    pub open spec fn lookup_system_guild_settings(
        self,
        id: Seq<char>,
        guild: Seq<char>,
    ) -> Option<SystemGuildSettings> {
        if self.system_guild_settings.contains_key((id, guild)) {
            Some(self.system_guild_settings[(id, guild)])
        } else {
            None
        }
    }

    pub open spec fn lookup_system_autoproxy(self, id: Seq<char>) -> Option<AutoproxySettings> {
        if self.system_autoproxy.contains_key(id) {
            Some(self.system_autoproxy[id])
        } else {
            None
        }
    }

    pub open spec fn lookup_system_members(self, id: Seq<char>) -> Option<Seq<MemberView>> {
        if self.system_members.contains_key(id) {
            Some(self.system_members[id])
        } else {
            None
        }
    }

    pub open spec fn lookup_member(self, id: Seq<char>) -> Option<MemberView> {
        if self.members.contains_key(id) {
            Some(self.members[id])
        } else {
            None
        }
    }

    pub open spec fn lookup_member_groups(self, id: Seq<char>) -> Option<Seq<GroupView>> {
        if self.member_groups.contains_key(id) {
            Some(self.member_groups[id])
        } else {
            None
        }
    }

    pub open spec fn lookup_member_guild_settings(
        self,
        id: Seq<char>,
        guild: Seq<char>,
    ) -> Option<MemberGuildSettings> {
        if self.member_guild_settings.contains_key((id, guild)) {
            Some(self.member_guild_settings[(id, guild)])
        } else {
            None
        }
    }

    /// A stored group listing answers a with-member query only if every
    /// group in it carries embedded member data; without the flag, the
    /// served copy has every group's member field cleared.
    pub open spec fn lookup_system_groups(
        self,
        id: Seq<char>,
        with_member: bool,
    ) -> Option<Seq<GroupView>> {
        if self.system_groups.contains_key(id) {
            let gs = self.system_groups[id];
            if with_member {
                if forall|i: int| 0 <= i < gs.len() ==> gs[i].members is Some {
                    Some(gs)
                } else {
                    None
                }
            } else {
                Some(gs.map_values(|g: GroupView| g.without_members()))
            }
        } else {
            None
        }
    }

    pub open spec fn lookup_group(self, id: Seq<char>) -> Option<GroupView> {
        if self.groups.contains_key(id) {
            Some(self.groups[id])
        } else {
            None
        }
    }

    pub open spec fn lookup_group_members(self, id: Seq<char>) -> Option<Seq<MemberView>> {
        if self.group_members.contains_key(id) {
            Some(self.group_members[id])
        } else {
            None
        }
    }

    pub open spec fn lookup_system_active_switch(
        self,
        id: Seq<char>,
        switch_id: Seq<char>,
    ) -> Option<SwitchView> {
        if self.system_active_switch.contains_key((id, switch_id)) {
            Some(self.system_active_switch[(id, switch_id)])
        } else {
            None
        }
    }

    pub open spec fn lookup_switch(self, id: Seq<char>, switch_id: Seq<char>) -> Option<SwitchView> {
        if self.switches.contains_key((id, switch_id)) {
            Some(self.switches[(id, switch_id)])
        } else {
            None
        }
    }

    pub open spec fn lookup_message(self, id: Seq<char>) -> Option<MessageView> {
        if self.messages.contains_key(id) {
            Some(self.messages[id])
        } else {
            None
        }
    }
}

// Round-trip laws: recording a value under a key and then reading that key
// back from the store yields exactly the recorded value.

/// Law: round trip for systems.
pub proof fn lemma_round_trip_system(c: CacheView, s: System)
    ensures
        c.record_system(s).lookup_system(s.id@) == Some(s),
{
}

/// Law: round trip for system settings.
pub proof fn lemma_round_trip_system_settings(c: CacheView, id: Seq<char>, v: SystemSettings)
    ensures
        c.record_system_settings(id, v).lookup_system_settings(id) == Some(v),
{
}

/// Law: round trip for per-guild system settings.
pub proof fn lemma_round_trip_system_guild_settings(
    c: CacheView,
    id: Seq<char>,
    guild: Seq<char>,
    v: SystemGuildSettings,
)
    ensures
        c.record_system_guild_settings(id, guild, v).lookup_system_guild_settings(id, guild)
            == Some(v),
{
}

/// Law: round trip for autoproxy settings.
pub proof fn lemma_round_trip_system_autoproxy(c: CacheView, id: Seq<char>, v: AutoproxySettings)
    ensures
        c.record_system_autoproxy(id, v).lookup_system_autoproxy(id) == Some(v),
{
}

/// Law: round trip for a system's member list.
pub proof fn lemma_round_trip_system_members(c: CacheView, id: Seq<char>, ms: Seq<MemberView>)
    ensures
        c.record_system_members(id, ms).lookup_system_members(id) == Some(ms),
{
}

/// Law: round trip for members.
pub proof fn lemma_round_trip_member(c: CacheView, m: MemberView)
    ensures
        c.record_member(m).lookup_member(m.id@) == Some(m),
{
}

/// Law: round trip for a member's group list.
pub proof fn lemma_round_trip_member_groups(c: CacheView, id: Seq<char>, gs: Seq<GroupView>)
    ensures
        c.record_member_groups(id, gs).lookup_member_groups(id) == Some(gs),
{
}

/// Law: round trip for per-guild member settings.
pub proof fn lemma_round_trip_member_guild_settings(
    c: CacheView,
    id: Seq<char>,
    guild: Seq<char>,
    v: MemberGuildSettings,
)
    ensures
        c.record_member_guild_settings(id, guild, v).lookup_member_guild_settings(id, guild)
            == Some(v),
{
}

/// Law: round trip for groups.
pub proof fn lemma_round_trip_group(c: CacheView, g: GroupView)
    ensures
        c.record_group(g).lookup_group(g.id@) == Some(g),
{
}

/// Law: round trip for a group's member list.
pub proof fn lemma_round_trip_group_members(c: CacheView, id: Seq<char>, ms: Seq<MemberView>)
    ensures
        c.record_group_members(id, ms).lookup_group_members(id) == Some(ms),
{
}

/// Law: round trip for a system's active switch.
pub proof fn lemma_round_trip_system_active_switch(c: CacheView, id: Seq<char>, sw: SwitchView)
    ensures
        c.record_system_active_switch(id, sw).lookup_system_active_switch(id, sw.id@) == Some(sw),
{
}

/// Law: round trip for switches.
pub proof fn lemma_round_trip_switch(c: CacheView, id: Seq<char>, sw: SwitchView)
    ensures
        c.record_switch(id, sw).lookup_switch(id, sw.id@) == Some(sw),
{
}

/// Law: round trip for messages.
pub proof fn lemma_round_trip_message(c: CacheView, msg: MessageView)
    ensures
        c.record_message(msg).lookup_message(msg.id@) == Some(msg),
{
}

/// Law: notifications are idempotent; repeating an identical recording
/// leaves the store state unchanged.
pub proof fn lemma_record_member_idempotent(c: CacheView, m: MemberView)
    ensures
        c.record_member(m).record_member(m) == c.record_member(m),
{
    assert(c.record_member(m).record_member(m) =~= c.record_member(m));
}

/// Law: notifications overwrite; after two recordings under one id, a
/// lookup serves the later one.
pub proof fn lemma_record_member_overwrites(c: CacheView, a: MemberView, b: MemberView)
    requires
        a.id@ == b.id@,
    ensures
        c.record_member(a).record_member(b).lookup_member(b.id@) == Some(b),
{
}

/// Law: a stored group listing in which some group lacks embedded member
/// data is a miss for a with-member query, while the same listing without
/// the flag is served with every group's member field cleared, even though
/// the stored copy keeps it.
pub proof fn lemma_system_groups_member_data(c: CacheView, id: Seq<char>, i: int)
    requires
        c.system_groups.contains_key(id),
        0 <= i < c.system_groups[id].len(),
        c.system_groups[id][i].members is None,
    ensures
        c.lookup_system_groups(id, true) is None,
        c.lookup_system_groups(id, false) == Some(
            c.system_groups[id].map_values(|g: GroupView| g.without_members()),
        ),
{
    let gs = c.system_groups[id];
    assert(!(forall|j: int| 0 <= j < gs.len() ==> gs[j].members is Some)) by {
        assert(gs[i].members is None);
    }
}

/// An indexing pass makes each listed entity retrievable under its own id,
/// provided no later entry of the list reuses that id.
proof fn lemma_index_members_hit(m: Map<Seq<char>, MemberView>, s: Seq<MemberView>, i: int)
    requires
        0 <= i < s.len(),
        forall|j: int| i < j < s.len() ==> s[j].id@ != s[i].id@,
    ensures
        index_members(m, s).contains_key(s[i].id@),
        index_members(m, s)[s[i].id@] == s[i],
    decreases s.len(),
{
    if i == s.len() - 1 {
    } else {
        lemma_index_members_hit(m, s.drop_last(), i);
    }
}

/// An indexing pass makes each listed group retrievable under its own id,
/// provided no later entry of the list reuses that id.
proof fn lemma_index_groups_hit(m: Map<Seq<char>, GroupView>, s: Seq<GroupView>, i: int)
    requires
        0 <= i < s.len(),
        forall|j: int| i < j < s.len() ==> s[j].id@ != s[i].id@,
    ensures
        index_groups(m, s).contains_key(s[i].id@),
        index_groups(m, s)[s[i].id@] == s[i],
    decreases s.len(),
{
    if i == s.len() - 1 {
    } else {
        lemma_index_groups_hit(m, s.drop_last(), i);
    }
}

/// Law: recording a system's member list also records each listed member
/// individually, so a later single-member lookup is a hit (a later list
/// entry with the same id wins, so the law asks that the id not recur).
pub proof fn lemma_system_members_indexed(
    c: CacheView,
    system: Seq<char>,
    ms: Seq<MemberView>,
    i: int,
)
    requires
        0 <= i < ms.len(),
        forall|j: int| i < j < ms.len() ==> ms[j].id@ != ms[i].id@,
    ensures
        c.record_system_members(system, ms).lookup_member(ms[i].id@) == Some(ms[i]),
{
    lemma_index_members_hit(c.members, ms, i);
}

/// Law: recording a group's member list also records each listed member
/// individually.
pub proof fn lemma_group_members_indexed(
    c: CacheView,
    group: Seq<char>,
    ms: Seq<MemberView>,
    i: int,
)
    requires
        0 <= i < ms.len(),
        forall|j: int| i < j < ms.len() ==> ms[j].id@ != ms[i].id@,
    ensures
        c.record_group_members(group, ms).lookup_member(ms[i].id@) == Some(ms[i]),
{
    lemma_index_members_hit(c.members, ms, i);
}

/// Law: recording a member's group list also records each listed group
/// individually.
pub proof fn lemma_member_groups_indexed(
    c: CacheView,
    member: Seq<char>,
    gs: Seq<GroupView>,
    i: int,
)
    requires
        0 <= i < gs.len(),
        forall|j: int| i < j < gs.len() ==> gs[j].id@ != gs[i].id@,
    ensures
        c.record_member_groups(member, gs).lookup_group(gs[i].id@) == Some(gs[i]),
{
    lemma_index_groups_hit(c.groups, gs, i);
}

/// Law: recording a system's group list also records each listed group
/// individually.
pub proof fn lemma_system_groups_indexed(
    c: CacheView,
    system: Seq<char>,
    gs: Seq<GroupView>,
    i: int,
)
    requires
        0 <= i < gs.len(),
        forall|j: int| i < j < gs.len() ==> gs[j].id@ != gs[i].id@,
    ensures
        c.record_system_groups(system, gs).lookup_group(gs[i].id@) == Some(gs[i]),
{
    lemma_index_groups_hit(c.groups, gs, i);
}

} // verus!
