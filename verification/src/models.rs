//! The entity records served by the facade, together with their
//! specification-level views.
//!
//! Types whose fields are strings, numbers and small enums are their own
//! view: cloning such a value yields a value that is equal to the original
//! at the specification level. Types that contain a `Vec` get a distinct
//! view type in which each `Vec` is replaced by a `Seq` of element views,
//! because two vectors with equal contents are distinguishable values.

use vstd::prelude::*;

verus! {

#[derive(Clone, Copy, Debug, PartialEq, Eq)]
pub enum PrivacyKey {
    PRIVATE,
    PUBLIC,
}

#[derive(Clone, Copy, Debug, PartialEq, Eq)]
pub enum AutoproxyMode {
    OFF,
    FRONT,
    LATCH,
    MEMBER,
}

#[derive(Clone, Copy, Debug, PartialEq, Eq)]
pub struct SystemPrivacy {
    pub description_privacy: Option<PrivacyKey>,
    pub pronoun_privacy: Option<PrivacyKey>,
    pub member_list_privacy: Option<PrivacyKey>,
    pub group_list_privacy: Option<PrivacyKey>,
    pub front_privacy: Option<PrivacyKey>,
    pub front_history_privacy: Option<PrivacyKey>,
}

#[derive(Clone, Copy, Debug, PartialEq, Eq)]
pub struct MemberPrivacy {
    pub visibility: Option<PrivacyKey>,
    pub name_privacy: Option<PrivacyKey>,
    pub description_privacy: Option<PrivacyKey>,
    pub birthday_privacy: Option<PrivacyKey>,
    pub pronoun_privacy: Option<PrivacyKey>,
    pub avatar_privacy: Option<PrivacyKey>,
    pub metadata_privacy: Option<PrivacyKey>,
}

#[derive(Clone, Copy, Debug, PartialEq, Eq)]
pub struct GroupPrivacy {
    pub name_privacy: Option<PrivacyKey>,
    pub description_privacy: Option<PrivacyKey>,
    pub icon_privacy: Option<PrivacyKey>,
    pub list_privacy: Option<PrivacyKey>,
    pub metadata_privacy: Option<PrivacyKey>,
    pub visibility: Option<PrivacyKey>,
}

fn clone_opt_string(s: &Option<String>) -> (r: Option<String>)
    ensures
        r == *s,
{
    match s {
        Some(x) => Some(x.clone()),
        None => None,
    }
}

#[derive(Debug, PartialEq)]
pub struct System {
    pub id: String,
    pub uuid: String,
    pub name: Option<String>,
    pub description: Option<String>,
    pub tag: Option<String>,
    pub pronouns: Option<String>,
    pub avatar_url: Option<String>,
    pub banner: Option<String>,
    pub color: Option<String>,
    pub created: Option<String>,
    pub privacy: Option<SystemPrivacy>,
}

impl Clone for System {
    fn clone(&self) -> (r: Self)
        ensures
            r == *self,
    {
        System {
            id: self.id.clone(),
            uuid: self.uuid.clone(),
            name: clone_opt_string(&self.name),
            description: clone_opt_string(&self.description),
            tag: clone_opt_string(&self.tag),
            pronouns: clone_opt_string(&self.pronouns),
            avatar_url: clone_opt_string(&self.avatar_url),
            banner: clone_opt_string(&self.banner),
            color: clone_opt_string(&self.color),
            created: clone_opt_string(&self.created),
            privacy: self.privacy,
        }
    }
}

#[derive(Debug, PartialEq)]
pub struct SystemSettings {
    pub timezone: String,
    pub pings_enabled: bool,
    pub latch_timeout: Option<i64>,
    pub member_default_privacy: bool,
    pub group_default_privacy: bool,
    pub show_private_info: bool,
    pub member_limit: i64,
    pub group_limit: i64,
}

impl Clone for SystemSettings {
    fn clone(&self) -> (r: Self)
        ensures
            r == *self,
    {
        SystemSettings {
            timezone: self.timezone.clone(),
            pings_enabled: self.pings_enabled,
            latch_timeout: self.latch_timeout,
            member_default_privacy: self.member_default_privacy,
            group_default_privacy: self.group_default_privacy,
            show_private_info: self.show_private_info,
            member_limit: self.member_limit,
            group_limit: self.group_limit,
        }
    }
}

#[derive(Debug, PartialEq)]
pub struct SystemGuildSettings {
    pub guild_id: Option<String>,
    pub proxying_enabled: bool,
    pub tag: Option<String>,
    pub tag_enabled: bool,
}

impl Clone for SystemGuildSettings {
    fn clone(&self) -> (r: Self)
        ensures
            r == *self,
    {
        SystemGuildSettings {
            guild_id: clone_opt_string(&self.guild_id),
            proxying_enabled: self.proxying_enabled,
            tag: clone_opt_string(&self.tag),
            tag_enabled: self.tag_enabled,
        }
    }
}

#[derive(Debug, PartialEq)]
pub struct AutoproxySettings {
    pub autoproxy_mode: AutoproxyMode,
    pub autoproxy_member: Option<String>,
    pub last_latch_timestamp: Option<String>,
}

impl Clone for AutoproxySettings {
    fn clone(&self) -> (r: Self)
        ensures
            r == *self,
    {
        AutoproxySettings {
            autoproxy_mode: self.autoproxy_mode,
            autoproxy_member: clone_opt_string(&self.autoproxy_member),
            last_latch_timestamp: clone_opt_string(&self.last_latch_timestamp),
        }
    }
}

#[derive(Debug, PartialEq)]
pub struct MemberGuildSettings {
    pub guild_id: Option<String>,
    pub display_name: Option<String>,
    pub avatar_url: Option<String>,
}

impl Clone for MemberGuildSettings {
    fn clone(&self) -> (r: Self)
        ensures
            r == *self,
    {
        MemberGuildSettings {
            guild_id: clone_opt_string(&self.guild_id),
            display_name: clone_opt_string(&self.display_name),
            avatar_url: clone_opt_string(&self.avatar_url),
        }
    }
}

#[derive(Debug, PartialEq)]
pub struct ProxyTag {
    prefix: Option<String>,
    suffix: Option<String>,
}

impl ProxyTag {
    pub fn new(prefix: Option<String>, suffix: Option<String>) -> (r: Self)
        ensures
            r.spec_prefix() == prefix,
            r.spec_suffix() == suffix,
    {
        ProxyTag { prefix, suffix }
    }

    pub closed spec fn spec_prefix(&self) -> Option<String> {
        self.prefix
    }

    pub closed spec fn spec_suffix(&self) -> Option<String> {
        self.suffix
    }
}

impl Clone for ProxyTag {
    fn clone(&self) -> (r: Self)
        ensures
            r == *self,
    {
        ProxyTag {
            prefix: clone_opt_string(&self.prefix),
            suffix: clone_opt_string(&self.suffix),
        }
    }
}

impl DeepView for System {
    type V = System;

    open spec fn deep_view(&self) -> System {
        *self
    }
}

impl DeepView for SystemSettings {
    type V = SystemSettings;

    open spec fn deep_view(&self) -> SystemSettings {
        *self
    }
}

impl DeepView for SystemGuildSettings {
    type V = SystemGuildSettings;

    open spec fn deep_view(&self) -> SystemGuildSettings {
        *self
    }
}

impl DeepView for AutoproxySettings {
    type V = AutoproxySettings;

    open spec fn deep_view(&self) -> AutoproxySettings {
        *self
    }
}

impl DeepView for MemberGuildSettings {
    type V = MemberGuildSettings;

    open spec fn deep_view(&self) -> MemberGuildSettings {
        *self
    }
}

impl DeepView for ProxyTag {
    type V = ProxyTag;

    open spec fn deep_view(&self) -> ProxyTag {
        *self
    }
}

#[derive(Debug, PartialEq)]
pub struct Member {
    pub id: String,
    pub uuid: String,
    pub name: String,
    pub display_name: Option<String>,
    pub color: Option<String>,
    pub birthday: Option<String>,
    pub pronouns: Option<String>,
    pub avatar_url: Option<String>,
    pub banner: Option<String>,
    pub description: Option<String>,
    pub created: Option<String>,
    pub proxy_tags: Vec<ProxyTag>,
    pub keep_proxy: bool,
    pub privacy: Option<MemberPrivacy>,
}

/// The specification-level value of a [`Member`]: the proxy-tag vector is
/// replaced by the sequence of its elements.
#[verifier::ext_equal]
pub struct MemberView {
    pub id: String,
    pub uuid: String,
    pub name: String,
    pub display_name: Option<String>,
    pub color: Option<String>,
    pub birthday: Option<String>,
    pub pronouns: Option<String>,
    pub avatar_url: Option<String>,
    pub banner: Option<String>,
    pub description: Option<String>,
    pub created: Option<String>,
    pub proxy_tags: Seq<ProxyTag>,
    pub keep_proxy: bool,
    pub privacy: Option<MemberPrivacy>,
}

impl View for Member {
    type V = MemberView;

    open spec fn view(&self) -> MemberView {
        MemberView {
            id: self.id,
            uuid: self.uuid,
            name: self.name,
            display_name: self.display_name,
            color: self.color,
            birthday: self.birthday,
            pronouns: self.pronouns,
            avatar_url: self.avatar_url,
            banner: self.banner,
            description: self.description,
            created: self.created,
            proxy_tags: self.proxy_tags.deep_view(),
            keep_proxy: self.keep_proxy,
            privacy: self.privacy,
        }
    }
}

impl DeepView for Member {
    type V = MemberView;

    open spec fn deep_view(&self) -> MemberView {
        self.view()
    }
}

fn clone_proxy_tags(v: &Vec<ProxyTag>) -> (r: Vec<ProxyTag>)
    ensures
        r.deep_view() == v.deep_view(),
{
    let mut r: Vec<ProxyTag> = Vec::new();
    let mut i: usize = 0;
    while i < v.len()
        invariant
            i <= v.len(),
            r@.len() == i as int,
            forall|j: int| 0 <= j < i ==> r@[j] == v@[j],
        decreases v.len() - i,
    {
        r.push(v[i].clone());
        i += 1;
    }
    proof {
        assert(r.deep_view() =~= v.deep_view());
    }
    r
}

impl Clone for Member {
    fn clone(&self) -> (r: Self)
        ensures
            r@ == self@,
    {
        let r = Member {
            id: self.id.clone(),
            uuid: self.uuid.clone(),
            name: self.name.clone(),
            display_name: clone_opt_string(&self.display_name),
            color: clone_opt_string(&self.color),
            birthday: clone_opt_string(&self.birthday),
            pronouns: clone_opt_string(&self.pronouns),
            avatar_url: clone_opt_string(&self.avatar_url),
            banner: clone_opt_string(&self.banner),
            description: clone_opt_string(&self.description),
            created: clone_opt_string(&self.created),
            proxy_tags: clone_proxy_tags(&self.proxy_tags),
            keep_proxy: self.keep_proxy,
            privacy: self.privacy,
        };
        proof {
            assert(r@ =~= self@);
        }
        r
    }
}

fn clone_members(v: &Vec<Member>) -> (r: Vec<Member>)
    ensures
        r.deep_view() == v.deep_view(),
{
    let mut r: Vec<Member> = Vec::new();
    let mut i: usize = 0;
    while i < v.len()
        invariant
            i <= v.len(),
            r@.len() == i as int,
            forall|j: int| 0 <= j < i ==> r@[j]@ == v@[j]@,
        decreases v.len() - i,
    {
        r.push(v[i].clone());
        i += 1;
    }
    proof {
        assert(r.deep_view() =~= v.deep_view());
    }
    r
}

#[derive(Debug, PartialEq)]
pub struct Group {
    pub id: String,
    pub uuid: String,
    pub name: String,
    pub display_name: Option<String>,
    pub description: Option<String>,
    pub icon: Option<String>,
    pub banner: Option<String>,
    pub color: Option<String>,
    pub privacy: Option<GroupPrivacy>,
    pub members: Option<Vec<Member>>,
}

/// The specification-level value of a [`Group`]: the optional embedded
/// member list becomes an optional sequence of member views.
#[verifier::ext_equal]
pub struct GroupView {
    pub id: String,
    pub uuid: String,
    pub name: String,
    pub display_name: Option<String>,
    pub description: Option<String>,
    pub icon: Option<String>,
    pub banner: Option<String>,
    pub color: Option<String>,
    pub privacy: Option<GroupPrivacy>,
    pub members: Option<Seq<MemberView>>,
}

impl GroupView {
    /// The same group with its embedded member data cleared.
    pub open spec fn without_members(self) -> GroupView {
        GroupView { members: None, ..self }
    }
}

impl View for Group {
    type V = GroupView;

    open spec fn view(&self) -> GroupView {
        GroupView {
            id: self.id,
            uuid: self.uuid,
            name: self.name,
            display_name: self.display_name,
            description: self.description,
            icon: self.icon,
            banner: self.banner,
            color: self.color,
            privacy: self.privacy,
            members: self.members.deep_view(),
        }
    }
}

impl DeepView for Group {
    type V = GroupView;

    open spec fn deep_view(&self) -> GroupView {
        self.view()
    }
}

impl Clone for Group {
    fn clone(&self) -> (r: Self)
        ensures
            r@ == self@,
    {
        let r = Group {
            id: self.id.clone(),
            uuid: self.uuid.clone(),
            name: self.name.clone(),
            display_name: clone_opt_string(&self.display_name),
            description: clone_opt_string(&self.description),
            icon: clone_opt_string(&self.icon),
            banner: clone_opt_string(&self.banner),
            color: clone_opt_string(&self.color),
            privacy: self.privacy,
            members: match &self.members {
                Some(ms) => Some(clone_members(ms)),
                None => None,
            },
        };
        proof {
            assert(r@ =~= self@);
        }
        r
    }
}

fn clone_groups(v: &Vec<Group>) -> (r: Vec<Group>)
    ensures
        r.deep_view() == v.deep_view(),
{
    let mut r: Vec<Group> = Vec::new();
    let mut i: usize = 0;
    while i < v.len()
        invariant
            i <= v.len(),
            r@.len() == i as int,
            forall|j: int| 0 <= j < i ==> r@[j]@ == v@[j]@,
        decreases v.len() - i,
    {
        r.push(v[i].clone());
        i += 1;
    }
    proof {
        assert(r.deep_view() =~= v.deep_view());
    }
    r
}

#[derive(Debug, PartialEq)]
pub enum MemberOrId {
    Member(Member),
    Id(String),
}

/// The specification-level value of a [`MemberOrId`].
#[verifier::ext_equal]
pub enum MemberOrIdView {
    Member(MemberView),
    Id(String),
}

impl View for MemberOrId {
    type V = MemberOrIdView;

    open spec fn view(&self) -> MemberOrIdView {
        match *self {
            MemberOrId::Member(m) => MemberOrIdView::Member(m@),
            MemberOrId::Id(s) => MemberOrIdView::Id(s),
        }
    }
}

impl DeepView for MemberOrId {
    type V = MemberOrIdView;

    open spec fn deep_view(&self) -> MemberOrIdView {
        self.view()
    }
}

impl Clone for MemberOrId {
    fn clone(&self) -> (r: Self)
        ensures
            r@ == self@,
    {
        match self {
            MemberOrId::Member(m) => MemberOrId::Member(m.clone()),
            MemberOrId::Id(s) => MemberOrId::Id(s.clone()),
        }
    }
}

#[derive(Debug, PartialEq)]
pub struct Switch {
    pub id: String,
    pub timestamp: String,
    pub members: Vec<MemberOrId>,
}

/// The specification-level value of a [`Switch`].
#[verifier::ext_equal]
pub struct SwitchView {
    pub id: String,
    pub timestamp: String,
    pub members: Seq<MemberOrIdView>,
}

impl View for Switch {
    type V = SwitchView;

    open spec fn view(&self) -> SwitchView {
        SwitchView { id: self.id, timestamp: self.timestamp, members: self.members.deep_view() }
    }
}

impl DeepView for Switch {
    type V = SwitchView;

    open spec fn deep_view(&self) -> SwitchView {
        self.view()
    }
}

impl Clone for Switch {
    fn clone(&self) -> (r: Self)
        ensures
            r@ == self@,
    {
        let mut ms: Vec<MemberOrId> = Vec::new();
        let mut i: usize = 0;
        while i < self.members.len()
            invariant
                i <= self.members.len(),
                ms@.len() == i as int,
                forall|j: int| 0 <= j < i ==> ms@[j]@ == self.members@[j]@,
            decreases self.members.len() - i,
        {
            ms.push(self.members[i].clone());
            i += 1;
        }
        let r = Switch { id: self.id.clone(), timestamp: self.timestamp.clone(), members: ms };
        proof {
            assert(r@ =~= self@);
        }
        r
    }
}

fn clone_switches(v: &Vec<Switch>) -> (r: Vec<Switch>)
    ensures
        r.deep_view() == v.deep_view(),
{
    let mut r: Vec<Switch> = Vec::new();
    let mut i: usize = 0;
    while i < v.len()
        invariant
            i <= v.len(),
            r@.len() == i as int,
            forall|j: int| 0 <= j < i ==> r@[j]@ == v@[j]@,
        decreases v.len() - i,
    {
        r.push(v[i].clone());
        i += 1;
    }
    proof {
        assert(r.deep_view() =~= v.deep_view());
    }
    r
}

#[derive(Debug, PartialEq)]
pub struct Message {
    pub timestamp: String,
    pub id: String,
    pub original: String,
    pub sender: String,
    pub channel: String,
    pub guild: String,
    pub system: Option<System>,
    pub member: Option<Member>,
}

/// The specification-level value of a [`Message`].
#[verifier::ext_equal]
pub struct MessageView {
    pub timestamp: String,
    pub id: String,
    pub original: String,
    pub sender: String,
    pub channel: String,
    pub guild: String,
    pub system: Option<System>,
    pub member: Option<MemberView>,
}

impl View for Message {
    type V = MessageView;

    open spec fn view(&self) -> MessageView {
        MessageView {
            timestamp: self.timestamp,
            id: self.id,
            original: self.original,
            sender: self.sender,
            channel: self.channel,
            guild: self.guild,
            system: self.system.deep_view(),
            member: self.member.deep_view(),
        }
    }
}

impl DeepView for Message {
    type V = MessageView;

    open spec fn deep_view(&self) -> MessageView {
        self.view()
    }
}

impl Clone for Message {
    fn clone(&self) -> (r: Self)
        ensures
            r@ == self@,
    {
        let r = Message {
            timestamp: self.timestamp.clone(),
            id: self.id.clone(),
            original: self.original.clone(),
            sender: self.sender.clone(),
            channel: self.channel.clone(),
            guild: self.guild.clone(),
            system: match &self.system {
                Some(s) => Some(s.clone()),
                None => None,
            },
            member: match &self.member {
                Some(m) => Some(m.clone()),
                None => None,
            },
        };
        proof {
            assert(r@ =~= self@);
        }
        r
    }
}

/// Copies a vector of members, preserving its specification-level value.
pub fn copy_member_list(v: &Vec<Member>) -> (r: Vec<Member>)
    ensures
        r.deep_view() == v.deep_view(),
{
    clone_members(v)
}

/// Copies a vector of groups, preserving its specification-level value.
pub fn copy_group_list(v: &Vec<Group>) -> (r: Vec<Group>)
    ensures
        r.deep_view() == v.deep_view(),
{
    clone_groups(v)
}

/// Copies a vector of switches, preserving its specification-level value.
pub fn copy_switch_list(v: &Vec<Switch>) -> (r: Vec<Switch>)
    ensures
        r.deep_view() == v.deep_view(),
{
    clone_switches(v)
}

} // verus!
