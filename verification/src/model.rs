//! The typed records of the system-management API.
//!
//! Each record mirrors one JSON resource of the remote service: systems,
//! members, groups, switches, messages, and their settings and privacy
//! sub-records. Identifiers are opaque strings that the service assigns;
//! instants are [`crate::timestamp::Timestamp`] values; URLs travel as plain
//! strings. Every record has a mathematical view for use in contracts.

use vstd::prelude::*;
use crate::timestamp::Timestamp;

verus! {

/// A short opaque identifier assigned by the remote service.
#[derive(Debug, Clone, PartialEq, Eq)]
pub struct PkId(pub String);

impl View for PkId {
    type V = Seq<char>;

    open spec fn view(&self) -> Seq<char> {
        self.0@
    }
}

/// A two-valued visibility setting.
#[derive(Structural, PartialEq, Eq, Clone, Copy, Debug)]
pub enum Privacy {
    Public,
    Private,
}

/// The closed set of automatic-proxying modes.
#[derive(Structural, PartialEq, Eq, Clone, Copy, Debug)]
pub enum AutoProxyMode {
    Off,
    Front,
    Latch,
    Member,
}

/// The six visibility flags of a system.
#[derive(Debug, Clone, Copy, PartialEq, Eq, Structural)]
pub struct SystemPrivacy {
    pub description_privacy: Privacy,
    pub pronoun_privacy: Privacy,
    pub member_list_privacy: Privacy,
    pub group_list_privacy: Privacy,
    pub front_privacy: Privacy,
    pub front_history_privacy: Privacy,
}

/// The seven visibility flags of a member.
#[derive(Debug, Clone, Copy, PartialEq, Eq, Structural)]
pub struct MemberPrivacy {
    pub visibility: Privacy,
    pub name_privacy: Privacy,
    pub description_privacy: Privacy,
    pub birthday_privacy: Privacy,
    pub pronoun_privacy: Privacy,
    pub avatar_privacy: Privacy,
    pub metadata_privacy: Privacy,
}

/// The six visibility flags of a group.
#[derive(Debug, Clone, Copy, PartialEq, Eq, Structural)]
pub struct GroupPrivacy {
    pub name_privacy: Privacy,
    pub description_privacy: Privacy,
    pub icon_privacy: Privacy,
    pub list_privacy: Privacy,
    pub metadata_privacy: Privacy,
    pub visibility: Privacy,
}

/// One prefix/suffix pair that marks a proxied message.
#[derive(Debug, Clone, PartialEq, Eq)]
pub struct ProxyTag {
    pub prefix: Option<String>,
    pub suffix: Option<String>,
}

/// The view of a [`ProxyTag`].
pub struct ProxyTagView {
    pub prefix: Option<Seq<char>>,
    pub suffix: Option<Seq<char>>,
}

impl View for ProxyTag {
    type V = ProxyTagView;

    open spec fn view(&self) -> ProxyTagView {
        ProxyTagView {
            prefix: match self.prefix {
                Option::Some(s) => Option::Some(s@),
                Option::None => Option::None,
            },
            suffix: match self.suffix {
                Option::Some(s) => Option::Some(s@),
                Option::None => Option::None,
            },
        }
    }
}

/// The top-level account record.
#[derive(Debug, Clone, PartialEq, Eq)]
pub struct System {
    pub id: PkId,
    pub name: Option<String>,
    pub description: Option<String>,
    pub tag: Option<String>,
    pub avatar_url: Option<String>,
    pub created: Option<Timestamp>,
    pub privacy: Option<SystemPrivacy>,
}

/// The view of a [`System`].
pub struct SystemView {
    pub id: Seq<char>,
    pub name: Option<Seq<char>>,
    pub description: Option<Seq<char>>,
    pub tag: Option<Seq<char>>,
    pub avatar_url: Option<Seq<char>>,
    pub created: Option<Timestamp>,
    pub privacy: Option<SystemPrivacy>,
}

/// The view of an optional text field.
pub open spec fn opt_view(o: Option<String>) -> Option<Seq<char>> {
    match o {
        Option::Some(s) => Option::Some(s@),
        Option::None => Option::None,
    }
}

impl System {
    /// Every instant the record carries is a real calendar instant.
    pub open spec fn wf(self) -> bool {
        self.created matches Option::Some(t) ==> t.valid()
    }
}

impl View for System {
    type V = SystemView;

    open spec fn view(&self) -> SystemView {
        SystemView {
            id: self.id@,
            name: opt_view(self.name),
            description: opt_view(self.description),
            tag: opt_view(self.tag),
            avatar_url: opt_view(self.avatar_url),
            created: self.created,
            privacy: self.privacy,
        }
    }
}

/// One persona of a system.
#[derive(Debug, Clone, PartialEq, Eq)]
pub struct Member {
    pub id: PkId,
    pub uuid: String,
    pub name: String,
    pub display_name: Option<String>,
    pub color: Option<String>,
    pub birthday: Option<String>,
    pub pronouns: Option<String>,
    pub avatar_url: Option<String>,
    pub webhook_avatar_url: Option<String>,
    pub banner: Option<String>,
    pub description: Option<String>,
    pub created: Option<Timestamp>,
    pub proxy_tags: Vec<ProxyTag>,
    pub keep_proxy: bool,
    pub autoproxy_enabled: Option<bool>,
    pub message_count: Option<i32>,
    pub last_message_timestamp: Option<Timestamp>,
    pub privacy: Option<MemberPrivacy>,
}

/// The view of a [`Member`].
pub struct MemberView {
    pub id: Seq<char>,
    pub uuid: Seq<char>,
    pub name: Seq<char>,
    pub display_name: Option<Seq<char>>,
    pub color: Option<Seq<char>>,
    pub birthday: Option<Seq<char>>,
    pub pronouns: Option<Seq<char>>,
    pub avatar_url: Option<Seq<char>>,
    pub webhook_avatar_url: Option<Seq<char>>,
    pub banner: Option<Seq<char>>,
    pub description: Option<Seq<char>>,
    pub created: Option<Timestamp>,
    pub proxy_tags: Seq<ProxyTagView>,
    pub keep_proxy: bool,
    pub autoproxy_enabled: Option<bool>,
    pub message_count: Option<int>,
    pub last_message_timestamp: Option<Timestamp>,
    pub privacy: Option<MemberPrivacy>,
}

impl Member {
    /// Every instant the record carries is a real calendar instant.
    pub open spec fn wf(self) -> bool {
        &&& self.created matches Option::Some(t) ==> t.valid()
        &&& self.last_message_timestamp matches Option::Some(t) ==> t.valid()
    }
}

impl View for Member {
    type V = MemberView;

    open spec fn view(&self) -> MemberView {
        MemberView {
            id: self.id@,
            uuid: self.uuid@,
            name: self.name@,
            display_name: opt_view(self.display_name),
            color: opt_view(self.color),
            birthday: opt_view(self.birthday),
            pronouns: opt_view(self.pronouns),
            avatar_url: opt_view(self.avatar_url),
            webhook_avatar_url: opt_view(self.webhook_avatar_url),
            banner: opt_view(self.banner),
            description: opt_view(self.description),
            created: self.created,
            proxy_tags: self.proxy_tags@.map_values(|p: ProxyTag| p@),
            keep_proxy: self.keep_proxy,
            autoproxy_enabled: self.autoproxy_enabled,
            message_count: match self.message_count {
                Option::Some(n) => Option::Some(n as int),
                Option::None => Option::None,
            },
            last_message_timestamp: self.last_message_timestamp,
            privacy: self.privacy,
        }
    }
}

/// A named collection of members.
#[derive(Debug, Clone, PartialEq, Eq)]
pub struct Group {
    pub id: PkId,
    pub uuid: String,
    pub name: String,
    pub display_name: Option<String>,
    pub description: Option<String>,
    pub icon: Option<String>,
    pub banner: Option<String>,
    pub color: Option<String>,
    pub privacy: Option<GroupPrivacy>,
}

/// The view of a [`Group`].
pub struct GroupView {
    pub id: Seq<char>,
    pub uuid: Seq<char>,
    pub name: Seq<char>,
    pub display_name: Option<Seq<char>>,
    pub description: Option<Seq<char>>,
    pub icon: Option<Seq<char>>,
    pub banner: Option<Seq<char>>,
    pub color: Option<Seq<char>>,
    pub privacy: Option<GroupPrivacy>,
}

impl View for Group {
    type V = GroupView;

    open spec fn view(&self) -> GroupView {
        GroupView {
            id: self.id@,
            uuid: self.uuid@,
            name: self.name@,
            display_name: opt_view(self.display_name),
            description: opt_view(self.description),
            icon: opt_view(self.icon),
            banner: opt_view(self.banner),
            color: opt_view(self.color),
            privacy: self.privacy,
        }
    }
}

/// One entry of a switch's member list.
///
/// The service answers with bare member ids on current API versions; one
/// historical schema inlined whole member records, so both forms are kept
/// apart explicitly here.
#[derive(Debug, Clone, PartialEq, Eq)]
pub enum SwitchMember {
    Id(PkId),
    Full(Box<Member>),
}

/// The view of a [`SwitchMember`].
pub enum SwitchMemberView {
    Id(Seq<char>),
    Full(MemberView),
}

impl View for SwitchMember {
    type V = SwitchMemberView;

    open spec fn view(&self) -> SwitchMemberView {
        match self {
            SwitchMember::Id(p) => SwitchMemberView::Id(p@),
            SwitchMember::Full(m) => SwitchMemberView::Full(m@),
        }
    }
}

/// A timestamped record of which members are fronting.
#[derive(Debug, Clone, PartialEq, Eq)]
pub struct Switch {
    pub id: String,
    pub timestamp: Timestamp,
    pub members: Vec<SwitchMember>,
}

/// The view of a [`Switch`].
pub struct SwitchView {
    pub id: Seq<char>,
    pub timestamp: Timestamp,
    pub members: Seq<SwitchMemberView>,
}

impl Switch {
    /// The switch instant is a real calendar instant, as is every instant of
    /// an inlined member record.
    pub open spec fn wf(self) -> bool {
        &&& self.timestamp.valid()
        &&& forall|i: int|
            0 <= i < self.members@.len() ==> (#[trigger] self.members@[i] matches
            SwitchMember::Full(m) ==> m.wf())
    }
}

impl View for Switch {
    type V = SwitchView;

    open spec fn view(&self) -> SwitchView {
        SwitchView {
            id: self.id@,
            timestamp: self.timestamp,
            members: self.members@.map_values(|m: SwitchMember| m@),
        }
    }
}

/// A proxied message looked up by its id.
#[derive(Debug, Clone, PartialEq, Eq)]
pub struct Message {
    pub timestamp: Timestamp,
    pub id: String,
    pub original: String,
    pub sender: String,
    pub channel: String,
    pub guild: String,
    pub system: Option<System>,
    pub member: Option<Member>,
}

/// The view of a [`Message`].
pub struct MessageView {
    pub timestamp: Timestamp,
    pub id: Seq<char>,
    pub original: Seq<char>,
    pub sender: Seq<char>,
    pub channel: Seq<char>,
    pub guild: Seq<char>,
    pub system: Option<SystemView>,
    pub member: Option<MemberView>,
}

impl View for Message {
    type V = MessageView;

    open spec fn view(&self) -> MessageView {
        MessageView {
            timestamp: self.timestamp,
            id: self.id@,
            original: self.original@,
            sender: self.sender@,
            channel: self.channel@,
            guild: self.guild@,
            system: match self.system {
                Option::Some(s) => Option::Some(s@),
                Option::None => Option::None,
            },
            member: match self.member {
                Option::Some(m) => Option::Some(m@),
                Option::None => Option::None,
            },
        }
    }
}

/// Per-system configuration.
#[derive(Debug, Clone, PartialEq, Eq)]
pub struct SystemSettings {
    pub timezone: String,
    pub pings_enabled: bool,
    pub latch_timeout: Option<i32>,
    pub member_default_private: bool,
    pub group_default_private: bool,
    pub show_private_info: bool,
    pub member_limit: i32,
    pub group_limit: i32,
}

/// The view of a [`SystemSettings`].
pub struct SystemSettingsView {
    pub timezone: Seq<char>,
    pub pings_enabled: bool,
    pub latch_timeout: Option<int>,
    pub member_default_private: bool,
    pub group_default_private: bool,
    pub show_private_info: bool,
    pub member_limit: int,
    pub group_limit: int,
}

impl View for SystemSettings {
    type V = SystemSettingsView;

    open spec fn view(&self) -> SystemSettingsView {
        SystemSettingsView {
            timezone: self.timezone@,
            pings_enabled: self.pings_enabled,
            latch_timeout: match self.latch_timeout {
                Option::Some(n) => Option::Some(n as int),
                Option::None => Option::None,
            },
            member_default_private: self.member_default_private,
            group_default_private: self.group_default_private,
            show_private_info: self.show_private_info,
            member_limit: self.member_limit as int,
            group_limit: self.group_limit as int,
        }
    }
}

/// Per-guild configuration of a system.
#[derive(Debug, Clone, PartialEq, Eq)]
pub struct SystemGuildSettings {
    pub guild_id: Option<String>,
    pub proxying_enabled: bool,
    pub tag: Option<String>,
    pub tag_enabled: bool,
}

/// The view of a [`SystemGuildSettings`].
pub struct SystemGuildSettingsView {
    pub guild_id: Option<Seq<char>>,
    pub proxying_enabled: bool,
    pub tag: Option<Seq<char>>,
    pub tag_enabled: bool,
}

impl View for SystemGuildSettings {
    type V = SystemGuildSettingsView;

    open spec fn view(&self) -> SystemGuildSettingsView {
        SystemGuildSettingsView {
            guild_id: opt_view(self.guild_id),
            proxying_enabled: self.proxying_enabled,
            tag: opt_view(self.tag),
            tag_enabled: self.tag_enabled,
        }
    }
}

/// The automatic-proxying configuration of a system.
#[derive(Debug, Clone, PartialEq, Eq)]
pub struct AutoProxySettings {
    pub autoproxy_mode: AutoProxyMode,
    pub autoproxy_member: Option<String>,
    pub last_latch_timestamp: Option<Timestamp>,
}

/// The view of an [`AutoProxySettings`].
pub struct AutoProxySettingsView {
    pub autoproxy_mode: AutoProxyMode,
    pub autoproxy_member: Option<Seq<char>>,
    pub last_latch_timestamp: Option<Timestamp>,
}

impl AutoProxySettings {
    /// Every instant the record carries is a real calendar instant.
    pub open spec fn wf(self) -> bool {
        self.last_latch_timestamp matches Option::Some(t) ==> t.valid()
    }
}

impl View for AutoProxySettings {
    type V = AutoProxySettingsView;

    open spec fn view(&self) -> AutoProxySettingsView {
        AutoProxySettingsView {
            autoproxy_mode: self.autoproxy_mode,
            autoproxy_member: opt_view(self.autoproxy_member),
            last_latch_timestamp: self.last_latch_timestamp,
        }
    }
}

/// Per-guild configuration of a member.
#[derive(Debug, Clone, PartialEq, Eq)]
pub struct MemberGuildSettings {
    pub guild_id: String,
    pub display_name: Option<String>,
    pub avatar_url: Option<String>,
}

/// The view of a [`MemberGuildSettings`].
pub struct MemberGuildSettingsView {
    pub guild_id: Seq<char>,
    pub display_name: Option<Seq<char>>,
    pub avatar_url: Option<Seq<char>>,
}

impl View for MemberGuildSettings {
    type V = MemberGuildSettingsView;

    open spec fn view(&self) -> MemberGuildSettingsView {
        MemberGuildSettingsView {
            guild_id: self.guild_id@,
            display_name: opt_view(self.display_name),
            avatar_url: opt_view(self.avatar_url),
        }
    }
}

/// The views of a member list, in order.
pub open spec fn member_views(s: Seq<Member>) -> Seq<MemberView> {
    s.map_values(|m: Member| m@)
}

/// The views of a group list, in order.
pub open spec fn group_views(s: Seq<Group>) -> Seq<GroupView> {
    s.map_values(|g: Group| g@)
}

/// The views of a switch list, in order.
pub open spec fn switch_views(s: Seq<Switch>) -> Seq<SwitchView> {
    s.map_values(|s2: Switch| s2@)
}

/// The views of a per-guild member-settings list, in order.
pub open spec fn member_guild_settings_views(s: Seq<MemberGuildSettings>) -> Seq<
    MemberGuildSettingsView,
> {
    s.map_values(|s2: MemberGuildSettings| s2@)
}

} // verus!
