//! The command tree of the terminal front-end, as plain data.
//!
//! The surrounding program parses its arguments into this tree and hands it
//! to [`crate::dispatch`], which decides which exchange each command issues.

use vstd::prelude::*;

verus! {

/// A whole invocation: one optional command.
#[derive(Debug, Clone, PartialEq, Eq)]
pub struct Cli {
    pub command: Option<Commands>,
}

/// The top-level commands.
#[derive(Debug, Clone, PartialEq, Eq)]
pub enum Commands {
    Token { token: String },
    System { command: SystemCommands },
    Member { command: MemberCommands },
    Group { command: GroupCommands },
    Switch { command: SwitchCommands },
}

/// Commands on the caller's system.
#[derive(Debug, Clone, PartialEq, Eq)]
pub enum SystemCommands {
    Get { system_id: Option<String> },
    Change { command: SystemSetCommands },
}

/// Fields of a system that can be set.
#[derive(Debug, Clone, PartialEq, Eq)]
pub enum SystemSetCommands {
    Name { name: String },
    Description { description: String },
    Tag { tag: String },
    Avatar { avatar: String },
    Timezone { timezone: String },
    Pings { pings: bool },
    AutoProxy { mode: crate::model::AutoProxyMode },
    Guilds { guild_id: String, command: SystemSetGuildCommands },
    Privacy { command: SystemSetPrivacyCommands },
}

/// Per-guild system settings that can be set.
#[derive(Debug, Clone, PartialEq, Eq)]
pub enum SystemSetGuildCommands {
    Proxy { should_proxy: bool },
    Tag { tag: String },
}

/// System privacy flags that can be set.
#[derive(Debug, Clone, PartialEq, Eq)]
pub enum SystemSetPrivacyCommands {
    Description { is_public: bool },
    Pronouns { is_public: bool },
    Members { is_public: bool },
    Groups { is_public: bool },
    Front { is_public: bool },
    FrontHistory { is_public: bool },
}

/// Commands on members.
#[derive(Debug, Clone, PartialEq, Eq)]
pub enum MemberCommands {
    Get { member_id: String },
    List { system_id: Option<String> },
    Change { member_id: String, command: MemberSetCommands },
    Create { name: Option<String>, avatar: Option<String>, description: Option<String> },
    Delete { member_id: String, confirm: Option<bool> },
    Group { member_id: String, command: MemberGroupCommands },
}

/// Fields of a member that can be set.
#[derive(Debug, Clone, PartialEq, Eq)]
pub enum MemberSetCommands {
    Name { name: String },
    DisplayName { display_name: String },
    Description { description: String },
    Color { color: String },
    Birthday { birthday: String },
    Pronouns { pronouns: String },
    Avatar { avatar: String },
    Banner { banner: String },
    Proxy { command: MemberSetProxyCommands },
    Privacy { command: MemberSetPrivacyCommands },
}

/// Commands on a member's proxy tags.
#[derive(Debug, Clone, PartialEq, Eq)]
pub enum MemberSetProxyCommands {
    Add { tag: String },
    Delete { tag: String },
    List,
}

/// Member privacy flags that can be set.
#[derive(Debug, Clone, PartialEq, Eq)]
pub enum MemberSetPrivacyCommands {
    Visibility { is_public: bool },
    Name { is_public: bool },
    Description { is_public: bool },
    Avatar { is_public: bool },
    Pronouns { is_public: bool },
    Birthday { is_public: bool },
    Metadata { is_public: bool },
}

/// Commands on a member's group memberships.
#[derive(Debug, Clone, PartialEq, Eq)]
pub enum MemberGroupCommands {
    List,
    Add { group_id: String },
    Remove { group_id: String },
}

/// Commands on groups.
#[derive(Debug, Clone, PartialEq, Eq)]
pub enum GroupCommands {
    Get { group_id: String },
    List { system_id: Option<String> },
    Create { name: Option<String> },
    Add { group_id: String, member_id: String },
    Remove { group_id: String, member_id: String },
    Change { command: GroupSetCommands },
}

/// Fields of a group that can be set.
#[derive(Debug, Clone, PartialEq, Eq)]
pub enum GroupSetCommands {
    Name { name: String },
    DisplayName { display_name: String },
    Description { description: String },
    Color { color: String },
    Icon { icon: String },
    Banner { banner: String },
    Privacy { command: GroupSetPrivacyCommands },
}

/// Group privacy flags that can be set.
#[derive(Debug, Clone, PartialEq, Eq)]
pub enum GroupSetPrivacyCommands {
    Visibility { is_public: bool },
    Name { is_public: bool },
    Description { is_public: bool },
    Icon { is_public: bool },
    List { is_public: bool },
    Metadata { is_public: bool },
}

/// Commands on switches.
#[derive(Debug, Clone, PartialEq, Eq)]
pub enum SwitchCommands {
    List { system_id: Option<String> },
    New { members: Vec<String>, time: Option<String> },
}

} // verus!
