//! Judging outcomes: from a raw answer to a typed result.
//!
//! Each reader turns the outcome of one exchange into the typed record the
//! endpoint promises, or into the error that names what went wrong: a
//! transport failure, a non-success status, or a body that does not match
//! the schema. Success is owed exactly when the status is in the success
//! range and the body decodes.

use vstd::prelude::*;
use crate::codec::{system_from_json, member_from_json, group_from_json, switch_from_json,
    message_from_json, system_settings_from_json, system_guild_settings_from_json,
    autoproxy_settings_from_json, members_from_json, groups_from_json, switches_from_json,
    member_guild_settings_list_from_json, spec_decode_system, spec_decode_member,
    spec_decode_group, spec_decode_switch, spec_decode_message, spec_decode_system_settings,
    spec_decode_system_guild_settings, spec_decode_autoproxy_settings, spec_decode_members,
    spec_decode_groups, spec_decode_switches, spec_decode_member_guild_settings_list};
use crate::http::{HttpOutcome, PkError, spec_is_success};
use crate::model::{System, Member, Group, Switch, Message, SystemSettings, SystemGuildSettings,
    AutoProxySettings, MemberGuildSettings, member_views, group_views, switch_views,
    member_guild_settings_views};

verus! {

/// Reads the outcome of an exchange that answers with a system record.
pub fn read_system(outcome: &HttpOutcome) -> (r: Result<System, PkError>)
    ensures
        match outcome {
            HttpOutcome::Failure(m) => r matches Err(e) && e matches PkError::Transport(t) && t@
                == m@,
            HttpOutcome::Response { status, body } => {
                if !spec_is_success(*status) {
                    r == Err::<System, PkError>(PkError::Status(*status))
                } else {
                    match body {
                        Option::Some(v) => match spec_decode_system(*v) {
                            Option::Some(sv) => r matches Ok(x) && x@ == sv,
                            Option::None => r == Err::<System, PkError>(PkError::Schema),
                        },
                        Option::None => r == Err::<System, PkError>(PkError::Schema),
                    }
                }
            },
        },
{
    match outcome {
        HttpOutcome::Failure(m) => Err(PkError::Transport(m.clone())),
        HttpOutcome::Response { status, body } => {
            if !(200 <= *status && *status < 300) {
                Err(PkError::Status(*status))
            } else {
                match body {
                    Option::Some(v) => match system_from_json(v) {
                        Option::Some(x) => {
                            Ok(x)
                        },
                        Option::None => Err(PkError::Schema),
                    },
                    Option::None => Err(PkError::Schema),
                }
            }
        },
    }
}

/// Reads the outcome of an exchange that answers with a member record.
pub fn read_member(outcome: &HttpOutcome) -> (r: Result<Member, PkError>)
    ensures
        match outcome {
            HttpOutcome::Failure(m) => r matches Err(e) && e matches PkError::Transport(t) && t@
                == m@,
            HttpOutcome::Response { status, body } => {
                if !spec_is_success(*status) {
                    r == Err::<Member, PkError>(PkError::Status(*status))
                } else {
                    match body {
                        Option::Some(v) => match spec_decode_member(*v) {
                            Option::Some(sv) => r matches Ok(x) && x@ == sv,
                            Option::None => r == Err::<Member, PkError>(PkError::Schema),
                        },
                        Option::None => r == Err::<Member, PkError>(PkError::Schema),
                    }
                }
            },
        },
{
    match outcome {
        HttpOutcome::Failure(m) => Err(PkError::Transport(m.clone())),
        HttpOutcome::Response { status, body } => {
            if !(200 <= *status && *status < 300) {
                Err(PkError::Status(*status))
            } else {
                match body {
                    Option::Some(v) => match member_from_json(v) {
                        Option::Some(x) => {
                            Ok(x)
                        },
                        Option::None => Err(PkError::Schema),
                    },
                    Option::None => Err(PkError::Schema),
                }
            }
        },
    }
}

/// Reads the outcome of an exchange that answers with a group record.
pub fn read_group(outcome: &HttpOutcome) -> (r: Result<Group, PkError>)
    ensures
        match outcome {
            HttpOutcome::Failure(m) => r matches Err(e) && e matches PkError::Transport(t) && t@
                == m@,
            HttpOutcome::Response { status, body } => {
                if !spec_is_success(*status) {
                    r == Err::<Group, PkError>(PkError::Status(*status))
                } else {
                    match body {
                        Option::Some(v) => match spec_decode_group(*v) {
                            Option::Some(sv) => r matches Ok(x) && x@ == sv,
                            Option::None => r == Err::<Group, PkError>(PkError::Schema),
                        },
                        Option::None => r == Err::<Group, PkError>(PkError::Schema),
                    }
                }
            },
        },
{
    match outcome {
        HttpOutcome::Failure(m) => Err(PkError::Transport(m.clone())),
        HttpOutcome::Response { status, body } => {
            if !(200 <= *status && *status < 300) {
                Err(PkError::Status(*status))
            } else {
                match body {
                    Option::Some(v) => match group_from_json(v) {
                        Option::Some(x) => {
                            Ok(x)
                        },
                        Option::None => Err(PkError::Schema),
                    },
                    Option::None => Err(PkError::Schema),
                }
            }
        },
    }
}

/// Reads the outcome of an exchange that answers with a switch record.
pub fn read_switch(outcome: &HttpOutcome) -> (r: Result<Switch, PkError>)
    ensures
        match outcome {
            HttpOutcome::Failure(m) => r matches Err(e) && e matches PkError::Transport(t) && t@
                == m@,
            HttpOutcome::Response { status, body } => {
                if !spec_is_success(*status) {
                    r == Err::<Switch, PkError>(PkError::Status(*status))
                } else {
                    match body {
                        Option::Some(v) => match spec_decode_switch(*v) {
                            Option::Some(sv) => r matches Ok(x) && x@ == sv,
                            Option::None => r == Err::<Switch, PkError>(PkError::Schema),
                        },
                        Option::None => r == Err::<Switch, PkError>(PkError::Schema),
                    }
                }
            },
        },
{
    match outcome {
        HttpOutcome::Failure(m) => Err(PkError::Transport(m.clone())),
        HttpOutcome::Response { status, body } => {
            if !(200 <= *status && *status < 300) {
                Err(PkError::Status(*status))
            } else {
                match body {
                    Option::Some(v) => match switch_from_json(v) {
                        Option::Some(x) => {
                            Ok(x)
                        },
                        Option::None => Err(PkError::Schema),
                    },
                    Option::None => Err(PkError::Schema),
                }
            }
        },
    }
}

/// Reads the outcome of an exchange that answers with a message record.
pub fn read_message(outcome: &HttpOutcome) -> (r: Result<Message, PkError>)
    ensures
        match outcome {
            HttpOutcome::Failure(m) => r matches Err(e) && e matches PkError::Transport(t) && t@
                == m@,
            HttpOutcome::Response { status, body } => {
                if !spec_is_success(*status) {
                    r == Err::<Message, PkError>(PkError::Status(*status))
                } else {
                    match body {
                        Option::Some(v) => match spec_decode_message(*v) {
                            Option::Some(sv) => r matches Ok(x) && x@ == sv,
                            Option::None => r == Err::<Message, PkError>(PkError::Schema),
                        },
                        Option::None => r == Err::<Message, PkError>(PkError::Schema),
                    }
                }
            },
        },
{
    match outcome {
        HttpOutcome::Failure(m) => Err(PkError::Transport(m.clone())),
        HttpOutcome::Response { status, body } => {
            if !(200 <= *status && *status < 300) {
                Err(PkError::Status(*status))
            } else {
                match body {
                    Option::Some(v) => match message_from_json(v) {
                        Option::Some(x) => {
                            Ok(x)
                        },
                        Option::None => Err(PkError::Schema),
                    },
                    Option::None => Err(PkError::Schema),
                }
            }
        },
    }
}

/// Reads the outcome of an exchange that answers with a system-settings record.
pub fn read_system_settings(outcome: &HttpOutcome) -> (r: Result<SystemSettings, PkError>)
    ensures
        match outcome {
            HttpOutcome::Failure(m) => r matches Err(e) && e matches PkError::Transport(t) && t@
                == m@,
            HttpOutcome::Response { status, body } => {
                if !spec_is_success(*status) {
                    r == Err::<SystemSettings, PkError>(PkError::Status(*status))
                } else {
                    match body {
                        Option::Some(v) => match spec_decode_system_settings(*v) {
                            Option::Some(sv) => r matches Ok(x) && x@ == sv,
                            Option::None => r == Err::<SystemSettings, PkError>(PkError::Schema),
                        },
                        Option::None => r == Err::<SystemSettings, PkError>(PkError::Schema),
                    }
                }
            },
        },
{
    match outcome {
        HttpOutcome::Failure(m) => Err(PkError::Transport(m.clone())),
        HttpOutcome::Response { status, body } => {
            if !(200 <= *status && *status < 300) {
                Err(PkError::Status(*status))
            } else {
                match body {
                    Option::Some(v) => match system_settings_from_json(v) {
                        Option::Some(x) => {
                            Ok(x)
                        },
                        Option::None => Err(PkError::Schema),
                    },
                    Option::None => Err(PkError::Schema),
                }
            }
        },
    }
}

/// Reads the outcome of an exchange that answers with a per-guild system-settings record.
pub fn read_system_guild_settings(outcome: &HttpOutcome) -> (r: Result<SystemGuildSettings, PkError>)
    ensures
        match outcome {
            HttpOutcome::Failure(m) => r matches Err(e) && e matches PkError::Transport(t) && t@
                == m@,
            HttpOutcome::Response { status, body } => {
                if !spec_is_success(*status) {
                    r == Err::<SystemGuildSettings, PkError>(PkError::Status(*status))
                } else {
                    match body {
                        Option::Some(v) => match spec_decode_system_guild_settings(*v) {
                            Option::Some(sv) => r matches Ok(x) && x@ == sv,
                            Option::None => r == Err::<SystemGuildSettings, PkError>(PkError::Schema),
                        },
                        Option::None => r == Err::<SystemGuildSettings, PkError>(PkError::Schema),
                    }
                }
            },
        },
{
    match outcome {
        HttpOutcome::Failure(m) => Err(PkError::Transport(m.clone())),
        HttpOutcome::Response { status, body } => {
            if !(200 <= *status && *status < 300) {
                Err(PkError::Status(*status))
            } else {
                match body {
                    Option::Some(v) => match system_guild_settings_from_json(v) {
                        Option::Some(x) => {
                            Ok(x)
                        },
                        Option::None => Err(PkError::Schema),
                    },
                    Option::None => Err(PkError::Schema),
                }
            }
        },
    }
}

/// Reads the outcome of an exchange that answers with an autoproxy-settings record.
pub fn read_autoproxy_settings(outcome: &HttpOutcome) -> (r: Result<AutoProxySettings, PkError>)
    ensures
        match outcome {
            HttpOutcome::Failure(m) => r matches Err(e) && e matches PkError::Transport(t) && t@
                == m@,
            HttpOutcome::Response { status, body } => {
                if !spec_is_success(*status) {
                    r == Err::<AutoProxySettings, PkError>(PkError::Status(*status))
                } else {
                    match body {
                        Option::Some(v) => match spec_decode_autoproxy_settings(*v) {
                            Option::Some(sv) => r matches Ok(x) && x@ == sv,
                            Option::None => r == Err::<AutoProxySettings, PkError>(PkError::Schema),
                        },
                        Option::None => r == Err::<AutoProxySettings, PkError>(PkError::Schema),
                    }
                }
            },
        },
{
    match outcome {
        HttpOutcome::Failure(m) => Err(PkError::Transport(m.clone())),
        HttpOutcome::Response { status, body } => {
            if !(200 <= *status && *status < 300) {
                Err(PkError::Status(*status))
            } else {
                match body {
                    Option::Some(v) => match autoproxy_settings_from_json(v) {
                        Option::Some(x) => {
                            Ok(x)
                        },
                        Option::None => Err(PkError::Schema),
                    },
                    Option::None => Err(PkError::Schema),
                }
            }
        },
    }
}

/// Reads the outcome of an exchange that answers with a member list.
pub fn read_members(outcome: &HttpOutcome) -> (r: Result<Vec<Member>, PkError>)
    ensures
        match outcome {
            HttpOutcome::Failure(m) => r matches Err(e) && e matches PkError::Transport(t) && t@
                == m@,
            HttpOutcome::Response { status, body } => {
                if !spec_is_success(*status) {
                    r == Err::<Vec<Member>, PkError>(PkError::Status(*status))
                } else {
                    match body {
                        Option::Some(v) => match spec_decode_members(*v) {
                            Option::Some(sv) => r matches Ok(x) && member_views(x@) == sv,
                            Option::None => r == Err::<Vec<Member>, PkError>(PkError::Schema),
                        },
                        Option::None => r == Err::<Vec<Member>, PkError>(PkError::Schema),
                    }
                }
            },
        },
{
    match outcome {
        HttpOutcome::Failure(m) => Err(PkError::Transport(m.clone())),
        HttpOutcome::Response { status, body } => {
            if !(200 <= *status && *status < 300) {
                Err(PkError::Status(*status))
            } else {
                match body {
                    Option::Some(v) => match members_from_json(v) {
                        Option::Some(x) => {
                    proof {
                        let sv = spec_decode_members(*v)->0;
                        assert(member_views(x@) =~= sv);
                    }
                            Ok(x)
                        },
                        Option::None => Err(PkError::Schema),
                    },
                    Option::None => Err(PkError::Schema),
                }
            }
        },
    }
}

/// Reads the outcome of an exchange that answers with a group list.
pub fn read_groups(outcome: &HttpOutcome) -> (r: Result<Vec<Group>, PkError>)
    ensures
        match outcome {
            HttpOutcome::Failure(m) => r matches Err(e) && e matches PkError::Transport(t) && t@
                == m@,
            HttpOutcome::Response { status, body } => {
                if !spec_is_success(*status) {
                    r == Err::<Vec<Group>, PkError>(PkError::Status(*status))
                } else {
                    match body {
                        Option::Some(v) => match spec_decode_groups(*v) {
                            Option::Some(sv) => r matches Ok(x) && group_views(x@) == sv,
                            Option::None => r == Err::<Vec<Group>, PkError>(PkError::Schema),
                        },
                        Option::None => r == Err::<Vec<Group>, PkError>(PkError::Schema),
                    }
                }
            },
        },
{
    match outcome {
        HttpOutcome::Failure(m) => Err(PkError::Transport(m.clone())),
        HttpOutcome::Response { status, body } => {
            if !(200 <= *status && *status < 300) {
                Err(PkError::Status(*status))
            } else {
                match body {
                    Option::Some(v) => match groups_from_json(v) {
                        Option::Some(x) => {
                    proof {
                        let sv = spec_decode_groups(*v)->0;
                        assert(group_views(x@) =~= sv);
                    }
                            Ok(x)
                        },
                        Option::None => Err(PkError::Schema),
                    },
                    Option::None => Err(PkError::Schema),
                }
            }
        },
    }
}

/// Reads the outcome of an exchange that answers with a switch list.
pub fn read_switches(outcome: &HttpOutcome) -> (r: Result<Vec<Switch>, PkError>)
    ensures
        match outcome {
            HttpOutcome::Failure(m) => r matches Err(e) && e matches PkError::Transport(t) && t@
                == m@,
            HttpOutcome::Response { status, body } => {
                if !spec_is_success(*status) {
                    r == Err::<Vec<Switch>, PkError>(PkError::Status(*status))
                } else {
                    match body {
                        Option::Some(v) => match spec_decode_switches(*v) {
                            Option::Some(sv) => r matches Ok(x) && switch_views(x@) == sv,
                            Option::None => r == Err::<Vec<Switch>, PkError>(PkError::Schema),
                        },
                        Option::None => r == Err::<Vec<Switch>, PkError>(PkError::Schema),
                    }
                }
            },
        },
{
    match outcome {
        HttpOutcome::Failure(m) => Err(PkError::Transport(m.clone())),
        HttpOutcome::Response { status, body } => {
            if !(200 <= *status && *status < 300) {
                Err(PkError::Status(*status))
            } else {
                match body {
                    Option::Some(v) => match switches_from_json(v) {
                        Option::Some(x) => {
                    proof {
                        let sv = spec_decode_switches(*v)->0;
                        assert(switch_views(x@) =~= sv);
                    }
                            Ok(x)
                        },
                        Option::None => Err(PkError::Schema),
                    },
                    Option::None => Err(PkError::Schema),
                }
            }
        },
    }
}

/// Reads the outcome of an exchange that answers with a per-guild member-settings list.
pub fn read_member_guild_settings_list(outcome: &HttpOutcome) -> (r: Result<Vec<MemberGuildSettings>, PkError>)
    ensures
        match outcome {
            HttpOutcome::Failure(m) => r matches Err(e) && e matches PkError::Transport(t) && t@
                == m@,
            HttpOutcome::Response { status, body } => {
                if !spec_is_success(*status) {
                    r == Err::<Vec<MemberGuildSettings>, PkError>(PkError::Status(*status))
                } else {
                    match body {
                        Option::Some(v) => match spec_decode_member_guild_settings_list(*v) {
                            Option::Some(sv) => r matches Ok(x) && member_guild_settings_views(x@) == sv,
                            Option::None => r == Err::<Vec<MemberGuildSettings>, PkError>(PkError::Schema),
                        },
                        Option::None => r == Err::<Vec<MemberGuildSettings>, PkError>(PkError::Schema),
                    }
                }
            },
        },
{
    match outcome {
        HttpOutcome::Failure(m) => Err(PkError::Transport(m.clone())),
        HttpOutcome::Response { status, body } => {
            if !(200 <= *status && *status < 300) {
                Err(PkError::Status(*status))
            } else {
                match body {
                    Option::Some(v) => match member_guild_settings_list_from_json(v) {
                        Option::Some(x) => {
                    proof {
                        let sv = spec_decode_member_guild_settings_list(*v)->0;
                        assert(member_guild_settings_views(x@) =~= sv);
                    }
                            Ok(x)
                        },
                        Option::None => Err(PkError::Schema),
                    },
                    Option::None => Err(PkError::Schema),
                }
            }
        },
    }
}

} // verus!
