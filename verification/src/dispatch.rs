//! The dispatcher: from a parsed command to an exchange, and from the
//! exchange's outcome to what the terminal shows.
//!
//! [`plan`] decides, for one command, whether to answer directly, to ask the
//! user for more input, to replace the session credential, or to perform one
//! exchange; [`conclude`] judges the outcome of that exchange. The
//! surrounding program only shuttles: it prompts, sends, and prints.

use vstd::prelude::*;
use crate::commands::{Cli, Commands, SystemCommands, SystemSetCommands, MemberCommands,
    MemberGroupCommands, SwitchCommands};
use crate::codec::{spec_decode_system, spec_decode_member};
use crate::http::{PkClient, HttpRequest, HttpOutcome, Method, PkError, spec_request,
    spec_is_success, spec_is_no_content, check_no_content};
use crate::json::JsonValue;
use crate::model::{PkId, System, SystemView, Member, MemberView, Group, Switch, opt_view};
use crate::responses::{read_system, read_member, read_groups, read_switches};
use crate::timestamp::{Timestamp, spec_rfc3339, spec_parse_rfc3339, parse_rfc3339, now_utc};
use crate::decimal::spec_decimal;

verus! {

/// The system fields the terminal can set directly.
#[derive(Debug, Clone, Copy, PartialEq, Eq, Structural)]
pub enum SystemField {
    Name,
    Description,
    Tag,
}

/// What an in-flight exchange was for, so its outcome can be judged.
#[derive(Debug, Clone, PartialEq, Eq)]
pub enum CallTag {
    ShowSystem,
    UpdateSystemField { field: SystemField, value: String },
    ShowMember,
    CreateMember,
    DeleteMember { member_id: String },
    ListMemberGroups,
    ChangeMemberGroups,
    ListSwitches,
    NewSwitch,
}

/// What one command asks the surrounding program to do.
#[derive(Debug)]
pub enum Action {
    /// Show this message; no exchange is needed.
    Reply { message: String },
    /// Ask the user this, then plan again with the answer filled in.
    NeedInput { prompt: String },
    /// Replace the session's credential.
    SetToken { token: String },
    /// Perform this exchange and judge its outcome under the tag.
    Call { request: HttpRequest, tag: CallTag },
}

/// What the terminal shows after a completed exchange.
#[derive(Debug, Clone, PartialEq, Eq)]
pub enum Conclusion {
    ShowSystem(System),
    ShowMember(Member),
    ShowGroups(Vec<Group>),
    ShowSwitches(Vec<Switch>),
    CreatedMember(Member),
    Note(String),
}

/// The reply to a command that nothing handles yet.
pub open spec fn spec_not_implemented() -> Seq<char> {
    "Command not yet implemented!"@
}

/// The reply to an empty invocation.
pub open spec fn spec_unknown() -> Seq<char> {
    "Unknown command!"@
}

/// The wording of a settable system field.
pub open spec fn spec_field_text(f: SystemField) -> Seq<char> {
    match f {
        SystemField::Name => "name"@,
        SystemField::Description => "description"@,
        SystemField::Tag => "tag"@,
    }
}

/// The wording of a settable system field.
pub fn field_text(f: &SystemField) -> (r: &'static str)
    ensures
        r@ == spec_field_text(*f),
{
    match f {
        SystemField::Name => "name",
        SystemField::Description => "description",
        SystemField::Tag => "tag",
    }
}

/// The plan of a system-field update: one PATCH of the default system with
/// exactly that field replaced.
pub open spec fn spec_set_plan(
    c: PkClient,
    ds: System,
    a: Action,
    field: SystemField,
    value: Seq<char>,
    updated: SystemView,
) -> bool {
    &&& a matches Action::Call { request, tag } && (tag matches CallTag::UpdateSystemField {
        field: f2,
        value: v2,
    } && f2 == field && v2@ == value) && spec_request(
        c,
        request,
        Method::Patch,
        "systems/"@ + ds.id@,
        Seq::empty(),
        request.body,
    ) && (request.body matches Some(b) && spec_decode_system(b) == Some(updated))
}

/// The plan of a switch registration: one POST whose body carries the
/// instant (or `null`) and the member ids in order.
pub open spec fn spec_new_switch_plan(
    c: PkClient,
    ds: System,
    a: Action,
    members: Seq<String>,
    time: Option<Timestamp>,
) -> bool {
    &&& a matches Action::Call { request, tag } && tag == CallTag::NewSwitch && spec_request(
        c,
        request,
        Method::Post,
        "systems/"@ + ds.id@ + "/switches"@,
        Seq::empty(),
        request.body,
    ) && (request.body matches Some(b) && b matches JsonValue::Obj(f) && f@.len() == 2
        && f@[0].0@ == "timestamp"@ && f@[1].0@ == "members"@ && (match time {
        Option::Some(t) => f@[0].1 matches JsonValue::Str(s) && s@ == spec_rfc3339(t),
        Option::None => f@[0].1 == JsonValue::Null,
    }) && (f@[1].1 matches JsonValue::Arr(ids) && ids@.len() == members.len() && (forall|i: int|
        0 <= i < ids@.len() ==> (#[trigger] ids@[i] matches JsonValue::Str(s) && s@
            == members[i]@))))
}

/// The fresh member record a creation command submits: the chosen name and
/// optional fields, everything else left for the service to assign.
pub open spec fn spec_fresh_member(
    name: Seq<char>,
    avatar: Option<Seq<char>>,
    description: Option<Seq<char>>,
) -> MemberView {
    MemberView {
        id: Seq::empty(),
        uuid: Seq::empty(),
        name: name,
        display_name: Option::None,
        color: Option::None,
        birthday: Option::None,
        pronouns: Option::None,
        avatar_url: avatar,
        webhook_avatar_url: Option::None,
        banner: Option::None,
        description: description,
        created: Option::None,
        proxy_tags: Seq::empty(),
        keep_proxy: false,
        autoproxy_enabled: Option::None,
        message_count: Option::None,
        last_message_timestamp: Option::None,
        privacy: Option::None,
    }
}

/// What [`plan`] decides for every command.
pub open spec fn spec_plan_ok(c: PkClient, cli: Cli, ds: System, a: Action) -> bool {
    match cli.command {
        Option::None => a matches Action::Reply { message } && message@ == spec_unknown(),
        Option::Some(cmd) => match cmd {
            Commands::Token { token } => a matches Action::SetToken { token: t2 } && t2@
                == token@,
            Commands::System { command } => match command {
                SystemCommands::Get { system_id } => {
                    let id: Seq<char> = match system_id {
                        Option::Some(s) => s@,
                        Option::None => ds.id@,
                    };
                    a matches Action::Call { request, tag } && tag == CallTag::ShowSystem
                        && spec_request(
                        c,
                        request,
                        Method::Get,
                        "systems/"@ + id,
                        Seq::empty(),
                        Option::None,
                    )
                },
                SystemCommands::Change { command } => match command {
                    SystemSetCommands::Name { name } => spec_set_plan(
                        c,
                        ds,
                        a,
                        SystemField::Name,
                        name@,
                        SystemView { name: Option::Some(name@), ..ds@ },
                    ),
                    SystemSetCommands::Description { description } => spec_set_plan(
                        c,
                        ds,
                        a,
                        SystemField::Description,
                        description@,
                        SystemView { description: Option::Some(description@), ..ds@ },
                    ),
                    SystemSetCommands::Tag { tag } => spec_set_plan(
                        c,
                        ds,
                        a,
                        SystemField::Tag,
                        tag@,
                        SystemView { tag: Option::Some(tag@), ..ds@ },
                    ),
                    _ => a matches Action::Reply { message } && message@
                        == spec_not_implemented(),
                },
            },
            Commands::Member { command } => match command {
                MemberCommands::Get { member_id } => a matches Action::Call { request, tag }
                    && tag == CallTag::ShowMember && spec_request(
                    c,
                    request,
                    Method::Get,
                    "members/"@ + member_id@,
                    Seq::empty(),
                    Option::None,
                ),
                MemberCommands::Create { name, avatar, description } => match name {
                    Option::Some(n) => a matches Action::Call { request, tag } && tag
                        == CallTag::CreateMember && spec_request(
                        c,
                        request,
                        Method::Post,
                        "members"@,
                        Seq::empty(),
                        request.body,
                    ) && (request.body matches Some(b) && spec_decode_member(b) == Some(
                        spec_fresh_member(n@, opt_view(avatar), opt_view(description)),
                    )),
                    Option::None => a matches Action::NeedInput { prompt } && prompt@
                        == "Name: "@,
                },
                MemberCommands::Delete { member_id, confirm } => match confirm {
                    Option::Some(true) => a matches Action::Call { request, tag } && (tag
                        matches CallTag::DeleteMember { member_id: m2 } && m2@ == member_id@)
                        && spec_request(
                        c,
                        request,
                        Method::Delete,
                        "members/"@ + member_id@,
                        Seq::empty(),
                        Option::None,
                    ),
                    Option::Some(false) => a matches Action::Reply { message } && message@
                        == "Aborted deletion!"@,
                    Option::None => a matches Action::NeedInput { prompt } && prompt@
                        == "Confirm (y/n): "@,
                },
                MemberCommands::Group { member_id, command } => match command {
                    MemberGroupCommands::List => a matches Action::Call { request, tag } && tag
                        == CallTag::ListMemberGroups && spec_request(
                        c,
                        request,
                        Method::Get,
                        "members/"@ + member_id@ + "/groups"@,
                        Seq::empty(),
                        Option::None,
                    ),
                    MemberGroupCommands::Add { group_id } => a matches Action::Call {
                        request,
                        tag,
                    } && tag == CallTag::ChangeMemberGroups && spec_request(
                        c,
                        request,
                        Method::Post,
                        "members/"@ + member_id@ + "/groups/"@ + "add"@,
                        Seq::empty(),
                        request.body,
                    ) && (request.body matches Some(b) && b matches JsonValue::Arr(ids)
                        && ids@.len() == 1 && (ids@[0] matches JsonValue::Str(s) && s@
                        == group_id@)),
                    MemberGroupCommands::Remove { group_id } => a matches Action::Call {
                        request,
                        tag,
                    } && tag == CallTag::ChangeMemberGroups && spec_request(
                        c,
                        request,
                        Method::Post,
                        "members/"@ + member_id@ + "/groups/"@ + "remove"@,
                        Seq::empty(),
                        request.body,
                    ) && (request.body matches Some(b) && b matches JsonValue::Arr(ids)
                        && ids@.len() == 1 && (ids@[0] matches JsonValue::Str(s) && s@
                        == group_id@)),
                },
                _ => a matches Action::Reply { message } && message@ == spec_not_implemented(),
            },
            Commands::Group { command } => a matches Action::Reply { message } && message@
                == spec_not_implemented(),
            Commands::Switch { command } => match command {
                SwitchCommands::List { system_id } => a matches Action::Call { request, tag }
                    && tag == CallTag::ListSwitches && (exists|t: Timestamp|
                    t.valid() && spec_request(
                        c,
                        request,
                        Method::Get,
                        "systems/"@ + ds.id@ + "/switches"@,
                        seq![("before"@, spec_rfc3339(t)), ("limit"@, spec_decimal(10))],
                        Option::None,
                    )),
                SwitchCommands::New { members, time } => match time {
                    Option::Some(ts) => match spec_parse_rfc3339(ts@) {
                        Option::Some(t) => spec_new_switch_plan(
                            c,
                            ds,
                            a,
                            members@,
                            Option::Some(t),
                        ),
                        Option::None => a matches Action::Reply { message } && message@
                            == "Invalid timestamp"@,
                    },
                    Option::None => spec_new_switch_plan(c, ds, a, members@, Option::None),
                },
            },
        },
    }
}

/// Copies an optional text value.
fn clone_opt_string(o: &Option<String>) -> (r: Option<String>)
    ensures
        r == *o,
{
    match o {
        Option::Some(s) => Some(s.clone()),
        Option::None => None,
    }
}

/// Copies a system record.
fn copy_system(s: &System) -> (r: System)
    ensures
        r == *s,
{
    System {
        id: PkId(s.id.0.clone()),
        name: clone_opt_string(&s.name),
        description: clone_opt_string(&s.description),
        tag: clone_opt_string(&s.tag),
        avatar_url: clone_opt_string(&s.avatar_url),
        created: s.created,
        privacy: s.privacy,
    }
}

/// Turns id text into id values.
fn pkids_of_strings(ids: &Vec<String>) -> (r: Vec<PkId>)
    ensures
        r@.len() == ids@.len(),
        forall|i: int| 0 <= i < ids@.len() ==> #[trigger] r@[i]@ == ids@[i]@,
{
    let mut out: Vec<PkId> = Vec::new();
    let n = ids.len();
    let mut i: usize = 0;
    while i < n
        invariant
            i <= n == ids@.len(),
            out@.len() == i,
            forall|j: int| 0 <= j < i ==> #[trigger] out@[j]@ == ids@[j]@,
        decreases n - i,
    {
        out.push(PkId(ids[i].clone()));
        i = i + 1;
    }
    out
}

/// Decides what one command does, as [`spec_plan_ok`] describes.
pub fn plan(client: &PkClient, cli: &Cli, default_sys: &System) -> (a: Action)
    requires
        default_sys.wf(),
    ensures
        spec_plan_ok(*client, *cli, *default_sys, a),
{
    let command = match &cli.command {
        Option::Some(cmd) => cmd,
        Option::None => {
            return Action::Reply { message: "Unknown command!".to_owned() };
        },
    };
    match command {
        Commands::Token { token } => Action::SetToken { token: token.clone() },
        Commands::System { command } => match command {
            SystemCommands::Get { system_id } => {
                let id: PkId = match system_id {
                    Option::Some(s) => PkId(s.clone()),
                    Option::None => PkId(default_sys.id.0.clone()),
                };
                Action::Call { request: client.get_system(&id), tag: CallTag::ShowSystem }
            },
            SystemCommands::Change { command } => match command {
                SystemSetCommands::Name { name } => {
                    let mut sys = copy_system(default_sys);
                    sys.name = Some(name.clone());
                    Action::Call {
                        request: client.update_system(&sys),
                        tag: CallTag::UpdateSystemField {
                            field: SystemField::Name,
                            value: name.clone(),
                        },
                    }
                },
                SystemSetCommands::Description { description } => {
                    let mut sys = copy_system(default_sys);
                    sys.description = Some(description.clone());
                    Action::Call {
                        request: client.update_system(&sys),
                        tag: CallTag::UpdateSystemField {
                            field: SystemField::Description,
                            value: description.clone(),
                        },
                    }
                },
                SystemSetCommands::Tag { tag } => {
                    let mut sys = copy_system(default_sys);
                    sys.tag = Some(tag.clone());
                    Action::Call {
                        request: client.update_system(&sys),
                        tag: CallTag::UpdateSystemField {
                            field: SystemField::Tag,
                            value: tag.clone(),
                        },
                    }
                },
                _ => Action::Reply { message: "Command not yet implemented!".to_owned() },
            },
        },
        Commands::Member { command } => match command {
            MemberCommands::Get { member_id } => {
                let id = PkId(member_id.clone());
                Action::Call { request: client.get_member(&id), tag: CallTag::ShowMember }
            },
            MemberCommands::Create { name, avatar, description } => {
                let n = match name {
                    Option::Some(n) => n,
                    Option::None => {
                        return Action::NeedInput { prompt: "Name: ".to_owned() };
                    },
                };
                let member = Member {
                    id: PkId(String::new()),
                    uuid: String::new(),
                    name: n.clone(),
                    display_name: None,
                    color: None,
                    birthday: None,
                    pronouns: None,
                    avatar_url: clone_opt_string(avatar),
                    webhook_avatar_url: None,
                    banner: None,
                    description: clone_opt_string(description),
                    created: None,
                    proxy_tags: Vec::new(),
                    keep_proxy: false,
                    autoproxy_enabled: None,
                    message_count: None,
                    last_message_timestamp: None,
                    privacy: None,
                };
                proof {
                    assert(member@.proxy_tags =~= Seq::<crate::model::ProxyTagView>::empty());
                    assert(member@ == spec_fresh_member(
                        n@,
                        opt_view(*avatar),
                        opt_view(*description),
                    ));
                }
                Action::Call { request: client.create_member(&member), tag: CallTag::CreateMember }
            },
            MemberCommands::Delete { member_id, confirm } => match confirm {
                Option::Some(true) => {
                    let id = PkId(member_id.clone());
                    Action::Call {
                        request: client.delete_member(&id),
                        tag: CallTag::DeleteMember { member_id: member_id.clone() },
                    }
                },
                Option::Some(false) => Action::Reply {
                    message: "Aborted deletion!".to_owned(),
                },
                Option::None => Action::NeedInput { prompt: "Confirm (y/n): ".to_owned() },
            },
            MemberCommands::Group { member_id, command } => {
                let id = PkId(member_id.clone());
                match command {
                    MemberGroupCommands::List => Action::Call {
                        request: client.get_member_groups(&id),
                        tag: CallTag::ListMemberGroups,
                    },
                    MemberGroupCommands::Add { group_id } => {
                        let mut gids: Vec<PkId> = Vec::new();
                        gids.push(PkId(group_id.clone()));
                        Action::Call {
                            request: client.add_member_groups(&id, &gids),
                            tag: CallTag::ChangeMemberGroups,
                        }
                    },
                    MemberGroupCommands::Remove { group_id } => {
                        let mut gids: Vec<PkId> = Vec::new();
                        gids.push(PkId(group_id.clone()));
                        Action::Call {
                            request: client.remove_member_groups(&id, &gids),
                            tag: CallTag::ChangeMemberGroups,
                        }
                    },
                }
            },
            _ => Action::Reply { message: "Command not yet implemented!".to_owned() },
        },
        Commands::Group { command } => Action::Reply {
            message: "Command not yet implemented!".to_owned(),
        },
        Commands::Switch { command } => match command {
            SwitchCommands::List { system_id } => {
                let now = now_utc();
                let limit: i32 = 10;
                Action::Call {
                    request: client.get_system_switches(&default_sys.id, &now, &limit),
                    tag: CallTag::ListSwitches,
                }
            },
            SwitchCommands::New { members, time } => {
                let when: Option<Timestamp> = match time {
                    Option::Some(ts) => match parse_rfc3339(ts.as_str()) {
                        Option::Some(t) => Some(t),
                        Option::None => {
                            return Action::Reply { message: "Invalid timestamp".to_owned() };
                        },
                    },
                    Option::None => None,
                };
                let ids = pkids_of_strings(members);
                Action::Call {
                    request: client.create_switch(&default_sys.id, &ids, &when),
                    tag: CallTag::NewSwitch,
                }
            },
        },
    }
}

/// What [`conclude`] decides for every tag and outcome: transport failures
/// and non-success statuses surface as errors, a no-content success is
/// success for the actions that expect one, and decoded records reach the
/// terminal unchanged.
pub open spec fn spec_conclude_ok(
    tag: CallTag,
    outcome: HttpOutcome,
    r: Result<Conclusion, PkError>,
) -> bool {
    match outcome {
        HttpOutcome::Failure(m) => r matches Err(e) && e matches PkError::Transport(t) && t@
            == m@,
        HttpOutcome::Response { status, body } => match tag {
            CallTag::ShowSystem => {
                if !spec_is_success(status) {
                    r == Err::<Conclusion, PkError>(PkError::Status(status))
                } else {
                    match body {
                        Option::Some(v) => match spec_decode_system(v) {
                            Option::Some(sv) => r matches Ok(c) && (c matches
                                Conclusion::ShowSystem(s) && s@ == sv),
                            Option::None => r == Err::<Conclusion, PkError>(PkError::Schema),
                        },
                        Option::None => r == Err::<Conclusion, PkError>(PkError::Schema),
                    }
                }
            },
            CallTag::UpdateSystemField { field, value } => {
                if !spec_is_success(status) {
                    r == Err::<Conclusion, PkError>(PkError::Status(status))
                } else {
                    match body {
                        Option::Some(v) => match spec_decode_system(v) {
                            Option::Some(sv) => r matches Ok(c) && (c matches Conclusion::Note(m)
                                && m@ == "Set "@ + spec_field_text(field) + " to "@ + value@),
                            Option::None => r == Err::<Conclusion, PkError>(PkError::Schema),
                        },
                        Option::None => r == Err::<Conclusion, PkError>(PkError::Schema),
                    }
                }
            },
            CallTag::ShowMember => {
                if !spec_is_success(status) {
                    r == Err::<Conclusion, PkError>(PkError::Status(status))
                } else {
                    match body {
                        Option::Some(v) => match spec_decode_member(v) {
                            Option::Some(mv) => r matches Ok(c) && (c matches
                                Conclusion::ShowMember(m) && m@ == mv),
                            Option::None => r == Err::<Conclusion, PkError>(PkError::Schema),
                        },
                        Option::None => r == Err::<Conclusion, PkError>(PkError::Schema),
                    }
                }
            },
            CallTag::CreateMember => {
                if !spec_is_success(status) {
                    r == Err::<Conclusion, PkError>(PkError::Status(status))
                } else {
                    match body {
                        Option::Some(v) => match spec_decode_member(v) {
                            Option::Some(mv) => r matches Ok(c) && (c matches
                                Conclusion::CreatedMember(m) && m@ == mv),
                            Option::None => r == Err::<Conclusion, PkError>(PkError::Schema),
                        },
                        Option::None => r == Err::<Conclusion, PkError>(PkError::Schema),
                    }
                }
            },
            CallTag::DeleteMember { member_id } => {
                if spec_is_no_content(status) {
                    r matches Ok(c) && (c matches Conclusion::Note(m) && m@ == "Deleted member "@
                        + member_id@)
                } else {
                    r matches Ok(c) && (c matches Conclusion::Note(m) && m@
                        == "Failed to delete member "@ + member_id@)
                }
            },
            CallTag::ListMemberGroups => {
                if !spec_is_success(status) {
                    r == Err::<Conclusion, PkError>(PkError::Status(status))
                } else {
                    match body {
                        Option::Some(v) => match crate::codec::spec_decode_groups(v) {
                            Option::Some(gv) => r matches Ok(c) && (c matches
                                Conclusion::ShowGroups(gs) && crate::model::group_views(gs@)
                                == gv),
                            Option::None => r == Err::<Conclusion, PkError>(PkError::Schema),
                        },
                        Option::None => r == Err::<Conclusion, PkError>(PkError::Schema),
                    }
                }
            },
            CallTag::ChangeMemberGroups => {
                if spec_is_no_content(status) {
                    r matches Ok(c) && (c matches Conclusion::Note(m) && m@
                        == "Updated member groups"@)
                } else {
                    r == Err::<Conclusion, PkError>(PkError::Status(status))
                }
            },
            CallTag::ListSwitches => {
                if !spec_is_success(status) {
                    r == Err::<Conclusion, PkError>(PkError::Status(status))
                } else {
                    match body {
                        Option::Some(v) => match crate::codec::spec_decode_switches(v) {
                            Option::Some(sv) => r matches Ok(c) && (c matches
                                Conclusion::ShowSwitches(ss) && crate::model::switch_views(ss@)
                                == sv),
                            Option::None => r == Err::<Conclusion, PkError>(PkError::Schema),
                        },
                        Option::None => r == Err::<Conclusion, PkError>(PkError::Schema),
                    }
                }
            },
            CallTag::NewSwitch => {
                if spec_is_success(status) {
                    r matches Ok(c) && (c matches Conclusion::Note(m) && m@
                        == "Registered switch"@)
                } else {
                    r == Err::<Conclusion, PkError>(PkError::Status(status))
                }
            },
        },
    }
}

/// The message of a completed system-field update.
fn set_message(field: &SystemField, value: &String) -> (r: String)
    ensures
        r@ == "Set "@ + spec_field_text(*field) + " to "@ + value@,
{
    let mut m: String = "Set ".to_owned();
    m.append(field_text(field));
    m.append(" to ");
    m.append(value.as_str());
    m
}

/// A message naming a member.
fn about_member(prefix: &str, member_id: &String) -> (r: String)
    ensures
        r@ == prefix@ + member_id@,
{
    let mut m: String = prefix.to_owned();
    m.append(member_id.as_str());
    m
}

/// Judges the outcome of one exchange, as [`spec_conclude_ok`] describes.
pub fn conclude(tag: &CallTag, outcome: &HttpOutcome) -> (r: Result<Conclusion, PkError>)
    ensures
        spec_conclude_ok(*tag, *outcome, r),
{
    match tag {
        CallTag::ShowSystem => match read_system(outcome) {
            Ok(s) => Ok(Conclusion::ShowSystem(s)),
            Err(e) => Err(e),
        },
        CallTag::UpdateSystemField { field, value } => match read_system(outcome) {
            Ok(_) => Ok(Conclusion::Note(set_message(field, value))),
            Err(e) => Err(e),
        },
        CallTag::ShowMember => match read_member(outcome) {
            Ok(m) => Ok(Conclusion::ShowMember(m)),
            Err(e) => Err(e),
        },
        CallTag::CreateMember => match read_member(outcome) {
            Ok(m) => Ok(Conclusion::CreatedMember(m)),
            Err(e) => Err(e),
        },
        CallTag::DeleteMember { member_id } => match outcome {
            HttpOutcome::Failure(m) => Err(PkError::Transport(m.clone())),
            HttpOutcome::Response { status, .. } => {
                if *status == 204 {
                    Ok(Conclusion::Note(about_member("Deleted member ", member_id)))
                } else {
                    Ok(Conclusion::Note(about_member("Failed to delete member ", member_id)))
                }
            },
        },
        CallTag::ListMemberGroups => match read_groups(outcome) {
            Ok(gs) => Ok(Conclusion::ShowGroups(gs)),
            Err(e) => Err(e),
        },
        CallTag::ChangeMemberGroups => match check_no_content(outcome) {
            Ok(_) => Ok(Conclusion::Note("Updated member groups".to_owned())),
            Err(e) => Err(e),
        },
        CallTag::ListSwitches => match read_switches(outcome) {
            Ok(ss) => Ok(Conclusion::ShowSwitches(ss)),
            Err(e) => Err(e),
        },
        CallTag::NewSwitch => match outcome {
            HttpOutcome::Failure(m) => Err(PkError::Transport(m.clone())),
            HttpOutcome::Response { status, .. } => {
                if 200 <= *status && *status < 300 {
                    Ok(Conclusion::Note("Registered switch".to_owned()))
                } else {
                    Err(PkError::Status(*status))
                }
            },
        },
    }
}

} // verus!
