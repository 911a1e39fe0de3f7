//! The endpoint catalog: one request builder per resource action.
//!
//! Each method mirrors one remote endpoint and states in its contract the
//! exact verb, path, query parameters and body of the exchange it describes.
//! The surrounding program performs the exchange and hands the outcome to
//! the readers in [`crate::responses`].

use vstd::prelude::*;
use crate::codec::{system_to_json, member_to_json, group_to_json, system_settings_to_json,
    system_guild_settings_to_json, autoproxy_settings_to_json, member_guild_settings_to_json,
    switch_create_json, pkids_to_json, push_field, spec_decode_system, spec_decode_member,
    spec_decode_group, spec_decode_system_settings, spec_decode_system_guild_settings,
    spec_decode_autoproxy_settings, spec_decode_member_guild_settings};
use crate::http::{PkClient, HttpRequest, Method, spec_request, spec_query_view};
use crate::json::JsonValue;
use crate::model::{PkId, System, Member, Group, SystemSettings, SystemGuildSettings,
    AutoProxySettings, MemberGuildSettings};
use crate::timestamp::{Timestamp, spec_rfc3339, format_rfc3339};
use crate::decimal::{spec_decimal, i32_to_decimal};

verus! {

/// `a` then `b`, as one path.
fn join2(a: &str, b: &str) -> (r: String)
    ensures
        r@ == a@ + b@,
{
    let mut s: String = a.to_owned();
    s.append(b);
    s
}

/// `a` through `c`, as one path.
fn join3(a: &str, b: &str, c: &str) -> (r: String)
    ensures
        r@ == a@ + b@ + c@,
{
    let mut s: String = a.to_owned();
    s.append(b);
    s.append(c);
    s
}

/// `a` through `d`, as one path.
fn join4(a: &str, b: &str, c: &str, d: &str) -> (r: String)
    ensures
        r@ == a@ + b@ + c@ + d@,
{
    let mut s: String = a.to_owned();
    s.append(b);
    s.append(c);
    s.append(d);
    s
}

/// An empty query list.
fn no_query() -> (r: Vec<(String, String)>)
    ensures
        spec_query_view(r@) == Seq::<(Seq<char>, Seq<char>)>::empty(),
{
    let r: Vec<(String, String)> = Vec::new();
    proof {
        assert(spec_query_view(r@) =~= Seq::<(Seq<char>, Seq<char>)>::empty());
    }
    r
}

impl PkClient {
    /// Fetches a system.
    pub fn get_system(&self, system_id: &PkId) -> (r: HttpRequest)
        ensures
            spec_request(
                *self,
                r,
                Method::Get,
                "systems/"@ + system_id@,
                Seq::empty(),
                Option::None,
            ),
    {
        self.request(Method::Get, join2("systems/", system_id.0.as_str()), no_query(), None)
    }

    /// Submits a system record for update; the body is exactly the record's
    /// JSON form, which reads back as the record.
    pub fn update_system(&self, system: &System) -> (r: HttpRequest)
        requires
            system.wf(),
        ensures
            spec_request(*self, r, Method::Patch, "systems/"@ + system.id@, Seq::empty(), r.body),
            r.body matches Some(b) && spec_decode_system(b) == Some(system@),
    {
        let body = system_to_json(system);
        self.request(
            Method::Patch,
            join2("systems/", system.id.0.as_str()),
            no_query(),
            Some(body),
        )
    }

    /// Fetches a system's settings.
    pub fn get_system_settings(&self, system_id: &PkId) -> (r: HttpRequest)
        ensures
            spec_request(
                *self,
                r,
                Method::Get,
                "systems/"@ + system_id@ + "/settings"@,
                Seq::empty(),
                Option::None,
            ),
    {
        self.request(
            Method::Get,
            join3("systems/", system_id.0.as_str(), "/settings"),
            no_query(),
            None,
        )
    }

    /// Submits a system's settings for update.
    pub fn update_system_settings(&self, system_id: &PkId, settings: &SystemSettings) -> (r:
        HttpRequest)
        ensures
            spec_request(
                *self,
                r,
                Method::Patch,
                "systems/"@ + system_id@ + "/settings"@,
                Seq::empty(),
                r.body,
            ),
            r.body matches Some(b) && spec_decode_system_settings(b) == Some(settings@),
    {
        let body = system_settings_to_json(settings);
        self.request(
            Method::Patch,
            join3("systems/", system_id.0.as_str(), "/settings"),
            no_query(),
            Some(body),
        )
    }

    /// Fetches a system's settings for one guild.
    pub fn get_system_guild_settings(&self, system_id: &PkId, guild_id: &str) -> (r: HttpRequest)
        ensures
            spec_request(
                *self,
                r,
                Method::Get,
                "systems/"@ + system_id@ + "/settings/guilds/"@ + guild_id@,
                Seq::empty(),
                Option::None,
            ),
    {
        self.request(
            Method::Get,
            join4("systems/", system_id.0.as_str(), "/settings/guilds/", guild_id),
            no_query(),
            None,
        )
    }

    /// Submits a system's per-guild settings for update.
    pub fn update_system_guild_settings(
        &self,
        system_id: &PkId,
        guild_id: &str,
        settings: &SystemGuildSettings,
    ) -> (r: HttpRequest)
        ensures
            spec_request(
                *self,
                r,
                Method::Patch,
                "systems/"@ + system_id@ + "/settings/guilds/"@ + guild_id@,
                Seq::empty(),
                r.body,
            ),
            r.body matches Some(b) && spec_decode_system_guild_settings(b) == Some(settings@),
    {
        let body = system_guild_settings_to_json(settings);
        self.request(
            Method::Patch,
            join4("systems/", system_id.0.as_str(), "/settings/guilds/", guild_id),
            no_query(),
            Some(body),
        )
    }

    /// Fetches a system's autoproxy settings for one guild, named in the
    /// query string.
    pub fn get_system_autoproxy_settings(&self, system_id: &PkId, guild_id: &str) -> (r:
        HttpRequest)
        ensures
            spec_request(
                *self,
                r,
                Method::Get,
                "systems/"@ + system_id@ + "/autoproxy"@,
                seq![("guild_id"@, guild_id@)],
                Option::None,
            ),
    {
        let mut query: Vec<(String, String)> = Vec::new();
        query.push(("guild_id".to_owned(), guild_id.to_owned()));
        proof {
            assert(spec_query_view(query@) =~= seq![("guild_id"@, guild_id@)]);
        }
        self.request(
            Method::Get,
            join3("systems/", system_id.0.as_str(), "/autoproxy"),
            query,
            None,
        )
    }

    /// Submits a system's autoproxy settings for one guild.
    pub fn update_system_autoproxy_settings(
        &self,
        system_id: &PkId,
        guild_id: &str,
        settings: &AutoProxySettings,
    ) -> (r: HttpRequest)
        requires
            settings.wf(),
        ensures
            spec_request(
                *self,
                r,
                Method::Patch,
                "systems/"@ + system_id@ + "/autoproxy"@,
                seq![("guild_id"@, guild_id@)],
                r.body,
            ),
            r.body matches Some(b) && spec_decode_autoproxy_settings(b) == Some(settings@),
    {
        let body = autoproxy_settings_to_json(settings);
        let mut query: Vec<(String, String)> = Vec::new();
        query.push(("guild_id".to_owned(), guild_id.to_owned()));
        proof {
            assert(spec_query_view(query@) =~= seq![("guild_id"@, guild_id@)]);
        }
        self.request(
            Method::Patch,
            join3("systems/", system_id.0.as_str(), "/autoproxy"),
            query,
            Some(body),
        )
    }

    /// Fetches a system's member list.
    pub fn get_system_members(&self, system_id: &PkId) -> (r: HttpRequest)
        ensures
            spec_request(
                *self,
                r,
                Method::Get,
                "systems/"@ + system_id@ + "/members"@,
                Seq::empty(),
                Option::None,
            ),
    {
        self.request(
            Method::Get,
            join3("systems/", system_id.0.as_str(), "/members"),
            no_query(),
            None,
        )
    }

    /// Submits a new member record.
    pub fn create_member(&self, member: &Member) -> (r: HttpRequest)
        requires
            member.wf(),
        ensures
            spec_request(*self, r, Method::Post, "members"@, Seq::empty(), r.body),
            r.body matches Some(b) && spec_decode_member(b) == Some(member@),
    {
        let body = member_to_json(member);
        self.request(Method::Post, "members".to_owned(), no_query(), Some(body))
    }

    /// Fetches a member.
    pub fn get_member(&self, member_id: &PkId) -> (r: HttpRequest)
        ensures
            spec_request(
                *self,
                r,
                Method::Get,
                "members/"@ + member_id@,
                Seq::empty(),
                Option::None,
            ),
    {
        self.request(Method::Get, join2("members/", member_id.0.as_str()), no_query(), None)
    }

    /// Submits a member record for update.
    pub fn update_member(&self, member: &Member) -> (r: HttpRequest)
        requires
            member.wf(),
        ensures
            spec_request(*self, r, Method::Patch, "members/"@ + member.id@, Seq::empty(), r.body),
            r.body matches Some(b) && spec_decode_member(b) == Some(member@),
    {
        let body = member_to_json(member);
        self.request(
            Method::Patch,
            join2("members/", member.id.0.as_str()),
            no_query(),
            Some(body),
        )
    }

    /// Asks for a member's deletion.
    pub fn delete_member(&self, member_id: &PkId) -> (r: HttpRequest)
        ensures
            spec_request(
                *self,
                r,
                Method::Delete,
                "members/"@ + member_id@,
                Seq::empty(),
                Option::None,
            ),
    {
        self.request(Method::Delete, join2("members/", member_id.0.as_str()), no_query(), None)
    }

    /// Fetches the groups a member belongs to.
    pub fn get_member_groups(&self, member_id: &PkId) -> (r: HttpRequest)
        ensures
            spec_request(
                *self,
                r,
                Method::Get,
                "members/"@ + member_id@ + "/groups"@,
                Seq::empty(),
                Option::None,
            ),
    {
        self.request(
            Method::Get,
            join3("members/", member_id.0.as_str(), "/groups"),
            no_query(),
            None,
        )
    }

    /// One membership mutation on a member's group list.
    fn member_groups(&self, action: &str, member_id: &PkId, group_ids: &Vec<PkId>) -> (r:
        HttpRequest)
        ensures
            spec_request(
                *self,
                r,
                Method::Post,
                "members/"@ + member_id@ + "/groups/"@ + action@,
                Seq::empty(),
                r.body,
            ),
            r.body matches Some(b) && b matches JsonValue::Arr(a) && a@.len() == group_ids@.len()
                && (forall|i: int|
                0 <= i < a@.len() ==> (#[trigger] a@[i] matches JsonValue::Str(s) && s@
                    == group_ids@[i]@)),
    {
        let body = JsonValue::Arr(pkids_to_json(group_ids));
        self.request(
            Method::Post,
            join4("members/", member_id.0.as_str(), "/groups/", action),
            no_query(),
            Some(body),
        )
    }

    /// Adds a member to the named groups.
    pub fn add_member_groups(&self, member_id: &PkId, group_ids: &Vec<PkId>) -> (r: HttpRequest)
        ensures
            spec_request(
                *self,
                r,
                Method::Post,
                "members/"@ + member_id@ + "/groups/"@ + "add"@,
                Seq::empty(),
                r.body,
            ),
            r.body matches Some(b) && b matches JsonValue::Arr(a) && a@.len() == group_ids@.len()
                && (forall|i: int|
                0 <= i < a@.len() ==> (#[trigger] a@[i] matches JsonValue::Str(s) && s@
                    == group_ids@[i]@)),
    {
        self.member_groups("add", member_id, group_ids)
    }

    /// Removes a member from the named groups.
    pub fn remove_member_groups(&self, member_id: &PkId, group_ids: &Vec<PkId>) -> (r:
        HttpRequest)
        ensures
            spec_request(
                *self,
                r,
                Method::Post,
                "members/"@ + member_id@ + "/groups/"@ + "remove"@,
                Seq::empty(),
                r.body,
            ),
            r.body matches Some(b) && b matches JsonValue::Arr(a) && a@.len() == group_ids@.len()
                && (forall|i: int|
                0 <= i < a@.len() ==> (#[trigger] a@[i] matches JsonValue::Str(s) && s@
                    == group_ids@[i]@)),
    {
        self.member_groups("remove", member_id, group_ids)
    }

    /// Replaces a member's group list with the named groups.
    pub fn overwrite_member_groups(&self, member_id: &PkId, group_ids: &Vec<PkId>) -> (r:
        HttpRequest)
        ensures
            spec_request(
                *self,
                r,
                Method::Post,
                "members/"@ + member_id@ + "/groups/"@ + "overwrite"@,
                Seq::empty(),
                r.body,
            ),
            r.body matches Some(b) && b matches JsonValue::Arr(a) && a@.len() == group_ids@.len()
                && (forall|i: int|
                0 <= i < a@.len() ==> (#[trigger] a@[i] matches JsonValue::Str(s) && s@
                    == group_ids@[i]@)),
    {
        self.member_groups("overwrite", member_id, group_ids)
    }

    /// Fetches a member's settings for one guild.
    pub fn get_member_guild_settings(&self, member_id: &PkId, guild_id: &str) -> (r: HttpRequest)
        ensures
            spec_request(
                *self,
                r,
                Method::Get,
                "members/"@ + member_id@ + "/guilds/"@ + guild_id@,
                Seq::empty(),
                Option::None,
            ),
    {
        self.request(
            Method::Get,
            join4("members/", member_id.0.as_str(), "/guilds/", guild_id),
            no_query(),
            None,
        )
    }

    /// Submits a member's per-guild settings for update.
    pub fn update_member_guild_settings(
        &self,
        member_id: &PkId,
        guild_id: &str,
        settings: &MemberGuildSettings,
    ) -> (r: HttpRequest)
        ensures
            spec_request(
                *self,
                r,
                Method::Patch,
                "members/"@ + member_id@ + "/guilds/"@ + guild_id@,
                Seq::empty(),
                r.body,
            ),
            r.body matches Some(b) && spec_decode_member_guild_settings(b) == Some(settings@),
    {
        let body = member_guild_settings_to_json(settings);
        self.request(
            Method::Patch,
            join4("members/", member_id.0.as_str(), "/guilds/", guild_id),
            no_query(),
            Some(body),
        )
    }
}

impl PkClient {
    /// Fetches a system's group list.
    pub fn get_system_groups(&self, system_id: &PkId) -> (r: HttpRequest)
        ensures
            spec_request(
                *self,
                r,
                Method::Get,
                "systems/"@ + system_id@ + "/groups"@,
                Seq::empty(),
                Option::None,
            ),
    {
        self.request(
            Method::Get,
            join3("systems/", system_id.0.as_str(), "/groups"),
            no_query(),
            None,
        )
    }

    /// Submits a new group record.
    pub fn create_group(&self, group: &Group) -> (r: HttpRequest)
        ensures
            spec_request(*self, r, Method::Post, "groups"@, Seq::empty(), r.body),
            r.body matches Some(b) && spec_decode_group(b) == Some(group@),
    {
        let body = group_to_json(group);
        self.request(Method::Post, "groups".to_owned(), no_query(), Some(body))
    }

    /// Fetches a group.
    pub fn get_group(&self, group_id: &PkId) -> (r: HttpRequest)
        ensures
            spec_request(
                *self,
                r,
                Method::Get,
                "groups/"@ + group_id@,
                Seq::empty(),
                Option::None,
            ),
    {
        self.request(Method::Get, join2("groups/", group_id.0.as_str()), no_query(), None)
    }

    /// Submits a group record for update.
    pub fn update_group(&self, group: &Group) -> (r: HttpRequest)
        ensures
            spec_request(*self, r, Method::Patch, "groups/"@ + group.id@, Seq::empty(), r.body),
            r.body matches Some(b) && spec_decode_group(b) == Some(group@),
    {
        let body = group_to_json(group);
        self.request(Method::Patch, join2("groups/", group.id.0.as_str()), no_query(), Some(body))
    }

    /// Asks for a group's deletion.
    pub fn delete_group(&self, group_id: &PkId) -> (r: HttpRequest)
        ensures
            spec_request(
                *self,
                r,
                Method::Delete,
                "groups/"@ + group_id@,
                Seq::empty(),
                Option::None,
            ),
    {
        self.request(Method::Delete, join2("groups/", group_id.0.as_str()), no_query(), None)
    }

    /// Fetches a group's member list.
    pub fn get_group_members(&self, group_id: &PkId) -> (r: HttpRequest)
        ensures
            spec_request(
                *self,
                r,
                Method::Get,
                "groups/"@ + group_id@ + "/members"@,
                Seq::empty(),
                Option::None,
            ),
    {
        self.request(
            Method::Get,
            join3("groups/", group_id.0.as_str(), "/members"),
            no_query(),
            None,
        )
    }

    /// One membership mutation on a group's member list.
    fn group_members(&self, action: &str, group_id: &PkId, member_ids: &Vec<PkId>) -> (r:
        HttpRequest)
        ensures
            spec_request(
                *self,
                r,
                Method::Post,
                "groups/"@ + group_id@ + "/members/"@ + action@,
                Seq::empty(),
                r.body,
            ),
            r.body matches Some(b) && b matches JsonValue::Arr(a) && a@.len()
                == member_ids@.len() && (forall|i: int|
                0 <= i < a@.len() ==> (#[trigger] a@[i] matches JsonValue::Str(s) && s@
                    == member_ids@[i]@)),
    {
        let body = JsonValue::Arr(pkids_to_json(member_ids));
        self.request(
            Method::Post,
            join4("groups/", group_id.0.as_str(), "/members/", action),
            no_query(),
            Some(body),
        )
    }

    /// Adds the named members to a group.
    pub fn add_group_members(&self, group_id: &PkId, member_ids: &Vec<PkId>) -> (r: HttpRequest)
        ensures
            spec_request(
                *self,
                r,
                Method::Post,
                "groups/"@ + group_id@ + "/members/"@ + "add"@,
                Seq::empty(),
                r.body,
            ),
            r.body matches Some(b) && b matches JsonValue::Arr(a) && a@.len()
                == member_ids@.len() && (forall|i: int|
                0 <= i < a@.len() ==> (#[trigger] a@[i] matches JsonValue::Str(s) && s@
                    == member_ids@[i]@)),
    {
        self.group_members("add", group_id, member_ids)
    }

    /// Removes the named members from a group.
    pub fn remove_group_members(&self, group_id: &PkId, member_ids: &Vec<PkId>) -> (r:
        HttpRequest)
        ensures
            spec_request(
                *self,
                r,
                Method::Post,
                "groups/"@ + group_id@ + "/members/"@ + "remove"@,
                Seq::empty(),
                r.body,
            ),
            r.body matches Some(b) && b matches JsonValue::Arr(a) && a@.len()
                == member_ids@.len() && (forall|i: int|
                0 <= i < a@.len() ==> (#[trigger] a@[i] matches JsonValue::Str(s) && s@
                    == member_ids@[i]@)),
    {
        self.group_members("remove", group_id, member_ids)
    }

    /// Replaces a group's member list with the named members.
    pub fn overwrite_group_members(&self, group_id: &PkId, member_ids: &Vec<PkId>) -> (r:
        HttpRequest)
        ensures
            spec_request(
                *self,
                r,
                Method::Post,
                "groups/"@ + group_id@ + "/members/"@ + "overwrite"@,
                Seq::empty(),
                r.body,
            ),
            r.body matches Some(b) && b matches JsonValue::Arr(a) && a@.len()
                == member_ids@.len() && (forall|i: int|
                0 <= i < a@.len() ==> (#[trigger] a@[i] matches JsonValue::Str(s) && s@
                    == member_ids@[i]@)),
    {
        self.group_members("overwrite", group_id, member_ids)
    }

    /// Fetches a page of a system's switch history: the `before` cursor is
    /// carried in strict RFC-3339 text and the page size as plain decimal
    /// text.
    pub fn get_system_switches(&self, system_id: &PkId, before: &Timestamp, limit: &i32) -> (r:
        HttpRequest)
        ensures
            spec_request(
                *self,
                r,
                Method::Get,
                "systems/"@ + system_id@ + "/switches"@,
                seq![("before"@, spec_rfc3339(*before)), ("limit"@, spec_decimal(*limit as int))],
                Option::None,
            ),
    {
        let mut query: Vec<(String, String)> = Vec::new();
        query.push(("before".to_owned(), format_rfc3339(before)));
        query.push(("limit".to_owned(), i32_to_decimal(*limit)));
        proof {
            assert(spec_query_view(query@) =~= seq![
                ("before"@, spec_rfc3339(*before)),
                ("limit"@, spec_decimal(*limit as int)),
            ]);
        }
        self.request(
            Method::Get,
            join3("systems/", system_id.0.as_str(), "/switches"),
            query,
            None,
        )
    }

    /// Fetches who is fronting now.
    pub fn get_system_fronters(&self, system_id: &PkId) -> (r: HttpRequest)
        ensures
            spec_request(
                *self,
                r,
                Method::Get,
                "systems/"@ + system_id@ + "/fronters"@,
                Seq::empty(),
                Option::None,
            ),
    {
        self.request(
            Method::Get,
            join3("systems/", system_id.0.as_str(), "/fronters"),
            no_query(),
            None,
        )
    }

    /// Registers a new switch: one POST whose body carries the instant (or
    /// `null` for "now") and the fronting members' ids in order.
    pub fn create_switch(
        &self,
        system_id: &PkId,
        member_ids: &Vec<PkId>,
        time: &Option<Timestamp>,
    ) -> (r: HttpRequest)
        ensures
            spec_request(
                *self,
                r,
                Method::Post,
                "systems/"@ + system_id@ + "/switches"@,
                Seq::empty(),
                r.body,
            ),
            r.body matches Some(b) && b matches JsonValue::Obj(f) && f@.len() == 2 && f@[0].0@
                == "timestamp"@ && f@[1].0@ == "members"@,
            r.body matches Some(b) && b matches JsonValue::Obj(f) ==> match time {
                Option::Some(t) => f@[0].1 matches JsonValue::Str(s) && s@ == spec_rfc3339(*t),
                Option::None => f@[0].1 == JsonValue::Null,
            },
            r.body matches Some(b) && b matches JsonValue::Obj(f) ==> (f@[1].1 matches
                JsonValue::Arr(ids) && ids@.len() == member_ids@.len() && (forall|i: int|
                0 <= i < ids@.len() ==> (#[trigger] ids@[i] matches JsonValue::Str(s) && s@
                    == member_ids@[i]@))),
    {
        let body = switch_create_json(member_ids, time);
        self.request(
            Method::Post,
            join3("systems/", system_id.0.as_str(), "/switches"),
            no_query(),
            Some(body),
        )
    }

    /// Fetches one switch.
    pub fn get_switch(&self, system_id: &PkId, switch_id: &str) -> (r: HttpRequest)
        ensures
            spec_request(
                *self,
                r,
                Method::Get,
                "systems/"@ + system_id@ + "/switches/"@ + switch_id@,
                Seq::empty(),
                Option::None,
            ),
    {
        self.request(
            Method::Get,
            join4("systems/", system_id.0.as_str(), "/switches/", switch_id),
            no_query(),
            None,
        )
    }

    /// Moves one switch to another instant.
    pub fn update_switch(&self, system_id: &PkId, switch_id: &str, time: &Timestamp) -> (r:
        HttpRequest)
        ensures
            spec_request(
                *self,
                r,
                Method::Patch,
                "systems/"@ + system_id@ + "/switches/"@ + switch_id@,
                Seq::empty(),
                r.body,
            ),
            r.body matches Some(b) && b matches JsonValue::Obj(f) && f@.len() == 1 && f@[0].0@
                == "timestamp"@ && (f@[0].1 matches JsonValue::Str(s) && s@ == spec_rfc3339(
                *time,
            )),
    {
        let mut fields: Vec<(String, JsonValue)> = Vec::new();
        push_field(&mut fields, "timestamp", JsonValue::Str(format_rfc3339(time)));
        self.request(
            Method::Patch,
            join4("systems/", system_id.0.as_str(), "/switches/", switch_id),
            no_query(),
            Some(JsonValue::Obj(fields)),
        )
    }

    /// Replaces one switch's member list.
    pub fn update_switch_members(
        &self,
        system_id: &PkId,
        switch_id: &str,
        members: &Vec<PkId>,
    ) -> (r: HttpRequest)
        ensures
            spec_request(
                *self,
                r,
                Method::Patch,
                "systems/"@ + system_id@ + "/switches/"@ + switch_id@ + "/members"@,
                Seq::empty(),
                r.body,
            ),
            r.body matches Some(b) && b matches JsonValue::Arr(a) && a@.len() == members@.len()
                && (forall|i: int|
                0 <= i < a@.len() ==> (#[trigger] a@[i] matches JsonValue::Str(s) && s@
                    == members@[i]@)),
    {
        let body = JsonValue::Arr(pkids_to_json(members));
        let mut path = join4("systems/", system_id.0.as_str(), "/switches/", switch_id);
        path.append("/members");
        self.request(Method::Patch, path, no_query(), Some(body))
    }

    /// Asks for one switch's deletion.
    pub fn delete_switch(&self, system_id: &PkId, switch_id: &str) -> (r: HttpRequest)
        ensures
            spec_request(
                *self,
                r,
                Method::Delete,
                "systems/"@ + system_id@ + "/switches/"@ + switch_id@,
                Seq::empty(),
                Option::None,
            ),
    {
        self.request(
            Method::Delete,
            join4("systems/", system_id.0.as_str(), "/switches/", switch_id),
            no_query(),
            None,
        )
    }

    /// Looks a proxied message up by its id.
    pub fn get_message(&self, id: &str) -> (r: HttpRequest)
        ensures
            spec_request(
                *self,
                r,
                Method::Get,
                "messages/"@ + id@,
                Seq::empty(),
                Option::None,
            ),
    {
        self.request(Method::Get, join2("messages/", id), no_query(), None)
    }
}

/// Fetching a record and submitting an unmodified copy is idempotent as far
/// as this client can see: [`PkClient::update_system`] submits a body that
/// reads back as the fetched record, and decoding is a function, so when the
/// service echoes the submitted document, the answer reads back as the
/// record that was fetched — nothing changed hands but the record itself.
///
/// `s` is the fetched record, `b` the submitted body, and `x` what the
/// echoed answer decodes to.
pub proof fn lemma_update_system_idempotent(s: System, b: JsonValue, x: System)
    requires
        spec_decode_system(b) == Some(s@),
        spec_decode_system(b) == Some(x@),
    ensures
        x@ == s@,
{
}

} // verus!
