//! Reading and writing the JSON schema of each record.
//!
//! For every record there is an encoder that builds the exact JSON object the
//! service expects, and a decoder that reads the object the service answers
//! with. The decoders are specified as total spec functions over
//! [`JsonValue`]; each encoder's contract states that its output decodes back
//! to the record it was built from, which is the round-trip guarantee of the
//! wire format.

use vstd::prelude::*;
use crate::json::{JsonValue, spec_lookup, obj_get};
use crate::model::{Privacy, AutoProxyMode, SystemPrivacy, MemberPrivacy, GroupPrivacy, ProxyTag,
    ProxyTagView, System, SystemView, Member, MemberView, Group, GroupView, Switch, SwitchView,
    SwitchMember, SwitchMemberView, Message, MessageView, SystemSettings, SystemSettingsView,
    SystemGuildSettings, SystemGuildSettingsView, AutoProxySettings, AutoProxySettingsView,
    MemberGuildSettings, MemberGuildSettingsView, PkId, opt_view};
use crate::timestamp::{Timestamp, spec_parse_rfc3339, spec_rfc3339, format_rfc3339,
    parse_rfc3339, lemma_rfc3339_roundtrip};

verus! {

// ---------------------------------------------------------------------------
// Reading single fields of a JSON object.
// ---------------------------------------------------------------------------

/// A required text field.
pub open spec fn spec_get_str(fields: Seq<(String, JsonValue)>, name: Seq<char>) -> Option<
    Seq<char>,
> {
    match spec_lookup(fields, name) {
        Option::Some(JsonValue::Str(s)) => Option::Some(s@),
        _ => Option::None,
    }
}

/// An optional text field: absent or `null` reads as `None`.
pub open spec fn spec_opt_str(fields: Seq<(String, JsonValue)>, name: Seq<char>) -> Option<
    Option<Seq<char>>,
> {
    match spec_lookup(fields, name) {
        Option::None => Option::Some(Option::None),
        Option::Some(JsonValue::Null) => Option::Some(Option::None),
        Option::Some(JsonValue::Str(s)) => Option::Some(Option::Some(s@)),
        Option::Some(_) => Option::None,
    }
}

/// A required boolean field.
pub open spec fn spec_get_bool(fields: Seq<(String, JsonValue)>, name: Seq<char>) -> Option<
    bool,
> {
    match spec_lookup(fields, name) {
        Option::Some(JsonValue::Bool(b)) => Option::Some(b),
        _ => Option::None,
    }
}

/// An optional boolean field.
pub open spec fn spec_opt_bool(fields: Seq<(String, JsonValue)>, name: Seq<char>) -> Option<
    Option<bool>,
> {
    match spec_lookup(fields, name) {
        Option::None => Option::Some(Option::None),
        Option::Some(JsonValue::Null) => Option::Some(Option::None),
        Option::Some(JsonValue::Bool(b)) => Option::Some(Option::Some(b)),
        Option::Some(_) => Option::None,
    }
}

/// A required integer field that must fit the schema's 32-bit range.
pub open spec fn spec_get_i32(fields: Seq<(String, JsonValue)>, name: Seq<char>) -> Option<int> {
    match spec_lookup(fields, name) {
        Option::Some(JsonValue::Int(n)) => if -0x8000_0000 <= n as int && n as int
            <= 0x7fff_ffff {
            Option::Some(n as int)
        } else {
            Option::None
        },
        _ => Option::None,
    }
}

/// An optional integer field with the same range.
pub open spec fn spec_opt_i32(fields: Seq<(String, JsonValue)>, name: Seq<char>) -> Option<
    Option<int>,
> {
    match spec_lookup(fields, name) {
        Option::None => Option::Some(Option::None),
        Option::Some(JsonValue::Null) => Option::Some(Option::None),
        Option::Some(JsonValue::Int(n)) => if -0x8000_0000 <= n as int && n as int
            <= 0x7fff_ffff {
            Option::Some(Option::Some(n as int))
        } else {
            Option::None
        },
        Option::Some(_) => Option::None,
    }
}

/// A required RFC-3339 instant field.
pub open spec fn spec_get_timestamp(fields: Seq<(String, JsonValue)>, name: Seq<char>) -> Option<
    Timestamp,
> {
    match spec_lookup(fields, name) {
        Option::Some(JsonValue::Str(s)) => spec_parse_rfc3339(s@),
        _ => Option::None,
    }
}

/// An optional RFC-3339 instant field.
pub open spec fn spec_opt_timestamp(fields: Seq<(String, JsonValue)>, name: Seq<char>) -> Option<
    Option<Timestamp>,
> {
    match spec_lookup(fields, name) {
        Option::None => Option::Some(Option::None),
        Option::Some(JsonValue::Null) => Option::Some(Option::None),
        Option::Some(JsonValue::Str(s)) => match spec_parse_rfc3339(s@) {
            Option::Some(t) => Option::Some(Option::Some(t)),
            Option::None => Option::None,
        },
        Option::Some(_) => Option::None,
    }
}

/// A required array field.
pub open spec fn spec_get_arr(fields: Seq<(String, JsonValue)>, name: Seq<char>) -> Option<
    Seq<JsonValue>,
> {
    match spec_lookup(fields, name) {
        Option::Some(JsonValue::Arr(elems)) => Option::Some(elems@),
        _ => Option::None,
    }
}

/// Reads a required text field.
pub fn get_str(fields: &Vec<(String, JsonValue)>, name: &str) -> (r: Option<String>)
    ensures
        match r {
            Option::Some(s) => spec_get_str(fields@, name@) == Option::Some(s@),
            Option::None => spec_get_str(fields@, name@) is None,
        },
{
    match obj_get(fields, name) {
        Option::Some(v) => match v {
            JsonValue::Str(s) => Some(s.clone()),
            _ => None,
        },
        Option::None => None,
    }
}

/// Reads an optional text field.
pub fn opt_str(fields: &Vec<(String, JsonValue)>, name: &str) -> (r: Option<Option<String>>)
    ensures
        match r {
            Option::Some(o) => spec_opt_str(fields@, name@) == Option::Some(opt_view(o)),
            Option::None => spec_opt_str(fields@, name@) is None,
        },
{
    match obj_get(fields, name) {
        Option::Some(v) => match v {
            JsonValue::Null => Some(None),
            JsonValue::Str(s) => Some(Some(s.clone())),
            _ => None,
        },
        Option::None => Some(None),
    }
}

/// Reads a required boolean field.
pub fn get_bool(fields: &Vec<(String, JsonValue)>, name: &str) -> (r: Option<bool>)
    ensures
        r == spec_get_bool(fields@, name@),
{
    match obj_get(fields, name) {
        Option::Some(v) => match v {
            JsonValue::Bool(b) => Some(*b),
            _ => None,
        },
        Option::None => None,
    }
}

/// Reads an optional boolean field.
pub fn opt_bool(fields: &Vec<(String, JsonValue)>, name: &str) -> (r: Option<Option<bool>>)
    ensures
        r == spec_opt_bool(fields@, name@),
{
    match obj_get(fields, name) {
        Option::Some(v) => match v {
            JsonValue::Null => Some(None),
            JsonValue::Bool(b) => Some(Some(*b)),
            _ => None,
        },
        Option::None => Some(None),
    }
}

/// Reads a required 32-bit integer field.
pub fn get_i32(fields: &Vec<(String, JsonValue)>, name: &str) -> (r: Option<i32>)
    ensures
        match r {
            Option::Some(n) => spec_get_i32(fields@, name@) == Option::Some(n as int),
            Option::None => spec_get_i32(fields@, name@) is None,
        },
{
    match obj_get(fields, name) {
        Option::Some(v) => match v {
            JsonValue::Int(n) => {
                if -0x8000_0000i64 <= *n && *n <= 0x7fff_ffffi64 {
                    Some(*n as i32)
                } else {
                    None
                }
            },
            _ => None,
        },
        Option::None => None,
    }
}

/// Reads an optional 32-bit integer field.
pub fn opt_i32(fields: &Vec<(String, JsonValue)>, name: &str) -> (r: Option<Option<i32>>)
    ensures
        match r {
            Option::Some(o) => spec_opt_i32(fields@, name@) == Option::Some(
                match o {
                    Option::Some(n) => Option::Some(n as int),
                    Option::None => Option::None,
                },
            ),
            Option::None => spec_opt_i32(fields@, name@) is None,
        },
{
    match obj_get(fields, name) {
        Option::Some(v) => match v {
            JsonValue::Null => Some(None),
            JsonValue::Int(n) => {
                if -0x8000_0000i64 <= *n && *n <= 0x7fff_ffffi64 {
                    Some(Some(*n as i32))
                } else {
                    None
                }
            },
            _ => None,
        },
        Option::None => Some(None),
    }
}

/// Reads a required instant field.
pub fn get_timestamp(fields: &Vec<(String, JsonValue)>, name: &str) -> (r: Option<Timestamp>)
    ensures
        r == spec_get_timestamp(fields@, name@),
{
    match obj_get(fields, name) {
        Option::Some(v) => match v {
            JsonValue::Str(s) => parse_rfc3339(s.as_str()),
            _ => None,
        },
        Option::None => None,
    }
}

/// Reads an optional instant field.
pub fn opt_timestamp(fields: &Vec<(String, JsonValue)>, name: &str) -> (r: Option<
    Option<Timestamp>,
>)
    ensures
        r == spec_opt_timestamp(fields@, name@),
{
    match obj_get(fields, name) {
        Option::Some(v) => match v {
            JsonValue::Null => Some(None),
            JsonValue::Str(s) => match parse_rfc3339(s.as_str()) {
                Option::Some(t) => Some(Some(t)),
                Option::None => None,
            },
            _ => None,
        },
        Option::None => Some(None),
    }
}

// ---------------------------------------------------------------------------
// The two closed enumerations, written as lower-case words.
// ---------------------------------------------------------------------------

/// The wire word of a privacy flag.
pub open spec fn spec_privacy_text(p: Privacy) -> Seq<char> {
    match p {
        Privacy::Public => "public"@,
        Privacy::Private => "private"@,
    }
}

/// The privacy flag a wire word denotes.
pub open spec fn spec_privacy_of(s: Seq<char>) -> Option<Privacy> {
    if s == "public"@ {
        Option::Some(Privacy::Public)
    } else if s == "private"@ {
        Option::Some(Privacy::Private)
    } else {
        Option::None
    }
}

/// The wire words name distinct flags, and reading a written flag returns it.
pub proof fn lemma_privacy_text_roundtrip(p: Privacy)
    ensures
        spec_privacy_of(spec_privacy_text(p)) == Some(p),
{
    reveal_strlit("public");
    reveal_strlit("private");
    assert("public"@.len() == 6);
    assert("private"@.len() == 7);
}

/// Writes a privacy flag as its wire word.
pub fn privacy_text(p: &Privacy) -> (r: &'static str)
    ensures
        r@ == spec_privacy_text(*p),
{
    match p {
        Privacy::Public => "public",
        Privacy::Private => "private",
    }
}

/// Reads a privacy flag from its wire word.
pub fn privacy_of(s: &String) -> (r: Option<Privacy>)
    ensures
        r == spec_privacy_of(s@),
{
    let pu: String = "public".to_owned();
    if s.eq(&pu) {
        Some(Privacy::Public)
    } else {
        let pr: String = "private".to_owned();
        if s.eq(&pr) {
            Some(Privacy::Private)
        } else {
            None
        }
    }
}

/// The wire word of an autoproxy mode.
pub open spec fn spec_mode_text(m: AutoProxyMode) -> Seq<char> {
    match m {
        AutoProxyMode::Off => "off"@,
        AutoProxyMode::Front => "front"@,
        AutoProxyMode::Latch => "latch"@,
        AutoProxyMode::Member => "member"@,
    }
}

/// The autoproxy mode a wire word denotes.
pub open spec fn spec_mode_of(s: Seq<char>) -> Option<AutoProxyMode> {
    if s == "off"@ {
        Option::Some(AutoProxyMode::Off)
    } else if s == "front"@ {
        Option::Some(AutoProxyMode::Front)
    } else if s == "latch"@ {
        Option::Some(AutoProxyMode::Latch)
    } else if s == "member"@ {
        Option::Some(AutoProxyMode::Member)
    } else {
        Option::None
    }
}

/// Reading a written autoproxy mode returns it.
pub proof fn lemma_mode_text_roundtrip(m: AutoProxyMode)
    ensures
        spec_mode_of(spec_mode_text(m)) == Some(m),
{
    reveal_strlit("off");
    reveal_strlit("front");
    reveal_strlit("latch");
    reveal_strlit("member");
    assert("off"@.len() == 3);
    assert("front"@.len() == 5);
    assert("latch"@.len() == 5);
    assert("member"@.len() == 6);
    assert("front"@[0] == 'f');
    assert("latch"@[0] == 'l');
}

/// Writes an autoproxy mode as its wire word.
pub fn mode_text(m: &AutoProxyMode) -> (r: &'static str)
    ensures
        r@ == spec_mode_text(*m),
{
    match m {
        AutoProxyMode::Off => "off",
        AutoProxyMode::Front => "front",
        AutoProxyMode::Latch => "latch",
        AutoProxyMode::Member => "member",
    }
}

/// Reads an autoproxy mode from its wire word.
pub fn mode_of(s: &String) -> (r: Option<AutoProxyMode>)
    ensures
        r == spec_mode_of(s@),
{
    let w: String = "off".to_owned();
    if s.eq(&w) {
        return Some(AutoProxyMode::Off);
    }
    let w: String = "front".to_owned();
    if s.eq(&w) {
        return Some(AutoProxyMode::Front);
    }
    let w: String = "latch".to_owned();
    if s.eq(&w) {
        return Some(AutoProxyMode::Latch);
    }
    let w: String = "member".to_owned();
    if s.eq(&w) {
        return Some(AutoProxyMode::Member);
    }
    None
}

/// A required privacy-flag field.
pub open spec fn spec_get_privacy(fields: Seq<(String, JsonValue)>, name: Seq<char>) -> Option<
    Privacy,
> {
    match spec_lookup(fields, name) {
        Option::Some(JsonValue::Str(s)) => spec_privacy_of(s@),
        _ => Option::None,
    }
}

/// Reads a required privacy-flag field.
pub fn get_privacy(fields: &Vec<(String, JsonValue)>, name: &str) -> (r: Option<Privacy>)
    ensures
        r == spec_get_privacy(fields@, name@),
{
    match obj_get(fields, name) {
        Option::Some(v) => match v {
            JsonValue::Str(s) => privacy_of(s),
            _ => None,
        },
        Option::None => None,
    }
}

// ---------------------------------------------------------------------------
// Building JSON objects field by field.
// ---------------------------------------------------------------------------

/// Appends the field `name: v`.
pub fn push_field(fields: &mut Vec<(String, JsonValue)>, name: &str, v: JsonValue)
    ensures
        final(fields)@.len() == old(fields)@.len() + 1,
        final(fields)@[old(fields)@.len() as int].0@ == name@,
        final(fields)@[old(fields)@.len() as int].1 == v,
        forall|j: int| 0 <= j < old(fields)@.len() ==> final(fields)@[j] == old(fields)@[j],
{
    let owned: String = name.to_owned();
    fields.push((owned, v));
}

/// An optional text value: `null` when absent.
pub fn opt_str_json(o: &Option<String>) -> (v: JsonValue)
    ensures
        v == match o {
            Option::Some(s) => JsonValue::Str(*s),
            Option::None => JsonValue::Null,
        },
{
    match o {
        Option::Some(s) => JsonValue::Str(s.clone()),
        Option::None => JsonValue::Null,
    }
}

/// Looking up a name finds the first field that carries it.
pub proof fn lemma_lookup_at(fields: Seq<(String, JsonValue)>, name: Seq<char>, k: int)
    requires
        0 <= k < fields.len(),
        fields[k].0@ == name,
        forall|j: int| 0 <= j < k ==> #[trigger] fields[j].0@ != name,
    ensures
        spec_lookup(fields, name) == Option::Some(fields[k].1),
    decreases k,
{
    if k == 0 {
    } else {
        assert(fields[0].0@ != name);
        let rest = fields.drop_first();
        assert(forall|j: int| 0 <= j < k - 1 ==> #[trigger] rest[j].0@ == fields[j + 1].0@);
        lemma_lookup_at(rest, name, k - 1);
    }
}

/// Looking up a name that no field carries finds nothing.
pub proof fn lemma_lookup_absent(fields: Seq<(String, JsonValue)>, name: Seq<char>)
    requires
        forall|j: int| 0 <= j < fields.len() ==> #[trigger] fields[j].0@ != name,
    ensures
        spec_lookup(fields, name) is None,
    decreases fields.len(),
{
    if fields.len() > 0 {
        let rest = fields.drop_first();
        assert(forall|j: int| 0 <= j < rest.len() ==> #[trigger] rest[j].0@ == fields[j + 1].0@);
        lemma_lookup_absent(rest, name);
    }
}

// ---------------------------------------------------------------------------
// Proxy tags.
// ---------------------------------------------------------------------------

/// What a proxy-tag object decodes to.
pub open spec fn spec_decode_proxy_tag(v: JsonValue) -> Option<ProxyTagView> {
    match v {
        JsonValue::Obj(f0) => {
            let f = f0@;
            if spec_opt_str(f, "prefix"@) is None || spec_opt_str(f, "suffix"@) is None {
                Option::None
            } else {
                Option::Some(
                    ProxyTagView {
                        prefix: spec_opt_str(f, "prefix"@)->0,
                        suffix: spec_opt_str(f, "suffix"@)->0,
                    },
                )
            }
        },
        _ => Option::None,
    }
}

/// Reads a proxy tag.
pub fn proxy_tag_from_json(v: &JsonValue) -> (r: Option<ProxyTag>)
    ensures
        match r {
            Option::Some(p) => spec_decode_proxy_tag(*v) == Option::Some(p@),
            Option::None => spec_decode_proxy_tag(*v) is None,
        },
{
    match v {
        JsonValue::Obj(fields) => {
            let prefix = match opt_str(fields, "prefix") {
                Option::Some(o) => o,
                Option::None => {
                    return None;
                },
            };
            let suffix = match opt_str(fields, "suffix") {
                Option::Some(o) => o,
                Option::None => {
                    return None;
                },
            };
            Some(ProxyTag { prefix, suffix })
        },
        _ => None,
    }
}

/// Writes a proxy tag; the result reads back as the argument.
pub fn proxy_tag_to_json(p: &ProxyTag) -> (v: JsonValue)
    ensures
        spec_decode_proxy_tag(v) == Option::Some(p@),
        v matches JsonValue::Obj(f) && f@.len() == 2 && f@[0].0@ == "prefix"@ && f@[1].0@
            == "suffix"@,
{
    let mut fields: Vec<(String, JsonValue)> = Vec::new();
    push_field(&mut fields, "prefix", opt_str_json(&p.prefix));
    push_field(&mut fields, "suffix", opt_str_json(&p.suffix));
    proof {
        reveal_strlit("prefix");
        reveal_strlit("suffix");
        reveal_with_fuel(spec_lookup, 4);
        assert("prefix"@[0] == 'p');
        assert("suffix"@[0] == 's');
        assert(fields@.drop_first()[0] == fields@[1]);
        assert(spec_lookup(fields@, "prefix"@) == Option::Some(fields@[0].1));
        assert(spec_lookup(fields@, "suffix"@) == Option::Some(fields@[1].1));
    }
    JsonValue::Obj(fields)
}

// ---------------------------------------------------------------------------
// Privacy sub-records.
// ---------------------------------------------------------------------------

/// What a system-privacy object decodes to.
pub open spec fn spec_decode_system_privacy(v: JsonValue) -> Option<SystemPrivacy> {
    match v {
        JsonValue::Obj(f0) => {
            let f = f0@;
            if spec_get_privacy(f, "description_privacy"@) is None || spec_get_privacy(
                f,
                "pronoun_privacy"@,
            ) is None || spec_get_privacy(f, "member_list_privacy"@) is None || spec_get_privacy(
                f,
                "group_list_privacy"@,
            ) is None || spec_get_privacy(f, "front_privacy"@) is None || spec_get_privacy(
                f,
                "front_history_privacy"@,
            ) is None {
                Option::None
            } else {
                Option::Some(
                    SystemPrivacy {
                        description_privacy: spec_get_privacy(f, "description_privacy"@)->0,
                        pronoun_privacy: spec_get_privacy(f, "pronoun_privacy"@)->0,
                        member_list_privacy: spec_get_privacy(f, "member_list_privacy"@)->0,
                        group_list_privacy: spec_get_privacy(f, "group_list_privacy"@)->0,
                        front_privacy: spec_get_privacy(f, "front_privacy"@)->0,
                        front_history_privacy: spec_get_privacy(f, "front_history_privacy"@)->0,
                    },
                )
            }
        },
        _ => Option::None,
    }
}

/// Reads a system-privacy record.
pub fn system_privacy_from_json(v: &JsonValue) -> (r: Option<SystemPrivacy>)
    ensures
        r == spec_decode_system_privacy(*v),
{
    match v {
        JsonValue::Obj(fields) => {
            let description_privacy = match get_privacy(fields, "description_privacy") {
                Option::Some(p) => p,
                Option::None => {
                    return None;
                },
            };
            let pronoun_privacy = match get_privacy(fields, "pronoun_privacy") {
                Option::Some(p) => p,
                Option::None => {
                    return None;
                },
            };
            let member_list_privacy = match get_privacy(fields, "member_list_privacy") {
                Option::Some(p) => p,
                Option::None => {
                    return None;
                },
            };
            let group_list_privacy = match get_privacy(fields, "group_list_privacy") {
                Option::Some(p) => p,
                Option::None => {
                    return None;
                },
            };
            let front_privacy = match get_privacy(fields, "front_privacy") {
                Option::Some(p) => p,
                Option::None => {
                    return None;
                },
            };
            let front_history_privacy = match get_privacy(fields, "front_history_privacy") {
                Option::Some(p) => p,
                Option::None => {
                    return None;
                },
            };
            Some(
                SystemPrivacy {
                    description_privacy,
                    pronoun_privacy,
                    member_list_privacy,
                    group_list_privacy,
                    front_privacy,
                    front_history_privacy,
                },
            )
        },
        _ => None,
    }
}

/// Writes a system-privacy record; the result reads back as the argument.
pub fn system_privacy_to_json(p: &SystemPrivacy) -> (v: JsonValue)
    ensures
        spec_decode_system_privacy(v) == Option::Some(*p),
        v matches JsonValue::Obj(f) && f@.len() == 6,
{
    let mut fields: Vec<(String, JsonValue)> = Vec::new();
    push_field(
        &mut fields,
        "description_privacy",
        JsonValue::Str(privacy_text(&p.description_privacy).to_owned()),
    );
    push_field(
        &mut fields,
        "pronoun_privacy",
        JsonValue::Str(privacy_text(&p.pronoun_privacy).to_owned()),
    );
    push_field(
        &mut fields,
        "member_list_privacy",
        JsonValue::Str(privacy_text(&p.member_list_privacy).to_owned()),
    );
    push_field(
        &mut fields,
        "group_list_privacy",
        JsonValue::Str(privacy_text(&p.group_list_privacy).to_owned()),
    );
    push_field(
        &mut fields,
        "front_privacy",
        JsonValue::Str(privacy_text(&p.front_privacy).to_owned()),
    );
    push_field(
        &mut fields,
        "front_history_privacy",
        JsonValue::Str(privacy_text(&p.front_history_privacy).to_owned()),
    );
    proof {
        reveal_strlit("description_privacy");
        reveal_strlit("pronoun_privacy");
        reveal_strlit("member_list_privacy");
        reveal_strlit("group_list_privacy");
        reveal_strlit("front_privacy");
        reveal_strlit("front_history_privacy");
        assert("description_privacy"@[0] == 'd');
        assert("pronoun_privacy"@[0] == 'p');
        assert("member_list_privacy"@[0] == 'm');
        assert("group_list_privacy"@[0] == 'g');
        assert("front_privacy"@[0] == 'f');
        assert("front_history_privacy"@[0] == 'f');
        assert("front_privacy"@[6] == 'p');
        assert("front_history_privacy"@[6] == 'h');
        lemma_privacy_text_roundtrip(Privacy::Public);
        lemma_privacy_text_roundtrip(Privacy::Private);
        let f = fields@;
        lemma_lookup_at(f, "description_privacy"@, 0);
        lemma_lookup_at(f, "pronoun_privacy"@, 1);
        lemma_lookup_at(f, "member_list_privacy"@, 2);
        lemma_lookup_at(f, "group_list_privacy"@, 3);
        lemma_lookup_at(f, "front_privacy"@, 4);
        lemma_lookup_at(f, "front_history_privacy"@, 5);
    }
    JsonValue::Obj(fields)
}

/// What a member-privacy object decodes to.
pub open spec fn spec_decode_member_privacy(v: JsonValue) -> Option<MemberPrivacy> {
    match v {
        JsonValue::Obj(f0) => {
            let f = f0@;
            if spec_get_privacy(f, "visibility"@) is None || spec_get_privacy(f, "name_privacy"@)
                is None || spec_get_privacy(f, "description_privacy"@) is None
                || spec_get_privacy(f, "birthday_privacy"@) is None || spec_get_privacy(
                f,
                "pronoun_privacy"@,
            ) is None || spec_get_privacy(f, "avatar_privacy"@) is None || spec_get_privacy(
                f,
                "metadata_privacy"@,
            ) is None {
                Option::None
            } else {
                Option::Some(
                    MemberPrivacy {
                        visibility: spec_get_privacy(f, "visibility"@)->0,
                        name_privacy: spec_get_privacy(f, "name_privacy"@)->0,
                        description_privacy: spec_get_privacy(f, "description_privacy"@)->0,
                        birthday_privacy: spec_get_privacy(f, "birthday_privacy"@)->0,
                        pronoun_privacy: spec_get_privacy(f, "pronoun_privacy"@)->0,
                        avatar_privacy: spec_get_privacy(f, "avatar_privacy"@)->0,
                        metadata_privacy: spec_get_privacy(f, "metadata_privacy"@)->0,
                    },
                )
            }
        },
        _ => Option::None,
    }
}

/// Reads a member-privacy record.
pub fn member_privacy_from_json(v: &JsonValue) -> (r: Option<MemberPrivacy>)
    ensures
        r == spec_decode_member_privacy(*v),
{
    match v {
        JsonValue::Obj(fields) => {
            let visibility = match get_privacy(fields, "visibility") {
                Option::Some(p) => p,
                Option::None => {
                    return None;
                },
            };
            let name_privacy = match get_privacy(fields, "name_privacy") {
                Option::Some(p) => p,
                Option::None => {
                    return None;
                },
            };
            let description_privacy = match get_privacy(fields, "description_privacy") {
                Option::Some(p) => p,
                Option::None => {
                    return None;
                },
            };
            let birthday_privacy = match get_privacy(fields, "birthday_privacy") {
                Option::Some(p) => p,
                Option::None => {
                    return None;
                },
            };
            let pronoun_privacy = match get_privacy(fields, "pronoun_privacy") {
                Option::Some(p) => p,
                Option::None => {
                    return None;
                },
            };
            let avatar_privacy = match get_privacy(fields, "avatar_privacy") {
                Option::Some(p) => p,
                Option::None => {
                    return None;
                },
            };
            let metadata_privacy = match get_privacy(fields, "metadata_privacy") {
                Option::Some(p) => p,
                Option::None => {
                    return None;
                },
            };
            Some(
                MemberPrivacy {
                    visibility,
                    name_privacy,
                    description_privacy,
                    birthday_privacy,
                    pronoun_privacy,
                    avatar_privacy,
                    metadata_privacy,
                },
            )
        },
        _ => None,
    }
}

/// Writes a member-privacy record; the result reads back as the argument.
pub fn member_privacy_to_json(p: &MemberPrivacy) -> (v: JsonValue)
    ensures
        spec_decode_member_privacy(v) == Option::Some(*p),
        v matches JsonValue::Obj(f) && f@.len() == 7,
{
    let mut fields: Vec<(String, JsonValue)> = Vec::new();
    push_field(
        &mut fields,
        "visibility",
        JsonValue::Str(privacy_text(&p.visibility).to_owned()),
    );
    push_field(
        &mut fields,
        "name_privacy",
        JsonValue::Str(privacy_text(&p.name_privacy).to_owned()),
    );
    push_field(
        &mut fields,
        "description_privacy",
        JsonValue::Str(privacy_text(&p.description_privacy).to_owned()),
    );
    push_field(
        &mut fields,
        "birthday_privacy",
        JsonValue::Str(privacy_text(&p.birthday_privacy).to_owned()),
    );
    push_field(
        &mut fields,
        "pronoun_privacy",
        JsonValue::Str(privacy_text(&p.pronoun_privacy).to_owned()),
    );
    push_field(
        &mut fields,
        "avatar_privacy",
        JsonValue::Str(privacy_text(&p.avatar_privacy).to_owned()),
    );
    push_field(
        &mut fields,
        "metadata_privacy",
        JsonValue::Str(privacy_text(&p.metadata_privacy).to_owned()),
    );
    proof {
        reveal_strlit("visibility");
        reveal_strlit("name_privacy");
        reveal_strlit("description_privacy");
        reveal_strlit("birthday_privacy");
        reveal_strlit("pronoun_privacy");
        reveal_strlit("avatar_privacy");
        reveal_strlit("metadata_privacy");
        assert("visibility"@[0] == 'v');
        assert("name_privacy"@[0] == 'n');
        assert("description_privacy"@[0] == 'd');
        assert("birthday_privacy"@[0] == 'b');
        assert("pronoun_privacy"@[0] == 'p');
        assert("avatar_privacy"@[0] == 'a');
        assert("metadata_privacy"@[0] == 'm');
        lemma_privacy_text_roundtrip(Privacy::Public);
        lemma_privacy_text_roundtrip(Privacy::Private);
        let f = fields@;
        lemma_lookup_at(f, "visibility"@, 0);
        lemma_lookup_at(f, "name_privacy"@, 1);
        lemma_lookup_at(f, "description_privacy"@, 2);
        lemma_lookup_at(f, "birthday_privacy"@, 3);
        lemma_lookup_at(f, "pronoun_privacy"@, 4);
        lemma_lookup_at(f, "avatar_privacy"@, 5);
        lemma_lookup_at(f, "metadata_privacy"@, 6);
    }
    JsonValue::Obj(fields)
}

/// What a group-privacy object decodes to.
pub open spec fn spec_decode_group_privacy(v: JsonValue) -> Option<GroupPrivacy> {
    match v {
        JsonValue::Obj(f0) => {
            let f = f0@;
            if spec_get_privacy(f, "name_privacy"@) is None || spec_get_privacy(
                f,
                "description_privacy"@,
            ) is None || spec_get_privacy(f, "icon_privacy"@) is None || spec_get_privacy(
                f,
                "list_privacy"@,
            ) is None || spec_get_privacy(f, "metadata_privacy"@) is None || spec_get_privacy(
                f,
                "visibility"@,
            ) is None {
                Option::None
            } else {
                Option::Some(
                    GroupPrivacy {
                        name_privacy: spec_get_privacy(f, "name_privacy"@)->0,
                        description_privacy: spec_get_privacy(f, "description_privacy"@)->0,
                        icon_privacy: spec_get_privacy(f, "icon_privacy"@)->0,
                        list_privacy: spec_get_privacy(f, "list_privacy"@)->0,
                        metadata_privacy: spec_get_privacy(f, "metadata_privacy"@)->0,
                        visibility: spec_get_privacy(f, "visibility"@)->0,
                    },
                )
            }
        },
        _ => Option::None,
    }
}

/// Reads a group-privacy record.
pub fn group_privacy_from_json(v: &JsonValue) -> (r: Option<GroupPrivacy>)
    ensures
        r == spec_decode_group_privacy(*v),
{
    match v {
        JsonValue::Obj(fields) => {
            let name_privacy = match get_privacy(fields, "name_privacy") {
                Option::Some(p) => p,
                Option::None => {
                    return None;
                },
            };
            let description_privacy = match get_privacy(fields, "description_privacy") {
                Option::Some(p) => p,
                Option::None => {
                    return None;
                },
            };
            let icon_privacy = match get_privacy(fields, "icon_privacy") {
                Option::Some(p) => p,
                Option::None => {
                    return None;
                },
            };
            let list_privacy = match get_privacy(fields, "list_privacy") {
                Option::Some(p) => p,
                Option::None => {
                    return None;
                },
            };
            let metadata_privacy = match get_privacy(fields, "metadata_privacy") {
                Option::Some(p) => p,
                Option::None => {
                    return None;
                },
            };
            let visibility = match get_privacy(fields, "visibility") {
                Option::Some(p) => p,
                Option::None => {
                    return None;
                },
            };
            Some(
                GroupPrivacy {
                    name_privacy,
                    description_privacy,
                    icon_privacy,
                    list_privacy,
                    metadata_privacy,
                    visibility,
                },
            )
        },
        _ => None,
    }
}

/// Writes a group-privacy record; the result reads back as the argument.
pub fn group_privacy_to_json(p: &GroupPrivacy) -> (v: JsonValue)
    ensures
        spec_decode_group_privacy(v) == Option::Some(*p),
        v matches JsonValue::Obj(f) && f@.len() == 6,
{
    let mut fields: Vec<(String, JsonValue)> = Vec::new();
    push_field(
        &mut fields,
        "name_privacy",
        JsonValue::Str(privacy_text(&p.name_privacy).to_owned()),
    );
    push_field(
        &mut fields,
        "description_privacy",
        JsonValue::Str(privacy_text(&p.description_privacy).to_owned()),
    );
    push_field(
        &mut fields,
        "icon_privacy",
        JsonValue::Str(privacy_text(&p.icon_privacy).to_owned()),
    );
    push_field(
        &mut fields,
        "list_privacy",
        JsonValue::Str(privacy_text(&p.list_privacy).to_owned()),
    );
    push_field(
        &mut fields,
        "metadata_privacy",
        JsonValue::Str(privacy_text(&p.metadata_privacy).to_owned()),
    );
    push_field(
        &mut fields,
        "visibility",
        JsonValue::Str(privacy_text(&p.visibility).to_owned()),
    );
    proof {
        reveal_strlit("name_privacy");
        reveal_strlit("description_privacy");
        reveal_strlit("icon_privacy");
        reveal_strlit("list_privacy");
        reveal_strlit("metadata_privacy");
        reveal_strlit("visibility");
        assert("name_privacy"@[0] == 'n');
        assert("description_privacy"@[0] == 'd');
        assert("icon_privacy"@[0] == 'i');
        assert("list_privacy"@[0] == 'l');
        assert("metadata_privacy"@[0] == 'm');
        assert("visibility"@[0] == 'v');
        lemma_privacy_text_roundtrip(Privacy::Public);
        lemma_privacy_text_roundtrip(Privacy::Private);
        let f = fields@;
        lemma_lookup_at(f, "name_privacy"@, 0);
        lemma_lookup_at(f, "description_privacy"@, 1);
        lemma_lookup_at(f, "icon_privacy"@, 2);
        lemma_lookup_at(f, "list_privacy"@, 3);
        lemma_lookup_at(f, "metadata_privacy"@, 4);
        lemma_lookup_at(f, "visibility"@, 5);
    }
    JsonValue::Obj(fields)
}

// ---------------------------------------------------------------------------
// Remaining field-value helpers.
// ---------------------------------------------------------------------------

/// An optional instant value: `null` when absent, RFC-3339 text otherwise.
pub fn opt_timestamp_json(o: &Option<Timestamp>) -> (v: JsonValue)
    ensures
        o is None ==> v == JsonValue::Null,
        o matches Option::Some(t) ==> (v matches JsonValue::Str(s) && s@ == spec_rfc3339(*t)),
{
    match o {
        Option::Some(t) => JsonValue::Str(format_rfc3339(t)),
        Option::None => JsonValue::Null,
    }
}

/// An optional integer value: `null` when absent.
pub fn opt_i32_json(o: &Option<i32>) -> (v: JsonValue)
    ensures
        o is None ==> v == JsonValue::Null,
        o matches Option::Some(n) ==> v == JsonValue::Int(n as i64),
{
    match o {
        Option::Some(n) => JsonValue::Int(*n as i64),
        Option::None => JsonValue::Null,
    }
}

/// A required autoproxy-mode field.
pub open spec fn spec_get_mode(fields: Seq<(String, JsonValue)>, name: Seq<char>) -> Option<
    AutoProxyMode,
> {
    match spec_lookup(fields, name) {
        Option::Some(JsonValue::Str(s)) => spec_mode_of(s@),
        _ => Option::None,
    }
}

/// Reads a required autoproxy-mode field.
pub fn get_mode(fields: &Vec<(String, JsonValue)>, name: &str) -> (r: Option<AutoProxyMode>)
    ensures
        r == spec_get_mode(fields@, name@),
{
    match obj_get(fields, name) {
        Option::Some(v) => match v {
            JsonValue::Str(s) => mode_of(s),
            _ => None,
        },
        Option::None => None,
    }
}

// ---------------------------------------------------------------------------
// Systems.
// ---------------------------------------------------------------------------

/// An optional system-privacy field: absent or `null` reads as `None`, and a
/// present object must decode.
pub open spec fn spec_opt_system_privacy(fields: Seq<(String, JsonValue)>, name: Seq<char>)
    -> Option<Option<SystemPrivacy>> {
    match spec_lookup(fields, name) {
        Option::None => Option::Some(Option::None),
        Option::Some(JsonValue::Null) => Option::Some(Option::None),
        Option::Some(v) => match spec_decode_system_privacy(v) {
            Option::Some(p) => Option::Some(Option::Some(p)),
            Option::None => Option::None,
        },
    }
}

/// What a system object decodes to.
pub open spec fn spec_decode_system(v: JsonValue) -> Option<SystemView> {
    match v {
        JsonValue::Obj(f0) => {
            let f = f0@;
            if spec_get_str(f, "id"@) is None || spec_opt_str(f, "name"@) is None || spec_opt_str(
                f,
                "description"@,
            ) is None || spec_opt_str(f, "tag"@) is None || spec_opt_str(f, "avatar_url"@)
                is None || spec_opt_timestamp(f, "created"@) is None || spec_opt_system_privacy(
                f,
                "privacy"@,
            ) is None {
                Option::None
            } else {
                Option::Some(
                    SystemView {
                        id: spec_get_str(f, "id"@)->0,
                        name: spec_opt_str(f, "name"@)->0,
                        description: spec_opt_str(f, "description"@)->0,
                        tag: spec_opt_str(f, "tag"@)->0,
                        avatar_url: spec_opt_str(f, "avatar_url"@)->0,
                        created: spec_opt_timestamp(f, "created"@)->0,
                        privacy: spec_opt_system_privacy(f, "privacy"@)->0,
                    },
                )
            }
        },
        _ => Option::None,
    }
}

/// Reads a system record.
pub fn system_from_json(v: &JsonValue) -> (r: Option<System>)
    ensures
        match r {
            Option::Some(s) => spec_decode_system(*v) == Option::Some(s@),
            Option::None => spec_decode_system(*v) is None,
        },
{
    match v {
        JsonValue::Obj(fields) => {
            let id = match get_str(fields, "id") {
                Option::Some(s) => s,
                Option::None => {
                    return None;
                },
            };
            let name = match opt_str(fields, "name") {
                Option::Some(o) => o,
                Option::None => {
                    return None;
                },
            };
            let description = match opt_str(fields, "description") {
                Option::Some(o) => o,
                Option::None => {
                    return None;
                },
            };
            let tag = match opt_str(fields, "tag") {
                Option::Some(o) => o,
                Option::None => {
                    return None;
                },
            };
            let avatar_url = match opt_str(fields, "avatar_url") {
                Option::Some(o) => o,
                Option::None => {
                    return None;
                },
            };
            let created = match opt_timestamp(fields, "created") {
                Option::Some(o) => o,
                Option::None => {
                    return None;
                },
            };
            let privacy = match obj_get(fields, "privacy") {
                Option::Some(pv) => match pv {
                    JsonValue::Null => None,
                    _ => match system_privacy_from_json(pv) {
                        Option::Some(p) => Some(p),
                        Option::None => {
                            return None;
                        },
                    },
                },
                Option::None => None,
            };
            Some(System { id: PkId(id), name, description, tag, avatar_url, created, privacy })
        },
        _ => None,
    }
}

/// Writes a system record; the result reads back as the argument.
pub fn system_to_json(s: &System) -> (v: JsonValue)
    requires
        s.wf(),
    ensures
        spec_decode_system(v) == Option::Some(s@),
        v matches JsonValue::Obj(f) && f@.len() == 7 && f@[0].0@ == "id"@ && f@[1].0@ == "name"@
            && f@[2].0@ == "description"@ && f@[3].0@ == "tag"@ && f@[4].0@ == "avatar_url"@
            && f@[5].0@ == "created"@ && f@[6].0@ == "privacy"@,
{
    let mut fields: Vec<(String, JsonValue)> = Vec::new();
    push_field(&mut fields, "id", JsonValue::Str(s.id.0.clone()));
    push_field(&mut fields, "name", opt_str_json(&s.name));
    push_field(&mut fields, "description", opt_str_json(&s.description));
    push_field(&mut fields, "tag", opt_str_json(&s.tag));
    push_field(&mut fields, "avatar_url", opt_str_json(&s.avatar_url));
    push_field(&mut fields, "created", opt_timestamp_json(&s.created));
    let privacy_json = match &s.privacy {
        Option::Some(p) => system_privacy_to_json(p),
        Option::None => JsonValue::Null,
    };
    push_field(&mut fields, "privacy", privacy_json);
    proof {
        reveal_strlit("id");
        reveal_strlit("name");
        reveal_strlit("description");
        reveal_strlit("tag");
        reveal_strlit("avatar_url");
        reveal_strlit("created");
        reveal_strlit("privacy");
        assert("id"@[0] == 'i');
        assert("name"@[0] == 'n');
        assert("description"@[0] == 'd');
        assert("tag"@[0] == 't');
        assert("avatar_url"@[0] == 'a');
        assert("created"@[0] == 'c');
        assert("privacy"@[0] == 'p');
        let f = fields@;
        lemma_lookup_at(f, "id"@, 0);
        lemma_lookup_at(f, "name"@, 1);
        lemma_lookup_at(f, "description"@, 2);
        lemma_lookup_at(f, "tag"@, 3);
        lemma_lookup_at(f, "avatar_url"@, 4);
        lemma_lookup_at(f, "created"@, 5);
        lemma_lookup_at(f, "privacy"@, 6);
        if let Option::Some(t) = s.created {
            lemma_rfc3339_roundtrip(t);
        }
    }
    JsonValue::Obj(fields)
}

// ---------------------------------------------------------------------------
// Settings records.
// ---------------------------------------------------------------------------

/// What a system-settings object decodes to.
pub open spec fn spec_decode_system_settings(v: JsonValue) -> Option<SystemSettingsView> {
    match v {
        JsonValue::Obj(f0) => {
            let f = f0@;
            if spec_get_str(f, "timezone"@) is None || spec_get_bool(f, "pings_enabled"@) is None
                || spec_opt_i32(f, "latch_timeout"@) is None || spec_get_bool(
                f,
                "member_default_private"@,
            ) is None || spec_get_bool(f, "group_default_private"@) is None || spec_get_bool(
                f,
                "show_private_info"@,
            ) is None || spec_get_i32(f, "member_limit"@) is None || spec_get_i32(
                f,
                "group_limit"@,
            ) is None {
                Option::None
            } else {
                Option::Some(
                    SystemSettingsView {
                        timezone: spec_get_str(f, "timezone"@)->0,
                        pings_enabled: spec_get_bool(f, "pings_enabled"@)->0,
                        latch_timeout: spec_opt_i32(f, "latch_timeout"@)->0,
                        member_default_private: spec_get_bool(f, "member_default_private"@)->0,
                        group_default_private: spec_get_bool(f, "group_default_private"@)->0,
                        show_private_info: spec_get_bool(f, "show_private_info"@)->0,
                        member_limit: spec_get_i32(f, "member_limit"@)->0,
                        group_limit: spec_get_i32(f, "group_limit"@)->0,
                    },
                )
            }
        },
        _ => Option::None,
    }
}

/// Reads a system-settings record.
pub fn system_settings_from_json(v: &JsonValue) -> (r: Option<SystemSettings>)
    ensures
        match r {
            Option::Some(s) => spec_decode_system_settings(*v) == Option::Some(s@),
            Option::None => spec_decode_system_settings(*v) is None,
        },
{
    match v {
        JsonValue::Obj(fields) => {
            let timezone = match get_str(fields, "timezone") {
                Option::Some(s) => s,
                Option::None => {
                    return None;
                },
            };
            let pings_enabled = match get_bool(fields, "pings_enabled") {
                Option::Some(b) => b,
                Option::None => {
                    return None;
                },
            };
            let latch_timeout = match opt_i32(fields, "latch_timeout") {
                Option::Some(o) => o,
                Option::None => {
                    return None;
                },
            };
            let member_default_private = match get_bool(fields, "member_default_private") {
                Option::Some(b) => b,
                Option::None => {
                    return None;
                },
            };
            let group_default_private = match get_bool(fields, "group_default_private") {
                Option::Some(b) => b,
                Option::None => {
                    return None;
                },
            };
            let show_private_info = match get_bool(fields, "show_private_info") {
                Option::Some(b) => b,
                Option::None => {
                    return None;
                },
            };
            let member_limit = match get_i32(fields, "member_limit") {
                Option::Some(n) => n,
                Option::None => {
                    return None;
                },
            };
            let group_limit = match get_i32(fields, "group_limit") {
                Option::Some(n) => n,
                Option::None => {
                    return None;
                },
            };
            Some(
                SystemSettings {
                    timezone,
                    pings_enabled,
                    latch_timeout,
                    member_default_private,
                    group_default_private,
                    show_private_info,
                    member_limit,
                    group_limit,
                },
            )
        },
        _ => None,
    }
}

/// Writes a system-settings record; the result reads back as the argument.
pub fn system_settings_to_json(s: &SystemSettings) -> (v: JsonValue)
    ensures
        spec_decode_system_settings(v) == Option::Some(s@),
        v matches JsonValue::Obj(f) && f@.len() == 8,
{
    let mut fields: Vec<(String, JsonValue)> = Vec::new();
    push_field(&mut fields, "timezone", JsonValue::Str(s.timezone.clone()));
    push_field(&mut fields, "pings_enabled", JsonValue::Bool(s.pings_enabled));
    push_field(&mut fields, "latch_timeout", opt_i32_json(&s.latch_timeout));
    push_field(&mut fields, "member_default_private", JsonValue::Bool(s.member_default_private));
    push_field(&mut fields, "group_default_private", JsonValue::Bool(s.group_default_private));
    push_field(&mut fields, "show_private_info", JsonValue::Bool(s.show_private_info));
    push_field(&mut fields, "member_limit", JsonValue::Int(s.member_limit as i64));
    push_field(&mut fields, "group_limit", JsonValue::Int(s.group_limit as i64));
    proof {
        reveal_strlit("timezone");
        reveal_strlit("pings_enabled");
        reveal_strlit("latch_timeout");
        reveal_strlit("member_default_private");
        reveal_strlit("group_default_private");
        reveal_strlit("show_private_info");
        reveal_strlit("member_limit");
        reveal_strlit("group_limit");
        assert("timezone"@[0] == 't');
        assert("pings_enabled"@[0] == 'p');
        assert("latch_timeout"@[0] == 'l');
        assert("member_default_private"@[0] == 'm');
        assert("group_default_private"@[0] == 'g');
        assert("show_private_info"@[0] == 's');
        assert("member_limit"@[0] == 'm');
        assert("group_limit"@[0] == 'g');
        assert("member_default_private"@[7] == 'd');
        assert("member_limit"@[7] == 'l');
        assert("group_default_private"@[6] == 'd');
        assert("group_limit"@[6] == 'l');
        let f = fields@;
        lemma_lookup_at(f, "timezone"@, 0);
        lemma_lookup_at(f, "pings_enabled"@, 1);
        lemma_lookup_at(f, "latch_timeout"@, 2);
        lemma_lookup_at(f, "member_default_private"@, 3);
        lemma_lookup_at(f, "group_default_private"@, 4);
        lemma_lookup_at(f, "show_private_info"@, 5);
        lemma_lookup_at(f, "member_limit"@, 6);
        lemma_lookup_at(f, "group_limit"@, 7);
    }
    JsonValue::Obj(fields)
}

/// What a per-guild system-settings object decodes to.
pub open spec fn spec_decode_system_guild_settings(v: JsonValue) -> Option<
    SystemGuildSettingsView,
> {
    match v {
        JsonValue::Obj(f0) => {
            let f = f0@;
            if spec_opt_str(f, "guild_id"@) is None || spec_get_bool(f, "proxying_enabled"@)
                is None || spec_opt_str(f, "tag"@) is None || spec_get_bool(f, "tag_enabled"@)
                is None {
                Option::None
            } else {
                Option::Some(
                    SystemGuildSettingsView {
                        guild_id: spec_opt_str(f, "guild_id"@)->0,
                        proxying_enabled: spec_get_bool(f, "proxying_enabled"@)->0,
                        tag: spec_opt_str(f, "tag"@)->0,
                        tag_enabled: spec_get_bool(f, "tag_enabled"@)->0,
                    },
                )
            }
        },
        _ => Option::None,
    }
}

/// Reads a per-guild system-settings record.
pub fn system_guild_settings_from_json(v: &JsonValue) -> (r: Option<SystemGuildSettings>)
    ensures
        match r {
            Option::Some(s) => spec_decode_system_guild_settings(*v) == Option::Some(s@),
            Option::None => spec_decode_system_guild_settings(*v) is None,
        },
{
    match v {
        JsonValue::Obj(fields) => {
            let guild_id = match opt_str(fields, "guild_id") {
                Option::Some(o) => o,
                Option::None => {
                    return None;
                },
            };
            let proxying_enabled = match get_bool(fields, "proxying_enabled") {
                Option::Some(b) => b,
                Option::None => {
                    return None;
                },
            };
            let tag = match opt_str(fields, "tag") {
                Option::Some(o) => o,
                Option::None => {
                    return None;
                },
            };
            let tag_enabled = match get_bool(fields, "tag_enabled") {
                Option::Some(b) => b,
                Option::None => {
                    return None;
                },
            };
            Some(SystemGuildSettings { guild_id, proxying_enabled, tag, tag_enabled })
        },
        _ => None,
    }
}

/// Writes a per-guild system-settings record; the result reads back as the
/// argument.
pub fn system_guild_settings_to_json(s: &SystemGuildSettings) -> (v: JsonValue)
    ensures
        spec_decode_system_guild_settings(v) == Option::Some(s@),
        v matches JsonValue::Obj(f) && f@.len() == 4,
{
    let mut fields: Vec<(String, JsonValue)> = Vec::new();
    push_field(&mut fields, "guild_id", opt_str_json(&s.guild_id));
    push_field(&mut fields, "proxying_enabled", JsonValue::Bool(s.proxying_enabled));
    push_field(&mut fields, "tag", opt_str_json(&s.tag));
    push_field(&mut fields, "tag_enabled", JsonValue::Bool(s.tag_enabled));
    proof {
        reveal_strlit("guild_id");
        reveal_strlit("proxying_enabled");
        reveal_strlit("tag");
        reveal_strlit("tag_enabled");
        assert("guild_id"@[0] == 'g');
        assert("proxying_enabled"@[0] == 'p');
        assert("tag"@[0] == 't');
        assert("tag_enabled"@[0] == 't');
        assert("tag"@.len() == 3);
        assert("tag_enabled"@.len() == 11);
        let f = fields@;
        lemma_lookup_at(f, "guild_id"@, 0);
        lemma_lookup_at(f, "proxying_enabled"@, 1);
        lemma_lookup_at(f, "tag"@, 2);
        lemma_lookup_at(f, "tag_enabled"@, 3);
    }
    JsonValue::Obj(fields)
}

/// What an autoproxy-settings object decodes to.
pub open spec fn spec_decode_autoproxy_settings(v: JsonValue) -> Option<AutoProxySettingsView> {
    match v {
        JsonValue::Obj(f0) => {
            let f = f0@;
            if spec_get_mode(f, "autoproxy_mode"@) is None || spec_opt_str(f, "autoproxy_member"@)
                is None || spec_opt_timestamp(f, "last_latch_timestamp"@) is None {
                Option::None
            } else {
                Option::Some(
                    AutoProxySettingsView {
                        autoproxy_mode: spec_get_mode(f, "autoproxy_mode"@)->0,
                        autoproxy_member: spec_opt_str(f, "autoproxy_member"@)->0,
                        last_latch_timestamp: spec_opt_timestamp(f, "last_latch_timestamp"@)->0,
                    },
                )
            }
        },
        _ => Option::None,
    }
}

/// Reads an autoproxy-settings record.
pub fn autoproxy_settings_from_json(v: &JsonValue) -> (r: Option<AutoProxySettings>)
    ensures
        match r {
            Option::Some(s) => spec_decode_autoproxy_settings(*v) == Option::Some(s@),
            Option::None => spec_decode_autoproxy_settings(*v) is None,
        },
{
    match v {
        JsonValue::Obj(fields) => {
            let autoproxy_mode = match get_mode(fields, "autoproxy_mode") {
                Option::Some(m) => m,
                Option::None => {
                    return None;
                },
            };
            let autoproxy_member = match opt_str(fields, "autoproxy_member") {
                Option::Some(o) => o,
                Option::None => {
                    return None;
                },
            };
            let last_latch_timestamp = match opt_timestamp(fields, "last_latch_timestamp") {
                Option::Some(o) => o,
                Option::None => {
                    return None;
                },
            };
            Some(AutoProxySettings { autoproxy_mode, autoproxy_member, last_latch_timestamp })
        },
        _ => None,
    }
}

/// Writes an autoproxy-settings record; the result reads back as the
/// argument.
pub fn autoproxy_settings_to_json(s: &AutoProxySettings) -> (v: JsonValue)
    requires
        s.wf(),
    ensures
        spec_decode_autoproxy_settings(v) == Option::Some(s@),
        v matches JsonValue::Obj(f) && f@.len() == 3,
{
    let mut fields: Vec<(String, JsonValue)> = Vec::new();
    push_field(
        &mut fields,
        "autoproxy_mode",
        JsonValue::Str(mode_text(&s.autoproxy_mode).to_owned()),
    );
    push_field(&mut fields, "autoproxy_member", opt_str_json(&s.autoproxy_member));
    push_field(&mut fields, "last_latch_timestamp", opt_timestamp_json(&s.last_latch_timestamp));
    proof {
        reveal_strlit("autoproxy_mode");
        reveal_strlit("autoproxy_member");
        reveal_strlit("last_latch_timestamp");
        assert("autoproxy_mode"@[0] == 'a');
        assert("autoproxy_member"@[0] == 'a');
        assert("last_latch_timestamp"@[0] == 'l');
        assert("autoproxy_mode"@[11] == 'o');
        assert("autoproxy_member"@[11] == 'e');
        lemma_mode_text_roundtrip(s.autoproxy_mode);
        let f = fields@;
        lemma_lookup_at(f, "autoproxy_mode"@, 0);
        lemma_lookup_at(f, "autoproxy_member"@, 1);
        lemma_lookup_at(f, "last_latch_timestamp"@, 2);
        if let Option::Some(t) = s.last_latch_timestamp {
            lemma_rfc3339_roundtrip(t);
        }
    }
    JsonValue::Obj(fields)
}

/// What a per-guild member-settings object decodes to.
pub open spec fn spec_decode_member_guild_settings(v: JsonValue) -> Option<
    MemberGuildSettingsView,
> {
    match v {
        JsonValue::Obj(f0) => {
            let f = f0@;
            if spec_get_str(f, "guild_id"@) is None || spec_opt_str(f, "display_name"@) is None
                || spec_opt_str(f, "avatar_url"@) is None {
                Option::None
            } else {
                Option::Some(
                    MemberGuildSettingsView {
                        guild_id: spec_get_str(f, "guild_id"@)->0,
                        display_name: spec_opt_str(f, "display_name"@)->0,
                        avatar_url: spec_opt_str(f, "avatar_url"@)->0,
                    },
                )
            }
        },
        _ => Option::None,
    }
}

/// Reads a per-guild member-settings record.
pub fn member_guild_settings_from_json(v: &JsonValue) -> (r: Option<MemberGuildSettings>)
    ensures
        match r {
            Option::Some(s) => spec_decode_member_guild_settings(*v) == Option::Some(s@),
            Option::None => spec_decode_member_guild_settings(*v) is None,
        },
{
    match v {
        JsonValue::Obj(fields) => {
            let guild_id = match get_str(fields, "guild_id") {
                Option::Some(s) => s,
                Option::None => {
                    return None;
                },
            };
            let display_name = match opt_str(fields, "display_name") {
                Option::Some(o) => o,
                Option::None => {
                    return None;
                },
            };
            let avatar_url = match opt_str(fields, "avatar_url") {
                Option::Some(o) => o,
                Option::None => {
                    return None;
                },
            };
            Some(MemberGuildSettings { guild_id, display_name, avatar_url })
        },
        _ => None,
    }
}

/// Writes a per-guild member-settings record; the result reads back as the
/// argument.
pub fn member_guild_settings_to_json(s: &MemberGuildSettings) -> (v: JsonValue)
    ensures
        spec_decode_member_guild_settings(v) == Option::Some(s@),
        v matches JsonValue::Obj(f) && f@.len() == 3,
{
    let mut fields: Vec<(String, JsonValue)> = Vec::new();
    push_field(&mut fields, "guild_id", JsonValue::Str(s.guild_id.clone()));
    push_field(&mut fields, "display_name", opt_str_json(&s.display_name));
    push_field(&mut fields, "avatar_url", opt_str_json(&s.avatar_url));
    proof {
        reveal_strlit("guild_id");
        reveal_strlit("display_name");
        reveal_strlit("avatar_url");
        assert("guild_id"@[0] == 'g');
        assert("display_name"@[0] == 'd');
        assert("avatar_url"@[0] == 'a');
        let f = fields@;
        lemma_lookup_at(f, "guild_id"@, 0);
        lemma_lookup_at(f, "display_name"@, 1);
        lemma_lookup_at(f, "avatar_url"@, 2);
    }
    JsonValue::Obj(fields)
}

// ---------------------------------------------------------------------------
// Arrays of records.
// ---------------------------------------------------------------------------

/// Decodes every element of a JSON array, failing if any element fails.
pub open spec fn spec_decode_seq<T>(elems: Seq<JsonValue>, d: spec_fn(JsonValue) -> Option<T>)
    -> Option<Seq<T>>
    decreases elems.len(),
{
    if elems.len() == 0 {
        Option::Some(Seq::empty())
    } else {
        match spec_decode_seq(elems.drop_last(), d) {
            Option::Some(t) => match d(elems.last()) {
                Option::Some(h) => Option::Some(t.push(h)),
                Option::None => Option::None,
            },
            Option::None => Option::None,
        }
    }
}

/// Once a prefix fails to decode, the whole array fails.
pub proof fn lemma_decode_seq_extends_none<T>(
    elems: Seq<JsonValue>,
    d: spec_fn(JsonValue) -> Option<T>,
    k: int,
)
    requires
        0 <= k <= elems.len(),
        spec_decode_seq(elems.take(k), d) is None,
    ensures
        spec_decode_seq(elems, d) is None,
    decreases elems.len() - k,
{
    if k < elems.len() {
        assert(elems.take(k + 1).drop_last() =~= elems.take(k));
        lemma_decode_seq_extends_none(elems, d, k + 1);
    } else {
        assert(elems.take(k) =~= elems);
    }
}

/// The element decoder of proxy-tag arrays.
pub open spec fn d_proxy_tag() -> spec_fn(JsonValue) -> Option<ProxyTagView> {
    |v: JsonValue| spec_decode_proxy_tag(v)
}

/// Reads an array of proxy tags.
pub fn proxy_tags_from_json(elems: &Vec<JsonValue>) -> (r: Option<Vec<ProxyTag>>)
    ensures
        match r {
            Option::Some(ps) => spec_decode_seq(elems@, d_proxy_tag()) == Option::Some(
                ps@.map_values(|p: ProxyTag| p@),
            ),
            Option::None => spec_decode_seq(elems@, d_proxy_tag()) is None,
        },
{
    let mut out: Vec<ProxyTag> = Vec::new();
    let n = elems.len();
    let mut i: usize = 0;
    proof {
        assert(elems@.take(0) =~= Seq::<JsonValue>::empty());
        assert(out@.map_values(|p: ProxyTag| p@) =~= Seq::<ProxyTagView>::empty());
    }
    while i < n
        invariant
            i <= n == elems@.len(),
            spec_decode_seq(elems@.take(i as int), d_proxy_tag()) == Option::Some(
                out@.map_values(|p: ProxyTag| p@),
            ),
        decreases n - i,
    {
        proof {
            assert(elems@.take(i + 1).drop_last() =~= elems@.take(i as int));
            assert(elems@.take(i + 1).last() == elems@[i as int]);
        }
        match proxy_tag_from_json(&elems[i]) {
            Option::Some(p) => {
                let ghost prev = out@.map_values(|q: ProxyTag| q@);
                out.push(p);
                proof {
                    assert(out@.map_values(|q: ProxyTag| q@) =~= prev.push(p@));
                }
            },
            Option::None => {
                proof {
                    lemma_decode_seq_extends_none(elems@, d_proxy_tag(), i + 1);
                }
                return None;
            },
        }
        i = i + 1;
    }
    proof {
        assert(elems@.take(n as int) =~= elems@);
    }
    Some(out)
}

/// An optional boolean value: `null` when absent.
pub fn opt_bool_json(o: &Option<bool>) -> (v: JsonValue)
    ensures
        o is None ==> v == JsonValue::Null,
        o matches Option::Some(b) ==> v == JsonValue::Bool(*b),
{
    match o {
        Option::Some(b) => JsonValue::Bool(*b),
        Option::None => JsonValue::Null,
    }
}

/// Writes an array of proxy tags; the result reads back as the argument.
pub fn proxy_tags_to_json(ps: &Vec<ProxyTag>) -> (r: Vec<JsonValue>)
    ensures
        spec_decode_seq(r@, d_proxy_tag()) == Option::Some(ps@.map_values(|p: ProxyTag| p@)),
        r@.len() == ps@.len(),
{
    let mut out: Vec<JsonValue> = Vec::new();
    let n = ps.len();
    let mut i: usize = 0;
    proof {
        assert(ps@.take(0).map_values(|p: ProxyTag| p@) =~= Seq::<ProxyTagView>::empty());
    }
    while i < n
        invariant
            i <= n == ps@.len(),
            out@.len() == i,
            spec_decode_seq(out@, d_proxy_tag()) == Option::Some(
                ps@.take(i as int).map_values(|p: ProxyTag| p@),
            ),
        decreases n - i,
    {
        let ghost prev = out@;
        out.push(proxy_tag_to_json(&ps[i]));
        proof {
            assert(out@.drop_last() =~= prev);
            assert(out@.last() == out@[i as int]);
            assert(ps@.take(i + 1).map_values(|p: ProxyTag| p@) =~= ps@.take(
                i as int,
            ).map_values(|p: ProxyTag| p@).push(ps@[i as int]@));
        }
        i = i + 1;
    }
    proof {
        assert(ps@.take(n as int) =~= ps@);
    }
    out
}

// ---------------------------------------------------------------------------
// Members.
// ---------------------------------------------------------------------------

/// The proxy-tag list of a member object.
pub open spec fn spec_member_tags(fields: Seq<(String, JsonValue)>) -> Option<Seq<ProxyTagView>> {
    match spec_get_arr(fields, "proxy_tags"@) {
        Option::Some(elems) => spec_decode_seq(elems, d_proxy_tag()),
        Option::None => Option::None,
    }
}

/// An optional member-privacy field.
pub open spec fn spec_opt_member_privacy(fields: Seq<(String, JsonValue)>, name: Seq<char>)
    -> Option<Option<MemberPrivacy>> {
    match spec_lookup(fields, name) {
        Option::None => Option::Some(Option::None),
        Option::Some(JsonValue::Null) => Option::Some(Option::None),
        Option::Some(v) => match spec_decode_member_privacy(v) {
            Option::Some(p) => Option::Some(Option::Some(p)),
            Option::None => Option::None,
        },
    }
}

/// What a member object decodes to.
pub open spec fn spec_decode_member(v: JsonValue) -> Option<MemberView> {
    match v {
        JsonValue::Obj(f0) => {
            let f = f0@;
            if spec_get_str(f, "id"@) is None || spec_get_str(f, "uuid"@) is None
                || spec_get_str(f, "name"@) is None || spec_opt_str(f, "display_name"@) is None
                || spec_opt_str(f, "color"@) is None || spec_opt_str(f, "birthday"@) is None
                || spec_opt_str(f, "pronouns"@) is None || spec_opt_str(f, "avatar_url"@) is None
                || spec_opt_str(f, "webhook_avatar_url"@) is None || spec_opt_str(f, "banner"@)
                is None || spec_opt_str(f, "description"@) is None || spec_opt_timestamp(
                f,
                "created"@,
            ) is None || spec_member_tags(f) is None || spec_get_bool(f, "keep_proxy"@) is None
                || spec_opt_bool(f, "autoproxy_enabled"@) is None || spec_opt_i32(
                f,
                "message_count"@,
            ) is None || spec_opt_timestamp(f, "last_message_timestamp"@) is None
                || spec_opt_member_privacy(f, "privacy"@) is None {
                Option::None
            } else {
                Option::Some(
                    MemberView {
                        id: spec_get_str(f, "id"@)->0,
                        uuid: spec_get_str(f, "uuid"@)->0,
                        name: spec_get_str(f, "name"@)->0,
                        display_name: spec_opt_str(f, "display_name"@)->0,
                        color: spec_opt_str(f, "color"@)->0,
                        birthday: spec_opt_str(f, "birthday"@)->0,
                        pronouns: spec_opt_str(f, "pronouns"@)->0,
                        avatar_url: spec_opt_str(f, "avatar_url"@)->0,
                        webhook_avatar_url: spec_opt_str(f, "webhook_avatar_url"@)->0,
                        banner: spec_opt_str(f, "banner"@)->0,
                        description: spec_opt_str(f, "description"@)->0,
                        created: spec_opt_timestamp(f, "created"@)->0,
                        proxy_tags: spec_member_tags(f)->0,
                        keep_proxy: spec_get_bool(f, "keep_proxy"@)->0,
                        autoproxy_enabled: spec_opt_bool(f, "autoproxy_enabled"@)->0,
                        message_count: spec_opt_i32(f, "message_count"@)->0,
                        last_message_timestamp: spec_opt_timestamp(f, "last_message_timestamp"@)->0,
                        privacy: spec_opt_member_privacy(f, "privacy"@)->0,
                    },
                )
            }
        },
        _ => Option::None,
    }
}

/// Reads a member record.
pub fn member_from_json(v: &JsonValue) -> (r: Option<Member>)
    ensures
        match r {
            Option::Some(m) => spec_decode_member(*v) == Option::Some(m@),
            Option::None => spec_decode_member(*v) is None,
        },
{
    match v {
        JsonValue::Obj(fields) => {
            let id = match get_str(fields, "id") {
                Option::Some(s) => s,
                Option::None => {
                    return None;
                },
            };
            let uuid = match get_str(fields, "uuid") {
                Option::Some(s) => s,
                Option::None => {
                    return None;
                },
            };
            let name = match get_str(fields, "name") {
                Option::Some(s) => s,
                Option::None => {
                    return None;
                },
            };
            let display_name = match opt_str(fields, "display_name") {
                Option::Some(o) => o,
                Option::None => {
                    return None;
                },
            };
            let color = match opt_str(fields, "color") {
                Option::Some(o) => o,
                Option::None => {
                    return None;
                },
            };
            let birthday = match opt_str(fields, "birthday") {
                Option::Some(o) => o,
                Option::None => {
                    return None;
                },
            };
            let pronouns = match opt_str(fields, "pronouns") {
                Option::Some(o) => o,
                Option::None => {
                    return None;
                },
            };
            let avatar_url = match opt_str(fields, "avatar_url") {
                Option::Some(o) => o,
                Option::None => {
                    return None;
                },
            };
            let webhook_avatar_url = match opt_str(fields, "webhook_avatar_url") {
                Option::Some(o) => o,
                Option::None => {
                    return None;
                },
            };
            let banner = match opt_str(fields, "banner") {
                Option::Some(o) => o,
                Option::None => {
                    return None;
                },
            };
            let description = match opt_str(fields, "description") {
                Option::Some(o) => o,
                Option::None => {
                    return None;
                },
            };
            let created = match opt_timestamp(fields, "created") {
                Option::Some(o) => o,
                Option::None => {
                    return None;
                },
            };
            let proxy_tags = match obj_get(fields, "proxy_tags") {
                Option::Some(av) => match av {
                    JsonValue::Arr(elems) => match proxy_tags_from_json(elems) {
                        Option::Some(ps) => ps,
                        Option::None => {
                            return None;
                        },
                    },
                    _ => {
                        return None;
                    },
                },
                Option::None => {
                    return None;
                },
            };
            let keep_proxy = match get_bool(fields, "keep_proxy") {
                Option::Some(b) => b,
                Option::None => {
                    return None;
                },
            };
            let autoproxy_enabled = match opt_bool(fields, "autoproxy_enabled") {
                Option::Some(o) => o,
                Option::None => {
                    return None;
                },
            };
            let message_count = match opt_i32(fields, "message_count") {
                Option::Some(o) => o,
                Option::None => {
                    return None;
                },
            };
            let last_message_timestamp = match opt_timestamp(fields, "last_message_timestamp") {
                Option::Some(o) => o,
                Option::None => {
                    return None;
                },
            };
            let privacy = match obj_get(fields, "privacy") {
                Option::Some(pv) => match pv {
                    JsonValue::Null => None,
                    _ => match member_privacy_from_json(pv) {
                        Option::Some(p) => Some(p),
                        Option::None => {
                            return None;
                        },
                    },
                },
                Option::None => None,
            };
            Some(
                Member {
                    id: PkId(id),
                    uuid,
                    name,
                    display_name,
                    color,
                    birthday,
                    pronouns,
                    avatar_url,
                    webhook_avatar_url,
                    banner,
                    description,
                    created,
                    proxy_tags,
                    keep_proxy,
                    autoproxy_enabled,
                    message_count,
                    last_message_timestamp,
                    privacy,
                },
            )
        },
        _ => None,
    }
}

/// Writes a member record; the result reads back as the argument.
#[verifier::rlimit(100)]
pub fn member_to_json(m: &Member) -> (v: JsonValue)
    requires
        m.wf(),
    ensures
        spec_decode_member(v) == Option::Some(m@),
        v matches JsonValue::Obj(f) && f@.len() == 18,
{
    let mut fields: Vec<(String, JsonValue)> = Vec::new();
    push_field(&mut fields, "id", JsonValue::Str(m.id.0.clone()));
    push_field(&mut fields, "uuid", JsonValue::Str(m.uuid.clone()));
    push_field(&mut fields, "name", JsonValue::Str(m.name.clone()));
    push_field(&mut fields, "display_name", opt_str_json(&m.display_name));
    push_field(&mut fields, "color", opt_str_json(&m.color));
    push_field(&mut fields, "birthday", opt_str_json(&m.birthday));
    push_field(&mut fields, "pronouns", opt_str_json(&m.pronouns));
    push_field(&mut fields, "avatar_url", opt_str_json(&m.avatar_url));
    push_field(&mut fields, "webhook_avatar_url", opt_str_json(&m.webhook_avatar_url));
    push_field(&mut fields, "banner", opt_str_json(&m.banner));
    push_field(&mut fields, "description", opt_str_json(&m.description));
    push_field(&mut fields, "created", opt_timestamp_json(&m.created));
    push_field(&mut fields, "proxy_tags", JsonValue::Arr(proxy_tags_to_json(&m.proxy_tags)));
    push_field(&mut fields, "keep_proxy", JsonValue::Bool(m.keep_proxy));
    push_field(&mut fields, "autoproxy_enabled", opt_bool_json(&m.autoproxy_enabled));
    push_field(&mut fields, "message_count", opt_i32_json(&m.message_count));
    push_field(&mut fields, "last_message_timestamp", opt_timestamp_json(&m.last_message_timestamp));
    let privacy_json = match &m.privacy {
        Option::Some(p) => member_privacy_to_json(p),
        Option::None => JsonValue::Null,
    };
    push_field(&mut fields, "privacy", privacy_json);
    proof {
        reveal_strlit("id");
        reveal_strlit("uuid");
        reveal_strlit("name");
        reveal_strlit("display_name");
        reveal_strlit("color");
        reveal_strlit("birthday");
        reveal_strlit("pronouns");
        reveal_strlit("avatar_url");
        reveal_strlit("webhook_avatar_url");
        reveal_strlit("banner");
        reveal_strlit("description");
        reveal_strlit("created");
        reveal_strlit("proxy_tags");
        reveal_strlit("keep_proxy");
        reveal_strlit("autoproxy_enabled");
        reveal_strlit("message_count");
        reveal_strlit("last_message_timestamp");
        reveal_strlit("privacy");
        assert("id"@[0] == 'i');
        assert("uuid"@[0] == 'u');
        assert("name"@[0] == 'n');
        assert("display_name"@[0] == 'd');
        assert("display_name"@[1] == 'i');
        assert("color"@[0] == 'c');
        assert("color"@[1] == 'o');
        assert("birthday"@[0] == 'b');
        assert("birthday"@[1] == 'i');
        assert("pronouns"@[0] == 'p');
        assert("pronouns"@[2] == 'o');
        assert("pronouns"@[3] == 'n');
        assert("avatar_url"@[0] == 'a');
        assert("avatar_url"@[1] == 'v');
        assert("webhook_avatar_url"@[0] == 'w');
        assert("banner"@[0] == 'b');
        assert("banner"@[1] == 'a');
        assert("description"@[0] == 'd');
        assert("description"@[1] == 'e');
        assert("created"@[0] == 'c');
        assert("created"@[1] == 'r');
        assert("proxy_tags"@[0] == 'p');
        assert("proxy_tags"@[2] == 'o');
        assert("proxy_tags"@[3] == 'x');
        assert("keep_proxy"@[0] == 'k');
        assert("autoproxy_enabled"@[0] == 'a');
        assert("autoproxy_enabled"@[1] == 'u');
        assert("message_count"@[0] == 'm');
        assert("last_message_timestamp"@[0] == 'l');
        assert("privacy"@[0] == 'p');
        assert("privacy"@[2] == 'i');
        let f = fields@;
        lemma_lookup_at(f, "id"@, 0);
        lemma_lookup_at(f, "uuid"@, 1);
        lemma_lookup_at(f, "name"@, 2);
        lemma_lookup_at(f, "display_name"@, 3);
        lemma_lookup_at(f, "color"@, 4);
        lemma_lookup_at(f, "birthday"@, 5);
        lemma_lookup_at(f, "pronouns"@, 6);
        lemma_lookup_at(f, "avatar_url"@, 7);
        lemma_lookup_at(f, "webhook_avatar_url"@, 8);
        lemma_lookup_at(f, "banner"@, 9);
        lemma_lookup_at(f, "description"@, 10);
        lemma_lookup_at(f, "created"@, 11);
        lemma_lookup_at(f, "proxy_tags"@, 12);
        lemma_lookup_at(f, "keep_proxy"@, 13);
        lemma_lookup_at(f, "autoproxy_enabled"@, 14);
        lemma_lookup_at(f, "message_count"@, 15);
        lemma_lookup_at(f, "last_message_timestamp"@, 16);
        lemma_lookup_at(f, "privacy"@, 17);
        if let Option::Some(t) = m.created {
            lemma_rfc3339_roundtrip(t);
        }
        if let Option::Some(t) = m.last_message_timestamp {
            lemma_rfc3339_roundtrip(t);
        }
    }
    JsonValue::Obj(fields)
}

// ---------------------------------------------------------------------------
// Groups.
// ---------------------------------------------------------------------------

/// An optional group-privacy field.
pub open spec fn spec_opt_group_privacy(fields: Seq<(String, JsonValue)>, name: Seq<char>)
    -> Option<Option<GroupPrivacy>> {
    match spec_lookup(fields, name) {
        Option::None => Option::Some(Option::None),
        Option::Some(JsonValue::Null) => Option::Some(Option::None),
        Option::Some(v) => match spec_decode_group_privacy(v) {
            Option::Some(p) => Option::Some(Option::Some(p)),
            Option::None => Option::None,
        },
    }
}

/// What a group object decodes to.
pub open spec fn spec_decode_group(v: JsonValue) -> Option<GroupView> {
    match v {
        JsonValue::Obj(f0) => {
            let f = f0@;
            if spec_get_str(f, "id"@) is None || spec_get_str(f, "uuid"@) is None
                || spec_get_str(f, "name"@) is None || spec_opt_str(f, "display_name"@) is None
                || spec_opt_str(f, "description"@) is None || spec_opt_str(f, "icon"@) is None
                || spec_opt_str(f, "banner"@) is None || spec_opt_str(f, "color"@) is None
                || spec_opt_group_privacy(f, "privacy"@) is None {
                Option::None
            } else {
                Option::Some(
                    GroupView {
                        id: spec_get_str(f, "id"@)->0,
                        uuid: spec_get_str(f, "uuid"@)->0,
                        name: spec_get_str(f, "name"@)->0,
                        display_name: spec_opt_str(f, "display_name"@)->0,
                        description: spec_opt_str(f, "description"@)->0,
                        icon: spec_opt_str(f, "icon"@)->0,
                        banner: spec_opt_str(f, "banner"@)->0,
                        color: spec_opt_str(f, "color"@)->0,
                        privacy: spec_opt_group_privacy(f, "privacy"@)->0,
                    },
                )
            }
        },
        _ => Option::None,
    }
}

/// Reads a group record.
pub fn group_from_json(v: &JsonValue) -> (r: Option<Group>)
    ensures
        match r {
            Option::Some(g) => spec_decode_group(*v) == Option::Some(g@),
            Option::None => spec_decode_group(*v) is None,
        },
{
    match v {
        JsonValue::Obj(fields) => {
            let id = match get_str(fields, "id") {
                Option::Some(s) => s,
                Option::None => {
                    return None;
                },
            };
            let uuid = match get_str(fields, "uuid") {
                Option::Some(s) => s,
                Option::None => {
                    return None;
                },
            };
            let name = match get_str(fields, "name") {
                Option::Some(s) => s,
                Option::None => {
                    return None;
                },
            };
            let display_name = match opt_str(fields, "display_name") {
                Option::Some(o) => o,
                Option::None => {
                    return None;
                },
            };
            let description = match opt_str(fields, "description") {
                Option::Some(o) => o,
                Option::None => {
                    return None;
                },
            };
            let icon = match opt_str(fields, "icon") {
                Option::Some(o) => o,
                Option::None => {
                    return None;
                },
            };
            let banner = match opt_str(fields, "banner") {
                Option::Some(o) => o,
                Option::None => {
                    return None;
                },
            };
            let color = match opt_str(fields, "color") {
                Option::Some(o) => o,
                Option::None => {
                    return None;
                },
            };
            let privacy = match obj_get(fields, "privacy") {
                Option::Some(pv) => match pv {
                    JsonValue::Null => None,
                    _ => match group_privacy_from_json(pv) {
                        Option::Some(p) => Some(p),
                        Option::None => {
                            return None;
                        },
                    },
                },
                Option::None => None,
            };
            Some(
                Group {
                    id: PkId(id),
                    uuid,
                    name,
                    display_name,
                    description,
                    icon,
                    banner,
                    color,
                    privacy,
                },
            )
        },
        _ => None,
    }
}

/// Writes a group record; the result reads back as the argument.
pub fn group_to_json(g: &Group) -> (v: JsonValue)
    ensures
        spec_decode_group(v) == Option::Some(g@),
        v matches JsonValue::Obj(f) && f@.len() == 9,
{
    let mut fields: Vec<(String, JsonValue)> = Vec::new();
    push_field(&mut fields, "id", JsonValue::Str(g.id.0.clone()));
    push_field(&mut fields, "uuid", JsonValue::Str(g.uuid.clone()));
    push_field(&mut fields, "name", JsonValue::Str(g.name.clone()));
    push_field(&mut fields, "display_name", opt_str_json(&g.display_name));
    push_field(&mut fields, "description", opt_str_json(&g.description));
    push_field(&mut fields, "icon", opt_str_json(&g.icon));
    push_field(&mut fields, "banner", opt_str_json(&g.banner));
    push_field(&mut fields, "color", opt_str_json(&g.color));
    let privacy_json = match &g.privacy {
        Option::Some(p) => group_privacy_to_json(p),
        Option::None => JsonValue::Null,
    };
    push_field(&mut fields, "privacy", privacy_json);
    proof {
        reveal_strlit("id");
        reveal_strlit("uuid");
        reveal_strlit("name");
        reveal_strlit("display_name");
        reveal_strlit("description");
        reveal_strlit("icon");
        reveal_strlit("banner");
        reveal_strlit("color");
        reveal_strlit("privacy");
        assert("id"@[0] == 'i');
        assert("id"@[1] == 'd');
        assert("uuid"@[0] == 'u');
        assert("name"@[0] == 'n');
        assert("display_name"@[0] == 'd');
        assert("display_name"@[1] == 'i');
        assert("description"@[0] == 'd');
        assert("description"@[1] == 'e');
        assert("icon"@[0] == 'i');
        assert("icon"@[1] == 'c');
        assert("banner"@[0] == 'b');
        assert("color"@[0] == 'c');
        assert("privacy"@[0] == 'p');
        let f = fields@;
        lemma_lookup_at(f, "id"@, 0);
        lemma_lookup_at(f, "uuid"@, 1);
        lemma_lookup_at(f, "name"@, 2);
        lemma_lookup_at(f, "display_name"@, 3);
        lemma_lookup_at(f, "description"@, 4);
        lemma_lookup_at(f, "icon"@, 5);
        lemma_lookup_at(f, "banner"@, 6);
        lemma_lookup_at(f, "color"@, 7);
        lemma_lookup_at(f, "privacy"@, 8);
    }
    JsonValue::Obj(fields)
}

// ---------------------------------------------------------------------------
// Switches.
// ---------------------------------------------------------------------------

/// What one entry of a switch's member list decodes to: a bare id string, or
/// an inlined member object.
pub open spec fn spec_decode_switch_member(v: JsonValue) -> Option<SwitchMemberView> {
    match v {
        JsonValue::Str(s) => Option::Some(SwitchMemberView::Id(s@)),
        JsonValue::Obj(_) => match spec_decode_member(v) {
            Option::Some(m) => Option::Some(SwitchMemberView::Full(m)),
            Option::None => Option::None,
        },
        _ => Option::None,
    }
}

/// The element decoder of switch member lists.
pub open spec fn d_switch_member() -> spec_fn(JsonValue) -> Option<SwitchMemberView> {
    |v: JsonValue| spec_decode_switch_member(v)
}

/// Reads one switch member entry.
pub fn switch_member_from_json(v: &JsonValue) -> (r: Option<SwitchMember>)
    ensures
        match r {
            Option::Some(sm) => spec_decode_switch_member(*v) == Option::Some(sm@),
            Option::None => spec_decode_switch_member(*v) is None,
        },
{
    match v {
        JsonValue::Str(s) => Some(SwitchMember::Id(PkId(s.clone()))),
        JsonValue::Obj(_) => match member_from_json(v) {
            Option::Some(m) => Some(SwitchMember::Full(Box::new(m))),
            Option::None => None,
        },
        _ => None,
    }
}

/// Writes one switch member entry; the result reads back as the argument.
pub fn switch_member_to_json(sm: &SwitchMember) -> (v: JsonValue)
    requires
        sm matches SwitchMember::Full(m) ==> m.wf(),
    ensures
        spec_decode_switch_member(v) == Option::Some(sm@),
{
    match sm {
        SwitchMember::Id(p) => JsonValue::Str(p.0.clone()),
        SwitchMember::Full(m) => member_to_json(&*m),
    }
}

/// Reads a switch's member list.
pub fn switch_members_from_json(elems: &Vec<JsonValue>) -> (r: Option<Vec<SwitchMember>>)
    ensures
        match r {
            Option::Some(ms) => spec_decode_seq(elems@, d_switch_member()) == Option::Some(
                ms@.map_values(|m: SwitchMember| m@),
            ),
            Option::None => spec_decode_seq(elems@, d_switch_member()) is None,
        },
{
    let mut out: Vec<SwitchMember> = Vec::new();
    let n = elems.len();
    let mut i: usize = 0;
    proof {
        assert(elems@.take(0) =~= Seq::<JsonValue>::empty());
        assert(out@.map_values(|m: SwitchMember| m@) =~= Seq::<SwitchMemberView>::empty());
    }
    while i < n
        invariant
            i <= n == elems@.len(),
            spec_decode_seq(elems@.take(i as int), d_switch_member()) == Option::Some(
                out@.map_values(|m: SwitchMember| m@),
            ),
        decreases n - i,
    {
        proof {
            assert(elems@.take(i + 1).drop_last() =~= elems@.take(i as int));
            assert(elems@.take(i + 1).last() == elems@[i as int]);
        }
        match switch_member_from_json(&elems[i]) {
            Option::Some(m) => {
                let ghost prev = out@.map_values(|q: SwitchMember| q@);
                out.push(m);
                proof {
                    assert(out@.map_values(|q: SwitchMember| q@) =~= prev.push(out@.last()@));
                }
            },
            Option::None => {
                proof {
                    lemma_decode_seq_extends_none(elems@, d_switch_member(), i + 1);
                }
                return None;
            },
        }
        i = i + 1;
    }
    proof {
        assert(elems@.take(n as int) =~= elems@);
    }
    Some(out)
}

/// Writes a switch's member list; the result reads back as the argument.
pub fn switch_members_to_json(ms: &Vec<SwitchMember>) -> (r: Vec<JsonValue>)
    requires
        forall|i: int|
            0 <= i < ms@.len() ==> (#[trigger] ms@[i] matches SwitchMember::Full(m) ==> m.wf()),
    ensures
        spec_decode_seq(r@, d_switch_member()) == Option::Some(
            ms@.map_values(|m: SwitchMember| m@),
        ),
        r@.len() == ms@.len(),
{
    let mut out: Vec<JsonValue> = Vec::new();
    let n = ms.len();
    let mut i: usize = 0;
    proof {
        assert(ms@.take(0).map_values(|m: SwitchMember| m@) =~= Seq::<SwitchMemberView>::empty());
    }
    while i < n
        invariant
            i <= n == ms@.len(),
            out@.len() == i,
            forall|j: int|
                0 <= j < ms@.len() ==> (#[trigger] ms@[j] matches SwitchMember::Full(m)
                    ==> m.wf()),
            spec_decode_seq(out@, d_switch_member()) == Option::Some(
                ms@.take(i as int).map_values(|m: SwitchMember| m@),
            ),
        decreases n - i,
    {
        let ghost prev = out@;
        out.push(switch_member_to_json(&ms[i]));
        proof {
            assert(out@.drop_last() =~= prev);
            assert(ms@.take(i + 1).map_values(|m: SwitchMember| m@) =~= ms@.take(
                i as int,
            ).map_values(|m: SwitchMember| m@).push(ms@[i as int]@));
        }
        i = i + 1;
    }
    proof {
        assert(ms@.take(n as int) =~= ms@);
    }
    out
}

/// The switch-member list of a switch object.
pub open spec fn spec_switch_member_list(fields: Seq<(String, JsonValue)>) -> Option<
    Seq<SwitchMemberView>,
> {
    match spec_get_arr(fields, "members"@) {
        Option::Some(elems) => spec_decode_seq(elems, d_switch_member()),
        Option::None => Option::None,
    }
}

/// What a switch object decodes to.
pub open spec fn spec_decode_switch(v: JsonValue) -> Option<SwitchView> {
    match v {
        JsonValue::Obj(f0) => {
            let f = f0@;
            if spec_get_str(f, "id"@) is None || spec_get_timestamp(f, "timestamp"@) is None
                || spec_switch_member_list(f) is None {
                Option::None
            } else {
                Option::Some(
                    SwitchView {
                        id: spec_get_str(f, "id"@)->0,
                        timestamp: spec_get_timestamp(f, "timestamp"@)->0,
                        members: spec_switch_member_list(f)->0,
                    },
                )
            }
        },
        _ => Option::None,
    }
}

/// Reads a switch record.
pub fn switch_from_json(v: &JsonValue) -> (r: Option<Switch>)
    ensures
        match r {
            Option::Some(s) => spec_decode_switch(*v) == Option::Some(s@),
            Option::None => spec_decode_switch(*v) is None,
        },
{
    match v {
        JsonValue::Obj(fields) => {
            let id = match get_str(fields, "id") {
                Option::Some(s) => s,
                Option::None => {
                    return None;
                },
            };
            let timestamp = match get_timestamp(fields, "timestamp") {
                Option::Some(t) => t,
                Option::None => {
                    return None;
                },
            };
            let members = match obj_get(fields, "members") {
                Option::Some(av) => match av {
                    JsonValue::Arr(elems) => match switch_members_from_json(elems) {
                        Option::Some(ms) => ms,
                        Option::None => {
                            return None;
                        },
                    },
                    _ => {
                        return None;
                    },
                },
                Option::None => {
                    return None;
                },
            };
            Some(Switch { id, timestamp, members })
        },
        _ => None,
    }
}

/// Writes a switch record; the result reads back as the argument.
pub fn switch_to_json(s: &Switch) -> (v: JsonValue)
    requires
        s.wf(),
    ensures
        spec_decode_switch(v) == Option::Some(s@),
        v matches JsonValue::Obj(f) && f@.len() == 3 && f@[0].0@ == "id"@ && f@[1].0@
            == "timestamp"@ && f@[2].0@ == "members"@,
{
    let mut fields: Vec<(String, JsonValue)> = Vec::new();
    push_field(&mut fields, "id", JsonValue::Str(s.id.clone()));
    push_field(&mut fields, "timestamp", JsonValue::Str(format_rfc3339(&s.timestamp)));
    push_field(&mut fields, "members", JsonValue::Arr(switch_members_to_json(&s.members)));
    proof {
        reveal_strlit("id");
        reveal_strlit("timestamp");
        reveal_strlit("members");
        assert("id"@[0] == 'i');
        assert("timestamp"@[0] == 't');
        assert("members"@[0] == 'm');
        let f = fields@;
        lemma_lookup_at(f, "id"@, 0);
        lemma_lookup_at(f, "timestamp"@, 1);
        lemma_lookup_at(f, "members"@, 2);
        lemma_rfc3339_roundtrip(s.timestamp);
    }
    JsonValue::Obj(fields)
}

// ---------------------------------------------------------------------------
// Messages.
// ---------------------------------------------------------------------------

/// An optional inlined system object.
pub open spec fn spec_opt_system_obj(fields: Seq<(String, JsonValue)>, name: Seq<char>) -> Option<
    Option<SystemView>,
> {
    match spec_lookup(fields, name) {
        Option::None => Option::Some(Option::None),
        Option::Some(JsonValue::Null) => Option::Some(Option::None),
        Option::Some(v) => match spec_decode_system(v) {
            Option::Some(s) => Option::Some(Option::Some(s)),
            Option::None => Option::None,
        },
    }
}

/// An optional inlined member object.
pub open spec fn spec_opt_member_obj(fields: Seq<(String, JsonValue)>, name: Seq<char>) -> Option<
    Option<MemberView>,
> {
    match spec_lookup(fields, name) {
        Option::None => Option::Some(Option::None),
        Option::Some(JsonValue::Null) => Option::Some(Option::None),
        Option::Some(v) => match spec_decode_member(v) {
            Option::Some(m) => Option::Some(Option::Some(m)),
            Option::None => Option::None,
        },
    }
}

/// What a message object decodes to.
pub open spec fn spec_decode_message(v: JsonValue) -> Option<MessageView> {
    match v {
        JsonValue::Obj(f0) => {
            let f = f0@;
            if spec_get_timestamp(f, "timestamp"@) is None || spec_get_str(f, "id"@) is None
                || spec_get_str(f, "original"@) is None || spec_get_str(f, "sender"@) is None
                || spec_get_str(f, "channel"@) is None || spec_get_str(f, "guild"@) is None
                || spec_opt_system_obj(f, "system"@) is None || spec_opt_member_obj(f, "member"@)
                is None {
                Option::None
            } else {
                Option::Some(
                    MessageView {
                        timestamp: spec_get_timestamp(f, "timestamp"@)->0,
                        id: spec_get_str(f, "id"@)->0,
                        original: spec_get_str(f, "original"@)->0,
                        sender: spec_get_str(f, "sender"@)->0,
                        channel: spec_get_str(f, "channel"@)->0,
                        guild: spec_get_str(f, "guild"@)->0,
                        system: spec_opt_system_obj(f, "system"@)->0,
                        member: spec_opt_member_obj(f, "member"@)->0,
                    },
                )
            }
        },
        _ => Option::None,
    }
}

/// Reads a message record.
pub fn message_from_json(v: &JsonValue) -> (r: Option<Message>)
    ensures
        match r {
            Option::Some(m) => spec_decode_message(*v) == Option::Some(m@),
            Option::None => spec_decode_message(*v) is None,
        },
{
    match v {
        JsonValue::Obj(fields) => {
            let timestamp = match get_timestamp(fields, "timestamp") {
                Option::Some(t) => t,
                Option::None => {
                    return None;
                },
            };
            let id = match get_str(fields, "id") {
                Option::Some(s) => s,
                Option::None => {
                    return None;
                },
            };
            let original = match get_str(fields, "original") {
                Option::Some(s) => s,
                Option::None => {
                    return None;
                },
            };
            let sender = match get_str(fields, "sender") {
                Option::Some(s) => s,
                Option::None => {
                    return None;
                },
            };
            let channel = match get_str(fields, "channel") {
                Option::Some(s) => s,
                Option::None => {
                    return None;
                },
            };
            let guild = match get_str(fields, "guild") {
                Option::Some(s) => s,
                Option::None => {
                    return None;
                },
            };
            let system = match obj_get(fields, "system") {
                Option::Some(sv) => match sv {
                    JsonValue::Null => None,
                    _ => match system_from_json(sv) {
                        Option::Some(s) => Some(s),
                        Option::None => {
                            return None;
                        },
                    },
                },
                Option::None => None,
            };
            let member = match obj_get(fields, "member") {
                Option::Some(mv) => match mv {
                    JsonValue::Null => None,
                    _ => match member_from_json(mv) {
                        Option::Some(m) => Some(m),
                        Option::None => {
                            return None;
                        },
                    },
                },
                Option::None => None,
            };
            Some(Message { timestamp, id, original, sender, channel, guild, system, member })
        },
        _ => None,
    }
}

// ---------------------------------------------------------------------------
// Response lists.
// ---------------------------------------------------------------------------

/// The element decoder of member lists.
pub open spec fn d_member() -> spec_fn(JsonValue) -> Option<MemberView> {
    |v: JsonValue| spec_decode_member(v)
}

/// The element decoder of group lists.
pub open spec fn d_group() -> spec_fn(JsonValue) -> Option<GroupView> {
    |v: JsonValue| spec_decode_group(v)
}

/// The element decoder of switch lists.
pub open spec fn d_switch() -> spec_fn(JsonValue) -> Option<SwitchView> {
    |v: JsonValue| spec_decode_switch(v)
}

/// The element decoder of per-guild member-settings lists.
pub open spec fn d_member_guild_settings() -> spec_fn(JsonValue) -> Option<
    MemberGuildSettingsView,
> {
    |v: JsonValue| spec_decode_member_guild_settings(v)
}

/// What a member-list document decodes to.
pub open spec fn spec_decode_members(v: JsonValue) -> Option<Seq<MemberView>> {
    match v {
        JsonValue::Arr(elems) => spec_decode_seq(elems@, d_member()),
        _ => Option::None,
    }
}

/// Reads a member list.
pub fn members_from_json(v: &JsonValue) -> (r: Option<Vec<Member>>)
    ensures
        match r {
            Option::Some(ms) => spec_decode_members(*v) == Option::Some(
                ms@.map_values(|m: Member| m@),
            ),
            Option::None => spec_decode_members(*v) is None,
        },
{
    let elems = match v {
        JsonValue::Arr(elems) => elems,
        _ => {
            return None;
        },
    };
    proof {
        assert(spec_decode_members(*v) == spec_decode_seq(elems@, d_member()));
    }
    let mut out: Vec<Member> = Vec::new();
    let n = elems.len();
    let mut i: usize = 0;
    proof {
        assert(elems@.take(0) =~= Seq::<JsonValue>::empty());
        assert(out@.map_values(|m: Member| m@) =~= Seq::<MemberView>::empty());
    }
    while i < n
        invariant
            i <= n == elems@.len(),
            spec_decode_members(*v) == spec_decode_seq(elems@, d_member()),
            spec_decode_seq(elems@.take(i as int), d_member()) == Option::Some(
                out@.map_values(|m: Member| m@),
            ),
        decreases n - i,
    {
        proof {
            assert(elems@.take(i + 1).drop_last() =~= elems@.take(i as int));
            assert(elems@.take(i + 1).last() == elems@[i as int]);
        }
        match member_from_json(&elems[i]) {
            Option::Some(m) => {
                let ghost prev = out@.map_values(|q: Member| q@);
                out.push(m);
                proof {
                    assert(out@.map_values(|q: Member| q@) =~= prev.push(out@.last()@));
                }
            },
            Option::None => {
                proof {
                    lemma_decode_seq_extends_none(elems@, d_member(), i + 1);
                }
                return None;
            },
        }
        i = i + 1;
    }
    proof {
        assert(elems@.take(n as int) =~= elems@);
    }
    Some(out)
}

/// What a group-list document decodes to.
pub open spec fn spec_decode_groups(v: JsonValue) -> Option<Seq<GroupView>> {
    match v {
        JsonValue::Arr(elems) => spec_decode_seq(elems@, d_group()),
        _ => Option::None,
    }
}

/// Reads a group list.
pub fn groups_from_json(v: &JsonValue) -> (r: Option<Vec<Group>>)
    ensures
        match r {
            Option::Some(gs) => spec_decode_groups(*v) == Option::Some(
                gs@.map_values(|g: Group| g@),
            ),
            Option::None => spec_decode_groups(*v) is None,
        },
{
    let elems = match v {
        JsonValue::Arr(elems) => elems,
        _ => {
            return None;
        },
    };
    proof {
        assert(spec_decode_groups(*v) == spec_decode_seq(elems@, d_group()));
    }
    let mut out: Vec<Group> = Vec::new();
    let n = elems.len();
    let mut i: usize = 0;
    proof {
        assert(elems@.take(0) =~= Seq::<JsonValue>::empty());
        assert(out@.map_values(|g: Group| g@) =~= Seq::<GroupView>::empty());
    }
    while i < n
        invariant
            i <= n == elems@.len(),
            spec_decode_groups(*v) == spec_decode_seq(elems@, d_group()),
            spec_decode_seq(elems@.take(i as int), d_group()) == Option::Some(
                out@.map_values(|g: Group| g@),
            ),
        decreases n - i,
    {
        proof {
            assert(elems@.take(i + 1).drop_last() =~= elems@.take(i as int));
            assert(elems@.take(i + 1).last() == elems@[i as int]);
        }
        match group_from_json(&elems[i]) {
            Option::Some(g) => {
                let ghost prev = out@.map_values(|q: Group| q@);
                out.push(g);
                proof {
                    assert(out@.map_values(|q: Group| q@) =~= prev.push(out@.last()@));
                }
            },
            Option::None => {
                proof {
                    lemma_decode_seq_extends_none(elems@, d_group(), i + 1);
                }
                return None;
            },
        }
        i = i + 1;
    }
    proof {
        assert(elems@.take(n as int) =~= elems@);
    }
    Some(out)
}

/// What a switch-list document decodes to.
pub open spec fn spec_decode_switches(v: JsonValue) -> Option<Seq<SwitchView>> {
    match v {
        JsonValue::Arr(elems) => spec_decode_seq(elems@, d_switch()),
        _ => Option::None,
    }
}

/// Reads a switch list.
pub fn switches_from_json(v: &JsonValue) -> (r: Option<Vec<Switch>>)
    ensures
        match r {
            Option::Some(ss) => spec_decode_switches(*v) == Option::Some(
                ss@.map_values(|s: Switch| s@),
            ),
            Option::None => spec_decode_switches(*v) is None,
        },
{
    let elems = match v {
        JsonValue::Arr(elems) => elems,
        _ => {
            return None;
        },
    };
    proof {
        assert(spec_decode_switches(*v) == spec_decode_seq(elems@, d_switch()));
    }
    let mut out: Vec<Switch> = Vec::new();
    let n = elems.len();
    let mut i: usize = 0;
    proof {
        assert(elems@.take(0) =~= Seq::<JsonValue>::empty());
        assert(out@.map_values(|s: Switch| s@) =~= Seq::<SwitchView>::empty());
    }
    while i < n
        invariant
            i <= n == elems@.len(),
            spec_decode_switches(*v) == spec_decode_seq(elems@, d_switch()),
            spec_decode_seq(elems@.take(i as int), d_switch()) == Option::Some(
                out@.map_values(|s: Switch| s@),
            ),
        decreases n - i,
    {
        proof {
            assert(elems@.take(i + 1).drop_last() =~= elems@.take(i as int));
            assert(elems@.take(i + 1).last() == elems@[i as int]);
        }
        match switch_from_json(&elems[i]) {
            Option::Some(s) => {
                let ghost prev = out@.map_values(|q: Switch| q@);
                out.push(s);
                proof {
                    assert(out@.map_values(|q: Switch| q@) =~= prev.push(out@.last()@));
                }
            },
            Option::None => {
                proof {
                    lemma_decode_seq_extends_none(elems@, d_switch(), i + 1);
                }
                return None;
            },
        }
        i = i + 1;
    }
    proof {
        assert(elems@.take(n as int) =~= elems@);
    }
    Some(out)
}

/// What a per-guild member-settings list decodes to.
pub open spec fn spec_decode_member_guild_settings_list(v: JsonValue) -> Option<
    Seq<MemberGuildSettingsView>,
> {
    match v {
        JsonValue::Arr(elems) => spec_decode_seq(elems@, d_member_guild_settings()),
        _ => Option::None,
    }
}

/// Reads a per-guild member-settings list.
pub fn member_guild_settings_list_from_json(v: &JsonValue) -> (r: Option<Vec<MemberGuildSettings>>)
    ensures
        match r {
            Option::Some(ss) => spec_decode_member_guild_settings_list(*v) == Option::Some(
                ss@.map_values(|s: MemberGuildSettings| s@),
            ),
            Option::None => spec_decode_member_guild_settings_list(*v) is None,
        },
{
    let elems = match v {
        JsonValue::Arr(elems) => elems,
        _ => {
            return None;
        },
    };
    proof {
        assert(spec_decode_member_guild_settings_list(*v) == spec_decode_seq(elems@, d_member_guild_settings()));
    }
    let mut out: Vec<MemberGuildSettings> = Vec::new();
    let n = elems.len();
    let mut i: usize = 0;
    proof {
        assert(elems@.take(0) =~= Seq::<JsonValue>::empty());
        assert(out@.map_values(|s: MemberGuildSettings| s@) =~= Seq::<
            MemberGuildSettingsView,
        >::empty());
    }
    while i < n
        invariant
            i <= n == elems@.len(),
            spec_decode_member_guild_settings_list(*v) == spec_decode_seq(
                elems@,
                d_member_guild_settings(),
            ),
            spec_decode_seq(elems@.take(i as int), d_member_guild_settings()) == Option::Some(
                out@.map_values(|s: MemberGuildSettings| s@),
            ),
        decreases n - i,
    {
        proof {
            assert(elems@.take(i + 1).drop_last() =~= elems@.take(i as int));
            assert(elems@.take(i + 1).last() == elems@[i as int]);
        }
        match member_guild_settings_from_json(&elems[i]) {
            Option::Some(s) => {
                let ghost prev = out@.map_values(|q: MemberGuildSettings| q@);
                out.push(s);
                proof {
                    assert(out@.map_values(|q: MemberGuildSettings| q@) =~= prev.push(
                        out@.last()@,
                    ));
                }
            },
            Option::None => {
                proof {
                    lemma_decode_seq_extends_none(elems@, d_member_guild_settings(), i + 1);
                }
                return None;
            },
        }
        i = i + 1;
    }
    proof {
        assert(elems@.take(n as int) =~= elems@);
    }
    Some(out)
}

// ---------------------------------------------------------------------------
// Id lists and the switch-creation payload.
// ---------------------------------------------------------------------------

/// Writes a list of ids as a JSON array of strings.
pub fn pkids_to_json(ids: &Vec<PkId>) -> (r: Vec<JsonValue>)
    ensures
        r@.len() == ids@.len(),
        forall|i: int|
            0 <= i < ids@.len() ==> (#[trigger] r@[i] matches JsonValue::Str(s) && s@ == ids@[i]@),
{
    let mut out: Vec<JsonValue> = Vec::new();
    let n = ids.len();
    let mut i: usize = 0;
    while i < n
        invariant
            i <= n == ids@.len(),
            out@.len() == i,
            forall|j: int|
                0 <= j < i ==> (#[trigger] out@[j] matches JsonValue::Str(s) && s@ == ids@[j]@),
        decreases n - i,
    {
        out.push(JsonValue::Str(ids[i].0.clone()));
        i = i + 1;
    }
    out
}

/// Builds the switch-creation payload: a `timestamp` field carrying the
/// instant in strict RFC-3339 text (or `null` for "now"), then a `members`
/// field carrying the fronting members' ids in order.
pub fn switch_create_json(member_ids: &Vec<PkId>, time: &Option<Timestamp>) -> (v: JsonValue)
    ensures
        v matches JsonValue::Obj(f) && f@.len() == 2 && f@[0].0@ == "timestamp"@ && f@[1].0@
            == "members"@,
        v matches JsonValue::Obj(f) ==> match time {
            Option::Some(t) => f@[0].1 matches JsonValue::Str(s) && s@ == spec_rfc3339(*t),
            Option::None => f@[0].1 == JsonValue::Null,
        },
        v matches JsonValue::Obj(f) ==> (f@[1].1 matches JsonValue::Arr(ids) && ids@.len()
            == member_ids@.len() && (forall|i: int|
            0 <= i < ids@.len() ==> (#[trigger] ids@[i] matches JsonValue::Str(s) && s@
                == member_ids@[i]@))),
{
    let mut fields: Vec<(String, JsonValue)> = Vec::new();
    push_field(&mut fields, "timestamp", opt_timestamp_json(time));
    push_field(&mut fields, "members", JsonValue::Arr(pkids_to_json(member_ids)));
    JsonValue::Obj(fields)
}

} // verus!
