use pkrs::codec::{system_to_json, system_from_json, member_to_json, member_from_json,
    group_to_json, group_from_json, switch_to_json, switch_from_json, proxy_tag_to_json,
    proxy_tag_from_json, system_settings_to_json, system_settings_from_json,
    system_guild_settings_to_json, system_guild_settings_from_json, autoproxy_settings_to_json,
    autoproxy_settings_from_json, member_guild_settings_to_json, member_guild_settings_from_json,
    message_from_json, members_from_json, system_privacy_to_json, system_privacy_from_json};
use pkrs::json::JsonValue;
use pkrs::model::{PkId, Privacy, AutoProxyMode, System, SystemPrivacy, Member, MemberPrivacy,
    ProxyTag, Group, GroupPrivacy, Switch, SwitchMember, SystemSettings, SystemGuildSettings,
    AutoProxySettings, MemberGuildSettings};
use pkrs::timestamp::Timestamp;

fn obj(fields: Vec<(&str, JsonValue)>) -> JsonValue {
    JsonValue::Obj(fields.into_iter().map(|(k, v)| (k.to_string(), v)).collect())
}

fn s(text: &str) -> JsonValue {
    JsonValue::Str(text.to_string())
}

fn sample_time() -> Timestamp {
    Timestamp { year: 2021, month: 9, day: 26, hour: 12, minute: 55, second: 39, nanosecond: 0 }
}

fn sample_system() -> System {
    System {
        id: PkId("exmpl".to_string()),
        name: Some("Example system".to_string()),
        description: None,
        tag: Some("| Ex".to_string()),
        avatar_url: Some("https://example.org/a.png".to_string()),
        created: Some(sample_time()),
        privacy: Some(SystemPrivacy {
            description_privacy: Privacy::Public,
            pronoun_privacy: Privacy::Private,
            member_list_privacy: Privacy::Public,
            group_list_privacy: Privacy::Private,
            front_privacy: Privacy::Public,
            front_history_privacy: Privacy::Private,
        }),
    }
}

fn sample_member() -> Member {
    Member {
        id: PkId("abcde".to_string()),
        uuid: "01234567-89ab-cdef-0123-456789abcdef".to_string(),
        name: "Test Member".to_string(),
        display_name: Some("Testy".to_string()),
        color: Some("ff0000".to_string()),
        birthday: None,
        pronouns: Some("they/them".to_string()),
        avatar_url: None,
        webhook_avatar_url: None,
        banner: None,
        description: Some("hello".to_string()),
        created: Some(sample_time()),
        proxy_tags: vec![
            ProxyTag { prefix: Some("t:".to_string()), suffix: None },
            ProxyTag { prefix: None, suffix: Some("-t".to_string()) },
        ],
        keep_proxy: false,
        autoproxy_enabled: Some(true),
        message_count: Some(42),
        last_message_timestamp: None,
        privacy: Some(MemberPrivacy {
            visibility: Privacy::Public,
            name_privacy: Privacy::Public,
            description_privacy: Privacy::Private,
            birthday_privacy: Privacy::Private,
            pronoun_privacy: Privacy::Public,
            avatar_privacy: Privacy::Public,
            metadata_privacy: Privacy::Private,
        }),
    }
}

#[test]
fn system_roundtrip() {
    let sys = sample_system();
    assert_eq!(system_from_json(&system_to_json(&sys)), Some(sys));
}

#[test]
fn system_roundtrip_with_empty_options() {
    let sys = System {
        id: PkId("a".to_string()),
        name: None,
        description: None,
        tag: None,
        avatar_url: None,
        created: None,
        privacy: None,
    };
    assert_eq!(system_from_json(&system_to_json(&sys)), Some(sys));
}

#[test]
fn member_roundtrip() {
    let m = sample_member();
    assert_eq!(member_from_json(&member_to_json(&m)), Some(m));
}

#[test]
fn group_roundtrip() {
    let g = Group {
        id: PkId("grp01".to_string()),
        uuid: "fedcba98-7654-3210-fedc-ba9876543210".to_string(),
        name: "A group".to_string(),
        display_name: None,
        description: Some("desc".to_string()),
        icon: None,
        banner: None,
        color: Some("00ff00".to_string()),
        privacy: Some(GroupPrivacy {
            name_privacy: Privacy::Public,
            description_privacy: Privacy::Public,
            icon_privacy: Privacy::Public,
            list_privacy: Privacy::Private,
            metadata_privacy: Privacy::Private,
            visibility: Privacy::Public,
        }),
    };
    assert_eq!(group_from_json(&group_to_json(&g)), Some(g));
}

#[test]
fn switch_roundtrip_with_both_member_forms() {
    let sw = Switch {
        id: "a5b1c3d7-0000-0000-0000-000000000000".to_string(),
        timestamp: sample_time(),
        members: vec![
            SwitchMember::Id(PkId("abcde".to_string())),
            SwitchMember::Full(Box::new(sample_member())),
        ],
    };
    assert_eq!(switch_from_json(&switch_to_json(&sw)), Some(sw));
}

#[test]
fn proxy_tag_roundtrip() {
    let p = ProxyTag { prefix: Some("[".to_string()), suffix: Some("]".to_string()) };
    assert_eq!(proxy_tag_from_json(&proxy_tag_to_json(&p)), Some(p));
}

#[test]
fn system_settings_roundtrip() {
    let st = SystemSettings {
        timezone: "UTC".to_string(),
        pings_enabled: true,
        latch_timeout: Some(3600),
        member_default_private: false,
        group_default_private: true,
        show_private_info: false,
        member_limit: 1000,
        group_limit: 250,
    };
    assert_eq!(system_settings_from_json(&system_settings_to_json(&st)), Some(st));
}

#[test]
fn system_guild_settings_roundtrip() {
    let st = SystemGuildSettings {
        guild_id: Some("123456".to_string()),
        proxying_enabled: true,
        tag: None,
        tag_enabled: false,
    };
    assert_eq!(
        system_guild_settings_from_json(&system_guild_settings_to_json(&st)),
        Some(st)
    );
}

#[test]
fn autoproxy_settings_roundtrip() {
    for mode in [AutoProxyMode::Off, AutoProxyMode::Front, AutoProxyMode::Latch,
        AutoProxyMode::Member] {
        let st = AutoProxySettings {
            autoproxy_mode: mode,
            autoproxy_member: Some("abcde".to_string()),
            last_latch_timestamp: Some(sample_time()),
        };
        assert_eq!(
            autoproxy_settings_from_json(&autoproxy_settings_to_json(&st)),
            Some(st)
        );
    }
}

#[test]
fn member_guild_settings_roundtrip() {
    let st = MemberGuildSettings {
        guild_id: "987654".to_string(),
        display_name: Some("Guild name".to_string()),
        avatar_url: None,
    };
    assert_eq!(
        member_guild_settings_from_json(&member_guild_settings_to_json(&st)),
        Some(st)
    );
}

#[test]
fn system_privacy_roundtrip() {
    let p = SystemPrivacy {
        description_privacy: Privacy::Private,
        pronoun_privacy: Privacy::Private,
        member_list_privacy: Privacy::Private,
        group_list_privacy: Privacy::Private,
        front_privacy: Privacy::Private,
        front_history_privacy: Privacy::Private,
    };
    assert_eq!(system_privacy_from_json(&system_privacy_to_json(&p)), Some(p));
}

#[test]
fn decode_ignores_unknown_fields_and_order() {
    let v = obj(vec![
        ("privacy", JsonValue::Null),
        ("created", JsonValue::Null),
        ("color", JsonValue::Null),
        ("id", s("exmpl")),
        ("something_new", JsonValue::Bool(true)),
        ("name", s("n")),
        ("description", JsonValue::Null),
        ("tag", JsonValue::Null),
        ("avatar_url", JsonValue::Null),
    ]);
    let sys = system_from_json(&v).unwrap();
    assert_eq!(sys.id, PkId("exmpl".to_string()));
    assert_eq!(sys.name, Some("n".to_string()));
    assert_eq!(sys.privacy, None);
}

#[test]
fn decode_treats_missing_optional_fields_as_absent() {
    let v = obj(vec![("id", s("exmpl"))]);
    let sys = system_from_json(&v).unwrap();
    assert_eq!(sys.name, None);
    assert_eq!(sys.created, None);
}

#[test]
fn decode_rejects_missing_required_fields() {
    let v = obj(vec![("name", s("n"))]);
    assert_eq!(system_from_json(&v), None);
}

#[test]
fn decode_rejects_wrongly_typed_fields() {
    let v = obj(vec![("id", JsonValue::Int(5))]);
    assert_eq!(system_from_json(&v), None);
    let v = obj(vec![("id", s("x")), ("name", JsonValue::Bool(true))]);
    assert_eq!(system_from_json(&v), None);
    assert_eq!(system_from_json(&JsonValue::Str("not an object".to_string())), None);
}

#[test]
fn decode_rejects_unknown_privacy_words() {
    let v = obj(vec![
        ("description_privacy", s("public")),
        ("pronoun_privacy", s("secret")),
        ("member_list_privacy", s("public")),
        ("group_list_privacy", s("public")),
        ("front_privacy", s("public")),
        ("front_history_privacy", s("public")),
    ]);
    assert_eq!(system_privacy_from_json(&v), None);
}

#[test]
fn decode_rejects_bad_timestamps() {
    let v = obj(vec![("id", s("x")), ("created", s("yesterday"))]);
    assert_eq!(system_from_json(&v), None);
}

#[test]
fn decode_rejects_out_of_range_counts() {
    let member = obj(vec![
        ("id", s("abcde")),
        ("uuid", s("u")),
        ("name", s("n")),
        ("proxy_tags", JsonValue::Arr(vec![])),
        ("keep_proxy", JsonValue::Bool(false)),
        ("message_count", JsonValue::Int(4_000_000_000)),
    ]);
    assert_eq!(member_from_json(&member), None);
}

#[test]
fn message_decodes_with_inlined_records() {
    let v = obj(vec![
        ("timestamp", s("2021-09-26T12:55:39.000000000Z")),
        ("id", s("111")),
        ("original", s("222")),
        ("sender", s("333")),
        ("channel", s("444")),
        ("guild", s("555")),
        ("system", system_to_json(&sample_system())),
        ("member", JsonValue::Null),
    ]);
    let msg = message_from_json(&v).unwrap();
    assert_eq!(msg.id, "111");
    assert_eq!(msg.timestamp, sample_time());
    assert_eq!(msg.system, Some(sample_system()));
    assert_eq!(msg.member, None);
}

#[test]
fn member_list_decodes_in_order() {
    let v = JsonValue::Arr(vec![
        member_to_json(&sample_member()),
        member_to_json(&Member { name: "Other".to_string(), ..sample_member() }),
    ]);
    let ms = members_from_json(&v).unwrap();
    assert_eq!(ms.len(), 2);
    assert_eq!(ms[0].name, "Test Member");
    assert_eq!(ms[1].name, "Other");
}

#[test]
fn member_list_rejects_one_bad_element() {
    let v = JsonValue::Arr(vec![
        member_to_json(&sample_member()),
        JsonValue::Bool(false),
    ]);
    assert_eq!(members_from_json(&v), None);
}
