use pkrs::http::{PkClient, HttpRequest, HttpOutcome, Method, PkError, new_http_client,
    check_no_content};
use pkrs::json::JsonValue;
use pkrs::model::{PkId, System, Member, ProxyTag};
use pkrs::timestamp::Timestamp;
use pkrs::codec::member_from_json;
use pkrs::responses::{read_member, read_system};

fn client() -> PkClient {
    PkClient {
        client: new_http_client(),
        token: "test-token".to_string(),
        user_agent: "pk + rust project".to_string(),
    }
}

fn header(req: &HttpRequest, name: &str) -> String {
    req.headers
        .iter()
        .find(|(k, _)| k == name)
        .map(|(_, v)| v.clone())
        .expect("header missing")
}

#[test]
fn every_request_carries_both_headers() {
    let c = client();
    let req = c.get_system(&PkId("exmpl".to_string()));
    assert_eq!(req.headers.len(), 2);
    assert_eq!(header(&req, "User-Agent"), "pk + rust project");
    assert_eq!(header(&req, "Authorization"), "test-token");
}

#[test]
fn get_system_builds_the_expected_exchange() {
    let c = client();
    let req = c.get_system(&PkId("exmpl".to_string()));
    assert_eq!(req.method, Method::Get);
    assert_eq!(req.url, "https://api.pluralkit.me/v2/systems/exmpl");
    assert!(req.query.is_empty());
    assert!(req.body.is_none());
}

#[test]
fn member_paths_use_the_member_id() {
    let c = client();
    let req = c.get_member(&PkId("abcde".to_string()));
    assert_eq!(req.method, Method::Get);
    assert_eq!(req.url, "https://api.pluralkit.me/v2/members/abcde");
    let req = c.delete_member(&PkId("abcde".to_string()));
    assert_eq!(req.method, Method::Delete);
    assert_eq!(req.url, "https://api.pluralkit.me/v2/members/abcde");
}

#[test]
fn nested_paths_are_joined_in_order() {
    let c = client();
    let sid = PkId("exmpl".to_string());
    assert_eq!(
        c.get_system_settings(&sid).url,
        "https://api.pluralkit.me/v2/systems/exmpl/settings"
    );
    assert_eq!(
        c.get_system_guild_settings(&sid, "42").url,
        "https://api.pluralkit.me/v2/systems/exmpl/settings/guilds/42"
    );
    assert_eq!(
        c.get_member_guild_settings(&PkId("abcde".to_string()), "42").url,
        "https://api.pluralkit.me/v2/members/abcde/guilds/42"
    );
    assert_eq!(
        c.get_system_fronters(&sid).url,
        "https://api.pluralkit.me/v2/systems/exmpl/fronters"
    );
    assert_eq!(
        c.get_message("777").url,
        "https://api.pluralkit.me/v2/messages/777"
    );
    assert_eq!(
        c.get_switch(&sid, "swtch").url,
        "https://api.pluralkit.me/v2/systems/exmpl/switches/swtch"
    );
}

#[test]
fn autoproxy_settings_name_the_guild_in_the_query() {
    let c = client();
    let req = c.get_system_autoproxy_settings(&PkId("exmpl".to_string()), "42");
    assert_eq!(req.url, "https://api.pluralkit.me/v2/systems/exmpl/autoproxy");
    assert_eq!(req.query, vec![("guild_id".to_string(), "42".to_string())]);
}

#[test]
fn switch_history_query_is_rfc3339_and_decimal() {
    let c = client();
    let before = Timestamp {
        year: 2020,
        month: 1,
        day: 2,
        hour: 3,
        minute: 4,
        second: 5,
        nanosecond: 0,
    };
    let req = c.get_system_switches(&PkId("exmpl".to_string()), &before, &10);
    assert_eq!(req.method, Method::Get);
    assert_eq!(req.url, "https://api.pluralkit.me/v2/systems/exmpl/switches");
    assert_eq!(
        req.query,
        vec![
            ("before".to_string(), "2020-01-02T03:04:05.000000000Z".to_string()),
            ("limit".to_string(), "10".to_string()),
        ]
    );
}

#[test]
fn create_switch_posts_timestamp_and_member_ids() {
    let c = client();
    let time = Timestamp {
        year: 2021,
        month: 9,
        day: 26,
        hour: 12,
        minute: 55,
        second: 39,
        nanosecond: 0,
    };
    let ids = vec![PkId("member_id_1".to_string()), PkId("member_id_2".to_string())];
    let req = c.create_switch(&PkId("exmpl".to_string()), &ids, &Some(time));
    assert_eq!(req.method, Method::Post);
    assert_eq!(req.url, "https://api.pluralkit.me/v2/systems/exmpl/switches");
    match req.body.expect("body missing") {
        JsonValue::Obj(fields) => {
            assert_eq!(fields.len(), 2);
            assert_eq!(fields[0].0, "timestamp");
            match &fields[0].1 {
                JsonValue::Str(text) => assert_eq!(text, "2021-09-26T12:55:39.000000000Z"),
                other => panic!("timestamp was {:?}", other),
            }
            assert_eq!(fields[1].0, "members");
            match &fields[1].1 {
                JsonValue::Arr(ids) => {
                    assert_eq!(ids.len(), 2);
                    match (&ids[0], &ids[1]) {
                        (JsonValue::Str(a), JsonValue::Str(b)) => {
                            assert_eq!(a, "member_id_1");
                            assert_eq!(b, "member_id_2");
                        },
                        other => panic!("members were {:?}", other),
                    }
                },
                other => panic!("members were {:?}", other),
            }
        },
        other => panic!("body was {:?}", other),
    }
}

#[test]
fn create_switch_without_time_sends_null() {
    let c = client();
    let req = c.create_switch(&PkId("exmpl".to_string()), &vec![], &None);
    match req.body.expect("body missing") {
        JsonValue::Obj(fields) => {
            assert!(matches!(fields[0].1, JsonValue::Null));
            match &fields[1].1 {
                JsonValue::Arr(ids) => assert!(ids.is_empty()),
                other => panic!("members were {:?}", other),
            }
        },
        other => panic!("body was {:?}", other),
    }
}

#[test]
fn membership_mutations_post_the_id_list() {
    let c = client();
    let gids = vec![PkId("g1".to_string()), PkId("g2".to_string())];
    for (req, action) in [
        (c.add_member_groups(&PkId("abcde".to_string()), &gids), "add"),
        (c.remove_member_groups(&PkId("abcde".to_string()), &gids), "remove"),
        (c.overwrite_member_groups(&PkId("abcde".to_string()), &gids), "overwrite"),
    ] {
        assert_eq!(req.method, Method::Post);
        assert_eq!(
            req.url,
            format!("https://api.pluralkit.me/v2/members/abcde/groups/{}", action)
        );
        match req.body.as_ref().expect("body missing") {
            JsonValue::Arr(ids) => {
                assert_eq!(ids.len(), 2);
                assert!(matches!(&ids[0], JsonValue::Str(s) if s == "g1"));
                assert!(matches!(&ids[1], JsonValue::Str(s) if s == "g2"));
            },
            other => panic!("body was {:?}", other),
        }
    }
    let req = c.overwrite_group_members(&PkId("grp01".to_string()), &gids);
    assert_eq!(
        req.url,
        "https://api.pluralkit.me/v2/groups/grp01/members/overwrite"
    );
}

#[test]
fn update_member_body_reads_back_as_the_member() {
    let c = client();
    let m = Member {
        id: PkId("abcde".to_string()),
        uuid: "u".to_string(),
        name: "N".to_string(),
        display_name: None,
        color: None,
        birthday: None,
        pronouns: None,
        avatar_url: None,
        webhook_avatar_url: None,
        banner: None,
        description: None,
        created: None,
        proxy_tags: vec![ProxyTag { prefix: Some("x:".to_string()), suffix: None }],
        keep_proxy: true,
        autoproxy_enabled: None,
        message_count: None,
        last_message_timestamp: None,
        privacy: None,
    };
    let req = c.update_member(&m);
    assert_eq!(req.method, Method::Patch);
    assert_eq!(req.url, "https://api.pluralkit.me/v2/members/abcde");
    assert_eq!(member_from_json(req.body.as_ref().unwrap()), Some(m));
}

#[test]
fn membership_success_is_no_content_and_nothing_else() {
    assert_eq!(
        check_no_content(&HttpOutcome::Response { status: 204, body: None }),
        Ok(())
    );
    let ok_with_noise = HttpOutcome::Response {
        status: 204,
        body: Some(JsonValue::Str("ignored".to_string())),
    };
    assert_eq!(check_no_content(&ok_with_noise), Ok(()));
    assert_eq!(
        check_no_content(&HttpOutcome::Response { status: 200, body: None }),
        Err(PkError::Status(200))
    );
    assert_eq!(
        check_no_content(&HttpOutcome::Response { status: 404, body: None }),
        Err(PkError::Status(404))
    );
    match check_no_content(&HttpOutcome::Failure("no route".to_string())) {
        Err(PkError::Transport(m)) => assert_eq!(m, "no route"),
        other => panic!("judged as {:?}", other),
    }
}

#[test]
fn get_member_of_existing_id_answers_that_id() {
    let c = client();
    let req = c.get_member(&PkId("abcde".to_string()));
    assert_eq!(req.url, "https://api.pluralkit.me/v2/members/abcde");
    let echoed = JsonValue::Obj(vec![
        ("id".to_string(), JsonValue::Str("abcde".to_string())),
        ("uuid".to_string(), JsonValue::Str("u".to_string())),
        ("name".to_string(), JsonValue::Str("Existing".to_string())),
        ("proxy_tags".to_string(), JsonValue::Arr(vec![])),
        ("keep_proxy".to_string(), JsonValue::Bool(false)),
    ]);
    let outcome = HttpOutcome::Response { status: 200, body: Some(echoed) };
    let m = read_member(&outcome).unwrap();
    assert_eq!(m.id, PkId("abcde".to_string()));
}

#[test]
fn readers_surface_each_error_kind() {
    match read_system(&HttpOutcome::Failure("dns".to_string())) {
        Err(PkError::Transport(m)) => assert_eq!(m, "dns"),
        other => panic!("judged as {:?}", other),
    }
    assert_eq!(
        read_system(&HttpOutcome::Response { status: 403, body: None }),
        Err(PkError::Status(403))
    );
    assert_eq!(
        read_system(&HttpOutcome::Response { status: 200, body: None }),
        Err(PkError::Schema)
    );
    assert_eq!(
        read_system(&HttpOutcome::Response {
            status: 200,
            body: Some(JsonValue::Bool(true)),
        }),
        Err(PkError::Schema)
    );
}

#[test]
fn update_then_echo_returns_the_original_record() {
    let c = client();
    let sys = System {
        id: PkId("exmpl".to_string()),
        name: Some("Kept".to_string()),
        description: None,
        tag: None,
        avatar_url: None,
        created: None,
        privacy: None,
    };
    let req = c.update_system(&sys);
    assert_eq!(req.url, "https://api.pluralkit.me/v2/systems/exmpl");
    let outcome = HttpOutcome::Response { status: 200, body: req.body };
    assert_eq!(read_system(&outcome), Ok(sys));
}
