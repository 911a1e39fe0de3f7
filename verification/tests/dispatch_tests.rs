use pkrs::commands::{Cli, Commands, SystemCommands, SystemSetCommands, MemberCommands,
    MemberGroupCommands, SwitchCommands};
use pkrs::dispatch::{plan, conclude, Action, CallTag, Conclusion, SystemField};
use pkrs::http::{PkClient, HttpOutcome, Method, PkError, new_http_client};
use pkrs::json::JsonValue;
use pkrs::model::{PkId, System, Member};
use pkrs::codec::{system_from_json, system_to_json, member_to_json};

fn client() -> PkClient {
    PkClient {
        client: new_http_client(),
        token: "test-token".to_string(),
        user_agent: "Testing Rust CLI nonsense".to_string(),
    }
}

fn default_sys() -> System {
    System {
        id: PkId("txipz".to_string()),
        name: Some("Default".to_string()),
        description: None,
        tag: None,
        avatar_url: None,
        created: None,
        privacy: None,
    }
}

fn plan_one(command: Commands) -> Action {
    plan(&client(), &Cli { command: Some(command) }, &default_sys())
}

#[test]
fn empty_invocation_is_unknown() {
    match plan(&client(), &Cli { command: None }, &default_sys()) {
        Action::Reply { message } => assert_eq!(message, "Unknown command!"),
        other => panic!("planned {:?}", other),
    }
}

#[test]
fn token_command_replaces_the_credential() {
    match plan_one(Commands::Token { token: "fresh".to_string() }) {
        Action::SetToken { token } => assert_eq!(token, "fresh"),
        other => panic!("planned {:?}", other),
    }
}

#[test]
fn system_get_falls_back_to_the_default_system() {
    match plan_one(Commands::System { command: SystemCommands::Get { system_id: None } }) {
        Action::Call { request, tag } => {
            assert_eq!(tag, CallTag::ShowSystem);
            assert_eq!(request.url, "https://api.pluralkit.me/v2/systems/txipz");
        },
        other => panic!("planned {:?}", other),
    }
    match plan_one(Commands::System {
        command: SystemCommands::Get { system_id: Some("other".to_string()) },
    }) {
        Action::Call { request, .. } => {
            assert_eq!(request.url, "https://api.pluralkit.me/v2/systems/other");
        },
        other => panic!("planned {:?}", other),
    }
}

#[test]
fn system_set_name_patches_the_modified_copy() {
    match plan_one(Commands::System {
        command: SystemCommands::Change {
            command: SystemSetCommands::Name { name: "Renamed".to_string() },
        },
    }) {
        Action::Call { request, tag } => {
            assert_eq!(
                tag,
                CallTag::UpdateSystemField {
                    field: SystemField::Name,
                    value: "Renamed".to_string(),
                }
            );
            assert_eq!(request.method, Method::Patch);
            assert_eq!(request.url, "https://api.pluralkit.me/v2/systems/txipz");
            let sent = system_from_json(request.body.as_ref().unwrap()).unwrap();
            assert_eq!(sent.name, Some("Renamed".to_string()));
            assert_eq!(sent.id, default_sys().id);
        },
        other => panic!("planned {:?}", other),
    }
}

#[test]
fn unhandled_commands_reply_not_implemented() {
    match plan_one(Commands::System {
        command: SystemCommands::Change {
            command: SystemSetCommands::Timezone { timezone: "UTC".to_string() },
        },
    }) {
        Action::Reply { message } => assert_eq!(message, "Command not yet implemented!"),
        other => panic!("planned {:?}", other),
    }
    match plan_one(Commands::Member { command: MemberCommands::List { system_id: None } }) {
        Action::Reply { message } => assert_eq!(message, "Command not yet implemented!"),
        other => panic!("planned {:?}", other),
    }
}

#[test]
fn member_create_without_name_asks_for_one() {
    match plan_one(Commands::Member {
        command: MemberCommands::Create { name: None, avatar: None, description: None },
    }) {
        Action::NeedInput { prompt } => assert_eq!(prompt, "Name: "),
        other => panic!("planned {:?}", other),
    }
}

#[test]
fn member_create_posts_a_fresh_record() {
    match plan_one(Commands::Member {
        command: MemberCommands::Create {
            name: Some("Newbie".to_string()),
            avatar: Some("https://example.org/n.png".to_string()),
            description: None,
        },
    }) {
        Action::Call { request, tag } => {
            assert_eq!(tag, CallTag::CreateMember);
            assert_eq!(request.method, Method::Post);
            assert_eq!(request.url, "https://api.pluralkit.me/v2/members");
            let sent = pkrs::codec::member_from_json(request.body.as_ref().unwrap()).unwrap();
            assert_eq!(sent.name, "Newbie");
            assert_eq!(sent.id, PkId(String::new()));
            assert_eq!(sent.avatar_url, Some("https://example.org/n.png".to_string()));
            assert!(sent.proxy_tags.is_empty());
            assert!(!sent.keep_proxy);
        },
        other => panic!("planned {:?}", other),
    }
}

#[test]
fn member_delete_asks_for_confirmation_first() {
    match plan_one(Commands::Member {
        command: MemberCommands::Delete { member_id: "abcde".to_string(), confirm: None },
    }) {
        Action::NeedInput { prompt } => assert_eq!(prompt, "Confirm (y/n): "),
        other => panic!("planned {:?}", other),
    }
    match plan_one(Commands::Member {
        command: MemberCommands::Delete {
            member_id: "abcde".to_string(),
            confirm: Some(false),
        },
    }) {
        Action::Reply { message } => assert_eq!(message, "Aborted deletion!"),
        other => panic!("planned {:?}", other),
    }
    match plan_one(Commands::Member {
        command: MemberCommands::Delete {
            member_id: "abcde".to_string(),
            confirm: Some(true),
        },
    }) {
        Action::Call { request, tag } => {
            assert_eq!(tag, CallTag::DeleteMember { member_id: "abcde".to_string() });
            assert_eq!(request.method, Method::Delete);
            assert_eq!(request.url, "https://api.pluralkit.me/v2/members/abcde");
        },
        other => panic!("planned {:?}", other),
    }
}

#[test]
fn member_group_commands_reach_the_membership_endpoints() {
    match plan_one(Commands::Member {
        command: MemberCommands::Group {
            member_id: "abcde".to_string(),
            command: MemberGroupCommands::Add { group_id: "grp01".to_string() },
        },
    }) {
        Action::Call { request, tag } => {
            assert_eq!(tag, CallTag::ChangeMemberGroups);
            assert_eq!(
                request.url,
                "https://api.pluralkit.me/v2/members/abcde/groups/add"
            );
            match request.body.as_ref().unwrap() {
                JsonValue::Arr(ids) => {
                    assert_eq!(ids.len(), 1);
                    assert!(matches!(&ids[0], JsonValue::Str(s) if s == "grp01"));
                },
                other => panic!("body was {:?}", other),
            }
        },
        other => panic!("planned {:?}", other),
    }
}

#[test]
fn switch_list_pages_from_now_with_limit_ten() {
    match plan_one(Commands::Switch { command: SwitchCommands::List { system_id: None } }) {
        Action::Call { request, tag } => {
            assert_eq!(tag, CallTag::ListSwitches);
            assert_eq!(
                request.url,
                "https://api.pluralkit.me/v2/systems/txipz/switches"
            );
            assert_eq!(request.query.len(), 2);
            assert_eq!(request.query[0].0, "before");
            assert!(request.query[0].1.ends_with('Z'));
            assert_eq!(request.query[1], ("limit".to_string(), "10".to_string()));
        },
        other => panic!("planned {:?}", other),
    }
}

#[test]
fn switch_new_validates_the_timestamp() {
    match plan_one(Commands::Switch {
        command: SwitchCommands::New {
            members: vec!["m1".to_string()],
            time: Some("not a time".to_string()),
        },
    }) {
        Action::Reply { message } => assert_eq!(message, "Invalid timestamp"),
        other => panic!("planned {:?}", other),
    }
    match plan_one(Commands::Switch {
        command: SwitchCommands::New {
            members: vec!["m1".to_string(), "m2".to_string()],
            time: Some("2021-09-26T12:55:39Z".to_string()),
        },
    }) {
        Action::Call { request, tag } => {
            assert_eq!(tag, CallTag::NewSwitch);
            assert_eq!(request.method, Method::Post);
            assert_eq!(
                request.url,
                "https://api.pluralkit.me/v2/systems/txipz/switches"
            );
        },
        other => panic!("planned {:?}", other),
    }
}

#[test]
fn conclude_shows_a_fetched_system() {
    let outcome = HttpOutcome::Response {
        status: 200,
        body: Some(system_to_json(&default_sys())),
    };
    assert_eq!(
        conclude(&CallTag::ShowSystem, &outcome),
        Ok(Conclusion::ShowSystem(default_sys()))
    );
}

#[test]
fn conclude_reports_a_completed_field_update() {
    let tag = CallTag::UpdateSystemField {
        field: SystemField::Name,
        value: "Renamed".to_string(),
    };
    let outcome = HttpOutcome::Response {
        status: 200,
        body: Some(system_to_json(&default_sys())),
    };
    assert_eq!(
        conclude(&tag, &outcome),
        Ok(Conclusion::Note("Set name to Renamed".to_string()))
    );
    assert_eq!(
        conclude(&tag, &HttpOutcome::Response { status: 500, body: None }),
        Err(PkError::Status(500))
    );
}

#[test]
fn conclude_judges_deletion_by_no_content() {
    let tag = CallTag::DeleteMember { member_id: "abcde".to_string() };
    assert_eq!(
        conclude(&tag, &HttpOutcome::Response { status: 204, body: None }),
        Ok(Conclusion::Note("Deleted member abcde".to_string()))
    );
    assert_eq!(
        conclude(&tag, &HttpOutcome::Response { status: 403, body: None }),
        Ok(Conclusion::Note("Failed to delete member abcde".to_string()))
    );
    match conclude(&tag, &HttpOutcome::Failure("offline".to_string())) {
        Err(PkError::Transport(m)) => assert_eq!(m, "offline"),
        other => panic!("judged {:?}", other),
    }
}

#[test]
fn conclude_judges_membership_changes_by_no_content() {
    let tag = CallTag::ChangeMemberGroups;
    assert_eq!(
        conclude(&tag, &HttpOutcome::Response { status: 204, body: None }),
        Ok(Conclusion::Note("Updated member groups".to_string()))
    );
    assert_eq!(
        conclude(
            &tag,
            &HttpOutcome::Response {
                status: 200,
                body: Some(JsonValue::Str("looks fine".to_string())),
            }
        ),
        Err(PkError::Status(200))
    );
}

#[test]
fn conclude_accepts_either_switch_creation_answer() {
    let tag = CallTag::NewSwitch;
    assert_eq!(
        conclude(&tag, &HttpOutcome::Response { status: 204, body: None }),
        Ok(Conclusion::Note("Registered switch".to_string()))
    );
    let with_body = HttpOutcome::Response {
        status: 200,
        body: Some(JsonValue::Obj(vec![])),
    };
    assert_eq!(
        conclude(&tag, &with_body),
        Ok(Conclusion::Note("Registered switch".to_string()))
    );
    assert_eq!(
        conclude(&tag, &HttpOutcome::Response { status: 400, body: None }),
        Err(PkError::Status(400))
    );
}

#[test]
fn conclude_hands_a_created_member_back() {
    let m = Member {
        id: PkId("newid".to_string()),
        uuid: "u".to_string(),
        name: "Newbie".to_string(),
        display_name: None,
        color: None,
        birthday: None,
        pronouns: None,
        avatar_url: None,
        webhook_avatar_url: None,
        banner: None,
        description: None,
        created: None,
        proxy_tags: vec![],
        keep_proxy: false,
        autoproxy_enabled: None,
        message_count: None,
        last_message_timestamp: None,
        privacy: None,
    };
    let outcome = HttpOutcome::Response { status: 200, body: Some(member_to_json(&m)) };
    assert_eq!(
        conclude(&CallTag::CreateMember, &outcome),
        Ok(Conclusion::CreatedMember(m))
    );
}
