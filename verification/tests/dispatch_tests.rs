use turtl_core::coordinator::Coordinator;
use turtl_core::errors::DispatchError;
use turtl_core::json::JsonVal;
use turtl_core::dispatch::process;
use turtl_core::sync_queue::{SyncAction, SyncRecord, SyncType};

fn ok_body(r: Result<turtl_core::dispatch::Response, DispatchError>) -> JsonVal {
    let resp = r.expect("envelope should decode");
    resp.body.expect("command should succeed")
}

fn err_body(r: Result<turtl_core::dispatch::Response, DispatchError>) -> DispatchError {
    let resp = r.expect("envelope should decode");
    resp.body.expect_err("command should fail")
}

#[test]
fn ping_answers_pong() {
    let mut coord = Coordinator::new();
    let body = ok_body(process(&mut coord, r#"["42","ping"]"#));
    match body {
        JsonVal::Text(s) => assert_eq!(s, "pong"),
        _ => panic!("ping should answer a string"),
    }
}

#[test]
fn response_echoes_request_id() {
    let mut coord = Coordinator::new();
    let resp = process(&mut coord, r#"["my-request","ping"]"#).unwrap();
    assert_eq!(resp.request_id, "my-request");
}

#[test]
fn unknown_command_names_it() {
    let mut coord = Coordinator::new();
    let err = err_body(process(&mut coord, r#"["1","bogus:command"]"#));
    match err {
        DispatchError::UnknownCommand(c) => assert_eq!(c, "bogus:command"),
        _ => panic!("expected an unknown-command error"),
    }
}

#[test]
fn login_missing_password_names_position_three() {
    let mut coord = Coordinator::new();
    let err = err_body(process(&mut coord, r#"["1","user:login","alice"]"#));
    match err {
        DispatchError::Argument(c, p) => {
            assert_eq!(c, "user:login");
            assert_eq!(p, 3);
        },
        _ => panic!("expected an argument error for position 3"),
    }
}

#[test]
fn login_records_user() {
    let mut coord = Coordinator::new();
    let body = ok_body(process(&mut coord, r#"["1","user:login","alice","pw"]"#));
    match body {
        JsonVal::Object(fields) => assert!(fields.is_empty()),
        _ => panic!("login should answer an empty object"),
    }
    assert_eq!(coord.user.as_deref(), Some("alice"));
    let _ = ok_body(process(&mut coord, r#"["2","user:logout"]"#));
    assert!(coord.user.is_none());
}

#[test]
fn malformed_envelope_yields_no_response() {
    let mut coord = Coordinator::new();
    assert!(process(&mut coord, "this is not json").is_err());
    assert!(process(&mut coord, r#"[]"#).is_err());
    assert!(process(&mut coord, r#"["only-an-id"]"#).is_err());
    assert!(process(&mut coord, r#"{"not":"an array"}"#).is_err());
    match process(&mut coord, r#"[17,"ping"]"#) {
        Err(DispatchError::Decode(_)) => {},
        _ => panic!("a non-string request id should be a decode error"),
    }
}

#[test]
fn find_notes_requires_search() {
    let mut coord = Coordinator::new();
    let err = err_body(process(&mut coord, r#"["1","profile:find-notes",{"text":"x"}]"#));
    match err {
        DispatchError::MissingDependency(_) => {},
        _ => panic!("expected a missing-dependency error"),
    }
}

#[test]
fn get_tags_requires_search() {
    let mut coord = Coordinator::new();
    let err = err_body(process(&mut coord, r#"["1","profile:get-tags","space1",["b1"],10]"#));
    match err {
        DispatchError::MissingDependency(_) => {},
        _ => panic!("expected a missing-dependency error"),
    }
}

#[test]
fn deleted_note_is_no_longer_resolvable() {
    let mut coord = Coordinator::new();
    let body = ok_body(process(
        &mut coord,
        r#"["1","profile:sync:model","add","note",{"id":"abc","body":"hello"}]"#,
    ));
    match body {
        JsonVal::Object(_) => {},
        _ => panic!("save should echo the model object"),
    }
    let loaded = ok_body(process(&mut coord, r#"["2","profile:get-notes",["abc"]]"#));
    match loaded {
        JsonVal::List(items) => assert_eq!(items.len(), 1),
        _ => panic!("get-notes should answer a list"),
    }
    let _ = ok_body(process(
        &mut coord,
        r#"["3","profile:sync:model","delete","note",{"id":"abc"}]"#,
    ));
    let loaded = ok_body(process(&mut coord, r#"["4","profile:get-notes",["abc"]]"#));
    match loaded {
        JsonVal::List(items) => assert!(items.is_empty()),
        _ => panic!("get-notes should answer a list"),
    }
}

#[test]
fn sync_model_rejects_keychain() {
    let mut coord = Coordinator::new();
    let err = err_body(process(
        &mut coord,
        r#"["1","profile:sync:model","add","keychain",{"id":"k1"}]"#,
    ));
    match err {
        DispatchError::UnsupportedType(c, t) => {
            assert_eq!(c, "profile:sync:model");
            assert_eq!(t, "keychain");
        },
        _ => panic!("expected an unsupported-type error"),
    }
}

#[test]
fn sync_model_file_add_is_a_placeholder() {
    let mut coord = Coordinator::new();
    let body = ok_body(process(
        &mut coord,
        r#"["1","profile:sync:model","add","file",{"id":"f1"}]"#,
    ));
    assert!(matches!(body, JsonVal::Null));
}

#[test]
fn sync_model_bad_action_names_position_two() {
    let mut coord = Coordinator::new();
    let err = err_body(process(
        &mut coord,
        r#"["1","profile:sync:model","frobnicate","note",{"id":"n"}]"#,
    ));
    match err {
        DispatchError::ArgumentShape(c, p) => {
            assert_eq!(c, "profile:sync:model");
            assert_eq!(p, 2);
        },
        _ => panic!("expected an argument-shape error for position 2"),
    }
}

#[test]
fn sync_model_missing_id_is_a_decode_error() {
    let mut coord = Coordinator::new();
    let err = err_body(process(
        &mut coord,
        r#"["1","profile:sync:model","add","note",{"body":"no id here"}]"#,
    ));
    match err {
        DispatchError::Decode(_) => {},
        _ => panic!("expected a decode error for the missing id"),
    }
}

#[test]
fn set_endpoint_updates_coordinator() {
    let mut coord = Coordinator::new();
    let _ = ok_body(process(
        &mut coord,
        r#"["1","app:api:set-endpoint","https://example.test/v2"]"#,
    ));
    assert_eq!(coord.api_endpoint, "https://example.test/v2");
}

#[test]
fn profile_load_lists_spaces_and_boards() {
    let mut coord = Coordinator::new();
    let _ = ok_body(process(
        &mut coord,
        r#"["1","profile:sync:model","add","space",{"id":"s1","title":"home"}]"#,
    ));
    let body = ok_body(process(&mut coord, r#"["2","profile:load"]"#));
    match body {
        JsonVal::Object(fields) => {
            assert_eq!(fields.len(), 2);
            assert_eq!(fields[0].key, "spaces");
            assert_eq!(fields[1].key, "boards");
            match &fields[0].val {
                JsonVal::List(items) => assert_eq!(items.len(), 1),
                _ => panic!("spaces should be a list"),
            }
        },
        _ => panic!("profile:load should answer an object"),
    }
}

#[test]
fn wipe_user_data_clears_profile() {
    let mut coord = Coordinator::new();
    let _ = ok_body(process(
        &mut coord,
        r#"["1","profile:sync:model","add","note",{"id":"n1"}]"#,
    ));
    let _ = ok_body(process(&mut coord, r#"["2","app:wipe-user-data"]"#));
    assert!(coord.profile.notes.is_empty());
    let loaded = ok_body(process(&mut coord, r#"["3","profile:get-notes",["n1"]]"#));
    match loaded {
        JsonVal::List(items) => assert!(items.is_empty()),
        _ => panic!("get-notes should answer a list"),
    }
}

#[test]
fn get_pending_lists_queued_items_with_payloads() {
    let mut coord = Coordinator::new();
    let id = coord.sync.enqueue_pending(SyncRecord {
        action: SyncAction::Edit,
        ty: SyncType::Note,
        payload: JsonVal::Text("draft".to_string()),
    });
    let body = ok_body(process(&mut coord, r#"["1","sync:get-pending"]"#));
    match body {
        JsonVal::List(items) => {
            assert_eq!(items.len(), 1);
            match &items[0] {
                JsonVal::Object(fields) => {
                    assert_eq!(fields[0].key, "id");
                    assert!(matches!(fields[0].val, JsonVal::Int(n) if n == id as i64));
                    assert_eq!(fields[1].key, "action");
                    assert!(matches!(&fields[1].val, JsonVal::Text(s) if s == "edit"));
                    assert_eq!(fields[2].key, "type");
                    assert!(matches!(&fields[2].val, JsonVal::Text(s) if s == "note"));
                    assert_eq!(fields[3].key, "payload");
                    assert!(matches!(&fields[3].val, JsonVal::Text(s) if s == "draft"));
                },
                _ => panic!("each pending item should be an object"),
            }
        },
        _ => panic!("get-pending should answer a list"),
    }
    let empty = ok_body(process(&mut coord, r#"["2","sync:get-frozen"]"#));
    assert!(matches!(empty, JsonVal::List(items) if items.is_empty()));
}

#[test]
fn delete_and_unfreeze_items_over_the_wire() {
    let mut coord = Coordinator::new();
    let id = coord.sync.enqueue_pending(SyncRecord {
        action: SyncAction::Add,
        ty: SyncType::Board,
        payload: JsonVal::Null,
    });
    coord.sync.freeze(id).unwrap();
    let err = err_body(process(&mut coord, r#"["1","sync:unfreeze-item",99]"#));
    assert!(matches!(err, DispatchError::NotFound(_)));
    let _ = ok_body(process(&mut coord, &format!(r#"["2","sync:unfreeze-item",{}]"#, id)));
    assert!(coord.sync.pending_ids().contains(&id));
    assert!(!coord.sync.frozen_ids().contains(&id));
    let _ = ok_body(process(&mut coord, &format!(r#"["3","sync:delete-item",{}]"#, id)));
    assert!(coord.sync.pending_ids().is_empty());
    let _ = ok_body(process(&mut coord, &format!(r#"["4","sync:delete-item",{}]"#, id)));
}

#[test]
fn error_kind_names_are_stable() {
    assert_eq!(DispatchError::Decode(String::new()).kind_name(), "decode_error");
    assert_eq!(DispatchError::Argument(String::new(), 3).kind_name(), "argument_error");
    assert_eq!(DispatchError::UnknownCommand(String::new()).kind_name(), "unknown_command");
    assert_eq!(
        DispatchError::MissingDependency(String::new()).kind_name(),
        "missing_dependency"
    );
    assert_eq!(DispatchError::NotFound("x".to_string()).message(), "x");
}
