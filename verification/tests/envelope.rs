use botwire::api::requests::sync::{
    ban_chat_sender_chat_payload, decode_get_updates_response, decode_user_chat_boosts_response,
    send_message_payload,
};
use botwire::api::params::ban_chat_sender_chat::BanChatSenderChat;
use botwire::api::params::send_message::SendMessage;
use botwire::api::response::{decode_envelope, decode_response_error, Envelope};
use botwire::api::responses::error::ResponseError;
use botwire::api::types::update::{decode_update, Update};
use botwire::errors::{DecodeError, Error};
use botwire::json::JsonValue;
use botwire::wire::{json_from_text, json_to_text};

fn empty_update(update_id: i64) -> Update {
    Update {
        update_id,
        message: None,
        edited_message: None,
        channel_post: None,
        edited_channel_post: None,
        message_reaction: None,
        message_reaction_count: None,
        inline_query: None,
        chosen_inline_result: None,
        callback_query: None,
        shipping_query: None,
        pre_checkout_query: None,
        poll: None,
        poll_answer: None,
        my_chat_member: None,
        chat_member: None,
        chat_join_request: None,
        chat_boost: None,
        removed_chat_boost: None,
    }
}

#[test]
fn success_envelope_with_update_decodes_to_all_absent_optionals() {
    let body = r#"{"ok":true,"result":{"update_id":5}}"#;
    let tree = json_from_text(body).unwrap();
    match decode_envelope(&tree).unwrap() {
        Envelope::Success { result, description } => {
            assert_eq!(description, None);
            let u = decode_update(result).unwrap();
            assert_eq!(u, empty_update(5));
        },
        Envelope::Failure(_) => panic!("classified the success arm as a failure"),
    }
}

#[test]
fn rate_limit_error_surfaces_a_retry_signal_of_thirty() {
    let body = r#"{"ok":false,"error_code":429,"description":"Too Many Requests","parameters":{"retry_after":30}}"#;
    match decode_get_updates_response(body).unwrap_err() {
        Error::Response(re) => {
            assert_eq!(re.error_code, 429);
            assert_eq!(re.description, "Too Many Requests");
            assert_eq!(re.retry_after(), Some(30));
            assert_eq!(re.migrate_to_chat_id(), None);
        },
        other => panic!("expected the remote error arm, got {:?}", other),
    }
}

#[test]
fn migration_error_surfaces_the_replacement_identifier() {
    let body = r#"{"ok":false,"error_code":400,"description":"group chat was upgraded","parameters":{"migrate_to_chat_id":-100123}}"#;
    match decode_user_chat_boosts_response(body).unwrap_err() {
        Error::Response(re) => {
            assert_eq!(re.migrate_to_chat_id(), Some(-100123));
            assert_eq!(re.retry_after(), None);
        },
        other => panic!("expected the remote error arm, got {:?}", other),
    }
}

#[test]
fn valid_json_matching_neither_envelope_arm_is_a_decode_error() {
    let body = r#"{"unexpected":true}"#;
    match decode_get_updates_response(body).unwrap_err() {
        Error::Decode(e) => {
            assert_eq!(e, DecodeError::MissingField { path: "ok".to_string() });
        },
        other => panic!("expected a decode error, got {:?}", other),
    }
}

#[test]
fn non_object_json_is_a_decode_error_not_a_default_success() {
    let body = r#"[1,2,3]"#;
    assert!(matches!(decode_get_updates_response(body), Err(Error::Decode(_))));
}

#[test]
fn text_that_is_not_json_is_a_decode_error() {
    let body = "definitely not json";
    match decode_get_updates_response(body).unwrap_err() {
        Error::Decode(e) => assert_eq!(e, DecodeError::NotJson),
        other => panic!("expected a decode error, got {:?}", other),
    }
}

#[test]
fn ok_field_holding_a_number_is_a_wrong_type_error() {
    let body = r#"{"ok":1,"result":{}}"#;
    match decode_get_updates_response(body).unwrap_err() {
        Error::Decode(e) => assert_eq!(e, DecodeError::WrongType { path: "ok".to_string() }),
        other => panic!("expected a decode error, got {:?}", other),
    }
}

#[test]
fn get_updates_success_decodes_the_whole_list() {
    let body = r#"{"ok":true,"result":[{"update_id":1},{"update_id":2}],"description":"ok"}"#;
    let s = decode_get_updates_response(body).unwrap();
    assert!(s.ok);
    assert_eq!(s.description, Some("ok".to_string()));
    assert_eq!(s.result, vec![empty_update(1), empty_update(2)]);
}

#[test]
fn get_updates_rejects_a_list_holding_a_bad_element() {
    let body = r#"{"ok":true,"result":[{"update_id":1},{"no_id":2}]}"#;
    match decode_get_updates_response(body).unwrap_err() {
        Error::Decode(e) => {
            assert_eq!(e, DecodeError::MissingField { path: "update_id".to_string() });
        },
        other => panic!("expected a decode error, got {:?}", other),
    }
}

#[test]
fn response_error_new_reads_a_whole_error_text() {
    let body = r#"{"ok":false,"error_code":404,"description":"Not Found"}"#;
    let re = ResponseError::new(body);
    assert!(!re.ok);
    assert_eq!(re.error_code, 404);
    assert_eq!(re.description, "Not Found");
    assert_eq!(re.parameters, None);
}

#[test]
fn response_error_try_new_refuses_text_holding_no_error_envelope() {
    assert!(ResponseError::try_new("not json").is_none());
    assert!(ResponseError::try_new(r#"{"ok":true,"result":1}"#).is_none());
    assert!(ResponseError::try_new(r#"{"ok":false,"error_code":1,"description":"x"}"#).is_some());
}

#[test]
fn error_parameters_with_null_are_tolerated_as_absent() {
    let j = json_from_text(
        r#"{"ok":false,"error_code":1,"description":"d","parameters":{"retry_after":null}}"#,
    )
    .unwrap();
    let re = decode_response_error(&j).unwrap();
    assert_eq!(re.retry_after(), None);
}

#[test]
fn parsing_keeps_the_exact_tree() {
    // Exercises the text boundary in both directions: a wrapper that
    // handed its argument back unchanged would fail both checks.
    let tree = json_from_text(r#"{"a":1,"b":[true,null,"x"]}"#).unwrap();
    let expected = JsonValue::Obj(vec![
        ("a".to_string(), JsonValue::Int(1)),
        (
            "b".to_string(),
            JsonValue::Arr(vec![
                JsonValue::Bool(true),
                JsonValue::Null,
                JsonValue::Str("x".to_string()),
            ]),
        ),
    ]);
    assert_eq!(tree, expected);
    let text = json_to_text(&expected);
    assert_eq!(text, r#"{"a":1,"b":[true,null,"x"]}"#);
    assert_eq!(json_from_text(&text).unwrap(), expected);
}

#[test]
fn payload_text_omits_absent_optionals_and_sorts_keys() {
    let p = SendMessage {
        chat_id: 7,
        message_thread_id: None,
        text: "hi".to_string(),
        parse_mode: None,
        entities: None,
        link_preview_options: None,
        disable_notification: None,
        protect_content: None,
        reply_parameters: None,
    };
    assert_eq!(send_message_payload(&p), r#"{"chat_id":7,"text":"hi"}"#);
    let b = BanChatSenderChat { chat_id: 1, sender_chat_id: 2 };
    assert_eq!(ban_chat_sender_chat_payload(&b), r#"{"chat_id":1,"sender_chat_id":2}"#);
}
