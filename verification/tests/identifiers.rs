use botwire::api::enums::chat_uid::{
    decode_chat_uid, encode_chat_uid, parse_i64_str, ChatUId,
};
use botwire::api::params::send_message::{encode_send_message, SendMessage};
use botwire::api::params::set_game_score::{encode_set_game_score, SetGameScore};
use botwire::api::params::unpin_chat_message::{encode_unpin_chat_message, UnpinChatMessage};
use botwire::api::types::link_preview_options::LinkPreviewOptions;
use botwire::api::types::message_entity::MessageEntity;
use botwire::api::types::reply_parameters::ReplyParameters;
use botwire::config::Config;
use botwire::json::JsonValue;

fn keys_of(j: &JsonValue) -> Vec<String> {
    match j {
        JsonValue::Obj(pairs) => pairs.iter().map(|(k, _)| k.clone()).collect(),
        _ => panic!("expected an object"),
    }
}

#[test]
fn handle_identifier_round_trips_to_the_same_string() {
    let h = ChatUId::Handle("@channel".to_string());
    let wire = encode_chat_uid(&h);
    assert_eq!(wire, JsonValue::Str("@channel".to_string()));
    assert_eq!(decode_chat_uid(&wire).unwrap(), h);
}

#[test]
fn numeric_identifier_round_trips_to_the_same_integer() {
    let n = ChatUId::Numeric(12345);
    let wire = encode_chat_uid(&n);
    assert_eq!(wire, JsonValue::Int(12345));
    assert_eq!(decode_chat_uid(&wire).unwrap(), n);
}

#[test]
fn numeric_looking_string_decodes_as_numeric() {
    // The wire format itself cannot tell a digit-only handle from a
    // number, so the numeric reading wins on purpose.
    let wire = JsonValue::Str("12345".to_string());
    assert_eq!(decode_chat_uid(&wire).unwrap(), ChatUId::Numeric(12345));
    let padded = JsonValue::Str("007".to_string());
    assert_eq!(decode_chat_uid(&padded).unwrap(), ChatUId::Numeric(7));
}

#[test]
fn overlong_digit_string_stays_a_handle() {
    let wire = JsonValue::Str("99999999999999999999".to_string());
    assert_eq!(
        decode_chat_uid(&wire).unwrap(),
        ChatUId::Handle("99999999999999999999".to_string())
    );
}

#[test]
fn decimal_parse_accepts_exactly_the_signed_integers() {
    assert_eq!(parse_i64_str("42"), Some(42));
    assert_eq!(parse_i64_str("-42"), Some(-42));
    assert_eq!(parse_i64_str("+42"), Some(42));
    assert_eq!(parse_i64_str("0"), Some(0));
    assert_eq!(parse_i64_str("9223372036854775807"), Some(i64::MAX));
    assert_eq!(parse_i64_str("-9223372036854775808"), Some(i64::MIN));
    assert_eq!(parse_i64_str("9223372036854775808"), None);
    assert_eq!(parse_i64_str("-9223372036854775809"), None);
    assert_eq!(parse_i64_str(""), None);
    assert_eq!(parse_i64_str("-"), None);
    assert_eq!(parse_i64_str("+"), None);
    assert_eq!(parse_i64_str("12a"), None);
    assert_eq!(parse_i64_str("@channel"), None);
    assert_eq!(parse_i64_str("1 2"), None);
}

#[test]
fn send_message_with_no_optionals_holds_exactly_the_required_keys() {
    let p = SendMessage {
        chat_id: 7,
        message_thread_id: None,
        text: "hi".to_string(),
        parse_mode: None,
        entities: None,
        link_preview_options: None,
        disable_notification: None,
        protect_content: None,
        reply_parameters: None,
    };
    let keys = keys_of(&encode_send_message(&p));
    assert_eq!(keys, vec!["chat_id".to_string(), "text".to_string()]);
}

#[test]
fn send_message_optionals_appear_exactly_when_set_and_never_as_null() {
    let p = SendMessage {
        chat_id: 7,
        message_thread_id: Some(3),
        text: "hi".to_string(),
        parse_mode: Some("HTML".to_string()),
        entities: Some(vec![MessageEntity { kind: "bold".to_string(), offset: 0, length: 2 }]),
        link_preview_options: Some(LinkPreviewOptions {
            is_disabled: Some(true),
            url: None,
            prefer_small_media: None,
            prefer_large_media: None,
            show_above_text: None,
        }),
        disable_notification: None,
        protect_content: Some(false),
        reply_parameters: Some(ReplyParameters {
            message_id: 9,
            chat_id: None,
            allow_sending_without_reply: None,
        }),
    };
    let encoded = encode_send_message(&p);
    let keys = keys_of(&encoded);
    assert!(keys.contains(&"message_thread_id".to_string()));
    assert!(keys.contains(&"parse_mode".to_string()));
    assert!(keys.contains(&"entities".to_string()));
    assert!(keys.contains(&"link_preview_options".to_string()));
    assert!(keys.contains(&"protect_content".to_string()));
    assert!(keys.contains(&"reply_parameters".to_string()));
    assert!(!keys.contains(&"disable_notification".to_string()));
    if let JsonValue::Obj(pairs) = &encoded {
        for (_, v) in pairs {
            assert_ne!(v, &JsonValue::Null);
        }
    }
}

#[test]
fn unpin_chat_message_omits_an_absent_message_id() {
    let p = UnpinChatMessage { chat_id: ChatUId::Handle("@c".to_string()), message_id: None };
    assert_eq!(keys_of(&encode_unpin_chat_message(&p)), vec!["chat_id".to_string()]);
    let q = UnpinChatMessage { chat_id: ChatUId::Numeric(1), message_id: Some(5) };
    assert_eq!(
        keys_of(&encode_unpin_chat_message(&q)),
        vec!["chat_id".to_string(), "message_id".to_string()]
    );
}

#[test]
fn set_game_score_omits_every_absent_optional() {
    let p = SetGameScore {
        user_id: 1,
        score: 100,
        force: None,
        disable_edit_message: None,
        chat_id: None,
        message_id: None,
        inline_message_id: Some("abc".to_string()),
    };
    assert_eq!(
        keys_of(&encode_set_game_score(&p)),
        vec!["user_id".to_string(), "score".to_string(), "inline_message_id".to_string()]
    );
}

#[test]
fn config_builds_the_bot_url_from_its_parts() {
    let c = Config::new(
        false,
        true,
        "token123".to_string(),
        "https://api.telegram.org/".to_string(),
        5,
        5,
    );
    assert_eq!(c.build_url(), "https://api.telegram.org/bottoken123/");
    assert_eq!(c.timeout, 5);
    assert_eq!(c.connect_timeout, 5);
    assert!(c.production);
    assert!(!c.debug);
}
