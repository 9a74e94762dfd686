use botwire::api::enums::chat_boost_source::{
    ChatBoostSource, ChatBoostSourceGiveaway, ChatBoostSourcePremium, decode_chat_boost_source,
    encode_chat_boost_source,
};
use botwire::api::enums::inline_query_result::{
    decode_inline_query_result, encode_inline_query_result, InlineQueryResult,
};
use botwire::api::enums::input_message_content::{
    decode_input_message_content, encode_input_message_content, InputMessageContent,
};
use botwire::api::enums::message_origin::{
    decode_message_origin, encode_message_origin, MessageOrigin,
};
use botwire::api::enums::passport_element_error::{
    decode_passport_element_error, encode_passport_element_error, PassportElementError,
};
use botwire::api::types::audio::{decode_audio, encode_audio, Audio};
use botwire::api::types::chat::Chat;
use botwire::api::types::chat_administrator_rights::{
    decode_chat_administrator_rights, encode_chat_administrator_rights, ChatAdministratorRights,
};
use botwire::api::types::chat_boost::ChatBoost;
use botwire::api::types::inline_query_result_article::InlineQueryResultArticle;
use botwire::api::types::inline_query_result_audio::InlineQueryResultAudio;
use botwire::api::types::inline_query_result_cached_audio::InlineQueryResultCachedAudio;
use botwire::api::types::inline_query_result_venue::InlineQueryResultVenue;
use botwire::api::types::input_contact_message_content::InputContactMessageContent;
use botwire::api::types::input_location_message_content::InputLocationMessageContent;
use botwire::api::types::input_text_message_content::InputTextMessageContent;
use botwire::api::types::input_venue_message_content::InputVenueMessageContent;
use botwire::api::types::message_origin_chat::MessageOriginChat;
use botwire::api::types::message_origin_user::MessageOriginUser;
use botwire::api::types::passport_element_error_data_field::PassportElementErrorDataField;
use botwire::api::types::passport_element_error_files::PassportElementErrorFiles;
use botwire::api::types::photo_size::PhotoSize;
use botwire::api::types::user::User;
use botwire::api::types::user_chat_boosts::{
    decode_user_chat_boosts, encode_user_chat_boosts, UserChatBoosts,
};
use botwire::errors::DecodeError;
use botwire::json::JsonValue;

fn user() -> User {
    User { id: 7, is_bot: false, first_name: "Ada".to_string() }
}

fn obj(pairs: Vec<(&str, JsonValue)>) -> JsonValue {
    JsonValue::Obj(pairs.into_iter().map(|(k, v)| (k.to_string(), v)).collect())
}

#[test]
fn chat_boost_source_premium_round_trips() {
    let v = ChatBoostSource::ChatBoostSourcePremium(ChatBoostSourcePremium { user: user() });
    let decoded = decode_chat_boost_source(&encode_chat_boost_source(&v)).unwrap();
    assert_eq!(decoded, v);
}

#[test]
fn chat_boost_source_giveaway_round_trips_with_and_without_optionals() {
    let bare = ChatBoostSource::ChatBoostSourceGiveaway(ChatBoostSourceGiveaway {
        giveaway_message_id: 5,
        user: None,
        is_unclaimed: None,
    });
    assert_eq!(decode_chat_boost_source(&encode_chat_boost_source(&bare)).unwrap(), bare);
    let full = ChatBoostSource::ChatBoostSourceGiveaway(ChatBoostSourceGiveaway {
        giveaway_message_id: 5,
        user: Some(user()),
        is_unclaimed: Some(true),
    });
    assert_eq!(decode_chat_boost_source(&encode_chat_boost_source(&full)).unwrap(), full);
}

#[test]
fn chat_boost_source_unknown_tag_is_an_error_naming_the_family() {
    let j = obj(vec![("type", JsonValue::Str("banana".to_string()))]);
    let e = decode_chat_boost_source(&j).unwrap_err();
    assert_eq!(
        e,
        DecodeError::UnknownTag {
            family: "ChatBoostSource".to_string(),
            tag: "banana".to_string()
        }
    );
}

#[test]
fn message_origin_round_trips_both_members() {
    let u = MessageOrigin::MessageOriginUser(MessageOriginUser {
        kind: "user".to_string(),
        date: 11,
        sender_user: user(),
    });
    assert_eq!(decode_message_origin(&encode_message_origin(&u)).unwrap(), u);
    let c = MessageOrigin::MessageOriginChat(MessageOriginChat {
        kind: "chat".to_string(),
        date: 12,
        sender_chat: Chat {
            id: -100,
            kind: "supergroup".to_string(),
            title: Some("t".to_string()),
            username: None,
        },
        author_signature: None,
    });
    assert_eq!(decode_message_origin(&encode_message_origin(&c)).unwrap(), c);
}

#[test]
fn message_origin_unknown_tag_is_rejected() {
    let j = obj(vec![("type", JsonValue::Str("hidden_user".to_string()))]);
    let e = decode_message_origin(&j).unwrap_err();
    assert_eq!(
        e,
        DecodeError::UnknownTag {
            family: "MessageOrigin".to_string(),
            tag: "hidden_user".to_string()
        }
    );
}

#[test]
fn input_message_content_members_round_trip() {
    let t = InputMessageContent::InputTextMessageContent(InputTextMessageContent {
        message_text: "hi".to_string(),
        parse_mode: Some("HTML".to_string()),
    });
    assert_eq!(decode_input_message_content(&encode_input_message_content(&t)).unwrap(), t);
    let l = InputMessageContent::InputLocationMessageContent(InputLocationMessageContent {
        latitude: 52,
        longitude: 13,
    });
    assert_eq!(decode_input_message_content(&encode_input_message_content(&l)).unwrap(), l);
    let c = InputMessageContent::InputContactMessageContent(InputContactMessageContent {
        phone_number: "+491234".to_string(),
        first_name: "Ada".to_string(),
    });
    assert_eq!(decode_input_message_content(&encode_input_message_content(&c)).unwrap(), c);
}

#[test]
fn ambiguous_structural_payload_resolves_to_first_declared_member() {
    // A venue payload also satisfies the location member, which is
    // declared earlier, so it resolves to the location, and does so on
    // every run.
    let v = InputMessageContent::InputVenueMessageContent(InputVenueMessageContent {
        latitude: 52,
        longitude: 13,
        title: "spot".to_string(),
        address: "street 1".to_string(),
    });
    let expected = InputMessageContent::InputLocationMessageContent(InputLocationMessageContent {
        latitude: 52,
        longitude: 13,
    });
    for _ in 0..3 {
        let got = decode_input_message_content(&encode_input_message_content(&v)).unwrap();
        assert_eq!(got, expected);
    }
}

#[test]
fn structural_payload_matching_no_member_is_an_error_naming_the_family() {
    let j = obj(vec![("surprise", JsonValue::Bool(true))]);
    let e = decode_input_message_content(&j).unwrap_err();
    assert_eq!(e, DecodeError::NoVariantMatch { family: "InputMessageContent".to_string() });
}

#[test]
fn inline_query_result_cached_and_fresh_members_round_trip() {
    let cached = InlineQueryResult::InlineQueryResultCachedAudio(InlineQueryResultCachedAudio {
        id: "1".to_string(),
        audio_file_id: "f123".to_string(),
    });
    assert_eq!(decode_inline_query_result(&encode_inline_query_result(&cached)).unwrap(), cached);
    let fresh = InlineQueryResult::InlineQueryResultAudio(InlineQueryResultAudio {
        id: "2".to_string(),
        audio_url: "https://a/x.mp3".to_string(),
        title: "song".to_string(),
    });
    assert_eq!(decode_inline_query_result(&encode_inline_query_result(&fresh)).unwrap(), fresh);
    let venue = InlineQueryResult::InlineQueryResultVenue(InlineQueryResultVenue {
        id: "3".to_string(),
        latitude: 52,
        longitude: 13,
        title: "spot".to_string(),
        address: "street 1".to_string(),
    });
    assert_eq!(decode_inline_query_result(&encode_inline_query_result(&venue)).unwrap(), venue);
}

#[test]
fn inline_query_result_article_round_trips_with_nested_content() {
    let a = InlineQueryResult::InlineQueryResultArticle(InlineQueryResultArticle {
        id: "4".to_string(),
        title: "read this".to_string(),
        input_message_content: InputMessageContent::InputTextMessageContent(
            InputTextMessageContent { message_text: "body".to_string(), parse_mode: None },
        ),
    });
    assert_eq!(decode_inline_query_result(&encode_inline_query_result(&a)).unwrap(), a);
}

#[test]
fn inline_query_result_shared_tag_prefers_the_cached_member() {
    // A payload holding both the cached and the fresh fields satisfies
    // both members of the `audio` tag; the cached one is declared first
    // and wins.
    let j = obj(vec![
        ("type", JsonValue::Str("audio".to_string())),
        ("id", JsonValue::Str("9".to_string())),
        ("audio_file_id", JsonValue::Str("cached".to_string())),
        ("audio_url", JsonValue::Str("https://a".to_string())),
        ("title", JsonValue::Str("t".to_string())),
    ]);
    let got = decode_inline_query_result(&j).unwrap();
    assert_eq!(
        got,
        InlineQueryResult::InlineQueryResultCachedAudio(InlineQueryResultCachedAudio {
            id: "9".to_string(),
            audio_file_id: "cached".to_string(),
        })
    );
}

#[test]
fn inline_query_result_unknown_tag_is_rejected() {
    let j = obj(vec![("type", JsonValue::Str("hologram".to_string()))]);
    let e = decode_inline_query_result(&j).unwrap_err();
    assert_eq!(
        e,
        DecodeError::UnknownTag {
            family: "InlineQueryResult".to_string(),
            tag: "hologram".to_string()
        }
    );
}

#[test]
fn passport_element_error_members_round_trip() {
    let d = PassportElementError::PassportElementErrorDataField(PassportElementErrorDataField {
        element_type: "passport".to_string(),
        field_name: "birth_date".to_string(),
        data_hash: "h1".to_string(),
        message: "wrong".to_string(),
    });
    assert_eq!(decode_passport_element_error(&encode_passport_element_error(&d)).unwrap(), d);
    let f = PassportElementError::PassportElementErrorFiles(PassportElementErrorFiles {
        element_type: "utility_bill".to_string(),
        file_hashes: vec!["h2".to_string(), "h3".to_string()],
        message: "blurred".to_string(),
    });
    assert_eq!(decode_passport_element_error(&encode_passport_element_error(&f)).unwrap(), f);
}

#[test]
fn passport_element_error_unknown_tag_is_rejected() {
    let j = obj(vec![("type", JsonValue::Str("back_side".to_string()))]);
    let e = decode_passport_element_error(&j).unwrap_err();
    assert_eq!(
        e,
        DecodeError::UnknownTag {
            family: "PassportElementError".to_string(),
            tag: "back_side".to_string()
        }
    );
}

#[test]
fn audio_round_trips_with_nested_thumbnail() {
    let a = Audio {
        file_id: "f".to_string(),
        file_unique_id: "u".to_string(),
        duration: 180,
        performer: Some("p".to_string()),
        title: None,
        file_name: None,
        mime_type: Some("audio/mpeg".to_string()),
        file_size: Some(1024),
        thumbnail: Some(PhotoSize {
            file_id: "tf".to_string(),
            file_unique_id: "tu".to_string(),
            width: 90,
            height: 90,
            file_size: None,
        }),
    };
    assert_eq!(decode_audio(&encode_audio(&a)).unwrap(), a);
}

#[test]
fn audio_missing_required_field_names_the_path() {
    let j = obj(vec![
        ("file_id", JsonValue::Str("f".to_string())),
        ("file_unique_id", JsonValue::Str("u".to_string())),
    ]);
    let e = decode_audio(&j).unwrap_err();
    assert_eq!(e, DecodeError::MissingField { path: "duration".to_string() });
}

#[test]
fn audio_present_null_for_required_field_is_a_wrong_type() {
    let j = obj(vec![
        ("file_id", JsonValue::Str("f".to_string())),
        ("file_unique_id", JsonValue::Null),
    ]);
    let e = decode_audio(&j).unwrap_err();
    assert_eq!(e, DecodeError::WrongType { path: "file_unique_id".to_string() });
}

#[test]
fn chat_administrator_rights_round_trips() {
    let r = ChatAdministratorRights {
        is_anonymous: false,
        can_manage_chat: true,
        can_delete_messages: true,
        can_manage_video_chats: false,
        can_restrict_members: true,
        can_promote_members: false,
        can_change_info: true,
        can_invite_users: true,
        can_post_messages: Some(true),
        can_edit_messages: None,
        can_pin_messages: Some(false),
        can_post_stories: None,
        can_edit_stories: None,
        can_delete_stories: None,
        can_manage_topics: Some(true),
    };
    assert_eq!(decode_chat_administrator_rights(&encode_chat_administrator_rights(&r)).unwrap(), r);
}

#[test]
fn user_chat_boosts_round_trips_a_list() {
    let b = UserChatBoosts {
        boosts: vec![
            ChatBoost {
                boost_id: "b1".to_string(),
                add_date: 1,
                expiration_date: 2,
                source: ChatBoostSource::ChatBoostSourcePremium(ChatBoostSourcePremium {
                    user: user(),
                }),
            },
            ChatBoost {
                boost_id: "b2".to_string(),
                add_date: 3,
                expiration_date: 4,
                source: ChatBoostSource::ChatBoostSourceGiveaway(ChatBoostSourceGiveaway {
                    giveaway_message_id: 9,
                    user: None,
                    is_unclaimed: Some(false),
                }),
            },
        ],
    };
    assert_eq!(decode_user_chat_boosts(&encode_user_chat_boosts(&b)).unwrap(), b);
}
