use crate::api::types::link_preview_options::{
    encode_link_preview_options, senc_link_preview_options, LinkPreviewOptions,
    LinkPreviewOptionsView,
};
use crate::api::types::message_entity::{
    encode_message_entities, senc_message_entity_seq, MessageEntity, MessageEntityView,
};
use crate::api::types::reply_parameters::{
    encode_reply_parameters, senc_reply_parameters, ReplyParameters, ReplyParametersView,
};
use crate::json::{
    opt_bool_ins, opt_i64_ins, opt_str_ins, opt_val_ins, push_field, push_i64_field,
    push_opt_bool_field, push_opt_i64_field, push_opt_str_field, push_str_field, sget, JsonSpec,
    JsonValue,
};
use vstd::prelude::*;

verus! {

/// Parameters for sending a text message; every absent optional is
/// omitted from the payload entirely.
#[derive(Debug, Clone, PartialEq)]
pub struct SendMessage {
    pub chat_id: i64,
    pub message_thread_id: Option<i64>,
    pub text: String,
    pub parse_mode: Option<String>,
    pub entities: Option<Vec<MessageEntity>>,
    pub link_preview_options: Option<LinkPreviewOptions>,
    pub disable_notification: Option<bool>,
    pub protect_content: Option<bool>,
    pub reply_parameters: Option<ReplyParameters>,
}

/// Mathematical image of `SendMessage`.
#[verifier::ext_equal]
pub struct SendMessageView {
    pub chat_id: i64,
    pub message_thread_id: Option<i64>,
    pub text: Seq<char>,
    pub parse_mode: Option<Seq<char>>,
    pub entities: Option<Seq<MessageEntityView>>,
    pub link_preview_options: Option<LinkPreviewOptionsView>,
    pub disable_notification: Option<bool>,
    pub protect_content: Option<bool>,
    pub reply_parameters: Option<ReplyParametersView>,
}

impl View for SendMessage {
    type V = SendMessageView;

    open spec fn view(&self) -> SendMessageView {
        SendMessageView {
            chat_id: self.chat_id,
            message_thread_id: self.message_thread_id,
            text: self.text@,
            parse_mode: self.parse_mode.deep_view(),
            entities: self.entities.deep_view(),
            link_preview_options: self.link_preview_options.deep_view(),
            disable_notification: self.disable_notification,
            protect_content: self.protect_content,
            reply_parameters: self.reply_parameters.deep_view(),
        }
    }
}

impl DeepView for SendMessage {
    type V = SendMessageView;

    open spec fn deep_view(&self) -> SendMessageView {
        self.view()
    }
}

/// The object the request serializes to; absent optionals leave no key.
pub open spec fn senc_send_message(m: SendMessageView) -> JsonSpec {
    let o = Map::empty().insert("chat_id"@, JsonSpec::Int(m.chat_id as int)).insert(
        "text"@,
        JsonSpec::Str(m.text),
    );
    let o = opt_i64_ins(o, "message_thread_id"@, m.message_thread_id);
    let o = opt_str_ins(o, "parse_mode"@, m.parse_mode);
    let o = opt_val_ins(
        o,
        "entities"@,
        match m.entities {
            Some(es) => Some(JsonSpec::Arr(senc_message_entity_seq(es))),
            None => None,
        },
    );
    let o = opt_val_ins(
        o,
        "link_preview_options"@,
        match m.link_preview_options {
            Some(l) => Some(senc_link_preview_options(l)),
            None => None,
        },
    );
    let o = opt_bool_ins(o, "disable_notification"@, m.disable_notification);
    let o = opt_bool_ins(o, "protect_content"@, m.protect_content);
    let o = opt_val_ins(
        o,
        "reply_parameters"@,
        match m.reply_parameters {
            Some(rp) => Some(senc_reply_parameters(rp)),
            None => None,
        },
    );
    JsonSpec::Obj(o)
}

pub fn encode_send_message(p: &SendMessage) -> (r: JsonValue)
    ensures
        r@ == senc_send_message(p@),
{
    proof {
        reveal(crate::json::opt_val_ins);
    }
    let mut pairs: Vec<(String, JsonValue)> = Vec::new();
    push_i64_field(&mut pairs, "chat_id", p.chat_id);
    push_str_field(&mut pairs, "text", &p.text);
    push_opt_i64_field(&mut pairs, "message_thread_id", &p.message_thread_id);
    push_opt_str_field(&mut pairs, "parse_mode", &p.parse_mode);
    match &p.entities {
        Some(es) => push_field(&mut pairs, "entities", encode_message_entities(es)),
        None => (),
    }
    match &p.link_preview_options {
        Some(l) => push_field(&mut pairs, "link_preview_options", encode_link_preview_options(l)),
        None => (),
    }
    push_opt_bool_field(&mut pairs, "disable_notification", &p.disable_notification);
    push_opt_bool_field(&mut pairs, "protect_content", &p.protect_content);
    match &p.reply_parameters {
        Some(rp) => push_field(&mut pairs, "reply_parameters", encode_reply_parameters(rp)),
        None => (),
    }
    JsonValue::Obj(pairs)
}

/// The serialized payload holds a key for each optional field exactly
/// when the field holds a value; an absent field leaves no key, never a
/// null. The two required fields always hold a key.
pub proof fn lemma_send_message_key_omission(m: SendMessageView)
    ensures
        sget(senc_send_message(m), "chat_id"@) is Some,
        sget(senc_send_message(m), "text"@) is Some,
        sget(senc_send_message(m), "message_thread_id"@) is Some <==> m.message_thread_id is Some,
        sget(senc_send_message(m), "parse_mode"@) is Some <==> m.parse_mode is Some,
        sget(senc_send_message(m), "entities"@) is Some <==> m.entities is Some,
        sget(senc_send_message(m), "link_preview_options"@) is Some
            <==> m.link_preview_options is Some,
        sget(senc_send_message(m), "disable_notification"@) is Some
            <==> m.disable_notification is Some,
        sget(senc_send_message(m), "protect_content"@) is Some <==> m.protect_content is Some,
        sget(senc_send_message(m), "reply_parameters"@) is Some <==> m.reply_parameters is Some,
{
    broadcast use crate::json::group_json_ins;

    reveal_strlit("chat_id");
    reveal_strlit("text");
    reveal_strlit("message_thread_id");
    reveal_strlit("parse_mode");
    reveal_strlit("entities");
    reveal_strlit("link_preview_options");
    reveal_strlit("disable_notification");
    reveal_strlit("protect_content");
    reveal_strlit("reply_parameters");
    assert("chat_id"@.len() == 7 && "text"@.len() == 4 && "message_thread_id"@.len() == 17
        && "parse_mode"@.len() == 10);
    assert("entities"@.len() == 8 && "link_preview_options"@.len() == 20
        && "disable_notification"@.len() == 20 && "protect_content"@.len() == 15
        && "reply_parameters"@.len() == 16);
    assert("link_preview_options"@[0] == 'l' && "disable_notification"@[0] == 'd');
}

} // verus!
