use crate::api::types::chat::{
    decode_chat, encode_chat, lemma_chat_round_trip, sdec_chat, senc_chat, Chat, ChatView,
};
use crate::errors::{DecodeError, DecodeErrorView};
use crate::json::{
    opt_str, opt_str_ins, push_field, push_i64_field, push_opt_str_field, push_str_field,
    req_i64, req_str, req_val, res_view, sopt_str, sreq_i64, sreq_str, sreq_val, JsonSpec,
    JsonValue,
};
use vstd::prelude::*;

verus! {

/// The message was originally sent on behalf of a chat to a group chat.
/// Its `kind` rides the wire under the name `type`.
#[derive(Debug, Clone, PartialEq)]
pub struct MessageOriginChat {
    pub kind: String,
    pub date: i64,
    pub sender_chat: Chat,
    pub author_signature: Option<String>,
}

/// Mathematical image of `MessageOriginChat`.
#[verifier::ext_equal]
pub struct MessageOriginChatView {
    pub kind: Seq<char>,
    pub date: i64,
    pub sender_chat: ChatView,
    pub author_signature: Option<Seq<char>>,
}

impl View for MessageOriginChat {
    type V = MessageOriginChatView;

    open spec fn view(&self) -> MessageOriginChatView {
        MessageOriginChatView {
            kind: self.kind@,
            date: self.date,
            sender_chat: self.sender_chat@,
            author_signature: self.author_signature.deep_view(),
        }
    }
}

impl DeepView for MessageOriginChat {
    type V = MessageOriginChatView;

    open spec fn deep_view(&self) -> MessageOriginChatView {
        self.view()
    }
}

/// The object a chat origin serializes to; `kind` becomes `type` and an
/// absent signature leaves no key.
pub open spec fn senc_message_origin_chat(m: MessageOriginChatView) -> JsonSpec {
    let o = Map::empty().insert("type"@, JsonSpec::Str(m.kind)).insert(
        "date"@,
        JsonSpec::Int(m.date as int),
    ).insert("sender_chat"@, senc_chat(m.sender_chat));
    let o = opt_str_ins(o, "author_signature"@, m.author_signature);
    JsonSpec::Obj(o)
}

/// The chat origin a tree decodes to.
pub open spec fn sdec_message_origin_chat(j: JsonSpec) -> Result<
    MessageOriginChatView,
    DecodeErrorView,
> {
    match sreq_str(j, "type"@) {
        Err(e) => Err(e),
        Ok(kind) => match sreq_i64(j, "date"@) {
            Err(e) => Err(e),
            Ok(date) => match sreq_val(j, "sender_chat"@) {
                Err(e) => Err(e),
                Ok(cj) => match sdec_chat(cj) {
                    Err(e) => Err(e),
                    Ok(sender_chat) => match sopt_str(j, "author_signature"@) {
                        Err(e) => Err(e),
                        Ok(author_signature) => Ok(
                            MessageOriginChatView { kind, date, sender_chat, author_signature },
                        ),
                    },
                },
            },
        },
    }
}

pub fn encode_message_origin_chat(m: &MessageOriginChat) -> (r: JsonValue)
    ensures
        r@ == senc_message_origin_chat(m@),
{
    let mut pairs: Vec<(String, JsonValue)> = Vec::new();
    push_str_field(&mut pairs, "type", &m.kind);
    push_i64_field(&mut pairs, "date", m.date);
    push_field(&mut pairs, "sender_chat", encode_chat(&m.sender_chat));
    push_opt_str_field(&mut pairs, "author_signature", &m.author_signature);
    JsonValue::Obj(pairs)
}

pub fn decode_message_origin_chat(j: &JsonValue) -> (r: Result<MessageOriginChat, DecodeError>)
    ensures
        res_view(r) == sdec_message_origin_chat(j@),
{
    let kind = match req_str(j, "type") {
        Ok(v) => v,
        Err(e) => {
            return Err(e);
        },
    };
    let date = match req_i64(j, "date") {
        Ok(v) => v,
        Err(e) => {
            return Err(e);
        },
    };
    let cj = match req_val(j, "sender_chat") {
        Ok(v) => v,
        Err(e) => {
            return Err(e);
        },
    };
    let sender_chat = match decode_chat(cj) {
        Ok(v) => v,
        Err(e) => {
            return Err(e);
        },
    };
    let author_signature = match opt_str(j, "author_signature") {
        Ok(v) => v,
        Err(e) => {
            return Err(e);
        },
    };
    Ok(MessageOriginChat { kind, date, sender_chat, author_signature })
}

/// Decoding undoes encoding, for every chat origin.
pub proof fn lemma_message_origin_chat_round_trip(m: MessageOriginChatView)
    ensures
        sdec_message_origin_chat(senc_message_origin_chat(m)) == Ok::<
            MessageOriginChatView,
            DecodeErrorView,
        >(m),
{
    broadcast use crate::json::group_json_ins;

    reveal_strlit("type");
    reveal_strlit("date");
    reveal_strlit("sender_chat");
    reveal_strlit("author_signature");
    assert("type"@.len() == 4 && "date"@.len() == 4 && "sender_chat"@.len() == 11
        && "author_signature"@.len() == 16);
    assert("type"@[0] == 't' && "date"@[0] == 'd');
    lemma_chat_round_trip(m.sender_chat);
}

} // verus!
