use crate::api::types::chat::{
    decode_chat, encode_chat, lemma_chat_round_trip, sdec_chat, senc_chat, Chat, ChatView,
};
use crate::api::types::message_id::{
    decode_message_id, encode_message_id, lemma_message_id_round_trip, sdec_message_id,
    senc_message_id, MessageId,
};
use crate::errors::{DecodeError, DecodeErrorView};
use crate::json::{
    push_field, push_i64_field, req_i64, req_val, res_view, sreq_i64, sreq_val, JsonSpec,
    JsonValue,
};
use vstd::prelude::*;

verus! {

/// A message that was deleted or is otherwise out of reach.
#[derive(Debug, Clone, PartialEq)]
pub struct InaccessibleMessage {
    pub chat: Chat,
    pub message_id: MessageId,
    pub date: i64,
}

/// Mathematical image of `InaccessibleMessage`.
#[verifier::ext_equal]
pub struct InaccessibleMessageView {
    pub chat: ChatView,
    pub message_id: MessageId,
    pub date: i64,
}

impl View for InaccessibleMessage {
    type V = InaccessibleMessageView;

    open spec fn view(&self) -> InaccessibleMessageView {
        InaccessibleMessageView { chat: self.chat@, message_id: self.message_id, date: self.date }
    }
}

impl DeepView for InaccessibleMessage {
    type V = InaccessibleMessageView;

    open spec fn deep_view(&self) -> InaccessibleMessageView {
        self.view()
    }
}

/// The object an inaccessible message serializes to.
pub open spec fn senc_inaccessible_message(m: InaccessibleMessageView) -> JsonSpec {
    JsonSpec::Obj(
        Map::empty().insert("chat"@, senc_chat(m.chat)).insert(
            "message_id"@,
            senc_message_id(m.message_id),
        ).insert("date"@, JsonSpec::Int(m.date as int)),
    )
}

/// The inaccessible message a tree decodes to.
pub open spec fn sdec_inaccessible_message(j: JsonSpec) -> Result<
    InaccessibleMessageView,
    DecodeErrorView,
> {
    match sreq_val(j, "chat"@) {
        Err(e) => Err(e),
        Ok(cj) => match sdec_chat(cj) {
            Err(e) => Err(e),
            Ok(chat) => match sreq_val(j, "message_id"@) {
                Err(e) => Err(e),
                Ok(mj) => match sdec_message_id(mj) {
                    Err(e) => Err(e),
                    Ok(message_id) => match sreq_i64(j, "date"@) {
                        Err(e) => Err(e),
                        Ok(date) => Ok(InaccessibleMessageView { chat, message_id, date }),
                    },
                },
            },
        },
    }
}

pub fn encode_inaccessible_message(m: &InaccessibleMessage) -> (r: JsonValue)
    ensures
        r@ == senc_inaccessible_message(m@),
{
    let mut pairs: Vec<(String, JsonValue)> = Vec::new();
    push_field(&mut pairs, "chat", encode_chat(&m.chat));
    push_field(&mut pairs, "message_id", encode_message_id(&m.message_id));
    push_i64_field(&mut pairs, "date", m.date);
    JsonValue::Obj(pairs)
}

pub fn decode_inaccessible_message(j: &JsonValue) -> (r: Result<InaccessibleMessage, DecodeError>)
    ensures
        res_view(r) == sdec_inaccessible_message(j@),
{
    let cj = match req_val(j, "chat") {
        Ok(v) => v,
        Err(e) => {
            return Err(e);
        },
    };
    let chat = match decode_chat(cj) {
        Ok(v) => v,
        Err(e) => {
            return Err(e);
        },
    };
    let mj = match req_val(j, "message_id") {
        Ok(v) => v,
        Err(e) => {
            return Err(e);
        },
    };
    let message_id = match decode_message_id(mj) {
        Ok(v) => v,
        Err(e) => {
            return Err(e);
        },
    };
    let date = match req_i64(j, "date") {
        Ok(v) => v,
        Err(e) => {
            return Err(e);
        },
    };
    Ok(InaccessibleMessage { chat, message_id, date })
}

/// Decoding undoes encoding, for every inaccessible message.
pub proof fn lemma_inaccessible_message_round_trip(m: InaccessibleMessageView)
    ensures
        sdec_inaccessible_message(senc_inaccessible_message(m)) == Ok::<
            InaccessibleMessageView,
            DecodeErrorView,
        >(m),
{
    reveal_strlit("chat");
    reveal_strlit("message_id");
    reveal_strlit("date");
    assert("chat"@.len() == 4 && "message_id"@.len() == 10 && "date"@.len() == 4);
    assert("chat"@[0] == 'c' && "date"@[0] == 'd');
    lemma_chat_round_trip(m.chat);
    lemma_message_id_round_trip(m.message_id);
}

} // verus!
