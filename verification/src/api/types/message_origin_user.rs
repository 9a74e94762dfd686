use crate::api::types::user::{
    decode_user, encode_user, lemma_user_round_trip, sdec_user, senc_user, User, UserView,
};
use crate::errors::{DecodeError, DecodeErrorView};
use crate::json::{
    push_field, push_i64_field, push_str_field, req_i64, req_str, req_val, res_view, sreq_i64,
    sreq_str, sreq_val, JsonSpec, JsonValue,
};
use vstd::prelude::*;

verus! {

/// The message was originally sent by a known user. Its `kind` rides
/// the wire under the name `type`.
#[derive(Debug, Clone, PartialEq)]
pub struct MessageOriginUser {
    pub kind: String,
    pub date: i64,
    pub sender_user: User,
}

/// Mathematical image of `MessageOriginUser`.
#[verifier::ext_equal]
pub struct MessageOriginUserView {
    pub kind: Seq<char>,
    pub date: i64,
    pub sender_user: UserView,
}

impl View for MessageOriginUser {
    type V = MessageOriginUserView;

    open spec fn view(&self) -> MessageOriginUserView {
        MessageOriginUserView { kind: self.kind@, date: self.date, sender_user: self.sender_user@ }
    }
}

impl DeepView for MessageOriginUser {
    type V = MessageOriginUserView;

    open spec fn deep_view(&self) -> MessageOriginUserView {
        self.view()
    }
}

/// The object a user origin serializes to; `kind` becomes `type`.
pub open spec fn senc_message_origin_user(m: MessageOriginUserView) -> JsonSpec {
    JsonSpec::Obj(
        Map::empty().insert("type"@, JsonSpec::Str(m.kind)).insert(
            "date"@,
            JsonSpec::Int(m.date as int),
        ).insert("sender_user"@, senc_user(m.sender_user)),
    )
}

/// The user origin a tree decodes to.
pub open spec fn sdec_message_origin_user(j: JsonSpec) -> Result<
    MessageOriginUserView,
    DecodeErrorView,
> {
    match sreq_str(j, "type"@) {
        Err(e) => Err(e),
        Ok(kind) => match sreq_i64(j, "date"@) {
            Err(e) => Err(e),
            Ok(date) => match sreq_val(j, "sender_user"@) {
                Err(e) => Err(e),
                Ok(uj) => match sdec_user(uj) {
                    Err(e) => Err(e),
                    Ok(sender_user) => Ok(MessageOriginUserView { kind, date, sender_user }),
                },
            },
        },
    }
}

pub fn encode_message_origin_user(m: &MessageOriginUser) -> (r: JsonValue)
    ensures
        r@ == senc_message_origin_user(m@),
{
    let mut pairs: Vec<(String, JsonValue)> = Vec::new();
    push_str_field(&mut pairs, "type", &m.kind);
    push_i64_field(&mut pairs, "date", m.date);
    push_field(&mut pairs, "sender_user", encode_user(&m.sender_user));
    JsonValue::Obj(pairs)
}

pub fn decode_message_origin_user(j: &JsonValue) -> (r: Result<MessageOriginUser, DecodeError>)
    ensures
        res_view(r) == sdec_message_origin_user(j@),
{
    let kind = match req_str(j, "type") {
        Ok(v) => v,
        Err(e) => {
            return Err(e);
        },
    };
    let date = match req_i64(j, "date") {
        Ok(v) => v,
        Err(e) => {
            return Err(e);
        },
    };
    let uj = match req_val(j, "sender_user") {
        Ok(v) => v,
        Err(e) => {
            return Err(e);
        },
    };
    let sender_user = match decode_user(uj) {
        Ok(v) => v,
        Err(e) => {
            return Err(e);
        },
    };
    Ok(MessageOriginUser { kind, date, sender_user })
}

/// Decoding undoes encoding, for every user origin.
pub proof fn lemma_message_origin_user_round_trip(m: MessageOriginUserView)
    ensures
        sdec_message_origin_user(senc_message_origin_user(m)) == Ok::<
            MessageOriginUserView,
            DecodeErrorView,
        >(m),
{
    reveal_strlit("type");
    reveal_strlit("date");
    reveal_strlit("sender_user");
    assert("type"@.len() == 4 && "date"@.len() == 4 && "sender_user"@.len() == 11);
    assert("type"@[0] == 't' && "date"@[0] == 'd');
    lemma_user_round_trip(m.sender_user);
}

} // verus!
