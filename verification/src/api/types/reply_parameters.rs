use crate::api::enums::chat_uid::{
    decode_chat_uid, encode_chat_uid, lemma_chat_uid_handle_round_trip,
    lemma_chat_uid_numeric_round_trip, sdec_chat_uid, senc_chat_uid, spec_parse_i64, ChatUId,
    ChatUIdView,
};
use crate::errors::{DecodeError, DecodeErrorView};
use crate::json::{
    obj_model, opt_bool, opt_bool_ins, opt_val, opt_val_ins, push_field, push_i64_field,
    push_opt_bool_field, req_i64, res_view, sopt_bool, sopt_val, sreq_i64, JsonSpec, JsonValue,
};
use vstd::prelude::*;

verus! {

/// Which message a new message replies to.
#[derive(Debug, Clone, PartialEq)]
pub struct ReplyParameters {
    pub message_id: i64,
    pub chat_id: Option<ChatUId>,
    pub allow_sending_without_reply: Option<bool>,
}

/// Mathematical image of `ReplyParameters`.
#[verifier::ext_equal]
pub struct ReplyParametersView {
    pub message_id: i64,
    pub chat_id: Option<ChatUIdView>,
    pub allow_sending_without_reply: Option<bool>,
}

impl View for ReplyParameters {
    type V = ReplyParametersView;

    open spec fn view(&self) -> ReplyParametersView {
        ReplyParametersView {
            message_id: self.message_id,
            chat_id: self.chat_id.deep_view(),
            allow_sending_without_reply: self.allow_sending_without_reply,
        }
    }
}

impl DeepView for ReplyParameters {
    type V = ReplyParametersView;

    open spec fn deep_view(&self) -> ReplyParametersView {
        self.view()
    }
}

/// The object reply parameters serialize to; absent optionals leave no
/// key.
pub open spec fn senc_reply_parameters(m: ReplyParametersView) -> JsonSpec {
    let o = Map::empty().insert("message_id"@, JsonSpec::Int(m.message_id as int));
    let o = opt_val_ins(
        o,
        "chat_id"@,
        match m.chat_id {
            Some(u) => Some(senc_chat_uid(u)),
            None => None,
        },
    );
    let o = opt_bool_ins(o, "allow_sending_without_reply"@, m.allow_sending_without_reply);
    JsonSpec::Obj(o)
}

/// The reply parameters a tree decodes to.
pub open spec fn sdec_reply_parameters(j: JsonSpec) -> Result<
    ReplyParametersView,
    DecodeErrorView,
> {
    match sreq_i64(j, "message_id"@) {
        Err(e) => Err(e),
        Ok(message_id) => match sopt_val(j, "chat_id"@) {
            Err(e) => Err(e),
            Ok(None) => match sopt_bool(j, "allow_sending_without_reply"@) {
                Err(e) => Err(e),
                Ok(aswr) => Ok(
                    ReplyParametersView {
                        message_id,
                        chat_id: None,
                        allow_sending_without_reply: aswr,
                    },
                ),
            },
            Ok(Some(uj)) => match sdec_chat_uid(uj) {
                Err(e) => Err(e),
                Ok(u) => match sopt_bool(j, "allow_sending_without_reply"@) {
                    Err(e) => Err(e),
                    Ok(aswr) => Ok(
                        ReplyParametersView {
                            message_id,
                            chat_id: Some(u),
                            allow_sending_without_reply: aswr,
                        },
                    ),
                },
            },
        },
    }
}

pub fn encode_reply_parameters(x: &ReplyParameters) -> (r: JsonValue)
    ensures
        r@ == senc_reply_parameters(x@),
{
    proof {
        reveal(crate::json::opt_val_ins);
    }
    let mut pairs: Vec<(String, JsonValue)> = Vec::new();
    push_i64_field(&mut pairs, "message_id", x.message_id);
    match &x.chat_id {
        Some(u) => push_field(&mut pairs, "chat_id", encode_chat_uid(u)),
        None => (),
    }
    push_opt_bool_field(&mut pairs, "allow_sending_without_reply", &x.allow_sending_without_reply);
    JsonValue::Obj(pairs)
}

pub fn decode_reply_parameters(j: &JsonValue) -> (r: Result<ReplyParameters, DecodeError>)
    ensures
        res_view(r) == sdec_reply_parameters(j@),
{
    let message_id = match req_i64(j, "message_id") {
        Ok(v) => v,
        Err(e) => {
            return Err(e);
        },
    };
    let chat_id = match opt_val(j, "chat_id") {
        Ok(None) => None,
        Ok(Some(uj)) => match decode_chat_uid(uj) {
            Ok(u) => Some(u),
            Err(e) => {
                return Err(e);
            },
        },
        Err(e) => {
            return Err(e);
        },
    };
    let allow_sending_without_reply = match opt_bool(j, "allow_sending_without_reply") {
        Ok(v) => v,
        Err(e) => {
            return Err(e);
        },
    };
    Ok(ReplyParameters { message_id, chat_id, allow_sending_without_reply })
}

/// Decoding undoes encoding, for every value whose optional chat
/// identifier is not a handle that spells a number: such a handle is
/// indistinguishable on the wire from the number itself.
pub proof fn lemma_reply_parameters_round_trip(m: ReplyParametersView)
    requires
        match m.chat_id {
            Some(ChatUIdView::Handle(s)) => spec_parse_i64(s) is None,
            _ => true,
        },
    ensures
        sdec_reply_parameters(senc_reply_parameters(m)) == Ok::<
            ReplyParametersView,
            DecodeErrorView,
        >(m),
{
    broadcast use crate::json::group_json_ins;

    reveal_strlit("message_id");
    reveal_strlit("chat_id");
    reveal_strlit("allow_sending_without_reply");
    assert("message_id"@.len() == 10 && "chat_id"@.len() == 7
        && "allow_sending_without_reply"@.len() == 27);
    match m.chat_id {
        Some(u) => match u {
            ChatUIdView::Numeric(n) => lemma_chat_uid_numeric_round_trip(n),
            ChatUIdView::Handle(s) => lemma_chat_uid_handle_round_trip(s),
        },
        None => (),
    }
}

} // verus!
