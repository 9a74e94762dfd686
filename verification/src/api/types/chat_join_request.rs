use crate::errors::{DecodeError, DecodeErrorView};
use crate::json::{
    JsonSpec, JsonValue, obj_model, opt_val, opt_val_ins, push_field, push_i64_field, req_i64, res_view, sopt_val, sreq_i64,
};
use vstd::prelude::*;

verus! {

/// A request to join a chat.
#[derive(Debug, Clone, Copy, PartialEq)]
pub struct ChatJoinRequest {
    pub date: i64,
    pub user_chat_id: i64,
}

impl View for ChatJoinRequest {
    type V = ChatJoinRequest;

    open spec fn view(&self) -> ChatJoinRequest {
        *self
    }
}

impl DeepView for ChatJoinRequest {
    type V = ChatJoinRequest;

    open spec fn deep_view(&self) -> ChatJoinRequest {
        *self
    }
}

/// The object it serializes to.
pub open spec fn senc_chat_join_request(m: ChatJoinRequest) -> JsonSpec {
    JsonSpec::Obj(Map::empty().insert("date"@, JsonSpec::Int(m.date as int)).insert("user_chat_id"@, JsonSpec::Int(m.user_chat_id as int)))
}

/// The value a tree decodes to.
pub open spec fn sdec_chat_join_request(j: JsonSpec) -> Result<ChatJoinRequest, DecodeErrorView> {
    match sreq_i64(j, "date"@) {
        Err(e) => Err(e),
        Ok(date) => {
            match sreq_i64(j, "user_chat_id"@) {
                Err(e) => Err(e),
                Ok(user_chat_id) => {
                    Ok(ChatJoinRequest { date, user_chat_id })
                },
            }
        },
    }
}

pub fn encode_chat_join_request(x: &ChatJoinRequest) -> (r: JsonValue)
    ensures
        r@ == senc_chat_join_request(x@),
{
    let mut pairs: Vec<(String, JsonValue)> = Vec::new();
    push_i64_field(&mut pairs, "date", x.date);
    push_i64_field(&mut pairs, "user_chat_id", x.user_chat_id);
    JsonValue::Obj(pairs)
}

pub fn decode_chat_join_request(j: &JsonValue) -> (r: Result<ChatJoinRequest, DecodeError>)
    ensures
        res_view(r) == sdec_chat_join_request(j@),
{
    let date = match req_i64(j, "date") {
        Ok(v) => v,
        Err(e) => {
            return Err(e);
        },
    };
    let user_chat_id = match req_i64(j, "user_chat_id") {
        Ok(v) => v,
        Err(e) => {
            return Err(e);
        },
    };
    Ok(ChatJoinRequest { date, user_chat_id })
}

/// Decoding undoes encoding, for every value.
pub proof fn lemma_chat_join_request_round_trip(m: ChatJoinRequest)
    ensures
        sdec_chat_join_request(senc_chat_join_request(m)) == Ok::<ChatJoinRequest, DecodeErrorView>(m),
{
    reveal_strlit("date");
    reveal_strlit("user_chat_id");
    assert("date"@.len() == 4 && "user_chat_id"@.len() == 12);
}

/// An optional field holding this shape: absent or null is no value,
/// any present value must decode as the shape itself.
pub open spec fn sdec_opt_chat_join_request(j: JsonSpec, k: Seq<char>) -> Result<
    Option<ChatJoinRequest>,
    DecodeErrorView,
> {
    match sopt_val(j, k) {
        Err(e) => Err(e),
        Ok(None) => Ok(None),
        Ok(Some(vj)) => match sdec_chat_join_request(vj) {
            Err(e) => Err(e),
            Ok(v) => Ok(Some(v)),
        },
    }
}

pub fn decode_opt_chat_join_request(j: &JsonValue, key: &str) -> (r: Result<Option<ChatJoinRequest>, DecodeError>)
    ensures
        res_view(r) == sdec_opt_chat_join_request(j@, key@),
{
    match opt_val(j, key) {
        Ok(None) => Ok(None),
        Ok(Some(vj)) => match decode_chat_join_request(vj) {
            Ok(v) => Ok(Some(v)),
            Err(e) => Err(e),
        },
        Err(e) => Err(e),
    }
}

/// Appends an optional field holding this shape, or omits the key
/// entirely when the field holds no value.
pub fn push_opt_chat_join_request_field(
    pairs: &mut Vec<(String, JsonValue)>,
    key: &str,
    o: &Option<ChatJoinRequest>,
)
    ensures
        obj_model(final(pairs)@) == opt_val_ins(
            obj_model(old(pairs)@),
            key@,
            match o {
                Some(v) => Some(senc_chat_join_request(v@)),
                None => None,
            },
        ),
{
    proof {
        reveal(crate::json::opt_val_ins);
    }
    match o {
        Some(v) => push_field(pairs, key, encode_chat_join_request(v)),
        None => (),
    }
}

} // verus!
