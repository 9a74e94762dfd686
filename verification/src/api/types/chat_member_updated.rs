use crate::errors::{DecodeError, DecodeErrorView};
use crate::json::{
    JsonSpec, JsonValue, obj_model, opt_val, opt_val_ins, push_field, push_i64_field, req_i64, res_view, sopt_val, sreq_i64,
};
use vstd::prelude::*;

verus! {

/// A change in the status of a chat member.
#[derive(Debug, Clone, Copy, PartialEq)]
pub struct ChatMemberUpdated {
    pub date: i64,
}

impl View for ChatMemberUpdated {
    type V = ChatMemberUpdated;

    open spec fn view(&self) -> ChatMemberUpdated {
        *self
    }
}

impl DeepView for ChatMemberUpdated {
    type V = ChatMemberUpdated;

    open spec fn deep_view(&self) -> ChatMemberUpdated {
        *self
    }
}

/// The object it serializes to.
pub open spec fn senc_chat_member_updated(m: ChatMemberUpdated) -> JsonSpec {
    JsonSpec::Obj(Map::empty().insert("date"@, JsonSpec::Int(m.date as int)))
}

/// The value a tree decodes to.
pub open spec fn sdec_chat_member_updated(j: JsonSpec) -> Result<ChatMemberUpdated, DecodeErrorView> {
    match sreq_i64(j, "date"@) {
        Err(e) => Err(e),
        Ok(date) => {
            Ok(ChatMemberUpdated { date })
        },
    }
}

pub fn encode_chat_member_updated(x: &ChatMemberUpdated) -> (r: JsonValue)
    ensures
        r@ == senc_chat_member_updated(x@),
{
    let mut pairs: Vec<(String, JsonValue)> = Vec::new();
    push_i64_field(&mut pairs, "date", x.date);
    JsonValue::Obj(pairs)
}

pub fn decode_chat_member_updated(j: &JsonValue) -> (r: Result<ChatMemberUpdated, DecodeError>)
    ensures
        res_view(r) == sdec_chat_member_updated(j@),
{
    let date = match req_i64(j, "date") {
        Ok(v) => v,
        Err(e) => {
            return Err(e);
        },
    };
    Ok(ChatMemberUpdated { date })
}

/// Decoding undoes encoding, for every value.
pub proof fn lemma_chat_member_updated_round_trip(m: ChatMemberUpdated)
    ensures
        sdec_chat_member_updated(senc_chat_member_updated(m)) == Ok::<ChatMemberUpdated, DecodeErrorView>(m),
{
    reveal_strlit("date");
    assert("date"@.len() == 4);
}

/// An optional field holding this shape: absent or null is no value,
/// any present value must decode as the shape itself.
pub open spec fn sdec_opt_chat_member_updated(j: JsonSpec, k: Seq<char>) -> Result<
    Option<ChatMemberUpdated>,
    DecodeErrorView,
> {
    match sopt_val(j, k) {
        Err(e) => Err(e),
        Ok(None) => Ok(None),
        Ok(Some(vj)) => match sdec_chat_member_updated(vj) {
            Err(e) => Err(e),
            Ok(v) => Ok(Some(v)),
        },
    }
}

pub fn decode_opt_chat_member_updated(j: &JsonValue, key: &str) -> (r: Result<Option<ChatMemberUpdated>, DecodeError>)
    ensures
        res_view(r) == sdec_opt_chat_member_updated(j@, key@),
{
    match opt_val(j, key) {
        Ok(None) => Ok(None),
        Ok(Some(vj)) => match decode_chat_member_updated(vj) {
            Ok(v) => Ok(Some(v)),
            Err(e) => Err(e),
        },
        Err(e) => Err(e),
    }
}

/// Appends an optional field holding this shape, or omits the key
/// entirely when the field holds no value.
pub fn push_opt_chat_member_updated_field(
    pairs: &mut Vec<(String, JsonValue)>,
    key: &str,
    o: &Option<ChatMemberUpdated>,
)
    ensures
        obj_model(final(pairs)@) == opt_val_ins(
            obj_model(old(pairs)@),
            key@,
            match o {
                Some(v) => Some(senc_chat_member_updated(v@)),
                None => None,
            },
        ),
{
    proof {
        reveal(crate::json::opt_val_ins);
    }
    match o {
        Some(v) => push_field(pairs, key, encode_chat_member_updated(v)),
        None => (),
    }
}

} // verus!
