use crate::errors::{DecodeError, DecodeErrorView};
use crate::json::{
    JsonSpec, JsonValue, obj_model, opt_val, opt_val_ins, push_field, push_i64_field, req_i64, res_view, sopt_val, sreq_i64,
};
use vstd::prelude::*;

verus! {

/// One message, reduced to the identity fields this schema reads.
#[derive(Debug, Clone, Copy, PartialEq)]
pub struct Message {
    pub message_id: i64,
    pub date: i64,
}

impl View for Message {
    type V = Message;

    open spec fn view(&self) -> Message {
        *self
    }
}

impl DeepView for Message {
    type V = Message;

    open spec fn deep_view(&self) -> Message {
        *self
    }
}

/// The object it serializes to.
pub open spec fn senc_message(m: Message) -> JsonSpec {
    JsonSpec::Obj(Map::empty().insert("message_id"@, JsonSpec::Int(m.message_id as int)).insert("date"@, JsonSpec::Int(m.date as int)))
}

/// The value a tree decodes to.
pub open spec fn sdec_message(j: JsonSpec) -> Result<Message, DecodeErrorView> {
    match sreq_i64(j, "message_id"@) {
        Err(e) => Err(e),
        Ok(message_id) => {
            match sreq_i64(j, "date"@) {
                Err(e) => Err(e),
                Ok(date) => {
                    Ok(Message { message_id, date })
                },
            }
        },
    }
}

pub fn encode_message(x: &Message) -> (r: JsonValue)
    ensures
        r@ == senc_message(x@),
{
    let mut pairs: Vec<(String, JsonValue)> = Vec::new();
    push_i64_field(&mut pairs, "message_id", x.message_id);
    push_i64_field(&mut pairs, "date", x.date);
    JsonValue::Obj(pairs)
}

pub fn decode_message(j: &JsonValue) -> (r: Result<Message, DecodeError>)
    ensures
        res_view(r) == sdec_message(j@),
{
    let message_id = match req_i64(j, "message_id") {
        Ok(v) => v,
        Err(e) => {
            return Err(e);
        },
    };
    let date = match req_i64(j, "date") {
        Ok(v) => v,
        Err(e) => {
            return Err(e);
        },
    };
    Ok(Message { message_id, date })
}

/// Decoding undoes encoding, for every value.
pub proof fn lemma_message_round_trip(m: Message)
    ensures
        sdec_message(senc_message(m)) == Ok::<Message, DecodeErrorView>(m),
{
    reveal_strlit("message_id");
    reveal_strlit("date");
    assert("message_id"@.len() == 10 && "date"@.len() == 4);
}

/// An optional field holding this shape: absent or null is no value,
/// any present value must decode as the shape itself.
pub open spec fn sdec_opt_message(j: JsonSpec, k: Seq<char>) -> Result<
    Option<Message>,
    DecodeErrorView,
> {
    match sopt_val(j, k) {
        Err(e) => Err(e),
        Ok(None) => Ok(None),
        Ok(Some(vj)) => match sdec_message(vj) {
            Err(e) => Err(e),
            Ok(v) => Ok(Some(v)),
        },
    }
}

pub fn decode_opt_message(j: &JsonValue, key: &str) -> (r: Result<Option<Message>, DecodeError>)
    ensures
        res_view(r) == sdec_opt_message(j@, key@),
{
    match opt_val(j, key) {
        Ok(None) => Ok(None),
        Ok(Some(vj)) => match decode_message(vj) {
            Ok(v) => Ok(Some(v)),
            Err(e) => Err(e),
        },
        Err(e) => Err(e),
    }
}

/// Appends an optional field holding this shape, or omits the key
/// entirely when the field holds no value.
pub fn push_opt_message_field(
    pairs: &mut Vec<(String, JsonValue)>,
    key: &str,
    o: &Option<Message>,
)
    ensures
        obj_model(final(pairs)@) == opt_val_ins(
            obj_model(old(pairs)@),
            key@,
            match o {
                Some(v) => Some(senc_message(v@)),
                None => None,
            },
        ),
{
    proof {
        reveal(crate::json::opt_val_ins);
    }
    match o {
        Some(v) => push_field(pairs, key, encode_message(v)),
        None => (),
    }
}

} // verus!
