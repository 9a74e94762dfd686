use crate::errors::{DecodeError, DecodeErrorView};
use crate::json::{push_i64_field, req_i64, res_view, sreq_i64, JsonSpec, JsonValue};
use vstd::prelude::*;

verus! {

/// A bare message identifier.
#[derive(Debug, Clone, Copy, PartialEq)]
pub struct MessageId {
    pub message_id: i64,
}

impl View for MessageId {
    type V = MessageId;

    open spec fn view(&self) -> MessageId {
        *self
    }
}

impl DeepView for MessageId {
    type V = MessageId;

    open spec fn deep_view(&self) -> MessageId {
        *self
    }
}

/// The object a message identifier serializes to.
pub open spec fn senc_message_id(m: MessageId) -> JsonSpec {
    JsonSpec::Obj(Map::empty().insert("message_id"@, JsonSpec::Int(m.message_id as int)))
}

/// The message identifier a tree decodes to.
pub open spec fn sdec_message_id(j: JsonSpec) -> Result<MessageId, DecodeErrorView> {
    match sreq_i64(j, "message_id"@) {
        Err(e) => Err(e),
        Ok(message_id) => Ok(MessageId { message_id }),
    }
}

pub fn encode_message_id(m: &MessageId) -> (r: JsonValue)
    ensures
        r@ == senc_message_id(m@),
{
    let mut pairs: Vec<(String, JsonValue)> = Vec::new();
    push_i64_field(&mut pairs, "message_id", m.message_id);
    JsonValue::Obj(pairs)
}

pub fn decode_message_id(j: &JsonValue) -> (r: Result<MessageId, DecodeError>)
    ensures
        res_view(r) == sdec_message_id(j@),
{
    let message_id = match req_i64(j, "message_id") {
        Ok(v) => v,
        Err(e) => {
            return Err(e);
        },
    };
    Ok(MessageId { message_id })
}

/// Decoding undoes encoding, for every message identifier.
pub proof fn lemma_message_id_round_trip(m: MessageId)
    ensures
        sdec_message_id(senc_message_id(m)) == Ok::<MessageId, DecodeErrorView>(m),
{
    reveal_strlit("message_id");
    assert("message_id"@.len() == 10);
}

} // verus!
