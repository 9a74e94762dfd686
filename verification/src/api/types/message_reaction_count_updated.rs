use crate::errors::{DecodeError, DecodeErrorView};
use crate::json::{
    JsonSpec, JsonValue, obj_model, opt_val, opt_val_ins, push_field, push_i64_field, req_i64, res_view, sopt_val, sreq_i64,
};
use vstd::prelude::*;

verus! {

/// A change of anonymous reaction counts on a message.
#[derive(Debug, Clone, Copy, PartialEq)]
pub struct MessageReactionCountUpdated {
    pub message_id: i64,
    pub date: i64,
}

impl View for MessageReactionCountUpdated {
    type V = MessageReactionCountUpdated;

    open spec fn view(&self) -> MessageReactionCountUpdated {
        *self
    }
}

impl DeepView for MessageReactionCountUpdated {
    type V = MessageReactionCountUpdated;

    open spec fn deep_view(&self) -> MessageReactionCountUpdated {
        *self
    }
}

/// The object it serializes to.
pub open spec fn senc_message_reaction_count_updated(m: MessageReactionCountUpdated) -> JsonSpec {
    JsonSpec::Obj(Map::empty().insert("message_id"@, JsonSpec::Int(m.message_id as int)).insert("date"@, JsonSpec::Int(m.date as int)))
}

/// The value a tree decodes to.
pub open spec fn sdec_message_reaction_count_updated(j: JsonSpec) -> Result<MessageReactionCountUpdated, DecodeErrorView> {
    match sreq_i64(j, "message_id"@) {
        Err(e) => Err(e),
        Ok(message_id) => {
            match sreq_i64(j, "date"@) {
                Err(e) => Err(e),
                Ok(date) => {
                    Ok(MessageReactionCountUpdated { message_id, date })
                },
            }
        },
    }
}

pub fn encode_message_reaction_count_updated(x: &MessageReactionCountUpdated) -> (r: JsonValue)
    ensures
        r@ == senc_message_reaction_count_updated(x@),
{
    let mut pairs: Vec<(String, JsonValue)> = Vec::new();
    push_i64_field(&mut pairs, "message_id", x.message_id);
    push_i64_field(&mut pairs, "date", x.date);
    JsonValue::Obj(pairs)
}

pub fn decode_message_reaction_count_updated(j: &JsonValue) -> (r: Result<MessageReactionCountUpdated, DecodeError>)
    ensures
        res_view(r) == sdec_message_reaction_count_updated(j@),
{
    let message_id = match req_i64(j, "message_id") {
        Ok(v) => v,
        Err(e) => {
            return Err(e);
        },
    };
    let date = match req_i64(j, "date") {
        Ok(v) => v,
        Err(e) => {
            return Err(e);
        },
    };
    Ok(MessageReactionCountUpdated { message_id, date })
}

/// Decoding undoes encoding, for every value.
pub proof fn lemma_message_reaction_count_updated_round_trip(m: MessageReactionCountUpdated)
    ensures
        sdec_message_reaction_count_updated(senc_message_reaction_count_updated(m)) == Ok::<MessageReactionCountUpdated, DecodeErrorView>(m),
{
    reveal_strlit("message_id");
    reveal_strlit("date");
    assert("message_id"@.len() == 10 && "date"@.len() == 4);
}

/// An optional field holding this shape: absent or null is no value,
/// any present value must decode as the shape itself.
pub open spec fn sdec_opt_message_reaction_count_updated(j: JsonSpec, k: Seq<char>) -> Result<
    Option<MessageReactionCountUpdated>,
    DecodeErrorView,
> {
    match sopt_val(j, k) {
        Err(e) => Err(e),
        Ok(None) => Ok(None),
        Ok(Some(vj)) => match sdec_message_reaction_count_updated(vj) {
            Err(e) => Err(e),
            Ok(v) => Ok(Some(v)),
        },
    }
}

pub fn decode_opt_message_reaction_count_updated(j: &JsonValue, key: &str) -> (r: Result<Option<MessageReactionCountUpdated>, DecodeError>)
    ensures
        res_view(r) == sdec_opt_message_reaction_count_updated(j@, key@),
{
    match opt_val(j, key) {
        Ok(None) => Ok(None),
        Ok(Some(vj)) => match decode_message_reaction_count_updated(vj) {
            Ok(v) => Ok(Some(v)),
            Err(e) => Err(e),
        },
        Err(e) => Err(e),
    }
}

/// Appends an optional field holding this shape, or omits the key
/// entirely when the field holds no value.
pub fn push_opt_message_reaction_count_updated_field(
    pairs: &mut Vec<(String, JsonValue)>,
    key: &str,
    o: &Option<MessageReactionCountUpdated>,
)
    ensures
        obj_model(final(pairs)@) == opt_val_ins(
            obj_model(old(pairs)@),
            key@,
            match o {
                Some(v) => Some(senc_message_reaction_count_updated(v@)),
                None => None,
            },
        ),
{
    proof {
        reveal(crate::json::opt_val_ins);
    }
    match o {
        Some(v) => push_field(pairs, key, encode_message_reaction_count_updated(v)),
        None => (),
    }
}

} // verus!
