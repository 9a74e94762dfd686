use crate::errors::{DecodeError, DecodeErrorView};
use crate::json::{
    JsonSpec, JsonValue, obj_model, opt_val, opt_val_ins, push_field, push_i64_field, push_str_field, req_i64, req_str, res_view, sopt_val, sreq_i64, sreq_str,
};
use vstd::prelude::*;

verus! {

/// A boost removed from a chat.
#[derive(Debug, Clone, PartialEq)]
pub struct ChatBoostRemoved {
    pub boost_id: String,
    pub remove_date: i64,
}

/// Mathematical image of `ChatBoostRemoved`.
#[verifier::ext_equal]
pub struct ChatBoostRemovedView {
    pub boost_id: Seq<char>,
    pub remove_date: i64,
}

impl View for ChatBoostRemoved {
    type V = ChatBoostRemovedView;

    open spec fn view(&self) -> ChatBoostRemovedView {
        ChatBoostRemovedView {
            boost_id: self.boost_id@,
            remove_date: self.remove_date,
        }
    }
}

impl DeepView for ChatBoostRemoved {
    type V = ChatBoostRemovedView;

    open spec fn deep_view(&self) -> ChatBoostRemovedView {
        self.view()
    }
}

/// The object it serializes to.
pub open spec fn senc_chat_boost_removed(m: ChatBoostRemovedView) -> JsonSpec {
    JsonSpec::Obj(Map::empty().insert("boost_id"@, JsonSpec::Str(m.boost_id)).insert("remove_date"@, JsonSpec::Int(m.remove_date as int)))
}

/// The value a tree decodes to.
pub open spec fn sdec_chat_boost_removed(j: JsonSpec) -> Result<ChatBoostRemovedView, DecodeErrorView> {
    match sreq_str(j, "boost_id"@) {
        Err(e) => Err(e),
        Ok(boost_id) => {
            match sreq_i64(j, "remove_date"@) {
                Err(e) => Err(e),
                Ok(remove_date) => {
                    Ok(ChatBoostRemovedView { boost_id, remove_date })
                },
            }
        },
    }
}

pub fn encode_chat_boost_removed(x: &ChatBoostRemoved) -> (r: JsonValue)
    ensures
        r@ == senc_chat_boost_removed(x@),
{
    let mut pairs: Vec<(String, JsonValue)> = Vec::new();
    push_str_field(&mut pairs, "boost_id", &x.boost_id);
    push_i64_field(&mut pairs, "remove_date", x.remove_date);
    JsonValue::Obj(pairs)
}

pub fn decode_chat_boost_removed(j: &JsonValue) -> (r: Result<ChatBoostRemoved, DecodeError>)
    ensures
        res_view(r) == sdec_chat_boost_removed(j@),
{
    let boost_id = match req_str(j, "boost_id") {
        Ok(v) => v,
        Err(e) => {
            return Err(e);
        },
    };
    let remove_date = match req_i64(j, "remove_date") {
        Ok(v) => v,
        Err(e) => {
            return Err(e);
        },
    };
    Ok(ChatBoostRemoved { boost_id, remove_date })
}

/// Decoding undoes encoding, for every value.
pub proof fn lemma_chat_boost_removed_round_trip(m: ChatBoostRemovedView)
    ensures
        sdec_chat_boost_removed(senc_chat_boost_removed(m)) == Ok::<ChatBoostRemovedView, DecodeErrorView>(m),
{
    reveal_strlit("boost_id");
    reveal_strlit("remove_date");
    assert("boost_id"@.len() == 8 && "remove_date"@.len() == 11);
}

/// An optional field holding this shape: absent or null is no value,
/// any present value must decode as the shape itself.
pub open spec fn sdec_opt_chat_boost_removed(j: JsonSpec, k: Seq<char>) -> Result<
    Option<ChatBoostRemovedView>,
    DecodeErrorView,
> {
    match sopt_val(j, k) {
        Err(e) => Err(e),
        Ok(None) => Ok(None),
        Ok(Some(vj)) => match sdec_chat_boost_removed(vj) {
            Err(e) => Err(e),
            Ok(v) => Ok(Some(v)),
        },
    }
}

pub fn decode_opt_chat_boost_removed(j: &JsonValue, key: &str) -> (r: Result<Option<ChatBoostRemoved>, DecodeError>)
    ensures
        res_view(r) == sdec_opt_chat_boost_removed(j@, key@),
{
    match opt_val(j, key) {
        Ok(None) => Ok(None),
        Ok(Some(vj)) => match decode_chat_boost_removed(vj) {
            Ok(v) => Ok(Some(v)),
            Err(e) => Err(e),
        },
        Err(e) => Err(e),
    }
}

/// Appends an optional field holding this shape, or omits the key
/// entirely when the field holds no value.
pub fn push_opt_chat_boost_removed_field(
    pairs: &mut Vec<(String, JsonValue)>,
    key: &str,
    o: &Option<ChatBoostRemoved>,
)
    ensures
        obj_model(final(pairs)@) == opt_val_ins(
            obj_model(old(pairs)@),
            key@,
            match o {
                Some(v) => Some(senc_chat_boost_removed(v@)),
                None => None,
            },
        ),
{
    proof {
        reveal(crate::json::opt_val_ins);
    }
    match o {
        Some(v) => push_field(pairs, key, encode_chat_boost_removed(v)),
        None => (),
    }
}

} // verus!
