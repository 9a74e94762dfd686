use crate::api::types::chat_boost::{
    decode_chat_boost, encode_chat_boost, lemma_chat_boost_round_trip, sdec_chat_boost,
    senc_chat_boost, ChatBoost, ChatBoostView,
};
use crate::errors::{DecodeError, DecodeErrorView};
use crate::json::{
    JsonSpec, JsonValue, obj_model, opt_val, opt_val_ins, push_field, req_val, res_view, sopt_val, sreq_val,
};
use vstd::prelude::*;

verus! {

/// A boost added to a chat or changed.
#[derive(Debug, Clone, PartialEq)]
pub struct ChatBoostUpdated {
    pub boost: ChatBoost,
}

/// Mathematical image of `ChatBoostUpdated`.
#[verifier::ext_equal]
pub struct ChatBoostUpdatedView {
    pub boost: ChatBoostView,
}

impl View for ChatBoostUpdated {
    type V = ChatBoostUpdatedView;

    open spec fn view(&self) -> ChatBoostUpdatedView {
        ChatBoostUpdatedView { boost: self.boost@ }
    }
}

impl DeepView for ChatBoostUpdated {
    type V = ChatBoostUpdatedView;

    open spec fn deep_view(&self) -> ChatBoostUpdatedView {
        self.view()
    }
}

/// The object it serializes to.
pub open spec fn senc_chat_boost_updated(m: ChatBoostUpdatedView) -> JsonSpec {
    JsonSpec::Obj(Map::empty().insert("boost"@, senc_chat_boost(m.boost)))
}

/// The value a tree decodes to.
pub open spec fn sdec_chat_boost_updated(j: JsonSpec) -> Result<
    ChatBoostUpdatedView,
    DecodeErrorView,
> {
    match sreq_val(j, "boost"@) {
        Err(e) => Err(e),
        Ok(bj) => match sdec_chat_boost(bj) {
            Err(e) => Err(e),
            Ok(boost) => Ok(ChatBoostUpdatedView { boost }),
        },
    }
}

pub fn encode_chat_boost_updated(x: &ChatBoostUpdated) -> (r: JsonValue)
    ensures
        r@ == senc_chat_boost_updated(x@),
{
    let mut pairs: Vec<(String, JsonValue)> = Vec::new();
    push_field(&mut pairs, "boost", encode_chat_boost(&x.boost));
    JsonValue::Obj(pairs)
}

pub fn decode_chat_boost_updated(j: &JsonValue) -> (r: Result<ChatBoostUpdated, DecodeError>)
    ensures
        res_view(r) == sdec_chat_boost_updated(j@),
{
    let bj = match req_val(j, "boost") {
        Ok(v) => v,
        Err(e) => {
            return Err(e);
        },
    };
    let boost = match decode_chat_boost(bj) {
        Ok(v) => v,
        Err(e) => {
            return Err(e);
        },
    };
    Ok(ChatBoostUpdated { boost })
}

/// Decoding undoes encoding, for every value.
pub proof fn lemma_chat_boost_updated_round_trip(m: ChatBoostUpdatedView)
    ensures
        sdec_chat_boost_updated(senc_chat_boost_updated(m)) == Ok::<
            ChatBoostUpdatedView,
            DecodeErrorView,
        >(m),
{
    reveal_strlit("boost");
    assert("boost"@.len() == 5);
    lemma_chat_boost_round_trip(m.boost);
}

/// An optional field holding this shape: absent or null is no value,
/// any present value must decode as the shape itself.
pub open spec fn sdec_opt_chat_boost_updated(j: JsonSpec, k: Seq<char>) -> Result<
    Option<ChatBoostUpdatedView>,
    DecodeErrorView,
> {
    match sopt_val(j, k) {
        Err(e) => Err(e),
        Ok(None) => Ok(None),
        Ok(Some(vj)) => match sdec_chat_boost_updated(vj) {
            Err(e) => Err(e),
            Ok(v) => Ok(Some(v)),
        },
    }
}

pub fn decode_opt_chat_boost_updated(j: &JsonValue, key: &str) -> (r: Result<Option<ChatBoostUpdated>, DecodeError>)
    ensures
        res_view(r) == sdec_opt_chat_boost_updated(j@, key@),
{
    match opt_val(j, key) {
        Ok(None) => Ok(None),
        Ok(Some(vj)) => match decode_chat_boost_updated(vj) {
            Ok(v) => Ok(Some(v)),
            Err(e) => Err(e),
        },
        Err(e) => Err(e),
    }
}

/// Appends an optional field holding this shape, or omits the key
/// entirely when the field holds no value.
pub fn push_opt_chat_boost_updated_field(
    pairs: &mut Vec<(String, JsonValue)>,
    key: &str,
    o: &Option<ChatBoostUpdated>,
)
    ensures
        obj_model(final(pairs)@) == opt_val_ins(
            obj_model(old(pairs)@),
            key@,
            match o {
                Some(v) => Some(senc_chat_boost_updated(v@)),
                None => None,
            },
        ),
{
    proof {
        reveal(crate::json::opt_val_ins);
    }
    match o {
        Some(v) => push_field(pairs, key, encode_chat_boost_updated(v)),
        None => (),
    }
}

} // verus!
