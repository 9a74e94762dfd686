use crate::api::enums::chat_boost_source::{
    decode_chat_boost_source, encode_chat_boost_source, lemma_chat_boost_source_round_trip,
    sdec_chat_boost_source, senc_chat_boost_source, ChatBoostSource, ChatBoostSourceView,
};
use crate::errors::{DecodeError, DecodeErrorView};
use crate::json::{
    push_field, push_i64_field, push_str_field, req_i64, req_str, req_val, res_view, sreq_i64,
    sreq_str, sreq_val, JsonSpec, JsonValue,
};
use vstd::prelude::*;

verus! {

/// One boost added to a chat, with its source.
#[derive(Debug, Clone, PartialEq)]
pub struct ChatBoost {
    pub boost_id: String,
    pub add_date: i64,
    pub expiration_date: i64,
    pub source: ChatBoostSource,
}

/// Mathematical image of `ChatBoost`.
#[verifier::ext_equal]
pub struct ChatBoostView {
    pub boost_id: Seq<char>,
    pub add_date: i64,
    pub expiration_date: i64,
    pub source: ChatBoostSourceView,
}

impl View for ChatBoost {
    type V = ChatBoostView;

    open spec fn view(&self) -> ChatBoostView {
        ChatBoostView {
            boost_id: self.boost_id@,
            add_date: self.add_date,
            expiration_date: self.expiration_date,
            source: self.source@,
        }
    }
}

impl DeepView for ChatBoost {
    type V = ChatBoostView;

    open spec fn deep_view(&self) -> ChatBoostView {
        self.view()
    }
}

/// The object a boost serializes to.
pub open spec fn senc_chat_boost(m: ChatBoostView) -> JsonSpec {
    JsonSpec::Obj(
        Map::empty().insert("boost_id"@, JsonSpec::Str(m.boost_id)).insert(
            "add_date"@,
            JsonSpec::Int(m.add_date as int),
        ).insert("expiration_date"@, JsonSpec::Int(m.expiration_date as int)).insert(
            "source"@,
            senc_chat_boost_source(m.source),
        ),
    )
}

/// The boost a tree decodes to.
pub open spec fn sdec_chat_boost(j: JsonSpec) -> Result<ChatBoostView, DecodeErrorView> {
    match sreq_str(j, "boost_id"@) {
        Err(e) => Err(e),
        Ok(boost_id) => match sreq_i64(j, "add_date"@) {
            Err(e) => Err(e),
            Ok(add_date) => match sreq_i64(j, "expiration_date"@) {
                Err(e) => Err(e),
                Ok(expiration_date) => match sreq_val(j, "source"@) {
                    Err(e) => Err(e),
                    Ok(sj) => match sdec_chat_boost_source(sj) {
                        Err(e) => Err(e),
                        Ok(source) => Ok(
                            ChatBoostView { boost_id, add_date, expiration_date, source },
                        ),
                    },
                },
            },
        },
    }
}

pub fn encode_chat_boost(b: &ChatBoost) -> (r: JsonValue)
    ensures
        r@ == senc_chat_boost(b@),
{
    let mut pairs: Vec<(String, JsonValue)> = Vec::new();
    push_str_field(&mut pairs, "boost_id", &b.boost_id);
    push_i64_field(&mut pairs, "add_date", b.add_date);
    push_i64_field(&mut pairs, "expiration_date", b.expiration_date);
    push_field(&mut pairs, "source", encode_chat_boost_source(&b.source));
    JsonValue::Obj(pairs)
}

pub fn decode_chat_boost(j: &JsonValue) -> (r: Result<ChatBoost, DecodeError>)
    ensures
        res_view(r) == sdec_chat_boost(j@),
{
    let boost_id = match req_str(j, "boost_id") {
        Ok(v) => v,
        Err(e) => {
            return Err(e);
        },
    };
    let add_date = match req_i64(j, "add_date") {
        Ok(v) => v,
        Err(e) => {
            return Err(e);
        },
    };
    let expiration_date = match req_i64(j, "expiration_date") {
        Ok(v) => v,
        Err(e) => {
            return Err(e);
        },
    };
    let sj = match req_val(j, "source") {
        Ok(v) => v,
        Err(e) => {
            return Err(e);
        },
    };
    let source = match decode_chat_boost_source(sj) {
        Ok(v) => v,
        Err(e) => {
            return Err(e);
        },
    };
    Ok(ChatBoost { boost_id, add_date, expiration_date, source })
}

/// Decoding undoes encoding, for every boost value.
pub proof fn lemma_chat_boost_round_trip(m: ChatBoostView)
    ensures
        sdec_chat_boost(senc_chat_boost(m)) == Ok::<ChatBoostView, DecodeErrorView>(m),
{
    reveal_strlit("boost_id");
    reveal_strlit("add_date");
    reveal_strlit("expiration_date");
    reveal_strlit("source");
    assert("boost_id"@.len() == 8 && "add_date"@.len() == 8 && "expiration_date"@.len() == 15
        && "source"@.len() == 6);
    assert("boost_id"@[0] == 'b' && "add_date"@[0] == 'a');
    lemma_chat_boost_source_round_trip(m.source);
}

} // verus!
