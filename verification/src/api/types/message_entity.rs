use crate::errors::{DecodeError, DecodeErrorView};
use crate::json::{
    arr_model, push_elem, push_i64_field, push_str_field, req_i64, req_str, res_view, sreq_i64,
    sreq_str, JsonSpec, JsonValue,
};
use vstd::prelude::*;

verus! {

/// One special entity in a message text. Its own `kind` rides the wire
/// under the name `type`.
#[derive(Debug, Clone, PartialEq)]
pub struct MessageEntity {
    pub kind: String,
    pub offset: i64,
    pub length: i64,
}

/// Mathematical image of `MessageEntity`.
#[verifier::ext_equal]
pub struct MessageEntityView {
    pub kind: Seq<char>,
    pub offset: i64,
    pub length: i64,
}

impl View for MessageEntity {
    type V = MessageEntityView;

    open spec fn view(&self) -> MessageEntityView {
        MessageEntityView { kind: self.kind@, offset: self.offset, length: self.length }
    }
}

impl DeepView for MessageEntity {
    type V = MessageEntityView;

    open spec fn deep_view(&self) -> MessageEntityView {
        self.view()
    }
}

/// The object an entity serializes to; `kind` becomes `type`.
pub open spec fn senc_message_entity(m: MessageEntityView) -> JsonSpec {
    JsonSpec::Obj(
        Map::empty().insert("type"@, JsonSpec::Str(m.kind)).insert(
            "offset"@,
            JsonSpec::Int(m.offset as int),
        ).insert("length"@, JsonSpec::Int(m.length as int)),
    )
}

/// The entity a tree decodes to.
pub open spec fn sdec_message_entity(j: JsonSpec) -> Result<MessageEntityView, DecodeErrorView> {
    match sreq_str(j, "type"@) {
        Err(e) => Err(e),
        Ok(kind) => match sreq_i64(j, "offset"@) {
            Err(e) => Err(e),
            Ok(offset) => match sreq_i64(j, "length"@) {
                Err(e) => Err(e),
                Ok(length) => Ok(MessageEntityView { kind, offset, length }),
            },
        },
    }
}

pub fn encode_message_entity(x: &MessageEntity) -> (r: JsonValue)
    ensures
        r@ == senc_message_entity(x@),
{
    let mut pairs: Vec<(String, JsonValue)> = Vec::new();
    push_str_field(&mut pairs, "type", &x.kind);
    push_i64_field(&mut pairs, "offset", x.offset);
    push_i64_field(&mut pairs, "length", x.length);
    JsonValue::Obj(pairs)
}

pub fn decode_message_entity(j: &JsonValue) -> (r: Result<MessageEntity, DecodeError>)
    ensures
        res_view(r) == sdec_message_entity(j@),
{
    let kind = match req_str(j, "type") {
        Ok(v) => v,
        Err(e) => {
            return Err(e);
        },
    };
    let offset = match req_i64(j, "offset") {
        Ok(v) => v,
        Err(e) => {
            return Err(e);
        },
    };
    let length = match req_i64(j, "length") {
        Ok(v) => v,
        Err(e) => {
            return Err(e);
        },
    };
    Ok(MessageEntity { kind, offset, length })
}

/// Decoding undoes encoding, for every entity.
pub proof fn lemma_message_entity_round_trip(m: MessageEntityView)
    ensures
        sdec_message_entity(senc_message_entity(m)) == Ok::<MessageEntityView, DecodeErrorView>(m),
{
    reveal_strlit("type");
    reveal_strlit("offset");
    reveal_strlit("length");
    assert("type"@.len() == 4 && "offset"@.len() == 6 && "length"@.len() == 6);
    assert("offset"@[0] == 'o' && "length"@[0] == 'l');
}

/// The array an entity list serializes to, element for element.
pub open spec fn senc_message_entity_seq(s: Seq<MessageEntityView>) -> Seq<JsonSpec> {
    s.map_values(|e: MessageEntityView| senc_message_entity(e))
}

/// Encodes an entity list as an array.
pub fn encode_message_entities(v: &Vec<MessageEntity>) -> (r: JsonValue)
    ensures
        r@ == JsonSpec::Arr(senc_message_entity_seq(v.deep_view())),
{
    let ghost target: Seq<JsonSpec> = senc_message_entity_seq(v.deep_view());
    let mut items: Vec<JsonValue> = Vec::new();
    let n = v.len();
    proof {
        assert(target.take(0) =~= arr_model(items@));
    }
    let mut i: usize = 0;
    while i < n
        invariant
            i <= n,
            n == v.len(),
            target == senc_message_entity_seq(v.deep_view()),
            target.len() == n,
            arr_model(items@) == target.take(i as int),
        decreases n - i,
    {
        push_elem(&mut items, encode_message_entity(&v[i]));
        proof {
            assert(target.take(i as int + 1) =~= target.take(i as int).push(target[i as int]));
        }
        i = i + 1;
    }
    proof {
        assert(target.take(n as int) =~= target);
    }
    JsonValue::Arr(items)
}

} // verus!
