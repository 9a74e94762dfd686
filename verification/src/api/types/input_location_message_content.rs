use crate::errors::{DecodeError, DecodeErrorView};
use crate::json::{
    JsonSpec, JsonValue, push_i64_field, req_i64, res_view, sreq_i64,
};
use vstd::prelude::*;

verus! {

/// The location content of a message to send; coordinates are carried as whole numbers.
#[derive(Debug, Clone, Copy, PartialEq)]
pub struct InputLocationMessageContent {
    pub latitude: i64,
    pub longitude: i64,
}

impl View for InputLocationMessageContent {
    type V = InputLocationMessageContent;

    open spec fn view(&self) -> InputLocationMessageContent {
        *self
    }
}

impl DeepView for InputLocationMessageContent {
    type V = InputLocationMessageContent;

    open spec fn deep_view(&self) -> InputLocationMessageContent {
        *self
    }
}

/// The object it serializes to.
pub open spec fn senc_input_location_message_content(m: InputLocationMessageContent) -> JsonSpec {
    JsonSpec::Obj(Map::empty().insert("latitude"@, JsonSpec::Int(m.latitude as int)).insert("longitude"@, JsonSpec::Int(m.longitude as int)))
}

/// The value a tree decodes to.
pub open spec fn sdec_input_location_message_content(j: JsonSpec) -> Result<InputLocationMessageContent, DecodeErrorView> {
    match sreq_i64(j, "latitude"@) {
        Err(e) => Err(e),
        Ok(latitude) => {
            match sreq_i64(j, "longitude"@) {
                Err(e) => Err(e),
                Ok(longitude) => {
                    Ok(InputLocationMessageContent { latitude, longitude })
                },
            }
        },
    }
}

pub fn encode_input_location_message_content(x: &InputLocationMessageContent) -> (r: JsonValue)
    ensures
        r@ == senc_input_location_message_content(x@),
{
    let mut pairs: Vec<(String, JsonValue)> = Vec::new();
    push_i64_field(&mut pairs, "latitude", x.latitude);
    push_i64_field(&mut pairs, "longitude", x.longitude);
    JsonValue::Obj(pairs)
}

pub fn decode_input_location_message_content(j: &JsonValue) -> (r: Result<InputLocationMessageContent, DecodeError>)
    ensures
        res_view(r) == sdec_input_location_message_content(j@),
{
    let latitude = match req_i64(j, "latitude") {
        Ok(v) => v,
        Err(e) => {
            return Err(e);
        },
    };
    let longitude = match req_i64(j, "longitude") {
        Ok(v) => v,
        Err(e) => {
            return Err(e);
        },
    };
    Ok(InputLocationMessageContent { latitude, longitude })
}

/// Decoding undoes encoding, for every value.
pub proof fn lemma_input_location_message_content_round_trip(m: InputLocationMessageContent)
    ensures
        sdec_input_location_message_content(senc_input_location_message_content(m)) == Ok::<InputLocationMessageContent, DecodeErrorView>(m),
{
    reveal_strlit("latitude");
    reveal_strlit("longitude");
    assert("latitude"@.len() == 8 && "longitude"@.len() == 9);
}

} // verus!
