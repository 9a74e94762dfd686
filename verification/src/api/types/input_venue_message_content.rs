use crate::errors::{DecodeError, DecodeErrorView};
use crate::json::{
    JsonSpec, JsonValue, push_i64_field, push_str_field, req_i64, req_str, res_view, sreq_i64, sreq_str,
};
use vstd::prelude::*;

verus! {

/// The venue content of a message to send.
#[derive(Debug, Clone, PartialEq)]
pub struct InputVenueMessageContent {
    pub latitude: i64,
    pub longitude: i64,
    pub title: String,
    pub address: String,
}

/// Mathematical image of `InputVenueMessageContent`.
#[verifier::ext_equal]
pub struct InputVenueMessageContentView {
    pub latitude: i64,
    pub longitude: i64,
    pub title: Seq<char>,
    pub address: Seq<char>,
}

impl View for InputVenueMessageContent {
    type V = InputVenueMessageContentView;

    open spec fn view(&self) -> InputVenueMessageContentView {
        InputVenueMessageContentView {
            latitude: self.latitude,
            longitude: self.longitude,
            title: self.title@,
            address: self.address@,
        }
    }
}

impl DeepView for InputVenueMessageContent {
    type V = InputVenueMessageContentView;

    open spec fn deep_view(&self) -> InputVenueMessageContentView {
        self.view()
    }
}

/// The object it serializes to.
pub open spec fn senc_input_venue_message_content(m: InputVenueMessageContentView) -> JsonSpec {
    JsonSpec::Obj(Map::empty().insert("latitude"@, JsonSpec::Int(m.latitude as int)).insert("longitude"@, JsonSpec::Int(m.longitude as int)).insert("title"@, JsonSpec::Str(m.title)).insert("address"@, JsonSpec::Str(m.address)))
}

/// The value a tree decodes to.
pub open spec fn sdec_input_venue_message_content(j: JsonSpec) -> Result<InputVenueMessageContentView, DecodeErrorView> {
    match sreq_i64(j, "latitude"@) {
        Err(e) => Err(e),
        Ok(latitude) => {
            match sreq_i64(j, "longitude"@) {
                Err(e) => Err(e),
                Ok(longitude) => {
                    match sreq_str(j, "title"@) {
                        Err(e) => Err(e),
                        Ok(title) => {
                            match sreq_str(j, "address"@) {
                                Err(e) => Err(e),
                                Ok(address) => {
                                    Ok(InputVenueMessageContentView { latitude, longitude, title, address })
                                },
                            }
                        },
                    }
                },
            }
        },
    }
}

pub fn encode_input_venue_message_content(x: &InputVenueMessageContent) -> (r: JsonValue)
    ensures
        r@ == senc_input_venue_message_content(x@),
{
    let mut pairs: Vec<(String, JsonValue)> = Vec::new();
    push_i64_field(&mut pairs, "latitude", x.latitude);
    push_i64_field(&mut pairs, "longitude", x.longitude);
    push_str_field(&mut pairs, "title", &x.title);
    push_str_field(&mut pairs, "address", &x.address);
    JsonValue::Obj(pairs)
}

pub fn decode_input_venue_message_content(j: &JsonValue) -> (r: Result<InputVenueMessageContent, DecodeError>)
    ensures
        res_view(r) == sdec_input_venue_message_content(j@),
{
    let latitude = match req_i64(j, "latitude") {
        Ok(v) => v,
        Err(e) => {
            return Err(e);
        },
    };
    let longitude = match req_i64(j, "longitude") {
        Ok(v) => v,
        Err(e) => {
            return Err(e);
        },
    };
    let title = match req_str(j, "title") {
        Ok(v) => v,
        Err(e) => {
            return Err(e);
        },
    };
    let address = match req_str(j, "address") {
        Ok(v) => v,
        Err(e) => {
            return Err(e);
        },
    };
    Ok(InputVenueMessageContent { latitude, longitude, title, address })
}

/// Decoding undoes encoding, for every value.
pub proof fn lemma_input_venue_message_content_round_trip(m: InputVenueMessageContentView)
    ensures
        sdec_input_venue_message_content(senc_input_venue_message_content(m)) == Ok::<InputVenueMessageContentView, DecodeErrorView>(m),
{
    reveal_strlit("latitude");
    reveal_strlit("longitude");
    reveal_strlit("title");
    reveal_strlit("address");
    assert("latitude"@.len() == 8 && "longitude"@.len() == 9 && "title"@.len() == 5 && "address"@.len() == 7);
}

} // verus!
