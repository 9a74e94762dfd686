use crate::errors::{DecodeError, DecodeErrorView};
use crate::json::{
    JsonSpec, JsonValue, push_field, push_i64_field, push_str_field, req_i64, req_str, res_view, sreq_i64, sreq_str,
};
use vstd::prelude::*;
use vstd::string::StringExecFns;

verus! {

/// One kind of inline-query result, tagged `venue` on the wire.
#[derive(Debug, Clone, PartialEq)]
pub struct InlineQueryResultVenue {
    pub id: String,
    pub latitude: i64,
    pub longitude: i64,
    pub title: String,
    pub address: String,
}

/// Mathematical image of `InlineQueryResultVenue`.
#[verifier::ext_equal]
pub struct InlineQueryResultVenueView {
    pub id: Seq<char>,
    pub latitude: i64,
    pub longitude: i64,
    pub title: Seq<char>,
    pub address: Seq<char>,
}

impl View for InlineQueryResultVenue {
    type V = InlineQueryResultVenueView;

    open spec fn view(&self) -> InlineQueryResultVenueView {
        InlineQueryResultVenueView {
            id: self.id@,
            latitude: self.latitude,
            longitude: self.longitude,
            title: self.title@,
            address: self.address@,
        }
    }
}

impl DeepView for InlineQueryResultVenue {
    type V = InlineQueryResultVenueView;

    open spec fn deep_view(&self) -> InlineQueryResultVenueView {
        self.view()
    }
}

/// The object it serializes to, tag included.
pub open spec fn senc_inline_query_result_venue(m: InlineQueryResultVenueView) -> JsonSpec {
    JsonSpec::Obj(Map::empty().insert("type"@, JsonSpec::Str("venue"@)).insert("id"@, JsonSpec::Str(m.id)).insert("latitude"@, JsonSpec::Int(m.latitude as int)).insert("longitude"@, JsonSpec::Int(m.longitude as int)).insert("title"@, JsonSpec::Str(m.title)).insert("address"@, JsonSpec::Str(m.address)))
}

/// The value a tree decodes to.
pub open spec fn sdec_inline_query_result_venue(j: JsonSpec) -> Result<InlineQueryResultVenueView, DecodeErrorView> {
    match sreq_str(j, "id"@) {
        Err(e) => Err(e),
        Ok(id) => {
            match sreq_i64(j, "latitude"@) {
                Err(e) => Err(e),
                Ok(latitude) => {
                    match sreq_i64(j, "longitude"@) {
                        Err(e) => Err(e),
                        Ok(longitude) => {
                            match sreq_str(j, "title"@) {
                                Err(e) => Err(e),
                                Ok(title) => {
                                    match sreq_str(j, "address"@) {
                                        Err(e) => Err(e),
                                        Ok(address) => {
                                            Ok(InlineQueryResultVenueView { id, latitude, longitude, title, address })
                                        },
                                    }
                                },
                            }
                        },
                    }
                },
            }
        },
    }
}

pub fn encode_inline_query_result_venue(x: &InlineQueryResultVenue) -> (r: JsonValue)
    ensures
        r@ == senc_inline_query_result_venue(x@),
{
    let mut pairs: Vec<(String, JsonValue)> = Vec::new();
    push_field(&mut pairs, "type", JsonValue::Str(String::from_str("venue")));
    push_str_field(&mut pairs, "id", &x.id);
    push_i64_field(&mut pairs, "latitude", x.latitude);
    push_i64_field(&mut pairs, "longitude", x.longitude);
    push_str_field(&mut pairs, "title", &x.title);
    push_str_field(&mut pairs, "address", &x.address);
    JsonValue::Obj(pairs)
}

pub fn decode_inline_query_result_venue(j: &JsonValue) -> (r: Result<InlineQueryResultVenue, DecodeError>)
    ensures
        res_view(r) == sdec_inline_query_result_venue(j@),
{
    let id = match req_str(j, "id") {
        Ok(v) => v,
        Err(e) => {
            return Err(e);
        },
    };
    let latitude = match req_i64(j, "latitude") {
        Ok(v) => v,
        Err(e) => {
            return Err(e);
        },
    };
    let longitude = match req_i64(j, "longitude") {
        Ok(v) => v,
        Err(e) => {
            return Err(e);
        },
    };
    let title = match req_str(j, "title") {
        Ok(v) => v,
        Err(e) => {
            return Err(e);
        },
    };
    let address = match req_str(j, "address") {
        Ok(v) => v,
        Err(e) => {
            return Err(e);
        },
    };
    Ok(InlineQueryResultVenue { id, latitude, longitude, title, address })
}

/// Decoding undoes encoding, for every value.
pub proof fn lemma_inline_query_result_venue_round_trip(m: InlineQueryResultVenueView)
    ensures
        sdec_inline_query_result_venue(senc_inline_query_result_venue(m)) == Ok::<InlineQueryResultVenueView, DecodeErrorView>(m),
{
    reveal_strlit("type");
    reveal_strlit("id");
    reveal_strlit("latitude");
    reveal_strlit("longitude");
    reveal_strlit("title");
    reveal_strlit("address");
    assert("type"@.len() == 4 && "id"@.len() == 2 && "latitude"@.len() == 8 && "longitude"@.len() == 9 && "title"@.len() == 5 && "address"@.len() == 7);
}

/// The tag key of the encoded member reads back as its own tag.
pub proof fn lemma_inline_query_result_venue_tag(m: InlineQueryResultVenueView)
    ensures
        sreq_str(senc_inline_query_result_venue(m), "type"@) == Ok::<Seq<char>, DecodeErrorView>("venue"@),
{
    reveal_strlit("type");
    reveal_strlit("id");
    reveal_strlit("latitude");
    reveal_strlit("longitude");
    reveal_strlit("title");
    reveal_strlit("address");
    reveal_strlit("venue");
    assert("type"@.len() == 4 && "id"@.len() == 2 && "latitude"@.len() == 8 && "longitude"@.len() == 9 && "title"@.len() == 5 && "address"@.len() == 7);
}

} // verus!
