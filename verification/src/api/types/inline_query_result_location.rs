use crate::errors::{DecodeError, DecodeErrorView};
use crate::json::{
    JsonSpec, JsonValue, push_field, push_i64_field, push_str_field, req_i64, req_str, res_view, sreq_i64, sreq_str,
};
use vstd::prelude::*;
use vstd::string::StringExecFns;

verus! {

/// One kind of inline-query result, tagged `location` on the wire.
#[derive(Debug, Clone, PartialEq)]
pub struct InlineQueryResultLocation {
    pub id: String,
    pub latitude: i64,
    pub longitude: i64,
    pub title: String,
}

/// Mathematical image of `InlineQueryResultLocation`.
#[verifier::ext_equal]
pub struct InlineQueryResultLocationView {
    pub id: Seq<char>,
    pub latitude: i64,
    pub longitude: i64,
    pub title: Seq<char>,
}

impl View for InlineQueryResultLocation {
    type V = InlineQueryResultLocationView;

    open spec fn view(&self) -> InlineQueryResultLocationView {
        InlineQueryResultLocationView {
            id: self.id@,
            latitude: self.latitude,
            longitude: self.longitude,
            title: self.title@,
        }
    }
}

impl DeepView for InlineQueryResultLocation {
    type V = InlineQueryResultLocationView;

    open spec fn deep_view(&self) -> InlineQueryResultLocationView {
        self.view()
    }
}

/// The object it serializes to, tag included.
pub open spec fn senc_inline_query_result_location(m: InlineQueryResultLocationView) -> JsonSpec {
    JsonSpec::Obj(Map::empty().insert("type"@, JsonSpec::Str("location"@)).insert("id"@, JsonSpec::Str(m.id)).insert("latitude"@, JsonSpec::Int(m.latitude as int)).insert("longitude"@, JsonSpec::Int(m.longitude as int)).insert("title"@, JsonSpec::Str(m.title)))
}

/// The value a tree decodes to.
pub open spec fn sdec_inline_query_result_location(j: JsonSpec) -> Result<InlineQueryResultLocationView, DecodeErrorView> {
    match sreq_str(j, "id"@) {
        Err(e) => Err(e),
        Ok(id) => {
            match sreq_i64(j, "latitude"@) {
                Err(e) => Err(e),
                Ok(latitude) => {
                    match sreq_i64(j, "longitude"@) {
                        Err(e) => Err(e),
                        Ok(longitude) => {
                            match sreq_str(j, "title"@) {
                                Err(e) => Err(e),
                                Ok(title) => {
                                    Ok(InlineQueryResultLocationView { id, latitude, longitude, title })
                                },
                            }
                        },
                    }
                },
            }
        },
    }
}

pub fn encode_inline_query_result_location(x: &InlineQueryResultLocation) -> (r: JsonValue)
    ensures
        r@ == senc_inline_query_result_location(x@),
{
    let mut pairs: Vec<(String, JsonValue)> = Vec::new();
    push_field(&mut pairs, "type", JsonValue::Str(String::from_str("location")));
    push_str_field(&mut pairs, "id", &x.id);
    push_i64_field(&mut pairs, "latitude", x.latitude);
    push_i64_field(&mut pairs, "longitude", x.longitude);
    push_str_field(&mut pairs, "title", &x.title);
    JsonValue::Obj(pairs)
}

pub fn decode_inline_query_result_location(j: &JsonValue) -> (r: Result<InlineQueryResultLocation, DecodeError>)
    ensures
        res_view(r) == sdec_inline_query_result_location(j@),
{
    let id = match req_str(j, "id") {
        Ok(v) => v,
        Err(e) => {
            return Err(e);
        },
    };
    let latitude = match req_i64(j, "latitude") {
        Ok(v) => v,
        Err(e) => {
            return Err(e);
        },
    };
    let longitude = match req_i64(j, "longitude") {
        Ok(v) => v,
        Err(e) => {
            return Err(e);
        },
    };
    let title = match req_str(j, "title") {
        Ok(v) => v,
        Err(e) => {
            return Err(e);
        },
    };
    Ok(InlineQueryResultLocation { id, latitude, longitude, title })
}

/// Decoding undoes encoding, for every value.
pub proof fn lemma_inline_query_result_location_round_trip(m: InlineQueryResultLocationView)
    ensures
        sdec_inline_query_result_location(senc_inline_query_result_location(m)) == Ok::<InlineQueryResultLocationView, DecodeErrorView>(m),
{
    reveal_strlit("type");
    reveal_strlit("id");
    reveal_strlit("latitude");
    reveal_strlit("longitude");
    reveal_strlit("title");
    assert("type"@.len() == 4 && "id"@.len() == 2 && "latitude"@.len() == 8 && "longitude"@.len() == 9 && "title"@.len() == 5);
}

/// The tag key of the encoded member reads back as its own tag.
pub proof fn lemma_inline_query_result_location_tag(m: InlineQueryResultLocationView)
    ensures
        sreq_str(senc_inline_query_result_location(m), "type"@) == Ok::<Seq<char>, DecodeErrorView>("location"@),
{
    reveal_strlit("type");
    reveal_strlit("id");
    reveal_strlit("latitude");
    reveal_strlit("longitude");
    reveal_strlit("title");
    reveal_strlit("location");
    assert("type"@.len() == 4 && "id"@.len() == 2 && "latitude"@.len() == 8 && "longitude"@.len() == 9 && "title"@.len() == 5);
}

} // verus!
