use crate::errors::{DecodeError, DecodeErrorView};
use crate::json::{
    JsonSpec, JsonValue, push_field, push_str_field, req_str, res_view, sreq_str,
};
use vstd::prelude::*;
use vstd::string::StringExecFns;

verus! {

/// One kind of inline-query result, tagged `photo` on the wire.
#[derive(Debug, Clone, PartialEq)]
pub struct InlineQueryResultCachedPhoto {
    pub id: String,
    pub photo_file_id: String,
}

/// Mathematical image of `InlineQueryResultCachedPhoto`.
#[verifier::ext_equal]
pub struct InlineQueryResultCachedPhotoView {
    pub id: Seq<char>,
    pub photo_file_id: Seq<char>,
}

impl View for InlineQueryResultCachedPhoto {
    type V = InlineQueryResultCachedPhotoView;

    open spec fn view(&self) -> InlineQueryResultCachedPhotoView {
        InlineQueryResultCachedPhotoView {
            id: self.id@,
            photo_file_id: self.photo_file_id@,
        }
    }
}

impl DeepView for InlineQueryResultCachedPhoto {
    type V = InlineQueryResultCachedPhotoView;

    open spec fn deep_view(&self) -> InlineQueryResultCachedPhotoView {
        self.view()
    }
}

/// The object it serializes to, tag included.
pub open spec fn senc_inline_query_result_cached_photo(m: InlineQueryResultCachedPhotoView) -> JsonSpec {
    JsonSpec::Obj(Map::empty().insert("type"@, JsonSpec::Str("photo"@)).insert("id"@, JsonSpec::Str(m.id)).insert("photo_file_id"@, JsonSpec::Str(m.photo_file_id)))
}

/// The value a tree decodes to.
pub open spec fn sdec_inline_query_result_cached_photo(j: JsonSpec) -> Result<InlineQueryResultCachedPhotoView, DecodeErrorView> {
    match sreq_str(j, "id"@) {
        Err(e) => Err(e),
        Ok(id) => {
            match sreq_str(j, "photo_file_id"@) {
                Err(e) => Err(e),
                Ok(photo_file_id) => {
                    Ok(InlineQueryResultCachedPhotoView { id, photo_file_id })
                },
            }
        },
    }
}

pub fn encode_inline_query_result_cached_photo(x: &InlineQueryResultCachedPhoto) -> (r: JsonValue)
    ensures
        r@ == senc_inline_query_result_cached_photo(x@),
{
    let mut pairs: Vec<(String, JsonValue)> = Vec::new();
    push_field(&mut pairs, "type", JsonValue::Str(String::from_str("photo")));
    push_str_field(&mut pairs, "id", &x.id);
    push_str_field(&mut pairs, "photo_file_id", &x.photo_file_id);
    JsonValue::Obj(pairs)
}

pub fn decode_inline_query_result_cached_photo(j: &JsonValue) -> (r: Result<InlineQueryResultCachedPhoto, DecodeError>)
    ensures
        res_view(r) == sdec_inline_query_result_cached_photo(j@),
{
    let id = match req_str(j, "id") {
        Ok(v) => v,
        Err(e) => {
            return Err(e);
        },
    };
    let photo_file_id = match req_str(j, "photo_file_id") {
        Ok(v) => v,
        Err(e) => {
            return Err(e);
        },
    };
    Ok(InlineQueryResultCachedPhoto { id, photo_file_id })
}

/// Decoding undoes encoding, for every value.
pub proof fn lemma_inline_query_result_cached_photo_round_trip(m: InlineQueryResultCachedPhotoView)
    ensures
        sdec_inline_query_result_cached_photo(senc_inline_query_result_cached_photo(m)) == Ok::<InlineQueryResultCachedPhotoView, DecodeErrorView>(m),
{
    reveal_strlit("type");
    reveal_strlit("id");
    reveal_strlit("photo_file_id");
    assert("type"@.len() == 4 && "id"@.len() == 2 && "photo_file_id"@.len() == 13);
}

/// The tag key of the encoded member reads back as its own tag.
pub proof fn lemma_inline_query_result_cached_photo_tag(m: InlineQueryResultCachedPhotoView)
    ensures
        sreq_str(senc_inline_query_result_cached_photo(m), "type"@) == Ok::<Seq<char>, DecodeErrorView>("photo"@),
{
    reveal_strlit("type");
    reveal_strlit("id");
    reveal_strlit("photo_file_id");
    reveal_strlit("photo");
    assert("type"@.len() == 4 && "id"@.len() == 2 && "photo_file_id"@.len() == 13);
}

} // verus!
