use crate::errors::{DecodeError, DecodeErrorView};
use crate::json::{
    JsonSpec, JsonValue, push_field, push_str_field, req_str, res_view, sreq_str,
};
use vstd::prelude::*;
use vstd::string::StringExecFns;

verus! {

/// One kind of inline-query result, tagged `photo` on the wire.
#[derive(Debug, Clone, PartialEq)]
pub struct InlineQueryResultPhoto {
    pub id: String,
    pub photo_url: String,
    pub thumbnail_url: String,
}

/// Mathematical image of `InlineQueryResultPhoto`.
#[verifier::ext_equal]
pub struct InlineQueryResultPhotoView {
    pub id: Seq<char>,
    pub photo_url: Seq<char>,
    pub thumbnail_url: Seq<char>,
}

impl View for InlineQueryResultPhoto {
    type V = InlineQueryResultPhotoView;

    open spec fn view(&self) -> InlineQueryResultPhotoView {
        InlineQueryResultPhotoView {
            id: self.id@,
            photo_url: self.photo_url@,
            thumbnail_url: self.thumbnail_url@,
        }
    }
}

impl DeepView for InlineQueryResultPhoto {
    type V = InlineQueryResultPhotoView;

    open spec fn deep_view(&self) -> InlineQueryResultPhotoView {
        self.view()
    }
}

/// The object it serializes to, tag included.
pub open spec fn senc_inline_query_result_photo(m: InlineQueryResultPhotoView) -> JsonSpec {
    JsonSpec::Obj(Map::empty().insert("type"@, JsonSpec::Str("photo"@)).insert("id"@, JsonSpec::Str(m.id)).insert("photo_url"@, JsonSpec::Str(m.photo_url)).insert("thumbnail_url"@, JsonSpec::Str(m.thumbnail_url)))
}

/// The value a tree decodes to.
pub open spec fn sdec_inline_query_result_photo(j: JsonSpec) -> Result<InlineQueryResultPhotoView, DecodeErrorView> {
    match sreq_str(j, "id"@) {
        Err(e) => Err(e),
        Ok(id) => {
            match sreq_str(j, "photo_url"@) {
                Err(e) => Err(e),
                Ok(photo_url) => {
                    match sreq_str(j, "thumbnail_url"@) {
                        Err(e) => Err(e),
                        Ok(thumbnail_url) => {
                            Ok(InlineQueryResultPhotoView { id, photo_url, thumbnail_url })
                        },
                    }
                },
            }
        },
    }
}

pub fn encode_inline_query_result_photo(x: &InlineQueryResultPhoto) -> (r: JsonValue)
    ensures
        r@ == senc_inline_query_result_photo(x@),
{
    let mut pairs: Vec<(String, JsonValue)> = Vec::new();
    push_field(&mut pairs, "type", JsonValue::Str(String::from_str("photo")));
    push_str_field(&mut pairs, "id", &x.id);
    push_str_field(&mut pairs, "photo_url", &x.photo_url);
    push_str_field(&mut pairs, "thumbnail_url", &x.thumbnail_url);
    JsonValue::Obj(pairs)
}

pub fn decode_inline_query_result_photo(j: &JsonValue) -> (r: Result<InlineQueryResultPhoto, DecodeError>)
    ensures
        res_view(r) == sdec_inline_query_result_photo(j@),
{
    let id = match req_str(j, "id") {
        Ok(v) => v,
        Err(e) => {
            return Err(e);
        },
    };
    let photo_url = match req_str(j, "photo_url") {
        Ok(v) => v,
        Err(e) => {
            return Err(e);
        },
    };
    let thumbnail_url = match req_str(j, "thumbnail_url") {
        Ok(v) => v,
        Err(e) => {
            return Err(e);
        },
    };
    Ok(InlineQueryResultPhoto { id, photo_url, thumbnail_url })
}

/// Decoding undoes encoding, for every value.
pub proof fn lemma_inline_query_result_photo_round_trip(m: InlineQueryResultPhotoView)
    ensures
        sdec_inline_query_result_photo(senc_inline_query_result_photo(m)) == Ok::<InlineQueryResultPhotoView, DecodeErrorView>(m),
{
    reveal_strlit("type");
    reveal_strlit("id");
    reveal_strlit("photo_url");
    reveal_strlit("thumbnail_url");
    assert("type"@.len() == 4 && "id"@.len() == 2 && "photo_url"@.len() == 9 && "thumbnail_url"@.len() == 13);
}

/// The tag key of the encoded member reads back as its own tag.
pub proof fn lemma_inline_query_result_photo_tag(m: InlineQueryResultPhotoView)
    ensures
        sreq_str(senc_inline_query_result_photo(m), "type"@) == Ok::<Seq<char>, DecodeErrorView>("photo"@),
{
    reveal_strlit("type");
    reveal_strlit("id");
    reveal_strlit("photo_url");
    reveal_strlit("thumbnail_url");
    reveal_strlit("photo");
    assert("type"@.len() == 4 && "id"@.len() == 2 && "photo_url"@.len() == 9 && "thumbnail_url"@.len() == 13);
}

} // verus!
