use crate::errors::{DecodeError, DecodeErrorView};
use crate::json::{
    JsonSpec, JsonValue, push_field, push_str_field, req_str, res_view, sreq_str,
};
use vstd::prelude::*;
use vstd::string::StringExecFns;

verus! {

/// One kind of inline-query result, tagged `mpeg4_gif` on the wire.
#[derive(Debug, Clone, PartialEq)]
pub struct InlineQueryResultMpeg4Gif {
    pub id: String,
    pub mpeg4_url: String,
    pub thumbnail_url: String,
}

/// Mathematical image of `InlineQueryResultMpeg4Gif`.
#[verifier::ext_equal]
pub struct InlineQueryResultMpeg4GifView {
    pub id: Seq<char>,
    pub mpeg4_url: Seq<char>,
    pub thumbnail_url: Seq<char>,
}

impl View for InlineQueryResultMpeg4Gif {
    type V = InlineQueryResultMpeg4GifView;

    open spec fn view(&self) -> InlineQueryResultMpeg4GifView {
        InlineQueryResultMpeg4GifView {
            id: self.id@,
            mpeg4_url: self.mpeg4_url@,
            thumbnail_url: self.thumbnail_url@,
        }
    }
}

impl DeepView for InlineQueryResultMpeg4Gif {
    type V = InlineQueryResultMpeg4GifView;

    open spec fn deep_view(&self) -> InlineQueryResultMpeg4GifView {
        self.view()
    }
}

/// The object it serializes to, tag included.
pub open spec fn senc_inline_query_result_mpeg4_gif(m: InlineQueryResultMpeg4GifView) -> JsonSpec {
    JsonSpec::Obj(Map::empty().insert("type"@, JsonSpec::Str("mpeg4_gif"@)).insert("id"@, JsonSpec::Str(m.id)).insert("mpeg4_url"@, JsonSpec::Str(m.mpeg4_url)).insert("thumbnail_url"@, JsonSpec::Str(m.thumbnail_url)))
}

/// The value a tree decodes to.
pub open spec fn sdec_inline_query_result_mpeg4_gif(j: JsonSpec) -> Result<InlineQueryResultMpeg4GifView, DecodeErrorView> {
    match sreq_str(j, "id"@) {
        Err(e) => Err(e),
        Ok(id) => {
            match sreq_str(j, "mpeg4_url"@) {
                Err(e) => Err(e),
                Ok(mpeg4_url) => {
                    match sreq_str(j, "thumbnail_url"@) {
                        Err(e) => Err(e),
                        Ok(thumbnail_url) => {
                            Ok(InlineQueryResultMpeg4GifView { id, mpeg4_url, thumbnail_url })
                        },
                    }
                },
            }
        },
    }
}

pub fn encode_inline_query_result_mpeg4_gif(x: &InlineQueryResultMpeg4Gif) -> (r: JsonValue)
    ensures
        r@ == senc_inline_query_result_mpeg4_gif(x@),
{
    let mut pairs: Vec<(String, JsonValue)> = Vec::new();
    push_field(&mut pairs, "type", JsonValue::Str(String::from_str("mpeg4_gif")));
    push_str_field(&mut pairs, "id", &x.id);
    push_str_field(&mut pairs, "mpeg4_url", &x.mpeg4_url);
    push_str_field(&mut pairs, "thumbnail_url", &x.thumbnail_url);
    JsonValue::Obj(pairs)
}

pub fn decode_inline_query_result_mpeg4_gif(j: &JsonValue) -> (r: Result<InlineQueryResultMpeg4Gif, DecodeError>)
    ensures
        res_view(r) == sdec_inline_query_result_mpeg4_gif(j@),
{
    let id = match req_str(j, "id") {
        Ok(v) => v,
        Err(e) => {
            return Err(e);
        },
    };
    let mpeg4_url = match req_str(j, "mpeg4_url") {
        Ok(v) => v,
        Err(e) => {
            return Err(e);
        },
    };
    let thumbnail_url = match req_str(j, "thumbnail_url") {
        Ok(v) => v,
        Err(e) => {
            return Err(e);
        },
    };
    Ok(InlineQueryResultMpeg4Gif { id, mpeg4_url, thumbnail_url })
}

/// Decoding undoes encoding, for every value.
pub proof fn lemma_inline_query_result_mpeg4_gif_round_trip(m: InlineQueryResultMpeg4GifView)
    ensures
        sdec_inline_query_result_mpeg4_gif(senc_inline_query_result_mpeg4_gif(m)) == Ok::<InlineQueryResultMpeg4GifView, DecodeErrorView>(m),
{
    reveal_strlit("type");
    reveal_strlit("id");
    reveal_strlit("mpeg4_url");
    reveal_strlit("thumbnail_url");
    assert("type"@.len() == 4 && "id"@.len() == 2 && "mpeg4_url"@.len() == 9 && "thumbnail_url"@.len() == 13);
}

/// The tag key of the encoded member reads back as its own tag.
pub proof fn lemma_inline_query_result_mpeg4_gif_tag(m: InlineQueryResultMpeg4GifView)
    ensures
        sreq_str(senc_inline_query_result_mpeg4_gif(m), "type"@) == Ok::<Seq<char>, DecodeErrorView>("mpeg4_gif"@),
{
    reveal_strlit("type");
    reveal_strlit("id");
    reveal_strlit("mpeg4_url");
    reveal_strlit("thumbnail_url");
    reveal_strlit("mpeg4_gif");
    assert("type"@.len() == 4 && "id"@.len() == 2 && "mpeg4_url"@.len() == 9 && "thumbnail_url"@.len() == 13);
}

} // verus!
