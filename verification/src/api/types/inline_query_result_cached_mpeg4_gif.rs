use crate::errors::{DecodeError, DecodeErrorView};
use crate::json::{
    JsonSpec, JsonValue, push_field, push_str_field, req_str, res_view, sreq_str,
};
use vstd::prelude::*;
use vstd::string::StringExecFns;

verus! {

/// One kind of inline-query result, tagged `mpeg4_gif` on the wire.
#[derive(Debug, Clone, PartialEq)]
pub struct InlineQueryResultCachedMpeg4Gif {
    pub id: String,
    pub mpeg4_file_id: String,
}

/// Mathematical image of `InlineQueryResultCachedMpeg4Gif`.
#[verifier::ext_equal]
pub struct InlineQueryResultCachedMpeg4GifView {
    pub id: Seq<char>,
    pub mpeg4_file_id: Seq<char>,
}

impl View for InlineQueryResultCachedMpeg4Gif {
    type V = InlineQueryResultCachedMpeg4GifView;

    open spec fn view(&self) -> InlineQueryResultCachedMpeg4GifView {
        InlineQueryResultCachedMpeg4GifView {
            id: self.id@,
            mpeg4_file_id: self.mpeg4_file_id@,
        }
    }
}

impl DeepView for InlineQueryResultCachedMpeg4Gif {
    type V = InlineQueryResultCachedMpeg4GifView;

    open spec fn deep_view(&self) -> InlineQueryResultCachedMpeg4GifView {
        self.view()
    }
}

/// The object it serializes to, tag included.
pub open spec fn senc_inline_query_result_cached_mpeg4_gif(m: InlineQueryResultCachedMpeg4GifView) -> JsonSpec {
    JsonSpec::Obj(Map::empty().insert("type"@, JsonSpec::Str("mpeg4_gif"@)).insert("id"@, JsonSpec::Str(m.id)).insert("mpeg4_file_id"@, JsonSpec::Str(m.mpeg4_file_id)))
}

/// The value a tree decodes to.
pub open spec fn sdec_inline_query_result_cached_mpeg4_gif(j: JsonSpec) -> Result<InlineQueryResultCachedMpeg4GifView, DecodeErrorView> {
    match sreq_str(j, "id"@) {
        Err(e) => Err(e),
        Ok(id) => {
            match sreq_str(j, "mpeg4_file_id"@) {
                Err(e) => Err(e),
                Ok(mpeg4_file_id) => {
                    Ok(InlineQueryResultCachedMpeg4GifView { id, mpeg4_file_id })
                },
            }
        },
    }
}

pub fn encode_inline_query_result_cached_mpeg4_gif(x: &InlineQueryResultCachedMpeg4Gif) -> (r: JsonValue)
    ensures
        r@ == senc_inline_query_result_cached_mpeg4_gif(x@),
{
    let mut pairs: Vec<(String, JsonValue)> = Vec::new();
    push_field(&mut pairs, "type", JsonValue::Str(String::from_str("mpeg4_gif")));
    push_str_field(&mut pairs, "id", &x.id);
    push_str_field(&mut pairs, "mpeg4_file_id", &x.mpeg4_file_id);
    JsonValue::Obj(pairs)
}

pub fn decode_inline_query_result_cached_mpeg4_gif(j: &JsonValue) -> (r: Result<InlineQueryResultCachedMpeg4Gif, DecodeError>)
    ensures
        res_view(r) == sdec_inline_query_result_cached_mpeg4_gif(j@),
{
    let id = match req_str(j, "id") {
        Ok(v) => v,
        Err(e) => {
            return Err(e);
        },
    };
    let mpeg4_file_id = match req_str(j, "mpeg4_file_id") {
        Ok(v) => v,
        Err(e) => {
            return Err(e);
        },
    };
    Ok(InlineQueryResultCachedMpeg4Gif { id, mpeg4_file_id })
}

/// Decoding undoes encoding, for every value.
pub proof fn lemma_inline_query_result_cached_mpeg4_gif_round_trip(m: InlineQueryResultCachedMpeg4GifView)
    ensures
        sdec_inline_query_result_cached_mpeg4_gif(senc_inline_query_result_cached_mpeg4_gif(m)) == Ok::<InlineQueryResultCachedMpeg4GifView, DecodeErrorView>(m),
{
    reveal_strlit("type");
    reveal_strlit("id");
    reveal_strlit("mpeg4_file_id");
    assert("type"@.len() == 4 && "id"@.len() == 2 && "mpeg4_file_id"@.len() == 13);
}

/// The tag key of the encoded member reads back as its own tag.
pub proof fn lemma_inline_query_result_cached_mpeg4_gif_tag(m: InlineQueryResultCachedMpeg4GifView)
    ensures
        sreq_str(senc_inline_query_result_cached_mpeg4_gif(m), "type"@) == Ok::<Seq<char>, DecodeErrorView>("mpeg4_gif"@),
{
    reveal_strlit("type");
    reveal_strlit("id");
    reveal_strlit("mpeg4_file_id");
    reveal_strlit("mpeg4_gif");
    assert("type"@.len() == 4 && "id"@.len() == 2 && "mpeg4_file_id"@.len() == 13);
}

} // verus!
