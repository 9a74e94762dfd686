use crate::errors::{DecodeError, DecodeErrorView};
use crate::json::{
    JsonSpec, JsonValue, push_field, push_str_field, req_str, res_view, sreq_str,
};
use vstd::prelude::*;
use vstd::string::StringExecFns;

verus! {

/// One kind of inline-query result, tagged `gif` on the wire.
#[derive(Debug, Clone, PartialEq)]
pub struct InlineQueryResultCachedGif {
    pub id: String,
    pub gif_file_id: String,
}

/// Mathematical image of `InlineQueryResultCachedGif`.
#[verifier::ext_equal]
pub struct InlineQueryResultCachedGifView {
    pub id: Seq<char>,
    pub gif_file_id: Seq<char>,
}

impl View for InlineQueryResultCachedGif {
    type V = InlineQueryResultCachedGifView;

    open spec fn view(&self) -> InlineQueryResultCachedGifView {
        InlineQueryResultCachedGifView {
            id: self.id@,
            gif_file_id: self.gif_file_id@,
        }
    }
}

impl DeepView for InlineQueryResultCachedGif {
    type V = InlineQueryResultCachedGifView;

    open spec fn deep_view(&self) -> InlineQueryResultCachedGifView {
        self.view()
    }
}

/// The object it serializes to, tag included.
pub open spec fn senc_inline_query_result_cached_gif(m: InlineQueryResultCachedGifView) -> JsonSpec {
    JsonSpec::Obj(Map::empty().insert("type"@, JsonSpec::Str("gif"@)).insert("id"@, JsonSpec::Str(m.id)).insert("gif_file_id"@, JsonSpec::Str(m.gif_file_id)))
}

/// The value a tree decodes to.
pub open spec fn sdec_inline_query_result_cached_gif(j: JsonSpec) -> Result<InlineQueryResultCachedGifView, DecodeErrorView> {
    match sreq_str(j, "id"@) {
        Err(e) => Err(e),
        Ok(id) => {
            match sreq_str(j, "gif_file_id"@) {
                Err(e) => Err(e),
                Ok(gif_file_id) => {
                    Ok(InlineQueryResultCachedGifView { id, gif_file_id })
                },
            }
        },
    }
}

pub fn encode_inline_query_result_cached_gif(x: &InlineQueryResultCachedGif) -> (r: JsonValue)
    ensures
        r@ == senc_inline_query_result_cached_gif(x@),
{
    let mut pairs: Vec<(String, JsonValue)> = Vec::new();
    push_field(&mut pairs, "type", JsonValue::Str(String::from_str("gif")));
    push_str_field(&mut pairs, "id", &x.id);
    push_str_field(&mut pairs, "gif_file_id", &x.gif_file_id);
    JsonValue::Obj(pairs)
}

pub fn decode_inline_query_result_cached_gif(j: &JsonValue) -> (r: Result<InlineQueryResultCachedGif, DecodeError>)
    ensures
        res_view(r) == sdec_inline_query_result_cached_gif(j@),
{
    let id = match req_str(j, "id") {
        Ok(v) => v,
        Err(e) => {
            return Err(e);
        },
    };
    let gif_file_id = match req_str(j, "gif_file_id") {
        Ok(v) => v,
        Err(e) => {
            return Err(e);
        },
    };
    Ok(InlineQueryResultCachedGif { id, gif_file_id })
}

/// Decoding undoes encoding, for every value.
pub proof fn lemma_inline_query_result_cached_gif_round_trip(m: InlineQueryResultCachedGifView)
    ensures
        sdec_inline_query_result_cached_gif(senc_inline_query_result_cached_gif(m)) == Ok::<InlineQueryResultCachedGifView, DecodeErrorView>(m),
{
    reveal_strlit("type");
    reveal_strlit("id");
    reveal_strlit("gif_file_id");
    assert("type"@.len() == 4 && "id"@.len() == 2 && "gif_file_id"@.len() == 11);
}

/// The tag key of the encoded member reads back as its own tag.
pub proof fn lemma_inline_query_result_cached_gif_tag(m: InlineQueryResultCachedGifView)
    ensures
        sreq_str(senc_inline_query_result_cached_gif(m), "type"@) == Ok::<Seq<char>, DecodeErrorView>("gif"@),
{
    reveal_strlit("type");
    reveal_strlit("id");
    reveal_strlit("gif_file_id");
    reveal_strlit("gif");
    assert("type"@.len() == 4 && "id"@.len() == 2 && "gif_file_id"@.len() == 11);
}

} // verus!
