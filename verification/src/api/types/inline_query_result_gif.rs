use crate::errors::{DecodeError, DecodeErrorView};
use crate::json::{
    JsonSpec, JsonValue, push_field, push_str_field, req_str, res_view, sreq_str,
};
use vstd::prelude::*;
use vstd::string::StringExecFns;

verus! {

/// One kind of inline-query result, tagged `gif` on the wire.
#[derive(Debug, Clone, PartialEq)]
pub struct InlineQueryResultGif {
    pub id: String,
    pub gif_url: String,
    pub thumbnail_url: String,
}

/// Mathematical image of `InlineQueryResultGif`.
#[verifier::ext_equal]
pub struct InlineQueryResultGifView {
    pub id: Seq<char>,
    pub gif_url: Seq<char>,
    pub thumbnail_url: Seq<char>,
}

impl View for InlineQueryResultGif {
    type V = InlineQueryResultGifView;

    open spec fn view(&self) -> InlineQueryResultGifView {
        InlineQueryResultGifView {
            id: self.id@,
            gif_url: self.gif_url@,
            thumbnail_url: self.thumbnail_url@,
        }
    }
}

impl DeepView for InlineQueryResultGif {
    type V = InlineQueryResultGifView;

    open spec fn deep_view(&self) -> InlineQueryResultGifView {
        self.view()
    }
}

/// The object it serializes to, tag included.
pub open spec fn senc_inline_query_result_gif(m: InlineQueryResultGifView) -> JsonSpec {
    JsonSpec::Obj(Map::empty().insert("type"@, JsonSpec::Str("gif"@)).insert("id"@, JsonSpec::Str(m.id)).insert("gif_url"@, JsonSpec::Str(m.gif_url)).insert("thumbnail_url"@, JsonSpec::Str(m.thumbnail_url)))
}

/// The value a tree decodes to.
pub open spec fn sdec_inline_query_result_gif(j: JsonSpec) -> Result<InlineQueryResultGifView, DecodeErrorView> {
    match sreq_str(j, "id"@) {
        Err(e) => Err(e),
        Ok(id) => {
            match sreq_str(j, "gif_url"@) {
                Err(e) => Err(e),
                Ok(gif_url) => {
                    match sreq_str(j, "thumbnail_url"@) {
                        Err(e) => Err(e),
                        Ok(thumbnail_url) => {
                            Ok(InlineQueryResultGifView { id, gif_url, thumbnail_url })
                        },
                    }
                },
            }
        },
    }
}

pub fn encode_inline_query_result_gif(x: &InlineQueryResultGif) -> (r: JsonValue)
    ensures
        r@ == senc_inline_query_result_gif(x@),
{
    let mut pairs: Vec<(String, JsonValue)> = Vec::new();
    push_field(&mut pairs, "type", JsonValue::Str(String::from_str("gif")));
    push_str_field(&mut pairs, "id", &x.id);
    push_str_field(&mut pairs, "gif_url", &x.gif_url);
    push_str_field(&mut pairs, "thumbnail_url", &x.thumbnail_url);
    JsonValue::Obj(pairs)
}

pub fn decode_inline_query_result_gif(j: &JsonValue) -> (r: Result<InlineQueryResultGif, DecodeError>)
    ensures
        res_view(r) == sdec_inline_query_result_gif(j@),
{
    let id = match req_str(j, "id") {
        Ok(v) => v,
        Err(e) => {
            return Err(e);
        },
    };
    let gif_url = match req_str(j, "gif_url") {
        Ok(v) => v,
        Err(e) => {
            return Err(e);
        },
    };
    let thumbnail_url = match req_str(j, "thumbnail_url") {
        Ok(v) => v,
        Err(e) => {
            return Err(e);
        },
    };
    Ok(InlineQueryResultGif { id, gif_url, thumbnail_url })
}

/// Decoding undoes encoding, for every value.
pub proof fn lemma_inline_query_result_gif_round_trip(m: InlineQueryResultGifView)
    ensures
        sdec_inline_query_result_gif(senc_inline_query_result_gif(m)) == Ok::<InlineQueryResultGifView, DecodeErrorView>(m),
{
    reveal_strlit("type");
    reveal_strlit("id");
    reveal_strlit("gif_url");
    reveal_strlit("thumbnail_url");
    assert("type"@.len() == 4 && "id"@.len() == 2 && "gif_url"@.len() == 7 && "thumbnail_url"@.len() == 13);
}

/// The tag key of the encoded member reads back as its own tag.
pub proof fn lemma_inline_query_result_gif_tag(m: InlineQueryResultGifView)
    ensures
        sreq_str(senc_inline_query_result_gif(m), "type"@) == Ok::<Seq<char>, DecodeErrorView>("gif"@),
{
    reveal_strlit("type");
    reveal_strlit("id");
    reveal_strlit("gif_url");
    reveal_strlit("thumbnail_url");
    reveal_strlit("gif");
    assert("type"@.len() == 4 && "id"@.len() == 2 && "gif_url"@.len() == 7 && "thumbnail_url"@.len() == 13);
}

} // verus!
