use crate::errors::{DecodeError, DecodeErrorView};
use crate::json::{
    JsonSpec, JsonValue, push_field, push_str_field, req_str, res_view, sreq_str,
};
use vstd::prelude::*;
use vstd::string::StringExecFns;

verus! {

/// One kind of inline-query result, tagged `sticker` on the wire.
#[derive(Debug, Clone, PartialEq)]
pub struct InlineQueryResultCachedSticker {
    pub id: String,
    pub sticker_file_id: String,
}

/// Mathematical image of `InlineQueryResultCachedSticker`.
#[verifier::ext_equal]
pub struct InlineQueryResultCachedStickerView {
    pub id: Seq<char>,
    pub sticker_file_id: Seq<char>,
}

impl View for InlineQueryResultCachedSticker {
    type V = InlineQueryResultCachedStickerView;

    open spec fn view(&self) -> InlineQueryResultCachedStickerView {
        InlineQueryResultCachedStickerView {
            id: self.id@,
            sticker_file_id: self.sticker_file_id@,
        }
    }
}

impl DeepView for InlineQueryResultCachedSticker {
    type V = InlineQueryResultCachedStickerView;

    open spec fn deep_view(&self) -> InlineQueryResultCachedStickerView {
        self.view()
    }
}

/// The object it serializes to, tag included.
pub open spec fn senc_inline_query_result_cached_sticker(m: InlineQueryResultCachedStickerView) -> JsonSpec {
    JsonSpec::Obj(Map::empty().insert("type"@, JsonSpec::Str("sticker"@)).insert("id"@, JsonSpec::Str(m.id)).insert("sticker_file_id"@, JsonSpec::Str(m.sticker_file_id)))
}

/// The value a tree decodes to.
pub open spec fn sdec_inline_query_result_cached_sticker(j: JsonSpec) -> Result<InlineQueryResultCachedStickerView, DecodeErrorView> {
    match sreq_str(j, "id"@) {
        Err(e) => Err(e),
        Ok(id) => {
            match sreq_str(j, "sticker_file_id"@) {
                Err(e) => Err(e),
                Ok(sticker_file_id) => {
                    Ok(InlineQueryResultCachedStickerView { id, sticker_file_id })
                },
            }
        },
    }
}

pub fn encode_inline_query_result_cached_sticker(x: &InlineQueryResultCachedSticker) -> (r: JsonValue)
    ensures
        r@ == senc_inline_query_result_cached_sticker(x@),
{
    let mut pairs: Vec<(String, JsonValue)> = Vec::new();
    push_field(&mut pairs, "type", JsonValue::Str(String::from_str("sticker")));
    push_str_field(&mut pairs, "id", &x.id);
    push_str_field(&mut pairs, "sticker_file_id", &x.sticker_file_id);
    JsonValue::Obj(pairs)
}

pub fn decode_inline_query_result_cached_sticker(j: &JsonValue) -> (r: Result<InlineQueryResultCachedSticker, DecodeError>)
    ensures
        res_view(r) == sdec_inline_query_result_cached_sticker(j@),
{
    let id = match req_str(j, "id") {
        Ok(v) => v,
        Err(e) => {
            return Err(e);
        },
    };
    let sticker_file_id = match req_str(j, "sticker_file_id") {
        Ok(v) => v,
        Err(e) => {
            return Err(e);
        },
    };
    Ok(InlineQueryResultCachedSticker { id, sticker_file_id })
}

/// Decoding undoes encoding, for every value.
pub proof fn lemma_inline_query_result_cached_sticker_round_trip(m: InlineQueryResultCachedStickerView)
    ensures
        sdec_inline_query_result_cached_sticker(senc_inline_query_result_cached_sticker(m)) == Ok::<InlineQueryResultCachedStickerView, DecodeErrorView>(m),
{
    reveal_strlit("type");
    reveal_strlit("id");
    reveal_strlit("sticker_file_id");
    assert("type"@.len() == 4 && "id"@.len() == 2 && "sticker_file_id"@.len() == 15);
}

/// The tag key of the encoded member reads back as its own tag.
pub proof fn lemma_inline_query_result_cached_sticker_tag(m: InlineQueryResultCachedStickerView)
    ensures
        sreq_str(senc_inline_query_result_cached_sticker(m), "type"@) == Ok::<Seq<char>, DecodeErrorView>("sticker"@),
{
    reveal_strlit("type");
    reveal_strlit("id");
    reveal_strlit("sticker_file_id");
    reveal_strlit("sticker");
    assert("type"@.len() == 4 && "id"@.len() == 2 && "sticker_file_id"@.len() == 15);
}

} // verus!
