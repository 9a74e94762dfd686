use crate::errors::{DecodeError, DecodeErrorView};
use crate::json::{
    JsonSpec, JsonValue, push_field, push_str_field, req_str, res_view, sreq_str,
};
use vstd::prelude::*;
use vstd::string::StringExecFns;

verus! {

/// One kind of inline-query result, tagged `video` on the wire.
#[derive(Debug, Clone, PartialEq)]
pub struct InlineQueryResultCachedVideo {
    pub id: String,
    pub video_file_id: String,
    pub title: String,
}

/// Mathematical image of `InlineQueryResultCachedVideo`.
#[verifier::ext_equal]
pub struct InlineQueryResultCachedVideoView {
    pub id: Seq<char>,
    pub video_file_id: Seq<char>,
    pub title: Seq<char>,
}

impl View for InlineQueryResultCachedVideo {
    type V = InlineQueryResultCachedVideoView;

    open spec fn view(&self) -> InlineQueryResultCachedVideoView {
        InlineQueryResultCachedVideoView {
            id: self.id@,
            video_file_id: self.video_file_id@,
            title: self.title@,
        }
    }
}

impl DeepView for InlineQueryResultCachedVideo {
    type V = InlineQueryResultCachedVideoView;

    open spec fn deep_view(&self) -> InlineQueryResultCachedVideoView {
        self.view()
    }
}

/// The object it serializes to, tag included.
pub open spec fn senc_inline_query_result_cached_video(m: InlineQueryResultCachedVideoView) -> JsonSpec {
    JsonSpec::Obj(Map::empty().insert("type"@, JsonSpec::Str("video"@)).insert("id"@, JsonSpec::Str(m.id)).insert("video_file_id"@, JsonSpec::Str(m.video_file_id)).insert("title"@, JsonSpec::Str(m.title)))
}

/// The value a tree decodes to.
pub open spec fn sdec_inline_query_result_cached_video(j: JsonSpec) -> Result<InlineQueryResultCachedVideoView, DecodeErrorView> {
    match sreq_str(j, "id"@) {
        Err(e) => Err(e),
        Ok(id) => {
            match sreq_str(j, "video_file_id"@) {
                Err(e) => Err(e),
                Ok(video_file_id) => {
                    match sreq_str(j, "title"@) {
                        Err(e) => Err(e),
                        Ok(title) => {
                            Ok(InlineQueryResultCachedVideoView { id, video_file_id, title })
                        },
                    }
                },
            }
        },
    }
}

pub fn encode_inline_query_result_cached_video(x: &InlineQueryResultCachedVideo) -> (r: JsonValue)
    ensures
        r@ == senc_inline_query_result_cached_video(x@),
{
    let mut pairs: Vec<(String, JsonValue)> = Vec::new();
    push_field(&mut pairs, "type", JsonValue::Str(String::from_str("video")));
    push_str_field(&mut pairs, "id", &x.id);
    push_str_field(&mut pairs, "video_file_id", &x.video_file_id);
    push_str_field(&mut pairs, "title", &x.title);
    JsonValue::Obj(pairs)
}

pub fn decode_inline_query_result_cached_video(j: &JsonValue) -> (r: Result<InlineQueryResultCachedVideo, DecodeError>)
    ensures
        res_view(r) == sdec_inline_query_result_cached_video(j@),
{
    let id = match req_str(j, "id") {
        Ok(v) => v,
        Err(e) => {
            return Err(e);
        },
    };
    let video_file_id = match req_str(j, "video_file_id") {
        Ok(v) => v,
        Err(e) => {
            return Err(e);
        },
    };
    let title = match req_str(j, "title") {
        Ok(v) => v,
        Err(e) => {
            return Err(e);
        },
    };
    Ok(InlineQueryResultCachedVideo { id, video_file_id, title })
}

/// Decoding undoes encoding, for every value.
pub proof fn lemma_inline_query_result_cached_video_round_trip(m: InlineQueryResultCachedVideoView)
    ensures
        sdec_inline_query_result_cached_video(senc_inline_query_result_cached_video(m)) == Ok::<InlineQueryResultCachedVideoView, DecodeErrorView>(m),
{
    reveal_strlit("type");
    reveal_strlit("id");
    reveal_strlit("video_file_id");
    reveal_strlit("title");
    assert("type"@.len() == 4 && "id"@.len() == 2 && "video_file_id"@.len() == 13 && "title"@.len() == 5);
}

/// The tag key of the encoded member reads back as its own tag.
pub proof fn lemma_inline_query_result_cached_video_tag(m: InlineQueryResultCachedVideoView)
    ensures
        sreq_str(senc_inline_query_result_cached_video(m), "type"@) == Ok::<Seq<char>, DecodeErrorView>("video"@),
{
    reveal_strlit("type");
    reveal_strlit("id");
    reveal_strlit("video_file_id");
    reveal_strlit("title");
    reveal_strlit("video");
    assert("type"@.len() == 4 && "id"@.len() == 2 && "video_file_id"@.len() == 13 && "title"@.len() == 5);
}

} // verus!
