use crate::errors::{DecodeError, DecodeErrorView};
use crate::json::{
    JsonSpec, JsonValue, push_field, push_str_field, req_str, res_view, sreq_str,
};
use vstd::prelude::*;
use vstd::string::StringExecFns;

verus! {

/// One kind of inline-query result, tagged `video` on the wire.
#[derive(Debug, Clone, PartialEq)]
pub struct InlineQueryResultVideo {
    pub id: String,
    pub video_url: String,
    pub title: String,
}

/// Mathematical image of `InlineQueryResultVideo`.
#[verifier::ext_equal]
pub struct InlineQueryResultVideoView {
    pub id: Seq<char>,
    pub video_url: Seq<char>,
    pub title: Seq<char>,
}

impl View for InlineQueryResultVideo {
    type V = InlineQueryResultVideoView;

    open spec fn view(&self) -> InlineQueryResultVideoView {
        InlineQueryResultVideoView {
            id: self.id@,
            video_url: self.video_url@,
            title: self.title@,
        }
    }
}

impl DeepView for InlineQueryResultVideo {
    type V = InlineQueryResultVideoView;

    open spec fn deep_view(&self) -> InlineQueryResultVideoView {
        self.view()
    }
}

/// The object it serializes to, tag included.
pub open spec fn senc_inline_query_result_video(m: InlineQueryResultVideoView) -> JsonSpec {
    JsonSpec::Obj(Map::empty().insert("type"@, JsonSpec::Str("video"@)).insert("id"@, JsonSpec::Str(m.id)).insert("video_url"@, JsonSpec::Str(m.video_url)).insert("title"@, JsonSpec::Str(m.title)))
}

/// The value a tree decodes to.
pub open spec fn sdec_inline_query_result_video(j: JsonSpec) -> Result<InlineQueryResultVideoView, DecodeErrorView> {
    match sreq_str(j, "id"@) {
        Err(e) => Err(e),
        Ok(id) => {
            match sreq_str(j, "video_url"@) {
                Err(e) => Err(e),
                Ok(video_url) => {
                    match sreq_str(j, "title"@) {
                        Err(e) => Err(e),
                        Ok(title) => {
                            Ok(InlineQueryResultVideoView { id, video_url, title })
                        },
                    }
                },
            }
        },
    }
}

pub fn encode_inline_query_result_video(x: &InlineQueryResultVideo) -> (r: JsonValue)
    ensures
        r@ == senc_inline_query_result_video(x@),
{
    let mut pairs: Vec<(String, JsonValue)> = Vec::new();
    push_field(&mut pairs, "type", JsonValue::Str(String::from_str("video")));
    push_str_field(&mut pairs, "id", &x.id);
    push_str_field(&mut pairs, "video_url", &x.video_url);
    push_str_field(&mut pairs, "title", &x.title);
    JsonValue::Obj(pairs)
}

pub fn decode_inline_query_result_video(j: &JsonValue) -> (r: Result<InlineQueryResultVideo, DecodeError>)
    ensures
        res_view(r) == sdec_inline_query_result_video(j@),
{
    let id = match req_str(j, "id") {
        Ok(v) => v,
        Err(e) => {
            return Err(e);
        },
    };
    let video_url = match req_str(j, "video_url") {
        Ok(v) => v,
        Err(e) => {
            return Err(e);
        },
    };
    let title = match req_str(j, "title") {
        Ok(v) => v,
        Err(e) => {
            return Err(e);
        },
    };
    Ok(InlineQueryResultVideo { id, video_url, title })
}

/// Decoding undoes encoding, for every value.
pub proof fn lemma_inline_query_result_video_round_trip(m: InlineQueryResultVideoView)
    ensures
        sdec_inline_query_result_video(senc_inline_query_result_video(m)) == Ok::<InlineQueryResultVideoView, DecodeErrorView>(m),
{
    reveal_strlit("type");
    reveal_strlit("id");
    reveal_strlit("video_url");
    reveal_strlit("title");
    assert("type"@.len() == 4 && "id"@.len() == 2 && "video_url"@.len() == 9 && "title"@.len() == 5);
}

/// The tag key of the encoded member reads back as its own tag.
pub proof fn lemma_inline_query_result_video_tag(m: InlineQueryResultVideoView)
    ensures
        sreq_str(senc_inline_query_result_video(m), "type"@) == Ok::<Seq<char>, DecodeErrorView>("video"@),
{
    reveal_strlit("type");
    reveal_strlit("id");
    reveal_strlit("video_url");
    reveal_strlit("title");
    reveal_strlit("video");
    assert("type"@.len() == 4 && "id"@.len() == 2 && "video_url"@.len() == 9 && "title"@.len() == 5);
}

} // verus!
