use crate::errors::{DecodeError, DecodeErrorView};
use crate::json::{
    JsonSpec, JsonValue, push_field, push_str_field, req_str, res_view, sreq_str,
};
use vstd::prelude::*;
use vstd::string::StringExecFns;

verus! {

/// One kind of inline-query result, tagged `audio` on the wire.
#[derive(Debug, Clone, PartialEq)]
pub struct InlineQueryResultCachedAudio {
    pub id: String,
    pub audio_file_id: String,
}

/// Mathematical image of `InlineQueryResultCachedAudio`.
#[verifier::ext_equal]
pub struct InlineQueryResultCachedAudioView {
    pub id: Seq<char>,
    pub audio_file_id: Seq<char>,
}

impl View for InlineQueryResultCachedAudio {
    type V = InlineQueryResultCachedAudioView;

    open spec fn view(&self) -> InlineQueryResultCachedAudioView {
        InlineQueryResultCachedAudioView {
            id: self.id@,
            audio_file_id: self.audio_file_id@,
        }
    }
}

impl DeepView for InlineQueryResultCachedAudio {
    type V = InlineQueryResultCachedAudioView;

    open spec fn deep_view(&self) -> InlineQueryResultCachedAudioView {
        self.view()
    }
}

/// The object it serializes to, tag included.
pub open spec fn senc_inline_query_result_cached_audio(m: InlineQueryResultCachedAudioView) -> JsonSpec {
    JsonSpec::Obj(Map::empty().insert("type"@, JsonSpec::Str("audio"@)).insert("id"@, JsonSpec::Str(m.id)).insert("audio_file_id"@, JsonSpec::Str(m.audio_file_id)))
}

/// The value a tree decodes to.
pub open spec fn sdec_inline_query_result_cached_audio(j: JsonSpec) -> Result<InlineQueryResultCachedAudioView, DecodeErrorView> {
    match sreq_str(j, "id"@) {
        Err(e) => Err(e),
        Ok(id) => {
            match sreq_str(j, "audio_file_id"@) {
                Err(e) => Err(e),
                Ok(audio_file_id) => {
                    Ok(InlineQueryResultCachedAudioView { id, audio_file_id })
                },
            }
        },
    }
}

pub fn encode_inline_query_result_cached_audio(x: &InlineQueryResultCachedAudio) -> (r: JsonValue)
    ensures
        r@ == senc_inline_query_result_cached_audio(x@),
{
    let mut pairs: Vec<(String, JsonValue)> = Vec::new();
    push_field(&mut pairs, "type", JsonValue::Str(String::from_str("audio")));
    push_str_field(&mut pairs, "id", &x.id);
    push_str_field(&mut pairs, "audio_file_id", &x.audio_file_id);
    JsonValue::Obj(pairs)
}

pub fn decode_inline_query_result_cached_audio(j: &JsonValue) -> (r: Result<InlineQueryResultCachedAudio, DecodeError>)
    ensures
        res_view(r) == sdec_inline_query_result_cached_audio(j@),
{
    let id = match req_str(j, "id") {
        Ok(v) => v,
        Err(e) => {
            return Err(e);
        },
    };
    let audio_file_id = match req_str(j, "audio_file_id") {
        Ok(v) => v,
        Err(e) => {
            return Err(e);
        },
    };
    Ok(InlineQueryResultCachedAudio { id, audio_file_id })
}

/// Decoding undoes encoding, for every value.
pub proof fn lemma_inline_query_result_cached_audio_round_trip(m: InlineQueryResultCachedAudioView)
    ensures
        sdec_inline_query_result_cached_audio(senc_inline_query_result_cached_audio(m)) == Ok::<InlineQueryResultCachedAudioView, DecodeErrorView>(m),
{
    reveal_strlit("type");
    reveal_strlit("id");
    reveal_strlit("audio_file_id");
    assert("type"@.len() == 4 && "id"@.len() == 2 && "audio_file_id"@.len() == 13);
}

/// The tag key of the encoded member reads back as its own tag.
pub proof fn lemma_inline_query_result_cached_audio_tag(m: InlineQueryResultCachedAudioView)
    ensures
        sreq_str(senc_inline_query_result_cached_audio(m), "type"@) == Ok::<Seq<char>, DecodeErrorView>("audio"@),
{
    reveal_strlit("type");
    reveal_strlit("id");
    reveal_strlit("audio_file_id");
    reveal_strlit("audio");
    assert("type"@.len() == 4 && "id"@.len() == 2 && "audio_file_id"@.len() == 13);
}

} // verus!
