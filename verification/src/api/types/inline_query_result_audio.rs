use crate::errors::{DecodeError, DecodeErrorView};
use crate::json::{
    JsonSpec, JsonValue, push_field, push_str_field, req_str, res_view, sreq_str,
};
use vstd::prelude::*;
use vstd::string::StringExecFns;

verus! {

/// One kind of inline-query result, tagged `audio` on the wire.
#[derive(Debug, Clone, PartialEq)]
pub struct InlineQueryResultAudio {
    pub id: String,
    pub audio_url: String,
    pub title: String,
}

/// Mathematical image of `InlineQueryResultAudio`.
#[verifier::ext_equal]
pub struct InlineQueryResultAudioView {
    pub id: Seq<char>,
    pub audio_url: Seq<char>,
    pub title: Seq<char>,
}

impl View for InlineQueryResultAudio {
    type V = InlineQueryResultAudioView;

    open spec fn view(&self) -> InlineQueryResultAudioView {
        InlineQueryResultAudioView {
            id: self.id@,
            audio_url: self.audio_url@,
            title: self.title@,
        }
    }
}

impl DeepView for InlineQueryResultAudio {
    type V = InlineQueryResultAudioView;

    open spec fn deep_view(&self) -> InlineQueryResultAudioView {
        self.view()
    }
}

/// The object it serializes to, tag included.
pub open spec fn senc_inline_query_result_audio(m: InlineQueryResultAudioView) -> JsonSpec {
    JsonSpec::Obj(Map::empty().insert("type"@, JsonSpec::Str("audio"@)).insert("id"@, JsonSpec::Str(m.id)).insert("audio_url"@, JsonSpec::Str(m.audio_url)).insert("title"@, JsonSpec::Str(m.title)))
}

/// The value a tree decodes to.
pub open spec fn sdec_inline_query_result_audio(j: JsonSpec) -> Result<InlineQueryResultAudioView, DecodeErrorView> {
    match sreq_str(j, "id"@) {
        Err(e) => Err(e),
        Ok(id) => {
            match sreq_str(j, "audio_url"@) {
                Err(e) => Err(e),
                Ok(audio_url) => {
                    match sreq_str(j, "title"@) {
                        Err(e) => Err(e),
                        Ok(title) => {
                            Ok(InlineQueryResultAudioView { id, audio_url, title })
                        },
                    }
                },
            }
        },
    }
}

pub fn encode_inline_query_result_audio(x: &InlineQueryResultAudio) -> (r: JsonValue)
    ensures
        r@ == senc_inline_query_result_audio(x@),
{
    let mut pairs: Vec<(String, JsonValue)> = Vec::new();
    push_field(&mut pairs, "type", JsonValue::Str(String::from_str("audio")));
    push_str_field(&mut pairs, "id", &x.id);
    push_str_field(&mut pairs, "audio_url", &x.audio_url);
    push_str_field(&mut pairs, "title", &x.title);
    JsonValue::Obj(pairs)
}

pub fn decode_inline_query_result_audio(j: &JsonValue) -> (r: Result<InlineQueryResultAudio, DecodeError>)
    ensures
        res_view(r) == sdec_inline_query_result_audio(j@),
{
    let id = match req_str(j, "id") {
        Ok(v) => v,
        Err(e) => {
            return Err(e);
        },
    };
    let audio_url = match req_str(j, "audio_url") {
        Ok(v) => v,
        Err(e) => {
            return Err(e);
        },
    };
    let title = match req_str(j, "title") {
        Ok(v) => v,
        Err(e) => {
            return Err(e);
        },
    };
    Ok(InlineQueryResultAudio { id, audio_url, title })
}

/// Decoding undoes encoding, for every value.
pub proof fn lemma_inline_query_result_audio_round_trip(m: InlineQueryResultAudioView)
    ensures
        sdec_inline_query_result_audio(senc_inline_query_result_audio(m)) == Ok::<InlineQueryResultAudioView, DecodeErrorView>(m),
{
    reveal_strlit("type");
    reveal_strlit("id");
    reveal_strlit("audio_url");
    reveal_strlit("title");
    assert("type"@.len() == 4 && "id"@.len() == 2 && "audio_url"@.len() == 9 && "title"@.len() == 5);
}

/// The tag key of the encoded member reads back as its own tag.
pub proof fn lemma_inline_query_result_audio_tag(m: InlineQueryResultAudioView)
    ensures
        sreq_str(senc_inline_query_result_audio(m), "type"@) == Ok::<Seq<char>, DecodeErrorView>("audio"@),
{
    reveal_strlit("type");
    reveal_strlit("id");
    reveal_strlit("audio_url");
    reveal_strlit("title");
    reveal_strlit("audio");
    assert("type"@.len() == 4 && "id"@.len() == 2 && "audio_url"@.len() == 9 && "title"@.len() == 5);
}

} // verus!
