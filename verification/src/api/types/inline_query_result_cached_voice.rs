use crate::errors::{DecodeError, DecodeErrorView};
use crate::json::{
    JsonSpec, JsonValue, push_field, push_str_field, req_str, res_view, sreq_str,
};
use vstd::prelude::*;
use vstd::string::StringExecFns;

verus! {

/// One kind of inline-query result, tagged `voice` on the wire.
#[derive(Debug, Clone, PartialEq)]
pub struct InlineQueryResultCachedVoice {
    pub id: String,
    pub voice_file_id: String,
    pub title: String,
}

/// Mathematical image of `InlineQueryResultCachedVoice`.
#[verifier::ext_equal]
pub struct InlineQueryResultCachedVoiceView {
    pub id: Seq<char>,
    pub voice_file_id: Seq<char>,
    pub title: Seq<char>,
}

impl View for InlineQueryResultCachedVoice {
    type V = InlineQueryResultCachedVoiceView;

    open spec fn view(&self) -> InlineQueryResultCachedVoiceView {
        InlineQueryResultCachedVoiceView {
            id: self.id@,
            voice_file_id: self.voice_file_id@,
            title: self.title@,
        }
    }
}

impl DeepView for InlineQueryResultCachedVoice {
    type V = InlineQueryResultCachedVoiceView;

    open spec fn deep_view(&self) -> InlineQueryResultCachedVoiceView {
        self.view()
    }
}

/// The object it serializes to, tag included.
pub open spec fn senc_inline_query_result_cached_voice(m: InlineQueryResultCachedVoiceView) -> JsonSpec {
    JsonSpec::Obj(Map::empty().insert("type"@, JsonSpec::Str("voice"@)).insert("id"@, JsonSpec::Str(m.id)).insert("voice_file_id"@, JsonSpec::Str(m.voice_file_id)).insert("title"@, JsonSpec::Str(m.title)))
}

/// The value a tree decodes to.
pub open spec fn sdec_inline_query_result_cached_voice(j: JsonSpec) -> Result<InlineQueryResultCachedVoiceView, DecodeErrorView> {
    match sreq_str(j, "id"@) {
        Err(e) => Err(e),
        Ok(id) => {
            match sreq_str(j, "voice_file_id"@) {
                Err(e) => Err(e),
                Ok(voice_file_id) => {
                    match sreq_str(j, "title"@) {
                        Err(e) => Err(e),
                        Ok(title) => {
                            Ok(InlineQueryResultCachedVoiceView { id, voice_file_id, title })
                        },
                    }
                },
            }
        },
    }
}

pub fn encode_inline_query_result_cached_voice(x: &InlineQueryResultCachedVoice) -> (r: JsonValue)
    ensures
        r@ == senc_inline_query_result_cached_voice(x@),
{
    let mut pairs: Vec<(String, JsonValue)> = Vec::new();
    push_field(&mut pairs, "type", JsonValue::Str(String::from_str("voice")));
    push_str_field(&mut pairs, "id", &x.id);
    push_str_field(&mut pairs, "voice_file_id", &x.voice_file_id);
    push_str_field(&mut pairs, "title", &x.title);
    JsonValue::Obj(pairs)
}

pub fn decode_inline_query_result_cached_voice(j: &JsonValue) -> (r: Result<InlineQueryResultCachedVoice, DecodeError>)
    ensures
        res_view(r) == sdec_inline_query_result_cached_voice(j@),
{
    let id = match req_str(j, "id") {
        Ok(v) => v,
        Err(e) => {
            return Err(e);
        },
    };
    let voice_file_id = match req_str(j, "voice_file_id") {
        Ok(v) => v,
        Err(e) => {
            return Err(e);
        },
    };
    let title = match req_str(j, "title") {
        Ok(v) => v,
        Err(e) => {
            return Err(e);
        },
    };
    Ok(InlineQueryResultCachedVoice { id, voice_file_id, title })
}

/// Decoding undoes encoding, for every value.
pub proof fn lemma_inline_query_result_cached_voice_round_trip(m: InlineQueryResultCachedVoiceView)
    ensures
        sdec_inline_query_result_cached_voice(senc_inline_query_result_cached_voice(m)) == Ok::<InlineQueryResultCachedVoiceView, DecodeErrorView>(m),
{
    reveal_strlit("type");
    reveal_strlit("id");
    reveal_strlit("voice_file_id");
    reveal_strlit("title");
    assert("type"@.len() == 4 && "id"@.len() == 2 && "voice_file_id"@.len() == 13 && "title"@.len() == 5);
}

/// The tag key of the encoded member reads back as its own tag.
pub proof fn lemma_inline_query_result_cached_voice_tag(m: InlineQueryResultCachedVoiceView)
    ensures
        sreq_str(senc_inline_query_result_cached_voice(m), "type"@) == Ok::<Seq<char>, DecodeErrorView>("voice"@),
{
    reveal_strlit("type");
    reveal_strlit("id");
    reveal_strlit("voice_file_id");
    reveal_strlit("title");
    reveal_strlit("voice");
    assert("type"@.len() == 4 && "id"@.len() == 2 && "voice_file_id"@.len() == 13 && "title"@.len() == 5);
}

} // verus!
