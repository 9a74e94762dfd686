use crate::errors::{DecodeError, DecodeErrorView};
use crate::json::{
    JsonSpec, JsonValue, push_field, push_str_field, req_str, res_view, sreq_str,
};
use vstd::prelude::*;
use vstd::string::StringExecFns;

verus! {

/// One kind of inline-query result, tagged `voice` on the wire.
#[derive(Debug, Clone, PartialEq)]
pub struct InlineQueryResultVoice {
    pub id: String,
    pub voice_url: String,
    pub title: String,
}

/// Mathematical image of `InlineQueryResultVoice`.
#[verifier::ext_equal]
pub struct InlineQueryResultVoiceView {
    pub id: Seq<char>,
    pub voice_url: Seq<char>,
    pub title: Seq<char>,
}

impl View for InlineQueryResultVoice {
    type V = InlineQueryResultVoiceView;

    open spec fn view(&self) -> InlineQueryResultVoiceView {
        InlineQueryResultVoiceView {
            id: self.id@,
            voice_url: self.voice_url@,
            title: self.title@,
        }
    }
}

impl DeepView for InlineQueryResultVoice {
    type V = InlineQueryResultVoiceView;

    open spec fn deep_view(&self) -> InlineQueryResultVoiceView {
        self.view()
    }
}

/// The object it serializes to, tag included.
pub open spec fn senc_inline_query_result_voice(m: InlineQueryResultVoiceView) -> JsonSpec {
    JsonSpec::Obj(Map::empty().insert("type"@, JsonSpec::Str("voice"@)).insert("id"@, JsonSpec::Str(m.id)).insert("voice_url"@, JsonSpec::Str(m.voice_url)).insert("title"@, JsonSpec::Str(m.title)))
}

/// The value a tree decodes to.
pub open spec fn sdec_inline_query_result_voice(j: JsonSpec) -> Result<InlineQueryResultVoiceView, DecodeErrorView> {
    match sreq_str(j, "id"@) {
        Err(e) => Err(e),
        Ok(id) => {
            match sreq_str(j, "voice_url"@) {
                Err(e) => Err(e),
                Ok(voice_url) => {
                    match sreq_str(j, "title"@) {
                        Err(e) => Err(e),
                        Ok(title) => {
                            Ok(InlineQueryResultVoiceView { id, voice_url, title })
                        },
                    }
                },
            }
        },
    }
}

pub fn encode_inline_query_result_voice(x: &InlineQueryResultVoice) -> (r: JsonValue)
    ensures
        r@ == senc_inline_query_result_voice(x@),
{
    let mut pairs: Vec<(String, JsonValue)> = Vec::new();
    push_field(&mut pairs, "type", JsonValue::Str(String::from_str("voice")));
    push_str_field(&mut pairs, "id", &x.id);
    push_str_field(&mut pairs, "voice_url", &x.voice_url);
    push_str_field(&mut pairs, "title", &x.title);
    JsonValue::Obj(pairs)
}

pub fn decode_inline_query_result_voice(j: &JsonValue) -> (r: Result<InlineQueryResultVoice, DecodeError>)
    ensures
        res_view(r) == sdec_inline_query_result_voice(j@),
{
    let id = match req_str(j, "id") {
        Ok(v) => v,
        Err(e) => {
            return Err(e);
        },
    };
    let voice_url = match req_str(j, "voice_url") {
        Ok(v) => v,
        Err(e) => {
            return Err(e);
        },
    };
    let title = match req_str(j, "title") {
        Ok(v) => v,
        Err(e) => {
            return Err(e);
        },
    };
    Ok(InlineQueryResultVoice { id, voice_url, title })
}

/// Decoding undoes encoding, for every value.
pub proof fn lemma_inline_query_result_voice_round_trip(m: InlineQueryResultVoiceView)
    ensures
        sdec_inline_query_result_voice(senc_inline_query_result_voice(m)) == Ok::<InlineQueryResultVoiceView, DecodeErrorView>(m),
{
    reveal_strlit("type");
    reveal_strlit("id");
    reveal_strlit("voice_url");
    reveal_strlit("title");
    assert("type"@.len() == 4 && "id"@.len() == 2 && "voice_url"@.len() == 9 && "title"@.len() == 5);
}

/// The tag key of the encoded member reads back as its own tag.
pub proof fn lemma_inline_query_result_voice_tag(m: InlineQueryResultVoiceView)
    ensures
        sreq_str(senc_inline_query_result_voice(m), "type"@) == Ok::<Seq<char>, DecodeErrorView>("voice"@),
{
    reveal_strlit("type");
    reveal_strlit("id");
    reveal_strlit("voice_url");
    reveal_strlit("title");
    reveal_strlit("voice");
    assert("type"@.len() == 4 && "id"@.len() == 2 && "voice_url"@.len() == 9 && "title"@.len() == 5);
}

} // verus!
