use crate::errors::{DecodeError, DecodeErrorView};
use crate::json::{
    JsonSpec, JsonValue, opt_str, opt_str_ins, push_opt_str_field, push_str_field, req_str, res_view, sopt_str, sreq_str,
};
use vstd::prelude::*;

verus! {

/// The text content of a message to send.
#[derive(Debug, Clone, PartialEq)]
pub struct InputTextMessageContent {
    pub message_text: String,
    pub parse_mode: Option<String>,
}

/// Mathematical image of `InputTextMessageContent`.
#[verifier::ext_equal]
pub struct InputTextMessageContentView {
    pub message_text: Seq<char>,
    pub parse_mode: Option<Seq<char>>,
}

impl View for InputTextMessageContent {
    type V = InputTextMessageContentView;

    open spec fn view(&self) -> InputTextMessageContentView {
        InputTextMessageContentView {
            message_text: self.message_text@,
            parse_mode: self.parse_mode.deep_view(),
        }
    }
}

impl DeepView for InputTextMessageContent {
    type V = InputTextMessageContentView;

    open spec fn deep_view(&self) -> InputTextMessageContentView {
        self.view()
    }
}

/// The object it serializes to; absent optionals leave no key.
pub open spec fn senc_input_text_message_content(m: InputTextMessageContentView) -> JsonSpec {
    let o = Map::empty().insert("message_text"@, JsonSpec::Str(m.message_text));
    let o = opt_str_ins(o, "parse_mode"@, m.parse_mode);
    JsonSpec::Obj(o)
}

/// The value a tree decodes to.
pub open spec fn sdec_input_text_message_content(j: JsonSpec) -> Result<InputTextMessageContentView, DecodeErrorView> {
    match sreq_str(j, "message_text"@) {
        Err(e) => Err(e),
        Ok(message_text) => {
            match sopt_str(j, "parse_mode"@) {
                Err(e) => Err(e),
                Ok(parse_mode) => {
                    Ok(InputTextMessageContentView { message_text, parse_mode })
                },
            }
        },
    }
}

pub fn encode_input_text_message_content(x: &InputTextMessageContent) -> (r: JsonValue)
    ensures
        r@ == senc_input_text_message_content(x@),
{
    let mut pairs: Vec<(String, JsonValue)> = Vec::new();
    push_str_field(&mut pairs, "message_text", &x.message_text);
    push_opt_str_field(&mut pairs, "parse_mode", &x.parse_mode);
    JsonValue::Obj(pairs)
}

pub fn decode_input_text_message_content(j: &JsonValue) -> (r: Result<InputTextMessageContent, DecodeError>)
    ensures
        res_view(r) == sdec_input_text_message_content(j@),
{
    let message_text = match req_str(j, "message_text") {
        Ok(v) => v,
        Err(e) => {
            return Err(e);
        },
    };
    let parse_mode = match opt_str(j, "parse_mode") {
        Ok(v) => v,
        Err(e) => {
            return Err(e);
        },
    };
    Ok(InputTextMessageContent { message_text, parse_mode })
}

/// Decoding undoes encoding, for every value.
pub proof fn lemma_input_text_message_content_round_trip(m: InputTextMessageContentView)
    ensures
        sdec_input_text_message_content(senc_input_text_message_content(m)) == Ok::<InputTextMessageContentView, DecodeErrorView>(m),
{
    broadcast use crate::json::group_json_ins;

    reveal_strlit("message_text");
    reveal_strlit("parse_mode");
    assert("message_text"@.len() == 12 && "parse_mode"@.len() == 10);
}

} // verus!
