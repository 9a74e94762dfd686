use crate::errors::{DecodeError, DecodeErrorView};
use crate::json::{
    JsonSpec, JsonValue, push_str_field, req_str, res_view, sreq_str,
};
use vstd::prelude::*;

verus! {

/// The contact content of a message to send.
#[derive(Debug, Clone, PartialEq)]
pub struct InputContactMessageContent {
    pub phone_number: String,
    pub first_name: String,
}

/// Mathematical image of `InputContactMessageContent`.
#[verifier::ext_equal]
pub struct InputContactMessageContentView {
    pub phone_number: Seq<char>,
    pub first_name: Seq<char>,
}

impl View for InputContactMessageContent {
    type V = InputContactMessageContentView;

    open spec fn view(&self) -> InputContactMessageContentView {
        InputContactMessageContentView {
            phone_number: self.phone_number@,
            first_name: self.first_name@,
        }
    }
}

impl DeepView for InputContactMessageContent {
    type V = InputContactMessageContentView;

    open spec fn deep_view(&self) -> InputContactMessageContentView {
        self.view()
    }
}

/// The object it serializes to.
pub open spec fn senc_input_contact_message_content(m: InputContactMessageContentView) -> JsonSpec {
    JsonSpec::Obj(Map::empty().insert("phone_number"@, JsonSpec::Str(m.phone_number)).insert("first_name"@, JsonSpec::Str(m.first_name)))
}

/// The value a tree decodes to.
pub open spec fn sdec_input_contact_message_content(j: JsonSpec) -> Result<InputContactMessageContentView, DecodeErrorView> {
    match sreq_str(j, "phone_number"@) {
        Err(e) => Err(e),
        Ok(phone_number) => {
            match sreq_str(j, "first_name"@) {
                Err(e) => Err(e),
                Ok(first_name) => {
                    Ok(InputContactMessageContentView { phone_number, first_name })
                },
            }
        },
    }
}

pub fn encode_input_contact_message_content(x: &InputContactMessageContent) -> (r: JsonValue)
    ensures
        r@ == senc_input_contact_message_content(x@),
{
    let mut pairs: Vec<(String, JsonValue)> = Vec::new();
    push_str_field(&mut pairs, "phone_number", &x.phone_number);
    push_str_field(&mut pairs, "first_name", &x.first_name);
    JsonValue::Obj(pairs)
}

pub fn decode_input_contact_message_content(j: &JsonValue) -> (r: Result<InputContactMessageContent, DecodeError>)
    ensures
        res_view(r) == sdec_input_contact_message_content(j@),
{
    let phone_number = match req_str(j, "phone_number") {
        Ok(v) => v,
        Err(e) => {
            return Err(e);
        },
    };
    let first_name = match req_str(j, "first_name") {
        Ok(v) => v,
        Err(e) => {
            return Err(e);
        },
    };
    Ok(InputContactMessageContent { phone_number, first_name })
}

/// Decoding undoes encoding, for every value.
pub proof fn lemma_input_contact_message_content_round_trip(m: InputContactMessageContentView)
    ensures
        sdec_input_contact_message_content(senc_input_contact_message_content(m)) == Ok::<InputContactMessageContentView, DecodeErrorView>(m),
{
    reveal_strlit("phone_number");
    reveal_strlit("first_name");
    assert("phone_number"@.len() == 12 && "first_name"@.len() == 10);
}

} // verus!
