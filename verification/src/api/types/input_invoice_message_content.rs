use crate::errors::{DecodeError, DecodeErrorView};
use crate::json::{
    JsonSpec, JsonValue, push_str_field, req_str, res_view, sreq_str,
};
use vstd::prelude::*;

verus! {

/// The invoice content of a message to send.
#[derive(Debug, Clone, PartialEq)]
pub struct InputInvoiceMessageContent {
    pub title: String,
    pub description: String,
    pub payload: String,
    pub currency: String,
}

/// Mathematical image of `InputInvoiceMessageContent`.
#[verifier::ext_equal]
pub struct InputInvoiceMessageContentView {
    pub title: Seq<char>,
    pub description: Seq<char>,
    pub payload: Seq<char>,
    pub currency: Seq<char>,
}

impl View for InputInvoiceMessageContent {
    type V = InputInvoiceMessageContentView;

    open spec fn view(&self) -> InputInvoiceMessageContentView {
        InputInvoiceMessageContentView {
            title: self.title@,
            description: self.description@,
            payload: self.payload@,
            currency: self.currency@,
        }
    }
}

impl DeepView for InputInvoiceMessageContent {
    type V = InputInvoiceMessageContentView;

    open spec fn deep_view(&self) -> InputInvoiceMessageContentView {
        self.view()
    }
}

/// The object it serializes to.
pub open spec fn senc_input_invoice_message_content(m: InputInvoiceMessageContentView) -> JsonSpec {
    JsonSpec::Obj(Map::empty().insert("title"@, JsonSpec::Str(m.title)).insert("description"@, JsonSpec::Str(m.description)).insert("payload"@, JsonSpec::Str(m.payload)).insert("currency"@, JsonSpec::Str(m.currency)))
}

/// The value a tree decodes to.
pub open spec fn sdec_input_invoice_message_content(j: JsonSpec) -> Result<InputInvoiceMessageContentView, DecodeErrorView> {
    match sreq_str(j, "title"@) {
        Err(e) => Err(e),
        Ok(title) => {
            match sreq_str(j, "description"@) {
                Err(e) => Err(e),
                Ok(description) => {
                    match sreq_str(j, "payload"@) {
                        Err(e) => Err(e),
                        Ok(payload) => {
                            match sreq_str(j, "currency"@) {
                                Err(e) => Err(e),
                                Ok(currency) => {
                                    Ok(InputInvoiceMessageContentView { title, description, payload, currency })
                                },
                            }
                        },
                    }
                },
            }
        },
    }
}

pub fn encode_input_invoice_message_content(x: &InputInvoiceMessageContent) -> (r: JsonValue)
    ensures
        r@ == senc_input_invoice_message_content(x@),
{
    let mut pairs: Vec<(String, JsonValue)> = Vec::new();
    push_str_field(&mut pairs, "title", &x.title);
    push_str_field(&mut pairs, "description", &x.description);
    push_str_field(&mut pairs, "payload", &x.payload);
    push_str_field(&mut pairs, "currency", &x.currency);
    JsonValue::Obj(pairs)
}

pub fn decode_input_invoice_message_content(j: &JsonValue) -> (r: Result<InputInvoiceMessageContent, DecodeError>)
    ensures
        res_view(r) == sdec_input_invoice_message_content(j@),
{
    let title = match req_str(j, "title") {
        Ok(v) => v,
        Err(e) => {
            return Err(e);
        },
    };
    let description = match req_str(j, "description") {
        Ok(v) => v,
        Err(e) => {
            return Err(e);
        },
    };
    let payload = match req_str(j, "payload") {
        Ok(v) => v,
        Err(e) => {
            return Err(e);
        },
    };
    let currency = match req_str(j, "currency") {
        Ok(v) => v,
        Err(e) => {
            return Err(e);
        },
    };
    Ok(InputInvoiceMessageContent { title, description, payload, currency })
}

/// Decoding undoes encoding, for every value.
pub proof fn lemma_input_invoice_message_content_round_trip(m: InputInvoiceMessageContentView)
    ensures
        sdec_input_invoice_message_content(senc_input_invoice_message_content(m)) == Ok::<InputInvoiceMessageContentView, DecodeErrorView>(m),
{
    reveal_strlit("title");
    reveal_strlit("description");
    reveal_strlit("payload");
    reveal_strlit("currency");
    assert("title"@.len() == 5 && "description"@.len() == 11 && "payload"@.len() == 7 && "currency"@.len() == 8);
}

} // verus!
