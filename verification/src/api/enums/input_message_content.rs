use crate::api::types::input_text_message_content::{
    decode_input_text_message_content, encode_input_text_message_content, lemma_input_text_message_content_round_trip,
    sdec_input_text_message_content, senc_input_text_message_content, InputTextMessageContent, InputTextMessageContentView,
};
use crate::api::types::input_location_message_content::{
    decode_input_location_message_content, encode_input_location_message_content, lemma_input_location_message_content_round_trip,
    sdec_input_location_message_content, senc_input_location_message_content, InputLocationMessageContent,
};
use crate::api::types::input_venue_message_content::{
    decode_input_venue_message_content, encode_input_venue_message_content, lemma_input_venue_message_content_round_trip,
    sdec_input_venue_message_content, senc_input_venue_message_content, InputVenueMessageContent, InputVenueMessageContentView,
};
use crate::api::types::input_contact_message_content::{
    decode_input_contact_message_content, encode_input_contact_message_content, lemma_input_contact_message_content_round_trip,
    sdec_input_contact_message_content, senc_input_contact_message_content, InputContactMessageContent, InputContactMessageContentView,
};
use crate::api::types::input_invoice_message_content::{
    decode_input_invoice_message_content, encode_input_invoice_message_content, lemma_input_invoice_message_content_round_trip,
    sdec_input_invoice_message_content, senc_input_invoice_message_content, InputInvoiceMessageContent, InputInvoiceMessageContentView,
};
use crate::errors::{DecodeError, DecodeErrorView};
use crate::json::{res_view, JsonSpec, JsonValue};
use vstd::prelude::*;
use vstd::string::StringExecFns;

verus! {

/// The content of a message to be sent: a closed family with no wire
/// tag. A payload is resolved by trying each member in the declared
/// order and keeping the first that decodes; that order is the
/// tie-break rule for payloads matching more than one member.
#[derive(Debug, Clone, PartialEq)]
pub enum InputMessageContent {
    InputTextMessageContent(InputTextMessageContent),
    InputLocationMessageContent(InputLocationMessageContent),
    InputVenueMessageContent(InputVenueMessageContent),
    InputContactMessageContent(InputContactMessageContent),
    InputInvoiceMessageContent(InputInvoiceMessageContent),
}

/// Mathematical image of `InputMessageContent`.
#[verifier::ext_equal]
pub enum InputMessageContentView {
    InputTextMessageContent(InputTextMessageContentView),
    InputLocationMessageContent(InputLocationMessageContent),
    InputVenueMessageContent(InputVenueMessageContentView),
    InputContactMessageContent(InputContactMessageContentView),
    InputInvoiceMessageContent(InputInvoiceMessageContentView),
}

impl View for InputMessageContent {
    type V = InputMessageContentView;

    open spec fn view(&self) -> InputMessageContentView {
        match self {
            InputMessageContent::InputTextMessageContent(v) => {
                InputMessageContentView::InputTextMessageContent(v@)
            },
            InputMessageContent::InputLocationMessageContent(v) => {
                InputMessageContentView::InputLocationMessageContent(v@)
            },
            InputMessageContent::InputVenueMessageContent(v) => {
                InputMessageContentView::InputVenueMessageContent(v@)
            },
            InputMessageContent::InputContactMessageContent(v) => {
                InputMessageContentView::InputContactMessageContent(v@)
            },
            InputMessageContent::InputInvoiceMessageContent(v) => {
                InputMessageContentView::InputInvoiceMessageContent(v@)
            },
        }
    }
}

impl DeepView for InputMessageContent {
    type V = InputMessageContentView;

    open spec fn deep_view(&self) -> InputMessageContentView {
        self.view()
    }
}

/// The member a content value serializes as; no tag is added.
pub open spec fn senc_input_message_content(m: InputMessageContentView) -> JsonSpec {
    match m {
        InputMessageContentView::InputTextMessageContent(v) => senc_input_text_message_content(v),
        InputMessageContentView::InputLocationMessageContent(v) => senc_input_location_message_content(v),
        InputMessageContentView::InputVenueMessageContent(v) => senc_input_venue_message_content(v),
        InputMessageContentView::InputContactMessageContent(v) => senc_input_contact_message_content(v),
        InputMessageContentView::InputInvoiceMessageContent(v) => senc_input_invoice_message_content(v),
    }
}

/// Resolves an untagged payload: the first member in declared order
/// that decodes is the result; a payload matching none is an error
/// naming the family.
pub open spec fn sdec_input_message_content(j: JsonSpec) -> Result<
    InputMessageContentView,
    DecodeErrorView,
> {
    match sdec_input_text_message_content(j) {
        Ok(v) => Ok(InputMessageContentView::InputTextMessageContent(v)),
        Err(_) => {
        match sdec_input_location_message_content(j) {
            Ok(v) => Ok(InputMessageContentView::InputLocationMessageContent(v)),
            Err(_) => {
            match sdec_input_venue_message_content(j) {
                Ok(v) => Ok(InputMessageContentView::InputVenueMessageContent(v)),
                Err(_) => {
                match sdec_input_contact_message_content(j) {
                    Ok(v) => Ok(InputMessageContentView::InputContactMessageContent(v)),
                    Err(_) => {
                    match sdec_input_invoice_message_content(j) {
                        Ok(v) => Ok(InputMessageContentView::InputInvoiceMessageContent(v)),
                        Err(_) => {
                        Err(DecodeErrorView::NoVariantMatch { family: "InputMessageContent"@ })
                        },
                    }
                    },
                }
                },
            }
            },
        }
        },
    }
}

pub fn encode_input_message_content(c: &InputMessageContent) -> (r: JsonValue)
    ensures
        r@ == senc_input_message_content(c@),
{
    match c {
        InputMessageContent::InputTextMessageContent(v) => encode_input_text_message_content(v),
        InputMessageContent::InputLocationMessageContent(v) => encode_input_location_message_content(v),
        InputMessageContent::InputVenueMessageContent(v) => encode_input_venue_message_content(v),
        InputMessageContent::InputContactMessageContent(v) => encode_input_contact_message_content(v),
        InputMessageContent::InputInvoiceMessageContent(v) => encode_input_invoice_message_content(v),
    }
}

pub fn decode_input_message_content(j: &JsonValue) -> (r: Result<
    InputMessageContent,
    DecodeError,
>)
    ensures
        res_view(r) == sdec_input_message_content(j@),
{
    match decode_input_text_message_content(j) {
        Ok(v) => {
            return Ok(InputMessageContent::InputTextMessageContent(v));
        },
        Err(_) => (),
    }
    match decode_input_location_message_content(j) {
        Ok(v) => {
            return Ok(InputMessageContent::InputLocationMessageContent(v));
        },
        Err(_) => (),
    }
    match decode_input_venue_message_content(j) {
        Ok(v) => {
            return Ok(InputMessageContent::InputVenueMessageContent(v));
        },
        Err(_) => (),
    }
    match decode_input_contact_message_content(j) {
        Ok(v) => {
            return Ok(InputMessageContent::InputContactMessageContent(v));
        },
        Err(_) => (),
    }
    match decode_input_invoice_message_content(j) {
        Ok(v) => {
            return Ok(InputMessageContent::InputInvoiceMessageContent(v));
        },
        Err(_) => (),
    }
    Err(DecodeError::NoVariantMatch { family: String::from_str("InputMessageContent") })
}

/// Reveals every key the family's members use and pins the characters
/// that tell same-length keys apart.
proof fn content_keys_facts()
    ensures
        "message_text"@.len() == 12,
        "parse_mode"@.len() == 10,
        "latitude"@.len() == 8,
        "longitude"@.len() == 9,
        "title"@.len() == 5,
        "address"@.len() == 7,
        "phone_number"@.len() == 12,
        "first_name"@.len() == 10,
        "description"@.len() == 11,
        "payload"@.len() == 7,
        "currency"@.len() == 8,
        "message_text"@[0] == 'm' && "phone_number"@[0] == 'p',
        "parse_mode"@[0] == 'p' && "first_name"@[0] == 'f',
        "address"@[0] == 'a' && "payload"@[0] == 'p',
        "latitude"@[0] == 'l' && "currency"@[0] == 'c',
{
    reveal_strlit("message_text");
    reveal_strlit("parse_mode");
    reveal_strlit("latitude");
    reveal_strlit("longitude");
    reveal_strlit("title");
    reveal_strlit("address");
    reveal_strlit("phone_number");
    reveal_strlit("first_name");
    reveal_strlit("description");
    reveal_strlit("payload");
    reveal_strlit("currency");
}

/// Decoding undoes encoding for every member but the venue: a venue
/// payload also satisfies the location member, which is declared
/// earlier, so a venue never resolves back to itself.
#[verifier::rlimit(100)]
#[verifier::spinoff_prover]
pub proof fn lemma_input_message_content_round_trip(m: InputMessageContentView)
    requires
        !(m is InputVenueMessageContent),
    ensures
        sdec_input_message_content(senc_input_message_content(m)) == Ok::<
            InputMessageContentView,
            DecodeErrorView,
        >(m),
{
    broadcast use crate::json::group_json_ins;

    content_keys_facts();
    match m {
        InputMessageContentView::InputTextMessageContent(v) => lemma_input_text_message_content_round_trip(v),
        InputMessageContentView::InputLocationMessageContent(v) => lemma_input_location_message_content_round_trip(v),
        InputMessageContentView::InputVenueMessageContent(v) => lemma_input_venue_message_content_round_trip(v),
        InputMessageContentView::InputContactMessageContent(v) => lemma_input_contact_message_content_round_trip(v),
        InputMessageContentView::InputInvoiceMessageContent(v) => lemma_input_invoice_message_content_round_trip(v),
    }
}

/// On a payload that satisfies more than one member, the first
/// declared match wins: here, any payload that the location member
/// accepts and the text member rejects resolves to the location,
/// whatever later members would also accept.
pub proof fn lemma_input_message_content_first_match(j: JsonSpec)
    requires
        sdec_input_text_message_content(j) is Err,
        sdec_input_location_message_content(j) is Ok,
    ensures
        sdec_input_message_content(j) == match sdec_input_location_message_content(j) {
            Ok(v) => Ok::<InputMessageContentView, DecodeErrorView>(
                InputMessageContentView::InputLocationMessageContent(v),
            ),
            Err(e) => Err(e),
        },
{
}

/// The venue sharp edge, spelled out: a venue payload resolves to the
/// earlier-declared location member carrying the venue's coordinates.
#[verifier::rlimit(100)]
#[verifier::spinoff_prover]
pub proof fn lemma_venue_payload_resolves_to_location(m: InputVenueMessageContentView)
    ensures
        sdec_input_message_content(senc_input_venue_message_content(m)) == Ok::<
            InputMessageContentView,
            DecodeErrorView,
        >(
            InputMessageContentView::InputLocationMessageContent(
                InputLocationMessageContent { latitude: m.latitude, longitude: m.longitude },
            ),
        ),
{
    broadcast use crate::json::group_json_ins;

    content_keys_facts();
}

} // verus!
