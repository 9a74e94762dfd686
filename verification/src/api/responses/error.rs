use crate::api::response::{decode_response_error, sdec_response_error, ResponseErrorView};
use crate::errors::DecodeErrorView;
use crate::json::JsonValue;
use crate::wire::{json_from_text, parse_json};
use vstd::prelude::*;
use vstd::pervasive::unreached;

verus! {

pub use crate::api::response::ResponseError;

/// The error arm a whole response text decodes to, when it does.
pub open spec fn sdec_error_text(text: Seq<char>) -> Result<ResponseErrorView, DecodeErrorView> {
    match parse_json(text) {
        None => Err(DecodeErrorView::NotJson),
        Some(j) => sdec_response_error(j),
    }
}

impl ResponseError {
    /// Reads an error envelope straight from response text. The text
    /// must hold one: on anything else this refuses to exist, as the
    /// caller promised otherwise. `try_new` checks first.
    pub fn new(body: &str) -> (r: ResponseError)
        requires
            sdec_error_text(body@) is Ok,
        ensures
            sdec_error_text(body@) == Ok::<ResponseErrorView, DecodeErrorView>(r@),
    {
        let parsed: Option<JsonValue> = json_from_text(body);
        match parsed {
            Some(j) => match decode_response_error(&j) {
                Ok(e) => e,
                Err(_) => unreached(),
            },
            None => unreached(),
        }
    }

    /// Reads an error envelope from response text, or reports that the
    /// text holds none.
    pub fn try_new(body: &str) -> (r: Option<ResponseError>)
        ensures
            match r {
                Some(e) => sdec_error_text(body@) == Ok::<ResponseErrorView, DecodeErrorView>(e@),
                None => sdec_error_text(body@) is Err,
            },
    {
        let parsed: Option<JsonValue> = json_from_text(body);
        match parsed {
            Some(j) => match decode_response_error(&j) {
                Ok(_) => Some(ResponseError::new(body)),
                Err(_) => None,
            },
            None => None,
        }
    }
}

} // verus!
