use crate::errors::{DecodeError, DecodeErrorView};
use crate::json::{
    opt_i64, opt_str, opt_val, req_bool, req_str, req_u64, req_val, res_view, sopt_i64, sopt_str,
    sopt_val, sreq_bool, sreq_str, sreq_u64, sreq_val, JsonSpec, JsonValue,
};
use vstd::prelude::*;

verus! {

/// Extra machine-actionable hints an error envelope may carry. Both
/// signals are independently optional; a plain error carries neither.
#[derive(Debug, Clone, Copy, PartialEq)]
pub struct ResponseParameters {
    pub migrate_to_chat_id: Option<i64>,
    pub retry_after: Option<i64>,
}

impl View for ResponseParameters {
    type V = ResponseParameters;

    open spec fn view(&self) -> ResponseParameters {
        *self
    }
}

impl DeepView for ResponseParameters {
    type V = ResponseParameters;

    open spec fn deep_view(&self) -> ResponseParameters {
        *self
    }
}

/// The error arm of the wire envelope.
#[derive(Debug, Clone, PartialEq)]
pub struct ResponseError {
    pub ok: bool,
    pub error_code: u64,
    pub description: String,
    pub parameters: Option<ResponseParameters>,
}

/// Mathematical image of `ResponseError`.
#[verifier::ext_equal]
pub struct ResponseErrorView {
    pub ok: bool,
    pub error_code: u64,
    pub description: Seq<char>,
    pub parameters: Option<ResponseParameters>,
}

impl View for ResponseError {
    type V = ResponseErrorView;

    open spec fn view(&self) -> ResponseErrorView {
        ResponseErrorView {
            ok: self.ok,
            error_code: self.error_code,
            description: self.description@,
            parameters: self.parameters,
        }
    }
}

impl DeepView for ResponseError {
    type V = ResponseErrorView;

    open spec fn deep_view(&self) -> ResponseErrorView {
        self.view()
    }
}

/// The success arm of the wire envelope, around a decoded result.
#[derive(Debug, Clone, PartialEq)]
pub struct ResponseSuccess<T> {
    pub ok: bool,
    pub result: T,
    pub description: Option<String>,
}

/// Mathematical image of `ResponseSuccess`.
#[verifier::ext_equal]
pub struct ResponseSuccessView<T> {
    pub ok: bool,
    pub result: T,
    pub description: Option<Seq<char>>,
}

impl<T: DeepView> View for ResponseSuccess<T> {
    type V = ResponseSuccessView<T::V>;

    open spec fn view(&self) -> ResponseSuccessView<T::V> {
        ResponseSuccessView {
            ok: self.ok,
            result: self.result.deep_view(),
            description: match self.description {
                Some(d) => Some(d@),
                None => None,
            },
        }
    }
}

impl<T: DeepView> DeepView for ResponseSuccess<T> {
    type V = ResponseSuccessView<T::V>;

    open spec fn deep_view(&self) -> ResponseSuccessView<T::V> {
        self.view()
    }
}

/// A response envelope whose success payload is not yet resolved
/// against its expected shape.
pub enum Envelope<'a> {
    Success { result: &'a JsonValue, description: Option<String> },
    Failure(ResponseError),
}

/// Mathematical image of `Envelope`.
#[verifier::ext_equal]
pub enum EnvelopeView {
    Success { result: JsonSpec, description: Option<Seq<char>> },
    Failure(ResponseErrorView),
}

impl<'a> View for Envelope<'a> {
    type V = EnvelopeView;

    open spec fn view(&self) -> EnvelopeView {
        match self {
            Envelope::Success { result, description } => EnvelopeView::Success {
                result: (*result)@,
                description: match description {
                    Some(d) => Some(d@),
                    None => None,
                },
            },
            Envelope::Failure(e) => EnvelopeView::Failure(e@),
        }
    }
}

impl<'a> DeepView for Envelope<'a> {
    type V = EnvelopeView;

    open spec fn deep_view(&self) -> EnvelopeView {
        self.view()
    }
}

/// Decodes the optional hint record of an error envelope.
pub open spec fn sdec_params(j: JsonSpec, path: Seq<char>) -> Result<
    ResponseParameters,
    DecodeErrorView,
> {
    if !(j is Obj) {
        Err(DecodeErrorView::WrongType { path })
    } else {
        match sopt_i64(j, "migrate_to_chat_id"@) {
            Err(e) => Err(e),
            Ok(mig) => match sopt_i64(j, "retry_after"@) {
                Err(e) => Err(e),
                Ok(ra) => Ok(ResponseParameters { migrate_to_chat_id: mig, retry_after: ra }),
            },
        }
    }
}

/// Decodes the error arm: a numeric code, a description, and the
/// optional hint record.
pub open spec fn sdec_response_error(j: JsonSpec) -> Result<ResponseErrorView, DecodeErrorView> {
    match sreq_bool(j, "ok"@) {
        Err(e) => Err(e),
        Ok(okv) => match sreq_u64(j, "error_code"@) {
            Err(e) => Err(e),
            Ok(code) => match sreq_str(j, "description"@) {
                Err(e) => Err(e),
                Ok(d) => match sopt_val(j, "parameters"@) {
                    Err(e) => Err(e),
                    Ok(None) => Ok(
                        ResponseErrorView {
                            ok: okv,
                            error_code: code,
                            description: d,
                            parameters: None,
                        },
                    ),
                    Ok(Some(p)) => match sdec_params(p, "parameters"@) {
                        Err(e) => Err(e),
                        Ok(rp) => Ok(
                            ResponseErrorView {
                                ok: okv,
                                error_code: code,
                                description: d,
                                parameters: Some(rp),
                            },
                        ),
                    },
                },
            },
        },
    }
}

/// Classifies a response tree: the boolean discriminator selects the
/// success arm or the error arm; anything else is a decode error,
/// distinct from a remote failure.
pub open spec fn sdec_envelope(j: JsonSpec) -> Result<EnvelopeView, DecodeErrorView> {
    match sreq_bool(j, "ok"@) {
        Err(e) => Err(e),
        Ok(true) => match sreq_val(j, "result"@) {
            Err(e) => Err(e),
            Ok(res) => match sopt_str(j, "description"@) {
                Err(e) => Err(e),
                Ok(d) => Ok(EnvelopeView::Success { result: res, description: d }),
            },
        },
        Ok(false) => match sdec_response_error(j) {
            Err(e) => Err(e),
            Ok(re) => Ok(EnvelopeView::Failure(re)),
        },
    }
}

pub fn decode_response_parameters(j: &JsonValue, path: &str) -> (r: Result<
    ResponseParameters,
    DecodeError,
>)
    ensures
        res_view(r) == sdec_params(j@, path@),
{
    match j {
        JsonValue::Obj(_) => (),
        _ => {
            return Err(DecodeError::WrongType { path: path.to_owned() });
        },
    }
    let mig = match opt_i64(j, "migrate_to_chat_id") {
        Ok(v) => v,
        Err(e) => {
            return Err(e);
        },
    };
    let ra = match opt_i64(j, "retry_after") {
        Ok(v) => v,
        Err(e) => {
            return Err(e);
        },
    };
    Ok(ResponseParameters { migrate_to_chat_id: mig, retry_after: ra })
}

pub fn decode_response_error(j: &JsonValue) -> (r: Result<ResponseError, DecodeError>)
    ensures
        res_view(r) == sdec_response_error(j@),
{
    let okv = match req_bool(j, "ok") {
        Ok(v) => v,
        Err(e) => {
            return Err(e);
        },
    };
    let code = match req_u64(j, "error_code") {
        Ok(v) => v,
        Err(e) => {
            return Err(e);
        },
    };
    let d = match req_str(j, "description") {
        Ok(v) => v,
        Err(e) => {
            return Err(e);
        },
    };
    let params = match opt_val(j, "parameters") {
        Ok(None) => None,
        Ok(Some(p)) => match decode_response_parameters(p, "parameters") {
            Ok(rp) => Some(rp),
            Err(e) => {
                return Err(e);
            },
        },
        Err(e) => {
            return Err(e);
        },
    };
    Ok(ResponseError { ok: okv, error_code: code, description: d, parameters: params })
}

/// Splits a response tree into its success or error arm; a tree that
/// fits neither is a decode error, never a default success.
pub fn decode_envelope<'a>(j: &'a JsonValue) -> (r: Result<Envelope<'a>, DecodeError>)
    ensures
        res_view(r) == sdec_envelope(j@),
{
    let okv = match req_bool(j, "ok") {
        Ok(v) => v,
        Err(e) => {
            return Err(e);
        },
    };
    if okv {
        let res = match req_val(j, "result") {
            Ok(v) => v,
            Err(e) => {
                return Err(e);
            },
        };
        let d = match opt_str(j, "description") {
            Ok(v) => v,
            Err(e) => {
                return Err(e);
            },
        };
        Ok(Envelope::Success { result: res, description: d })
    } else {
        match decode_response_error(j) {
            Ok(re) => Ok(Envelope::Failure(re)),
            Err(e) => Err(e),
        }
    }
}

impl ResponseError {
    /// The seconds to wait before retrying the identical call, when the
    /// remote side asked for a delay.
    pub fn retry_after(&self) -> (r: Option<i64>)
        ensures
            r == match self.parameters {
                Some(p) => p.retry_after,
                None => None::<i64>,
            },
    {
        match &self.parameters {
            Some(p) => p.retry_after,
            None => None,
        }
    }

    /// The chat's replacement identifier, when the remote side reports
    /// that the old identifier is permanently gone.
    pub fn migrate_to_chat_id(&self) -> (r: Option<i64>)
        ensures
            r == match self.parameters {
                Some(p) => p.migrate_to_chat_id,
                None => None::<i64>,
            },
    {
        match &self.parameters {
            Some(p) => p.migrate_to_chat_id,
            None => None,
        }
    }
}

} // verus!
