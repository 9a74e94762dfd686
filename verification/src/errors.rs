use crate::api::response::{ResponseError, ResponseErrorView};
use vstd::prelude::*;

verus! {

/// Why a payload could not be decoded. Every variant carries enough
/// context (a field path or a family name) to diagnose schema drift.
#[derive(Debug, Clone, PartialEq)]
pub enum DecodeError {
    /// The response text is not valid JSON at all.
    NotJson,
    /// A required field is absent from its object.
    MissingField { path: String },
    /// A field or payload is present but holds a value of the wrong shape.
    WrongType { path: String },
    /// A discriminated family met a tag outside its closed table.
    UnknownTag { family: String, tag: String },
    /// No member of the family matched the payload shape.
    NoVariantMatch { family: String },
}

/// Mathematical image of `DecodeError`: the same cases over character
/// sequences.
#[verifier::ext_equal]
pub enum DecodeErrorView {
    NotJson,
    MissingField { path: Seq<char> },
    WrongType { path: Seq<char> },
    UnknownTag { family: Seq<char>, tag: Seq<char> },
    NoVariantMatch { family: Seq<char> },
}

impl View for DecodeError {
    type V = DecodeErrorView;

    open spec fn view(&self) -> DecodeErrorView {
        match self {
            DecodeError::NotJson => DecodeErrorView::NotJson,
            DecodeError::MissingField { path } => DecodeErrorView::MissingField { path: path@ },
            DecodeError::WrongType { path } => DecodeErrorView::WrongType { path: path@ },
            DecodeError::UnknownTag { family, tag } => DecodeErrorView::UnknownTag {
                family: family@,
                tag: tag@,
            },
            DecodeError::NoVariantMatch { family } => DecodeErrorView::NoVariantMatch {
                family: family@,
            },
        }
    }
}

impl DeepView for DecodeError {
    type V = DecodeErrorView;

    open spec fn deep_view(&self) -> DecodeErrorView {
        self.view()
    }
}

/// Everything a remote call can fail with. A transport failure is
/// surfaced as the transport's own report, carried verbatim; a remote
/// error envelope arrives as a typed value; a payload that cannot be
/// understood at all is a decode error; anything else is the residual
/// case, which callers should treat like a decode error.
#[derive(Debug, Clone, PartialEq)]
pub enum Error {
    Request(String),
    Response(ResponseError),
    Decode(DecodeError),
    Debug,
}

/// Mathematical image of `Error`.
#[verifier::ext_equal]
pub enum ErrorView {
    Request(Seq<char>),
    Response(ResponseErrorView),
    Decode(DecodeErrorView),
    Debug,
}

impl View for Error {
    type V = ErrorView;

    open spec fn view(&self) -> ErrorView {
        match self {
            Error::Request(t) => ErrorView::Request(t@),
            Error::Response(e) => ErrorView::Response(e@),
            Error::Decode(e) => ErrorView::Decode(e@),
            Error::Debug => ErrorView::Debug,
        }
    }
}

impl DeepView for Error {
    type V = ErrorView;

    open spec fn deep_view(&self) -> ErrorView {
        self.view()
    }
}

} // verus!
