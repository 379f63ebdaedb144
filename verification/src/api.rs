//! The envelopes in which the API answers: a payload under `data`, or the
//! details of a failure under `error`.

use vstd::prelude::*;
use crate::json::{JsonTree, JsonValue};
use crate::text::optional_view;

verus! {

/// A successful answer.
#[derive(Debug, PartialEq, Eq)]
pub struct DataEnvelope<T> {
    pub data: T,
}

/// A failed answer.
#[derive(Debug, PartialEq, Eq)]
pub struct ErrorEnvelope {
    pub error: ApiError,
}

/// The details of an error response
#[derive(Debug, PartialEq, Eq)]
pub struct ApiError {
    pub detail: Option<String>,
    pub code: String,
    pub status: u32,
    pub title: String,
    pub source: Option<String>,
}

/// An answer of either kind. Nothing in the document says which one it is:
/// the members that are present decide.
#[derive(Debug, PartialEq, Eq)]
pub enum ApiResult<T> {
    Data(DataEnvelope<T>),
    Error(ErrorEnvelope),
}

/// What an `ApiError` holds, as sequences of characters.
pub struct ApiErrorView {
    pub detail: Option<Seq<char>>,
    pub code: Seq<char>,
    pub status: u32,
    pub title: Seq<char>,
    pub source: Option<Seq<char>>,
}

impl View for ApiError {
    type V = ApiErrorView;

    open spec fn view(&self) -> ApiErrorView {
        ApiErrorView {
            detail: optional_view(self.detail),
            code: self.code@,
            status: self.status,
            title: self.title@,
            source: optional_view(self.source),
        }
    }
}

impl<T: View> View for DataEnvelope<T> {
    type V = T::V;

    /// The payload.
    open spec fn view(&self) -> T::V {
        self.data@
    }
}

impl View for ErrorEnvelope {
    type V = ApiErrorView;

    /// The error's details.
    open spec fn view(&self) -> ApiErrorView {
        self.error@
    }
}

impl<T: View> View for ApiResult<T> {
    type V = Result<T::V, ApiErrorView>;

    open spec fn view(&self) -> Result<T::V, ApiErrorView> {
        match self {
            ApiResult::Data(envelope) => Ok(envelope@),
            ApiResult::Error(envelope) => Err(envelope@),
        }
    }
}

impl ApiError {
    /// The error that `v` describes: an object with the texts `code` and
    /// `title`, the integer `status`, and `detail` and `source`, each a text,
    /// `null` or left out. Other members are ignored.
    pub open spec fn shape(v: JsonTree) -> Option<ApiErrorView> {
        match (
            v.member_optional_text("detail"@),
            v.member_text("code"@),
            v.member_count("status"@),
            v.member_text("title"@),
            v.member_optional_text("source"@),
        ) {
            (Some(detail), Some(code), Some(status), Some(title), Some(source)) => Some(
                ApiErrorView { detail, code, status, title, source },
            ),
            _ => None,
        }
    }

    /// Reads an error's details from `v`.
    pub fn from_json(v: &JsonValue) -> (error: Option<ApiError>)
        ensures
            match error {
                Some(e) => ApiError::shape(v@) == Some(e@),
                None => ApiError::shape(v@) is None,
            },
    {
        let detail = match v.get_optional_text("detail") {
            Some(d) => d,
            None => { return None; },
        };
        let code = match v.get_text("code") {
            Some(c) => c,
            None => { return None; },
        };
        let status = match v.get_count("status") {
            Some(s) => s,
            None => { return None; },
        };
        let title = match v.get_text("title") {
            Some(t) => t,
            None => { return None; },
        };
        let source = match v.get_optional_text("source") {
            Some(s) => s,
            None => { return None; },
        };
        Some(ApiError { detail, code, status, title, source })
    }
}

impl ErrorEnvelope {
    /// The error envelope that `v` is: an object whose member `error`
    /// describes an error.
    pub open spec fn shape(v: JsonTree) -> Option<ApiErrorView> {
        match v.member("error"@) {
            Some(e) => ApiError::shape(e),
            None => None,
        }
    }

    /// Reads an error envelope from `v`.
    pub fn from_json(v: &JsonValue) -> (envelope: Option<ErrorEnvelope>)
        ensures
            match envelope {
                Some(e) => ErrorEnvelope::shape(v@) == Some(e@),
                None => ErrorEnvelope::shape(v@) is None,
            },
    {
        match v.get("error") {
            Some(e) => match ApiError::from_json(e) {
                Some(error) => Some(ErrorEnvelope { error }),
                None => None,
            },
            None => None,
        }
    }
}

} // verus!
