//! What can go wrong, at the store and in answering a request, and the text
//! each failure is reported with.

use vstd::prelude::*;
use crate::text::{decimal_text, push_decimal};

verus! {

/// A failure of the storage gateway.
#[derive(Clone, Debug, PartialEq, Eq)]
pub enum KvError {
    /// The store could not be reached or refused the call; the text is the
    /// host's description of the fault.
    StoreUnavailable(String),
    /// The key was not found in the namespace.
    NotFound,
    /// A value is stored under the key, but not in the record encoding.
    Corrupt,
    /// A time to live below the store's minimum was asked for.
    UnsupportedTtl(u32),
    /// The host could not build the settings object that carries the time to
    /// live.
    ExpReflectFailed,
}

/// A failure in answering a request.
#[derive(Clone, Debug, PartialEq, Eq)]
pub enum ResponseError {
    /// The request's URL could not be parsed; the text is the parser's
    /// reason.
    UrlParseError(String),
    /// The host failed; the text is its description of the fault.
    JsError(String),
    /// The storage gateway failed.
    KvError(KvError),
    /// The path lies outside the one resource family served here.
    RouteError,
    /// The method is not supported on the route that matched.
    InvalidMethod,
    /// The path was understood but names no resource.
    NonexistentResource,
    /// The URL has no path that splits into segments.
    PathNotUnderstood,
    /// A field with a fixed set of values held another value.
    InvalidExpiration,
    /// A required form field is absent.
    MissingFormValue,
    /// The creation request is not form encoded.
    ContentTypeError,
}

impl KvError {
    /// The text this failure is reported with.
    pub open spec fn message_text(&self) -> Seq<char> {
        match self {
            KvError::StoreUnavailable(detail) => "js error: "@ + detail@,
            KvError::NotFound => "key not found"@,
            KvError::Corrupt => "stored paste is not in the expected encoding"@,
            KvError::UnsupportedTtl(ttl) => "unsupported ttl: "@ + decimal_text(*ttl as nat)
                + " (must be >= 60)"@,
            KvError::ExpReflectFailed => "failed to create expiration setting object"@,
        }
    }

    /// The text this failure is reported with.
    pub fn message(&self) -> (text: String)
        ensures
            text@ == self.message_text(),
    {
        match self {
            KvError::StoreUnavailable(detail) => {
                String::from_str("js error: ").concat(detail.as_str())
            },
            KvError::NotFound => String::from_str("key not found"),
            KvError::Corrupt => String::from_str("stored paste is not in the expected encoding"),
            KvError::UnsupportedTtl(ttl) => {
                let mut text = String::from_str("unsupported ttl: ");
                push_decimal(&mut text, *ttl);
                text.concat(" (must be >= 60)")
            },
            KvError::ExpReflectFailed => String::from_str(
                "failed to create expiration setting object",
            ),
        }
    }
}

impl ResponseError {
    /// The text this failure is reported with.
    pub open spec fn message_text(&self) -> Seq<char> {
        match self {
            ResponseError::UrlParseError(reason) => "url parse error: "@ + reason@,
            ResponseError::JsError(detail) => "js error: "@ + detail@,
            ResponseError::KvError(e) => "kv error: "@ + e.message_text(),
            ResponseError::RouteError =>
                "route error: this worker should not have received this request"@,
            ResponseError::InvalidMethod => "invalid method"@,
            ResponseError::NonexistentResource => "requested resource does not exist"@,
            ResponseError::PathNotUnderstood => "url path not understood"@,
            ResponseError::InvalidExpiration => "invalid expiration"@,
            ResponseError::MissingFormValue => "submitted form missing values"@,
            ResponseError::ContentTypeError =>
                "the request's content-type field was missing or invalid"@,
        }
    }

    /// The text this failure is reported with.
    pub fn message(&self) -> (text: String)
        ensures
            text@ == self.message_text(),
    {
        match self {
            ResponseError::UrlParseError(reason) => String::from_str("url parse error: ").concat(
                reason.as_str(),
            ),
            ResponseError::JsError(detail) => String::from_str("js error: ").concat(
                detail.as_str(),
            ),
            ResponseError::KvError(e) => {
                let inner = e.message();
                String::from_str("kv error: ").concat(inner.as_str())
            },
            ResponseError::RouteError => String::from_str(
                "route error: this worker should not have received this request",
            ),
            ResponseError::InvalidMethod => String::from_str("invalid method"),
            ResponseError::NonexistentResource => String::from_str(
                "requested resource does not exist",
            ),
            ResponseError::PathNotUnderstood => String::from_str("url path not understood"),
            ResponseError::InvalidExpiration => String::from_str("invalid expiration"),
            ResponseError::MissingFormValue => String::from_str("submitted form missing values"),
            ResponseError::ContentTypeError => String::from_str(
                "the request's content-type field was missing or invalid",
            ),
        }
    }
}

} // verus!
