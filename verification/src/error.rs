//! The error taxonomy of one API call: a flat enumeration, every failure
//! returned to the caller as a value.

use vstd::prelude::*;

verus! {

/// The spec-level image of a [`GetModelError`]: the same variants over
/// mathematical strings.
pub enum GetModelErrorView {
    RequestFailed(Seq<char>),
    DeserializeFailed,
    AccessTokenInvalid(Seq<char>),
    UnknownFBError(Seq<char>, Seq<char>),
}

/// An error returned when a graph request does not produce a decoded
/// model.
#[derive(Debug, Clone)]
pub enum GetModelError {
    /// The HTTP transport failed; holds the transport's own description of
    /// the cause, preserved for diagnostics.
    RequestFailed(String),
    /// The response was not valid JSON, or its shape did not match the
    /// model it was to be decoded into.
    DeserializeFailed,
    /// The API reported an `OAuthException`: the access token is not
    /// valid. Holds the message the API returned.
    AccessTokenInvalid(String),
    /// Any other API-reported error: its `type` and its message — or a
    /// placeholder type and the raw response body when the error envelope
    /// itself was malformed.
    UnknownFBError(String, String),
}

impl View for GetModelError {
    type V = GetModelErrorView;

    open spec fn view(&self) -> GetModelErrorView {
        match self {
            GetModelError::RequestFailed(c) => GetModelErrorView::RequestFailed(c@),
            GetModelError::DeserializeFailed => GetModelErrorView::DeserializeFailed,
            GetModelError::AccessTokenInvalid(m) => GetModelErrorView::AccessTokenInvalid(m@),
            GetModelError::UnknownFBError(t, m) => GetModelErrorView::UnknownFBError(t@, m@),
        }
    }
}

/// The one-line description of an error, for a caller that prints it.
pub open spec fn spec_describe(e: GetModelErrorView) -> Seq<char> {
    match e {
        GetModelErrorView::RequestFailed(c) => "Request error: "@ + c,
        GetModelErrorView::DeserializeFailed =>
            "Deserialization failed: the response's shape does not match the requested model."@,
        GetModelErrorView::AccessTokenInvalid(m) => "Access token invalid: "@ + m,
        GetModelErrorView::UnknownFBError(t, m) => "Unknown FB API error of type "@ + t + " : "@
            + m,
    }
}

impl GetModelError {
    /// Render the error as a line of text for diagnostics.
    pub fn describe(&self) -> (r: String)
        ensures
            r@ == spec_describe(self@),
    {
        match self {
            GetModelError::RequestFailed(c) => {
                let mut s = String::from_str("Request error: ");
                s.append(c.as_str());
                s
            },
            GetModelError::DeserializeFailed => String::from_str(
                "Deserialization failed: the response's shape does not match the requested model.",
            ),
            GetModelError::AccessTokenInvalid(m) => {
                let mut s = String::from_str("Access token invalid: ");
                s.append(m.as_str());
                s
            },
            GetModelError::UnknownFBError(t, m) => {
                let mut s = String::from_str("Unknown FB API error of type ");
                s.append(t.as_str());
                s.append(" : ");
                s.append(m.as_str());
                s
            },
        }
    }
}

} // verus!
