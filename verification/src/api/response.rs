//! From a failure to what the client is sent: the status, and a body that
//! names the kind of failure and gives its public datum.
//!
//! The cause of an internal error is never part of a body.

use crate::api::error::{json_text, status_of, ApiError, ApiErrorView};
use serde_json::Value;
use vstd::prelude::*;

verus! {

/// The body of an error response: the kind of failure under `type`, and at
/// most one more member.
#[derive(Debug)]
pub struct ErrorBody {
    pub kind: String,
    pub detail: Option<(String, String)>,
}

pub struct ErrorBodyView {
    pub kind: Seq<char>,
    pub detail: Option<(Seq<char>, Seq<char>)>,
}

impl View for ErrorBody {
    type V = ErrorBodyView;

    open spec fn view(&self) -> ErrorBodyView {
        ErrorBodyView {
            kind: self.kind@,
            detail: match self.detail {
                Some((name, value)) => Some((name@, value@)),
                None => None,
            },
        }
    }
}

impl DeepView for ErrorBody {
    type V = ErrorBodyView;

    open spec fn deep_view(&self) -> ErrorBodyView {
        self@
    }
}

/// The body with the given kind and one member.
pub open spec fn body_with(kind: Seq<char>, name: Seq<char>, value: Seq<char>) -> ErrorBodyView {
    ErrorBodyView { kind, detail: Some((name, value)) }
}

/// The body that each failure is reported with.
pub open spec fn body_of(error: ApiErrorView) -> ErrorBodyView {
    match error {
        ApiErrorView::InternalError(_) => ErrorBodyView { kind: "InternalError"@, detail: None },
        ApiErrorView::ResourceNotFound(uri) => body_with("ResourceNotFound"@, "uri"@, uri),
        ApiErrorView::MethodNotAllowed(method) => body_with(
            "MethodNotAllowed"@,
            "method"@,
            method,
        ),
        ApiErrorView::MissingHeader(key) => body_with("MissingHeader"@, "key"@, key),
        ApiErrorView::MalformedHeader(key) => body_with("MalformedHeader"@, "key"@, key),
        ApiErrorView::UnsupportedMediaType(err) => body_with(
            "UnsupportedMediaType"@,
            "content_type"@,
            err.content_type,
        ),
        ApiErrorView::UnsupportedUserAgent(user_agent) => body_with(
            "UnsupportedUserAgent"@,
            "user_agent"@,
            user_agent,
        ),
        ApiErrorView::MismatchedSignature(signature) => body_with(
            "MismatchedSignature"@,
            "signature"@,
            signature,
        ),
        ApiErrorView::UnsupportedWebhookEvent(event) => body_with(
            "UnsupportedWebhookEvent"@,
            "event"@,
            event,
        ),
        ApiErrorView::JsonError(cause) => body_with("JsonError"@, "source"@, json_text(cause)),
    }
}

fn new_body(kind: &str, name: &str, value: String) -> (r: ErrorBody)
    ensures
        r@ == body_with(kind@, name@, value@),
{
    ErrorBody { kind: kind.to_string(), detail: Some((name.to_string(), value)) }
}

/// The status and the body that a failure is answered with.
pub fn to_response(error: &ApiError) -> (r: (u16, ErrorBody))
    ensures
        r.0 == status_of(error@),
        r.1@ == body_of(error@),
{
    let status = error.status();
    let body = match error {
        ApiError::InternalError(_) => ErrorBody { kind: "InternalError".to_string(), detail: None },
        ApiError::ResourceNotFound(err) => new_body("ResourceNotFound", "uri", err.uri.clone()),
        ApiError::MethodNotAllowed(err) => new_body(
            "MethodNotAllowed",
            "method",
            err.method.clone(),
        ),
        ApiError::MissingHeader(err) => new_body("MissingHeader", "key", err.key.clone()),
        ApiError::MalformedHeader(err) => new_body("MalformedHeader", "key", err.key.clone()),
        ApiError::UnsupportedMediaType(err) => new_body(
            "UnsupportedMediaType",
            "content_type",
            err.content_type.clone(),
        ),
        ApiError::UnsupportedUserAgent(err) => new_body(
            "UnsupportedUserAgent",
            "user_agent",
            err.user_agent.clone(),
        ),
        ApiError::MismatchedSignature(err) => new_body(
            "MismatchedSignature",
            "signature",
            err.signature.clone(),
        ),
        ApiError::UnsupportedWebhookEvent(err) => new_body(
            "UnsupportedWebhookEvent",
            "event",
            err.event.clone(),
        ),
        ApiError::JsonError(err) => new_body("JsonError", "source", err.to_string()),
    };
    (status, body)
}

/// Status of a request that succeeded.
pub const OK: u16 = 200;

/// What a request is answered with: a status, and a body when it failed.
pub open spec fn response_of<T>(result: Result<T, ApiErrorView>) -> (u16, Option<ErrorBodyView>) {
    match result {
        Ok(_) => (OK, None),
        Err(e) => (status_of(e), Some(body_of(e))),
    }
}

/// The response that a result of any kind is answered with.
pub open spec fn response_to<T>(result: Result<T, ApiError>) -> (u16, Option<ErrorBodyView>) {
    match result {
        Ok(_) => (OK, None),
        Err(e) => (status_of(e@), Some(body_of(e@))),
    }
}

/// The answer to a request: 200 and no body when it succeeded, else the
/// failure's status and body.
pub fn respond<T>(result: &Result<T, ApiError>) -> (r: (u16, Option<ErrorBody>))
    ensures
        r.0 == response_to(*result).0,
        r.1.deep_view() == response_to(*result).1,
{
    match result {
        Ok(_) => (OK, None),
        Err(e) => {
            let (status, body) = to_response(e);
            (status, Some(body))
        },
    }
}

/// A text as a JSON string: in double quotes, with what JSON asks to be
/// escaped written as escapes.
pub uninterp spec fn json_string(text: Seq<char>) -> Seq<char>;

/// `Value::String` displayed: the JSON string that spells the text.
#[verifier::external_body]
fn quoted(text: &str) -> (r: String)
    ensures
        r@ == json_string(text@),
{
    Value::from(text).to_string()
}

/// A body as a JSON object: `type` first, then the other member, if any.
pub open spec fn rendered(body: ErrorBodyView) -> Seq<char> {
    match body.detail {
        None => "{\"type\":"@ + json_string(body.kind) + "}"@,
        Some((name, value)) => "{\"type\":"@ + json_string(body.kind) + ","@ + json_string(name)
            + ":"@ + json_string(value) + "}"@,
    }
}

impl ErrorBody {
    /// The body as JSON text.
    pub fn to_json(&self) -> (r: String)
        ensures
            r@ == rendered(self@),
    {
        let mut text = "{\"type\":".to_string();
        text.append(quoted(self.kind.as_str()).as_str());
        match &self.detail {
            None => {},
            Some((name, value)) => {
                text.append(",");
                text.append(quoted(name.as_str()).as_str());
                text.append(":");
                text.append(quoted(value.as_str()).as_str());
            },
        }
        text.append("}");
        text
    }
}

} // verus!
