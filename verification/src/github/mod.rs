//! The endpoint for webhooks of GitHub.
//!
//! A request must be a `POST` and carry, in this order, the headers
//! `content-type`, `x-github-hook-id`, `x-github-event`,
//! `x-github-delivery`, `x-hub-signature`, `x-hub-signature-256`,
//! `user-agent`, `x-github-hook-installation-target-type` and
//! `x-github-hook-installation-target-id`. Its content type must be
//! `application/json`, answered with 415 otherwise; its user agent must begin
//! with `GitHub-Hookshot/`; the header `x-hub-signature-256` holds `sha256=`
//! and the hexadecimal HMAC-SHA256 of the body. An event type other than
//! `push` and `membership` is accepted and nothing is decoded for it.

pub mod payload;

pub use crate::github::payload::Bot;

use crate::api::error::{ApiError, ApiErrorView, MediaTypeStatus, MethodNotAllowed};
use crate::api::header_values;
use crate::github::payload::{
    decode_membership, decode_push, membership_of, push_of, Membership, MembershipView, Push,
    PushView,
};
use crate::json::{document, read_document, schema_error, schema_failure};
use crate::signature::{
    constant_time_same_text, expected_signature, hex_digest, secret_view, SignatureFormat,
};
use crate::text::same_text;
use crate::webhook::{
    admission, authenticate, kind_of, select, EventKind, Profile, ProfileView, UnknownEventPolicy,
};
use axum::http::HeaderMap;
use vstd::prelude::*;

verus! {

/// An event whose request passed every check, with its decoded payload.
#[derive(Debug)]
pub enum VerifiedEvent {
    Push(Push),
    Membership(Membership),
}

pub enum VerifiedEventView {
    Push(PushView),
    Membership(MembershipView),
}

impl View for VerifiedEvent {
    type V = VerifiedEventView;

    open spec fn view(&self) -> VerifiedEventView {
        match self {
            VerifiedEvent::Push(push) => VerifiedEventView::Push(push@),
            VerifiedEvent::Membership(membership) => VerifiedEventView::Membership(membership@),
        }
    }
}

impl DeepView for VerifiedEvent {
    type V = VerifiedEventView;

    open spec fn deep_view(&self) -> VerifiedEventView {
        self@
    }
}

/// The profile of GitHub.
pub open spec fn profile_view() -> ProfileView {
    ProfileView {
        required_headers: seq![
            "content-type"@,
            "x-github-hook-id"@,
            "x-github-event"@,
            "x-github-delivery"@,
            "x-hub-signature"@,
            "x-hub-signature-256"@,
            "user-agent"@,
            "x-github-hook-installation-target-type"@,
            "x-github-hook-installation-target-id"@,
        ],
        content_type_header: "content-type"@,
        event_header: "x-github-event"@,
        signature_header: "x-hub-signature-256"@,
        user_agent_header: "user-agent"@,
        user_agent_prefix: "GitHub-Hookshot/"@,
        signature_format: SignatureFormat::Sha256Prefixed,
        media_type_answer: MediaTypeStatus::UnsupportedMediaType,
        unknown_event: UnknownEventPolicy::Ignore,
    }
}

/// The profile as a value for the pipeline.
pub fn profile() -> (r: Profile)
    ensures
        r@ == profile_view(),
{
    let r = Profile {
        required_headers: vec![
            "content-type",
            "x-github-hook-id",
            "x-github-event",
            "x-github-delivery",
            "x-hub-signature",
            "x-hub-signature-256",
            "user-agent",
            "x-github-hook-installation-target-type",
            "x-github-hook-installation-target-id",
        ],
        content_type_header: "content-type",
        event_header: "x-github-event",
        signature_header: "x-hub-signature-256",
        user_agent_header: "user-agent",
        user_agent_prefix: "GitHub-Hookshot/",
        signature_format: SignatureFormat::Sha256Prefixed,
        media_type_answer: MediaTypeStatus::UnsupportedMediaType,
        unknown_event: UnknownEventPolicy::Ignore,
    };
    assert(r@.required_headers =~= profile_view().required_headers);
    r
}

/// Whether `signature` is `sha256=` and the hexadecimal HMAC-SHA256 of
/// `bytes` under `secret`.
pub fn signature_matches(secret: &str, signature: &str, bytes: &[u8]) -> (r: bool)
    ensures
        r == (signature@ == expected_signature(SignatureFormat::Sha256Prefixed, secret@, bytes@)),
{
    let mut expected = "sha256=".to_string();
    match hex_digest(secret, bytes) {
        Ok(digest) => {
            expected.append(digest.as_str());
            constant_time_same_text(signature, expected.as_str())
        },
        Err(_) => false,
    }
}

/// What the payload of an event type decodes to: the event of a known type
/// whose body is a document that fits the type's schema, nothing for an
/// unknown event type, whose body is not looked at, and a failure otherwise.
pub open spec fn dispatched(event: Seq<char>, body: Seq<u8>) -> Result<
    Option<VerifiedEventView>,
    ApiErrorView,
> {
    match kind_of(event) {
        None => Ok(None),
        Some(kind) => match document(body) {
            Err(e) => Err(e),
            Ok(v) => match kind {
                EventKind::Push => match push_of(v) {
                    Err(fault) => Err(schema_failure(fault)),
                    Ok(push) => Ok(Some(VerifiedEventView::Push(push))),
                },
                EventKind::Membership => match membership_of(v) {
                    Err(fault) => Err(schema_failure(fault)),
                    Ok(membership) => Ok(Some(VerifiedEventView::Membership(membership))),
                },
            },
        },
    }
}

/// Decodes the body with the schema that the event type selects, if any.
pub fn dispatch(event: &str, body: &[u8]) -> (r: Result<Option<VerifiedEvent>, ApiError>)
    ensures
        r matches Ok(decoded) ==> dispatched(event@, body@) == Ok::<
            Option<VerifiedEventView>,
            ApiErrorView,
        >(decoded.deep_view()),
        r matches Err(e) ==> dispatched(event@, body@) == Err::<
            Option<VerifiedEventView>,
            ApiErrorView,
        >(e@),
{
    match select(event, UnknownEventPolicy::Ignore)? {
        Some(EventKind::Push) => {
            let v = read_document(body)?;
            match decode_push(&v) {
                Ok(push) => Ok(Some(VerifiedEvent::Push(push))),
                Err(fault) => Err(schema_error(fault)),
            }
        },
        Some(EventKind::Membership) => {
            let v = read_document(body)?;
            match decode_membership(&v) {
                Ok(membership) => Ok(Some(VerifiedEvent::Membership(membership))),
                Err(fault) => Err(schema_error(fault)),
            }
        },
        None => Ok(None),
    }
}

/// What a request ends in: the verified event, if its type has one, or the
/// first failure. A method other than `POST` fails before anything else.
pub open spec fn outcome(
    method: Seq<char>,
    values: Map<Seq<char>, Seq<u8>>,
    body: Seq<u8>,
    secret: Option<Seq<char>>,
) -> Result<Option<VerifiedEventView>, ApiErrorView> {
    if method != "POST"@ {
        Err(ApiErrorView::MethodNotAllowed(method))
    } else {
        match admission(profile_view(), values, body, secret) {
            Err(e) => Err(e),
            Ok(event) => dispatched(event, body),
        }
    }
}

/// Handles one webhook request: the method, the checks, then the decoding.
pub fn webhook(method: &str, headers: &HeaderMap, bytes: &[u8], secret: Option<&str>) -> (r: Result<
    Option<VerifiedEvent>,
    ApiError,
>)
    ensures
        r matches Ok(event) ==> outcome(
            method@,
            header_values(*headers),
            bytes@,
            secret_view(secret),
        ) == Ok::<Option<VerifiedEventView>, ApiErrorView>(event.deep_view()),
        r matches Err(e) ==> outcome(
            method@,
            header_values(*headers),
            bytes@,
            secret_view(secret),
        ) == Err::<Option<VerifiedEventView>, ApiErrorView>(e@),
{
    if !same_text(method, "POST") {
        return Err(ApiError::MethodNotAllowed(MethodNotAllowed::new(method.to_string())));
    }
    let profile = profile();
    let event = authenticate(&profile, headers, bytes, secret)?;
    dispatch(event, bytes)
}

} // verus!
