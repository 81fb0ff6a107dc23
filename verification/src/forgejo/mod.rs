//! The endpoint for webhooks of a Forgejo instance.
//!
//! A request must carry, in this order, the headers `content-type`,
//! `x-forgejo-event`, `x-forgejo-delivery`, `x-forgejo-signature` and
//! `user-agent`. Its content type must be `application/json`, answered with
//! 400 otherwise; its user agent must begin with `Go-http-client/`; its
//! signature is the bare hexadecimal HMAC-SHA256 of the body. An event type
//! other than `push` and `membership` is rejected.

pub mod payload;

use crate::api::error::{ApiError, ApiErrorView, MediaTypeStatus};
use crate::api::header_values;
use crate::forgejo::payload::{
    decode_membership, decode_push, membership_of, push_of, Membership, MembershipView, Push,
    PushView,
};
use crate::json::{document, read_document, schema_error, schema_failure};
use crate::signature::{secret_view, verdict, verify, SignatureFormat};
use crate::webhook::{
    admission, authenticate, check_media_type, check_origin, kind_of, media_type_failure, select,
    EventKind, Profile, ProfileView, UnknownEventPolicy,
};
use axum::http::HeaderMap;
use vstd::prelude::*;

verus! {

/// An event whose request passed every check, with its decoded payload.
#[derive(Debug)]
pub enum VerifiedEvent {
    Push(Push),
    Membership(Membership),
}

pub enum VerifiedEventView {
    Push(PushView),
    Membership(MembershipView),
}

impl View for VerifiedEvent {
    type V = VerifiedEventView;

    open spec fn view(&self) -> VerifiedEventView {
        match self {
            VerifiedEvent::Push(push) => VerifiedEventView::Push(push@),
            VerifiedEvent::Membership(membership) => VerifiedEventView::Membership(membership@),
        }
    }
}

/// The profile of a Forgejo instance.
pub open spec fn profile_view() -> ProfileView {
    ProfileView {
        required_headers: seq![
            "content-type"@,
            "x-forgejo-event"@,
            "x-forgejo-delivery"@,
            "x-forgejo-signature"@,
            "user-agent"@,
        ],
        content_type_header: "content-type"@,
        event_header: "x-forgejo-event"@,
        signature_header: "x-forgejo-signature"@,
        user_agent_header: "user-agent"@,
        user_agent_prefix: "Go-http-client/"@,
        signature_format: SignatureFormat::BareHex,
        media_type_answer: MediaTypeStatus::BadRequest,
        unknown_event: UnknownEventPolicy::Reject,
    }
}

/// The profile as a value for the pipeline.
pub fn profile() -> (r: Profile)
    ensures
        r@ == profile_view(),
{
    let r = Profile {
        required_headers: vec![
            "content-type",
            "x-forgejo-event",
            "x-forgejo-delivery",
            "x-forgejo-signature",
            "user-agent",
        ],
        content_type_header: "content-type",
        event_header: "x-forgejo-event",
        signature_header: "x-forgejo-signature",
        user_agent_header: "user-agent",
        user_agent_prefix: "Go-http-client/",
        signature_format: SignatureFormat::BareHex,
        media_type_answer: MediaTypeStatus::BadRequest,
        unknown_event: UnknownEventPolicy::Reject,
    };
    assert(r@.required_headers =~= profile_view().required_headers);
    r
}

/// Accepts only the exact media type `application/json`; any other is
/// answered with 400.
pub fn check_content_type(content_type: &str) -> (r: Result<(), ApiError>)
    ensures
        r is Ok <==> content_type@ == "application/json"@,
        r matches Err(e) ==> Some(e@) == media_type_failure(
            content_type@,
            MediaTypeStatus::BadRequest,
        ),
{
    check_media_type(content_type, MediaTypeStatus::BadRequest)
}

/// Accepts only a user agent that begins with `Go-http-client/`.
pub fn check_user_agent(user_agent: &str) -> (r: Result<(), ApiError>)
    ensures
        r is Ok <==> "Go-http-client/"@.is_prefix_of(user_agent@),
        r matches Err(e) ==> e@ == ApiErrorView::UnsupportedUserAgent(user_agent@),
{
    check_origin(user_agent, "Go-http-client/")
}

/// Accepts only the bare hexadecimal HMAC-SHA256 of `bytes` under `secret`.
pub fn check_signature(secret: Option<&str>, signature: &str, bytes: &[u8]) -> (r: Result<
    (),
    ApiError,
>)
    ensures
        r is Ok <==> verdict(secret_view(secret), bytes@, signature@, SignatureFormat::BareHex)
            is None,
        r matches Err(e) ==> verdict(
            secret_view(secret),
            bytes@,
            signature@,
            SignatureFormat::BareHex,
        ) == Some(e@),
{
    verify(secret, bytes, signature, SignatureFormat::BareHex)
}

/// What the payload of an event type decodes to: the event of a known type
/// whose body is a document that fits the type's schema, and a failure
/// otherwise. An unknown event type fails before the body is looked at.
pub open spec fn dispatched(event: Seq<char>, body: Seq<u8>) -> Result<
    VerifiedEventView,
    ApiErrorView,
> {
    match kind_of(event) {
        None => Err(ApiErrorView::UnsupportedWebhookEvent(event)),
        Some(kind) => match document(body) {
            Err(e) => Err(e),
            Ok(v) => match kind {
                EventKind::Push => match push_of(v) {
                    Err(fault) => Err(schema_failure(fault)),
                    Ok(push) => Ok(VerifiedEventView::Push(push)),
                },
                EventKind::Membership => match membership_of(v) {
                    Err(fault) => Err(schema_failure(fault)),
                    Ok(membership) => Ok(VerifiedEventView::Membership(membership)),
                },
            },
        },
    }
}

/// Decodes the body with the schema that the event type selects.
pub fn dispatch(event: &str, body: &[u8]) -> (r: Result<VerifiedEvent, ApiError>)
    ensures
        r matches Ok(decoded) ==> dispatched(event@, body@) == Ok::<
            VerifiedEventView,
            ApiErrorView,
        >(decoded@),
        r matches Err(e) ==> dispatched(event@, body@) == Err::<VerifiedEventView, ApiErrorView>(
            e@,
        ),
{
    match select(event, UnknownEventPolicy::Reject)? {
        Some(EventKind::Push) => {
            let v = read_document(body)?;
            match decode_push(&v) {
                Ok(push) => Ok(VerifiedEvent::Push(push)),
                Err(fault) => Err(schema_error(fault)),
            }
        },
        Some(EventKind::Membership) => {
            let v = read_document(body)?;
            match decode_membership(&v) {
                Ok(membership) => Ok(VerifiedEvent::Membership(membership)),
                Err(fault) => Err(schema_error(fault)),
            }
        },
        None => unreached(),
    }
}

/// What a request ends in: the verified event, or the first failure of the
/// pipeline.
pub open spec fn outcome(
    values: Map<Seq<char>, Seq<u8>>,
    body: Seq<u8>,
    secret: Option<Seq<char>>,
) -> Result<VerifiedEventView, ApiErrorView> {
    match admission(profile_view(), values, body, secret) {
        Err(e) => Err(e),
        Ok(event) => dispatched(event, body),
    }
}

/// Handles one webhook request: the checks, then the decoding.
pub fn webhook_handler(headers: &HeaderMap, bytes: &[u8], secret: Option<&str>) -> (r: Result<
    VerifiedEvent,
    ApiError,
>)
    ensures
        r matches Ok(event) ==> outcome(header_values(*headers), bytes@, secret_view(secret))
            == Ok::<VerifiedEventView, ApiErrorView>(event@),
        r matches Err(e) ==> outcome(header_values(*headers), bytes@, secret_view(secret)) == Err::<
            VerifiedEventView,
            ApiErrorView,
        >(e@),
{
    let profile = profile();
    let event = authenticate(&profile, headers, bytes, secret)?;
    dispatch(event, bytes)
}

} // verus!
