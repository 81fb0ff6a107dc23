//! The checks every provider's webhook passes before its payload is read,
//! in one pipeline that a provider's profile parameterises.
//!
//! The order is fixed. First every required header is looked up, in the
//! order the profile lists them, and the first that is missing or is not
//! text ends the request. Then the content type is checked, then the user
//! agent, then the signature over the body. Only a request that passes all of
//! them has its event type looked at.

use crate::api::error::{
    ApiError, ApiErrorView, MediaTypeStatus, UnsupportedMediaType, UnsupportedMediaTypeView,
    UnsupportedUserAgent, UnsupportedWebhookEvent,
};
use crate::api::{header_get_required, header_values, required_header};
use crate::signature::{secret_view, verdict, verify, SignatureFormat};
use crate::text::{same_text, starts_with};
use axum::http::HeaderMap;
use vstd::prelude::*;

verus! {

/// What a provider's endpoint does with an event type outside the closed set.
#[derive(Clone, Copy, Debug, PartialEq, Eq, Structural)]
pub enum UnknownEventPolicy {
    /// The request fails as an unsupported event.
    Reject,
    /// The request succeeds, and nothing is decoded.
    Ignore,
}

/// The kinds of event that have a payload schema.
#[derive(Clone, Copy, Debug, PartialEq, Eq, Structural)]
pub enum EventKind {
    Push,
    Membership,
}

/// The header names, formats and policies of one provider.
#[derive(Debug)]
pub struct Profile {
    /// The headers a request must carry, in the order they are checked.
    pub required_headers: Vec<&'static str>,
    pub content_type_header: &'static str,
    pub event_header: &'static str,
    pub signature_header: &'static str,
    pub user_agent_header: &'static str,
    /// What the provider's user agent begins with.
    pub user_agent_prefix: &'static str,
    pub signature_format: SignatureFormat,
    pub media_type_answer: MediaTypeStatus,
    pub unknown_event: UnknownEventPolicy,
}

pub struct ProfileView {
    pub required_headers: Seq<Seq<char>>,
    pub content_type_header: Seq<char>,
    pub event_header: Seq<char>,
    pub signature_header: Seq<char>,
    pub user_agent_header: Seq<char>,
    pub user_agent_prefix: Seq<char>,
    pub signature_format: SignatureFormat,
    pub media_type_answer: MediaTypeStatus,
    pub unknown_event: UnknownEventPolicy,
}

impl View for Profile {
    type V = ProfileView;

    open spec fn view(&self) -> ProfileView {
        ProfileView {
            required_headers: Seq::new(
                self.required_headers@.len(),
                |i: int| self.required_headers@[i]@,
            ),
            content_type_header: self.content_type_header@,
            event_header: self.event_header@,
            signature_header: self.signature_header@,
            user_agent_header: self.user_agent_header@,
            user_agent_prefix: self.user_agent_prefix@,
            signature_format: self.signature_format,
            media_type_answer: self.media_type_answer,
            unknown_event: self.unknown_event,
        }
    }
}

/// The failure of the first of `names` that is missing or is not text.
pub open spec fn first_failure(values: Map<Seq<char>, Seq<u8>>, names: Seq<Seq<char>>) -> Option<
    ApiErrorView,
>
    decreases names.len(),
{
    if names.len() == 0 {
        None
    } else {
        match required_header(values, names[0]) {
            Err(e) => Some(e),
            Ok(_) => first_failure(values, names.drop_first()),
        }
    }
}

/// The failure of a content type other than exactly `application/json`.
pub open spec fn media_type_failure(content_type: Seq<char>, answer: MediaTypeStatus) -> Option<
    ApiErrorView,
> {
    if content_type == "application/json"@ {
        None
    } else {
        Some(
            ApiErrorView::UnsupportedMediaType(UnsupportedMediaTypeView { content_type, answer }),
        )
    }
}

/// The failure of a user agent that does not begin with `prefix`.
pub open spec fn origin_failure(user_agent: Seq<char>, prefix: Seq<char>) -> Option<ApiErrorView> {
    if prefix.is_prefix_of(user_agent) {
        None
    } else {
        Some(ApiErrorView::UnsupportedUserAgent(user_agent))
    }
}

/// Accepts only the exact media type `application/json`.
pub fn check_media_type(content_type: &str, answer: MediaTypeStatus) -> (r: Result<(), ApiError>)
    ensures
        r is Ok <==> media_type_failure(content_type@, answer) is None,
        r matches Err(e) ==> media_type_failure(content_type@, answer) == Some(e@),
{
    if same_text(content_type, "application/json") {
        Ok(())
    } else {
        Err(
            ApiError::UnsupportedMediaType(
                UnsupportedMediaType::answered_with(content_type.to_string(), answer),
            ),
        )
    }
}

/// Accepts only a user agent that begins with `prefix`. This is a hint at
/// who sent the request and proves nothing: the signature does.
pub fn check_origin(user_agent: &str, prefix: &str) -> (r: Result<(), ApiError>)
    ensures
        r is Ok <==> origin_failure(user_agent@, prefix@) is None,
        r matches Err(e) ==> origin_failure(user_agent@, prefix@) == Some(e@),
{
    if starts_with(user_agent, prefix) {
        Ok(())
    } else {
        Err(ApiError::UnsupportedUserAgent(UnsupportedUserAgent::new(user_agent.to_string())))
    }
}

/// What the checks end in: the event type of a request that passes them
/// all, or the first failure.
pub open spec fn admission(
    profile: ProfileView,
    values: Map<Seq<char>, Seq<u8>>,
    body: Seq<u8>,
    secret: Option<Seq<char>>,
) -> Result<Seq<char>, ApiErrorView> {
    match first_failure(values, profile.required_headers) {
        Some(e) => Err(e),
        None => match required_header(values, profile.content_type_header) {
            Err(e) => Err(e),
            Ok(content_type) => match required_header(values, profile.event_header) {
                Err(e) => Err(e),
                Ok(event) => match required_header(values, profile.signature_header) {
                    Err(e) => Err(e),
                    Ok(signature) => match required_header(values, profile.user_agent_header) {
                        Err(e) => Err(e),
                        Ok(user_agent) => match checks_failure(
                            profile,
                            content_type,
                            user_agent,
                            signature,
                            body,
                            secret,
                        ) {
                            Some(e) => Err(e),
                            None => Ok(event),
                        },
                    },
                },
            },
        },
    }
}

/// The first failure among the checks on the header values: content type,
/// then user agent, then signature.
pub open spec fn checks_failure(
    profile: ProfileView,
    content_type: Seq<char>,
    user_agent: Seq<char>,
    signature: Seq<char>,
    body: Seq<u8>,
    secret: Option<Seq<char>>,
) -> Option<ApiErrorView> {
    if media_type_failure(content_type, profile.media_type_answer) is Some {
        media_type_failure(content_type, profile.media_type_answer)
    } else if origin_failure(user_agent, profile.user_agent_prefix) is Some {
        origin_failure(user_agent, profile.user_agent_prefix)
    } else {
        verdict(secret, body, signature, profile.signature_format)
    }
}

/// Runs the checks on a request and gives the event type it announces.
pub fn authenticate<'a>(
    profile: &Profile,
    headers: &'a HeaderMap,
    body: &[u8],
    secret: Option<&str>,
) -> (r: Result<&'a str, ApiError>)
    ensures
        r matches Ok(event) ==> admission(
            profile@,
            header_values(*headers),
            body@,
            secret_view(secret),
        ) == Ok::<Seq<char>, ApiErrorView>(event@),
        r matches Err(e) ==> admission(
            profile@,
            header_values(*headers),
            body@,
            secret_view(secret),
        ) == Err::<Seq<char>, ApiErrorView>(e@),
{
    let ghost names = profile@.required_headers;
    let ghost values = header_values(*headers);
    let mut i: usize = 0;
    assert(names.skip(0) =~= names);
    while i < profile.required_headers.len()
        invariant
            i <= profile.required_headers.len(),
            names == profile@.required_headers,
            values == header_values(*headers),
            first_failure(values, names) == first_failure(values, names.skip(i as int)),
        decreases profile.required_headers.len() - i,
    {
        proof {
            assert(names.skip(i as int)[0] == profile.required_headers@[i as int]@);
            assert(names.skip(i as int).drop_first() =~= names.skip(i + 1));
        }
        header_get_required(headers, profile.required_headers[i])?;
        i += 1;
    }
    let content_type = header_get_required(headers, profile.content_type_header)?;
    let event = header_get_required(headers, profile.event_header)?;
    let signature = header_get_required(headers, profile.signature_header)?;
    let user_agent = header_get_required(headers, profile.user_agent_header)?;
    check_media_type(content_type, profile.media_type_answer)?;
    check_origin(user_agent, profile.user_agent_prefix)?;
    verify(secret, body, signature, profile.signature_format)?;
    Ok(event)
}

/// The kind of a known event type.
pub open spec fn kind_of(event: Seq<char>) -> Option<EventKind> {
    if event == "push"@ {
        Some(EventKind::Push)
    } else if event == "membership"@ {
        Some(EventKind::Membership)
    } else {
        None
    }
}

/// What an event type selects under a policy: a schema, nothing at all, or
/// the failure of an event that is not supported.
pub open spec fn selection(event: Seq<char>, policy: UnknownEventPolicy) -> Result<
    Option<EventKind>,
    ApiErrorView,
> {
    match kind_of(event) {
        Some(kind) => Ok(Some(kind)),
        None => match policy {
            UnknownEventPolicy::Ignore => Ok(None),
            UnknownEventPolicy::Reject => Err(ApiErrorView::UnsupportedWebhookEvent(event)),
        },
    }
}

/// Maps an event type to the schema its payload is read with.
pub fn select(event: &str, policy: UnknownEventPolicy) -> (r: Result<Option<EventKind>, ApiError>)
    ensures
        r matches Ok(kind) ==> selection(event@, policy) == Ok::<Option<EventKind>, ApiErrorView>(
            kind,
        ),
        r matches Err(e) ==> selection(event@, policy) == Err::<Option<EventKind>, ApiErrorView>(
            e@,
        ),
{
    if same_text(event, "push") {
        Ok(Some(EventKind::Push))
    } else if same_text(event, "membership") {
        Ok(Some(EventKind::Membership))
    } else {
        match policy {
            UnknownEventPolicy::Ignore => Ok(None),
            UnknownEventPolicy::Reject => Err(
                ApiError::UnsupportedWebhookEvent(UnsupportedWebhookEvent::new(event.to_string())),
            ),
        }
    }
}

} // verus!
