//! What holds of every request, stated over the outcome of the pipeline.

use crate::api::error::{
    status_of, ApiError, ApiErrorView, InternalCauseView, UnsupportedMediaTypeView,
};
use crate::api::response::{body_of, rendered, response_of, response_to};
use crate::api::{lower_name, required_header};
use crate::forgejo;
use crate::github;
use crate::signature::{expected_signature, verdict, SignatureFormat};
use crate::webhook::{admission, first_failure, kind_of, ProfileView};
use vstd::prelude::*;

verus! {

/// Among the names, the first that fails decides: when every name before
/// the `i`-th has its header, as text, the failure is that of the `i`-th.
pub proof fn lemma_first_failure_at(
    values: Map<Seq<char>, Seq<u8>>,
    names: Seq<Seq<char>>,
    i: int,
)
    requires
        0 <= i < names.len(),
        forall|j: int| 0 <= j < i ==> (#[trigger] required_header(values, names[j])) is Ok,
        required_header(values, names[i]) is Err,
    ensures
        first_failure(values, names) == Some(required_header(values, names[i])->Err_0),
    decreases i,
{
    if i > 0 {
        let rest = names.drop_first();
        assert(required_header(values, names[0]) is Ok);
        assert forall|j: int| 0 <= j < i - 1 implies (#[trigger] required_header(
            values,
            rest[j],
        )) is Ok by {
            assert(rest[j] == names[j + 1]);
        }
        lemma_first_failure_at(values, rest, i - 1);
    }
}

/// A request that lacks a required header, and carries every header that
/// is required before it as text, fails as a missing header, and the failure
/// names the lacking header. So of several lacking headers the first in the
/// profile's order is named, whatever else the request holds.
pub proof fn law_first_missing_header_wins(
    profile: ProfileView,
    values: Map<Seq<char>, Seq<u8>>,
    body: Seq<u8>,
    secret: Option<Seq<char>>,
    i: int,
)
    requires
        0 <= i < profile.required_headers.len(),
        forall|j: int|
            0 <= j < i ==> (#[trigger] required_header(values, profile.required_headers[j])) is Ok,
        !values.contains_key(lower_name(profile.required_headers[i])),
    ensures
        admission(profile, values, body, secret) == Err::<Seq<char>, ApiErrorView>(
            ApiErrorView::MissingHeader(profile.required_headers[i]),
        ),
{
    lemma_first_failure_at(values, profile.required_headers, i);
}

/// The same of a Forgejo request: the lacking header that comes first
/// among `content-type`, `x-forgejo-event`, `x-forgejo-delivery`,
/// `x-forgejo-signature` and `user-agent` is the one named.
pub proof fn law_forgejo_missing_header(
    values: Map<Seq<char>, Seq<u8>>,
    body: Seq<u8>,
    secret: Option<Seq<char>>,
    i: int,
)
    requires
        0 <= i < forgejo::profile_view().required_headers.len(),
        forall|j: int|
            0 <= j < i ==> (#[trigger] required_header(
                values,
                forgejo::profile_view().required_headers[j],
            )) is Ok,
        !values.contains_key(lower_name(forgejo::profile_view().required_headers[i])),
    ensures
        forgejo::outcome(values, body, secret) == Err::<forgejo::VerifiedEventView, ApiErrorView>(
            ApiErrorView::MissingHeader(forgejo::profile_view().required_headers[i]),
        ),
{
    law_first_missing_header_wins(forgejo::profile_view(), values, body, secret, i);
}

/// The same of a GitHub request sent as a `POST`.
pub proof fn law_github_missing_header(
    values: Map<Seq<char>, Seq<u8>>,
    body: Seq<u8>,
    secret: Option<Seq<char>>,
    i: int,
)
    requires
        0 <= i < github::profile_view().required_headers.len(),
        forall|j: int|
            0 <= j < i ==> (#[trigger] required_header(
                values,
                github::profile_view().required_headers[j],
            )) is Ok,
        !values.contains_key(lower_name(github::profile_view().required_headers[i])),
    ensures
        github::outcome("POST"@, values, body, secret) == Err::<
            Option<github::VerifiedEventView>,
            ApiErrorView,
        >(ApiErrorView::MissingHeader(github::profile_view().required_headers[i])),
{
    law_first_missing_header_wins(github::profile_view(), values, body, secret, i);
}

/// Under a secret, a signature is accepted exactly when it is the expected
/// one. One that differs from it in any character is a mismatch, which holds
/// the signature as it was sent; the length of the body plays no part.
pub proof fn law_signature_decides(
    secret: Seq<char>,
    body: Seq<u8>,
    signature: Seq<char>,
    format: SignatureFormat,
)
    ensures
        signature == expected_signature(format, secret, body) ==> verdict(
            Some(secret),
            body,
            signature,
            format,
        ) is None,
        signature != expected_signature(format, secret, body) ==> verdict(
            Some(secret),
            body,
            signature,
            format,
        ) == Some(ApiErrorView::MismatchedSignature(signature)),
        (exists|i: int|
            0 <= i < signature.len() && i < expected_signature(format, secret, body).len()
                && signature[i] != expected_signature(format, secret, body)[i]) ==> verdict(
            Some(secret),
            body,
            signature,
            format,
        ) == Some(ApiErrorView::MismatchedSignature(signature)),
{
}

/// Without a secret no signature is accepted: verification fails closed, as
/// an internal error.
pub proof fn law_no_secret_fails_closed(
    body: Seq<u8>,
    signature: Seq<char>,
    format: SignatureFormat,
)
    ensures
        verdict(None, body, signature, format) == Some(
            ApiErrorView::InternalError(InternalCauseView::SecretUnavailable),
        ),
{
}

/// Whether a request carries every header its profile asks for, as text.
pub open spec fn carries_headers(profile: ProfileView, values: Map<Seq<char>, Seq<u8>>) -> bool {
    &&& first_failure(values, profile.required_headers) is None
    &&& required_header(values, profile.content_type_header) is Ok
    &&& required_header(values, profile.event_header) is Ok
    &&& required_header(values, profile.signature_header) is Ok
    &&& required_header(values, profile.user_agent_header) is Ok
}

/// A request whose content type is not `application/json` fails as an
/// unsupported media type whatever its secret, signature and body are: the
/// content type is judged before the signature is.
pub proof fn law_media_type_before_signature(
    profile: ProfileView,
    values: Map<Seq<char>, Seq<u8>>,
    body: Seq<u8>,
    secret: Option<Seq<char>>,
)
    requires
        carries_headers(profile, values),
        required_header(values, profile.content_type_header)->Ok_0 != "application/json"@,
    ensures
        admission(profile, values, body, secret) == Err::<Seq<char>, ApiErrorView>(
            ApiErrorView::UnsupportedMediaType(
                UnsupportedMediaTypeView {
                    content_type: required_header(values, profile.content_type_header)->Ok_0,
                    answer: profile.media_type_answer,
                },
            ),
        ),
{
}

/// A request that passes the checks with an event type outside the closed
/// set is rejected by the Forgejo endpoint, as an unsupported event that
/// names the type.
pub proof fn law_forgejo_rejects_unknown_event(
    values: Map<Seq<char>, Seq<u8>>,
    body: Seq<u8>,
    secret: Option<Seq<char>>,
)
    requires
        admission(forgejo::profile_view(), values, body, secret) is Ok,
        kind_of(admission(forgejo::profile_view(), values, body, secret)->Ok_0) is None,
    ensures
        forgejo::outcome(values, body, secret) == Err::<forgejo::VerifiedEventView, ApiErrorView>(
            ApiErrorView::UnsupportedWebhookEvent(
                admission(forgejo::profile_view(), values, body, secret)->Ok_0,
            ),
        ),
{
}

/// A request that passes the checks with an event type outside the closed
/// set is accepted by the GitHub endpoint, and nothing is decoded.
pub proof fn law_github_ignores_unknown_event(
    values: Map<Seq<char>, Seq<u8>>,
    body: Seq<u8>,
    secret: Option<Seq<char>>,
)
    requires
        admission(github::profile_view(), values, body, secret) is Ok,
        kind_of(admission(github::profile_view(), values, body, secret)->Ok_0) is None,
    ensures
        github::outcome("POST"@, values, body, secret) == Ok::<
            Option<github::VerifiedEventView>,
            ApiErrorView,
        >(None),
        response_of(github::outcome("POST"@, values, body, secret)).0 == 200,
{
}

/// A request is admitted only if its signature header is the keyed hash of
/// its very body under a secret that is there.
pub proof fn law_admitted_is_authentic(
    profile: ProfileView,
    values: Map<Seq<char>, Seq<u8>>,
    body: Seq<u8>,
    secret: Option<Seq<char>>,
)
    requires
        admission(profile, values, body, secret) is Ok,
    ensures
        secret is Some,
        required_header(values, profile.signature_header) == Ok::<Seq<char>, ApiErrorView>(
            expected_signature(profile.signature_format, secret->0, body),
        ),
{
}

/// No event is verified by the Forgejo endpoint unless the request's
/// signature is the keyed hash of the body the event was decoded from.
pub proof fn law_forgejo_event_is_authentic(
    values: Map<Seq<char>, Seq<u8>>,
    body: Seq<u8>,
    secret: Option<Seq<char>>,
)
    requires
        forgejo::outcome(values, body, secret) is Ok,
    ensures
        secret is Some,
        required_header(values, "x-forgejo-signature"@) == Ok::<Seq<char>, ApiErrorView>(
            expected_signature(SignatureFormat::BareHex, secret->0, body),
        ),
{
    law_admitted_is_authentic(forgejo::profile_view(), values, body, secret);
}

/// No event is verified by the GitHub endpoint unless the request's
/// signature is the keyed hash of the body the event was decoded from.
pub proof fn law_github_event_is_authentic(
    method: Seq<char>,
    values: Map<Seq<char>, Seq<u8>>,
    body: Seq<u8>,
    secret: Option<Seq<char>>,
)
    requires
        github::outcome(method, values, body, secret) matches Ok(Some(_)),
    ensures
        secret is Some,
        required_header(values, "x-hub-signature-256"@) == Ok::<Seq<char>, ApiErrorView>(
            expected_signature(SignatureFormat::Sha256Prefixed, secret->0, body),
        ),
{
    law_admitted_is_authentic(github::profile_view(), values, body, secret);
}

/// Whether a handler's result is the one that the outcome names.
pub open spec fn forgejo_result(
    result: Result<forgejo::VerifiedEvent, ApiError>,
    outcome: Result<forgejo::VerifiedEventView, ApiErrorView>,
) -> bool {
    match result {
        Ok(event) => outcome == Ok::<forgejo::VerifiedEventView, ApiErrorView>(event@),
        Err(e) => outcome == Err::<forgejo::VerifiedEventView, ApiErrorView>(e@),
    }
}

/// Whether a handler's result is the one that the outcome names.
pub open spec fn github_result(
    result: Result<Option<github::VerifiedEvent>, ApiError>,
    outcome: Result<Option<github::VerifiedEventView>, ApiErrorView>,
) -> bool {
    match result {
        Ok(event) => outcome == Ok::<Option<github::VerifiedEventView>, ApiErrorView>(
            event.deep_view(),
        ),
        Err(e) => outcome == Err::<Option<github::VerifiedEventView>, ApiErrorView>(e@),
    }
}

/// Handling the same Forgejo request twice gives the same result and the
/// same response: nothing is kept from one request to the next.
pub proof fn law_forgejo_replay(
    values: Map<Seq<char>, Seq<u8>>,
    body: Seq<u8>,
    secret: Option<Seq<char>>,
    first: Result<forgejo::VerifiedEvent, ApiError>,
    second: Result<forgejo::VerifiedEvent, ApiError>,
)
    requires
        forgejo_result(first, forgejo::outcome(values, body, secret)),
        forgejo_result(second, forgejo::outcome(values, body, secret)),
    ensures
        first matches Ok(a) ==> (second matches Ok(b) && a@ == b@),
        first matches Err(a) ==> (second matches Err(b) && a@ == b@),
        response_to(first) == response_to(second),
{
}

/// Handling the same GitHub request twice gives the same result and the
/// same response.
pub proof fn law_github_replay(
    method: Seq<char>,
    values: Map<Seq<char>, Seq<u8>>,
    body: Seq<u8>,
    secret: Option<Seq<char>>,
    first: Result<Option<github::VerifiedEvent>, ApiError>,
    second: Result<Option<github::VerifiedEvent>, ApiError>,
)
    requires
        github_result(first, github::outcome(method, values, body, secret)),
        github_result(second, github::outcome(method, values, body, secret)),
    ensures
        first matches Ok(a) ==> (second matches Ok(b) && a.deep_view() == b.deep_view()),
        first matches Err(a) ==> (second matches Err(b) && a@ == b@),
        response_to(first) == response_to(second),
{
}

/// The response to an internal error shows nothing of its cause: whatever
/// the cause, the status is 500 and the body names the kind alone.
pub proof fn law_internal_cause_is_not_shown(cause: InternalCauseView, other: InternalCauseView)
    ensures
        status_of(ApiErrorView::InternalError(cause)) == 500,
        body_of(ApiErrorView::InternalError(cause)).detail is None,
        body_of(ApiErrorView::InternalError(cause)) == body_of(ApiErrorView::InternalError(other)),
        rendered(body_of(ApiErrorView::InternalError(cause))) == rendered(
            body_of(ApiErrorView::InternalError(other)),
        ),
{
}

} // verus!
