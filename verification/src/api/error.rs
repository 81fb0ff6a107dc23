//! The closed set of failures a webhook request can end in, each with its
//! fixed HTTP status and the public data that explains it.

use axum::extract::rejection::JsonRejection;
use axum::http::header::ToStrError;
use hmac::digest::InvalidLength;
use vstd::prelude::*;

verus! {

/// Status of a request that was understood and refused.
pub const BAD_REQUEST: u16 = 400;

/// Status of a request for a route that does not exist.
pub const NOT_FOUND: u16 = 404;

/// Status of a request whose route exists under another method.
pub const METHOD_NOT_ALLOWED: u16 = 405;

/// Status of a request whose declared media type is not served.
pub const UNSUPPORTED_MEDIA_TYPE: u16 = 415;

/// Status of a well-formed document that does not fit the schema.
pub const UNPROCESSABLE_ENTITY: u16 = 422;

/// Status of a failure on the receiving side.
pub const INTERNAL_SERVER_ERROR: u16 = 500;

/// Why the receiver itself could not do its work.
#[derive(Debug)]
pub enum InternalCause {
    /// No secret is configured for the provider.
    SecretUnavailable,
    /// The keyed hash refused the secret as its key.
    KeyRejected,
    /// A failure outside the pipeline, in words.
    Other(String),
}

pub enum InternalCauseView {
    SecretUnavailable,
    KeyRejected,
    Other(Seq<char>),
}

impl View for InternalCause {
    type V = InternalCauseView;

    open spec fn view(&self) -> InternalCauseView {
        match self {
            InternalCause::SecretUnavailable => InternalCauseView::SecretUnavailable,
            InternalCause::KeyRejected => InternalCauseView::KeyRejected,
            InternalCause::Other(text) => InternalCauseView::Other(text@),
        }
    }
}

/// Configuration or cryptographic-construction failure. The cause is for the
/// server's log and never part of a response.
#[derive(Debug)]
pub struct InternalError {
    pub source: InternalCause,
}

impl View for InternalError {
    type V = InternalCauseView;

    open spec fn view(&self) -> InternalCauseView {
        self.source@
    }
}

impl InternalError {
    pub fn new(source: InternalCause) -> (r: Self)
        ensures
            r.source == source,
    {
        InternalError { source }
    }

    pub fn status(&self) -> (r: u16)
        ensures
            r == INTERNAL_SERVER_ERROR,
    {
        INTERNAL_SERVER_ERROR
    }

    /// The cause in words, for the log.
    pub fn to_string(&self) -> (r: String)
        ensures
            r@ == internal_text(self@),
    {
        match &self.source {
            InternalCause::SecretUnavailable => "webhook secret unavailable".to_string(),
            InternalCause::KeyRejected => "webhook secret refused as key".to_string(),
            InternalCause::Other(text) => text.clone(),
        }
    }
}

/// The words that stand for an internal cause in the log.
pub open spec fn internal_text(cause: InternalCauseView) -> Seq<char> {
    match cause {
        InternalCauseView::SecretUnavailable => "webhook secret unavailable"@,
        InternalCauseView::KeyRejected => "webhook secret refused as key"@,
        InternalCauseView::Other(text) => text,
    }
}

/// No route matches the requested URI.
#[derive(Debug)]
pub struct ResourceNotFound {
    pub uri: String,
}

impl View for ResourceNotFound {
    type V = Seq<char>;

    open spec fn view(&self) -> Seq<char> {
        self.uri@
    }
}

impl ResourceNotFound {
    pub fn new(uri: String) -> (r: Self)
        ensures
            r.uri == uri,
    {
        ResourceNotFound { uri }
    }

    pub fn status(&self) -> (r: u16)
        ensures
            r == NOT_FOUND,
    {
        NOT_FOUND
    }

    pub fn to_string(&self) -> (r: String)
        ensures
            r@ == self@,
    {
        self.uri.clone()
    }
}

/// The route exists, but not under the requested method.
#[derive(Debug)]
pub struct MethodNotAllowed {
    pub method: String,
}

impl View for MethodNotAllowed {
    type V = Seq<char>;

    open spec fn view(&self) -> Seq<char> {
        self.method@
    }
}

impl MethodNotAllowed {
    pub fn new(method: String) -> (r: Self)
        ensures
            r.method == method,
    {
        MethodNotAllowed { method }
    }

    pub fn status(&self) -> (r: u16)
        ensures
            r == METHOD_NOT_ALLOWED,
    {
        METHOD_NOT_ALLOWED
    }

    pub fn to_string(&self) -> (r: String)
        ensures
            r@ == self@,
    {
        self.method.clone()
    }
}

/// A required header is absent.
#[derive(Debug)]
pub struct MissingHeader {
    pub key: String,
}

impl View for MissingHeader {
    type V = Seq<char>;

    open spec fn view(&self) -> Seq<char> {
        self.key@
    }
}

impl MissingHeader {
    pub fn new(key: String) -> (r: Self)
        ensures
            r.key == key,
    {
        MissingHeader { key }
    }

    pub fn status(&self) -> (r: u16)
        ensures
            r == BAD_REQUEST,
    {
        BAD_REQUEST
    }

    pub fn to_string(&self) -> (r: String)
        ensures
            r@ == self@,
    {
        self.key.clone()
    }
}

/// Why a header value is not text: it holds a byte outside the visible
/// ASCII range. Carries nothing else.
#[verifier::external_type_specification]
#[verifier::external_body]
pub struct ExToStrError(axum::http::header::ToStrError);

/// A required header is present, but its value is not text.
#[derive(Debug)]
pub struct MalformedHeader {
    pub key: String,
    pub source: ToStrError,
}

impl View for MalformedHeader {
    type V = Seq<char>;

    open spec fn view(&self) -> Seq<char> {
        self.key@
    }
}

impl MalformedHeader {
    pub fn new(key: String, source: ToStrError) -> (r: Self)
        ensures
            r.key == key,
            r.source == source,
    {
        MalformedHeader { key, source }
    }

    pub fn status(&self) -> (r: u16)
        ensures
            r == BAD_REQUEST,
    {
        BAD_REQUEST
    }

    pub fn to_string(&self) -> (r: String)
        ensures
            r@ == self@,
    {
        self.key.clone()
    }
}

/// The status a provider answers an unsupported media type with.
#[derive(Clone, Copy, Debug, PartialEq, Eq, Structural)]
pub enum MediaTypeStatus {
    BadRequest,
    UnsupportedMediaType,
}

impl MediaTypeStatus {
    pub open spec fn code(self) -> u16 {
        match self {
            MediaTypeStatus::BadRequest => BAD_REQUEST,
            MediaTypeStatus::UnsupportedMediaType => UNSUPPORTED_MEDIA_TYPE,
        }
    }
}

/// The declared content type is not `application/json`.
#[derive(Debug)]
pub struct UnsupportedMediaType {
    pub content_type: String,
    pub answer: MediaTypeStatus,
}

pub struct UnsupportedMediaTypeView {
    pub content_type: Seq<char>,
    pub answer: MediaTypeStatus,
}

impl View for UnsupportedMediaType {
    type V = UnsupportedMediaTypeView;

    open spec fn view(&self) -> UnsupportedMediaTypeView {
        UnsupportedMediaTypeView { content_type: self.content_type@, answer: self.answer }
    }
}

impl UnsupportedMediaType {
    /// The failure as answered with 415.
    pub fn new(content_type: String) -> (r: Self)
        ensures
            r.content_type == content_type,
            r.answer == MediaTypeStatus::UnsupportedMediaType,
    {
        UnsupportedMediaType { content_type, answer: MediaTypeStatus::UnsupportedMediaType }
    }

    /// The failure as answered with the status the provider's profile names.
    pub fn answered_with(content_type: String, answer: MediaTypeStatus) -> (r: Self)
        ensures
            r.content_type == content_type,
            r.answer == answer,
    {
        UnsupportedMediaType { content_type, answer }
    }

    pub fn status(&self) -> (r: u16)
        ensures
            r == self.answer.code(),
    {
        match self.answer {
            MediaTypeStatus::BadRequest => BAD_REQUEST,
            MediaTypeStatus::UnsupportedMediaType => UNSUPPORTED_MEDIA_TYPE,
        }
    }

    pub fn to_string(&self) -> (r: String)
        ensures
            r@ == self@.content_type,
    {
        self.content_type.clone()
    }
}

/// The user agent lacks the prefix the provider sends.
#[derive(Debug)]
pub struct UnsupportedUserAgent {
    pub user_agent: String,
}

impl View for UnsupportedUserAgent {
    type V = Seq<char>;

    open spec fn view(&self) -> Seq<char> {
        self.user_agent@
    }
}

impl UnsupportedUserAgent {
    pub fn new(user_agent: String) -> (r: Self)
        ensures
            r.user_agent == user_agent,
    {
        UnsupportedUserAgent { user_agent }
    }

    pub fn status(&self) -> (r: u16)
        ensures
            r == BAD_REQUEST,
    {
        BAD_REQUEST
    }

    pub fn to_string(&self) -> (r: String)
        ensures
            r@ == self@,
    {
        self.user_agent.clone()
    }
}

/// The signature header differs from the keyed hash of the body. Holds only
/// what the caller sent.
#[derive(Debug)]
pub struct MismatchedSignature {
    pub signature: String,
}

impl View for MismatchedSignature {
    type V = Seq<char>;

    open spec fn view(&self) -> Seq<char> {
        self.signature@
    }
}

impl MismatchedSignature {
    pub fn new(signature: String) -> (r: Self)
        ensures
            r.signature == signature,
    {
        MismatchedSignature { signature }
    }

    pub fn status(&self) -> (r: u16)
        ensures
            r == BAD_REQUEST,
    {
        BAD_REQUEST
    }

    pub fn to_string(&self) -> (r: String)
        ensures
            r@ == self@,
    {
        self.signature.clone()
    }
}

/// The event type is outside the closed set, under a profile that rejects
/// such events.
#[derive(Debug)]
pub struct UnsupportedWebhookEvent {
    pub event: String,
}

impl View for UnsupportedWebhookEvent {
    type V = Seq<char>;

    open spec fn view(&self) -> Seq<char> {
        self.event@
    }
}

impl UnsupportedWebhookEvent {
    pub fn new(event: String) -> (r: Self)
        ensures
            r.event == event,
    {
        UnsupportedWebhookEvent { event }
    }

    pub fn status(&self) -> (r: u16)
        ensures
            r == BAD_REQUEST,
    {
        BAD_REQUEST
    }

    pub fn to_string(&self) -> (r: String)
        ensures
            r@ == self@,
    {
        self.event.clone()
    }
}

/// How a JSON value fails a payload schema.
#[derive(Clone, Copy, Debug, PartialEq, Eq, Structural)]
pub enum FaultKind {
    /// A required member is absent.
    Missing,
    /// A member holds a value of another kind than the schema names.
    Mismatch,
    /// A variant tag holds a name outside the variant set.
    UnknownVariant,
}

/// The structural cause of a schema failure: what is wrong, and at which
/// member.
#[derive(Debug)]
pub struct SchemaFault {
    pub kind: FaultKind,
    pub field: String,
}

pub struct SchemaFaultView {
    pub kind: FaultKind,
    pub field: Seq<char>,
}

impl View for SchemaFault {
    type V = SchemaFaultView;

    open spec fn view(&self) -> SchemaFaultView {
        SchemaFaultView { kind: self.kind, field: self.field@ }
    }
}

/// The words that open the description of a fault of each kind.
pub open spec fn fault_lead(kind: FaultKind) -> Seq<char> {
    match kind {
        FaultKind::Missing => "missing field `"@,
        FaultKind::Mismatch => "invalid type at field `"@,
        FaultKind::UnknownVariant => "unknown variant at field `"@,
    }
}

/// A fault in words: its lead, the member's name, a closing backtick.
pub open spec fn fault_text(fault: SchemaFaultView) -> Seq<char> {
    fault_lead(fault.kind) + fault.field + "`"@
}

impl SchemaFault {
    pub fn new(kind: FaultKind, field: String) -> (r: Self)
        ensures
            r.kind == kind,
            r.field == field,
    {
        SchemaFault { kind, field }
    }

    pub fn to_string(&self) -> (r: String)
        ensures
            r@ == fault_text(self@),
    {
        let mut text = match self.kind {
            FaultKind::Missing => "missing field `".to_string(),
            FaultKind::Mismatch => "invalid type at field `".to_string(),
            FaultKind::UnknownVariant => "unknown variant at field `".to_string(),
        };
        text.append(self.field.as_str());
        text.append("`");
        text
    }
}

/// Why a body could not be read as JSON: the rejection the JSON extractor
/// gave. Opaque but for its status and its text.
#[verifier::external_type_specification]
#[verifier::external_body]
pub struct ExJsonRejection(axum::extract::rejection::JsonRejection);

/// The status code a rejection asks for.
pub uninterp spec fn rejection_status(rejection: JsonRejection) -> u16;

/// The text a rejection is displayed as.
pub uninterp spec fn rejection_text(rejection: JsonRejection) -> Seq<char>;

/// `JsonRejection::status`, as a number.
#[verifier::external_body]
fn status_of_rejection(rejection: &JsonRejection) -> (code: u16)
    ensures
        code == rejection_status(*rejection),
{
    rejection.status().as_u16()
}

/// `JsonRejection`'s `Display`, collected into a string.
#[verifier::external_body]
fn text_of_rejection(rejection: &JsonRejection) -> (text: String)
    ensures
        text@ == rejection_text(*rejection),
{
    rejection.to_string()
}

/// Where a JSON failure comes from.
#[derive(Debug)]
pub enum JsonCause {
    /// The body is no JSON document.
    Rejection(JsonRejection),
    /// The document does not fit the event's schema.
    Schema(SchemaFault),
}

pub enum JsonCauseView {
    Rejection(JsonRejection),
    Schema(SchemaFaultView),
}

impl View for JsonCause {
    type V = JsonCauseView;

    open spec fn view(&self) -> JsonCauseView {
        match self {
            JsonCause::Rejection(rejection) => JsonCauseView::Rejection(*rejection),
            JsonCause::Schema(fault) => JsonCauseView::Schema(fault@),
        }
    }
}

/// The status of a JSON failure: the rejection's own, or 422 for a schema
/// fault.
pub open spec fn json_status(cause: JsonCauseView) -> u16 {
    match cause {
        JsonCauseView::Rejection(rejection) => rejection_status(rejection),
        JsonCauseView::Schema(_) => UNPROCESSABLE_ENTITY,
    }
}

/// A JSON failure in words.
pub open spec fn json_text(cause: JsonCauseView) -> Seq<char> {
    match cause {
        JsonCauseView::Rejection(rejection) => rejection_text(rejection),
        JsonCauseView::Schema(fault) => fault_text(fault),
    }
}

/// The body failed to parse against the selected schema.
#[derive(Debug)]
pub struct JsonError {
    pub source: JsonCause,
}

impl View for JsonError {
    type V = JsonCauseView;

    open spec fn view(&self) -> JsonCauseView {
        self.source@
    }
}

impl JsonError {
    pub fn new(source: JsonRejection) -> (r: Self)
        ensures
            r.source == JsonCause::Rejection(source),
    {
        JsonError { source: JsonCause::Rejection(source) }
    }

    /// The failure of a document that parsed but does not fit the schema.
    pub fn schema(fault: SchemaFault) -> (r: Self)
        ensures
            r.source == JsonCause::Schema(fault),
    {
        JsonError { source: JsonCause::Schema(fault) }
    }

    pub fn status(&self) -> (r: u16)
        ensures
            r == json_status(self@),
    {
        match &self.source {
            JsonCause::Rejection(rejection) => status_of_rejection(rejection),
            JsonCause::Schema(_) => UNPROCESSABLE_ENTITY,
        }
    }

    pub fn to_string(&self) -> (r: String)
        ensures
            r@ == json_text(self@),
    {
        match &self.source {
            JsonCause::Rejection(rejection) => text_of_rejection(rejection),
            JsonCause::Schema(fault) => fault.to_string(),
        }
    }
}

/// Every way a request can fail. No handler fails otherwise.
#[derive(Debug)]
#[non_exhaustive]
pub enum ApiError {
    InternalError(InternalError),
    ResourceNotFound(ResourceNotFound),
    MethodNotAllowed(MethodNotAllowed),
    MissingHeader(MissingHeader),
    MalformedHeader(MalformedHeader),
    UnsupportedMediaType(UnsupportedMediaType),
    UnsupportedUserAgent(UnsupportedUserAgent),
    MismatchedSignature(MismatchedSignature),
    UnsupportedWebhookEvent(UnsupportedWebhookEvent),
    JsonError(JsonError),
}

pub enum ApiErrorView {
    InternalError(InternalCauseView),
    ResourceNotFound(Seq<char>),
    MethodNotAllowed(Seq<char>),
    MissingHeader(Seq<char>),
    MalformedHeader(Seq<char>),
    UnsupportedMediaType(UnsupportedMediaTypeView),
    UnsupportedUserAgent(Seq<char>),
    MismatchedSignature(Seq<char>),
    UnsupportedWebhookEvent(Seq<char>),
    JsonError(JsonCauseView),
}

impl View for ApiError {
    type V = ApiErrorView;

    open spec fn view(&self) -> ApiErrorView {
        match self {
            ApiError::InternalError(err) => ApiErrorView::InternalError(err@),
            ApiError::ResourceNotFound(err) => ApiErrorView::ResourceNotFound(err@),
            ApiError::MethodNotAllowed(err) => ApiErrorView::MethodNotAllowed(err@),
            ApiError::MissingHeader(err) => ApiErrorView::MissingHeader(err@),
            ApiError::MalformedHeader(err) => ApiErrorView::MalformedHeader(err@),
            ApiError::UnsupportedMediaType(err) => ApiErrorView::UnsupportedMediaType(err@),
            ApiError::UnsupportedUserAgent(err) => ApiErrorView::UnsupportedUserAgent(err@),
            ApiError::MismatchedSignature(err) => ApiErrorView::MismatchedSignature(err@),
            ApiError::UnsupportedWebhookEvent(err) => ApiErrorView::UnsupportedWebhookEvent(err@),
            ApiError::JsonError(err) => ApiErrorView::JsonError(err@),
        }
    }
}

/// The fixed status of each kind of failure.
pub open spec fn status_of(error: ApiErrorView) -> u16 {
    match error {
        ApiErrorView::InternalError(_) => INTERNAL_SERVER_ERROR,
        ApiErrorView::ResourceNotFound(_) => NOT_FOUND,
        ApiErrorView::MethodNotAllowed(_) => METHOD_NOT_ALLOWED,
        ApiErrorView::MissingHeader(_) => BAD_REQUEST,
        ApiErrorView::MalformedHeader(_) => BAD_REQUEST,
        ApiErrorView::UnsupportedMediaType(err) => err.answer.code(),
        ApiErrorView::UnsupportedUserAgent(_) => BAD_REQUEST,
        ApiErrorView::MismatchedSignature(_) => BAD_REQUEST,
        ApiErrorView::UnsupportedWebhookEvent(_) => BAD_REQUEST,
        ApiErrorView::JsonError(cause) => json_status(cause),
    }
}

/// Each failure in words: the datum that explains it.
pub open spec fn text_of(error: ApiErrorView) -> Seq<char> {
    match error {
        ApiErrorView::InternalError(cause) => internal_text(cause),
        ApiErrorView::ResourceNotFound(uri) => uri,
        ApiErrorView::MethodNotAllowed(method) => method,
        ApiErrorView::MissingHeader(key) => key,
        ApiErrorView::MalformedHeader(key) => key,
        ApiErrorView::UnsupportedMediaType(err) => err.content_type,
        ApiErrorView::UnsupportedUserAgent(user_agent) => user_agent,
        ApiErrorView::MismatchedSignature(signature) => signature,
        ApiErrorView::UnsupportedWebhookEvent(event) => event,
        ApiErrorView::JsonError(cause) => json_text(cause),
    }
}

/// What lies behind a failure, for the server's log.
#[derive(Debug)]
pub enum Cause<'a> {
    Internal(&'a InternalCause),
    Header(&'a ToStrError),
    Json(&'a JsonCause),
}

impl ApiError {
    pub fn status(&self) -> (r: u16)
        ensures
            r == status_of(self@),
    {
        match self {
            ApiError::InternalError(err) => err.status(),
            ApiError::ResourceNotFound(err) => err.status(),
            ApiError::MethodNotAllowed(err) => err.status(),
            ApiError::MissingHeader(err) => err.status(),
            ApiError::MalformedHeader(err) => err.status(),
            ApiError::UnsupportedMediaType(err) => err.status(),
            ApiError::UnsupportedUserAgent(err) => err.status(),
            ApiError::MismatchedSignature(err) => err.status(),
            ApiError::UnsupportedWebhookEvent(err) => err.status(),
            ApiError::JsonError(err) => err.status(),
        }
    }

    /// The lower-level cause of the failure, where it has one: an internal
    /// error, a malformed header and a JSON error do.
    pub fn source(&self) -> (r: Option<Cause<'_>>)
        ensures
            r == match *self {
                ApiError::InternalError(err) => Some(Cause::Internal(&err.source)),
                ApiError::MalformedHeader(err) => Some(Cause::Header(&err.source)),
                ApiError::JsonError(err) => Some(Cause::Json(&err.source)),
                _ => None,
            },
    {
        match self {
            ApiError::InternalError(err) => Some(Cause::Internal(&err.source)),
            ApiError::MalformedHeader(err) => Some(Cause::Header(&err.source)),
            ApiError::JsonError(err) => Some(Cause::Json(&err.source)),
            _ => None,
        }
    }

    pub fn to_string(&self) -> (r: String)
        ensures
            r@ == text_of(self@),
    {
        match self {
            ApiError::InternalError(err) => err.to_string(),
            ApiError::ResourceNotFound(err) => err.to_string(),
            ApiError::MethodNotAllowed(err) => err.to_string(),
            ApiError::MissingHeader(err) => err.to_string(),
            ApiError::MalformedHeader(err) => err.to_string(),
            ApiError::UnsupportedMediaType(err) => err.to_string(),
            ApiError::UnsupportedUserAgent(err) => err.to_string(),
            ApiError::MismatchedSignature(err) => err.to_string(),
            ApiError::UnsupportedWebhookEvent(err) => err.to_string(),
            ApiError::JsonError(err) => err.to_string(),
        }
    }
}

impl From<InternalError> for ApiError {
    fn from(err: InternalError) -> (r: ApiError) {
        ApiError::InternalError(err)
    }
}

impl vstd::std_specs::convert::FromSpecImpl<InternalError> for ApiError {
    open spec fn obeys_from_spec() -> bool {
        true
    }

    open spec fn from_spec(err: InternalError) -> ApiError {
        ApiError::InternalError(err)
    }
}

impl From<ResourceNotFound> for ApiError {
    fn from(err: ResourceNotFound) -> (r: ApiError) {
        ApiError::ResourceNotFound(err)
    }
}

impl vstd::std_specs::convert::FromSpecImpl<ResourceNotFound> for ApiError {
    open spec fn obeys_from_spec() -> bool {
        true
    }

    open spec fn from_spec(err: ResourceNotFound) -> ApiError {
        ApiError::ResourceNotFound(err)
    }
}

impl From<MethodNotAllowed> for ApiError {
    fn from(err: MethodNotAllowed) -> (r: ApiError) {
        ApiError::MethodNotAllowed(err)
    }
}

impl vstd::std_specs::convert::FromSpecImpl<MethodNotAllowed> for ApiError {
    open spec fn obeys_from_spec() -> bool {
        true
    }

    open spec fn from_spec(err: MethodNotAllowed) -> ApiError {
        ApiError::MethodNotAllowed(err)
    }
}

impl From<MissingHeader> for ApiError {
    fn from(err: MissingHeader) -> (r: ApiError) {
        ApiError::MissingHeader(err)
    }
}

impl vstd::std_specs::convert::FromSpecImpl<MissingHeader> for ApiError {
    open spec fn obeys_from_spec() -> bool {
        true
    }

    open spec fn from_spec(err: MissingHeader) -> ApiError {
        ApiError::MissingHeader(err)
    }
}

impl From<MalformedHeader> for ApiError {
    fn from(err: MalformedHeader) -> (r: ApiError) {
        ApiError::MalformedHeader(err)
    }
}

impl vstd::std_specs::convert::FromSpecImpl<MalformedHeader> for ApiError {
    open spec fn obeys_from_spec() -> bool {
        true
    }

    open spec fn from_spec(err: MalformedHeader) -> ApiError {
        ApiError::MalformedHeader(err)
    }
}

impl From<UnsupportedMediaType> for ApiError {
    fn from(err: UnsupportedMediaType) -> (r: ApiError) {
        ApiError::UnsupportedMediaType(err)
    }
}

impl vstd::std_specs::convert::FromSpecImpl<UnsupportedMediaType> for ApiError {
    open spec fn obeys_from_spec() -> bool {
        true
    }

    open spec fn from_spec(err: UnsupportedMediaType) -> ApiError {
        ApiError::UnsupportedMediaType(err)
    }
}

impl From<UnsupportedUserAgent> for ApiError {
    fn from(err: UnsupportedUserAgent) -> (r: ApiError) {
        ApiError::UnsupportedUserAgent(err)
    }
}

impl vstd::std_specs::convert::FromSpecImpl<UnsupportedUserAgent> for ApiError {
    open spec fn obeys_from_spec() -> bool {
        true
    }

    open spec fn from_spec(err: UnsupportedUserAgent) -> ApiError {
        ApiError::UnsupportedUserAgent(err)
    }
}

impl From<MismatchedSignature> for ApiError {
    fn from(err: MismatchedSignature) -> (r: ApiError) {
        ApiError::MismatchedSignature(err)
    }
}

impl vstd::std_specs::convert::FromSpecImpl<MismatchedSignature> for ApiError {
    open spec fn obeys_from_spec() -> bool {
        true
    }

    open spec fn from_spec(err: MismatchedSignature) -> ApiError {
        ApiError::MismatchedSignature(err)
    }
}

impl From<UnsupportedWebhookEvent> for ApiError {
    fn from(err: UnsupportedWebhookEvent) -> (r: ApiError) {
        ApiError::UnsupportedWebhookEvent(err)
    }
}

impl vstd::std_specs::convert::FromSpecImpl<UnsupportedWebhookEvent> for ApiError {
    open spec fn obeys_from_spec() -> bool {
        true
    }

    open spec fn from_spec(err: UnsupportedWebhookEvent) -> ApiError {
        ApiError::UnsupportedWebhookEvent(err)
    }
}

impl From<JsonError> for ApiError {
    fn from(err: JsonError) -> (r: ApiError) {
        ApiError::JsonError(err)
    }
}

impl vstd::std_specs::convert::FromSpecImpl<JsonError> for ApiError {
    open spec fn obeys_from_spec() -> bool {
        true
    }

    open spec fn from_spec(err: JsonError) -> ApiError {
        ApiError::JsonError(err)
    }
}

impl From<InvalidLength> for ApiError {
    fn from(err: InvalidLength) -> (r: ApiError) {
        ApiError::InternalError(InternalError::new(InternalCause::KeyRejected))
    }
}

impl vstd::std_specs::convert::FromSpecImpl<InvalidLength> for ApiError {
    open spec fn obeys_from_spec() -> bool {
        true
    }

    open spec fn from_spec(err: InvalidLength) -> ApiError {
        ApiError::InternalError(InternalError { source: InternalCause::KeyRejected })
    }
}

impl From<JsonRejection> for ApiError {
    fn from(source: JsonRejection) -> (r: ApiError) {
        ApiError::JsonError(JsonError::new(source))
    }
}

impl vstd::std_specs::convert::FromSpecImpl<JsonRejection> for ApiError {
    open spec fn obeys_from_spec() -> bool {
        true
    }

    open spec fn from_spec(source: JsonRejection) -> ApiError {
        ApiError::JsonError(JsonError { source: JsonCause::Rejection(source) })
    }
}

} // verus!
