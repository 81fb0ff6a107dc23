use webhook_receiver::api::error::{
    ApiError, Cause, FaultKind, InternalCause, InternalError, JsonCause, JsonError, MediaTypeStatus,
    MethodNotAllowed, MismatchedSignature, MissingHeader, ResourceNotFound, SchemaFault,
    UnsupportedMediaType, UnsupportedUserAgent, UnsupportedWebhookEvent,
};
use webhook_receiver::api::response::{respond, to_response, ErrorBody};
use webhook_receiver::text::{same_text, starts_with};

fn json_of(err: &ApiError) -> (u16, String) {
    let (status, body) = to_response(err);
    (status, body.to_json())
}

#[test]
fn forgejo_webhook_method_not_allowed() {
    let err = ApiError::from(MethodNotAllowed::new("GET".to_string()));
    assert_eq!(err.status(), 405);
    assert_eq!(json_of(&err), (405, "{\"type\":\"MethodNotAllowed\",\"method\":\"GET\"}".to_string()));
}

#[test]
fn api_not_found() {
    let err = ApiError::from(ResourceNotFound::new("/api".to_string()));
    assert_eq!(err.status(), 404);
    assert_eq!(json_of(&err), (404, "{\"type\":\"ResourceNotFound\",\"uri\":\"/api\"}".to_string()));
}

#[test]
fn api_slash_not_found() {
    let err = ApiError::from(ResourceNotFound::new("/api/".to_string()));
    assert_eq!(err.status(), 404);
    assert_eq!(json_of(&err), (404, "{\"type\":\"ResourceNotFound\",\"uri\":\"/api/\"}".to_string()));
}

#[test]
fn each_kind_has_its_status() {
    assert_eq!(InternalError::new(InternalCause::SecretUnavailable).status(), 500);
    assert_eq!(ResourceNotFound::new("/".to_string()).status(), 404);
    assert_eq!(MethodNotAllowed::new("PUT".to_string()).status(), 405);
    assert_eq!(MissingHeader::new("k".to_string()).status(), 400);
    assert_eq!(UnsupportedMediaType::new("text/plain".to_string()).status(), 415);
    assert_eq!(
        UnsupportedMediaType::answered_with("x".to_string(), MediaTypeStatus::BadRequest).status(),
        400
    );
    assert_eq!(
        UnsupportedMediaType::answered_with("x".to_string(), MediaTypeStatus::UnsupportedMediaType)
            .status(),
        415
    );
    assert_eq!(UnsupportedUserAgent::new("ua".to_string()).status(), 400);
    assert_eq!(MismatchedSignature::new("s".to_string()).status(), 400);
    assert_eq!(UnsupportedWebhookEvent::new("e".to_string()).status(), 400);
    let fault = SchemaFault::new(FaultKind::Missing, "after".to_string());
    assert_eq!(JsonError::schema(fault).status(), 422);
}

#[test]
fn conversion_keeps_kind_and_status() {
    let cases: Vec<(ApiError, u16, &str)> = vec![
        (InternalError::new(InternalCause::KeyRejected).into(), 500, "InternalError"),
        (ResourceNotFound::new("u".to_string()).into(), 404, "ResourceNotFound"),
        (MethodNotAllowed::new("m".to_string()).into(), 405, "MethodNotAllowed"),
        (MissingHeader::new("k".to_string()).into(), 400, "MissingHeader"),
        (UnsupportedMediaType::new("c".to_string()).into(), 415, "UnsupportedMediaType"),
        (UnsupportedUserAgent::new("a".to_string()).into(), 400, "UnsupportedUserAgent"),
        (MismatchedSignature::new("s".to_string()).into(), 400, "MismatchedSignature"),
        (UnsupportedWebhookEvent::new("e".to_string()).into(), 400, "UnsupportedWebhookEvent"),
        (
            JsonError::schema(SchemaFault::new(FaultKind::Mismatch, "f".to_string())).into(),
            422,
            "JsonError",
        ),
    ];
    for (err, status, kind) in cases {
        assert_eq!(err.status(), status);
        let (answered, body) = to_response(&err);
        assert_eq!(answered, status);
        assert_eq!(body.kind, kind);
    }
}

#[test]
fn each_kind_is_displayed_as_its_datum() {
    assert_eq!(ResourceNotFound::new("/x".to_string()).to_string(), "/x");
    assert_eq!(MethodNotAllowed::new("GET".to_string()).to_string(), "GET");
    assert_eq!(MissingHeader::new("k".to_string()).to_string(), "k");
    assert_eq!(UnsupportedMediaType::new("text/plain".to_string()).to_string(), "text/plain");
    assert_eq!(UnsupportedUserAgent::new("curl".to_string()).to_string(), "curl");
    assert_eq!(MismatchedSignature::new("abc".to_string()).to_string(), "abc");
    assert_eq!(UnsupportedWebhookEvent::new("ping".to_string()).to_string(), "ping");
    assert_eq!(
        InternalError::new(InternalCause::SecretUnavailable).to_string(),
        "webhook secret unavailable"
    );
    assert_eq!(
        InternalError::new(InternalCause::KeyRejected).to_string(),
        "webhook secret refused as key"
    );
    assert_eq!(InternalError::new(InternalCause::Other("disk".to_string())).to_string(), "disk");
    assert_eq!(
        SchemaFault::new(FaultKind::Missing, "id".to_string()).to_string(),
        "missing field `id`"
    );
    assert_eq!(
        SchemaFault::new(FaultKind::Mismatch, "id".to_string()).to_string(),
        "invalid type at field `id`"
    );
    assert_eq!(
        SchemaFault::new(FaultKind::UnknownVariant, "type".to_string()).to_string(),
        "unknown variant at field `type`"
    );
    let err = ApiError::from(MissingHeader::new("x-forgejo-event".to_string()));
    assert_eq!(err.to_string(), "x-forgejo-event");
}

#[test]
fn internal_cause_is_never_in_the_body() {
    let err = ApiError::from(InternalError::new(InternalCause::Other("secret detail".to_string())));
    let (status, body) = to_response(&err);
    assert_eq!(status, 500);
    assert_eq!(body.kind, "InternalError");
    assert!(body.detail.is_none());
    assert_eq!(body.to_json(), "{\"type\":\"InternalError\"}");
}

#[test]
fn bodies_name_the_kind_and_its_datum() {
    let cases: Vec<(ApiError, &str)> = vec![
        (
            MissingHeader::new("x-forgejo-event".to_string()).into(),
            "{\"type\":\"MissingHeader\",\"key\":\"x-forgejo-event\"}",
        ),
        (
            UnsupportedMediaType::new("text/plain".to_string()).into(),
            "{\"type\":\"UnsupportedMediaType\",\"content_type\":\"text/plain\"}",
        ),
        (
            UnsupportedUserAgent::new("curl/8".to_string()).into(),
            "{\"type\":\"UnsupportedUserAgent\",\"user_agent\":\"curl/8\"}",
        ),
        (
            MismatchedSignature::new("abc".to_string()).into(),
            "{\"type\":\"MismatchedSignature\",\"signature\":\"abc\"}",
        ),
        (
            UnsupportedWebhookEvent::new("ping".to_string()).into(),
            "{\"type\":\"UnsupportedWebhookEvent\",\"event\":\"ping\"}",
        ),
        (
            JsonError::schema(SchemaFault::new(FaultKind::Missing, "id".to_string())).into(),
            "{\"type\":\"JsonError\",\"source\":\"missing field `id`\"}",
        ),
    ];
    for (err, expected) in cases {
        assert_eq!(to_response(&err).1.to_json(), expected);
    }
}

#[test]
fn body_text_is_escaped_as_json() {
    let err = ApiError::from(UnsupportedUserAgent::new("a\"b\\c\nd\u{1}é".to_string()));
    let json = to_response(&err).1.to_json();
    assert_eq!(
        json,
        "{\"type\":\"UnsupportedUserAgent\",\"user_agent\":\"a\\\"b\\\\c\\nd\\u0001é\"}"
    );
    let parsed: serde_json::Value = serde_json::from_str(&json).unwrap();
    assert_eq!(parsed["user_agent"].as_str(), Some("a\"b\\c\nd\u{1}é"));
    assert_eq!(parsed["type"].as_str(), Some("UnsupportedUserAgent"));
}

#[test]
fn body_without_detail_renders_the_kind_alone() {
    let body = ErrorBody { kind: "K".to_string(), detail: None };
    assert_eq!(body.to_json(), "{\"type\":\"K\"}");
    let body = ErrorBody { kind: "K".to_string(), detail: Some(("n".to_string(), "v".to_string())) };
    assert_eq!(body.to_json(), "{\"type\":\"K\",\"n\":\"v\"}");
}

#[test]
fn success_is_answered_with_200_and_no_body() {
    let ok: Result<(), ApiError> = Ok(());
    let (status, body) = respond(&ok);
    assert_eq!(status, 200);
    assert!(body.is_none());
    let failed: Result<(), ApiError> = Err(MissingHeader::new("k".to_string()).into());
    let (status, body) = respond(&failed);
    assert_eq!(status, 400);
    assert_eq!(body.unwrap().to_json(), "{\"type\":\"MissingHeader\",\"key\":\"k\"}");
}

#[test]
fn starts_with_compares_characters() {
    assert!(starts_with("abc", ""));
    assert!(starts_with("abc", "a"));
    assert!(starts_with("abc", "abc"));
    assert!(!starts_with("abc", "abcd"));
    assert!(!starts_with("abc", "b"));
    assert!(!starts_with("", "a"));
    assert!(starts_with("", ""));
    assert!(starts_with("éa", "é"));
    assert!(!starts_with("éa", "e"));
    assert!(!starts_with("e", "é"));
}

#[test]
fn same_text_compares_whole_texts() {
    assert!(same_text("", ""));
    assert!(same_text("push", "push"));
    assert!(!same_text("push", "pus"));
    assert!(!same_text("pus", "push"));
    assert!(!same_text("push", "Push"));
    assert!(same_text("é", "é"));
}

#[test]
fn source_is_given_where_a_failure_has_one() {
    let err = ApiError::from(InternalError::new(InternalCause::SecretUnavailable));
    assert!(matches!(err.source(), Some(Cause::Internal(InternalCause::SecretUnavailable))));
    let err = ApiError::from(JsonError::schema(SchemaFault::new(
        FaultKind::Missing,
        "id".to_string(),
    )));
    match err.source() {
        Some(Cause::Json(JsonCause::Schema(fault))) => assert_eq!(fault.field, "id"),
        other => panic!("unexpected source: {:?}", other),
    }
    assert!(ApiError::from(MissingHeader::new("k".to_string())).source().is_none());
    assert!(ApiError::from(ResourceNotFound::new("/".to_string())).source().is_none());
    assert!(ApiError::from(MethodNotAllowed::new("GET".to_string())).source().is_none());
    assert!(ApiError::from(UnsupportedMediaType::new("x".to_string())).source().is_none());
    assert!(ApiError::from(UnsupportedUserAgent::new("x".to_string())).source().is_none());
    assert!(ApiError::from(MismatchedSignature::new("x".to_string())).source().is_none());
    assert!(ApiError::from(UnsupportedWebhookEvent::new("x".to_string())).source().is_none());
}
