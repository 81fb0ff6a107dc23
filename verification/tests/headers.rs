use axum::http::{HeaderMap, HeaderName, HeaderValue};
use webhook_receiver::api::error::{ApiError, Cause};
use webhook_receiver::api::header_get_required;
use webhook_receiver::api::response::to_response;

fn headers(pairs: &[(&'static str, &'static str)]) -> HeaderMap {
    let mut map = HeaderMap::new();
    for (name, value) in pairs {
        map.append(HeaderName::from_static(name), HeaderValue::from_static(value));
    }
    map
}

#[test]
fn present_header_is_returned_as_text() {
    let map = headers(&[("content-type", "application/json")]);
    assert_eq!(header_get_required(&map, "content-type").unwrap(), "application/json");
}

#[test]
fn header_names_match_without_regard_to_case() {
    let map = headers(&[("x-forgejo-event", "push")]);
    assert_eq!(header_get_required(&map, "X-Forgejo-Event").unwrap(), "push");
    assert_eq!(header_get_required(&map, "X-FORGEJO-EVENT").unwrap(), "push");
}

#[test]
fn first_of_several_values_is_returned() {
    let map = headers(&[("user-agent", "first"), ("user-agent", "second")]);
    assert_eq!(header_get_required(&map, "user-agent").unwrap(), "first");
}

#[test]
fn empty_value_is_text() {
    let map = headers(&[("x-forgejo-delivery", "")]);
    assert_eq!(header_get_required(&map, "x-forgejo-delivery").unwrap(), "");
}

#[test]
fn tab_and_space_are_text() {
    let mut map = HeaderMap::new();
    map.insert(
        HeaderName::from_static("user-agent"),
        HeaderValue::from_bytes(b"a\tb c").unwrap(),
    );
    assert_eq!(header_get_required(&map, "user-agent").unwrap(), "a\tb c");
}

#[test]
fn absent_header_is_missing() {
    let map = headers(&[("content-type", "application/json")]);
    let err = header_get_required(&map, "x-forgejo-event").unwrap_err();
    match &err {
        ApiError::MissingHeader(missing) => assert_eq!(missing.key, "x-forgejo-event"),
        other => panic!("unexpected error: {:?}", other),
    }
    assert_eq!(err.status(), 400);
}

#[test]
fn missing_header_is_named_as_asked_for() {
    let map = HeaderMap::new();
    let err = header_get_required(&map, "X-Forgejo-Event").unwrap_err();
    match err {
        ApiError::MissingHeader(missing) => assert_eq!(missing.key, "X-Forgejo-Event"),
        other => panic!("unexpected error: {:?}", other),
    }
}

#[test]
fn name_that_no_header_can_have_is_missing() {
    let map = headers(&[("content-type", "application/json")]);
    assert!(matches!(header_get_required(&map, "content type"), Err(ApiError::MissingHeader(_))));
    assert!(matches!(header_get_required(&map, ""), Err(ApiError::MissingHeader(_))));
}

#[test]
fn opaque_bytes_are_malformed() {
    let mut map = HeaderMap::new();
    map.insert(
        HeaderName::from_static("x-forgejo-signature"),
        HeaderValue::from_bytes(&[0xfa, 0xce]).unwrap(),
    );
    let err = header_get_required(&map, "x-forgejo-signature").unwrap_err();
    match &err {
        ApiError::MalformedHeader(malformed) => assert_eq!(malformed.key, "x-forgejo-signature"),
        other => panic!("unexpected error: {:?}", other),
    }
    assert_eq!(err.status(), 400);
    assert!(matches!(err.source(), Some(Cause::Header(_))));
    let (status, body) = to_response(&err);
    assert_eq!(status, 400);
    assert_eq!(body.to_json(), "{\"type\":\"MalformedHeader\",\"key\":\"x-forgejo-signature\"}");
}

#[test]
fn one_opaque_byte_among_text_is_malformed() {
    let mut map = HeaderMap::new();
    map.insert(
        HeaderName::from_static("user-agent"),
        HeaderValue::from_bytes(b"Go-http-client/\x80").unwrap(),
    );
    assert!(matches!(
        header_get_required(&map, "user-agent"),
        Err(ApiError::MalformedHeader(_))
    ));
}

#[test]
fn long_names_match_without_regard_to_case_too() {
    let name = format!("x-{}", "long-name-".repeat(8));
    assert!(name.len() > 64);
    let mut map = HeaderMap::new();
    map.insert(HeaderName::from_bytes(name.as_bytes()).unwrap(), HeaderValue::from_static("v"));
    assert_eq!(header_get_required(&map, &name).unwrap(), "v");
    assert_eq!(header_get_required(&map, &name.to_uppercase()).unwrap(), "v");
    let other = format!("{}x", name);
    assert!(matches!(header_get_required(&map, &other), Err(ApiError::MissingHeader(_))));
    let spaced = name.replace('-', " ");
    assert!(matches!(header_get_required(&map, &spaced), Err(ApiError::MissingHeader(_))));
}

#[test]
fn name_with_letters_outside_ascii_is_missing() {
    let mut map = HeaderMap::new();
    map.insert(HeaderName::from_static("x-event"), HeaderValue::from_static("v"));
    assert!(matches!(header_get_required(&map, "x-évent"), Err(ApiError::MissingHeader(_))));
    assert!(matches!(header_get_required(&map, "x-\u{212a}"), Err(ApiError::MissingHeader(_))));
}
