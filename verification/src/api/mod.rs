//! What every provider's endpoint shares: the error taxonomy, the extraction
//! of required headers, and the mapping of a failure to a response.

pub mod error;
pub mod response;

use crate::api::error::{ApiError, ApiErrorView, MalformedHeader, MissingHeader};
use axum::http::header::ToStrError;
use axum::http::{HeaderMap, HeaderValue};
use vstd::prelude::*;

verus! {

/// The headers of a request: a multimap from lower-case names to values.
#[verifier::external_type_specification]
#[verifier::external_body]
#[verifier::reject_recursive_types(T)]
pub struct ExHeaderMap<T>(axum::http::HeaderMap<T>);

/// One header value: bytes, not necessarily text.
#[verifier::external_type_specification]
#[verifier::external_body]
pub struct ExHeaderValue(axum::http::HeaderValue);

/// What a header map holds: under each name, in lower case, the bytes of
/// the first value stored for it.
pub uninterp spec fn header_values(headers: HeaderMap) -> Map<Seq<char>, Seq<u8>>;

/// The bytes of a header value.
pub uninterp spec fn value_bytes(value: HeaderValue) -> Seq<u8>;

/// A character with an upper-case ASCII letter turned to lower case.
pub open spec fn lower_char(c: char) -> char {
    if 'A' <= c && c <= 'Z' {
        ((c as u8 + 32) as u8) as char
    } else {
        c
    }
}

/// A header name as the map stores it: ASCII letters in lower case.
pub open spec fn lower_name(name: Seq<char>) -> Seq<char> {
    name.map_values(|c: char| lower_char(c))
}

/// A byte that may stand in a header value that is text: visible ASCII, a
/// space or a tab.
pub open spec fn is_text_byte(b: u8) -> bool {
    (32 <= b && b < 127) || b == 9
}

/// Whether a header value is representable as text.
pub open spec fn is_text(bytes: Seq<u8>) -> bool {
    forall|i: int| 0 <= i < bytes.len() ==> is_text_byte(#[trigger] bytes[i])
}

/// The text that ASCII bytes spell.
pub open spec fn text_of_bytes(bytes: Seq<u8>) -> Seq<char> {
    bytes.map_values(|b: u8| b as char)
}

/// `HeaderMap::get` with a string key. Names match without regard to ASCII
/// case; of several values under one name the first is given.
#[verifier::external_body]
fn first_value<'a>(headers: &'a HeaderMap, key: &str) -> (r: Option<&'a HeaderValue>)
    ensures
        r is Some <==> header_values(*headers).contains_key(lower_name(key@)),
        r matches Some(value) ==> value_bytes(*value) == header_values(*headers)[lower_name(key@)],
{
    headers.get(key)
}

/// `HeaderValue::to_str`: the value as text when every byte of it is visible
/// ASCII, a space or a tab, and an error otherwise.
#[verifier::external_body]
fn value_text<'a>(value: &'a HeaderValue) -> (r: Result<&'a str, ToStrError>)
    ensures
        r is Ok <==> is_text(value_bytes(*value)),
        r matches Ok(text) ==> text@ == text_of_bytes(value_bytes(*value)),
{
    value.to_str()
}

/// What asking for a required header ends in: its text, or the failure that
/// names the header as it was asked for.
pub open spec fn required_header(values: Map<Seq<char>, Seq<u8>>, key: Seq<char>) -> Result<
    Seq<char>,
    ApiErrorView,
> {
    if !values.contains_key(lower_name(key)) {
        Err(ApiErrorView::MissingHeader(key))
    } else if !is_text(values[lower_name(key)]) {
        Err(ApiErrorView::MalformedHeader(key))
    } else {
        Ok(text_of_bytes(values[lower_name(key)]))
    }
}

/// The text of the header `key`, which must be present and be text.
pub fn header_get_required<'a>(headers: &'a HeaderMap, key: &str) -> (r: Result<&'a str, ApiError>)
    ensures
        r matches Ok(text) ==> required_header(header_values(*headers), key@) == Ok::<
            Seq<char>,
            ApiErrorView,
        >(text@),
        r matches Err(e) ==> required_header(header_values(*headers), key@) == Err::<
            Seq<char>,
            ApiErrorView,
        >(e@),
{
    match first_value(headers, key) {
        Some(value) => match value_text(value) {
            Ok(text) => Ok(text),
            Err(source) => Err(
                ApiError::MalformedHeader(MalformedHeader::new(key.to_string(), source)),
            ),
        },
        None => Err(ApiError::MissingHeader(MissingHeader::new(key.to_string()))),
    }
}

} // verus!
