//! JSON documents as the JSON extractor parses them, seen through a handful
//! of accessors, and the reading of single members that the payload schemas
//! are made of.
//!
//! A member that a schema requires must be present and of the named kind. A
//! member that a schema marks optional may be absent or `null`. Members that
//! a schema does not name are ignored. A value that is no object has no
//! members.

use crate::api::error::{
    ApiError, ApiErrorView, FaultKind, JsonCauseView, JsonError, SchemaFault, SchemaFaultView,
};
use axum::extract::rejection::JsonRejection;
use axum::Json;
use serde_json::Value;
use vstd::prelude::*;

verus! {

/// A parsed JSON value.
#[verifier::external_type_specification]
#[verifier::external_body]
pub struct ExValue(serde_json::Value);

/// The document that a body parses to, or the rejection it is refused with.
pub uninterp spec fn document_of(bytes: Seq<u8>) -> Result<Value, JsonRejection>;

/// The member stored under `key` when the value is an object that holds it.
pub uninterp spec fn member_of(v: Value, key: Seq<char>) -> Option<Value>;

/// The text of a JSON string; `None` for a value of another kind.
pub uninterp spec fn string_of(v: Value) -> Option<Seq<char>>;

/// The number of a JSON integer that fits 64 signed bits; `None` for any
/// other number and for a value of another kind.
pub uninterp spec fn integer_of(v: Value) -> Option<i64>;

/// The truth value of a JSON boolean; `None` for a value of another kind.
pub uninterp spec fn boolean_of(v: Value) -> Option<bool>;

/// The elements of a JSON array, in order; `None` for a value of another
/// kind.
pub uninterp spec fn elements_of(v: Value) -> Option<Seq<Value>>;

/// Whether the value is JSON `null`.
pub uninterp spec fn null(v: Value) -> bool;

/// `Json::<Value>::from_bytes`: the whole body parsed as one JSON document.
/// The outcome is a function of the bytes alone.
#[verifier::external_body]
pub(crate) fn parse(bytes: &[u8]) -> (r: Result<Value, JsonRejection>)
    ensures
        r == document_of(bytes@),
{
    Json::<Value>::from_bytes(bytes).map(|Json(value)| value)
}

/// `Value::get` with a string key: the named member of an object, and `None`
/// for a missing member and for a value that is no object.
#[verifier::external_body]
pub(crate) fn member<'a>(v: &'a Value, key: &str) -> (r: Option<&'a Value>)
    ensures
        r is Some <==> member_of(*v, key@) is Some,
        r matches Some(m) ==> member_of(*v, key@) == Some(*m),
{
    v.get(key)
}

/// `Value::as_str`: the text of a string, and `None` for any other value.
pub assume_specification<'a>[ serde_json::Value::as_str ](v: &'a Value) -> (r: Option<&'a str>)
    ensures
        r is Some <==> string_of(*v) is Some,
        r matches Some(text) ==> string_of(*v) == Some(text@),
;

/// `Value::as_i64`: the number of an integer that fits 64 signed bits, and
/// `None` for any other value.
pub assume_specification[ serde_json::Value::as_i64 ](v: &Value) -> (r: Option<i64>)
    ensures
        r == integer_of(*v),
;

/// `Value::as_bool`: the truth value of a boolean, and `None` for any other
/// value.
pub assume_specification[ serde_json::Value::as_bool ](v: &Value) -> (r: Option<bool>)
    ensures
        r == boolean_of(*v),
;

/// `Value::as_array`: the elements of an array, and `None` for any other
/// value.
pub assume_specification<'a>[ serde_json::Value::as_array ](v: &'a Value) -> (r: Option<
    &'a Vec<Value>,
>)
    ensures
        r is Some <==> elements_of(*v) is Some,
        r matches Some(items) ==> elements_of(*v) == Some(items@),
;

/// `Value::is_null`: whether the value is `null`.
pub assume_specification[ serde_json::Value::is_null ](v: &Value) -> (r: bool)
    ensures
        r == null(*v),
;

/// What reading a body as a document ends in: the document, or the failure
/// that holds the rejection.
pub open spec fn document(bytes: Seq<u8>) -> Result<Value, ApiErrorView> {
    match document_of(bytes) {
        Ok(v) => Ok(v),
        Err(rejection) => Err(ApiErrorView::JsonError(JsonCauseView::Rejection(rejection))),
    }
}

/// Parses a body as one JSON document.
pub fn read_document(bytes: &[u8]) -> (r: Result<Value, ApiError>)
    ensures
        r matches Ok(v) ==> document(bytes@) == Ok::<Value, ApiErrorView>(v),
        r matches Err(e) ==> document(bytes@) == Err::<Value, ApiErrorView>(e@),
{
    match parse(bytes) {
        Ok(v) => Ok(v),
        Err(rejection) => Err(ApiError::JsonError(JsonError::new(rejection))),
    }
}

/// The failure that a schema fault is reported as.
pub open spec fn schema_failure(fault: SchemaFaultView) -> ApiErrorView {
    ApiErrorView::JsonError(JsonCauseView::Schema(fault))
}

/// Reports a schema fault as a failure of the request.
pub fn schema_error(fault: SchemaFault) -> (r: ApiError)
    ensures
        r@ == schema_failure(fault@),
{
    ApiError::JsonError(JsonError::schema(fault))
}

/// The fault of the given kind at the member `key`.
pub open spec fn fault(kind: FaultKind, key: Seq<char>) -> SchemaFaultView {
    SchemaFaultView { kind, field: key }
}

/// A member that is there and is not `null`.
pub open spec fn present_member(v: Value, key: Seq<char>) -> Option<Value> {
    match member_of(v, key) {
        Some(m) => if null(m) {
            None
        } else {
            Some(m)
        },
        None => None,
    }
}

/// A required member of any kind.
pub open spec fn required_member(v: Value, key: Seq<char>) -> Result<Value, SchemaFaultView> {
    match member_of(v, key) {
        Some(m) => Ok(m),
        None => Err(fault(FaultKind::Missing, key)),
    }
}

/// A required member that is a string.
pub open spec fn string_field(v: Value, key: Seq<char>) -> Result<Seq<char>, SchemaFaultView> {
    match member_of(v, key) {
        None => Err(fault(FaultKind::Missing, key)),
        Some(m) => match string_of(m) {
            Some(text) => Ok(text),
            None => Err(fault(FaultKind::Mismatch, key)),
        },
    }
}

/// An optional member that is a string.
pub open spec fn optional_string_field(v: Value, key: Seq<char>) -> Result<
    Option<Seq<char>>,
    SchemaFaultView,
> {
    match present_member(v, key) {
        None => Ok(None),
        Some(m) => match string_of(m) {
            Some(text) => Ok(Some(text)),
            None => Err(fault(FaultKind::Mismatch, key)),
        },
    }
}

/// A required member that is an integer of 64 signed bits.
pub open spec fn integer_field(v: Value, key: Seq<char>) -> Result<i64, SchemaFaultView> {
    match member_of(v, key) {
        None => Err(fault(FaultKind::Missing, key)),
        Some(m) => match integer_of(m) {
            Some(n) => Ok(n),
            None => Err(fault(FaultKind::Mismatch, key)),
        },
    }
}

/// A required member that is a boolean.
pub open spec fn flag_field(v: Value, key: Seq<char>) -> Result<bool, SchemaFaultView> {
    match member_of(v, key) {
        None => Err(fault(FaultKind::Missing, key)),
        Some(m) => match boolean_of(m) {
            Some(b) => Ok(b),
            None => Err(fault(FaultKind::Mismatch, key)),
        },
    }
}

/// An optional member that is a boolean.
pub open spec fn optional_flag_field(v: Value, key: Seq<char>) -> Result<
    Option<bool>,
    SchemaFaultView,
> {
    match present_member(v, key) {
        None => Ok(None),
        Some(m) => match boolean_of(m) {
            Some(b) => Ok(Some(b)),
            None => Err(fault(FaultKind::Mismatch, key)),
        },
    }
}

/// A required member that is an array: its elements.
pub open spec fn list_field(v: Value, key: Seq<char>) -> Result<Seq<Value>, SchemaFaultView> {
    match member_of(v, key) {
        None => Err(fault(FaultKind::Missing, key)),
        Some(m) => match elements_of(m) {
            Some(items) => Ok(items),
            None => Err(fault(FaultKind::Mismatch, key)),
        },
    }
}

/// What a sequence of JSON values describes when each value is read with
/// `read`: what the values describe, in order, or the fault of the first
/// value that is faulty.
pub open spec fn each_of<T>(
    items: Seq<Value>,
    read: spec_fn(Value) -> Result<T, SchemaFaultView>,
) -> Result<Seq<T>, SchemaFaultView>
    decreases items.len(),
{
    if items.len() == 0 {
        Ok(Seq::empty())
    } else {
        match each_of(items.drop_last(), read) {
            Err(e) => Err(e),
            Ok(front) => match read(items.last()) {
                Err(e) => Err(e),
                Ok(x) => Ok(front.push(x)),
            },
        }
    }
}

/// One more value read after a front part without fault: the front part's
/// readings and the value's own, or the value's fault.
pub proof fn lemma_each_of_next<T>(
    items: Seq<Value>,
    read: spec_fn(Value) -> Result<T, SchemaFaultView>,
    i: int,
)
    requires
        0 <= i < items.len(),
        each_of(items.take(i), read) is Ok,
    ensures
        each_of(items.take(i + 1), read) == match read(items[i]) {
            Err(e) => Err::<Seq<T>, SchemaFaultView>(e),
            Ok(x) => Ok(each_of(items.take(i), read)->Ok_0.push(x)),
        },
{
    assert(items.take(i + 1).drop_last() =~= items.take(i));
    assert(items.take(i + 1).last() == items[i]);
}

/// Once a front part of a sequence has a faulty value, the whole sequence
/// has the same fault.
pub proof fn lemma_each_of_fault<T>(
    items: Seq<Value>,
    read: spec_fn(Value) -> Result<T, SchemaFaultView>,
    i: int,
)
    requires
        0 <= i <= items.len(),
        each_of(items.take(i), read) is Err,
    ensures
        each_of(items, read) == each_of(items.take(i), read),
    decreases items.len(),
{
    if i < items.len() {
        assert(items.drop_last().take(i) =~= items.take(i));
        lemma_each_of_fault(items.drop_last(), read, i);
    } else {
        assert(items.take(i) =~= items);
    }
}

/// What is known of a record while its members are read in order: the
/// first fault met, if any.
pub struct Reading {
    pub fault: Option<SchemaFaultView>,
}

impl Reading {
    /// Before any member is read.
    pub open spec fn begin() -> Reading {
        Reading { fault: None }
    }

    /// After one more member is read: a fault met earlier stays, else the
    /// member's own fault is the one met.
    pub open spec fn with<T>(self, member: Result<T, SchemaFaultView>) -> Reading {
        if self.fault is Some {
            self
        } else {
            Reading { fault: member.err() }
        }
    }
}

/// A member that a schema marks optional may be absent, and may be `null`:
/// either way nothing is read and nothing is at fault.
pub proof fn law_optional_member_may_be_absent(v: Value, key: Seq<char>)
    requires
        member_of(v, key) matches Some(m) ==> null(m),
    ensures
        present_member(v, key) is None,
        optional_string_field(v, key) == Ok::<Option<Seq<char>>, SchemaFaultView>(None),
        optional_flag_field(v, key) == Ok::<Option<bool>, SchemaFaultView>(None),
{
}

fn new_fault(kind: FaultKind, key: &str) -> (r: SchemaFault)
    ensures
        r@ == fault(kind, key@),
{
    SchemaFault::new(kind, key.to_string())
}

/// The member `key`, unless it is absent or `null`.
pub fn get_present<'a>(v: &'a Value, key: &str) -> (r: Option<&'a Value>)
    ensures
        r is Some <==> present_member(*v, key@) is Some,
        r matches Some(m) ==> present_member(*v, key@) == Some(*m),
{
    match member(v, key) {
        Some(m) => if m.is_null() {
            None
        } else {
            Some(m)
        },
        None => None,
    }
}

/// The member `key`, which must be there.
pub fn get_required<'a>(v: &'a Value, key: &str) -> (r: Result<&'a Value, SchemaFault>)
    ensures
        r matches Ok(m) ==> required_member(*v, key@) == Ok::<Value, SchemaFaultView>(*m),
        r matches Err(e) ==> required_member(*v, key@) == Err::<Value, SchemaFaultView>(e@),
{
    match member(v, key) {
        Some(m) => Ok(m),
        None => Err(new_fault(FaultKind::Missing, key)),
    }
}

/// The text of the member `key`, which must be a string.
pub fn get_string(v: &Value, key: &str) -> (r: Result<String, SchemaFault>)
    ensures
        r matches Ok(text) ==> string_field(*v, key@) == Ok::<Seq<char>, SchemaFaultView>(text@),
        r matches Err(e) ==> string_field(*v, key@) == Err::<Seq<char>, SchemaFaultView>(e@),
{
    match member(v, key) {
        None => Err(new_fault(FaultKind::Missing, key)),
        Some(m) => match m.as_str() {
            Some(text) => Ok(text.to_string()),
            None => Err(new_fault(FaultKind::Mismatch, key)),
        },
    }
}

/// The text of the member `key`, which may be absent or `null` and must
/// else be a string.
pub fn get_optional_string(v: &Value, key: &str) -> (r: Result<Option<String>, SchemaFault>)
    ensures
        r matches Ok(text) ==> optional_string_field(*v, key@) == Ok::<
            Option<Seq<char>>,
            SchemaFaultView,
        >(text.deep_view()),
        r matches Err(e) ==> optional_string_field(*v, key@) == Err::<
            Option<Seq<char>>,
            SchemaFaultView,
        >(e@),
{
    match get_present(v, key) {
        None => Ok(None),
        Some(m) => match m.as_str() {
            Some(text) => Ok(Some(text.to_string())),
            None => Err(new_fault(FaultKind::Mismatch, key)),
        },
    }
}

/// The number of the member `key`, which must be an integer of 64 signed
/// bits.
pub fn get_integer(v: &Value, key: &str) -> (r: Result<i64, SchemaFault>)
    ensures
        r matches Ok(n) ==> integer_field(*v, key@) == Ok::<i64, SchemaFaultView>(n),
        r matches Err(e) ==> integer_field(*v, key@) == Err::<i64, SchemaFaultView>(e@),
{
    match member(v, key) {
        None => Err(new_fault(FaultKind::Missing, key)),
        Some(m) => match m.as_i64() {
            Some(n) => Ok(n),
            None => Err(new_fault(FaultKind::Mismatch, key)),
        },
    }
}

/// The truth value of the member `key`, which must be a boolean.
pub fn get_flag(v: &Value, key: &str) -> (r: Result<bool, SchemaFault>)
    ensures
        r matches Ok(b) ==> flag_field(*v, key@) == Ok::<bool, SchemaFaultView>(b),
        r matches Err(e) ==> flag_field(*v, key@) == Err::<bool, SchemaFaultView>(e@),
{
    match member(v, key) {
        None => Err(new_fault(FaultKind::Missing, key)),
        Some(m) => match m.as_bool() {
            Some(b) => Ok(b),
            None => Err(new_fault(FaultKind::Mismatch, key)),
        },
    }
}

/// The truth value of the member `key`, which may be absent or `null` and
/// must else be a boolean.
pub fn get_optional_flag(v: &Value, key: &str) -> (r: Result<Option<bool>, SchemaFault>)
    ensures
        r matches Ok(b) ==> optional_flag_field(*v, key@) == Ok::<Option<bool>, SchemaFaultView>(b),
        r matches Err(e) ==> optional_flag_field(*v, key@) == Err::<
            Option<bool>,
            SchemaFaultView,
        >(e@),
{
    match get_present(v, key) {
        None => Ok(None),
        Some(m) => match m.as_bool() {
            Some(b) => Ok(Some(b)),
            None => Err(new_fault(FaultKind::Mismatch, key)),
        },
    }
}

/// The elements of the member `key`, which must be an array.
pub fn get_list<'a>(v: &'a Value, key: &str) -> (r: Result<&'a Vec<Value>, SchemaFault>)
    ensures
        r matches Ok(items) ==> list_field(*v, key@) == Ok::<Seq<Value>, SchemaFaultView>(items@),
        r matches Err(e) ==> list_field(*v, key@) == Err::<Seq<Value>, SchemaFaultView>(e@),
{
    match member(v, key) {
        None => Err(new_fault(FaultKind::Missing, key)),
        Some(m) => match m.as_array() {
            Some(items) => Ok(items),
            None => Err(new_fault(FaultKind::Mismatch, key)),
        },
    }
}

} // verus!
