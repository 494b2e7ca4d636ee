//! The reading of JSON texts, done by `serde_json`.

use vstd::prelude::*;
use crate::rpc::{ParamsField, RequestFields, RequestView};

verus! {

/// `serde_json`'s error type, carried through the library as an opaque value.
#[verifier::external_type_specification]
#[verifier::external_body]
pub struct ExJsonError(serde_json::Error);

/// Whether `serde_json::from_str::<Value>` accepts the text as one JSON value.
pub uninterp spec fn json_parses(text: Seq<char>) -> bool;

/// The member `key` of the JSON text, if the text is an object with that
/// member and the member is a string: the string's characters.
pub uninterp spec fn json_string_member(text: Seq<char>, key: Seq<char>) -> Option<Seq<char>>;

/// The member `key` of the JSON text, if the text is an object with that
/// member: the member rendered back as compact JSON text.
pub uninterp spec fn json_member_text(text: Seq<char>, key: Seq<char>) -> Option<Seq<char>>;

/// The member `key` of the JSON text read as an array of integers: `None`
/// when there is no such member, `Some(None)` when it is not an array, and
/// otherwise each element as an `i64`, if it is one.
pub uninterp spec fn json_i64_array_member(text: Seq<char>, key: Seq<char>) -> Option<Option<Seq<Option<i64>>>>;

/// The fields of a request, as the names above read them from its text.
pub open spec fn request_view_of(text: Seq<char>) -> RequestView {
    RequestView {
        method: json_string_member(text, "method"@),
        id: json_member_text(text, "id"@),
        params: json_i64_array_member(text, "params"@),
    }
}

/// Parses a request with `serde_json::from_str::<Value>` and reads its
/// `method` (`Value::get` and `Value::as_str`), its `id` (`Value::get`,
/// rendered with `Value::to_string`) and its `params` (`Value::get`,
/// `Value::as_array`, `Value::as_i64` on each element). The outcome is a
/// function of the text alone; it is stated through the names above.
#[verifier::external_body]
pub(crate) fn parse_request_fields(text: &str) -> (r: Result<RequestFields, serde_json::Error>)
    ensures
        r is Ok <==> json_parses(text@),
        r matches Ok(f) ==> f@.method == json_string_member(text@, "method"@),
        r matches Ok(f) ==> f@.id == json_member_text(text@, "id"@),
        r matches Ok(f) ==> f@.params == json_i64_array_member(text@, "params"@),
{
    let v: serde_json::Value = serde_json::from_str(text)?;
    Ok(RequestFields {
        method: v.get("method").and_then(serde_json::Value::as_str).map(str::to_string),
        id: v.get("id").map(|id| id.to_string()),
        params: match v.get("params") {
            None => ParamsField::Missing,
            Some(p) => match p.as_array() {
                None => ParamsField::NotArray,
                Some(a) => ParamsField::Array(a.iter().map(serde_json::Value::as_i64).collect()),
            },
        },
    })
}

/// Parses a reply with `serde_json::from_str::<Value>` and reads its `result`
/// member as a string (`Value::get` and `Value::as_str`). The outcome is a
/// function of the text alone; it is stated through the names above.
#[verifier::external_body]
pub(crate) fn reply_result(text: &str) -> (r: Result<Option<String>, serde_json::Error>)
    ensures
        r is Ok <==> json_parses(text@),
        r matches Ok(o) ==> o.deep_view() == json_string_member(text@, "result"@),
{
    let v: serde_json::Value = serde_json::from_str(text)?;
    Ok(v.get("result").and_then(serde_json::Value::as_str).map(str::to_string))
}

} // verus!
