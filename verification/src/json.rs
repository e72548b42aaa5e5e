//! Trusted access to serde_json, the one outside crate the verified
//! logic calls.
//!
//! The two request/response grammars of the service are JSON, and what
//! a JSON parse of arbitrary text yields takes pages to state, so each
//! parse result is given a name: an uninterpreted function of the text
//! alone. Every caller's contract is stated over these names, and the
//! logic after each parse is verified for every value the parse could
//! take.

use vstd::prelude::*;

verus! {

/// What parsing text as a Fibonacci request yields: the value of the
/// `number` field as a 64-bit integer, if the text is a JSON object
/// carrying one, and nothing otherwise.
pub uninterp spec fn json_number_field(s: Seq<char>) -> Option<i64>;

/// What parsing text as a Fibonacci answer yields: the `number`,
/// `result` and `request_id` fields, if the text is a JSON object
/// carrying all three with those types, and nothing otherwise.
pub uninterp spec fn json_fib_response(s: Seq<char>) -> Option<(i64, i64, Seq<char>)>;

/// Relies on serde_json::from_str::<Value>, Value::get and
/// Value::as_i64: read the integer `number` field of a JSON object.
/// Each is a pure function of the text, so the outcome is the named
/// parse result.
#[verifier::external_body]
pub(crate) fn parse_number_field(body: &str) -> (r: Option<i64>)
    ensures
        r == json_number_field(body@),
{
    let v: serde_json::Value = serde_json::from_str(body).ok()?;
    v.get("number")?.as_i64()
}

/// Relies on serde_json::from_str::<Value>, Value::get, Value::as_i64
/// and Value::as_str: read the `number`, `result` and `request_id`
/// fields of a JSON object. Each is a pure function of the text, so
/// the outcome is the named parse result.
#[verifier::external_body]
pub(crate) fn parse_response_fields(body: &str) -> (r: Option<(i64, i64, String)>)
    ensures
        match r {
            Some(t) => json_fib_response(body@) == Some((t.0, t.1, t.2@)),
            None => json_fib_response(body@) is None,
        },
{
    let v: serde_json::Value = serde_json::from_str(body).ok()?;
    Some((
        v.get("number")?.as_i64()?,
        v.get("result")?.as_i64()?,
        v.get("request_id")?.as_str()?.to_owned(),
    ))
}

} // verus!
