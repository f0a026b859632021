//! Timestamps carried by the wire protocol.
//!
//! The wire writes instants as RFC 3339 text.  The library holds an instant
//! as the milliseconds since the Unix epoch; the text is read by `chrono`
//! behind one trusted call.

use vstd::prelude::*;
use crate::json::{spec_obj_get, jv_fields_view, obj_get, JsonSpec, JsonValue};

verus! {

/// What `chrono` reads an RFC 3339 timestamp as: milliseconds since the
/// Unix epoch.
pub uninterp spec fn ts_of(s: Seq<char>) -> Option<i64>;

/// Relies on `chrono::DateTime::parse_from_rfc3339` and
/// `DateTime::timestamp_millis`: parsing succeeds exactly on well-formed
/// RFC 3339 text, and what a text parses to depends on the text alone.
#[verifier::external_body]
pub fn parse_timestamp(s: &str) -> (r: Option<i64>)
    ensures
        r == ts_of(s@),
{
    chrono::DateTime::parse_from_rfc3339(s).ok().map(|d| d.timestamp_millis())
}

/// A timestamp field of an object: RFC 3339 text.
pub open spec fn spec_ts_field(fs: Seq<(Seq<char>, JsonSpec)>, key: Seq<char>) -> Option<i64> {
    match spec_obj_get(fs, key) {
        Some(JsonSpec::Text(s)) => ts_of(s),
        _ => None,
    }
}

/// Reads a timestamp field out of an object's fields.
pub fn ts_field(fields: &Vec<(String, JsonValue)>, key: &str) -> (r: Option<i64>)
    ensures
        r == spec_ts_field(jv_fields_view(fields@), key@),
{
    match obj_get(fields, key) {
        Some(JsonValue::Text(s)) => parse_timestamp(s.as_str()),
        _ => None,
    }
}

/// An optional timestamp field: a missing field and a JSON null both stand
/// for no value; a present value must be well-formed RFC 3339 text.
pub open spec fn spec_opt_ts_field(fs: Seq<(Seq<char>, JsonSpec)>, key: Seq<char>) -> Option<
    Option<i64>,
> {
    match spec_obj_get(fs, key) {
        None => Some(None),
        Some(JsonSpec::Null) => Some(None),
        Some(JsonSpec::Text(s)) => match ts_of(s) {
            Some(t) => Some(Some(t)),
            None => None,
        },
        Some(_) => None,
    }
}

/// Reads an optional timestamp field out of an object's fields.
pub fn opt_ts_field(fields: &Vec<(String, JsonValue)>, key: &str) -> (r: Option<Option<i64>>)
    ensures
        r == spec_opt_ts_field(jv_fields_view(fields@), key@),
{
    match obj_get(fields, key) {
        None => Some(None),
        Some(JsonValue::Null) => Some(None),
        Some(JsonValue::Text(s)) => match parse_timestamp(s.as_str()) {
            Some(t) => Some(Some(t)),
            None => None,
        },
        Some(_) => None,
    }
}

} // verus!
