//! The opening message of a log connection, `{"id": <integer>, "follow":
//! <boolean>}`, read with serde_json.
use vstd::prelude::*;

use crate::error::ServiceError;
use crate::lifecycle::{requested_id, requested_id_spec};

verus! {

/// The integer that serde_json reads for member `key` of the JSON object
/// that `text` holds: none when `text` is no JSON object, has no such member,
/// or the member is no integer that fits an i64.
pub uninterp spec fn json_int_field(text: Seq<char>, key: Seq<char>) -> Option<i64>;

/// The boolean that serde_json reads for member `key` of the JSON object that
/// `text` holds: none when `text` is no JSON object, has no such member, or
/// the member is no boolean.
pub uninterp spec fn json_bool_field(text: Seq<char>, key: Seq<char>) -> Option<bool>;

/// Relies on serde_json::from_str, Value::get and Value::as_i64: the integer
/// member `key` of the JSON object in `text`.
#[verifier::external_body]
fn json_int_member(text: &str, key: &str) -> (r: Option<i64>)
    ensures
        r == json_int_field(text@, key@),
{
    serde_json::from_str::<serde_json::Value>(text).ok().and_then(|v| v.get(key).and_then(|m| m.as_i64()))
}

/// Relies on serde_json::from_str, Value::get and Value::as_bool: the boolean
/// member `key` of the JSON object in `text`.
#[verifier::external_body]
fn json_bool_member(text: &str, key: &str) -> (r: Option<bool>)
    ensures
        r == json_bool_field(text@, key@),
{
    serde_json::from_str::<serde_json::Value>(text).ok().and_then(|v| v.get(key).and_then(|m| m.as_bool()))
}

/// What a log connection asks for: the task, and whether to keep following
/// its output or to take one snapshot.
#[derive(Debug, Clone, Copy, PartialEq, Eq, Structural)]
pub struct LogRequest {
    pub id: u64,
    pub follow: bool,
}

/// The request that the fields of an opening message make.
pub open spec fn log_request_spec(id: Option<i64>, follow: Option<bool>) -> Result<
    LogRequest,
    ServiceError,
> {
    match follow {
        None => Err(ServiceError::Validation),
        Some(f) => match requested_id_spec(id) {
            Ok(i) => Ok(LogRequest { id: i, follow: f }),
            Err(e) => Err(e),
        },
    }
}

/// Builds a request from the `id` and `follow` fields of an opening message:
/// a missing field is a validation error, and so is a negative id, since
/// task ids are unsigned.
pub fn log_request_from_fields(id: Option<i64>, follow: Option<bool>) -> (r: Result<
    LogRequest,
    ServiceError,
>)
    ensures
        r == log_request_spec(id, follow),
{
    match follow {
        None => Err(ServiceError::Validation),
        Some(f) => match requested_id(id) {
            Ok(i) => Ok(LogRequest { id: i, follow: f }),
            Err(e) => Err(e),
        },
    }
}

/// The request that the opening message `text` makes.
pub open spec fn log_request_of(text: Seq<char>) -> Result<LogRequest, ServiceError> {
    log_request_spec(json_int_field(text, "id"@), json_bool_field(text, "follow"@))
}

/// Reads the opening message of a log connection. Text that is not a JSON
/// object with a non-negative integer `id` and a boolean `follow` is refused
/// as invalid.
pub fn parse_log_request(text: &str) -> (r: Result<LogRequest, ServiceError>)
    ensures
        r == log_request_of(text@),
{
    let id = json_int_member(text, "id");
    let follow = json_bool_member(text, "follow");
    log_request_from_fields(id, follow)
}

} // verus!
