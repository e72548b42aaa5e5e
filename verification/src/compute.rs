//! The compute service's handler: read outcome to reply, through
//! parsing, validation and the Fibonacci computation.
//!
//! The handler walks one request from the body the transport delivered
//! to exactly one reply: missing or unreadable body and malformed JSON
//! end in a 400 with the matching text, a negative number ends in a 400
//! naming the number before the computation is ever reached, and a
//! valid number ends in a 200 carrying the Fibonacci answer and the
//! request's correlation identifier.

use vstd::prelude::*;
use vstd::string::StringExecFns;

use crate::decimal::{dec_int, i32_to_decimal};
use crate::fib::{calculate_fibonacci, fib_wrapped_i64};
use crate::http::{FibonacciResponse, HttpReply, ReplyBody, RequestBody};
use crate::json::{json_number_field, parse_number_field};
use crate::request_id::{chosen_request_id, extract_request_id};

verus! {

/// The reply the compute service owes for one request: the case
/// analysis of section-by-section validation, ending in exactly one
/// response.
pub open spec fn compute_reply(
    header: Option<&str>,
    fresh: Seq<char>,
    body: RequestBody,
    reply: HttpReply,
) -> bool {
    match body {
        RequestBody::Missing => reply.is_error(400, "No request body found"@),
        RequestBody::Unreadable => reply.is_error(400, "Failed to read request body"@),
        RequestBody::Text(t) => match json_number_field(t@) {
            None => reply.is_error(400, "Invalid JSON"@),
            Some(x) => if x < i32::MIN || x > i32::MAX {
                reply.is_error(400, "Invalid JSON"@)
            } else if x < 0 {
                reply.is_error(400, "invalid number: "@ + dec_int(x as int))
            } else {
                reply.is_fibonacci(
                    x as i32,
                    fib_wrapped_i64(x as nat),
                    chosen_request_id(header, fresh),
                )
            },
        },
    }
}

/// Parse the body text into the number it asks about. Text that is not
/// a JSON object with an integer `number` field that fits 32 bits is
/// answered with a 400 "Invalid JSON" reply.
pub fn parse_body_text(body: &str) -> (r: Result<i32, HttpReply>)
    ensures
        match r {
            Ok(n) => json_number_field(body@) == Some(n as i64),
            Err(reply) => {
                &&& reply.is_error(400, "Invalid JSON"@)
                &&& match json_number_field(body@) {
                    None => true,
                    Some(x) => x < i32::MIN || x > i32::MAX,
                }
            },
        },
{
    match parse_number_field(body) {
        Some(x) => {
            if i32::MIN as i64 <= x && x <= i32::MAX as i64 {
                Ok(x as i32)
            } else {
                Err(
                    HttpReply {
                        status: 400,
                        body: ReplyBody::Error("Invalid JSON".to_owned()),
                    },
                )
            }
        },
        None => Err(HttpReply { status: 400, body: ReplyBody::Error("Invalid JSON".to_owned()) }),
    }
}

/// Handle one request to the compute service: resolve the correlation
/// identifier, read the parsed body, validate the number, and compute.
/// Every outcome is a single reply, and a negative number is rejected
/// with a 400 before the computation is reached.
pub fn handle_fibonacci_request(
    header_id: Option<&str>,
    fresh_id: &str,
    body: &RequestBody,
) -> (reply: HttpReply)
    requires
        fresh_id@.len() > 0,
    ensures
        compute_reply(header_id, fresh_id@, *body, reply),
{
    let request_id = extract_request_id(header_id, fresh_id);
    let text = match body {
        RequestBody::Missing => {
            return HttpReply {
                status: 400,
                body: ReplyBody::Error("No request body found".to_owned()),
            };
        },
        RequestBody::Unreadable => {
            return HttpReply {
                status: 400,
                body: ReplyBody::Error("Failed to read request body".to_owned()),
            };
        },
        RequestBody::Text(t) => t,
    };
    let number = match parse_body_text(text.as_str()) {
        Ok(n) => n,
        Err(reply) => {
            return reply;
        },
    };
    if number < 0 {
        let mut message = "invalid number: ".to_owned();
        message.append(i32_to_decimal(number).as_str());
        return HttpReply { status: 400, body: ReplyBody::Error(message) };
    }
    let result = calculate_fibonacci(number);
    HttpReply {
        status: 200,
        body: ReplyBody::Fibonacci(FibonacciResponse { number, result, request_id }),
    }
}

} // verus!
