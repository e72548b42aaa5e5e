//! The edge service's handler, split around its one outbound call.
//!
//! The edge validates the shape of the inbound body itself, so a
//! malformed request is answered locally and no downstream call is
//! issued. A well-formed request becomes a call description carrying
//! the number and the correlation identifier to forward; the transport
//! performs the call and hands back what happened; and the second half
//! turns that outcome into the client's reply. Semantic validation
//! lives with the compute service, so a downstream client error passes
//! through unchanged, while a transport failure or an unreadable
//! downstream answer becomes a 500 with a fixed generic text that never
//! carries the underlying error.

use vstd::prelude::*;
use vstd::string::StringExecFns;

use crate::compute::parse_body_text;
use crate::decimal::{dec_int, i32_to_decimal};
use crate::http::{FibonacciResponse, HttpReply, ReplyBody, RequestBody};
use crate::json::{json_fib_response, json_number_field, parse_response_fields};
use crate::request_id::{chosen_request_id, extract_request_id};

verus! {

/// A downstream call the edge has decided to make: which number to ask
/// about, and the identifier to forward as `X-Request-ID`.
pub struct ComputeCall {
    pub number: i32,
    pub request_id: String,
}

/// What the edge decides on one inbound request: answer it locally, or
/// call the compute service.
pub enum EdgeStep {
    Reply(HttpReply),
    CallCompute(ComputeCall),
}

/// What the transport reports back from the downstream call: no
/// response at all, or a response with its status and body text.
pub enum DownstreamOutcome {
    TransportFailure,
    Response { status: u16, body: String },
}

/// The step the edge owes for one inbound request: a local 400 for a
/// missing, unreadable or malformed body — never a downstream call —
/// and otherwise a call carrying the parsed number and the resolved
/// identifier.
pub open spec fn edge_step(
    header: Option<&str>,
    fresh: Seq<char>,
    body: RequestBody,
    step: EdgeStep,
) -> bool {
    match body {
        RequestBody::Missing => step matches EdgeStep::Reply(r) && r.is_error(
            400,
            "No request body found"@,
        ),
        RequestBody::Unreadable => step matches EdgeStep::Reply(r) && r.is_error(
            400,
            "Failed to read request body"@,
        ),
        RequestBody::Text(t) => match json_number_field(t@) {
            None => step matches EdgeStep::Reply(r) && r.is_error(400, "Invalid JSON"@),
            Some(x) => if x < i32::MIN || x > i32::MAX {
                step matches EdgeStep::Reply(r) && r.is_error(400, "Invalid JSON"@)
            } else {
                step matches EdgeStep::CallCompute(c) && c.number == x && c.request_id@
                    == chosen_request_id(header, fresh)
            },
        },
    }
}

/// The reply the edge owes for one downstream outcome: a parsable
/// answer under a 2xx status is relayed, a downstream client error
/// passes through with its status and text, and everything else — a
/// transport failure, an unreadable answer, any other status — becomes
/// a 500 whose text is fixed and carries nothing of the cause.
pub open spec fn edge_reply(outcome: DownstreamOutcome, reply: HttpReply) -> bool {
    match outcome {
        DownstreamOutcome::TransportFailure => reply.is_error(500, "Failed to contact backend"@),
        DownstreamOutcome::Response { status, body } => if 200 <= status && status < 300 {
            match json_fib_response(body@) {
                Some(fields) => if fields.0 < i32::MIN || fields.0 > i32::MAX {
                    reply.is_error(500, "Failed to contact backend"@)
                } else {
                    reply.is_fibonacci(fields.0 as i32, fields.1 as int, fields.2)
                },
                None => reply.is_error(500, "Failed to contact backend"@),
            }
        } else if 400 <= status && status < 500 {
            reply.status == status && (reply.body matches ReplyBody::Error(t) && t@ == body@)
        } else {
            reply.is_error(500, "Failed to contact backend"@)
        },
    }
}

/// Decide one inbound request: resolve the correlation identifier and
/// parse the body. A body that does not parse is answered with a 400
/// here, and the compute service is not contacted.
pub fn handle_fibonacci_request(
    header_id: Option<&str>,
    fresh_id: &str,
    body: &RequestBody,
) -> (step: EdgeStep)
    requires
        fresh_id@.len() > 0,
    ensures
        edge_step(header_id, fresh_id@, *body, step),
{
    let request_id = extract_request_id(header_id, fresh_id);
    let text = match body {
        RequestBody::Missing => {
            return EdgeStep::Reply(
                HttpReply {
                    status: 400,
                    body: ReplyBody::Error("No request body found".to_owned()),
                },
            );
        },
        RequestBody::Unreadable => {
            return EdgeStep::Reply(
                HttpReply {
                    status: 400,
                    body: ReplyBody::Error("Failed to read request body".to_owned()),
                },
            );
        },
        RequestBody::Text(t) => t,
    };
    match parse_body_text(text.as_str()) {
        Ok(number) => EdgeStep::CallCompute(ComputeCall { number, request_id }),
        Err(reply) => EdgeStep::Reply(reply),
    }
}

/// The JSON body forwarded to the compute service for this number.
pub fn fibonacci_request_body(number: i32) -> (body: String)
    ensures
        body@ == "{\"number\":"@ + dec_int(number as int) + "}"@,
{
    let mut body = "{\"number\":".to_owned();
    body.append(i32_to_decimal(number).as_str());
    body.append("}");
    proof {
        assert(body@ =~= "{\"number\":"@ + dec_int(number as int) + "}"@);
    }
    body
}

/// Turn the downstream outcome into the client's reply: relay a
/// parsable answer, pass a downstream client error through, and answer
/// every other outcome with a 500 whose text is a fixed generic
/// message.
pub fn handle_downstream_outcome(outcome: DownstreamOutcome) -> (reply: HttpReply)
    ensures
        edge_reply(outcome, reply),
{
    let (status, body) = match outcome {
        DownstreamOutcome::TransportFailure => {
            return HttpReply {
                status: 500,
                body: ReplyBody::Error("Failed to contact backend".to_owned()),
            };
        },
        DownstreamOutcome::Response { status, body } => (status, body),
    };
    if 400 <= status && status < 500 {
        return HttpReply { status, body: ReplyBody::Error(body) };
    }
    if !(200 <= status && status < 300) {
        return HttpReply {
            status: 500,
            body: ReplyBody::Error("Failed to contact backend".to_owned()),
        };
    }
    match parse_response_fields(body.as_str()) {
        Some((number, result, request_id)) => {
            if i32::MIN as i64 <= number && number <= i32::MAX as i64 {
                HttpReply {
                    status: 200,
                    body: ReplyBody::Fibonacci(
                        FibonacciResponse { number: number as i32, result, request_id },
                    ),
                }
            } else {
                HttpReply {
                    status: 500,
                    body: ReplyBody::Error("Failed to contact backend".to_owned()),
                }
            }
        },
        None => HttpReply {
            status: 500,
            body: ReplyBody::Error("Failed to contact backend".to_owned()),
        },
    }
}

} // verus!
