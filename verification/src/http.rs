//! The plain values that cross between the verified handlers and the
//! transport: request bodies as the transport delivered them, and the
//! replies the handlers decide on.

use vstd::prelude::*;

verus! {

/// What reading the inbound request body produced: no body at all, a
/// body whose stream failed, or the body text.
pub enum RequestBody {
    Missing,
    Unreadable,
    Text(String),
}

/// A successful Fibonacci answer: the number asked about, its
/// Fibonacci value, and the correlation identifier of the request.
pub struct FibonacciResponse {
    pub number: i32,
    pub result: i64,
    pub request_id: String,
}

/// The payload of a reply: either plain error text, or a Fibonacci
/// answer that the transport serialises as JSON.
pub enum ReplyBody {
    Error(String),
    Fibonacci(FibonacciResponse),
}

/// One HTTP reply: a status code and its payload.
pub struct HttpReply {
    pub status: u16,
    pub body: ReplyBody,
}

impl HttpReply {
    /// The reply is an error with this status and exactly this text.
    pub open spec fn is_error(self, status: u16, text: Seq<char>) -> bool {
        &&& self.status == status
        &&& self.body matches ReplyBody::Error(t) && t@ == text
    }

    /// The reply is a success carrying exactly this answer.
    pub open spec fn is_fibonacci(self, number: i32, result: int, request_id: Seq<char>) -> bool {
        &&& self.status == 200
        &&& self.body matches ReplyBody::Fibonacci(r) && r.number == number && r.result == result
            && r.request_id@ == request_id
    }
}

} // verus!
