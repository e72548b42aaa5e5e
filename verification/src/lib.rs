//! A verified core for a two-tier Fibonacci service.
//!
//! An edge service accepts `POST /fibonacci` with a JSON body
//! `{"number": n}`, resolves a correlation identifier from the
//! `X-Request-ID` header, and relays the request to a compute service,
//! which validates the number and returns the Fibonacci value together
//! with the identifier. This crate holds everything those two services
//! decide and compute: identifier resolution, body parsing and
//! validation, the Fibonacci computation, and the mapping from each
//! outcome to an HTTP reply. Transport, logging and token generation
//! stay with the embedding programs.

pub mod compute;
pub mod decimal;
pub mod edge;
pub mod fib;
pub mod http;
pub mod json;
pub mod request_id;
