//! A typed client for the Monzo banking API.
//!
//! Every operation of the API is a request builder: a value that knows its HTTP
//! method, its URL and the body it carries. [`client::build_request`] turns any
//! such value into the request that goes on the wire, and
//! [`client::handle_response`] turns what came back into a typed value or a
//! classified [`error::Error`]. The library performs no I/O itself: the caller
//! sends the [`http::HttpRequest`] and hands back the outcome.

pub mod fields;
pub mod http;
pub mod error;
pub mod endpoints;
pub mod client;
