//! Plain descriptions of an outbound HTTP request and of what came back.
//!
//! The library never performs a request itself: it builds an [`HttpRequest`],
//! the surrounding application executes it and reports an [`HttpOutcome`],
//! and the library classifies that outcome. Every request carries the fixed
//! ten-second timeout; enforcing it is the executing side's duty.

use vstd::prelude::*;

verus! {

/// The fixed timeout, in seconds, of every outbound request.
pub const REQUEST_TIMEOUT_SECS: u64 = 10;

/// HTTP method of a request.
#[derive(Debug)]
pub enum Method {
    Get,
    Post,
}

/// Body of a request: none, a form-encoded parameter list, or a JSON
/// document.
#[derive(Debug)]
pub enum RequestBody {
    NoBody,
    Form(Vec<(String, String)>),
    JsonBody(crate::json::Json),
}

/// One outbound request, fully described by plain values.
#[derive(Debug)]
pub struct HttpRequest {
    pub method: Method,
    pub url: String,
    pub headers: Vec<(String, String)>,
    pub body: RequestBody,
    pub timeout_secs: u64,
}

/// What executing a request came to: a response (any status code), the fixed
/// timeout elapsing, or another connection failure with its message.
#[derive(Debug)]
pub enum HttpOutcome {
    Response { status: u16, body: String },
    TimedOut,
    NetworkFailure(String),
}

/// Why an operation failed: the timeout elapsed, another connection failure,
/// a non-2xx response from the remote service, or a response body that does
/// not decode to the expected resource shape.
#[derive(Debug)]
pub enum ApiError {
    Timeout,
    Network(String),
    Remote(u16),
    Decode,
}

/// The images of a header or parameter list.
pub open spec fn pairs_view(s: Seq<(String, String)>) -> Seq<(Seq<char>, Seq<char>)> {
    s.map_values(|p: (String, String)| (p.0@, p.1@))
}

/// The error an outcome carries before any decoding: a timeout, a connection
/// failure, or a response with a status outside 200..=299. `None` for a 2xx
/// response.
pub open spec fn http_error_of(o: HttpOutcome) -> Option<ApiError> {
    match o {
        HttpOutcome::TimedOut => Some(ApiError::Timeout),
        HttpOutcome::NetworkFailure(msg) => Some(ApiError::Network(msg)),
        HttpOutcome::Response { status, .. } => if 200 <= status && status <= 299 {
            None
        } else {
            Some(ApiError::Remote(status))
        },
    }
}

/// The body of a 2xx response; the empty sequence for every other outcome.
pub open spec fn response_body(o: HttpOutcome) -> Seq<char> {
    match o {
        HttpOutcome::Response { body, .. } => body@,
        _ => Seq::<char>::empty(),
    }
}

/// Splits an outcome into the body of a successful response and the error of
/// every other outcome: a timeout stays timeout-classified, a connection
/// failure keeps its message, and a non-2xx response carries its status.
pub fn classify_outcome(o: HttpOutcome) -> (r: Result<String, ApiError>)
    ensures
        match r {
            Ok(body) => http_error_of(o) is None && body@ == response_body(o),
            Err(e) => http_error_of(o) == Some(e),
        },
{
    match o {
        HttpOutcome::TimedOut => Err(ApiError::Timeout),
        HttpOutcome::NetworkFailure(msg) => Err(ApiError::Network(msg)),
        HttpOutcome::Response { status, body } => {
            if 200 <= status && status <= 299 {
                Ok(body)
            } else {
                Err(ApiError::Remote(status))
            }
        },
    }
}

} // verus!
