//! The diagnostic error value.
//!
//! Every failed call returns one `ApiError` that preserves what is needed
//! to debug the call without re-running it: the resolved URL, the exact
//! request body that was sent, and the response status and body when a
//! response arrived at all. It carries no recovery behaviour.

use vstd::prelude::*;
use vstd::string::StringExecFns;
use crate::domain::opt_view;
use crate::text::{spec_i32_text, i32_to_text};

verus! {

/// Which way a call failed.
#[derive(Clone, Copy, PartialEq, Eq, Structural, Debug)]
pub enum ErrorKind {
    /// The request could not be sent or no response arrived.
    Transport,
    /// A response arrived with a status outside 200..=299.
    Status,
    /// The body of a successful response did not hold the expected shape.
    Parse,
    /// A well-formed response in which the service itself reported failure.
    Service,
    /// The caller's input was rejected before any request was sent.
    Validation,
}

#[derive(Debug)]
pub struct ApiError {
    pub kind: ErrorKind,
    pub url: String,
    pub request_body: String,
    pub response_status: Option<u16>,
    pub response_body: Option<String>,
    pub error: String,
}

pub struct ApiErrorModel {
    pub kind: ErrorKind,
    pub url: Seq<char>,
    pub request_body: Seq<char>,
    pub response_status: Option<u16>,
    pub response_body: Option<Seq<char>>,
    pub error: Seq<char>,
}

impl View for ApiError {
    type V = ApiErrorModel;

    open spec fn view(&self) -> ApiErrorModel {
        ApiErrorModel {
            kind: self.kind,
            url: self.url@,
            request_body: self.request_body@,
            response_status: self.response_status,
            response_body: opt_view(self.response_body),
            error: self.error@,
        }
    }
}

/// No response arrived: no status, no body, only the cause.
pub open spec fn spec_transport_error(
    url: Seq<char>,
    request_body: Seq<char>,
    message: Seq<char>,
) -> ApiErrorModel {
    ApiErrorModel {
        kind: ErrorKind::Transport,
        url,
        request_body,
        response_status: None,
        response_body: None,
        error: message,
    }
}

/// A non-success status: the raw body is preserved verbatim.
pub open spec fn spec_status_error(
    url: Seq<char>,
    request_body: Seq<char>,
    status: u16,
    body: Seq<char>,
) -> ApiErrorModel {
    ApiErrorModel {
        kind: ErrorKind::Status,
        url,
        request_body,
        response_status: Some(status),
        response_body: Some(body),
        error: "API returned error status "@ + spec_i32_text(status as i32) + ": "@ + body,
    }
}

/// A successful status whose body did not hold the expected shape.
pub open spec fn spec_parse_error(
    url: Seq<char>,
    request_body: Seq<char>,
    status: u16,
    body: Seq<char>,
) -> ApiErrorModel {
    ApiErrorModel {
        kind: ErrorKind::Parse,
        url,
        request_body,
        response_status: Some(status),
        response_body: Some(body),
        error: "Failed to parse API response. Response was: "@ + body,
    }
}

/// The agents listing matched neither of its two known shapes.
pub open spec fn spec_agents_shape_error(
    url: Seq<char>,
    request_body: Seq<char>,
    status: u16,
    body: Seq<char>,
) -> ApiErrorModel {
    ApiErrorModel {
        kind: ErrorKind::Parse,
        url,
        request_body,
        response_status: Some(status),
        response_body: Some(body),
        error: "Failed to parse the agents listing: neither agents nor error. Response was: "@
            + body,
    }
}

/// The agents listing answered with its failure shape.
pub open spec fn spec_agents_failure(
    url: Seq<char>,
    request_body: Seq<char>,
    status: u16,
    body: Seq<char>,
    message: Seq<char>,
) -> ApiErrorModel {
    ApiErrorModel {
        kind: ErrorKind::Service,
        url,
        request_body,
        response_status: Some(status),
        response_body: Some(body),
        error: "Failed to list agents: "@ + message,
    }
}

/// The caller's input was rejected locally; no URL was ever resolved.
pub open spec fn spec_validation_error(message: Seq<char>) -> ApiErrorModel {
    ApiErrorModel {
        kind: ErrorKind::Validation,
        url: Seq::empty(),
        request_body: Seq::empty(),
        response_status: None,
        response_body: None,
        error: message,
    }
}

pub fn transport_error(url: String, request_body: String, message: String) -> (r: ApiError)
    ensures
        r@ == spec_transport_error(url@, request_body@, message@),
{
    ApiError {
        kind: ErrorKind::Transport,
        url,
        request_body,
        response_status: None,
        response_body: None,
        error: message,
    }
}

pub fn status_error(url: String, request_body: String, status: u16, body: String) -> (r: ApiError)
    ensures
        r@ == spec_status_error(url@, request_body@, status, body@),
{
    let mut msg = String::new();
    msg.append("API returned error status ");
    msg.append(i32_to_text(status as i32).as_str());
    msg.append(": ");
    msg.append(body.as_str());
    proof {
        assert(msg@ =~= "API returned error status "@ + spec_i32_text(status as i32) + ": "@
            + body@);
    }
    ApiError {
        kind: ErrorKind::Status,
        url,
        request_body,
        response_status: Some(status),
        response_body: Some(body),
        error: msg,
    }
}

pub fn parse_error(url: String, request_body: String, status: u16, body: String) -> (r: ApiError)
    ensures
        r@ == spec_parse_error(url@, request_body@, status, body@),
{
    let mut msg = String::new();
    msg.append("Failed to parse API response. Response was: ");
    msg.append(body.as_str());
    ApiError {
        kind: ErrorKind::Parse,
        url,
        request_body,
        response_status: Some(status),
        response_body: Some(body),
        error: msg,
    }
}

pub fn agents_shape_error(url: String, request_body: String, status: u16, body: String) -> (r:
    ApiError)
    ensures
        r@ == spec_agents_shape_error(url@, request_body@, status, body@),
{
    let mut msg = String::new();
    msg.append("Failed to parse the agents listing: neither agents nor error. Response was: ");
    msg.append(body.as_str());
    ApiError {
        kind: ErrorKind::Parse,
        url,
        request_body,
        response_status: Some(status),
        response_body: Some(body),
        error: msg,
    }
}

pub fn agents_failure(
    url: String,
    request_body: String,
    status: u16,
    body: String,
    message: &String,
) -> (r: ApiError)
    ensures
        r@ == spec_agents_failure(url@, request_body@, status, body@, message@),
{
    let mut msg = String::new();
    msg.append("Failed to list agents: ");
    msg.append(message.as_str());
    ApiError {
        kind: ErrorKind::Service,
        url,
        request_body,
        response_status: Some(status),
        response_body: Some(body),
        error: msg,
    }
}

pub fn validation_error(message: &str) -> (r: ApiError)
    ensures
        r@ == spec_validation_error(message@),
{
    let mut msg = String::new();
    msg.append(message);
    proof {
        assert(msg@ =~= message@);
    }
    ApiError {
        kind: ErrorKind::Validation,
        url: String::new(),
        request_body: String::new(),
        response_status: None,
        response_body: None,
        error: msg,
    }
}

impl ApiError {
    /// The cause chain as one line, for a human or a log.
    pub fn message(&self) -> (r: String)
        ensures
            r@ == self.error@,
    {
        let mut out = String::new();
        out.append(self.error.as_str());
        proof {
            assert(out@ =~= self.error@);
        }
        out
    }
}

} // verus!
