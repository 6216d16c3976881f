//! Pure HTTP classification: response status codes to error kinds, and the
//! fixed ingress responses.

use vstd::prelude::*;
use vstd::string::*;

use crate::errors::ErrorKind;

verus! {

/// What a raw HTTP exchange can report, by status code.
#[derive(Clone, Copy, Debug, PartialEq, Eq)]
pub enum HttpErrorKind {
    BadRequest,
    Unauthorized,
    NotFound,
    Internal,
    BadGateway,
    GatewayTimeout,
    UnknownServerError,
}

/// The error kind of a client or server status code; `None` for any code
/// outside 400..=599.
pub open spec fn http_status_kind(status: u16) -> Option<HttpErrorKind> {
    if 400 <= status < 600 {
        Some(
            if status == 400 { HttpErrorKind::BadRequest }
            else if status == 401 { HttpErrorKind::Unauthorized }
            else if status == 404 { HttpErrorKind::NotFound }
            else if status == 500 { HttpErrorKind::Internal }
            else if status == 502 { HttpErrorKind::BadGateway }
            else if status == 504 { HttpErrorKind::GatewayTimeout }
            else { HttpErrorKind::UnknownServerError },
        )
    } else {
        None
    }
}

/// Classifies a response status code as the raw HTTP layer does: 4xx and 5xx
/// are errors, everything else passes.
pub fn classify_status(status: u16) -> (r: Option<HttpErrorKind>)
    ensures
        r == http_status_kind(status),
{
    if 400 <= status && status < 600 {
        Some(
            if status == 400 { HttpErrorKind::BadRequest }
            else if status == 401 { HttpErrorKind::Unauthorized }
            else if status == 404 { HttpErrorKind::NotFound }
            else if status == 500 { HttpErrorKind::Internal }
            else if status == 502 { HttpErrorKind::BadGateway }
            else if status == 504 { HttpErrorKind::GatewayTimeout }
            else { HttpErrorKind::UnknownServerError },
        )
    } else {
        None
    }
}

/// The outcome of one egress POST, by status code: 2xx succeeds, 401 and 403
/// are an authorization failure, other 4xx are malformed input, everything
/// else is internal.
pub open spec fn egress_status_kind(status: u16) -> Option<ErrorKind> {
    if 200 <= status < 300 {
        None
    } else if status == 401 || status == 403 {
        Some(ErrorKind::Unauthorized)
    } else if 400 <= status < 500 {
        Some(ErrorKind::MalformedInput)
    } else {
        Some(ErrorKind::Internal)
    }
}

/// Classifies one egress response status.
pub fn classify_egress_status(status: u16) -> (r: Option<ErrorKind>)
    ensures
        r == egress_status_kind(status),
{
    if 200 <= status && status < 300 {
        None
    } else if status == 401 || status == 403 {
        Some(ErrorKind::Unauthorized)
    } else if 400 <= status && status < 500 {
        Some(ErrorKind::MalformedInput)
    } else {
        Some(ErrorKind::Internal)
    }
}

/// The fixed JSON body served for an ingress status code.
pub open spec fn ingress_body(status: u16) -> Seq<char> {
    if status == 400 { "{\"description\": \"Bad request\"}"@ }
    else if status == 401 { "{\"description\": \"Unauthorized\"}"@ }
    else if status == 404 { "{\"description\": \"Not found\"}"@ }
    else { "{\"description\": \"Internal server error\"}"@ }
}

/// An ingress failure and the response it maps to.
#[derive(Clone, Debug, PartialEq, Eq)]
pub enum IngressError {
    BadRequest,
    Unauthorized,
    NotFound,
    /// Validation failures pass their own JSON body through.
    UnprocessableEntity(String),
    Internal,
}

/// Builds the HTTP response for an ingress failure: the fixed status and the
/// fixed JSON body, except that validation failures pass their body through
/// with status 422.
pub fn ingress_response(e: &IngressError) -> (r: (u16, String))
    ensures
        match e {
            IngressError::BadRequest => r.0 == 400 && r.1@ == ingress_body(400),
            IngressError::Unauthorized => r.0 == 401 && r.1@ == ingress_body(401),
            IngressError::NotFound => r.0 == 404 && r.1@ == ingress_body(404),
            IngressError::UnprocessableEntity(body) => r.0 == 422 && r.1@ == body@,
            IngressError::Internal => r.0 == 500 && r.1@ == ingress_body(500),
        },
{
    match e {
        IngressError::BadRequest => (400, String::from_str("{\"description\": \"Bad request\"}")),
        IngressError::Unauthorized => (
            401,
            String::from_str("{\"description\": \"Unauthorized\"}"),
        ),
        IngressError::NotFound => (404, String::from_str("{\"description\": \"Not found\"}")),
        IngressError::UnprocessableEntity(body) => (422, body.clone()),
        IngressError::Internal => (
            500,
            String::from_str("{\"description\": \"Internal server error\"}"),
        ),
    }
}

/// Routes an ingress request: the control endpoint knows no routes, so every
/// path answers not-found.
pub fn route_ingress(_method: &str, _path: &str) -> (r: IngressError)
    ensures
        r == IngressError::NotFound,
{
    IngressError::NotFound
}

} // verus!
