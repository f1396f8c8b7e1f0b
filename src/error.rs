//! Errors returned by the client, and how a failed response becomes one.
use vstd::prelude::*;

verus! {

/// A failure of the exchange itself, as the transport described it.
#[derive(Debug, Clone, PartialEq, Eq)]
pub struct TransportError {
    /// The transport's description of the failure.
    pub message: String,
}

/// An error returned by the API: a response whose status was not 2xx.
#[derive(Debug, Clone, PartialEq, Eq)]
pub struct ApiError {
    /// The HTTP status code.
    pub status_code: u16,
    /// A brief description of the error.
    pub title: String,
    /// A human-readable description providing more insight into the error.
    pub detail: Option<String>,
    /// Errors that occurred while validating the request.
    pub validation_errors: Vec<String>,
}

/// The structured error body that the API sends with a failed response.
#[derive(Debug, Clone, PartialEq, Eq)]
pub struct ErrorBody {
    pub title: String,
    pub detail: Option<String>,
    pub validation_errors: Vec<String>,
}

/// An error returned by a client operation.
#[derive(Debug)]
pub enum Error {
    /// The exchange itself failed, or a success response could not be decoded.
    Transport(TransportError),
    /// The API answered with a non-2xx status.
    Api(ApiError),
    /// The API answered with a shape that its own rules forbid.
    UnexpectedResponse { detail: String },
}

/// Whether a status code reports success.
pub open spec fn is_success_status(status: u16) -> bool {
    200 <= status <= 299
}

/// Whether a status code reports success (2xx).
pub fn is_success(status: u16) -> (r: bool)
    ensures
        r == is_success_status(status),
{
    200 <= status && status <= 299
}

/// The title of the error that stands in for an undecodable error body.
pub open spec fn fallback_title() -> Seq<char> {
    "decoding failure"@
}

/// The detail of the error that stands in for an undecodable error body.
pub open spec fn fallback_detail() -> Seq<char> {
    "unable to decode API response as JSON"@
}

/// What [`api_error`] returns: the decoded body's fields, or the fallback
/// error when the body could not be decoded; the status is kept either way.
pub open spec fn api_error_spec(status: u16, body: Option<ErrorBody>, e: ApiError) -> bool {
    &&& e.status_code == status
    &&& match body {
        Some(b) => {
            &&& e.title@ == b.title@
            &&& e.detail == b.detail
            &&& e.validation_errors@ == b.validation_errors@
        },
        None => {
            &&& e.title@ == fallback_title()
            &&& e.detail matches Some(d) && d@ == fallback_detail()
            &&& e.validation_errors@.len() == 0
        },
    }
}

/// Builds the error for a failed response from its status and its body, as
/// decoded by the transport (`None` where the body was not a structured error).
///
/// A body that cannot be decoded never surfaces as a decode failure: the
/// caller gets an API error with the response's status and a fixed title.
pub fn api_error(status: u16, body: Option<ErrorBody>) -> (r: ApiError)
    ensures
        api_error_spec(status, body, r),
{
    match body {
        Some(b) => ApiError {
            status_code: status,
            title: b.title,
            detail: b.detail,
            validation_errors: b.validation_errors,
        },
        None => ApiError {
            status_code: status,
            title: "decoding failure".to_owned(),
            detail: Some("unable to decode API response as JSON".to_owned()),
            validation_errors: Vec::new(),
        },
    }
}

/// The outcome of a response, given its status and, for a failure, its
/// decoded error body: `None` on success, else the API error.
pub fn error_for_status(status: u16, body: Option<ErrorBody>) -> (r: Option<Error>)
    ensures
        is_success_status(status) <==> r is None,
        !is_success_status(status) ==> (r matches Some(Error::Api(e)) && api_error_spec(
            status,
            body,
            e,
        )),
{
    if is_success(status) {
        None
    } else {
        Some(Error::Api(api_error(status, body)))
    }
}

impl From<ApiError> for Error {
    fn from(e: ApiError) -> (r: Error)
        ensures
            r == Error::Api(e),
    {
        Error::Api(e)
    }
}

impl vstd::std_specs::convert::FromSpecImpl<ApiError> for Error {
    open spec fn obeys_from_spec() -> bool {
        true
    }

    open spec fn from_spec(e: ApiError) -> Error {
        Error::Api(e)
    }
}

} // verus!
