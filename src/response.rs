//! Replies sent to clients, and the mapping of errors onto them.
use vstd::prelude::*;
use crate::encoding::{decimal, envelope, envelope_body, to_decimal};
use crate::errors::{ApplicationError, RGBError};

verus! {

/// The text returned in place of the cause of a masked error.
pub const INTERNAL_SERVER_ERROR_MSG: &'static str =
    "Internal server error, Please contact your administrator or try later";

/// The HTTP statuses the service answers with.
#[derive(Clone, Copy, PartialEq, Eq, Structural, Debug)]
pub enum HttpStatus {
    Success,
    NoContent,
    BadRequest,
    InternalServerError,
}

impl HttpStatus {
    pub open spec fn spec_code(&self) -> u16 {
        match self {
            HttpStatus::Success => 200,
            HttpStatus::NoContent => 204,
            HttpStatus::BadRequest => 400,
            HttpStatus::InternalServerError => 500,
        }
    }

    /// The numeric status code.
    #[verifier::when_used_as_spec(spec_code)]
    pub fn code(&self) -> (r: u16)
        ensures
            r == self.spec_code(),
    {
        match self {
            HttpStatus::Success => 200,
            HttpStatus::NoContent => 204,
            HttpStatus::BadRequest => 400,
            HttpStatus::InternalServerError => 500,
        }
    }
}

/// The level at which an error is logged.
#[derive(Clone, Copy, PartialEq, Eq, Structural, Debug)]
pub enum Severity {
    Warn,
    Error,
}

/// A failed request's answer: a status, the JSON envelope as body, and the
/// level and text with which the failure is logged.
pub struct ErrorReply {
    pub status: HttpStatus,
    pub body: String,
    pub severity: Severity,
    pub log: String,
}

/// What a request is answered with.
pub enum Reply {
    /// 200 with a plain-text body.
    Text(String),
    /// 200 with the backend's value encoded as JSON.
    Json,
    /// 204 with an empty body.
    NoContent,
    /// A failure: 400 or 500 with the error envelope.
    Failure(ErrorReply),
}

impl Reply {
    pub open spec fn spec_status(&self) -> HttpStatus {
        match self {
            Reply::Text(_) => HttpStatus::Success,
            Reply::Json => HttpStatus::Success,
            Reply::NoContent => HttpStatus::NoContent,
            Reply::Failure(e) => e.status,
        }
    }

    #[verifier::when_used_as_spec(spec_status)]
    pub fn status(&self) -> (r: HttpStatus)
        ensures
            r == self.spec_status(),
    {
        match self {
            Reply::Text(_) => HttpStatus::Success,
            Reply::Json => HttpStatus::Success,
            Reply::NoContent => HttpStatus::NoContent,
            Reply::Failure(e) => e.status,
        }
    }
}

/// The body of a failure answered with `status` and `reason`.
pub open spec fn error_body(status: HttpStatus, reason: Seq<char>) -> Seq<char> {
    envelope(decimal(status.spec_code() as nat), reason)
}

/// Whether `r` is the failure with `status` and `reason`, logged at `severity`
/// with the text `log`.
pub open spec fn is_failure(
    r: Reply,
    status: HttpStatus,
    reason: Seq<char>,
    severity: Severity,
    log: Seq<char>,
) -> bool {
    &&& r is Failure
    &&& r->Failure_0.status == status
    &&& r->Failure_0.body@ == error_body(status, reason)
    &&& r->Failure_0.severity == severity
    &&& r->Failure_0.log@ == log
}

/// The status a backend error is answered with.
pub open spec fn rgb_error_status(e: RGBError) -> HttpStatus {
    if e.is_masked() {
        HttpStatus::InternalServerError
    } else {
        HttpStatus::BadRequest
    }
}

/// The reason a backend error is answered with: a fixed text for masked
/// errors, the backend's own description for the others.
pub open spec fn rgb_error_reason(e: RGBError) -> Seq<char> {
    if e.is_masked() {
        INTERNAL_SERVER_ERROR_MSG@
    } else {
        e.description()
    }
}

/// The failure a backend error is answered with.
pub open spec fn rgb_error_reply(r: Reply, e: RGBError) -> bool {
    is_failure(
        r,
        rgb_error_status(e),
        rgb_error_reason(e),
        if e.is_masked() { Severity::Error } else { Severity::Warn },
        e.description(),
    )
}

/// The failure any error is answered with: backend errors as above, every
/// other kind as a masked internal error.
pub open spec fn error_reply(r: Reply, e: ApplicationError) -> bool {
    match e {
        ApplicationError::RGB(inner) => rgb_error_reply(r, inner),
        _ => is_failure(
            r,
            HttpStatus::InternalServerError,
            INTERNAL_SERVER_ERROR_MSG@,
            Severity::Error,
            e.description(),
        ),
    }
}

/// The status any error is answered with.
pub open spec fn error_status(e: ApplicationError) -> HttpStatus {
    match e {
        ApplicationError::RGB(inner) => rgb_error_status(inner),
        _ => HttpStatus::InternalServerError,
    }
}

/// The JSON envelope for a failure with `status` and `reason`.
pub fn generate_body(status: HttpStatus, reason: &str) -> (r: String)
    ensures
        r@ == error_body(status, reason@),
{
    let code = to_decimal(status.code() as u64);
    envelope_body(code.as_str(), reason)
}

impl RGBError {
    /// Answers a backend error: masked kinds with 500 and a fixed text, every
    /// other kind with 400 and its own description.
    pub fn into_response(&self) -> (r: Reply)
        ensures
            rgb_error_reply(r, *self),
    {
        let log = self.message();
        match self {
            RGBError::Online(_) | RGBError::Invoice(_) => {
                let status = HttpStatus::InternalServerError;
                let body = generate_body(status, INTERNAL_SERVER_ERROR_MSG);
                Reply::Failure(ErrorReply { status, body, severity: Severity::Error, log })
            },
            RGBError::Rejected(_) => {
                let status = HttpStatus::BadRequest;
                let body = generate_body(status, log.as_str());
                Reply::Failure(ErrorReply { status, body, severity: Severity::Warn, log })
            },
        }
    }
}

impl ApplicationError {
    /// Answers any error; only backend errors may disclose their cause.
    pub fn into_response(&self) -> (r: Reply)
        ensures
            error_reply(r, *self),
    {
        match self {
            ApplicationError::RGB(e) => e.into_response(),
            _ => {
                let status = HttpStatus::InternalServerError;
                let body = generate_body(status, INTERNAL_SERVER_ERROR_MSG);
                let log = self.message();
                Reply::Failure(ErrorReply { status, body, severity: Severity::Error, log })
            },
        }
    }
}

/// Online and invoice failures are always answered with 500 and the fixed
/// message, whatever their text; every other backend failure with 400 and its
/// text unchanged.
pub proof fn lemma_error_masking(e: RGBError, r: Reply)
    requires
        error_reply(r, ApplicationError::RGB(e)),
    ensures
        (e is Online || e is Invoice) ==> r.spec_status().spec_code() == 500
            && r->Failure_0.body@ == error_body(r.spec_status(), INTERNAL_SERVER_ERROR_MSG@),
        !(e is Online || e is Invoice) ==> r.spec_status().spec_code() == 400
            && r->Failure_0.body@ == error_body(r.spec_status(), e.description()),
{
}

} // verus!
