//! Errors of the service and how they are answered over HTTP.
use vstd::prelude::*;

use crate::text::concat2;

verus! {

/// An error raised by a topic operation.
#[derive(Debug, Clone)]
pub enum SiegeError {
    TopicNotFound(String),
    TopicAlreadyExists(String),
    KafkaError(String),
    Internal(String),
}

/// The human-readable text of an error (its `Display` form).
pub open spec fn siege_error_text(e: SiegeError) -> Seq<char> {
    match e {
        SiegeError::TopicNotFound(s) => "topic not found: "@ + s@,
        SiegeError::TopicAlreadyExists(s) => "topic already exists: "@ + s@,
        SiegeError::KafkaError(s) => "kafka error: "@ + s@,
        SiegeError::Internal(s) => "internal error: "@ + s@,
    }
}

impl SiegeError {
    /// The error's text, e.g. `topic not found: orders`.
    pub fn message(&self) -> (r: String)
        ensures
            r@ == siege_error_text(*self),
    {
        match self {
            SiegeError::TopicNotFound(s) => concat2("topic not found: ", s.as_str()),
            SiegeError::TopicAlreadyExists(s) => concat2("topic already exists: ", s.as_str()),
            SiegeError::KafkaError(s) => concat2("kafka error: ", s.as_str()),
            SiegeError::Internal(s) => concat2("internal error: ", s.as_str()),
        }
    }
}

/// The class of an HTTP error answer.
#[derive(Debug, Clone, Copy, PartialEq, Eq, Structural)]
pub enum HttpErrorKind {
    NotFound,
    Conflict,
    BadGateway,
    Internal,
}

/// The status code that answers each class of error.
pub open spec fn spec_status(kind: HttpErrorKind) -> u16 {
    match kind {
        HttpErrorKind::NotFound => 404,
        HttpErrorKind::Conflict => 409,
        HttpErrorKind::BadGateway => 502,
        HttpErrorKind::Internal => 500,
    }
}

impl HttpErrorKind {
    /// The HTTP status code of this class.
    pub fn status(self) -> (r: u16)
        ensures
            r == spec_status(self),
    {
        match self {
            HttpErrorKind::NotFound => 404,
            HttpErrorKind::Conflict => 409,
            HttpErrorKind::BadGateway => 502,
            HttpErrorKind::Internal => 500,
        }
    }

    /// The value of the `error` field of the JSON body.
    pub fn label(self) -> (r: &'static str)
        ensures
            self == HttpErrorKind::NotFound ==> r@ == "NotFound"@,
            self == HttpErrorKind::Conflict ==> r@ == "Conflict"@,
            self == HttpErrorKind::BadGateway ==> r@ == "BadGateway"@,
            self == HttpErrorKind::Internal ==> r@ == "Internal"@,
    {
        match self {
            HttpErrorKind::NotFound => "NotFound",
            HttpErrorKind::Conflict => "Conflict",
            HttpErrorKind::BadGateway => "BadGateway",
            HttpErrorKind::Internal => "Internal",
        }
    }
}

/// An error answer: its class (which fixes the status code and the `error`
/// field of the body `{"error": .., "detail": ..}`) and its detail text.
#[derive(Debug, Clone)]
pub struct HttpError {
    pub kind: HttpErrorKind,
    pub detail: String,
}

impl HttpError {
    /// 404, `NotFound`.
    pub fn not_found(detail: String) -> (r: HttpError)
        ensures
            r.kind == HttpErrorKind::NotFound,
            r.detail == detail,
    {
        HttpError { kind: HttpErrorKind::NotFound, detail }
    }

    /// 409, `Conflict`.
    pub fn conflict(detail: String) -> (r: HttpError)
        ensures
            r.kind == HttpErrorKind::Conflict,
            r.detail == detail,
    {
        HttpError { kind: HttpErrorKind::Conflict, detail }
    }

    /// 502, `BadGateway`.
    pub fn bad_gateway(detail: String) -> (r: HttpError)
        ensures
            r.kind == HttpErrorKind::BadGateway,
            r.detail == detail,
    {
        HttpError { kind: HttpErrorKind::BadGateway, detail }
    }

    /// 500, `Internal`.
    pub fn internal(detail: String) -> (r: HttpError)
        ensures
            r.kind == HttpErrorKind::Internal,
            r.detail == detail,
    {
        HttpError { kind: HttpErrorKind::Internal, detail }
    }

    /// The status code of the answer.
    pub fn status(&self) -> (r: u16)
        ensures
            r == spec_status(self.kind),
    {
        self.kind.status()
    }
}

/// How a service error is answered.
pub open spec fn http_error_of(e: SiegeError) -> HttpError {
    match e {
        SiegeError::TopicNotFound(s) => HttpError { kind: HttpErrorKind::NotFound, detail: s },
        SiegeError::TopicAlreadyExists(s) => HttpError { kind: HttpErrorKind::Conflict, detail: s },
        SiegeError::KafkaError(s) => HttpError { kind: HttpErrorKind::BadGateway, detail: s },
        SiegeError::Internal(s) => HttpError { kind: HttpErrorKind::Internal, detail: s },
    }
}

impl From<SiegeError> for HttpError {
    fn from(e: SiegeError) -> (r: HttpError) {
        match e {
            SiegeError::TopicNotFound(s) => HttpError::not_found(s),
            SiegeError::TopicAlreadyExists(s) => HttpError::conflict(s),
            SiegeError::KafkaError(s) => HttpError::bad_gateway(s),
            SiegeError::Internal(s) => HttpError::internal(s),
        }
    }
}

impl vstd::std_specs::convert::FromSpecImpl<SiegeError> for HttpError {
    open spec fn obeys_from_spec() -> bool {
        true
    }

    open spec fn from_spec(e: SiegeError) -> HttpError {
        http_error_of(e)
    }
}

/// How each refusal of the service is answered: a missing topic with
/// `404`, an existing one with `409`, a Kafka failure with `502` and an
/// internal failure with `500`, the error's text becoming the detail.
pub proof fn law_refusals_answered(e: SiegeError)
    ensures
        spec_status(http_error_of(e).kind) == (match e {
            SiegeError::TopicNotFound(_) => 404u16,
            SiegeError::TopicAlreadyExists(_) => 409u16,
            SiegeError::KafkaError(_) => 502u16,
            SiegeError::Internal(_) => 500u16,
        }),
        http_error_of(e).detail == (match e {
            SiegeError::TopicNotFound(s) => s,
            SiegeError::TopicAlreadyExists(s) => s,
            SiegeError::KafkaError(s) => s,
            SiegeError::Internal(s) => s,
        }),
{
}

} // verus!
