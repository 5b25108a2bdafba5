//! The one error type of the decoder, and what the caller of an HTTP handler
//! sees of it.
use ntex::http::error::PayloadError as TransportError;
use ntex::web::error::PayloadError;
use vstd::prelude::*;

verus! {

/// `ntex::http::error::PayloadError`, what a body stream yields in place of a
/// chunk when reading fails; opaque to the verifier.
#[verifier::external_type_specification]
#[verifier::external_body]
pub struct ExTransportError(ntex::http::error::PayloadError);

/// `ntex::web::error::PayloadError`, the payload error of the web layer;
/// opaque to the verifier.
#[verifier::external_type_specification]
#[verifier::external_body]
pub struct ExPayloadError(ntex::web::error::PayloadError);

/// `dade::Error`, what a schema parser reports for bytes that it refuses;
/// opaque to the verifier.
#[verifier::external_type_specification]
#[verifier::external_body]
pub struct ExSchemaError(dade::Error);

/// Why a body could not be decoded. Every failure of the decoder is one of
/// these four, and each ends the decoding.
#[derive(Debug)]
pub enum JsonPayloadError {
    /// The body, as declared or as received, is larger than the limit.
    Overflow,
    /// The content type is missing, malformed, or not a JSON media type.
    ContentType,
    /// The schema parser refused the completed body.
    Deserialize(dade::Error),
    /// The stream failed before the body was complete.
    Payload(PayloadError),
}

/// The payload error of the web layer that stands for a failure of the
/// stream.
pub uninterp spec fn web_payload_error(err: TransportError) -> PayloadError;

/// Calls `From<ntex::http::error::PayloadError>` of
/// `ntex::web::error::PayloadError`, which wraps the failure of the stream
/// without looking at it.
#[verifier::external_body]
fn into_web_payload_error(err: TransportError) -> (wrapped: PayloadError)
    ensures
        wrapped == web_payload_error(err),
{
    PayloadError::from(err)
}

/// The four kinds of failure, without their causes.
#[derive(Clone, Copy, Debug, PartialEq, Eq, Structural)]
pub enum ErrorKind {
    /// The body, as declared or as received, is larger than the limit.
    Overflow,
    /// The content type is missing, malformed, or not a JSON media type.
    ContentType,
    /// The schema parser refused the completed body.
    Deserialize,
    /// The stream failed before the body was complete.
    Payload,
}

/// The status `400 Bad Request`.
pub const BAD_REQUEST: u16 = 400;

/// The status `500 Internal Server Error`.
pub const INTERNAL_SERVER_ERROR: u16 = 500;

impl ErrorKind {
    /// The HTTP status code that reports a failure of this kind: 500 for an
    /// oversized body, 400 for every other kind.
    pub open spec fn status(self) -> u16 {
        match self {
            ErrorKind::Overflow => INTERNAL_SERVER_ERROR,
            ErrorKind::ContentType => BAD_REQUEST,
            ErrorKind::Deserialize => BAD_REQUEST,
            ErrorKind::Payload => BAD_REQUEST,
        }
    }

    /// The HTTP status code that reports a failure of this kind: 500 for an
    /// oversized body, 400 for every other kind.
    pub fn status_code(self) -> (code: u16)
        ensures
            code == self.status(),
    {
        match self {
            ErrorKind::Overflow => INTERNAL_SERVER_ERROR,
            ErrorKind::ContentType => BAD_REQUEST,
            ErrorKind::Deserialize => BAD_REQUEST,
            ErrorKind::Payload => BAD_REQUEST,
        }
    }
}

impl JsonPayloadError {
    /// The kind of this error.
    pub open spec fn spec_kind(self) -> ErrorKind {
        match self {
            JsonPayloadError::Overflow => ErrorKind::Overflow,
            JsonPayloadError::ContentType => ErrorKind::ContentType,
            JsonPayloadError::Deserialize(_) => ErrorKind::Deserialize,
            JsonPayloadError::Payload(_) => ErrorKind::Payload,
        }
    }

    /// The kind of this error.
    pub fn kind(&self) -> (kind: ErrorKind)
        ensures
            kind == self.spec_kind(),
    {
        match self {
            JsonPayloadError::Overflow => ErrorKind::Overflow,
            JsonPayloadError::ContentType => ErrorKind::ContentType,
            JsonPayloadError::Deserialize(_) => ErrorKind::Deserialize,
            JsonPayloadError::Payload(_) => ErrorKind::Payload,
        }
    }

    /// The HTTP status code that reports this error: that of its kind.
    pub fn status_code(&self) -> (code: u16)
        ensures
            code == self.spec_kind().status(),
            code == 500 <==> *self is Overflow,
            code == 400 <==> !(*self is Overflow),
    {
        self.kind().status_code()
    }
}

impl From<dade::Error> for JsonPayloadError {
    fn from(err: dade::Error) -> (error: Self) {
        JsonPayloadError::Deserialize(err)
    }
}

impl vstd::std_specs::convert::FromSpecImpl<dade::Error> for JsonPayloadError {
    open spec fn obeys_from_spec() -> bool {
        true
    }

    open spec fn from_spec(err: dade::Error) -> Self {
        JsonPayloadError::Deserialize(err)
    }
}

impl From<PayloadError> for JsonPayloadError {
    fn from(err: PayloadError) -> (error: Self) {
        JsonPayloadError::Payload(err)
    }
}

impl vstd::std_specs::convert::FromSpecImpl<PayloadError> for JsonPayloadError {
    open spec fn obeys_from_spec() -> bool {
        true
    }

    open spec fn from_spec(err: PayloadError) -> Self {
        JsonPayloadError::Payload(err)
    }
}

impl From<TransportError> for JsonPayloadError {
    fn from(err: TransportError) -> (error: Self) {
        JsonPayloadError::Payload(into_web_payload_error(err))
    }
}

impl vstd::std_specs::convert::FromSpecImpl<TransportError> for JsonPayloadError {
    open spec fn obeys_from_spec() -> bool {
        true
    }

    open spec fn from_spec(err: TransportError) -> Self {
        JsonPayloadError::Payload(web_payload_error(err))
    }
}

} // verus!
