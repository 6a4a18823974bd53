//! The closed error taxonomy that every REST call and stream item reports through.

use vstd::prelude::*;
use crate::text::{decimal, unsigned_to_string};
use http::Error as HttpError;
use reqwest::Error as ReqwestError;
use serde_json::Error as JsonError;
use tokio_tungstenite::tungstenite::Error as WsError;

verus! {

#[verifier::external_type_specification]
#[verifier::external_body]
pub struct ExReqwestError(ReqwestError);

#[verifier::external_type_specification]
#[verifier::external_body]
pub struct ExHttpError(HttpError);

#[verifier::external_type_specification]
#[verifier::external_body]
pub struct ExWsError(WsError);

#[verifier::external_type_specification]
#[verifier::external_body]
pub struct ExJsonError(JsonError);

/// A failure of a REST call, of the stream handshake, of the stream itself, or
/// of JSON encoding and decoding.
#[allow(inconsistent_fields)]
#[derive(Debug)]
pub enum Error {
    /// The service executed the request and rejected it at the business layer.
    ServiceError { http_code: u8, tracking_id: String, code: String, message: String },
    /// The HTTP exchange itself failed.
    TransportError { description: &'static str, cause: ReqwestError },
    /// The upgrade request for the stream could not be built.
    HandshakeError { description: &'static str, cause: HttpError },
    /// The WebSocket channel failed, during the upgrade or after it.
    StreamTransportError { description: &'static str, cause: WsError },
    /// A request body, response body or stream frame could not be encoded or decoded.
    EncodingError { description: &'static str, cause: JsonError },
    /// An HTTP response came back with a status other than 200.
    GeneralError { description: String },
}

/// The proximate cause wrapped by an error.
#[derive(Debug)]
pub enum ErrorCause<'a> {
    Transport(&'a ReqwestError),
    Handshake(&'a HttpError),
    StreamTransport(&'a WsError),
    Encoding(&'a JsonError),
}

/// A kind's label with its description and the text of its cause.
pub open spec fn labelled_text(label: Seq<char>, description: Seq<char>, cause: Seq<char>) -> Seq<char> {
    label + "(description="@ + description + ", cause="@ + cause + ")"@
}

/// The text of an error, given the text of its cause (ignored by the variants
/// that wrap none).
pub open spec fn error_text(e: Error, cause: Seq<char>) -> Seq<char> {
    match e {
        Error::ServiceError { http_code, tracking_id, code, message } =>
            "ServiceError(http_code="@ + decimal(http_code as nat) + ", tracking_id="@
                + tracking_id@ + ", code="@ + code@ + ", message="@ + message@ + ")"@,
        Error::TransportError { description, .. } =>
            labelled_text("TransportError"@, description@, cause),
        Error::HandshakeError { description, .. } =>
            labelled_text("HandshakeError"@, description@, cause),
        Error::StreamTransportError { description, .. } =>
            labelled_text("StreamTransportError"@, description@, cause),
        Error::EncodingError { description, .. } =>
            labelled_text("EncodingError"@, description@, cause),
        Error::GeneralError { description } =>
            "GeneralError(description="@ + description@ + ")"@,
    }
}

/// Whether the error wraps an underlying cause.
pub open spec fn has_cause(e: Error) -> bool {
    !(e is ServiceError || e is GeneralError)
}

/// Relies on the `Display` impl of `reqwest::Error` for the text of the cause.
#[verifier::external_body]
fn reqwest_error_text(e: &ReqwestError) -> String {
    e.to_string()
}

/// Relies on the `Display` impl of `http::Error` for the text of the cause.
#[verifier::external_body]
fn http_error_text(e: &HttpError) -> String {
    e.to_string()
}

/// Relies on the `Display` impl of `tungstenite::Error` for the text of the cause.
#[verifier::external_body]
fn ws_error_text(e: &WsError) -> String {
    e.to_string()
}

/// Relies on the `Display` impl of `serde_json::Error` for the text of the cause.
#[verifier::external_body]
fn json_error_text(e: &JsonError) -> String {
    e.to_string()
}

fn labelled(label: &str, description: &str, cause: &String) -> (r: String)
    ensures
        r@ == labelled_text(label@, description@, cause@),
{
    String::from_str(label)
        .concat("(description=")
        .concat(description)
        .concat(", cause=")
        .concat(cause.as_str())
        .concat(")")
}

impl Error {
    /// The human-readable description: the message of a service error, the
    /// description of every other kind.
    pub fn description(&self) -> (r: &str)
        ensures
            r@ == match *self {
                Error::ServiceError { message, .. } => message@,
                Error::TransportError { description, .. } => description@,
                Error::HandshakeError { description, .. } => description@,
                Error::StreamTransportError { description, .. } => description@,
                Error::EncodingError { description, .. } => description@,
                Error::GeneralError { description } => description@,
            },
    {
        match self {
            Error::ServiceError { message, .. } => message.as_str(),
            Error::TransportError { description, .. } => description,
            Error::HandshakeError { description, .. } => description,
            Error::StreamTransportError { description, .. } => description,
            Error::EncodingError { description, .. } => description,
            Error::GeneralError { description } => description.as_str(),
        }
    }

    /// The underlying cause: `None` exactly for service and general errors.
    pub fn source(&self) -> (r: Option<ErrorCause<'_>>)
        ensures
            r is Some <==> has_cause(*self),
            match (*self, r) {
                (Error::TransportError { cause, .. }, Some(ErrorCause::Transport(c))) => *c == cause,
                (Error::HandshakeError { cause, .. }, Some(ErrorCause::Handshake(c))) => *c == cause,
                (Error::StreamTransportError { cause, .. }, Some(ErrorCause::StreamTransport(c))) => *c == cause,
                (Error::EncodingError { cause, .. }, Some(ErrorCause::Encoding(c))) => *c == cause,
                (_, None) => true,
                _ => false,
            },
    {
        match self {
            Error::ServiceError { .. } => None,
            Error::TransportError { cause, .. } => Some(ErrorCause::Transport(cause)),
            Error::HandshakeError { cause, .. } => Some(ErrorCause::Handshake(cause)),
            Error::StreamTransportError { cause, .. } => Some(ErrorCause::StreamTransport(cause)),
            Error::EncodingError { cause, .. } => Some(ErrorCause::Encoding(cause)),
            Error::GeneralError { .. } => None,
        }
    }

    /// The text of the error, given the text of its cause.
    pub fn render(&self, cause: &String) -> (r: String)
        ensures
            r@ == error_text(*self, cause@),
    {
        match self {
            Error::ServiceError { http_code, tracking_id, code, message } => {
                String::from_str("ServiceError(http_code=")
                    .concat(unsigned_to_string(*http_code as u64).as_str())
                    .concat(", tracking_id=")
                    .concat(tracking_id.as_str())
                    .concat(", code=")
                    .concat(code.as_str())
                    .concat(", message=")
                    .concat(message.as_str())
                    .concat(")")
            },
            Error::TransportError { description, .. } => labelled("TransportError", description, cause),
            Error::HandshakeError { description, .. } => labelled("HandshakeError", description, cause),
            Error::StreamTransportError { description, .. } => labelled("StreamTransportError", description, cause),
            Error::EncodingError { description, .. } => labelled("EncodingError", description, cause),
            Error::GeneralError { description } => {
                String::from_str("GeneralError(description=")
                    .concat(description.as_str())
                    .concat(")")
            },
        }
    }

    /// The text of the error, with the text of its cause where it wraps one.
    pub fn to_string(&self) -> (r: String)
        ensures
            exists|c: Seq<char>| r@ == error_text(*self, c),
            !has_cause(*self) ==> r@ == error_text(*self, Seq::empty()),
    {
        let cause = match self {
            Error::TransportError { cause, .. } => reqwest_error_text(cause),
            Error::HandshakeError { cause, .. } => http_error_text(cause),
            Error::StreamTransportError { cause, .. } => ws_error_text(cause),
            Error::EncodingError { cause, .. } => json_error_text(cause),
            _ => String::new(),
        };
        self.render(&cause)
    }
}

impl From<ReqwestError> for Error {
    fn from(cause: ReqwestError) -> (r: Error) {
        Error::TransportError { description: "HTTP request failed", cause }
    }
}

impl vstd::std_specs::convert::FromSpecImpl<ReqwestError> for Error {
    open spec fn obeys_from_spec() -> bool {
        true
    }

    open spec fn from_spec(cause: ReqwestError) -> Error {
        Error::TransportError { description: "HTTP request failed", cause }
    }
}

impl From<HttpError> for Error {
    fn from(cause: HttpError) -> (r: Error) {
        Error::HandshakeError { description: "HTTP request failed", cause }
    }
}

impl vstd::std_specs::convert::FromSpecImpl<HttpError> for Error {
    open spec fn obeys_from_spec() -> bool {
        true
    }

    open spec fn from_spec(cause: HttpError) -> Error {
        Error::HandshakeError { description: "HTTP request failed", cause }
    }
}

impl From<WsError> for Error {
    fn from(cause: WsError) -> (r: Error) {
        Error::StreamTransportError { description: "HTTP request failed", cause }
    }
}

impl vstd::std_specs::convert::FromSpecImpl<WsError> for Error {
    open spec fn obeys_from_spec() -> bool {
        true
    }

    open spec fn from_spec(cause: WsError) -> Error {
        Error::StreamTransportError { description: "HTTP request failed", cause }
    }
}

impl From<JsonError> for Error {
    fn from(cause: JsonError) -> (r: Error) {
        Error::EncodingError { description: "Serde serialization/deserialization error", cause }
    }
}

impl vstd::std_specs::convert::FromSpecImpl<JsonError> for Error {
    open spec fn obeys_from_spec() -> bool {
        true
    }

    open spec fn from_spec(cause: JsonError) -> Error {
        Error::EncodingError { description: "Serde serialization/deserialization error", cause }
    }
}

} // verus!
