//! The request pipeline: how the outcome of one exchange becomes the outcome
//! of a call.
use vstd::prelude::*;

use crate::json::Json;
use crate::codec::{CodecError, ParsedEnvelope, StructuredError, decode, decoded};

verus! {

/// Why the exchange with the server could not be completed.
#[derive(Debug, PartialEq)]
pub enum TransportError {
    ConnectFailed(String),
    Timeout(String),
    IoError(String),
}

/// The one error that a call returns.
#[derive(Debug, PartialEq)]
pub enum RpcError {
    /// The call could not be completed.
    Internal(TransportError),
    /// The response could not be read.
    ParseError(CodecError),
    /// The server reported an error.
    Application(StructuredError),
}

/// The transport error that a failed exchange gives: a timeout takes
/// precedence over a failed connection, and anything else is an I/O error.
pub open spec fn transport_error_of(timed_out: bool, connect_failed: bool, description: String) -> TransportError {
    if timed_out {
        TransportError::Timeout(description)
    } else if connect_failed {
        TransportError::ConnectFailed(description)
    } else {
        TransportError::IoError(description)
    }
}

/// A response identifier that belongs to the request `request_id`: a string
/// equal to it, or none (absent or null) where the server did not echo one.
pub open spec fn correlates(id: Option<Json>, request_id: Seq<char>) -> bool {
    match id {
        None => true,
        Some(Json::Null) => true,
        Some(Json::Str(s)) => s@ == request_id,
        _ => false,
    }
}

/// The outcome of a call under `request_id` whose exchange gave `exchange`.
pub open spec fn call_outcome(request_id: Seq<char>, exchange: Result<Vec<u8>, TransportError>) -> Result<Json, RpcError> {
    match exchange {
        Err(t) => Err(RpcError::Internal(t)),
        Ok(body) => match decoded(body@) {
            Err(c) => Err(RpcError::ParseError(c)),
            Ok(ParsedEnvelope::Success { id, result }) => if correlates(id, request_id) {
                Ok(result)
            } else {
                Err(RpcError::ParseError(CodecError::Malformed))
            },
            Ok(ParsedEnvelope::Failure { id, error }) => if correlates(id, request_id) {
                Err(RpcError::Application(error))
            } else {
                Err(RpcError::ParseError(CodecError::Malformed))
            },
        },
    }
}

/// The outcome of decoding a `result` value into the shape the caller expects.
pub open spec fn typed_outcome_of<T>(shaped: Option<T>) -> Result<T, CodecError> {
    match shaped {
        Some(v) => Ok(v),
        None => Err(CodecError::ShapeMismatch),
    }
}

/// Whether a call under `request_id` took the response it received as its
/// own: it returned the response's result or the error the server reported.
pub open spec fn accepts(request_id: Seq<char>, exchange: Result<Vec<u8>, TransportError>) -> bool {
    call_outcome(request_id, exchange) is Ok || call_outcome(request_id, exchange) matches Err(RpcError::Application(_))
}

/// The identifier of the response envelope that the bytes hold, if any.
pub open spec fn response_id(bytes: Seq<u8>) -> Option<Json> {
    match decoded(bytes) {
        Ok(ParsedEnvelope::Success { id, .. }) => id,
        Ok(ParsedEnvelope::Failure { id, .. }) => id,
        Err(_) => None,
    }
}

/// A call takes a response as its own only where the response's identifier
/// is its own or absent; and a response that names an identifier is taken
/// by at most one of two calls with different identifiers, whatever order
/// the responses come in.
pub proof fn law_calls_take_only_their_own_response(
    request_id: Seq<char>,
    other_id: Seq<char>,
    body: Vec<u8>,
)
    requires
        request_id != other_id,
    ensures
        accepts(request_id, Ok(body)) ==> correlates(response_id(body@), request_id),
        response_id(body@) matches Some(Json::Str(_)) ==> !(accepts(request_id, Ok(body)) && accepts(other_id, Ok(body))),
{
}

/// Names the failure of an exchange.
pub fn transport_error(timed_out: bool, connect_failed: bool, description: String) -> (r: TransportError)
    ensures
        r == transport_error_of(timed_out, connect_failed, description),
{
    if timed_out {
        TransportError::Timeout(description)
    } else if connect_failed {
        TransportError::ConnectFailed(description)
    } else {
        TransportError::IoError(description)
    }
}

/// Whether a response identifier belongs to the request `request_id`.
pub fn is_correlated(id: &Option<Json>, request_id: &str) -> (r: bool)
    ensures
        r == correlates(*id, request_id@),
{
    match id {
        None => true,
        Some(Json::Null) => true,
        Some(Json::Str(s)) => {
            let expected = request_id.to_owned();
            *s == expected
        },
        _ => false,
    }
}

/// Completes a call under `request_id` from what the exchange gave: the raw
/// `result` value, or the one error that stands for the failure.
pub fn complete_call(request_id: &str, exchange: Result<Vec<u8>, TransportError>) -> (r: Result<Json, RpcError>)
    ensures
        r == call_outcome(request_id@, exchange),
{
    match exchange {
        Err(t) => Err(RpcError::Internal(t)),
        Ok(body) => match decode(body.as_slice()) {
            Err(c) => Err(RpcError::ParseError(c)),
            Ok(ParsedEnvelope::Success { id, result }) => if is_correlated(&id, request_id) {
                Ok(result)
            } else {
                Err(RpcError::ParseError(CodecError::Malformed))
            },
            Ok(ParsedEnvelope::Failure { id, error }) => if is_correlated(&id, request_id) {
                Err(RpcError::Application(error))
            } else {
                Err(RpcError::ParseError(CodecError::Malformed))
            },
        },
    }
}

/// Takes the outcome of decoding a `result` value into the caller's type:
/// a value that did not fit that type is a shape mismatch.
pub fn decode_result<T>(shaped: Option<T>) -> (r: Result<T, CodecError>)
    ensures
        r == typed_outcome_of(shaped),
{
    match shaped {
        Some(v) => Ok(v),
        None => Err(CodecError::ShapeMismatch),
    }
}

/// The typed outcome of a call: the raw outcome, with the `result` value
/// decoded into the caller's type as `shaped` gives it.
pub fn typed_outcome<T>(raw: Result<Json, RpcError>, shaped: Option<T>) -> (r: Result<T, RpcError>)
    ensures
        r == match raw {
            Err(e) => Err(e),
            Ok(_) => match typed_outcome_of(shaped) {
                Ok(v) => Ok(v),
                Err(c) => Err(RpcError::ParseError(c)),
            },
        },
{
    match raw {
        Err(e) => Err(e),
        Ok(_) => match decode_result(shaped) {
            Ok(v) => Ok(v),
            Err(c) => Err(RpcError::ParseError(c)),
        },
    }
}

} // verus!
