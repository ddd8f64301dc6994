//! What an HTTP JSON-RPC client makes of the body of a response.

use vstd::prelude::*;

verus! {

/// `jsonrpc_core::Response`, a single response or a batch.
#[verifier::external_type_specification]
#[verifier::external_body]
pub struct ExResponse(jsonrpc_core::Response);

/// The parts of a response that a client call looks at.
pub enum ResponseShape {
    /// A single successful response, with its result.
    Success(serde_json::Value),
    /// A single failed response, with its error object.
    Failure(jsonrpc_core::Error),
    /// A batch of responses.
    Batch,
}

/// Why a client call did not produce a result.
pub enum RpcCallError {
    /// The response body is not a JSON-RPC response.
    Json(serde_json::Error),
    /// The server answered with an error object.
    Rpc(jsonrpc_core::Error),
    /// The server answered with a batch.
    UnexpectedBatch,
}

/// What `serde_json::from_slice::<jsonrpc_core::Response>` makes of a body:
/// the parse error, or the parts of the response parsed. It depends on the
/// bytes alone.
pub uninterp spec fn parsed_response(body: Seq<u8>) -> Result<ResponseShape, serde_json::Error>;

/// `serde_json::from_slice::<jsonrpc_core::Response>`: parses a response
/// body and tells its variants apart, taking out the result or the error
/// object of a single response. Claimed of the outside code: the outcome is
/// the one named `parsed_response` for the bytes.
#[verifier::external_body]
fn parse_response(body: &[u8]) -> (r: Result<ResponseShape, serde_json::Error>)
    ensures
        r == parsed_response(body@),
{
    match serde_json::from_slice::<jsonrpc_core::Response>(body) {
        Ok(jsonrpc_core::Response::Single(jsonrpc_core::Output::Success(s))) => Ok(ResponseShape::Success(s.result)),
        Ok(jsonrpc_core::Response::Single(jsonrpc_core::Output::Failure(f))) => Ok(ResponseShape::Failure(f.error)),
        Ok(jsonrpc_core::Response::Batch(_)) => Ok(ResponseShape::Batch),
        Err(e) => Err(e),
    }
}

/// The outcome of a call for a response: its result, its error object, or
/// an error for a batch.
pub open spec fn outcome_of(shape: ResponseShape) -> Result<serde_json::Value, RpcCallError> {
    match shape {
        ResponseShape::Success(v) => Ok(v),
        ResponseShape::Failure(e) => Err(RpcCallError::Rpc(e)),
        ResponseShape::Batch => Err(RpcCallError::UnexpectedBatch),
    }
}

/// The outcome of a call for a body: the parse error where the body is no
/// JSON-RPC response, else the outcome of the response's parts.
pub open spec fn decoded(parsed: Result<ResponseShape, serde_json::Error>) -> Result<serde_json::Value, RpcCallError> {
    match parsed {
        Err(e) => Err(RpcCallError::Json(e)),
        Ok(shape) => outcome_of(shape),
    }
}

/// The outcome of a call for a response: its result, its error object, or
/// an error for a batch.
pub fn outcome(shape: ResponseShape) -> (r: Result<serde_json::Value, RpcCallError>)
    ensures
        r == outcome_of(shape),
{
    match shape {
        ResponseShape::Success(v) => Ok(v),
        ResponseShape::Failure(e) => Err(RpcCallError::Rpc(e)),
        ResponseShape::Batch => Err(RpcCallError::UnexpectedBatch),
    }
}

/// The outcome of a call for a response body: a body that does not parse as
/// a response gives the parse error; a single success gives its result, a
/// single failure its error object, and a batch the batch error.
pub fn decode_response(body: &[u8]) -> (r: Result<serde_json::Value, RpcCallError>)
    ensures
        r == decoded(parsed_response(body@)),
{
    match parse_response(body) {
        Err(e) => Err(RpcCallError::Json(e)),
        Ok(shape) => outcome(shape),
    }
}

} // verus!
