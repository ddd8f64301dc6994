//! The outside JSON types this library carries, and the serialization calls
//! it makes on them.

use vstd::prelude::*;

use crate::macros::decimal;

verus! {

/// `serde_json::Value`, carried through unchanged.
#[verifier::external_type_specification]
#[verifier::external_body]
pub struct ExJsonValue(serde_json::Value);

/// `serde_json::Error`, carried through unchanged.
#[verifier::external_type_specification]
#[verifier::external_body]
pub struct ExJsonError(serde_json::Error);

/// `jsonrpc_core::Error`, the JSON-RPC error object.
#[verifier::external_type_specification]
#[verifier::external_body]
pub struct ExRpcError(jsonrpc_core::Error);

/// Code of the JSON-RPC "internal error".
pub const INTERNAL_ERROR_CODE: i64 = -32603;

/// The JSON text that `serde_json::to_string` gives for an error object.
pub uninterp spec fn error_json(err: jsonrpc_core::Error) -> Seq<char>;

/// An integer in decimal, with a leading `-` when negative.
pub open spec fn signed_decimal(n: int) -> Seq<char> {
    if n < 0 {
        seq!['-'] + decimal((-n) as nat)
    } else {
        decimal(n as nat)
    }
}

/// A text that JSON string serialization writes unchanged: no `"`, no `\`
/// and no control character below U+0020.
pub open spec fn needs_no_escape(s: Seq<char>) -> bool {
    forall|i: int| 0 <= i < s.len() ==> #[trigger] s[i] != '"' && s[i] != '\\' && (s[i] as u32) >= 0x20
}

/// Serializes a JSON-RPC error object with `serde_json::to_string`.
///
/// Claimed of the outside code: the call succeeds, and gives the text named
/// `error_json` of the object. `jsonrpc_core::Error` derives `Serialize` over
/// an `i64` code, a `String` message and an optional `serde_json::Value`;
/// serde_json's string serializer fails only for map keys that are not
/// strings or for a `Serialize` impl that reports an error, and neither can
/// occur in those fields.
#[verifier::external_body]
pub fn serialize_error(err: &jsonrpc_core::Error) -> (r: Result<String, serde_json::Error>)
    ensures
        r is Ok,
        r matches Ok(s) ==> s@ == error_json(*err),
{
    serde_json::to_string(err)
}

/// Builds a `jsonrpc_core::Error` with the code that `ErrorCode::from` gives
/// for `code`, the given message and no data.
///
/// Claimed of the outside code: where the message needs no escaping, the
/// object serializes as `{"code":<code>,"message":"<message>"}`.
/// `ErrorCode::from` followed by `ErrorCode::code`, which its `Serialize`
/// writes, gives back `code`; the derived `Serialize` writes the fields in
/// declaration order without spaces, and skips `data` when it is `None`;
/// serde_json writes an `i64` in decimal. What the object serializes as for
/// other messages is left unsaid.
#[verifier::external_body]
pub fn error_object(code: i64, message: String) -> (r: jsonrpc_core::Error)
    ensures
        needs_no_escape(message@) ==> error_json(r) == "{\"code\":"@ + signed_decimal(code as int)
            + ",\"message\":\""@ + message@ + "\"}"@,
{
    jsonrpc_core::Error { code: jsonrpc_core::ErrorCode::from(code), message, data: None }
}

} // verus!
