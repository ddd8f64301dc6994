//! The earlier pub/sub interface: messages that are not tied to a value
//! type, and whose constructors report serialization failures to the caller.

use std::sync::Arc;
use vstd::prelude::*;

use crate::json::{error_json, serialize_error};
use crate::pub_sub::share;
pub use crate::id::generate_id;
pub use crate::pub_sub::{notification_json, MsgView};

verus! {

/// Inner message published to subscribers.
pub struct PublishMsg {
    is_err: bool,
    // Make clone cheap.
    value: Arc<String>,
}

impl View for PublishMsg {
    type V = MsgView;

    closed spec fn view(&self) -> MsgView {
        MsgView { is_err: self.is_err, json: self.value@ }
    }
}

impl Clone for PublishMsg {
    fn clone(&self) -> (r: Self)
        ensures
            r@ == self@,
    {
        Self { is_err: self.is_err, value: share(&self.value) }
    }
}

impl PublishMsg {
    /// Create a new “result” message from the outcome of serializing a value
    /// into JSON; a serialization error is passed on.
    pub fn result_serialized(serialized: Result<String, serde_json::Error>) -> (r: Result<Self, serde_json::Error>)
        ensures
            serialized matches Ok(s) ==> (r matches Ok(msg) && msg@ == (MsgView { is_err: false, json: s@ })),
            serialized matches Err(e) ==> r == Err::<Self, serde_json::Error>(e),
    {
        match serialized {
            Ok(value) => Ok(Self { is_err: false, value: Arc::new(value) }),
            Err(e) => Err(e),
        }
    }

    /// Create a new “error” message by serializing the JSONRPC error object.
    pub fn error(err: &jsonrpc_core::Error) -> (r: Result<Self, serde_json::Error>)
        ensures
            r matches Ok(msg) && msg@ == (MsgView { is_err: true, json: error_json(*err) }),
    {
        match serialize_error(err) {
            Ok(value) => Ok(Self { is_err: true, value: Arc::new(value) }),
            Err(e) => Err(e),
        }
    }

    /// Create a new “result” message.
    ///
    /// `value` must be valid JSON.
    pub fn result_raw_json(value: &str) -> (msg: Self)
        ensures
            msg@ == (MsgView { is_err: false, json: value@ }),
    {
        Self { is_err: false, value: Arc::new(value.to_owned()) }
    }

    /// Create a new “error” message.
    ///
    /// `value` must be valid JSON.
    pub fn error_raw_json(value: &str) -> (msg: Self)
        ensures
            msg@ == (MsgView { is_err: true, json: value@ }),
    {
        Self { is_err: true, value: Arc::new(value.to_owned()) }
    }

    /// Whether this is an “error” message.
    pub fn is_err(&self) -> (r: bool)
        ensures
            r == self@.is_err,
    {
        self.is_err
    }

    /// The JSON text of the message.
    pub fn json(&self) -> (r: &str)
        ensures
            r@ == self@.json,
    {
        let s: &String = &*self.value;
        s.as_str()
    }
}

/// Formats the notification for `msg` sent under subscription `id` with
/// notification method `method`.
pub fn format_msg(id: &str, method: &str, msg: PublishMsg) -> (s: String)
    ensures
        s@ == notification_json(method@, id@, msg@),
{
    let mut s = String::new();
    s.append("{\"jsonrpc\":\"2.0\",\"method\":\"");
    s.append(method);
    s.append("\",\"params\":{\"subscription\":\"");
    s.append(id);
    if msg.is_err() {
        s.append("\",\"error\":");
    } else {
        s.append("\",\"result\":");
    }
    s.append(msg.json());
    s.append("}}");
    s
}

} // verus!
