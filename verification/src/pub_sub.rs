//! Pub/sub: the messages published to subscribers, the notifications sent
//! for them, and the rule that a subscription stream ends after its first
//! error.

use std::marker::PhantomData;
use std::sync::Arc;
use vstd::prelude::*;

use crate::macros::decimal;

use crate::json::{error_json, signed_decimal, error_object, serialize_error, INTERNAL_ERROR_CODE};
pub use crate::id::generate_id;

verus! {

/// What a published message is: an error or a result, and its JSON text.
pub struct MsgView {
    pub is_err: bool,
    pub json: Seq<char>,
}

/// Inner message published to subscribers.
pub struct PublishMsg<T> {
    is_err: bool,
    // Make clone cheap.
    value: Arc<String>,
    phantom: PhantomData<T>,
}

impl<T> View for PublishMsg<T> {
    type V = MsgView;

    closed spec fn view(&self) -> MsgView {
        MsgView { is_err: self.is_err, json: self.value@ }
    }
}

impl<T> Clone for PublishMsg<T> {
    fn clone(&self) -> (r: Self)
        ensures
            r@ == self@,
    {
        Self { is_err: self.is_err, value: share(&self.value), phantom: PhantomData }
    }
}

/// `Arc::clone`: a new handle to the same shared text.
#[verifier::external_body]
pub(crate) fn share(value: &Arc<String>) -> (r: Arc<String>)
    ensures
        r == *value,
{
    Arc::clone(value)
}

impl<T> PublishMsg<T> {
    /// Create a new “result” message from the outcome of serializing a value
    /// into JSON.
    ///
    /// If serialization failed, an “error” message for an internal error with
    /// an empty message is created instead.
    pub fn result_serialized(serialized: Result<String, serde_json::Error>) -> (msg: Self)
        ensures
            serialized matches Ok(s) ==> msg@ == (MsgView { is_err: false, json: s@ }),
            serialized is Err ==> msg@ == (MsgView { is_err: true, json: "{\"code\":-32603,\"message\":\"\"}"@ }),
    {
        match serialized {
            Ok(value) => Self { is_err: false, value: Arc::new(value), phantom: PhantomData },
            Err(_) => {
                let message = String::new();
                let err = error_object(INTERNAL_ERROR_CODE, message);
                let msg = Self::error(&err);
                proof {
                    lemma_internal_error_text();
                }
                msg
            },
        }
    }

    /// Create a new “error” message by serializing the JSONRPC error object.
    pub fn error(err: &jsonrpc_core::Error) -> (msg: Self)
        ensures
            msg@ == (MsgView { is_err: true, json: error_json(*err) }),
    {
        let value = serialize_error(err).unwrap();
        Self { is_err: true, value: Arc::new(value), phantom: PhantomData }
    }

    /// Create a new “result” message.
    ///
    /// `value` must be valid JSON.
    pub fn result_raw_json(value: &str) -> (msg: Self)
        ensures
            msg@ == (MsgView { is_err: false, json: value@ }),
    {
        Self { is_err: false, value: Arc::new(value.to_owned()), phantom: PhantomData }
    }

    /// Create a new “error” message.
    ///
    /// `value` must be valid JSON.
    pub fn error_raw_json(value: &str) -> (msg: Self)
        ensures
            msg@ == (MsgView { is_err: true, json: value@ }),
    {
        Self { is_err: true, value: Arc::new(value.to_owned()), phantom: PhantomData }
    }

    /// Whether this is an “error” message.
    pub fn is_err(&self) -> (r: bool)
        ensures
            r == self@.is_err,
    {
        self.is_err
    }

    /// The JSON text of the message.
    pub fn json(&self) -> (r: &str)
        ensures
            r@ == self@.json,
    {
        let s: &String = &*self.value;
        s.as_str()
    }
}

/// The internal-error object with an empty message reads
/// `{"code":-32603,"message":""}`.
proof fn lemma_internal_error_text()
    ensures
        "{\"code\":"@ + signed_decimal(INTERNAL_ERROR_CODE as int) + ",\"message\":\""@ + Seq::<char>::empty() + "\"}"@
            == "{\"code\":-32603,\"message\":\"\"}"@,
{
    reveal_with_fuel(decimal, 6);
    reveal_strlit("{\"code\":");
    reveal_strlit(",\"message\":\"");
    reveal_strlit("\"}");
    reveal_strlit("{\"code\":-32603,\"message\":\"\"}");
    assert(decimal(32603) =~= seq!['3', '2', '6', '0', '3']);
    assert("{\"code\":"@ + signed_decimal(INTERNAL_ERROR_CODE as int) + ",\"message\":\""@ + Seq::<char>::empty() + "\"}"@
        =~= "{\"code\":-32603,\"message\":\"\"}"@);
}

/// The JSON-RPC notification that carries a published message to the
/// subscriber, under the notification method and the subscription id.
pub open spec fn notification_json(method: Seq<char>, id: Seq<char>, msg: MsgView) -> Seq<char> {
    "{\"jsonrpc\":\"2.0\",\"method\":\""@ + method + "\",\"params\":{\"subscription\":\""@ + id
        + (if msg.is_err {
        "\",\"error\":"@
    } else {
        "\",\"result\":"@
    }) + msg.json + "}}"@
}

/// The key under which the message's JSON goes depends only on whether the
/// message is an error: `result` for a result and `error` for an error, the
/// JSON itself is copied unchanged, and the method and id stand in their
/// places.
pub proof fn lemma_notification_fields(method: Seq<char>, id: Seq<char>, json: Seq<char>)
    ensures
        notification_json(method, id, MsgView { is_err: false, json }) == "{\"jsonrpc\":\"2.0\",\"method\":\""@
            + method + "\",\"params\":{\"subscription\":\""@ + id + "\",\"result\":"@ + json + "}}"@,
        notification_json(method, id, MsgView { is_err: true, json }) == "{\"jsonrpc\":\"2.0\",\"method\":\""@
            + method + "\",\"params\":{\"subscription\":\""@ + id + "\",\"error\":"@ + json + "}}"@,
{
}

/// Formats the notification for `msg` sent under subscription `id` with
/// notification method `method`.
pub fn format_msg<T>(id: &str, method: &str, msg: PublishMsg<T>) -> (s: String)
    ensures
        s@ == notification_json(method@, id@, msg@),
{
    let mut s = String::new();
    s.append("{\"jsonrpc\":\"2.0\",\"method\":\"");
    s.append(method);
    s.append("\",\"params\":{\"subscription\":\"");
    s.append(id);
    if msg.is_err() {
        s.append("\",\"error\":");
    } else {
        s.append("\",\"result\":");
    }
    s.append(msg.json());
    s.append("}}");
    s
}


/// The part of a subscription stream that is delivered: everything up to and
/// including its first error message.
pub open spec fn delivered_until_error(stopped: bool, items: Seq<MsgView>) -> Seq<MsgView>
    decreases items.len(),
{
    if stopped || items.len() == 0 {
        Seq::empty()
    } else {
        seq![items[0]] + delivered_until_error(items[0].is_err, items.drop_first())
    }
}

/// The state kept beside a subscription stream: whether it has already
/// produced an error message, after which it ends.
pub struct TerminateAfterOneError {
    has_error: bool,
}

impl TerminateAfterOneError {
    /// Whether an error message has been passed on, so that the stream has
    /// ended.
    pub closed spec fn stopped(self) -> bool {
        self.has_error
    }

    /// Whether the inner stream is still to be polled.
    pub fn should_poll(&self) -> (r: bool)
        ensures
            r == !self.stopped(),
    {
        !self.has_error
    }

    /// Passes on what the inner stream produced. An error message is passed
    /// on, and ends the stream.
    pub fn on_item<T>(&mut self, item: Option<PublishMsg<T>>) -> (out: Option<PublishMsg<T>>)
        requires
            !old(self).stopped(),
        ensures
            out == item,
            final(self).stopped() == (item matches Some(m) && m@.is_err),
            item matches Some(m) ==> forall|rest: Seq<MsgView>|
                #[trigger] delivered_until_error(false, seq![m@] + rest) == seq![m@] + delivered_until_error(
                    final(self).stopped(),
                    rest,
                ),
    {
        proof {
            if item is Some {
                let v = item->0@;
                assert forall|rest: Seq<MsgView>|
                    #[trigger] delivered_until_error(false, seq![v] + rest) == seq![v] + delivered_until_error(v.is_err, rest) by {
                    assert((seq![v] + rest).drop_first() =~= rest);
                }
            }
        }
        match item {
            None => None,
            Some(msg) => {
                if msg.is_err() {
                    self.has_error = true;
                }
                Some(msg)
            },
        }
    }
}

/// The state for a subscription stream that has not produced anything yet.
pub fn terminate_after_one_error() -> (s: TerminateAfterOneError)
    ensures
        !s.stopped(),
{
    TerminateAfterOneError { has_error: false }
}

/// A subscription stream ends after its first error: of the messages that
/// the inner stream yields, those passed on are a prefix that holds no error
/// but possibly its last element, and that stops short of the whole only
/// right after an error.
pub proof fn lemma_terminate_after_one_error(items: Seq<MsgView>)
    ensures
        ({
            let out = delivered_until_error(false, items);
            &&& out.len() <= items.len()
            &&& out == items.take(out.len() as int)
            &&& forall|i: int| 0 <= i < out.len() - 1 ==> !(#[trigger] out[i]).is_err
            &&& out.len() < items.len() ==> out.len() > 0 && out[out.len() - 1].is_err
        }),
    decreases items.len(),
{
    if items.len() > 0 {
        let rest = items.drop_first();
        if !items[0].is_err {
            lemma_terminate_after_one_error(rest);
            let tail = delivered_until_error(false, rest);
            let out = delivered_until_error(false, items);
            assert(out == seq![items[0]] + tail);
            assert(out =~= items.take(out.len() as int));
            assert forall|i: int| 0 <= i < out.len() - 1 implies !(#[trigger] out[i]).is_err by {
                if i > 0 {
                    assert(out[i] == tail[i - 1]);
                }
            }
        } else {
            assert(delivered_until_error(true, rest) =~= Seq::<MsgView>::empty());
            let out = delivered_until_error(false, items);
            assert(out =~= seq![items[0]]);
            assert(out =~= items.take(1));
        }
    }
}

} // verus!
