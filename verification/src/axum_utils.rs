//! What the HTTP handler answers to a POSTed JSON-RPC request, and how
//! WebSocket frames and stream messages correspond.

use vstd::prelude::*;
use vstd::utf8::{decode_utf8, valid_utf8};

use crate::stream::StreamMsg;

verus! {

/// The kind of HTTP answer to a request body.
#[derive(Debug, PartialEq, Eq)]
pub enum HttpReply {
    /// The body is not UTF-8: a JSON-RPC parse error is returned.
    ParseError,
    /// The handler's response, sent as `application/json`.
    Json(String),
    /// The request held only notifications: 204 No Content.
    NoContent,
}

/// `std::str::from_utf8(..).ok()`: the text of the bytes where they are valid
/// UTF-8.
#[verifier::external_body]
fn utf8_text(bytes: &[u8]) -> (r: Option<&str>)
    ensures
        r is Some <==> valid_utf8(bytes@),
        r matches Some(s) ==> s@ == decode_utf8(bytes@),
{
    std::str::from_utf8(bytes).ok()
}

/// The request text of a body, or the parse-error answer where the body is
/// not UTF-8.
pub fn request_text(body: &[u8]) -> (r: Result<&str, HttpReply>)
    ensures
        valid_utf8(body@) ==> (r matches Ok(s) && s@ == decode_utf8(body@)),
        !valid_utf8(body@) ==> r == Err::<&str, HttpReply>(HttpReply::ParseError),
{
    match utf8_text(body) {
        Some(s) => Ok(s),
        None => Err(HttpReply::ParseError),
    }
}

/// The answer for what the JSON-RPC handler returned: its response, or no
/// content where there is none.
pub fn http_reply(response: Option<String>) -> (r: HttpReply)
    ensures
        response matches Some(s) ==> r == HttpReply::Json(s),
        response is None ==> r == HttpReply::NoContent,
{
    match response {
        Some(s) => HttpReply::Json(s),
        None => HttpReply::NoContent,
    }
}

/// A WebSocket frame, by kind, with the text of a text frame.
pub enum WsFrame<S> {
    Text(S),
    Binary,
    Ping,
    Pong,
    Close,
}

/// The stream message for a received frame: text frames carry requests and
/// pongs are passed on; other frames (binary, ping, close) are not handed to
/// the server.
pub fn incoming_frame<S>(frame: WsFrame<S>) -> (msg: Option<StreamMsg<S>>)
    ensures
        frame matches WsFrame::Text(s) ==> msg == Some(StreamMsg::Str(s)),
        frame is Pong ==> msg == Some(StreamMsg::<S>::Pong),
        frame is Binary || frame is Ping || frame is Close ==> msg is None,
{
    match frame {
        WsFrame::Text(s) => Some(StreamMsg::Str(s)),
        WsFrame::Pong => Some(StreamMsg::Pong),
        WsFrame::Binary => None,
        WsFrame::Ping => None,
        WsFrame::Close => None,
    }
}

/// A WebSocket frame to send.
pub enum OutFrame<S> {
    Text(S),
    Ping(Vec<u8>),
    Pong(Vec<u8>),
}

/// The frame that carries a stream message: text as a text frame, a ping
/// with the payload `ping`, and a pong with an empty payload.
pub fn outgoing_frame<S>(msg: StreamMsg<S>) -> (frame: OutFrame<S>)
    ensures
        msg matches StreamMsg::Str(s) ==> frame == OutFrame::Text(s),
        msg is Ping ==> (frame matches OutFrame::Ping(p) && p@ == seq![112u8, 105u8, 110u8, 103u8]),
        msg is Pong ==> (frame matches OutFrame::Pong(p) && p@.len() == 0),
{
    match msg {
        StreamMsg::Str(s) => OutFrame::Text(s),
        StreamMsg::Ping => OutFrame::Ping(vec![112u8, 105u8, 110u8, 103u8]),
        StreamMsg::Pong => OutFrame::Pong(Vec::new()),
    }
}

} // verus!
