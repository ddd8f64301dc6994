use jsonrpc_utils::axum_utils::{incoming_frame, outgoing_frame, OutFrame, WsFrame};
use jsonrpc_utils::stream::StreamMsg;
use jsonrpc_utils::axum_utils::{http_reply, request_text, HttpReply};
use jsonrpc_utils::client::{decode_response, RpcCallError};

#[test]
fn request_bodies() {
    assert_eq!(request_text(b"{\"a\":1}"), Ok("{\"a\":1}"));
    assert_eq!(request_text(&[0xff, 0xfe]), Err(HttpReply::ParseError));
    assert_eq!(http_reply(Some("x".to_string())), HttpReply::Json("x".to_string()));
    assert_eq!(http_reply(None), HttpReply::NoContent);
}

#[test]
fn client_responses() {
    let ok = decode_response(br#"{"jsonrpc":"2.0","result":"pong","id":0}"#);
    assert_eq!(ok.ok().unwrap(), serde_json::Value::String("pong".to_string()));
    match decode_response(br#"{"jsonrpc":"2.0","error":{"code":-32601,"message":"Method not found"},"id":0}"#) {
        Err(RpcCallError::Rpc(e)) => assert_eq!(e, jsonrpc_core::Error::method_not_found()),
        _ => panic!("expected an error object"),
    }
    assert!(matches!(
        decode_response(br#"[{"jsonrpc":"2.0","result":1,"id":0}]"#),
        Err(RpcCallError::UnexpectedBatch)
    ));
    assert!(matches!(decode_response(b"not json"), Err(RpcCallError::Json(_))));
}

#[test]
fn websocket_frames() {
    assert_eq!(incoming_frame(WsFrame::Text("r".to_string())), Some(StreamMsg::Str("r".to_string())));
    assert_eq!(incoming_frame::<String>(WsFrame::Pong), Some(StreamMsg::Pong));
    assert_eq!(incoming_frame::<String>(WsFrame::Ping), None);
    assert_eq!(incoming_frame::<String>(WsFrame::Binary), None);
    assert_eq!(incoming_frame::<String>(WsFrame::Close), None);
    assert!(matches!(outgoing_frame(StreamMsg::Str("t".to_string())), OutFrame::Text(s) if s == "t"));
    assert!(matches!(outgoing_frame::<String>(StreamMsg::Ping), OutFrame::Ping(p) if p == b"ping"));
    assert!(matches!(outgoing_frame::<String>(StreamMsg::Pong), OutFrame::Pong(p) if p.is_empty()));
}
