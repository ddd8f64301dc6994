use jsonrpc_utils::pub_sub::{
    format_msg, generate_id, terminate_after_one_error, PublishMsg,
};
use jsonrpc_utils::id::format_id;
use jsonrpc_utils::pubsub;
use jsonrpc_utils::subscriptions::{unsubscribe, Subscriptions};

#[test]
fn pub_sub_test_id() {
    let id = generate_id();
    assert!(std::str::from_utf8(id.as_bytes()).is_ok());
}

#[test]
fn pubsub_test_id() {
    let id = pubsub::generate_id();
    assert!(std::str::from_utf8(id.as_bytes()).is_ok());
}

#[test]
fn generated_ids_have_the_id_shape() {
    let id = generate_id();
    assert_eq!(id.len(), 34);
    assert!(id.starts_with("0x"));
    assert!(id[2..].chars().all(|c| c.is_ascii_digit() || ('a'..='f').contains(&c)));
    assert_ne!(generate_id(), generate_id());
}

#[test]
fn format_id_is_prefixed_lower_hex() {
    let bytes: Vec<u8> = vec![0x00, 0x01, 0xab, 0xff, 0x10, 0x9c, 0x7e, 0x80, 0, 0, 0, 0, 0, 0, 0, 0x42];
    assert_eq!(format_id(&bytes), "0x0001abff109c7e800000000000000042");
    assert_eq!(format_id(&[]), "0x");
}

#[test]
fn test_terminate_after_one_error() {
    let inner = vec![
        PublishMsg::<u64>::result_raw_json(""),
        PublishMsg::error_raw_json(""),
        PublishMsg::result_raw_json(""),
    ];
    let mut state = terminate_after_one_error();
    let mut inner = inner.into_iter();
    let mut count = 0;
    while state.should_poll() {
        match state.on_item(inner.next()) {
            Some(_) => count += 1,
            None => break,
        }
    }
    assert_eq!(count, 2);
}

#[test]
fn stream_without_errors_is_passed_on_whole() {
    let inner = vec![
        PublishMsg::<u64>::result_raw_json("1"),
        PublishMsg::result_raw_json("2"),
    ];
    let mut state = terminate_after_one_error();
    let mut inner = inner.into_iter();
    let mut out = Vec::new();
    while state.should_poll() {
        match state.on_item(inner.next()) {
            Some(m) => out.push(m.json().to_string()),
            None => break,
        }
    }
    assert_eq!(out, vec!["1".to_string(), "2".to_string()]);
}

#[test]
fn format_result_and_error_notifications() {
    let msg = PublishMsg::<u64>::result_raw_json("1");
    assert_eq!(
        format_msg("0xab", "notify", msg),
        r#"{"jsonrpc":"2.0","method":"notify","params":{"subscription":"0xab","result":1}}"#
    );
    let msg = PublishMsg::<u64>::error_raw_json(r#"{"code":1}"#);
    assert_eq!(
        format_msg("0xab", "notify", msg),
        r#"{"jsonrpc":"2.0","method":"notify","params":{"subscription":"0xab","error":{"code":1}}}"#
    );
}

#[test]
fn result_from_serialization() {
    let msg = PublishMsg::<u64>::result_serialized(serde_json::to_string(&1u64));
    assert!(!msg.is_err());
    assert_eq!(msg.json(), "1");
    let bad = serde_json::from_str::<serde_json::Value>("{").unwrap_err();
    let msg = PublishMsg::<u64>::result_serialized(Err(bad));
    assert!(msg.is_err());
    assert_eq!(msg.json(), r#"{"code":-32603,"message":""}"#);
}

#[test]
fn error_message_holds_the_error_object() {
    let msg = PublishMsg::<u64>::error(&jsonrpc_core::Error::method_not_found());
    assert!(msg.is_err());
    assert_eq!(msg.json(), r#"{"code":-32601,"message":"Method not found"}"#);
    let cloned = msg.clone();
    assert_eq!(cloned.json(), msg.json());
}

#[test]
fn older_messages_report_serialization() {
    let msg = pubsub::PublishMsg::result_serialized(serde_json::to_string(&[1, 2])).unwrap();
    assert_eq!(
        pubsub::format_msg("0x1", "n", msg),
        r#"{"jsonrpc":"2.0","method":"n","params":{"subscription":"0x1","result":[1,2]}}"#
    );
    let bad = serde_json::from_str::<serde_json::Value>("[").unwrap_err();
    assert!(pubsub::PublishMsg::result_serialized(Err(bad)).is_err());
    let err = pubsub::PublishMsg::error(&jsonrpc_core::Error::invalid_params("x")).unwrap();
    assert!(err.is_err());
    assert_eq!(err.json(), r#"{"code":-32602,"message":"x"}"#);
    let raw = pubsub::PublishMsg::error_raw_json("null");
    assert_eq!(
        pubsub::format_msg("0x1", "n", raw.clone()),
        r#"{"jsonrpc":"2.0","method":"n","params":{"subscription":"0x1","error":null}}"#
    );
    assert_eq!(pubsub::PublishMsg::result_raw_json("true").json(), "true");
}

fn subscribe_and_cancel() {
    let mut subscriptions: Subscriptions<&'static str> = Subscriptions::new();
    let id = generate_id();
    assert_eq!(subscriptions.insert(1, id.clone(), "task"), None);

    // Unsubscribe with a different session should fail.
    assert_eq!(unsubscribe(&mut subscriptions, Some(2), &id), None);
    // Unsubscribe without a session fails.
    assert_eq!(unsubscribe(&mut subscriptions, None, &id), None);
    // Unsubscribe from the subscribing session should succeed, once.
    assert_eq!(unsubscribe(&mut subscriptions, Some(1), &id), Some("task"));
    assert_eq!(unsubscribe(&mut subscriptions, Some(1), &id), None);
}

#[test]
fn only_the_subscribing_session_cancels_once() {
    subscribe_and_cancel();
}

#[test]
fn insert_replaces_and_remove_keeps_others() {
    let mut subscriptions: Subscriptions<u32> = Subscriptions::new();
    assert_eq!(subscriptions.insert(1, "a".to_string(), 10), None);
    assert_eq!(subscriptions.insert(1, "b".to_string(), 11), None);
    assert_eq!(subscriptions.insert(2, "a".to_string(), 12), None);
    assert_eq!(subscriptions.insert(1, "a".to_string(), 13), Some(10));
    assert_eq!(subscriptions.remove(1, "b"), Some(11));
    assert_eq!(subscriptions.remove(1, "b"), None);
    assert_eq!(subscriptions.remove(2, "a"), Some(12));
    assert_eq!(subscriptions.remove(1, "a"), Some(13));
}
