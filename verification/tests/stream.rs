use std::time::Duration;

use jsonrpc_utils::stream::{can_receive, inbound, on_event, Inbound, ServerEvent, ServerState, ServerStep, StreamMsg, StreamServerConfig};

/// Serves a finite incoming stream whose requests are answered by `handler`
/// right after each event, the way the transport loop drives the server.
fn serve(
    config: &StreamServerConfig,
    incoming: Vec<Result<StreamMsg<String>, ()>>,
    handler: impl Fn(&str) -> Option<String>,
) -> (Result<(), ()>, Vec<StreamMsg<String>>) {
    let mut state = ServerState::new();
    let mut sink = Vec::new();
    let mut incoming = incoming.into_iter();
    let mut pending: Vec<Option<String>> = Vec::new();
    loop {
        let event = if let Some(response) = pending.pop() {
            ServerEvent::Handled(response)
        } else if can_receive(config, &state) {
            match incoming.next() {
                Some(m) => ServerEvent::Received(m),
                None => ServerEvent::InboundEnded,
            }
        } else {
            panic!("nothing left to do");
        };
        match on_event(config, &mut state, event) {
            ServerStep::Continue { send, handle, .. } => {
                if let Some(request) = handle {
                    pending.push(handler(&request));
                }
                if let Some(s) = send {
                    sink.push(s);
                }
            }
            ServerStep::Stop { send } => {
                if let Some(s) = send {
                    sink.push(s);
                }
                return (Ok(()), sink);
            }
            ServerStep::Fail(e) => return (Err(e), sink),
        }
    }
}

#[test]
fn test_ping_pong() {
    let config = StreamServerConfig::default();
    let (result, sink) = serve(&config, vec![Ok(StreamMsg::Ping)], |_| None);
    assert!(result.is_ok());
    assert_eq!(sink, [StreamMsg::Pong]);
}

#[test]
fn requests_are_answered_before_the_end() {
    let config = StreamServerConfig::default();
    let (result, sink) = serve(
        &config,
        vec![Ok(StreamMsg::Str("a".to_string())), Ok(StreamMsg::Pong), Ok(StreamMsg::Str("b".to_string()))],
        |r| if r == "b" { None } else { Some(format!("re:{}", r)) },
    );
    assert!(result.is_ok());
    assert_eq!(sink, [StreamMsg::Str("re:a".to_string())]);
    let (result, _) = serve(&config, vec![Ok(StreamMsg::Ping), Err(())], |_| None);
    assert_eq!(result, Err(()));
}

#[test]
fn in_flight_requests_and_end_of_input() {
    let config = StreamServerConfig::default().with_pipeline_size(2);
    let mut state = ServerState::new();
    assert!(can_receive(&config, &state));
    let step = on_event::<String, ()>(&config, &mut state, ServerEvent::Received(Ok(StreamMsg::Str("x".to_string()))));
    assert!(matches!(step, ServerStep::Continue { send: None, handle: Some(ref r), reset_keep_alive: false } if r == "x"));
    assert_eq!(state.in_flight, 1);
    assert!(can_receive(&config, &state));
    on_event::<String, ()>(&config, &mut state, ServerEvent::Received(Ok(StreamMsg::Str("y".to_string()))));
    assert!(!can_receive(&config, &state));
    assert!(matches!(
        on_event::<String, ()>(&config, &mut state, ServerEvent::InboundEnded),
        ServerStep::Continue { send: None, handle: None, .. }
    ));
    assert!(matches!(
        on_event::<String, ()>(&config, &mut state, ServerEvent::Handled(Some("1".to_string()))),
        ServerStep::Continue { send: Some(StreamMsg::Str(ref s)), .. } if s == "1"
    ));
    assert!(matches!(
        on_event::<String, ()>(&config, &mut state, ServerEvent::Handled(None)),
        ServerStep::Stop { send: None }
    ));
    assert_eq!(state.in_flight, 0);
}

#[test]
fn inbound_messages() {
    assert!(matches!(inbound(StreamMsg::Str("x".to_string())), Inbound::Request(s) if s == "x"));
    assert!(matches!(inbound::<String>(StreamMsg::Ping), Inbound::Answer(Some(StreamMsg::Pong))));
    assert!(matches!(inbound::<String>(StreamMsg::Pong), Inbound::Answer(None)));
}

#[test]
fn default_config() {
    let c = StreamServerConfig::default();
    assert_eq!(c.channel_size(), 8);
    assert_eq!(c.pipeline_size(), 1);
    assert!(!c.keep_alive());
    assert_eq!(c.keep_alive_duration(), Duration::from_secs(60));
    assert_eq!(c.ping_interval(), Duration::from_secs(19));
}

#[test]
fn config_builders() {
    let c = StreamServerConfig::default()
        .with_channel_size(3)
        .with_pipeline_size(4)
        .with_keep_alive(true)
        .with_keep_alive_duration(Duration::from_millis(1500))
        .with_ping_interval(Duration::from_secs(2));
    assert_eq!(c.channel_size(), 3);
    assert_eq!(c.pipeline_size(), 4);
    assert!(c.keep_alive());
    assert_eq!(c.keep_alive_duration(), Duration::from_millis(1500));
    assert_eq!(c.ping_interval(), Duration::from_secs(2));
}

#[test]
fn keep_alive_decisions() {
    let on = StreamServerConfig::default().with_keep_alive(true);
    let off = StreamServerConfig::default();
    let mut state = ServerState::new();
    assert!(matches!(
        on_event::<String, ()>(&on, &mut state, ServerEvent::PingDue),
        ServerStep::Continue { send: Some(StreamMsg::Ping), reset_keep_alive: false, .. }
    ));
    assert!(matches!(
        on_event::<String, ()>(&off, &mut state, ServerEvent::PingDue),
        ServerStep::Continue { send: None, reset_keep_alive: false, .. }
    ));
    assert!(matches!(on_event::<String, ()>(&on, &mut state, ServerEvent::KeepAliveExpired), ServerStep::Stop { send: None }));
    assert!(matches!(
        on_event::<String, ()>(&off, &mut state, ServerEvent::KeepAliveExpired),
        ServerStep::Continue { send: None, .. }
    ));
    // Receiving anything restarts the timer; a finished request does not.
    assert!(matches!(
        on_event::<String, ()>(&on, &mut state, ServerEvent::Received(Ok(StreamMsg::Pong))),
        ServerStep::Continue { send: None, handle: None, reset_keep_alive: true }
    ));
    assert!(matches!(
        on_event::<String, ()>(&on, &mut state, ServerEvent::Received(Ok(StreamMsg::Str("r".to_string())))),
        ServerStep::Continue { reset_keep_alive: true, .. }
    ));
    assert!(matches!(
        on_event::<String, ()>(&on, &mut state, ServerEvent::Handled(None)),
        ServerStep::Continue { reset_keep_alive: false, .. }
    ));
    assert!(matches!(
        on_event::<String, ()>(&off, &mut state, ServerEvent::Received(Ok(StreamMsg::Ping))),
        ServerStep::Continue { send: Some(StreamMsg::Pong), reset_keep_alive: false, .. }
    ));
}

#[test]
fn notifications_errors_and_stops() {
    let c = StreamServerConfig::default();
    let mut state = ServerState::new();
    match on_event::<String, ()>(&c, &mut state, ServerEvent::Notification("data".to_string())) {
        ServerStep::Continue { send: Some(StreamMsg::Str(s)), reset_keep_alive: false, .. } => assert_eq!(s, "data"),
        _ => panic!("expected the notification to be sent"),
    }
    assert!(matches!(on_event::<String, u8>(&c, &mut state, ServerEvent::Received(Err(7))), ServerStep::Fail(7)));
    assert!(matches!(on_event::<String, ()>(&c, &mut state, ServerEvent::Shutdown), ServerStep::Stop { send: None }));
    assert!(matches!(on_event::<String, ()>(&c, &mut state, ServerEvent::InboundEnded), ServerStep::Stop { send: None }));
}
