//! JSON-RPC over any bidirectional stream of messages: the server's settings,
//! the messages it exchanges, and what it does on each event.

use std::time::Duration;
use vstd::prelude::*;

verus! {

/// What `Duration::from_secs` gives for a number of seconds.
pub uninterp spec fn duration_of_secs(secs: u64) -> Duration;

/// `Duration::from_secs`: the duration of `secs` whole seconds.
pub assume_specification[ Duration::from_secs ](secs: u64) -> (d: Duration)
    ensures
        d == duration_of_secs(secs),
;

/// Settings of a stream server.
#[derive(Clone, Copy)]
pub struct StreamServerConfig {
    channel_size: usize,
    pipeline_size: usize,
    keep_alive: bool,
    keep_alive_duration: Duration,
    ping_interval: Duration,
}

/// The settings, as values.
pub struct ConfigView {
    pub channel_size: usize,
    pub pipeline_size: usize,
    pub keep_alive: bool,
    pub keep_alive_duration: Duration,
    pub ping_interval: Duration,
}

impl View for StreamServerConfig {
    type V = ConfigView;

    closed spec fn view(&self) -> ConfigView {
        ConfigView {
            channel_size: self.channel_size,
            pipeline_size: self.pipeline_size,
            keep_alive: self.keep_alive,
            keep_alive_duration: self.keep_alive_duration,
            ping_interval: self.ping_interval,
        }
    }
}

impl Default for StreamServerConfig {
    /// The defaults: a channel of 8, no pipelining, keep-alive off, a
    /// keep-alive duration of 60 seconds and a ping interval of 19 seconds.
    fn default() -> (c: Self)
        ensures
            c@ == (ConfigView {
                channel_size: 8,
                pipeline_size: 1,
                keep_alive: false,
                keep_alive_duration: duration_of_secs(60),
                ping_interval: duration_of_secs(19),
            }),
    {
        Self {
            channel_size: 8,
            pipeline_size: 1,
            keep_alive: false,
            keep_alive_duration: Duration::from_secs(60),
            ping_interval: Duration::from_secs(19),
        }
    }
}

impl StreamServerConfig {
    /// Both the pub/sub channel and the request pipeline hold at least one
    /// message.
    #[verifier::type_invariant]
    closed spec fn sizes_positive(self) -> bool {
        self.channel_size > 0 && self.pipeline_size > 0
    }

    /// Set pub-sub channel buffer size.
    ///
    /// Default is 8. The size must be positive.
    pub fn with_channel_size(self, channel_size: usize) -> (c: Self)
        requires
            channel_size > 0,
        ensures
            c@ == (ConfigView { channel_size, ..self@ }),
    {
        proof {
            use_type_invariant(&self);
        }
        Self { channel_size, ..self }
    }

    /// Set maximum request pipelining.
    ///
    /// Up to `pipeline_size` number of requests will be handled concurrently.
    ///
    /// Default is 1, i.e. no pipelining. The size must be positive.
    pub fn with_pipeline_size(self, pipeline_size: usize) -> (c: Self)
        requires
            pipeline_size > 0,
        ensures
            c@ == (ConfigView { pipeline_size, ..self@ }),
    {
        proof {
            use_type_invariant(&self);
        }
        Self { pipeline_size, ..self }
    }

    /// Set whether keep alive is enabled.
    ///
    /// Default is false.
    pub fn with_keep_alive(self, keep_alive: bool) -> (c: Self)
        ensures
            c@ == (ConfigView { keep_alive, ..self@ }),
    {
        proof {
            use_type_invariant(&self);
        }
        Self { keep_alive, ..self }
    }

    /// Wait for `keep_alive_duration` after the last message is received, then
    /// close the connection.
    ///
    /// Default is 60 seconds.
    pub fn with_keep_alive_duration(self, keep_alive_duration: Duration) -> (c: Self)
        ensures
            c@ == (ConfigView { keep_alive_duration, ..self@ }),
    {
        proof {
            use_type_invariant(&self);
        }
        Self { keep_alive_duration, ..self }
    }

    /// Set interval to send ping messages.
    ///
    /// Default is 19 seconds.
    pub fn with_ping_interval(self, ping_interval: Duration) -> (c: Self)
        ensures
            c@ == (ConfigView { ping_interval, ..self@ }),
    {
        proof {
            use_type_invariant(&self);
        }
        Self { ping_interval, ..self }
    }

    /// The pub-sub channel buffer size.
    pub fn channel_size(&self) -> (r: usize)
        ensures
            r == self@.channel_size,
            r > 0,
    {
        proof {
            use_type_invariant(self);
        }
        self.channel_size
    }

    /// The maximum number of requests handled concurrently.
    pub fn pipeline_size(&self) -> (r: usize)
        ensures
            r == self@.pipeline_size,
            r > 0,
    {
        proof {
            use_type_invariant(self);
        }
        self.pipeline_size
    }

    /// Whether keep alive is enabled.
    pub fn keep_alive(&self) -> (r: bool)
        ensures
            r == self@.keep_alive,
    {
        self.keep_alive
    }

    /// How long to wait after the last message before closing.
    pub fn keep_alive_duration(&self) -> (r: Duration)
        ensures
            r == self@.keep_alive_duration,
    {
        self.keep_alive_duration
    }

    /// The interval between ping messages.
    pub fn ping_interval(&self) -> (r: Duration)
        ensures
            r == self@.ping_interval,
    {
        self.ping_interval
    }
}

/// Request/response message for streaming JSON-RPC servers.
///
/// S should be some string-like type. For TCP it's `String`, for WebSocket
/// it's `Utf8Bytes`.
#[derive(Debug, PartialEq, Eq)]
pub enum StreamMsg<S> {
    Str(S),
    Ping,
    Pong,
}

/// What to do with one incoming message.
pub enum Inbound<S> {
    /// Hand the text to the JSON-RPC handler; its response, if any, is sent
    /// back as a `Str` message.
    Request(S),
    /// Answer at once with this message, or with nothing.
    Answer(Option<StreamMsg<S>>),
}

/// The answer to an incoming message: requests go to the handler, a ping is
/// answered with a pong, and a pong needs no answer.
pub fn inbound<S>(msg: StreamMsg<S>) -> (r: Inbound<S>)
    ensures
        msg matches StreamMsg::Str(s) ==> r == Inbound::Request(s),
        msg is Ping ==> r == Inbound::Answer(Some(StreamMsg::<S>::Pong)),
        msg is Pong ==> r == Inbound::<S>::Answer(None),
{
    match msg {
        StreamMsg::Str(s) => Inbound::Request(s),
        StreamMsg::Ping => Inbound::Answer(Some(StreamMsg::Pong)),
        StreamMsg::Pong => Inbound::Answer(None),
    }
}

/// Something that happened while serving a stream.
pub enum ServerEvent<S, E> {
    /// A message was received from the peer, or the incoming stream reported
    /// an error.
    Received(Result<StreamMsg<S>, E>),
    /// The handler finished a request: its response text, if any.
    Handled(Option<S>),
    /// The incoming stream ended.
    InboundEnded,
    /// A subscription produced a notification.
    Notification(S),
    /// The ping interval elapsed.
    PingDue,
    /// Nothing was received from the peer for the keep-alive duration.
    KeepAliveExpired,
    /// The shutdown signal fired.
    Shutdown,
}

/// What the server does next.
pub enum ServerStep<S, E> {
    /// Send this message, if any; start handling this request, if any; and
    /// restart the keep-alive timer if asked.
    Continue { send: Option<StreamMsg<S>>, handle: Option<S>, reset_keep_alive: bool },
    /// Send this message, if any, then stop serving.
    Stop { send: Option<StreamMsg<S>> },
    /// Stop serving with this error.
    Fail(E),
}

/// The message that carries a handler's response, if any.
pub open spec fn response_msg<S>(response: Option<S>) -> Option<StreamMsg<S>> {
    match response {
        Some(text) => Some(StreamMsg::Str(text)),
        None => None,
    }
}

/// Where a server stands: how many requests are being handled, and whether
/// the incoming stream has ended.
pub struct ServerState {
    pub in_flight: usize,
    pub inbound_ended: bool,
}

impl ServerState {
    /// A server that has received nothing yet.
    pub fn new() -> (s: Self)
        ensures
            s.in_flight == 0,
            !s.inbound_ended,
    {
        ServerState { in_flight: 0, inbound_ended: false }
    }
}

/// Whether the server takes the next incoming message: the incoming stream
/// has not ended and fewer requests than the pipeline size are being
/// handled.
pub open spec fn receives(pipeline_size: usize, state: ServerState) -> bool {
    !state.inbound_ended && state.in_flight < pipeline_size
}

/// Whether the server takes the next incoming message under the given
/// settings.
pub fn can_receive(config: &StreamServerConfig, state: &ServerState) -> (r: bool)
    ensures
        r == receives(config@.pipeline_size, *state),
{
    !state.inbound_ended && state.in_flight < config.pipeline_size()
}

/// The server's state after an event: a received request is being handled
/// until the handler finishes it, and the end of the incoming stream is
/// remembered.
pub open spec fn next_state<S, E>(state: ServerState, event: ServerEvent<S, E>) -> ServerState {
    match event {
        ServerEvent::Received(Ok(StreamMsg::Str(_))) => ServerState {
            in_flight: if state.in_flight < usize::MAX { (state.in_flight + 1) as usize } else { state.in_flight },
            ..state
        },
        ServerEvent::Handled(_) => ServerState {
            in_flight: if state.in_flight > 0 { (state.in_flight - 1) as usize } else { 0 },
            ..state
        },
        ServerEvent::InboundEnded => ServerState { inbound_ended: true, ..state },
        _ => state,
    }
}

/// The server's decision on an event. Everything received from the peer
/// (requests, pings and pongs alike) restarts the keep-alive timer when
/// keep-alive is on; a request goes to the handler, a ping is answered with
/// a pong, and a pong needs no answer. A handler's response is sent. Pings
/// are sent, and idleness ends the connection, only when keep-alive is on.
/// The server stops at the shutdown signal, at an incoming error, and once
/// the incoming stream has ended and every request received has been
/// answered.
pub open spec fn next_step<S, E>(keep_alive: bool, state: ServerState, event: ServerEvent<S, E>) -> ServerStep<S, E> {
    match event {
        ServerEvent::Received(Err(e)) => ServerStep::Fail(e),
        ServerEvent::Received(Ok(msg)) => match msg {
            StreamMsg::Str(s) => ServerStep::Continue { send: None, handle: Some(s), reset_keep_alive: keep_alive },
            StreamMsg::Ping => ServerStep::Continue {
                send: Some(StreamMsg::Pong),
                handle: None,
                reset_keep_alive: keep_alive,
            },
            StreamMsg::Pong => ServerStep::Continue { send: None, handle: None, reset_keep_alive: keep_alive },
        },
        ServerEvent::Handled(response) => if state.inbound_ended && state.in_flight <= 1 {
            ServerStep::Stop { send: response_msg(response) }
        } else {
            ServerStep::Continue { send: response_msg(response), handle: None, reset_keep_alive: false }
        },
        ServerEvent::InboundEnded => if state.in_flight == 0 {
            ServerStep::Stop { send: None }
        } else {
            ServerStep::Continue { send: None, handle: None, reset_keep_alive: false }
        },
        ServerEvent::Notification(s) => ServerStep::Continue {
            send: Some(StreamMsg::Str(s)),
            handle: None,
            reset_keep_alive: false,
        },
        ServerEvent::PingDue => ServerStep::Continue {
            send: if keep_alive { Some(StreamMsg::Ping) } else { None },
            handle: None,
            reset_keep_alive: false,
        },
        ServerEvent::KeepAliveExpired => if keep_alive {
            ServerStep::Stop { send: None }
        } else {
            ServerStep::Continue { send: None, handle: None, reset_keep_alive: false }
        },
        ServerEvent::Shutdown => ServerStep::Stop { send: None },
    }
}

/// The server's decision on an event under the given settings, and its new
/// state.
pub fn on_event<S, E>(config: &StreamServerConfig, state: &mut ServerState, event: ServerEvent<S, E>) -> (step: ServerStep<S, E>)
    ensures
        step == next_step(config@.keep_alive, *old(state), event),
        *final(state) == next_state(*old(state), event),
{
    let keep_alive = config.keep_alive();
    match event {
        ServerEvent::Received(Err(e)) => ServerStep::Fail(e),
        ServerEvent::Received(Ok(msg)) => match inbound(msg) {
            Inbound::Request(s) => {
                if state.in_flight < usize::MAX {
                    state.in_flight = state.in_flight + 1;
                }
                ServerStep::Continue { send: None, handle: Some(s), reset_keep_alive: keep_alive }
            },
            Inbound::Answer(answer) => ServerStep::Continue { send: answer, handle: None, reset_keep_alive: keep_alive },
        },
        ServerEvent::Handled(response) => {
            let last = state.inbound_ended && state.in_flight <= 1;
            if state.in_flight > 0 {
                state.in_flight = state.in_flight - 1;
            }
            let send = match response {
                Some(text) => Some(StreamMsg::Str(text)),
                None => None,
            };
            if last {
                ServerStep::Stop { send }
            } else {
                ServerStep::Continue { send, handle: None, reset_keep_alive: false }
            }
        },
        ServerEvent::InboundEnded => {
            state.inbound_ended = true;
            if state.in_flight == 0 {
                ServerStep::Stop { send: None }
            } else {
                ServerStep::Continue { send: None, handle: None, reset_keep_alive: false }
            }
        },
        ServerEvent::Notification(s) => ServerStep::Continue {
            send: Some(StreamMsg::Str(s)),
            handle: None,
            reset_keep_alive: false,
        },
        ServerEvent::PingDue => {
            if keep_alive {
                ServerStep::Continue { send: Some(StreamMsg::Ping), handle: None, reset_keep_alive: false }
            } else {
                ServerStep::Continue { send: None, handle: None, reset_keep_alive: false }
            }
        },
        ServerEvent::KeepAliveExpired => {
            if keep_alive {
                ServerStep::Stop { send: None }
            } else {
                ServerStep::Continue { send: None, handle: None, reset_keep_alive: false }
            }
        },
        ServerEvent::Shutdown => ServerStep::Stop { send: None },
    }
}

/// The keep-alive timer restarts exactly when something is received from
/// the peer, requests, pings and pongs alike, and only when keep-alive is
/// on; how long a request takes to handle does not matter.
pub proof fn lemma_keep_alive_reset<S, E>(keep_alive: bool, state: ServerState, event: ServerEvent<S, E>)
    ensures
        (next_step(keep_alive, state, event) matches ServerStep::Continue { reset_keep_alive: true, .. })
            <==> keep_alive && event matches ServerEvent::Received(Ok(_)),
{
}

/// A ping from the peer is always answered with a pong, whether keep-alive
/// is on or not and whatever the server is handling; nothing is handed to
/// the handler for it, and the timer restarts exactly when keep-alive is on.
pub proof fn lemma_ping_answered<S, E>(keep_alive: bool, state: ServerState)
    ensures
        next_step::<S, E>(keep_alive, state, ServerEvent::Received(Ok(StreamMsg::Ping))) == (ServerStep::<S, E>::Continue {
            send: Some(StreamMsg::Pong),
            handle: None,
            reset_keep_alive: keep_alive,
        }),
        next_state::<S, E>(state, ServerEvent::Received(Ok(StreamMsg::Ping))) == state,
{
}

/// Without keep-alive the server never sends a ping of its own and never
/// closes a connection for idleness.
pub proof fn lemma_no_keep_alive<S, E>(state: ServerState, event: ServerEvent<S, E>)
    ensures
        !(next_step(false, state, event) matches ServerStep::Continue { send: Some(StreamMsg::Ping), .. }),
        event is KeepAliveExpired ==> !(next_step(false, state, event) is Stop),
{
}

/// The end of the incoming stream stops the server only once every request
/// received has been answered; the last answer is sent before stopping.
pub proof fn lemma_answers_before_end<S, E>(keep_alive: bool, state: ServerState, response: Option<S>)
    ensures
        next_step::<S, E>(keep_alive, state, ServerEvent::InboundEnded) is Stop <==> state.in_flight == 0,
        state.inbound_ended && state.in_flight == 1 ==> next_step::<S, E>(keep_alive, state, ServerEvent::Handled(response))
            == (ServerStep::<S, E>::Stop { send: response_msg(response) }),
{
}

/// No more requests are handled at once than the pipeline size, as long as
/// messages are taken only when `receives` allows.
pub proof fn lemma_pipeline_bound<S, E>(pipeline_size: usize, state: ServerState, event: ServerEvent<S, E>)
    requires
        state.in_flight <= pipeline_size,
        event is Received ==> receives(pipeline_size, state),
    ensures
        next_state(state, event).in_flight <= pipeline_size,
{
}

} // verus!
