//! How the host binds its endpoint, accepts connections, and takes streams off
//! a connection.

use crate::protocol::ALLEYCAT_ALPN;
use vstd::prelude::*;

verus! {

/// What the host's endpoint is bound with.
#[derive(Debug, Clone, PartialEq, Eq)]
pub struct EndpointSettings {
    /// How long a connection may be idle before it is torn down, in seconds.
    pub idle_timeout_secs: u64,
    /// The protocols that are accepted.
    pub alpns: Vec<Vec<u8>>,
    /// How long to wait for relay connectivity before it is reported missing,
    /// in seconds.
    pub online_timeout_secs: u64,
}

/// The settings of every host. Idle agent tunnels are kept for ten minutes, so
/// that they outlast the quiet between two requests of a client.
pub fn endpoint_settings() -> (settings: EndpointSettings)
    ensures
        settings.idle_timeout_secs == 600,
        settings.alpns@.len() == 1,
        settings.alpns@[0]@ == ALLEYCAT_ALPN@,
        settings.online_timeout_secs == 8,
{
    let mut alpn: Vec<u8> = Vec::new();
    let bytes: [u8; 10] = ALLEYCAT_ALPN;
    for i in 0..bytes.len()
        invariant
            alpn@ == bytes@.take(i as int),
    {
        alpn.push(bytes[i]);
    }
    let mut alpns: Vec<Vec<u8>> = Vec::new();
    alpns.push(alpn);
    EndpointSettings { idle_timeout_secs: 600, alpns, online_timeout_secs: 8 }
}

/// What the accept loop was woken by.
#[derive(Debug, Clone, Copy, PartialEq, Eq, Structural)]
pub enum AcceptEvent {
    /// The host is shutting down.
    Shutdown,
    /// A connection comes in.
    Incoming,
    /// The endpoint yields no more connections.
    Exhausted,
}

/// What the accept loop does next.
#[derive(Debug, Clone, Copy, PartialEq, Eq, Structural)]
pub enum AcceptAction {
    /// Close the endpoint and leave the loop.
    CloseEndpoint,
    /// Hand the connection to a task of its own and go on accepting.
    TakeConnection,
    /// Leave the loop.
    Leave,
}

/// What the accept loop answers an event with.
pub open spec fn accept_action(event: AcceptEvent) -> AcceptAction {
    match event {
        AcceptEvent::Shutdown => AcceptAction::CloseEndpoint,
        AcceptEvent::Incoming => AcceptAction::TakeConnection,
        AcceptEvent::Exhausted => AcceptAction::Leave,
    }
}

/// Decides what the accept loop does next.
pub fn on_accept(event: AcceptEvent) -> (action: AcceptAction)
    ensures
        action == accept_action(event),
{
    match event {
        AcceptEvent::Shutdown => AcceptAction::CloseEndpoint,
        AcceptEvent::Incoming => AcceptAction::TakeConnection,
        AcceptEvent::Exhausted => AcceptAction::Leave,
    }
}

/// How many connections the accept loop takes when it is woken by the events,
/// one after the other.
pub open spec fn connections_taken(events: Seq<AcceptEvent>) -> nat
    decreases events.len(),
{
    if events.len() > 0 && accept_action(events[0]) == AcceptAction::TakeConnection {
        1 + connections_taken(events.drop_first())
    } else {
        0
    }
}

/// The accept loop takes each connection that comes in before it is told to
/// shut down or the endpoint is exhausted, and none after.
pub proof fn law_accepts_until_stopped(
    before: Seq<AcceptEvent>,
    stop: AcceptEvent,
    after: Seq<AcceptEvent>,
)
    requires
        forall|i: int| 0 <= i < before.len() ==> before[i] == AcceptEvent::Incoming,
        stop != AcceptEvent::Incoming,
    ensures
        connections_taken(before + seq![stop] + after) == before.len(),
    decreases before.len(),
{
    let events = before + seq![stop] + after;
    if before.len() > 0 {
        assert(events.drop_first() == before.drop_first() + seq![stop] + after);
        law_accepts_until_stopped(before.drop_first(), stop, after);
    }
}

/// The endpoint is closed exactly on shutdown, and the loop goes on exactly
/// with a connection that comes in.
pub proof fn law_shutdown_closes_the_endpoint(event: AcceptEvent, action: AcceptAction)
    requires
        call_ensures(on_accept, (event,), action),
    ensures
        action == accept_action(event),
        action is CloseEndpoint <==> event is Shutdown,
        action is TakeConnection <==> event is Incoming,
        action is Leave <==> event is Exhausted,
{
}

/// An endpoint accepts the one protocol of this host, and an idle tunnel
/// outlasts the wait for a relay.
pub proof fn law_endpoints_speak_the_protocol(settings: EndpointSettings)
    requires
        call_ensures(endpoint_settings, (), settings),
    ensures
        settings.alpns@.len() == 1,
        settings.alpns@[0]@.len() == "alleycat/1"@.len(),
        forall|i: int|
            0 <= i < settings.alpns@[0]@.len() ==> #[trigger] settings.alpns@[0]@[i] as char
                == "alleycat/1"@[i],
        settings.idle_timeout_secs == 10 * 60,
        settings.online_timeout_secs == 8,
{
    reveal_strlit("alleycat/1");
}

/// Where a connection stands.
#[derive(Debug)]
pub enum Connection {
    /// The handshake is under way.
    Connecting,
    /// Streams may be opened. `node_id` is the cryptographic identity of the
    /// remote end.
    Open { node_id: String },
    /// The connection is over.
    Closed,
}

/// Mathematical content of a [`Connection`].
#[verifier::ext_equal]
pub enum ConnectionView {
    Connecting,
    Open { node_id: Seq<char> },
    Closed,
}

impl View for Connection {
    type V = ConnectionView;

    open spec fn view(&self) -> ConnectionView {
        match *self {
            Connection::Connecting => ConnectionView::Connecting,
            Connection::Open { node_id } => ConnectionView::Open { node_id: node_id@ },
            Connection::Closed => ConnectionView::Closed,
        }
    }
}

/// What happened on a connection.
#[derive(Debug)]
pub enum ConnectionEvent {
    /// The handshake succeeded.
    Connected { node_id: String },
    /// The handshake failed.
    ConnectFailed,
    /// The remote end opened a stream.
    StreamOpened,
    /// No more streams can be accepted.
    StreamsEnded,
}

/// Mathematical content of a [`ConnectionEvent`].
#[verifier::ext_equal]
pub enum ConnectionEventView {
    Connected { node_id: Seq<char> },
    ConnectFailed,
    StreamOpened,
    StreamsEnded,
}

impl View for ConnectionEvent {
    type V = ConnectionEventView;

    open spec fn view(&self) -> ConnectionEventView {
        match *self {
            ConnectionEvent::Connected { node_id } => ConnectionEventView::Connected {
                node_id: node_id@,
            },
            ConnectionEvent::ConnectFailed => ConnectionEventView::ConnectFailed,
            ConnectionEvent::StreamOpened => ConnectionEventView::StreamOpened,
            ConnectionEvent::StreamsEnded => ConnectionEventView::StreamsEnded,
        }
    }
}

/// What is to be done on a connection.
#[derive(Debug)]
pub enum ConnectionAction {
    /// Wait for the next stream.
    AcceptStream,
    /// Handle the stream in a task of its own, for the remote end `node_id`,
    /// and wait for the next one.
    HandleStream { node_id: String },
    /// Nothing more.
    Finish,
}

/// Mathematical content of a [`ConnectionAction`].
#[verifier::ext_equal]
pub enum ConnectionActionView {
    AcceptStream,
    HandleStream { node_id: Seq<char> },
    Finish,
}

impl View for ConnectionAction {
    type V = ConnectionActionView;

    open spec fn view(&self) -> ConnectionActionView {
        match *self {
            ConnectionAction::AcceptStream => ConnectionActionView::AcceptStream,
            ConnectionAction::HandleStream { node_id } => ConnectionActionView::HandleStream {
                node_id: node_id@,
            },
            ConnectionAction::Finish => ConnectionActionView::Finish,
        }
    }
}

impl ConnectionView {
    /// Whether `event` can happen on the connection as it stands.
    pub open spec fn awaits(self, event: ConnectionEventView) -> bool {
        match self {
            ConnectionView::Connecting => event is Connected || event is ConnectFailed,
            ConnectionView::Open { .. } => event is StreamOpened || event is StreamsEnded,
            ConnectionView::Closed => false,
        }
    }

    /// The connection after `event`, and what is to be done on it.
    pub open spec fn next(self, event: ConnectionEventView) -> (
        ConnectionView,
        ConnectionActionView,
    ) {
        match (self, event) {
            (ConnectionView::Connecting, ConnectionEventView::Connected { node_id }) => (
                ConnectionView::Open { node_id },
                ConnectionActionView::AcceptStream,
            ),
            (ConnectionView::Open { node_id }, ConnectionEventView::StreamOpened) => (
                self,
                ConnectionActionView::HandleStream { node_id },
            ),
            _ => (ConnectionView::Closed, ConnectionActionView::Finish),
        }
    }
}

impl Connection {
    /// Whether `event` can happen on the connection as it stands.
    pub fn awaits(&self, event: &ConnectionEvent) -> (awaited: bool)
        ensures
            awaited == self@.awaits(event@),
    {
        match (self, event) {
            (Connection::Connecting, ConnectionEvent::Connected { .. }) => true,
            (Connection::Connecting, ConnectionEvent::ConnectFailed) => true,
            (Connection::Open { .. }, ConnectionEvent::StreamOpened) => true,
            (Connection::Open { .. }, ConnectionEvent::StreamsEnded) => true,
            _ => false,
        }
    }

    /// Moves the connection on by what happened on it.
    pub fn step(self, event: ConnectionEvent) -> (stepped: (Connection, ConnectionAction))
        requires
            self@.awaits(event@),
        ensures
            (stepped.0@, stepped.1@) == self@.next(event@),
    {
        match (self, event) {
            (Connection::Connecting, ConnectionEvent::Connected { node_id }) => (
                Connection::Open { node_id },
                ConnectionAction::AcceptStream,
            ),
            (Connection::Open { node_id }, ConnectionEvent::StreamOpened) => {
                let owner = node_id.clone();
                (Connection::Open { node_id }, ConnectionAction::HandleStream { node_id: owner })
            },
            _ => (Connection::Closed, ConnectionAction::Finish),
        }
    }
}

/// The connection after the first `i` of the events.
pub open spec fn connection_at(events: Seq<ConnectionEventView>, i: nat) -> ConnectionView
    decreases i,
{
    if i == 0 {
        ConnectionView::Connecting
    } else {
        connection_at(events, (i - 1) as nat).next(events[i - 1]).0
    }
}

/// What is done on the connection in answer to the event at `i`.
pub open spec fn connection_action_at(
    events: Seq<ConnectionEventView>,
    i: nat,
) -> ConnectionActionView {
    connection_at(events, i).next(events[i as int]).1
}

/// Whether each event can happen on the connection as it stands then.
pub open spec fn connection_in_step(events: Seq<ConnectionEventView>) -> bool {
    forall|i: nat|
        i < events.len() ==> (#[trigger] connection_at(events, i)).awaits(events[i as int])
}

proof fn lemma_connection_at(events: Seq<ConnectionEventView>, i: nat)
    requires
        connection_in_step(events),
        0 < i <= events.len(),
    ensures
        connection_at(events, i) matches ConnectionView::Open { node_id } ==> events[0]
            == (ConnectionEventView::Connected { node_id }),
        !(connection_at(events, i) is Connecting),
        connection_at(events, i) is Closed ==> i == events.len(),
    decreases i,
{
    let before = (i - 1) as nat;
    if before > 0 {
        lemma_connection_at(events, before);
    }
    assert(connection_at(events, before).awaits(events[before as int]));
    if i < events.len() {
        assert(connection_at(events, i).awaits(events[i as int]));
    }
}

/// Each stream that the remote end opens is handled, and nothing else is. All
/// streams of a connection are handled for the same remote end: the one that
/// the connection was made with.
pub proof fn law_streams_share_the_identity(events: Seq<ConnectionEventView>, i: nat)
    requires
        connection_in_step(events),
        i < events.len(),
    ensures
        connection_action_at(events, i) is HandleStream <==> events[i as int] is StreamOpened,
        connection_action_at(events, i) matches ConnectionActionView::HandleStream { node_id }
            ==> events[0] == (ConnectionEventView::Connected { node_id }),
{
    if i > 0 {
        lemma_connection_at(events, i);
    }
    assert(connection_at(events, i).awaits(events[i as int]));
}

/// Whether an event can come of what was to be done on a connection.
pub open spec fn connection_answers(
    action: ConnectionActionView,
    event: ConnectionEventView,
) -> bool {
    match action {
        ConnectionActionView::AcceptStream => event is StreamOpened || event is StreamsEnded,
        ConnectionActionView::HandleStream { .. } => event is StreamOpened || event is StreamsEnded,
        ConnectionActionView::Finish => false,
    }
}

/// The handshake comes first, either way. After that a connection takes what
/// can come of what it asked for, and nothing else: a stream or the end of
/// them for as long as it is open, and nothing once it is finished.
pub proof fn law_connections_take_what_comes(
    connection: ConnectionView,
    event: ConnectionEventView,
    answer: ConnectionEventView,
)
    requires
        connection.awaits(event),
    ensures
        ConnectionView::Connecting.awaits(answer) <==> answer is Connected || answer
            is ConnectFailed,
        connection.next(event).0.awaits(answer) <==> connection_answers(
            connection.next(event).1,
            answer,
        ),
{
}

/// A connection whose handshake fails is over.
pub proof fn law_failed_handshake_ends_the_connection(events: Seq<ConnectionEventView>)
    requires
        events == seq![ConnectionEventView::ConnectFailed],
    ensures
        connection_in_step(events),
        connection_action_at(events, 0) is Finish,
        connection_at(events, 1) is Closed,
{
    reveal_with_fuel(connection_at, 2);
}

proof fn lemma_open_connection(node_id: Seq<char>, events: Seq<ConnectionEventView>, i: nat)
    requires
        0 < i <= events.len(),
        events[0] == (ConnectionEventView::Connected { node_id }),
        forall|j: int| 0 < j < i ==> (#[trigger] events[j]) is StreamOpened,
    ensures
        connection_at(events, i) == (ConnectionView::Open { node_id }),
    decreases i,
{
    reveal_with_fuel(connection_at, 2);
    if i > 1 {
        lemma_open_connection(node_id, events, (i - 1) as nat);
    }
}

/// A completed handshake opens the connection, and it stays open, for as many
/// streams as the remote end opens and whatever its identity: each of them is
/// handled for that remote end. The end of the streams is the end of the
/// connection.
pub proof fn law_connection_stays_open(
    node_id: Seq<char>,
    n: nat,
    events: Seq<ConnectionEventView>,
)
    requires
        events == seq![ConnectionEventView::Connected { node_id }] + Seq::new(
            n,
            |i: int| ConnectionEventView::StreamOpened,
        ),
    ensures
        connection_in_step(events),
        connection_action_at(events, 0) is AcceptStream,
        forall|i: nat|
            0 < i < events.len() ==> #[trigger] connection_action_at(events, i) == (
            ConnectionActionView::HandleStream { node_id }),
        connection_at(events, events.len()) == (ConnectionView::Open { node_id }),
        connection_in_step(events.push(ConnectionEventView::StreamsEnded)),
        connection_action_at(
            events.push(ConnectionEventView::StreamsEnded),
            events.len(),
        ) is Finish,
        connection_at(
            events.push(ConnectionEventView::StreamsEnded),
            events.len() + 1,
        ) is Closed,
{
    let ended = events.push(ConnectionEventView::StreamsEnded);
    assert forall|i: nat| 0 < i <= events.len() implies #[trigger] connection_at(events, i) == (
    ConnectionView::Open { node_id }) by {
        lemma_open_connection(node_id, events, i);
    }
    assert forall|i: nat| 0 < i <= events.len() implies #[trigger] connection_at(ended, i) == (
    ConnectionView::Open { node_id }) by {
        lemma_open_connection(node_id, ended, i);
    }
}

/// What a step of a connection does, for each event it can take: the identity
/// that the handshake gave is kept, and handed on with each stream.
pub proof fn law_connection_steps(
    connection: Connection,
    event: ConnectionEvent,
    stepped: (Connection, ConnectionAction),
)
    requires
        connection@.awaits(event@),
        call_ensures(Connection::step, (connection, event), stepped),
    ensures
        event matches ConnectionEvent::Connected { node_id: remote } ==> {
            &&& stepped.0 matches Connection::Open { node_id }
            &&& stepped.1 is AcceptStream
            &&& node_id@ == remote@
        },
        event is StreamOpened ==> {
            &&& connection matches Connection::Open { node_id: remote }
            &&& stepped.0 matches Connection::Open { node_id }
            &&& stepped.1 matches ConnectionAction::HandleStream { node_id: owner }
            &&& node_id@ == remote@
            &&& owner@ == remote@
        },
        event is ConnectFailed || event is StreamsEnded ==> stepped.0 is Closed && stepped.1
            is Finish,
{
}

/// What can happen on a connection: the handshake succeeds or fails while it is
/// under way, and streams are opened or end while the connection is open.
pub proof fn law_connection_awaits(connection: Connection, event: ConnectionEvent, awaited: bool)
    requires
        call_ensures(Connection::awaits, (&connection, &event), awaited),
    ensures
        awaited <==> {
            ||| connection is Connecting && event is Connected
            ||| connection is Connecting && event is ConnectFailed
            ||| connection is Open && event is StreamOpened
            ||| connection is Open && event is StreamsEnded
        },
        awaited ==> call_requires(Connection::step, (connection, event)),
{
}

} // verus!
