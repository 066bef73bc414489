use alleycat::listener::{
    endpoint_settings, on_accept, AcceptAction, AcceptEvent, Connection, ConnectionAction,
    ConnectionEvent,
};

#[test]
fn endpoints_speak_the_protocol_and_stay_up() {
    let settings = endpoint_settings();
    assert_eq!(settings.idle_timeout_secs, 600);
    assert_eq!(settings.online_timeout_secs, 8);
    assert_eq!(settings.alpns, vec![b"alleycat/1".to_vec()]);
}

#[test]
fn accept_loop_takes_connections_until_stopped() {
    assert_eq!(
        on_accept(AcceptEvent::Incoming),
        AcceptAction::TakeConnection
    );
    assert_eq!(
        on_accept(AcceptEvent::Shutdown),
        AcceptAction::CloseEndpoint
    );
    assert_eq!(on_accept(AcceptEvent::Exhausted), AcceptAction::Leave);
}

#[test]
fn streams_of_a_connection_share_its_identity() {
    let connected = ConnectionEvent::Connected {
        node_id: "peer".to_string(),
    };
    assert!(Connection::Connecting.awaits(&connected));
    let (mut connection, action) = Connection::Connecting.step(connected);
    assert!(matches!(action, ConnectionAction::AcceptStream));
    for _ in 0..3 {
        assert!(connection.awaits(&ConnectionEvent::StreamOpened));
        let (next, action) = connection.step(ConnectionEvent::StreamOpened);
        assert!(matches!(action, ConnectionAction::HandleStream { node_id } if node_id == "peer"));
        connection = next;
    }
    let (closed, action) = connection.step(ConnectionEvent::StreamsEnded);
    assert!(matches!(action, ConnectionAction::Finish));
    assert!(!closed.awaits(&ConnectionEvent::StreamOpened));
    assert!(!closed.awaits(&ConnectionEvent::StreamsEnded));
}

#[test]
fn failed_handshakes_end_the_connection() {
    let (closed, action) = Connection::Connecting.step(ConnectionEvent::ConnectFailed);
    assert!(matches!(action, ConnectionAction::Finish));
    assert!(matches!(closed, Connection::Closed));
    assert!(!Connection::Connecting.awaits(&ConnectionEvent::StreamOpened));
}
