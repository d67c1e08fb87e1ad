//! Broadcast-fabric and connection-engine behaviour: who observes which
//! events, per-subscriber ordering, lag-drop at the bound, and the
//! connection lifecycle.

use streamslate::connection::{
    close_connection, malformed_command_response, on_client_command, open_connection,
    poll_broadcast, websocket_status, ConnectionPhase,
};
use streamslate::fabric::BroadcastFabric;
use streamslate::protocol::{WebSocketCommand, WebSocketEvent};
use streamslate::session::SessionState;

#[test]
fn handshake_seeds_a_new_client() {
    let mut state = SessionState::new(false, false);
    let mut fabric = BroadcastFabric::new(16);
    let (conn, outputs) = open_connection(&mut state, &mut fabric, String::from("1.0.0"));
    assert_eq!(conn.phase, ConnectionPhase::Ready);
    assert_eq!(outputs.len(), 2);
    match &outputs[0] {
        WebSocketEvent::Connected { version } => assert_eq!(version, "1.0.0"),
        _ => panic!("the handshake confirmation must come first"),
    }
    match &outputs[1] {
        WebSocketEvent::State { page, total_pages, pdf_loaded, .. } => {
            assert_eq!((*page, *total_pages, *pdf_loaded), (1, 0, false));
        }
        _ => panic!("the state snapshot must follow the confirmation"),
    }
    assert_eq!(state.websocket.active_connections, 1);
}

#[test]
fn two_clients_share_page_changes() {
    // Two connections join an empty session; a document is opened
    // externally with ten pages; the first connection's navigation is
    // then observed by the second, while its errors are not.
    let mut state = SessionState::new(false, false);
    let mut fabric = BroadcastFabric::new(16);
    let (a, _) = open_connection(&mut state, &mut fabric, String::from("1.0.0"));
    let (b, _) = open_connection(&mut state, &mut fabric, String::from("1.0.0"));

    state.apply_document_opened(String::from("/tmp/deck.pdf"), 10);

    let reply = on_client_command(
        &a,
        &mut state,
        &mut fabric,
        WebSocketCommand::GoToPage { page: 5 },
    );
    assert!(matches!(reply, WebSocketEvent::PageChanged { page: 5, total_pages: 10 }));
    let seen_by_b = poll_broadcast(&b, &mut fabric);
    assert!(matches!(
        seen_by_b,
        Some(WebSocketEvent::PageChanged { page: 5, total_pages: 10 })
    ));
    // The broadcast reaches the originator's own subscription too.
    let seen_by_a = poll_broadcast(&a, &mut fabric);
    assert!(matches!(
        seen_by_a,
        Some(WebSocketEvent::PageChanged { page: 5, total_pages: 10 })
    ));

    let reply = on_client_command(
        &a,
        &mut state,
        &mut fabric,
        WebSocketCommand::GoToPage { page: 11 },
    );
    assert!(matches!(reply, WebSocketEvent::Error { .. }));
    assert!(poll_broadcast(&b, &mut fabric).is_none());
}

#[test]
fn non_broadcast_events_stay_private() {
    let mut state = SessionState::new(false, false);
    let mut fabric = BroadcastFabric::new(16);
    let (a, _) = open_connection(&mut state, &mut fabric, String::from("1.0.0"));
    let (b, _) = open_connection(&mut state, &mut fabric, String::from("1.0.0"));

    let reply = on_client_command(&a, &mut state, &mut fabric, WebSocketCommand::Ping);
    assert!(matches!(reply, WebSocketEvent::Pong));
    assert!(poll_broadcast(&b, &mut fabric).is_none());

    let reply = on_client_command(&a, &mut state, &mut fabric, WebSocketCommand::GetState);
    assert!(matches!(reply, WebSocketEvent::State { .. }));
    assert!(poll_broadcast(&b, &mut fabric).is_none());
}

#[test]
fn broadcast_worthy_events_reach_every_connection() {
    let mut state = SessionState::new(false, false);
    let mut fabric = BroadcastFabric::new(16);
    let (a, _) = open_connection(&mut state, &mut fabric, String::from("1.0.0"));
    let (b, _) = open_connection(&mut state, &mut fabric, String::from("1.0.0"));
    let (c, _) = open_connection(&mut state, &mut fabric, String::from("1.0.0"));

    let reply = on_client_command(
        &a,
        &mut state,
        &mut fabric,
        WebSocketCommand::SetZoom { zoom_hundredths: 150 },
    );
    assert!(matches!(reply, WebSocketEvent::ZoomChanged { zoom_hundredths: 150 }));
    for conn in [&a, &b, &c] {
        let seen = poll_broadcast(conn, &mut fabric);
        assert!(matches!(seen, Some(WebSocketEvent::ZoomChanged { zoom_hundredths: 150 })));
        assert!(poll_broadcast(conn, &mut fabric).is_none());
    }
}

#[test]
fn per_subscriber_order_is_kept_and_lag_drops_oldest() {
    let mut fabric = BroadcastFabric::new(2);
    let id = fabric.subscribe();
    let conn = streamslate::connection::Connection {
        phase: ConnectionPhase::Ready,
        subscription: id,
    };
    fabric.publish(&WebSocketEvent::PageChanged { page: 1, total_pages: 9 });
    fabric.publish(&WebSocketEvent::PageChanged { page: 2, total_pages: 9 });
    // The queue is at its bound: the oldest event is shed, not the new one.
    fabric.publish(&WebSocketEvent::PageChanged { page: 3, total_pages: 9 });
    let first = poll_broadcast(&conn, &mut fabric);
    assert!(matches!(first, Some(WebSocketEvent::PageChanged { page: 2, .. })));
    let second = poll_broadcast(&conn, &mut fabric);
    assert!(matches!(second, Some(WebSocketEvent::PageChanged { page: 3, .. })));
    assert!(poll_broadcast(&conn, &mut fabric).is_none());
}

#[test]
fn closed_connection_receives_nothing_and_leaves_the_registry() {
    let mut state = SessionState::new(false, false);
    let mut fabric = BroadcastFabric::new(8);
    let (mut a, _) = open_connection(&mut state, &mut fabric, String::from("1.0.0"));
    let (b, _) = open_connection(&mut state, &mut fabric, String::from("1.0.0"));
    assert_eq!(state.websocket.active_connections, 2);
    assert_eq!(fabric.subscriber_count(), 2);

    close_connection(&mut a, &mut state, &mut fabric);
    assert_eq!(a.phase, ConnectionPhase::Closed);
    assert_eq!(state.websocket.active_connections, 1);
    assert_eq!(fabric.subscriber_count(), 1);

    let reply = on_client_command(
        &b,
        &mut state,
        &mut fabric,
        WebSocketCommand::SetZoom { zoom_hundredths: 80 },
    );
    assert!(matches!(reply, WebSocketEvent::ZoomChanged { zoom_hundredths: 80 }));
    assert!(matches!(
        poll_broadcast(&b, &mut fabric),
        Some(WebSocketEvent::ZoomChanged { zoom_hundredths: 80 })
    ));
}

#[test]
fn unsubscribing_leaves_other_queues_alone() {
    let mut fabric = BroadcastFabric::new(4);
    let a = fabric.subscribe();
    let b = fabric.subscribe();
    fabric.publish(&WebSocketEvent::PdfClosed);
    fabric.unsubscribe(a);
    assert_eq!(fabric.subscriber_count(), 1);
    let conn_b = streamslate::connection::Connection {
        phase: ConnectionPhase::Ready,
        subscription: b,
    };
    assert!(matches!(
        poll_broadcast(&conn_b, &mut fabric),
        Some(WebSocketEvent::PdfClosed)
    ));
    let conn_a = streamslate::connection::Connection {
        phase: ConnectionPhase::Ready,
        subscription: a,
    };
    assert!(poll_broadcast(&conn_a, &mut fabric).is_none());
}

#[test]
fn malformed_payload_answers_an_error_with_the_parse_detail() {
    let r = malformed_command_response("expected value at line 1 column 1");
    match r {
        WebSocketEvent::Error { message } => {
            assert_eq!(message, "Invalid command: expected value at line 1 column 1");
        }
        _ => panic!("expected an error response"),
    }
}

#[test]
fn websocket_status_reports_the_listener() {
    let mut state = SessionState::new(false, false);
    assert!(!state.websocket.is_connected);
    state.listener_started(11451);
    let status = websocket_status(&state.get_websocket_state(), 3);
    assert!(status.is_running);
    assert_eq!(status.port, 11451);
    assert_eq!(status.client_count, 3);
}
