//! Protocol-engine behaviour: navigation clamping, zoom clamping, state
//! snapshots, annotation commands, and the broadcast-worthiness rule.

use streamslate::protocol::{
    handle_command, host_notification_name, should_broadcast, WebSocketCommand, WebSocketEvent,
};
use streamslate::session::SessionState;

fn session_with_document(pages: u32) -> SessionState {
    let mut state = SessionState::new(false, false);
    state.apply_document_opened(String::from("/tmp/deck.pdf"), pages);
    state
}

#[test]
fn next_page_advances_and_clamps() {
    let mut state = session_with_document(3);
    let r = handle_command(WebSocketCommand::NextPage, &mut state);
    assert!(matches!(r, WebSocketEvent::PageChanged { page: 2, total_pages: 3 }));
    let r = handle_command(WebSocketCommand::NextPage, &mut state);
    assert!(matches!(r, WebSocketEvent::PageChanged { page: 3, total_pages: 3 }));
    // At the last page the cursor clamps and the caller is told.
    let r = handle_command(WebSocketCommand::NextPage, &mut state);
    match r {
        WebSocketEvent::Error { message } => assert_eq!(message, "Already on last page"),
        _ => panic!("expected an error at the last page"),
    }
    assert_eq!(state.pdf.current_page, 3);
}

#[test]
fn previous_page_clamps_at_first() {
    let mut state = session_with_document(3);
    let r = handle_command(WebSocketCommand::PreviousPage, &mut state);
    match r {
        WebSocketEvent::Error { message } => assert_eq!(message, "Already on first page"),
        _ => panic!("expected an error at the first page"),
    }
    assert_eq!(state.pdf.current_page, 1);
}

#[test]
fn navigation_requires_a_document() {
    let mut state = SessionState::new(false, false);
    let r = handle_command(WebSocketCommand::NextPage, &mut state);
    match r {
        WebSocketEvent::Error { message } => assert_eq!(message, "No PDF is currently open"),
        _ => panic!("expected an error with no document open"),
    }
}

#[test]
fn page_stays_in_range_under_any_sequence() {
    let mut state = session_with_document(4);
    let cmds = [
        WebSocketCommand::NextPage,
        WebSocketCommand::NextPage,
        WebSocketCommand::GoToPage { page: 4 },
        WebSocketCommand::NextPage,
        WebSocketCommand::PreviousPage,
        WebSocketCommand::GoToPage { page: 99 },
        WebSocketCommand::PreviousPage,
        WebSocketCommand::PreviousPage,
        WebSocketCommand::PreviousPage,
        WebSocketCommand::GoToPage { page: 0 },
    ];
    for cmd in cmds {
        let _ = handle_command(cmd, &mut state);
        assert!(1 <= state.pdf.current_page && state.pdf.current_page <= state.pdf.total_pages);
    }
    assert_eq!(state.pdf.current_page, 1);
}

#[test]
fn go_to_page_out_of_range_errors_and_moves_nothing() {
    let mut state = session_with_document(10);
    let r = handle_command(WebSocketCommand::GoToPage { page: 11 }, &mut state);
    match r {
        WebSocketEvent::Error { message } => {
            assert_eq!(message, "Page 11 is out of range (1-10)");
        }
        _ => panic!("expected an out-of-range error"),
    }
    assert_eq!(state.pdf.current_page, 1);
    let r = handle_command(WebSocketCommand::GoToPage { page: 0 }, &mut state);
    assert!(matches!(r, WebSocketEvent::Error { .. }));
    assert_eq!(state.pdf.current_page, 1);
}

#[test]
fn set_zoom_always_clamps_and_never_rejects() {
    let mut state = SessionState::new(false, false);
    let r = handle_command(WebSocketCommand::SetZoom { zoom_hundredths: 250 }, &mut state);
    assert!(matches!(r, WebSocketEvent::ZoomChanged { zoom_hundredths: 250 }));
    assert_eq!(state.pdf.zoom_hundredths, 250);

    let r = handle_command(
        WebSocketCommand::SetZoom { zoom_hundredths: 1_000_000 },
        &mut state,
    );
    assert!(matches!(r, WebSocketEvent::ZoomChanged { zoom_hundredths: 500 }));
    assert_eq!(state.pdf.zoom_hundredths, 500);

    let r = handle_command(WebSocketCommand::SetZoom { zoom_hundredths: -7 }, &mut state);
    assert!(matches!(r, WebSocketEvent::ZoomChanged { zoom_hundredths: 10 }));
    assert_eq!(state.pdf.zoom_hundredths, 10);

    // The domain edges are stored exactly.
    let r = handle_command(WebSocketCommand::SetZoom { zoom_hundredths: 10 }, &mut state);
    assert!(matches!(r, WebSocketEvent::ZoomChanged { zoom_hundredths: 10 }));
    let r = handle_command(WebSocketCommand::SetZoom { zoom_hundredths: 500 }, &mut state);
    assert!(matches!(r, WebSocketEvent::ZoomChanged { zoom_hundredths: 500 }));
}

#[test]
fn toggle_presenter_flips() {
    let mut state = SessionState::new(false, false);
    let r = handle_command(WebSocketCommand::TogglePresenter, &mut state);
    assert!(matches!(r, WebSocketEvent::PresenterChanged { active: true }));
    assert!(state.presenter.is_active);
    let r = handle_command(WebSocketCommand::TogglePresenter, &mut state);
    assert!(matches!(r, WebSocketEvent::PresenterChanged { active: false }));
    assert!(!state.presenter.is_active);
}

#[test]
fn get_state_reports_the_snapshot() {
    let mut state = session_with_document(10);
    let _ = handle_command(WebSocketCommand::GoToPage { page: 7 }, &mut state);
    let r = handle_command(WebSocketCommand::GetState, &mut state);
    match r {
        WebSocketEvent::State { page, total_pages, zoom_hundredths, pdf_loaded, pdf_path, .. } => {
            assert_eq!(page, 7);
            assert_eq!(total_pages, 10);
            assert_eq!(zoom_hundredths, 100);
            assert!(pdf_loaded);
            assert_eq!(pdf_path.as_deref(), Some("/tmp/deck.pdf"));
        }
        _ => panic!("expected a state snapshot"),
    }
}

#[test]
fn ping_answers_pong() {
    let mut state = SessionState::new(false, false);
    let r = handle_command(WebSocketCommand::Ping, &mut state);
    assert!(matches!(r, WebSocketEvent::Pong));
}

#[test]
fn annotation_order_preserved() {
    // Two annotations on the same page come back in insertion order.
    let mut state = SessionState::new(false, false);
    let r = handle_command(
        WebSocketCommand::AddAnnotation { page: 3, annotation: String::from("X") },
        &mut state,
    );
    match r {
        WebSocketEvent::AnnotationsUpdated { page, annotations } => {
            assert_eq!(page, 3);
            assert_eq!(annotations, vec![String::from("X")]);
        }
        _ => panic!("expected an annotations update"),
    }
    let r = handle_command(
        WebSocketCommand::AddAnnotation { page: 3, annotation: String::from("Y") },
        &mut state,
    );
    match r {
        WebSocketEvent::AnnotationsUpdated { page, annotations } => {
            assert_eq!(page, 3);
            assert_eq!(annotations, vec![String::from("X"), String::from("Y")]);
        }
        _ => panic!("expected an annotations update"),
    }
    assert_eq!(
        state.annotations.get_page(3),
        vec![String::from("X"), String::from("Y")]
    );
    assert!(state.annotations.get_page(2).is_empty());
}

#[test]
fn clear_annotations_empties_every_page() {
    let mut state = SessionState::new(false, false);
    let _ = handle_command(
        WebSocketCommand::AddAnnotation { page: 1, annotation: String::from("a") },
        &mut state,
    );
    let _ = handle_command(
        WebSocketCommand::AddAnnotation { page: 2, annotation: String::from("b") },
        &mut state,
    );
    let r = handle_command(WebSocketCommand::ClearAnnotations, &mut state);
    assert!(matches!(r, WebSocketEvent::AnnotationsCleared));
    assert!(state.annotations.get_page(1).is_empty());
    assert!(state.annotations.get_page(2).is_empty());
}

#[test]
fn decimal_rendering_is_exact() {
    assert_eq!(streamslate::decimal_string(0), "0");
    assert_eq!(streamslate::decimal_string(7), "7");
    assert_eq!(streamslate::decimal_string(10), "10");
    assert_eq!(streamslate::decimal_string(11451), "11451");
    assert_eq!(streamslate::decimal_string(u32::MAX), "4294967295");
}

#[test]
fn host_notifications_follow_the_event_kind() {
    let n = host_notification_name(&WebSocketEvent::PageChanged { page: 2, total_pages: 5 });
    assert_eq!(n.as_deref(), Some("page-changed"));
    let n = host_notification_name(&WebSocketEvent::ZoomChanged { zoom_hundredths: 200 });
    assert_eq!(n.as_deref(), Some("zoom-changed"));
    let n = host_notification_name(&WebSocketEvent::PresenterChanged { active: true });
    assert_eq!(n.as_deref(), Some("presenter-changed"));
    let n = host_notification_name(&WebSocketEvent::AnnotationsUpdated {
        page: 3,
        annotations: vec![String::from("a")],
    });
    assert_eq!(n.as_deref(), Some("annotations-updated"));
    let n = host_notification_name(&WebSocketEvent::AnnotationsCleared);
    assert_eq!(n.as_deref(), Some("annotations-cleared"));
    assert!(host_notification_name(&WebSocketEvent::Pong).is_none());
    assert!(host_notification_name(&WebSocketEvent::PdfClosed).is_none());
}

#[test]
fn test_should_broadcast() {
    assert!(should_broadcast(&WebSocketEvent::PageChanged { page: 1, total_pages: 10 }));
    assert!(should_broadcast(&WebSocketEvent::ZoomChanged { zoom_hundredths: 150 }));
    assert!(should_broadcast(&WebSocketEvent::PdfClosed));
    assert!(!should_broadcast(&WebSocketEvent::Pong));
    assert!(!should_broadcast(&WebSocketEvent::error("test")));
}
