use parakeet_ptt::overlay_ipc::{OverlayIpcMessage, OverlayTextProducer};
use parakeet_ptt::overlay_router::{overlay_event_to_ipc, OverlayEvent, OverlayRouter};
use parakeet_ptt::protocol::{FloatBits, SessionId};

fn float(value: f32) -> FloatBits {
    FloatBits { bits: value.to_bits() }
}

#[test]
fn stale_interim_sequences_are_dropped_near_router() {
    let session_id = SessionId::fresh();
    let mut seen = Vec::new();
    let mut router = OverlayRouter::new();
    router.note_session_started(session_id);

    seen.extend(router.route_daemon_interim_text(
        Some(session_id),
        session_id,
        10,
        "newest".to_string(),
    ));
    seen.extend(router.route_daemon_interim_text(
        Some(session_id),
        session_id,
        9,
        "stale".to_string(),
    ));

    assert_eq!(router.metrics.dropped_stale_seq_total, 1);
    assert_eq!(
        seen,
        vec![OverlayEvent::InterimText {
            producer: OverlayTextProducer::DaemonSttInterim,
            session_id,
            seq: 10,
            text: "newest".to_string(),
        }]
    );
}

#[test]
fn daemon_interim_requires_active_client_session() {
    let session_id = SessionId::fresh();
    let mut seen = Vec::new();
    let mut router = OverlayRouter::new();

    seen.extend(router.route_daemon_interim_state(None, session_id, 1, "listening".to_string()));
    seen.extend(router.route_daemon_interim_text(None, session_id, 2, "late daemon".to_string()));

    assert_eq!(router.metrics.dropped_session_mismatch_total, 2);
    assert!(seen.is_empty());
}

#[test]
fn mismatched_session_events_are_dropped_near_router() {
    let active_session_id = SessionId::fresh();
    let stale_session_id = SessionId::fresh();
    let mut seen = Vec::new();
    let mut router = OverlayRouter::new();
    router.note_session_started(active_session_id);

    seen.extend(router.route_daemon_interim_text(
        Some(active_session_id),
        stale_session_id,
        1,
        "stale session".to_string(),
    ));
    seen.extend(router.route_daemon_interim_text(
        Some(active_session_id),
        active_session_id,
        1,
        "active session".to_string(),
    ));

    assert_eq!(router.metrics.dropped_session_mismatch_total, 1);
    assert_eq!(
        seen,
        vec![OverlayEvent::InterimText {
            producer: OverlayTextProducer::DaemonSttInterim,
            session_id: active_session_id,
            seq: 1,
            text: "active session".to_string(),
        }]
    );
}

#[test]
fn daemon_and_llm_overlay_text_sequences_are_independent() {
    let session_id = SessionId::fresh();
    let mut seen = Vec::new();
    let mut router = OverlayRouter::new();
    router.note_session_started(session_id);

    seen.extend(router.route_daemon_interim_text(
        Some(session_id),
        session_id,
        10,
        "daemon interim".to_string(),
    ));
    seen.extend(router.route_llm_answer_delta(session_id, 1, "answer".to_string()));
    seen.extend(router.route_llm_answer_delta(session_id, 2, "answer delta".to_string()));
    seen.extend(router.route_daemon_interim_text(
        Some(session_id),
        session_id,
        9,
        "stale daemon".to_string(),
    ));
    seen.extend(router.route_llm_answer_delta(session_id, 2, "stale llm".to_string()));

    assert_eq!(router.metrics.dropped_stale_seq_total, 2);
    assert_eq!(
        seen,
        vec![
            OverlayEvent::InterimText {
                producer: OverlayTextProducer::DaemonSttInterim,
                session_id,
                seq: 10,
                text: "daemon interim".to_string(),
            },
            OverlayEvent::InterimText {
                producer: OverlayTextProducer::LlmAnswerDelta,
                session_id,
                seq: 1,
                text: "answer".to_string(),
            },
            OverlayEvent::InterimText {
                producer: OverlayTextProducer::LlmAnswerDelta,
                session_id,
                seq: 2,
                text: "answer delta".to_string(),
            },
        ]
    );
}

#[test]
fn session_warning_requires_active_session() {
    let active_session_id = SessionId::fresh();
    let inactive_session_id = SessionId::fresh();
    let mut seen = Vec::new();
    let mut router = OverlayRouter::new();
    router.note_session_started(active_session_id);

    seen.extend(router.route_session_warning(inactive_session_id, float(120.0), float(600.0)));
    seen.extend(router.route_session_warning(active_session_id, float(120.0), float(600.0)));

    assert_eq!(
        seen,
        vec![OverlayEvent::SessionWarning {
            session_id: active_session_id,
            remaining_seconds: float(120.0),
            limit_seconds: float(600.0),
        }]
    );
}

#[test]
fn output_hints_come_before_what_they_are_for() {
    let session_id = SessionId { bits: 7 };
    let mut router = OverlayRouter::new();
    router.note_session_started(session_id);
    let events = router.route_daemon_interim_state_with_output_hint(
        Some(session_id),
        session_id,
        1,
        "listening".to_string(),
        || Some("DP-1".to_string()),
    );
    assert_eq!(
        events,
        vec![
            OverlayEvent::OutputHint {
                output_name: "DP-1".to_string()
            },
            OverlayEvent::InterimState {
                producer: OverlayTextProducer::DaemonSttInterim,
                session_id,
                seq: 1,
                state: "listening".to_string(),
            },
        ]
    );
}

#[test]
fn a_hint_is_routed_as_it_is() {
    let router = OverlayRouter::new();
    assert_eq!(
        router.route_output_hint("DP-1".to_string()),
        vec![OverlayEvent::OutputHint {
            output_name: "DP-1".to_string()
        }]
    );
}

#[test]
fn events_keep_what_they_say_on_their_way() {
    let session_id = SessionId { bits: 7 };
    assert_eq!(
        overlay_event_to_ipc(OverlayEvent::SessionWarning {
            session_id,
            remaining_seconds: float(1.0),
            limit_seconds: float(2.0),
        }),
        OverlayIpcMessage::SessionWarning {
            session_id,
            remaining_seconds: Some(float(1.0)),
            limit_seconds: Some(float(2.0)),
        }
    );
    assert_eq!(
        overlay_event_to_ipc(OverlayEvent::InjectionComplete {
            session_id,
            success: false
        }),
        OverlayIpcMessage::InjectionComplete {
            session_id,
            success: false
        }
    );
}
