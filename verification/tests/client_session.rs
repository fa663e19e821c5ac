use parakeet_ptt::client_session::{
    classify_error_code, elapsed_ms_since, handle_server_message, ClientSessionAction,
    ClientSessionIgnoredHotkeyReason, ClientSessionRuntime, ClientSessionStartBlocker,
    LlmDeltaOverlay, ServerEffects, SessionIntent,
};
use parakeet_ptt::config::OverlayMode;
use parakeet_ptt::injector_runtime::{
    worker_report, InjectionOrigin, InjectionRunOutput, WorkerRun,
};
use parakeet_ptt::overlay_ipc::{OverlayIpcMessage, OverlayTextProducer};
use parakeet_ptt::overlay_process::{ManagerAction, ManagerEvent, OverlayProcessManager};
use parakeet_ptt::overlay_router::{overlay_event_to_ipc, OverlayEvent, OverlayRouter};
use parakeet_ptt::protocol::{FloatBits, ServerMessage, SessionId};
use parakeet_ptt::surface_focus::ParentFocusCapture;

fn no_hint() -> Option<String> {
    None
}

fn test_parent_focus() -> ParentFocusCapture {
    ParentFocusCapture {
        snapshot: None,
        source_selected: "test".to_string(),
        wayland_cache_age_ms: None,
        wayland_fallback_reason: None,
        captured_elapsed_ms: None,
    }
}

fn runtime_waiting_for_result() -> (ClientSessionRuntime, SessionId) {
    let mut runtime = ClientSessionRuntime::new();
    let session_id = runtime
        .begin_listening(SessionIntent::Dictate)
        .expect("session should start");
    runtime.stop_listening().expect("session should stop");
    (runtime, session_id)
}

fn final_result(session_id: SessionId, text: &str, latency_ms: u64, audio_ms: u64) -> ServerMessage {
    ServerMessage::FinalResult {
        session_id,
        text: text.to_string(),
        latency_ms,
        audio_ms,
        lang: Some("en".to_string()),
        confidence: Some(FloatBits {
            bits: 0.92f32.to_bits(),
        }),
    }
}

fn interim_text(session_id: SessionId, seq: u64, text: &str) -> ServerMessage {
    ServerMessage::InterimText {
        session_id,
        seq,
        text: text.to_string(),
    }
}

fn handle(
    message: ServerMessage,
    runtime: &mut ClientSessionRuntime,
    router: &mut OverlayRouter,
) -> ServerEffects {
    handle_server_message(message, runtime, router, 1_000, no_hint)
}

/// Sends the events to the manager. Launches succeed as `launches` says in turn, and the process
/// of launch `n` takes messages where `alive[n]` says so. Gives back what was taken.
struct Overlay {
    manager: OverlayProcessManager,
    launches: Vec<bool>,
    alive: Vec<bool>,
    launched: usize,
    taken: Vec<OverlayIpcMessage>,
}

impl Overlay {
    fn new(launches: Vec<bool>, alive: Vec<bool>) -> Overlay {
        let mut overlay = Overlay {
            manager: OverlayProcessManager::new(OverlayMode::LayerShell, false, 0, 1_500),
            launches,
            alive,
            launched: 0,
            taken: Vec::new(),
        };
        let action = overlay.manager.start(0, &None);
        overlay.run(action);
        overlay
    }

    fn run(&mut self, first: ManagerAction) {
        let mut action = first;
        let mut current = self.launched;
        loop {
            let event = match action {
                ManagerAction::Done => return,
                ManagerAction::Launch { .. } => {
                    let ok = self.launches.get(self.launched).copied().unwrap_or(false);
                    self.launched += 1;
                    current = self.launched;
                    ManagerEvent::Launched(ok)
                }
                ManagerAction::Send(message) => {
                    let alive = self.alive.get(current - 1).copied().unwrap_or(false);
                    if alive {
                        self.taken.push(message);
                    }
                    ManagerEvent::Sent(alive)
                }
            };
            action = self.manager.next(event, 0, &None);
        }
    }

    fn send(&mut self, events: Vec<OverlayEvent>) {
        for event in events {
            let message = overlay_event_to_ipc(event);
            let action = self.manager.next(ManagerEvent::Message(message), 0, &None);
            self.run(action);
        }
    }
}

#[test]
fn client_session_runtime_resets_reconnect_caches() {
    let mut runtime = ClientSessionRuntime::new();
    let session_id = runtime
        .begin_listening(SessionIntent::LlmQuery)
        .expect("llm session should start");
    runtime.stop_listening().expect("llm session should stop");
    runtime.record_stop_message_sent(session_id, Some(test_parent_focus()), 1_000);
    assert_eq!(
        runtime.defer_session_end_if_needed(&ServerMessage::SessionEnded {
            session_id,
            reason: Some("connection_drop".to_string()),
        }),
        Some(session_id)
    );
    assert_eq!(runtime.start_llm_answer(session_id), 1);
    assert_eq!(
        runtime.record_llm_delta(session_id, "partial".to_string()),
        Some(LlmDeltaOverlay {
            seq: 2,
            text: "partial".to_string(),
        })
    );
    assert!(runtime.is_llm_busy());
    assert_eq!(
        runtime.note_llm_busy_overlay_rejection(),
        (SessionId::nil(), 1)
    );

    runtime.reset_for_connection_drop();

    assert_eq!(runtime.state_label(), "idle");
    assert_eq!(runtime.active_session_id(), None);
    assert_eq!(runtime.active_intent(), None);
    assert!(!runtime.is_llm_busy());
    assert_eq!(
        runtime.record_llm_delta(session_id, "late".to_string()),
        None
    );
    assert!(runtime.finish_llm_answer(session_id, 2_000).is_none());
}

#[test]
fn client_session_runtime_defers_session_end_until_llm_finish() {
    let mut runtime = ClientSessionRuntime::new();
    let session_id = runtime
        .begin_listening(SessionIntent::LlmQuery)
        .expect("llm session should start");
    runtime.stop_listening().expect("llm session should stop");
    runtime.record_stop_message_sent(session_id, Some(test_parent_focus()), 1_000);
    assert_eq!(
        runtime.defer_session_end_if_needed(&ServerMessage::SessionEnded {
            session_id,
            reason: Some("normal".to_string()),
        }),
        Some(session_id)
    );
    assert_eq!(runtime.start_llm_answer(session_id), 1);
    assert_eq!(
        runtime.record_llm_delta(session_id, "answer".to_string()),
        Some(LlmDeltaOverlay {
            seq: 2,
            text: "answer".to_string(),
        })
    );

    let completion = runtime
        .finish_llm_answer(session_id, 1_250)
        .expect("active llm completion should produce injection context");

    assert_eq!(completion.session_end_reason.as_deref(), Some("normal"));
    assert!(completion.session_end_was_deferred);
    assert_eq!(completion.state_label, "idle");
    assert_eq!(completion.hotkey_up_elapsed_ms_at_enqueue, Some(250));
    assert_eq!(completion.stop_message_elapsed_ms_at_enqueue, Some(250));
    assert!(completion.parent_focus.is_some());
    assert!(!runtime.is_llm_busy());
    assert!(runtime.finish_llm_answer(session_id, 1_300).is_none());
}

#[test]
fn final_result_enqueues_injection_job() {
    let (mut runtime, session_id) = runtime_waiting_for_result();
    let mut router = OverlayRouter::new();
    let effects = handle(
        final_result(session_id, "direct final result", 44, 1200),
        &mut runtime,
        &mut router,
    );
    let job = effects.job.expect("final result should enqueue");
    assert_eq!(job.text, "direct final result");
    assert_eq!(job.session_id, session_id);
    assert_eq!(job.daemon_latency_ms, 44);
    assert_eq!(job.daemon_audio_ms, 1200);
    assert_eq!(job.origin, InjectionOrigin::RawFinalResult);
    let report = worker_report(&job, 1_000, 1_010, WorkerRun::Ran(Ok(InjectionRunOutput::default())));
    assert!(report.error.is_none());
}

#[test]
fn final_result_report_includes_user_visible_completion_latency() {
    let (mut runtime, session_id) = runtime_waiting_for_result();
    runtime.record_stop_message_sent(session_id, None, 960);
    let mut router = OverlayRouter::new();
    let effects = handle(
        final_result(session_id, "timed final result", 44, 1200),
        &mut runtime,
        &mut router,
    );
    let job = effects.job.expect("final result should enqueue");
    let report = worker_report(&job, 1_005, 1_030, WorkerRun::Ran(Ok(InjectionRunOutput::default())));
    assert!(report.error.is_none());
    assert_eq!(report.daemon_latency_ms, 44);
    assert_eq!(
        report.enqueue_to_injection_complete_ms,
        report.total_worker_ms
    );
    assert_eq!(report.hotkey_up_elapsed_ms_at_enqueue, Some(40));
    assert_eq!(
        report.hotkey_up_elapsed_ms_at_completion,
        report
            .hotkey_up_elapsed_ms_at_enqueue
            .map(|elapsed| elapsed.saturating_add(report.enqueue_to_injection_complete_ms))
    );
    assert_eq!(
        report.stop_message_elapsed_ms_at_completion,
        report
            .stop_message_elapsed_ms_at_enqueue
            .map(|elapsed| elapsed.saturating_add(report.enqueue_to_injection_complete_ms))
    );
    assert!(
        report.hotkey_up_elapsed_ms_at_completion >= report.hotkey_up_elapsed_ms_at_worker_start
    );
    assert!(
        report.stop_message_elapsed_ms_at_completion
            >= report.stop_message_elapsed_ms_at_worker_start
    );
}

#[test]
fn stale_final_result_does_not_enqueue_injection_job() {
    let (mut runtime, active_session_id) = runtime_waiting_for_result();
    let stale_session_id = SessionId::fresh();
    let mut router = OverlayRouter::new();
    let effects = handle(
        final_result(stale_session_id, "stale private transcript", 44, 1200),
        &mut runtime,
        &mut router,
    );
    assert!(effects.job.is_none());
    assert_eq!(runtime.state_label(), "waiting_result");
    assert_eq!(runtime.active_session_id(), Some(active_session_id));
}

#[test]
fn final_result_enqueues_without_waiting_for_injection_completion() {
    let (mut runtime, session_id) = runtime_waiting_for_result();
    let mut router = OverlayRouter::new();
    let effects = handle(
        final_result(session_id, "hello from daemon", 60, 1900),
        &mut runtime,
        &mut router,
    );
    assert!(effects.job.is_some());
    assert_eq!(runtime.state_label(), "idle");
}

#[test]
fn interim_overlay_messages_route_without_injection_enqueue() {
    let (mut runtime, session_id) = runtime_waiting_for_result();
    let mut router = OverlayRouter::new();
    let mut overlay = Vec::new();
    let messages = vec![
        ServerMessage::InterimState {
            session_id,
            seq: 1,
            state: "listening".to_string(),
        },
        interim_text(session_id, 2, "hello"),
        ServerMessage::SessionEnded {
            session_id,
            reason: Some("normal".to_string()),
        },
    ];
    for message in messages {
        let effects = handle(message, &mut runtime, &mut router);
        assert!(effects.job.is_none());
        overlay.extend(effects.overlay);
    }

    assert_eq!(runtime.state_label(), "waiting_result");
    assert_eq!(runtime.active_session_id(), Some(session_id));
    assert_eq!(
        overlay,
        vec![
            OverlayEvent::InterimState {
                producer: OverlayTextProducer::DaemonSttInterim,
                session_id,
                seq: 1,
                state: "listening".to_string(),
            },
            OverlayEvent::InterimText {
                producer: OverlayTextProducer::DaemonSttInterim,
                session_id,
                seq: 2,
                text: "hello".to_string(),
            },
            OverlayEvent::SessionEnded {
                session_id,
                reason: Some("normal".to_string()),
            },
        ]
    );
}

#[test]
fn mixed_stream_enqueues_exactly_one_final_result() {
    let (mut runtime, session_id) = runtime_waiting_for_result();
    let mut router = OverlayRouter::new();
    let mut jobs = Vec::new();
    let messages = vec![
        ServerMessage::InterimState {
            session_id,
            seq: 1,
            state: "processing".to_string(),
        },
        final_result(session_id, "only final injects", 40, 1200),
        interim_text(session_id, 2, "post-final overlay"),
        final_result(session_id, "only final injects", 40, 1200),
    ];
    for message in messages {
        let effects = handle(message, &mut runtime, &mut router);
        if let Some(job) = effects.job {
            jobs.push(job.text);
        }
    }
    assert_eq!(jobs, vec!["only final injects".to_string()]);
}

#[test]
fn overlay_disconnect_does_not_block_final_result_injection() {
    let (mut runtime, session_id) = runtime_waiting_for_result();
    let mut router = OverlayRouter::new();
    let mut overlay = Overlay::new(vec![true], vec![false]);
    let effects = handle(
        interim_text(session_id, 1, "overlay event while disconnected"),
        &mut runtime,
        &mut router,
    );
    overlay.send(effects.overlay);
    assert_eq!(overlay.manager.metrics().send_disconnect_total, 1);

    let effects = handle(
        final_result(session_id, "final survives overlay disconnect", 33, 777),
        &mut runtime,
        &mut router,
    );
    assert_eq!(
        effects.job.expect("final result should still enqueue").text,
        "final survives overlay disconnect"
    );
}

#[test]
fn repeated_overlay_failures_remain_non_fatal_to_final_injection() {
    let (mut runtime, session_id) = runtime_waiting_for_result();
    let mut router = OverlayRouter::new();
    let mut overlay = Overlay::new(vec![true, false, true, false, true], vec![false; 5]);
    for seq in 1..=4 {
        let effects = handle(
            interim_text(session_id, seq, &format!("overlay seq {seq}")),
            &mut runtime,
            &mut router,
        );
        overlay.send(effects.overlay);
    }
    let effects = handle(
        final_result(session_id, "final survives repeated overlay failures", 12, 345),
        &mut runtime,
        &mut router,
    );
    assert_eq!(
        effects.job.expect("final result should still enqueue").text,
        "final survives repeated overlay failures"
    );
    assert!(overlay.manager.metrics().spawn_failure_total >= 1);
    assert!(overlay.manager.metrics().send_disconnect_total >= 1);
}

#[test]
fn overlay_crash_restart_replays_current_state_and_preserves_final_injection() {
    let (mut runtime, session_id) = runtime_waiting_for_result();
    let mut router = OverlayRouter::new();
    let mut overlay = Overlay::new(vec![true, true], vec![true, true]);
    let effects = handle(
        interim_text(session_id, 1, "old-state"),
        &mut runtime,
        &mut router,
    );
    overlay.send(effects.overlay);
    assert_eq!(
        overlay.taken,
        vec![OverlayIpcMessage::InterimText {
            session_id,
            producer: OverlayTextProducer::DaemonSttInterim,
            seq: 1,
            text: "old-state".to_string(),
        }]
    );

    overlay.alive[0] = false;
    overlay.taken.clear();
    let effects = handle(
        interim_text(session_id, 2, "current-state"),
        &mut runtime,
        &mut router,
    );
    overlay.send(effects.overlay);
    assert_eq!(
        overlay.taken,
        vec![OverlayIpcMessage::InterimText {
            session_id,
            producer: OverlayTextProducer::DaemonSttInterim,
            seq: 2,
            text: "current-state".to_string(),
        }]
    );

    let effects = handle(
        final_result(session_id, "final after overlay restart", 45, 1000),
        &mut runtime,
        &mut router,
    );
    assert_eq!(
        effects.job.expect("final result should still enqueue").text,
        "final after overlay restart"
    );
    assert_eq!(overlay.manager.metrics().send_disconnect_total, 1);
    assert_eq!(overlay.manager.metrics().replay_sent_total, 1);
    assert_eq!(overlay.manager.metrics().spawn_success_total, 2);
}

#[test]
fn daemon_interim_text_requires_active_session_and_fresh_sequence() {
    let (mut runtime, session_id) = runtime_waiting_for_result();
    let stale_session_id = SessionId::fresh();
    let mut router = OverlayRouter::new();
    let mut overlay = Vec::new();
    for message in [
        interim_text(stale_session_id, 1, "stale session"),
        interim_text(session_id, 10, "newest"),
        interim_text(session_id, 9, "stale"),
    ] {
        let effects = handle(message, &mut runtime, &mut router);
        assert!(effects.job.is_none());
        overlay.extend(effects.overlay);
    }
    runtime.reset();
    let effects = handle(
        interim_text(session_id, 11, "late daemon after reset"),
        &mut runtime,
        &mut router,
    );
    assert!(effects.job.is_none());
    overlay.extend(effects.overlay);

    assert_eq!(
        overlay,
        vec![OverlayEvent::InterimText {
            producer: OverlayTextProducer::DaemonSttInterim,
            session_id,
            seq: 10,
            text: "newest".to_string(),
        }]
    );
}

#[test]
fn hotkeys_are_ignored_out_of_turn() {
    let mut runtime = ClientSessionRuntime::new();
    match runtime.handle_hotkey_up() {
        ClientSessionAction::IgnoreHotkeyUp { reason, snapshot } => {
            assert_eq!(reason, ClientSessionIgnoredHotkeyReason::NotListening);
            assert_eq!(reason.as_str(), "not_listening");
            assert_eq!(snapshot.state, "idle");
        }
        other => panic!("expected an ignored release, got {other:?}"),
    }
    match runtime.handle_hotkey_down(
        SessionIntent::LlmQuery,
        Some(ClientSessionStartBlocker::LlmBusy),
    ) {
        ClientSessionAction::IgnoreHotkeyDown { reason, snapshot } => {
            assert_eq!(reason.as_str(), "llm_busy");
            assert_eq!(snapshot.state, "idle");
            assert_eq!(snapshot.active_session_id, None);
            assert_eq!(snapshot.active_intent, None);
        }
        other => panic!("expected an ignored press, got {other:?}"),
    }
    let session_id = SessionId { bits: 9 };
    match runtime.hotkey_down_as(SessionIntent::Dictate, None, session_id) {
        ClientSessionAction::StartSession {
            session_id: id,
            intent,
        } => {
            assert_eq!(id, session_id);
            assert_eq!(intent, SessionIntent::Dictate);
        }
        other => panic!("expected a start, got {other:?}"),
    }
    match runtime.handle_hotkey_down(SessionIntent::Dictate, None) {
        ClientSessionAction::IgnoreHotkeyDown { reason, snapshot } => {
            assert_eq!(reason.as_str(), "not_idle");
            assert_eq!(snapshot.state, "listening");
            assert_eq!(snapshot.active_session_id, Some(session_id));
        }
        other => panic!("expected an ignored press, got {other:?}"),
    }
    match runtime.handle_hotkey_up() {
        ClientSessionAction::StopSession { session_id: id } => assert_eq!(id, session_id),
        other => panic!("expected a stop, got {other:?}"),
    }
}

#[test]
fn answer_pieces_add_up() {
    let mut runtime = ClientSessionRuntime::new();
    let session_id = SessionId { bits: 3 };
    assert_eq!(runtime.start_llm_answer(session_id), 1);
    for (seq, delta, text) in [(2, "A ", "A "), (3, "lock", "A lock"), (4, ".", "A lock.")] {
        assert_eq!(
            runtime.record_llm_delta(session_id, delta.to_string()),
            Some(LlmDeltaOverlay {
                seq,
                text: text.to_string()
            })
        );
    }
    assert_eq!(
        runtime.record_llm_delta(SessionId { bits: 4 }, "x".to_string()),
        None
    );
}

#[test]
fn times_that_lie_ahead_count_as_now() {
    assert_eq!(elapsed_ms_since(Some(10), 25), Some(15));
    assert_eq!(elapsed_ms_since(Some(30), 25), Some(0));
    assert_eq!(elapsed_ms_since(None, 25), None);
}

#[test]
fn error_codes_have_their_classes() {
    for (code, kind) in [
        ("SESSION_BUSY", "session_busy"),
        ("SESSION_NOT_FOUND", "session_not_found"),
        ("SESSION_ABORTED", "session_aborted"),
        ("AUDIO_DEVICE", "audio_device"),
        ("MODEL", "model"),
        ("INVALID_REQUEST", "invalid_request"),
        ("UNEXPECTED", "unexpected"),
        ("session_busy", "unknown"),
    ] {
        assert_eq!(classify_error_code(code), kind);
    }
}
