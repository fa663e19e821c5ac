use parakeet_ptt::app::{
    demo_end, demo_message, demo_report, demo_start, next_backoff_ms, percentile_value, ClientCore,
    DemoStep, EvdevHotkeySource, HotkeyIntentDiagnostics, LagMonitor, LagSummary,
    INITIAL_BACKOFF_MS, MAX_BACKOFF_MS,
};
use parakeet_ptt::client_session::SessionIntent;
use parakeet_ptt::config::{
    ClientConfig, ClipboardOptions, InjectionConfig, InjectionMode, PasteBackendFailurePolicy,
    PasteKeyBackend,
};
use parakeet_ptt::hotkey::{HotkeyIntent, CODE_RIGHTCTRL, CODE_RIGHTSHIFT};
use parakeet_ptt::injector::{KeyCode, CODE_LEFTSHIFT};
use parakeet_ptt::injector_runtime::{
    worker_report, InjectionJob, InjectionOrigin, InjectionRunError, InjectionRunOutput, WorkerRun,
};
use parakeet_ptt::llm::LlmProgress;
use parakeet_ptt::overlay_ipc::OverlayTextProducer;
use parakeet_ptt::overlay_router::OverlayEvent;
use parakeet_ptt::protocol::{
    format_daemon_status, ClientMessage, DaemonStatus, ServerMessage, SessionId,
};

fn no_hint() -> Option<String> {
    None
}

fn config_with_hotkey(hotkey: &str) -> ClientConfig {
    ClientConfig::new(
        "test://daemon/ws",
        None,
        hotkey.to_string(),
        InjectionConfig {
            ydotool_path: None,
            uinput_dwell_ms: 18,
            injection_mode: InjectionMode::Paste,
            clipboard: ClipboardOptions {
                key_backend: PasteKeyBackend::Uinput,
                backend_failure_policy: PasteBackendFailurePolicy::CopyOnly,
                post_chord_hold_ms: 700,
                seat: None,
                write_primary: false,
            },
        },
        25,
    )
    .expect("test app config should be valid")
}

fn final_result(session_id: SessionId, text: &str, latency_ms: u64, audio_ms: u64) -> ServerMessage {
    ServerMessage::FinalResult {
        session_id,
        text: text.to_string(),
        latency_ms,
        audio_ms,
        lang: Some("en".to_string()),
        confidence: None,
    }
}

fn start(core: &mut ClientCore, intent: HotkeyIntent) -> SessionId {
    let session_id = SessionId::fresh();
    let effects = core.hotkey_down_as(intent, session_id, no_hint);
    match effects.send {
        Some(ClientMessage::StartSession { session_id: id, .. }) => {
            assert_eq!(id, session_id);
        }
        other => panic!("expected start_session, got {other:?}"),
    }
    session_id
}

fn stop(core: &mut ClientCore, session_id: SessionId) {
    let effects = core.hotkey_up();
    match effects.send {
        Some(ClientMessage::StopSession { session_id: id }) => assert_eq!(id, session_id),
        other => panic!("expected stop_session, got {other:?}"),
    }
    assert_eq!(effects.stopped, Some(session_id));
    core.stop_sent(session_id, None, 1_000);
}

#[test]
fn hotkey_intent_diagnostics_tracks_intent_split_and_ignored_paths() {
    let mut diagnostics = HotkeyIntentDiagnostics::default();
    diagnostics.note_hotkey_down(SessionIntent::Dictate);
    diagnostics.note_hotkey_down(SessionIntent::LlmQuery);
    diagnostics.note_hotkey_down_ignored();
    diagnostics.note_hotkey_up();
    diagnostics.note_hotkey_up_ignored();

    assert_eq!(diagnostics.hotkey_down_total, 2);
    assert_eq!(diagnostics.hotkey_down_dictate_total, 1);
    assert_eq!(diagnostics.hotkey_down_llm_query_total, 1);
    assert_eq!(diagnostics.hotkey_down_ignored_total, 1);
    assert_eq!(diagnostics.hotkey_up_total, 1);
    assert_eq!(diagnostics.hotkey_up_ignored_total, 1);
}

#[test]
fn hotkey_intent_diagnostics_tracks_llm_busy_rejections() {
    let mut diagnostics = HotkeyIntentDiagnostics::default();
    diagnostics.note_llm_busy_reject();
    diagnostics.note_llm_busy_reject();

    assert_eq!(diagnostics.llm_busy_reject_total, 2);
}

#[test]
fn app_hotkey_press_sends_start_session_message() {
    let mut core = ClientCore::new();
    let effects = core.hotkey_down_as(HotkeyIntent::Dictate, SessionId::fresh(), no_hint);
    assert!(
        effects.overlay.is_empty(),
        "start-session hotkey path should not emit Overlay events before Daemon response"
    );
    match effects.send {
        Some(ClientMessage::StartSession {
            mode,
            preferred_lang,
            ..
        }) => {
            assert_eq!(mode, "push_to_talk");
            assert_eq!(preferred_lang.as_deref(), Some("auto"));
        }
        other => panic!("expected start_session, got {other:?}"),
    }
}

#[test]
fn app_hotkey_release_sends_stop_session_message() {
    let mut core = ClientCore::new();
    let active_session_id = start(&mut core, HotkeyIntent::Dictate);
    let effects = core.hotkey_up();
    match effects.send {
        Some(ClientMessage::StopSession { session_id }) => {
            assert_eq!(session_id, active_session_id);
        }
        other => panic!("expected stop_session, got {other:?}"),
    }
}

#[test]
fn app_llm_query_ignores_stale_final_before_answer_generation() {
    let mut core = ClientCore::new();
    let active_session_id = start(&mut core, HotkeyIntent::LlmQuery);
    stop(&mut core, active_session_id);

    let stale = core.daemon_message(
        final_result(SessionId::fresh(), "stale private transcript", 44, 1200),
        1_010,
        no_hint,
    );
    assert!(stale.query.is_none());
    assert!(stale.job.is_none());

    let current = core.daemon_message(
        final_result(active_session_id, "current private transcript", 55, 1500),
        1_020,
        no_hint,
    );
    assert!(current.job.is_none());
    let query = current.query.expect("a question for the model");
    assert_eq!(query.session_id, active_session_id);
    assert_eq!(query.transcript, "current private transcript");

    let done = core.llm_progress(
        LlmProgress::Finished {
            session_id: query.session_id,
            transcript: query.transcript,
            daemon_latency_ms: query.daemon_latency_ms,
            daemon_audio_ms: query.daemon_audio_ms,
            result: Ok("test answer".to_string()),
        },
        1_100,
        no_hint,
    );
    let job = done.job.expect("the answer is injected");
    assert_eq!(job.text, "test answer");
    assert_eq!(job.origin, InjectionOrigin::LlmAnswer);
    assert_eq!(job.daemon_latency_ms, 55);
    assert_eq!(job.daemon_audio_ms, 1500);
}

#[test]
fn app_llm_answer_deltas_route_with_independent_overlay_producer() {
    let mut core = ClientCore::new();
    let active_session_id = start(&mut core, HotkeyIntent::LlmQuery);
    stop(&mut core, active_session_id);

    let mut overlay = Vec::new();
    let interim = core.daemon_message(
        ServerMessage::InterimText {
            session_id: active_session_id,
            seq: 10,
            text: "daemon interim transcript".to_string(),
        },
        1_010,
        no_hint,
    );
    overlay.extend(interim.overlay);
    let asked = core.daemon_message(
        final_result(active_session_id, "private prompt", 55, 1500),
        1_020,
        no_hint,
    );
    overlay.extend(asked.overlay);
    let query = asked.query.expect("a question for the model");
    assert_eq!(query.transcript, "private prompt");
    for delta in ["answer", " delta"] {
        let shown = core.llm_progress(
            LlmProgress::Delta {
                session_id: active_session_id,
                delta: delta.to_string(),
            },
            1_050,
            no_hint,
        );
        assert!(shown.job.is_none());
        overlay.extend(shown.overlay);
    }
    let done = core.llm_progress(
        LlmProgress::Finished {
            session_id: active_session_id,
            transcript: query.transcript,
            daemon_latency_ms: 55,
            daemon_audio_ms: 1500,
            result: Ok("answer delta".to_string()),
        },
        1_100,
        no_hint,
    );
    assert_eq!(done.job.expect("the answer is injected").text, "answer delta");
    overlay.extend(done.overlay);

    let overlay_text_events: Vec<OverlayEvent> = overlay
        .into_iter()
        .filter(|event| {
            matches!(
                event,
                OverlayEvent::InterimState { .. } | OverlayEvent::InterimText { .. }
            )
        })
        .collect();
    assert_eq!(
        overlay_text_events,
        vec![
            OverlayEvent::InterimText {
                producer: OverlayTextProducer::DaemonSttInterim,
                session_id: active_session_id,
                seq: 10,
                text: "daemon interim transcript".to_string(),
            },
            OverlayEvent::InterimState {
                producer: OverlayTextProducer::LlmAnswerDelta,
                session_id: active_session_id,
                seq: 1,
                state: "Generating answer...".to_string(),
            },
            OverlayEvent::InterimText {
                producer: OverlayTextProducer::LlmAnswerDelta,
                session_id: active_session_id,
                seq: 2,
                text: "answer".to_string(),
            },
            OverlayEvent::InterimText {
                producer: OverlayTextProducer::LlmAnswerDelta,
                session_id: active_session_id,
                seq: 3,
                text: "answer delta".to_string(),
            },
        ]
    );
}

#[test]
fn no_session_starts_while_an_answer_is_made() {
    let mut core = ClientCore::new();
    let session_id = start(&mut core, HotkeyIntent::LlmQuery);
    stop(&mut core, session_id);
    let asked = core.daemon_message(final_result(session_id, "what", 1, 2), 1_010, no_hint);
    assert!(asked.query.is_some());

    let refused = core.hotkey_down_as(HotkeyIntent::Dictate, SessionId::fresh(), no_hint);
    assert!(refused.send.is_none());
    assert_eq!(
        refused.overlay,
        vec![OverlayEvent::InterimState {
            producer: OverlayTextProducer::LlmAnswerDelta,
            session_id: SessionId::nil(),
            seq: 1,
            state: "LLM busy; wait for current answer".to_string(),
        }, OverlayEvent::SessionEnded {
            session_id: SessionId::nil(),
            reason: Some("busy".to_string()),
        }]
    );
    assert_eq!(core.diagnostics.llm_busy_reject_total, 1);

    let ended = core.daemon_message(
        ServerMessage::SessionEnded {
            session_id,
            reason: Some("normal".to_string()),
        },
        1_020,
        no_hint,
    );
    assert!(ended.overlay.is_empty());
    let failed = core.llm_progress(
        LlmProgress::Finished {
            session_id,
            transcript: "what".to_string(),
            daemon_latency_ms: 1,
            daemon_audio_ms: 2,
            result: Err("unreachable".to_string()),
        },
        1_030,
        no_hint,
    );
    assert_eq!(
        failed.job.expect("the question stands in for the answer").text,
        "what"
    );
    assert_eq!(
        failed.overlay,
        vec![OverlayEvent::SessionEnded {
            session_id,
            reason: Some("normal".to_string()),
        }]
    );
    assert!(failed.reset_overlay_target);
    start(&mut core, HotkeyIntent::Dictate);
}

#[test]
fn reports_reach_the_overlay_and_the_ear() {
    let core = ClientCore::new();
    let session_id = SessionId { bits: 5 };
    let job = InjectionJob::new(session_id, "text".to_string(), 1, 2, 10);
    let good = worker_report(
        &job,
        20,
        30,
        WorkerRun::Ran(Ok(InjectionRunOutput::default())),
    );
    let heard = core.injection_report(&good);
    assert!(heard.play_completion);
    assert_eq!(
        heard.overlay,
        vec![OverlayEvent::InjectionComplete {
            session_id,
            success: true
        }]
    );
    let bad = worker_report(
        &job,
        20,
        30,
        WorkerRun::Ran(Err(InjectionRunError::BackendFailure("no".to_string()))),
    );
    let silent = core.injection_report(&bad);
    assert!(!silent.play_completion);
    assert_eq!(
        silent.overlay,
        vec![OverlayEvent::InjectionComplete {
            session_id,
            success: false
        }]
    );
}

#[test]
fn a_dropped_connection_forgets_the_session() {
    let mut core = ClientCore::new();
    let session_id = start(&mut core, HotkeyIntent::Dictate);
    core.connection_dropped();
    let late = core.daemon_message(final_result(session_id, "late", 1, 2), 1_010, no_hint);
    assert!(late.job.is_none());
    start(&mut core, HotkeyIntent::Dictate);
}

#[test]
fn counters_are_logged_now_and_then() {
    let mut diagnostics = HotkeyIntentDiagnostics::default();
    assert!(!diagnostics.maybe_log_summary());
    for _ in 0..10 {
        diagnostics.note_hotkey_down(SessionIntent::Dictate);
        diagnostics.note_hotkey_up();
    }
    assert!(diagnostics.maybe_log_summary());
    assert!(!diagnostics.maybe_log_summary());
}

#[test]
fn backoff_doubles_up_to_its_limit() {
    let mut backoff = INITIAL_BACKOFF_MS;
    let mut seen = vec![backoff];
    for _ in 0..6 {
        backoff = next_backoff_ms(backoff);
        seen.push(backoff);
    }
    assert_eq!(seen, vec![500, 1_000, 2_000, 4_000, 8_000, 10_000, 10_000]);
    assert_eq!(MAX_BACKOFF_MS, 10_000);
}

#[test]
fn percentiles_are_taken_from_the_sorted_samples() {
    let samples: Vec<u64> = (1..=100).collect();
    assert_eq!(percentile_value(&samples, 0), 1);
    assert_eq!(percentile_value(&samples, 100), 100);
    assert_eq!(percentile_value(&vec![], 50), 0);
    assert_eq!(percentile_value(&vec![7], 99), 7);
}

#[test]
fn lag_is_summed_up_after_its_interval() {
    let mut monitor = LagMonitor::new(0);
    assert_eq!(monitor.tick(9, 100), None);
    assert_eq!(monitor.tick(1, 200), None);
    assert_eq!(
        monitor.tick(5, 30_000),
        Some(LagSummary {
            sample_count: 3,
            lag_p50_ms: 5,
            lag_p95_ms: 5,
            lag_p99_ms: 5,
        })
    );
    assert_eq!(monitor.tick(5, 30_001), None);
}

#[test]
fn key_names_of_a_configuration_are_looked_up() {
    let source = EvdevHotkeySource::new("KEY_SHIFT".to_string());
    let (talk, modifiers) = source
        .keys(&config_with_hotkey("KEY_RIGHTCTRL"))
        .expect("known keys");
    assert_eq!(talk, KeyCode { code: CODE_RIGHTCTRL });
    assert_eq!(
        modifiers,
        vec![
            KeyCode { code: CODE_LEFTSHIFT },
            KeyCode { code: CODE_RIGHTSHIFT }
        ]
    );
    let error = source
        .keys(&config_with_hotkey("KEY_NOT_REAL"))
        .expect_err("an unknown key");
    assert!(error.context.contains("KEY_NOT_REAL") || error.cause.contains("KEY_NOT_REAL"));
    let unknown = EvdevHotkeySource::new("KEY_NOT_REAL".to_string());
    assert!(unknown.keys(&config_with_hotkey("KEY_RIGHTCTRL")).is_err());
}

#[test]
fn a_demo_injects_the_final_result_or_its_substitute() {
    let session_id = SessionId { bits: 11 };
    let (runtime, begin, end) = demo_start(session_id);
    assert!(matches!(begin, ClientMessage::StartSession { session_id: id, .. } if id == session_id));
    assert!(matches!(end, ClientMessage::StopSession { session_id: id } if id == session_id));
    match demo_message(&runtime, final_result(session_id, "heard", 1, 2), &None, 5) {
        DemoStep::Inject(job) => {
            assert_eq!(job.text, "heard");
            assert_eq!(job.origin, InjectionOrigin::Demo);
        }
        other => panic!("expected an injection, got {other:?}"),
    }
    match demo_message(
        &runtime,
        final_result(session_id, "heard", 1, 2),
        &Some("instead".to_string()),
        5,
    ) {
        DemoStep::Inject(job) => assert_eq!(job.text, "instead"),
        other => panic!("expected an injection, got {other:?}"),
    }
    let job = InjectionJob::new(session_id, "heard".to_string(), 1, 2, 5);
    let good = worker_report(&job, 6, 7, WorkerRun::Ran(Ok(InjectionRunOutput::default())));
    assert!(demo_report(&good).is_ok());
    let bad = worker_report(&job, 6, 7, WorkerRun::TaskFailed("lost".to_string()));
    assert_eq!(
        demo_report(&bad),
        Err(format!("demo injection failed: {}", bad.error.clone().expect("an error")))
    );
    assert!(demo_end(true).is_ok());
    assert_eq!(demo_end(false), Err("demo did not reach final injection"));
    match demo_message(
        &runtime,
        ServerMessage::Error {
            session_id: Some(session_id),
            code: "MODEL".to_string(),
            message: "no weights".to_string(),
        },
        &None,
        5,
    ) {
        DemoStep::Fail(why) => assert_eq!(
            why,
            "demo failed: daemon returned error for session \
             Some(00000000-0000-0000-0000-00000000000b): MODEL: no weights"
        ),
        other => panic!("expected a failure, got {other:?}"),
    }
}

#[test]
fn a_status_is_told_field_by_field() {
    let status = DaemonStatus {
        fields: vec![
            ("type".to_string(), "\"status\"".to_string()),
            ("state".to_string(), "\"idle\"".to_string()),
            ("sessions_active".to_string(), "0".to_string()),
            ("gpu_mem_mb".to_string(), "null".to_string()),
        ],
    };
    assert_eq!(
        format_daemon_status(&status),
        "Daemon status: type=\"status\", state=\"idle\", sessions_active=0, gpu_mem_mb=null"
    );
}
