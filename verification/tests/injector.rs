use std::cell::Cell;
use std::collections::hash_map::DefaultHasher;
use std::hash::{Hash, Hasher};

use parakeet_ptt::config::PasteShortcut;
use parakeet_ptt::injector::{
    backend_attempt_report, child_report, child_timeout_message, child_wait, choose_route,
    chord_steps, failure_stage, fingerprint, injector_metrics_snapshot,
    next_clipboard_ready_sleep_ms, no_route, preview, primary_foreground, run_route_shortcuts,
    run_shortcut_for_route, sender_name, shortcut_plan, wl_copy_args, wl_paste_args, BackendAttemptOutcome,
    ChildWait, ChordStep, FailInjector, FlowAction, FlowEvent, FlowPhase, InjectionFlow,
    InjectionOutcome, InjectionStage, InjectorMetrics, KeyCode, PasteChordSender, PasteKeySender,
    RouteDecision, ShortcutAttemptContext, TextInjector, UinputAttemptMetadata, CODE_LEFTCTRL,
    CODE_LEFTSHIFT, CODE_V,
};

/// A sender whose first sends fail.
#[derive(Debug)]
struct Sender {
    failures: Cell<u64>,
    sends: Cell<u64>,
}

impl Sender {
    fn failing(failures: u64) -> Sender {
        Sender {
            failures: Cell::new(failures),
            sends: Cell::new(0),
        }
    }
}

impl PasteChordSender for Sender {
    fn send_shortcut(&self, _shortcut: PasteShortcut) -> Result<(), String> {
        self.sends.set(self.sends.get() + 1);
        if self.failures.get() > 0 {
            self.failures.set(self.failures.get() - 1);
            return Err("no device".to_string());
        }
        Ok(())
    }

    fn backend_config(&self) -> Option<String> {
        Some("dwell_ms=18".to_string())
    }
}

fn uinput(failures: u64) -> PasteKeySender<Sender> {
    PasteKeySender::Uinput {
        sender: Sender::failing(failures),
        metadata: None,
    }
}

#[test]
fn uinput_shortcut_plan_ctrl_shift_v() {
    let (modifiers, key) = shortcut_plan(PasteShortcut::CtrlShiftV);
    assert_eq!(
        modifiers,
        [
            KeyCode { code: CODE_LEFTCTRL },
            KeyCode { code: CODE_LEFTSHIFT }
        ]
    );
    assert_eq!(key, KeyCode { code: CODE_V });
}

#[test]
fn route_fallback_failure_reports_attempt_details() {
    let mut metrics = InjectorMetrics::default();
    let message = run_route_shortcuts::<Sender>(
        PasteShortcut::CtrlShiftV,
        Some(PasteShortcut::CtrlV),
        &PasteKeySender::Disabled,
        &mut Vec::new(),
        &mut metrics,
    )
    .expect_err("expected route fallback failure");
    assert!(message.contains("all route shortcut attempts failed"));
    assert!(message.contains("primary"));
    assert!(message.contains("adaptive_fallback"));
}

#[test]
fn backend_failures_are_stage_tagged() {
    let mut metrics = InjectorMetrics::default();
    let message = run_shortcut_for_route::<Sender>(
        "primary",
        1,
        1,
        PasteShortcut::CtrlV,
        &PasteKeySender::Disabled,
        &mut Vec::new(),
        &mut metrics,
    )
    .expect_err("disabled backend should fail");
    assert!(message.contains("stage=backend"));
}

#[test]
fn route_failures_are_stage_tagged() {
    let mut metrics = InjectorMetrics::default();
    let message = run_route_shortcuts::<Sender>(
        PasteShortcut::CtrlShiftV,
        Some(PasteShortcut::CtrlV),
        &PasteKeySender::Disabled,
        &mut Vec::new(),
        &mut metrics,
    )
    .expect_err("disabled backend should fail route stage");
    assert!(message.contains("stage=route_shortcut"));
}

#[test]
fn clipboard_ready_schedule_uses_progressive_backoff() {
    assert_eq!(next_clipboard_ready_sleep_ms(1), 5);
    assert_eq!(next_clipboard_ready_sleep_ms(2), 10);
    assert_eq!(next_clipboard_ready_sleep_ms(3), 15);
    assert_eq!(next_clipboard_ready_sleep_ms(4), 20);
    assert_eq!(next_clipboard_ready_sleep_ms(7), 50);
    assert_eq!(next_clipboard_ready_sleep_ms(8), 70);
    assert_eq!(next_clipboard_ready_sleep_ms(9), 70);
    assert_eq!(next_clipboard_ready_sleep_ms(128), 70);
}

#[test]
fn backend_attempt_report_includes_uinput_lifecycle_metadata() {
    let report = backend_attempt_report(
        ShortcutAttemptContext {
            route_attempt_name: "primary",
            route_attempt_index: 1,
            route_attempt_total: 1,
            backend_attempt_index: 1,
            backend_attempt_total: 1,
        },
        "uinput",
        "CtrlShiftV",
        BackendAttemptOutcome {
            status: "ok",
            duration_ms: 12,
            exit_status: None,
            stderr_excerpt: None,
            warning_tags: Vec::new(),
            backend_config: Some("dwell_ms=18".to_string()),
            error: None,
            uinput_metadata: Some(UinputAttemptMetadata {
                generation: 4,
                fresh_device: true,
                device_age_ms_at_attempt: 203,
                use_count_before_attempt: 0,
                created_this_job: true,
                create_elapsed_ms: Some(7),
                last_create_error: None,
                reused_after_failure: true,
            }),
        },
    );

    assert_eq!(report.uinput_sender_generation, Some(4));
    assert_eq!(report.uinput_fresh_device, Some(true));
    assert_eq!(report.uinput_device_age_ms_at_attempt, Some(203));
    assert_eq!(report.uinput_use_count_before_attempt, Some(0));
    assert_eq!(report.uinput_created_this_job, Some(true));
    assert_eq!(report.uinput_create_elapsed_ms, Some(7));
    assert_eq!(report.uinput_last_create_error, None);
    assert_eq!(report.uinput_reused_after_failure, Some(true));
}

#[test]
fn the_fallback_is_sent_only_where_the_first_shortcut_fails() {
    let mut metrics = InjectorMetrics::default();
    let mut attempts = Vec::new();
    let sender = uinput(0);
    assert!(run_route_shortcuts(
        PasteShortcut::CtrlShiftV,
        Some(PasteShortcut::CtrlV),
        &sender,
        &mut attempts,
        &mut metrics,
    )
    .is_ok());
    assert_eq!(attempts.len(), 1);
    assert_eq!(attempts[0].route_attempt_name, "primary");
    assert_eq!(attempts[0].route_attempt_total, 2);
    assert_eq!(attempts[0].shortcut, "CtrlShiftV");
    assert_eq!(attempts[0].status, "ok");
    assert_eq!(attempts[0].backend, sender_name(&sender));
    assert_eq!(attempts[0].backend_config.as_deref(), Some("dwell_ms=18"));

    let sender = uinput(1);
    assert!(run_route_shortcuts(
        PasteShortcut::CtrlShiftV,
        Some(PasteShortcut::CtrlV),
        &sender,
        &mut attempts,
        &mut metrics,
    )
    .is_ok());
    assert_eq!(attempts.len(), 3);
    assert!(attempts[1].error.is_some());
    assert_eq!(attempts[2].route_attempt_name, "adaptive_fallback");
    assert_eq!(attempts[2].shortcut, "CtrlV");
    assert!(attempts[2].error.is_none());

    let snapshot = injector_metrics_snapshot(&metrics);
    assert_eq!(snapshot.route_shortcut_success_total, 2);
    assert_eq!(snapshot.route_shortcut_failure_total, 0);
    assert_eq!(snapshot.backend_success_total, 2);
    assert_eq!(snapshot.backend_failure_total, 1);
}

#[test]
fn a_route_without_a_sender_names_every_attempt() {
    let mut metrics = InjectorMetrics::default();
    let mut attempts = Vec::new();
    let message = run_route_shortcuts::<Sender>(
        PasteShortcut::CtrlShiftV,
        Some(PasteShortcut::CtrlV),
        &PasteKeySender::Disabled,
        &mut attempts,
        &mut metrics,
    )
    .expect_err("there is no way to send");
    assert_eq!(
        message,
        "stage=route_shortcut all route shortcut attempts failed: \
         primary(CtrlShiftV): stage=backend paste key sender is disabled | \
         adaptive_fallback(CtrlV): stage=backend paste key sender is disabled"
    );
    assert_eq!(attempts.len(), 2);
    for (attempt, name) in attempts.iter().zip(["primary", "adaptive_fallback"]) {
        assert_eq!(attempt.route_attempt_name, name);
        assert_eq!(attempt.backend, "disabled");
        assert_eq!(attempt.status, "error");
        assert_eq!(
            attempt.error.as_deref(),
            Some("stage=backend paste key sender is disabled")
        );
        assert_eq!(attempt.exit_status, None);
        assert_eq!(attempt.stderr_excerpt, None);
        assert!(attempt.warning_tags.is_empty());
        assert_eq!(attempt.backend_config, None);
        assert_eq!(attempt.uinput_sender_generation, None);
    }
}

#[test]
fn an_attempt_reports_its_sender() {
    let mut metrics = InjectorMetrics::default();
    let mut attempts = Vec::new();
    let sender = PasteKeySender::Uinput {
        sender: Sender::failing(1),
        metadata: Some(UinputAttemptMetadata {
            generation: 4,
            fresh_device: true,
            device_age_ms_at_attempt: 203,
            use_count_before_attempt: 3,
            created_this_job: false,
            create_elapsed_ms: Some(7),
            last_create_error: Some("busy".to_string()),
            reused_after_failure: true,
        }),
    };
    assert!(run_route_shortcuts(
        PasteShortcut::CtrlShiftV,
        Some(PasteShortcut::CtrlV),
        &sender,
        &mut attempts,
        &mut metrics,
    )
    .is_ok());
    if let PasteKeySender::Uinput { sender, .. } = &sender {
        assert_eq!(sender.sends.get(), 2);
    }
    assert_eq!(
        attempts[0].error.as_deref(),
        Some("stage=backend failed to emit paste key chord CtrlShiftV via uinput: no device")
    );
    assert_eq!(attempts[1].error, None);
    for attempt in &attempts {
        assert_eq!(attempt.backend, "uinput");
        assert_eq!(attempt.backend_config.as_deref(), Some("dwell_ms=18"));
        assert_eq!(attempt.uinput_sender_generation, Some(4));
        assert_eq!(attempt.uinput_use_count_before_attempt, Some(3));
        assert_eq!(attempt.uinput_last_create_error.as_deref(), Some("busy"));
    }
}

#[test]
fn later_snapshots_are_not_smaller() {
    let mut metrics = InjectorMetrics::default();
    metrics.note_stage_success(InjectionStage::Backend, 5);
    let first = injector_metrics_snapshot(&metrics);
    assert_eq!(injector_metrics_snapshot(&metrics), first);
    metrics.note_copy_launch();
    metrics.note_paste_launch();
    metrics.note_paste_launch();
    metrics.note_stage_failure(InjectionStage::Backend, 7);
    let second = injector_metrics_snapshot(&metrics);
    assert_eq!(second.wl_copy_spawn_total, first.wl_copy_spawn_total + 1);
    assert_eq!(second.wl_paste_spawn_total, first.wl_paste_spawn_total + 2);
    assert_eq!(second.backend_success_total, first.backend_success_total);
    assert_eq!(second.backend_failure_total, first.backend_failure_total + 1);
    assert_eq!(second.backend_duration_ms_total, 12);
}

#[test]
fn a_route_whose_backend_failed_is_a_failure_of_the_backend() {
    let mut metrics = InjectorMetrics::default();
    let error = run_route_shortcuts(
        PasteShortcut::CtrlV,
        None,
        &uinput(1),
        &mut Vec::new(),
        &mut metrics,
    )
    .expect_err("the sender fails");
    assert_eq!(failure_stage(&error), InjectionStage::Backend);
    assert_eq!(failure_stage("stage=route_shortcut"), InjectionStage::RouteShortcut);
    assert_eq!(metrics.route_shortcut_failure_total, 1);
    assert_eq!(InjectionStage::RouteShortcut.as_str(), "route_shortcut");
    assert_eq!(InjectionStage::ClipboardReady.as_str(), "clipboard_ready");
    assert_eq!(InjectionStage::Backend.as_str(), "backend");
}

#[test]
fn a_chord_goes_down_and_comes_up_in_reverse() {
    let key = |code: u16, down: bool| ChordStep::Key {
        key: KeyCode { code },
        down,
    };
    assert_eq!(
        chord_steps(PasteShortcut::CtrlShiftV),
        vec![
            key(CODE_LEFTCTRL, true),
            key(CODE_LEFTSHIFT, true),
            key(CODE_V, true),
            ChordStep::Dwell,
            key(CODE_V, false),
            key(CODE_LEFTSHIFT, false),
            key(CODE_LEFTCTRL, false),
        ]
    );
}

fn read(value: Option<&str>, waited_ms: u64) -> FlowEvent {
    FlowEvent::Read {
        value: value.map(|v| v.to_string()),
        waited_ms,
    }
}

fn focused() -> FlowEvent {
    FlowEvent::Focused {
        primary: PasteShortcut::CtrlV,
        fallback: None,
    }
}

fn to_the_probe(flow: &mut InjectionFlow) {
    assert_eq!(
        flow.step(FlowEvent::Started),
        FlowAction::ReadClipboard { primary: false }
    );
    assert_eq!(flow.step(read(Some("before"), 0)), FlowAction::WriteClipboards);
    assert_eq!(
        flow.step(FlowEvent::Wrote { result: Ok(()) }),
        FlowAction::ReadClipboard { primary: false }
    );
}

#[test]
fn a_paste_goes_from_clipboard_to_chord_to_hand_over() {
    let mut flow = InjectionFlow::new("text", false, false, 700);
    to_the_probe(&mut flow);
    assert_eq!(flow.step(read(Some("before"), 1)), FlowAction::Sleep { ms: 5 });
    assert_eq!(
        flow.step(FlowEvent::Slept),
        FlowAction::ReadClipboard { primary: false }
    );
    assert_eq!(flow.step(read(Some("text"), 7)), FlowAction::ResolveFocus);
    assert!(flow.clipboard_ready());
    assert_eq!(flow.probe_count(), 2);
    assert_eq!(
        flow.step(focused()),
        FlowAction::SendRoute {
            primary: PasteShortcut::CtrlV,
            fallback: None
        }
    );
    assert_eq!(
        flow.step(FlowEvent::Routed { result: Ok(()) }),
        FlowAction::Sleep { ms: 700 }
    );
    assert_eq!(
        flow.step(FlowEvent::Slept),
        FlowAction::ReadClipboard { primary: false }
    );
    assert_eq!(flow.step(read(Some("text"), 0)), FlowAction::ResolveFocus);
    assert_eq!(flow.step(focused()), FlowAction::TransferToBackground);
    assert_eq!(
        flow.step(FlowEvent::Transferred),
        FlowAction::Finish {
            result: Ok(()),
            report: true
        }
    );
    assert_eq!(flow.outcome(), InjectionOutcome::SuccessAssumed);
    assert_eq!(flow.post_clipboard_matches(), Some(true));
    assert_eq!(flow.phase(), FlowPhase::Done);
}

#[test]
fn copying_sends_no_chord() {
    let mut flow = InjectionFlow::new("text", true, false, 700);
    to_the_probe(&mut flow);
    assert_eq!(flow.step(read(Some("text"), 7)), FlowAction::TransferToBackground);
    assert_eq!(
        flow.step(FlowEvent::Transferred),
        FlowAction::Finish {
            result: Ok(()),
            report: true
        }
    );
    assert_eq!(flow.outcome(), InjectionOutcome::CopyOnly);
}

#[test]
fn a_failed_route_still_hands_the_clipboards_over() {
    let mut flow = InjectionFlow::new("text", false, false, 0);
    to_the_probe(&mut flow);
    // The clipboard never shows the text; when the time is up the paste goes on.
    assert_eq!(flow.step(read(None, 250)), FlowAction::ResolveFocus);
    assert!(!flow.clipboard_ready());
    flow.step(focused());
    assert_eq!(
        flow.step(FlowEvent::Routed {
            result: Err("stage=route_shortcut no".to_string())
        }),
        FlowAction::TransferToBackground
    );
    assert_eq!(
        flow.step(FlowEvent::Transferred),
        FlowAction::Finish {
            result: Err("stage=route_shortcut no".to_string()),
            report: true
        }
    );
    assert_eq!(flow.outcome(), InjectionOutcome::ChordFailed);
}

#[test]
fn a_paste_without_a_ready_clipboard_sends_its_route() {
    for (post, outcome) in [
        (Some("text"), InjectionOutcome::ClipboardNotReady),
        (None, InjectionOutcome::ClipboardNotReady),
        (Some("other"), InjectionOutcome::NoEffectSuspected),
    ] {
        let mut flow = InjectionFlow::new("text", false, false, 0);
        to_the_probe(&mut flow);
        assert_eq!(flow.step(read(Some("before"), 250)), FlowAction::ResolveFocus);
        assert_eq!(
            flow.step(focused()),
            FlowAction::SendRoute {
                primary: PasteShortcut::CtrlV,
                fallback: None
            }
        );
        assert_eq!(
            flow.step(FlowEvent::Routed { result: Ok(()) }),
            FlowAction::ReadClipboard { primary: false }
        );
        assert_eq!(flow.step(read(post, 0)), FlowAction::ResolveFocus);
        assert_eq!(flow.step(focused()), FlowAction::TransferToBackground);
        assert_eq!(
            flow.step(FlowEvent::Transferred),
            FlowAction::Finish {
                result: Ok(()),
                report: true
            }
        );
        assert!(!flow.clipboard_ready());
        assert_eq!(flow.outcome(), outcome);
    }
}

#[test]
fn the_wait_for_the_clipboard_is_counted_once() {
    for (value, waited_ms, ready) in [(Some("text"), 7, true), (Some("before"), 250, false)] {
        let mut metrics = InjectorMetrics::default();
        let mut flow = InjectionFlow::new("text", false, false, 0);
        to_the_probe(&mut flow);
        let mut step = |flow: &mut InjectionFlow, event: FlowEvent| {
            let before = flow.phase();
            flow.step(event);
            flow.count_clipboard_ready(before, waited_ms, &mut metrics)
        };
        assert!(!step(&mut flow, read(Some("before"), 1)));
        assert!(!step(&mut flow, FlowEvent::Slept));
        // An event that is not waited for ends nothing.
        assert!(!step(&mut flow, FlowEvent::Transferred));
        assert!(step(&mut flow, read(value, waited_ms)));
        assert!(!step(&mut flow, focused()));
        assert!(!step(&mut flow, FlowEvent::Routed { result: Ok(()) }));
        assert_eq!(metrics.clipboard_ready_success_total, u64::from(ready));
        assert_eq!(metrics.clipboard_ready_failure_total, u64::from(!ready));
        assert_eq!(metrics.clipboard_ready_duration_ms_total, waited_ms);
        assert_eq!(metrics.route_shortcut_success_total, 0);
    }
}

#[test]
fn a_failed_write_ends_at_once() {
    let mut flow = InjectionFlow::new("text", false, true, 0);
    flow.step(FlowEvent::Started);
    assert_eq!(
        flow.step(read(None, 0)),
        FlowAction::ReadClipboard { primary: true }
    );
    assert_eq!(flow.step(read(None, 0)), FlowAction::WriteClipboards);
    assert_eq!(
        flow.step(FlowEvent::Wrote {
            result: Err("wl-copy missing".to_string())
        }),
        FlowAction::Finish {
            result: Err("failed to set clipboard contents: wl-copy missing".to_string()),
            report: false
        }
    );
    assert_eq!(flow.step(FlowEvent::Slept), FlowAction::Unexpected);
}

#[test]
fn a_clipboard_that_changed_is_suspected() {
    let mut flow = InjectionFlow::new("text", false, false, 0);
    to_the_probe(&mut flow);
    flow.step(read(Some("text"), 0));
    flow.step(focused());
    assert_eq!(
        flow.step(FlowEvent::Routed { result: Ok(()) }),
        FlowAction::ReadClipboard { primary: false }
    );
    flow.step(read(Some("other"), 0));
    assert_eq!(flow.outcome(), InjectionOutcome::NoEffectSuspected);
    assert_eq!(flow.post_clipboard_matches(), Some(false));

    let report = child_report(
        9,
        "text",
        &flow,
        None,
        Some("demo".to_string()),
        None,
        None,
        None,
        no_route(),
        Vec::new(),
        25,
    );
    assert_eq!(report.trace_id, 9);
    assert_eq!(report.requested_len, 4);
    assert_eq!(report.requested_fingerprint, fingerprint("text"));
    assert_eq!(report.outcome, InjectionOutcome::NoEffectSuspected.as_str());
    assert_eq!(report.elapsed_ms_total, 25);
}

#[test]
fn a_forced_shortcut_overrules_the_decision() {
    let decision = || RouteDecision {
        class: "Terminal".to_string(),
        primary: PasteShortcut::CtrlShiftV,
        adaptive_fallback: Some(PasteShortcut::CtrlV),
        low_confidence: false,
        reason: "focused terminal".to_string(),
    };
    let forced = choose_route(Some(PasteShortcut::CtrlV), "wayland", decision());
    assert_eq!(forced.focus_source, "forced_shortcut");
    assert_eq!(forced.primary, PasteShortcut::CtrlV);
    assert_eq!(forced.adaptive_fallback, None);
    let free = choose_route(None, "wayland", decision());
    assert_eq!(free.focus_source, "wayland");
    assert_eq!(free.class, "Terminal");
    assert_eq!(free.adaptive_fallback, Some(PasteShortcut::CtrlV));
}

#[test]
fn fingerprints_are_those_of_the_default_hasher() {
    for text in ["", "text", "naïve café", "a\nb"] {
        let mut hasher = DefaultHasher::new();
        text.hash(&mut hasher);
        assert_eq!(fingerprint(text), format!("{:016x}", hasher.finish()));
    }
}

#[test]
fn previews_hold_eighty_characters() {
    assert_eq!(preview("short"), "short");
    let long = "é".repeat(81);
    assert_eq!(preview(&long), format!("{}...", "é".repeat(80)));
    assert_eq!(preview(&"x".repeat(80)), "x".repeat(80));
}

#[test]
fn clipboard_helpers_get_their_arguments() {
    assert_eq!(wl_paste_args(&None, false), vec!["--no-newline"]);
    assert_eq!(
        wl_paste_args(&Some("seat0".to_string()), true),
        vec!["--no-newline", "--seat", "seat0", "--primary"]
    );
    assert_eq!(
        wl_copy_args(&Some("seat0".to_string()), true, true),
        vec![
            "--type",
            "text/plain;charset=utf-8",
            "--seat",
            "seat0",
            "--primary",
            "--foreground"
        ]
    );
    assert!(primary_foreground(true, false));
    assert!(!primary_foreground(true, true));
}

#[test]
fn a_helper_is_killed_when_its_time_is_up() {
    assert_eq!(child_wait(true, 2_000, 1_000), ChildWait::Exited);
    assert_eq!(child_wait(false, 1_000, 1_000), ChildWait::Kill);
    assert_eq!(child_wait(false, 999, 1_000), ChildWait::Sleep { ms: 5 });
    assert_eq!(
        child_timeout_message("wl-copy", 1_000),
        "wl-copy timed out after 1000 ms"
    );
}

#[test]
fn an_injector_that_fails_says_why() {
    let injector = FailInjector::new("no backend".to_string());
    assert_eq!(injector.inject("text"), Err("no backend".to_string()));
}

#[test]
fn stages_are_counted_apart() {
    let mut metrics = InjectorMetrics::default();
    metrics.note_stage_success(InjectionStage::ClipboardReady, 3);
    metrics.note_stage_failure(InjectionStage::ClipboardReady, 4);
    metrics.note_stage_failure(InjectionStage::Backend, 5);
    assert_eq!(metrics.clipboard_ready_success_total, 1);
    assert_eq!(metrics.clipboard_ready_failure_total, 1);
    assert_eq!(metrics.clipboard_ready_duration_ms_total, 7);
    assert_eq!(metrics.backend_failure_total, 1);
    assert_eq!(metrics.backend_duration_ms_total, 5);
}
