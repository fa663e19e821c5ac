use parakeet_ptt::config::OverlayMode;
use parakeet_ptt::overlay_ipc::{OverlayIpcMessage, OverlayTextProducer};
use parakeet_ptt::overlay_process::{
    is_replayable_overlay_message, overlay_process_args, ManagerAction, ManagerEvent,
    OverlayProcessManager, OverlayProcessMetrics, OverlaySendError,
};
use parakeet_ptt::protocol::{FloatBits, SessionId};

const DAEMON: OverlayTextProducer = OverlayTextProducer::DaemonSttInterim;

/// Runs a manager: launches succeed as `launches` says in turn, and the process of launch `n`
/// takes messages while `alive[n]` holds.
struct Bench {
    manager: OverlayProcessManager,
    launches: Vec<bool>,
    alive: Vec<bool>,
    outputs: Vec<Option<String>>,
    taken: Vec<Vec<OverlayIpcMessage>>,
    now_ms: u64,
}

impl Bench {
    fn new(targeting: bool, backoff_ms: u64, watchdog_ms: u64, launches: Vec<bool>) -> Bench {
        let count = launches.len();
        let mut bench = Bench {
            manager: OverlayProcessManager::new(
                OverlayMode::LayerShell,
                targeting,
                backoff_ms,
                watchdog_ms,
            ),
            launches,
            alive: vec![true; count],
            outputs: Vec::new(),
            taken: (0..count).map(|_| Vec::new()).collect(),
            now_ms: 0,
        };
        let action = bench.manager.start(0, &None);
        bench.run(action);
        bench
    }

    fn run(&mut self, first: ManagerAction) {
        let mut action = first;
        loop {
            let event = match action {
                ManagerAction::Done => return,
                ManagerAction::Launch { output_name } => {
                    let place = self.outputs.len();
                    self.outputs.push(output_name);
                    ManagerEvent::Launched(self.launches.get(place).copied().unwrap_or(false))
                }
                ManagerAction::Send(message) => {
                    let place = self.outputs.len() - 1;
                    let alive = self.alive[place];
                    if alive {
                        self.taken[place].push(message);
                    }
                    ManagerEvent::Sent(alive)
                }
            };
            action = self.manager.next(event, self.now_ms, &None);
        }
    }

    fn send(&mut self, message: OverlayIpcMessage) {
        let action = self
            .manager
            .next(ManagerEvent::Message(message), self.now_ms, &None);
        self.run(action);
    }
}

fn text(session_id: SessionId, seq: u64, text: &str) -> OverlayIpcMessage {
    OverlayIpcMessage::InterimText {
        session_id,
        producer: DAEMON,
        seq,
        text: text.to_string(),
    }
}

fn state(session_id: SessionId, seq: u64) -> OverlayIpcMessage {
    OverlayIpcMessage::InterimState {
        session_id,
        producer: DAEMON,
        seq,
        state: "listening".to_string(),
    }
}

fn hint(name: &str) -> OverlayIpcMessage {
    OverlayIpcMessage::OutputHint {
        output_name: name.to_string(),
    }
}

fn level(session_id: SessionId) -> OverlayIpcMessage {
    OverlayIpcMessage::AudioLevel {
        session_id,
        level_db: FloatBits {
            bits: (-28.0f32).to_bits(),
        },
    }
}

#[test]
fn manager_replays_latest_message_after_disconnect() {
    let mut bench = Bench::new(false, 0, 1_500, vec![true, true]);
    bench.alive[0] = false;
    let session_id = SessionId::fresh();
    bench.send(text(session_id, 10, "current"));

    assert!(bench.taken[0].is_empty());
    assert_eq!(bench.taken[1], vec![text(session_id, 10, "current")]);
    assert_eq!(bench.manager.metrics().replay_sent_total, 1);
    assert_eq!(bench.manager.metrics().spawn_success_total, 2);
}

#[test]
fn manager_reconnect_sends_only_current_state() {
    let mut bench = Bench::new(false, 0, 1_500, vec![true, true]);
    let session_id = SessionId::fresh();
    bench.send(text(session_id, 1, "old-state"));
    assert_eq!(bench.taken[0], vec![text(session_id, 1, "old-state")]);

    bench.alive[0] = false;
    bench.send(text(session_id, 2, "current-state"));
    assert_eq!(bench.taken[1], vec![text(session_id, 2, "current-state")]);
}

#[test]
fn manager_replay_ignores_audio_level_as_latest_state() {
    let mut bench = Bench::new(false, 0, 1_500, vec![true, true]);
    let session_id = SessionId::fresh();
    bench.send(text(session_id, 2, "current-state"));
    bench.send(level(session_id));
    assert_eq!(bench.taken[0].len(), 2);
    bench.alive[0] = false;
    bench.send(level(session_id));
    assert_eq!(bench.taken[1], vec![text(session_id, 2, "current-state")]);
}

#[test]
fn manager_replay_ignores_injection_complete_as_latest_state() {
    let mut bench = Bench::new(false, 0, 1_500, vec![true, true]);
    let session_id = SessionId::fresh();
    let complete = || OverlayIpcMessage::InjectionComplete {
        session_id,
        success: true,
    };
    bench.send(text(session_id, 2, "current-state"));
    bench.send(complete());
    assert_eq!(bench.taken[0].len(), 2);
    bench.alive[0] = false;
    bench.send(complete());
    assert_eq!(bench.taken[1], vec![text(session_id, 2, "current-state")]);
}

#[test]
fn output_targeted_manager_waits_for_hint_and_replays_latest_state() {
    let mut bench = Bench::new(true, 0, 1_500, vec![true]);
    let session_id = SessionId::fresh();
    bench.send(text(session_id, 7, "latest-state"));
    assert!(!bench.manager.has_active_sink());
    assert_eq!(
        bench.manager.metrics().spawn_attempt_total,
        0,
        "spawn should be deferred until an output hint is available"
    );

    bench.send(hint("DP-1"));
    assert!(bench.manager.has_active_sink());
    assert_eq!(bench.outputs, vec![Some("DP-1".to_string())]);
    assert_eq!(
        bench.taken[0],
        vec![hint("DP-1"), text(session_id, 7, "latest-state")]
    );
}

#[test]
fn output_watchdog_spawns_once_without_output_targeting() {
    let mut bench = Bench::new(true, 0, 0, vec![true]);
    let session_id = SessionId::fresh();
    bench.send(text(session_id, 1, "watchdog-fallback"));
    assert!(bench.manager.has_active_sink());
    assert_eq!(
        bench.manager.metrics().spawn_attempt_total,
        1,
        "watchdog should trigger exactly one fallback spawn attempt"
    );
    assert_eq!(
        bench.outputs,
        vec![None],
        "watchdog fallback spawn should omit output targeting exactly once"
    );
    assert_eq!(bench.taken[0], vec![text(session_id, 1, "watchdog-fallback")]);
}

#[test]
fn missing_overlay_binary_spawn_failures_remain_non_fatal() {
    let mut bench = Bench::new(false, 0, 1_500, vec![]);
    bench.send(text(SessionId::fresh(), 1, "state survives missing binary"));

    assert!(!bench.manager.has_active_sink());
    assert!(
        bench.manager.metrics().spawn_failure_total >= 1,
        "missing binary should be counted as a non-fatal spawn failure"
    );
}

#[test]
fn manager_passes_adaptive_width_to_launcher() {
    let args = overlay_process_args(OverlayMode::LayerShell, &None, false).expect("arguments");
    let place = args
        .iter()
        .position(|arg| arg == "--adaptive-width")
        .expect("the width is passed on");
    assert_eq!(args[place + 1], "false");
}

#[test]
fn manager_retargets_only_on_next_utterance_boundary() {
    let mut bench = Bench::new(true, 0, 1_500, vec![true, true]);
    let session_a = SessionId::fresh();
    let session_b = SessionId::fresh();
    bench.send(hint("DP-1"));
    bench.send(state(session_a, 1));
    bench.send(hint("HDMI-A-1"));
    bench.send(text(session_a, 2, "still session a"));
    bench.send(OverlayIpcMessage::SessionEnded {
        session_id: session_a,
        reason: None,
    });
    assert_eq!(
        bench.taken[0],
        vec![
            hint("DP-1"),
            state(session_a, 1),
            hint("HDMI-A-1"),
            text(session_a, 2, "still session a"),
            OverlayIpcMessage::SessionEnded {
                session_id: session_a,
                reason: None,
            },
        ]
    );

    bench.send(state(session_b, 1));
    assert_eq!(bench.taken[1], vec![state(session_b, 1)]);
    assert_eq!(
        bench.outputs,
        vec![Some("DP-1".to_string()), Some("HDMI-A-1".to_string())]
    );
}

#[test]
fn a_failed_launch_is_not_repeated_at_once() {
    let mut bench = Bench::new(false, 750, 1_500, vec![false, true]);
    let session_id = SessionId::fresh();
    bench.send(text(session_id, 1, "a"));
    assert_eq!(bench.manager.metrics().spawn_attempt_total, 1);
    bench.now_ms = 750;
    bench.send(text(session_id, 2, "b"));
    assert_eq!(bench.manager.metrics().spawn_attempt_total, 2);
    assert!(bench.manager.has_active_sink());
}

#[test]
fn a_disabled_overlay_does_nothing() {
    let mut manager = OverlayProcessManager::new(OverlayMode::Disabled, false, 0, 0);
    assert!(matches!(manager.start(0, &None), ManagerAction::Done));
    let action = manager.next(
        ManagerEvent::Message(state(SessionId { bits: 1 }, 1)),
        5,
        &None,
    );
    assert!(matches!(action, ManagerAction::Done));
    assert_eq!(manager.metrics().spawn_attempt_total, 0);
}

#[test]
fn the_focused_output_is_launched_on() {
    let mut manager = OverlayProcessManager::new(OverlayMode::LayerShell, true, 0, 1_500);
    let focused = Some("DP-2".to_string());
    assert!(matches!(manager.start(0, &focused), ManagerAction::Done));
    let message = state(SessionId { bits: 1 }, 1);
    match manager.next(ManagerEvent::Message(message), 0, &focused) {
        ManagerAction::Launch { output_name } => assert_eq!(output_name, Some("DP-2".to_string())),
        other => panic!("expected a launch, got {other:?}"),
    }
}

#[test]
fn only_states_are_replayed() {
    let id = SessionId { bits: 1 };
    assert!(is_replayable_overlay_message(&state(id, 1)));
    assert!(is_replayable_overlay_message(&text(id, 1, "x")));
    assert!(is_replayable_overlay_message(
        &OverlayIpcMessage::SessionEnded {
            session_id: id,
            reason: None
        }
    ));
    assert!(!is_replayable_overlay_message(&hint("DP-1")));
    assert!(!is_replayable_overlay_message(&level(id)));
}

#[test]
fn overlay_processes_get_their_arguments() {
    assert!(overlay_process_args(OverlayMode::Disabled, &None, true).is_err());
    let args = overlay_process_args(
        OverlayMode::FallbackWindow,
        &Some("DP-1".to_string()),
        true,
    )
    .expect("arguments");
    assert!(args.contains(&"fallback-window".to_string()));
    let place = args
        .iter()
        .position(|arg| arg == "--output-name")
        .expect("the output is passed on");
    assert_eq!(args[place + 1], "DP-1");
}

#[test]
fn a_process_that_is_gone_takes_nothing() {
    let mut metrics = OverlayProcessMetrics::default();
    assert_eq!(metrics.after_send(true), Ok(()));
    assert_eq!(metrics.after_send(false), Err(OverlaySendError::Disconnected));
    assert_eq!(metrics.events_enqueued_total, 1);
    metrics.note_launch(true);
    metrics.note_launch(false);
    assert_eq!(metrics.launch_success_total, 1);
    assert_eq!(metrics.launch_failure_total, 1);
}
