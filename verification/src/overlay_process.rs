//! The overlay process: when it is launched, what is sent to it, and what is sent again.
use vstd::prelude::*;

use crate::config::OverlayMode;
use crate::injector::{copy_opt, count, counted};
use crate::injector_runtime::{between, later};
use crate::overlay_ipc::{IpcView, OverlayIpcMessage};
use crate::text::{bool_text, opt_string, print_bool, same, texts};

verus! {

/// How long no launch is tried after one failed, in milliseconds.
pub const OVERLAY_RESPAWN_BACKOFF_MS: u64 = 750;

/// How long a launch waits for the focused output, in milliseconds.
pub const OVERLAY_OUTPUT_NAME_WATCHDOG_TIMEOUT_MS: u64 = 1_500;

/// Why a message was not taken.
#[derive(Debug, Clone, Copy, PartialEq, Eq, Structural)]
pub enum OverlaySendError {
    Disconnected,
}

/// What happened to one overlay process.
#[derive(Debug, Clone, Copy, PartialEq, Eq, Structural)]
pub struct OverlayProcessMetrics {
    pub launch_success_total: u64,
    pub launch_failure_total: u64,
    pub events_enqueued_total: u64,
    pub events_dropped_total: u64,
    pub writer_disconnect_total: u64,
}

impl Default for OverlayProcessMetrics {
    /// Nothing has happened.
    fn default() -> (r: OverlayProcessMetrics)
        ensures
            r == (OverlayProcessMetrics {
                launch_success_total: 0,
                launch_failure_total: 0,
                events_enqueued_total: 0,
                events_dropped_total: 0,
                writer_disconnect_total: 0,
            }),
    {
        OverlayProcessMetrics {
            launch_success_total: 0,
            launch_failure_total: 0,
            events_enqueued_total: 0,
            events_dropped_total: 0,
            writer_disconnect_total: 0,
        }
    }
}

impl OverlayProcessMetrics {
    /// Counts a launch.
    pub fn note_launch(&mut self, success: bool)
        ensures
            *final(self) == if success {
                OverlayProcessMetrics {
                    launch_success_total: counted(old(self).launch_success_total, 1),
                    ..*old(self)
                }
            } else {
                OverlayProcessMetrics {
                    launch_failure_total: counted(old(self).launch_failure_total, 1),
                    ..*old(self)
                }
            },
    {
        if success {
            self.launch_success_total = count(self.launch_success_total, 1);
        } else {
            self.launch_failure_total = count(self.launch_failure_total, 1);
        }
    }

    /// Counts a message that could not be written as such; the process goes on.
    pub fn note_dropped(&mut self)
        ensures
            *final(self) == (OverlayProcessMetrics {
                events_dropped_total: counted(old(self).events_dropped_total, 1),
                ..*old(self)
            }),
    {
        self.events_dropped_total = count(self.events_dropped_total, 1);
    }

    /// Counts a message that the process did not take any more.
    pub fn note_write_failed(&mut self)
        ensures
            *final(self) == (OverlayProcessMetrics {
                events_dropped_total: counted(old(self).events_dropped_total, 1),
                writer_disconnect_total: counted(old(self).writer_disconnect_total, 1),
                ..*old(self)
            }),
    {
        self.note_dropped();
        self.writer_disconnect_total = count(self.writer_disconnect_total, 1);
    }

    /// Counts a message that was handed to the writer, or that it did not take any more.
    pub fn after_send(&mut self, taken: bool) -> (r: Result<(), OverlaySendError>)
        ensures
            taken ==> r is Ok && *final(self) == (OverlayProcessMetrics {
                events_enqueued_total: counted(old(self).events_enqueued_total, 1),
                ..*old(self)
            }),
            !taken ==> r == Err::<(), OverlaySendError>(OverlaySendError::Disconnected)
                && *final(self) == (OverlayProcessMetrics {
                events_dropped_total: counted(old(self).events_dropped_total, 1),
                writer_disconnect_total: counted(old(self).writer_disconnect_total, 1),
                ..*old(self)
            }),
    {
        if taken {
            self.events_enqueued_total = count(self.events_enqueued_total, 1);
            return Ok(());
        }
        self.note_write_failed();
        Err(OverlaySendError::Disconnected)
    }
}

/// The arguments of an overlay process.
pub open spec fn overlay_args(backend: Seq<char>, output: Option<Seq<char>>, adaptive: bool) -> Seq<
    Seq<char>,
> {
    let always = seq!["--backend"@, backend, "--adaptive-width"@, bool_text(adaptive)];
    match output {
        Some(name) => always + seq!["--output-name"@, name],
        None => always,
    }
}

/// The arguments of an overlay process; there is none in disabled mode.
pub fn overlay_process_args(
    mode: OverlayMode,
    output_name: &Option<String>,
    adaptive_width: bool,
) -> (r: Result<Vec<String>, &'static str>)
    ensures
        match mode {
            OverlayMode::LayerShell => r matches Ok(args) && texts(args@) == overlay_args(
                "layer-shell"@,
                opt_string(*output_name),
                adaptive_width,
            ),
            OverlayMode::FallbackWindow => r matches Ok(args) && texts(args@) == overlay_args(
                "fallback-window"@,
                opt_string(*output_name),
                adaptive_width,
            ),
            OverlayMode::Disabled => r matches Err(why) && why@
                == "overlay process should not be spawned when overlay mode is disabled"@,
        },
{
    let backend = match mode {
        OverlayMode::LayerShell => "layer-shell",
        OverlayMode::FallbackWindow => "fallback-window",
        OverlayMode::Disabled => {
            return Err("overlay process should not be spawned when overlay mode is disabled");
        },
    };
    let mut args: Vec<String> = Vec::new();
    args.push("--backend".to_owned());
    args.push(backend.to_owned());
    args.push("--adaptive-width".to_owned());
    args.push(print_bool(adaptive_width));
    if let Some(name) = output_name {
        args.push("--output-name".to_owned());
        args.push(name.as_str().to_owned());
    }
    assert(texts(args@) =~= overlay_args(backend@, opt_string(*output_name), adaptive_width));
    Ok(args)
}

/// What happened to overlay processes so far.
#[derive(Debug, Clone, Copy, PartialEq, Eq, Structural)]
pub struct OverlayManagerMetrics {
    pub spawn_attempt_total: u64,
    pub spawn_success_total: u64,
    pub spawn_failure_total: u64,
    pub send_disconnect_total: u64,
    pub replay_sent_total: u64,
    pub replay_dropped_total: u64,
}

/// Nothing has happened.
pub open spec fn no_overlay_history() -> OverlayManagerMetrics {
    OverlayManagerMetrics {
        spawn_attempt_total: 0,
        spawn_success_total: 0,
        spawn_failure_total: 0,
        send_disconnect_total: 0,
        replay_sent_total: 0,
        replay_dropped_total: 0,
    }
}

impl Default for OverlayManagerMetrics {
    /// Nothing has happened.
    fn default() -> (r: OverlayManagerMetrics)
        ensures
            r == no_overlay_history(),
    {
        OverlayManagerMetrics {
            spawn_attempt_total: 0,
            spawn_success_total: 0,
            spawn_failure_total: 0,
            send_disconnect_total: 0,
            replay_sent_total: 0,
            replay_dropped_total: 0,
        }
    }
}

// ---- the manager, step by step

/// Where the manager stands.
#[allow(inconsistent_fields)]
#[derive(Debug)]
pub enum ManagerPhase {
    /// It waits for a message.
    Idle,
    /// It launches its first process.
    Starting { output: Option<String>, began_ms: u64 },
    /// It launches a process on another output before it sends a message.
    Retargeting { message: OverlayIpcMessage, output: String },
    /// It launches a process to send a message to.
    Spawning { message: OverlayIpcMessage, output: Option<String>, began_ms: u64 },
    /// It sends a message.
    Sending { message: OverlayIpcMessage, was_missing: bool },
    /// It launches a process again after a message was not taken.
    Respawning { output: Option<String>, began_ms: u64 },
    /// It sends the latest state again.
    Replaying,
}

/// Where the manager stands, mathematically.
#[allow(inconsistent_fields)]
pub enum PhaseView {
    Idle,
    Starting { output: Option<Seq<char>>, began_ms: u64 },
    Retargeting { message: IpcView, output: Seq<char> },
    Spawning { message: IpcView, output: Option<Seq<char>>, began_ms: u64 },
    Sending { message: IpcView, was_missing: bool },
    Respawning { output: Option<Seq<char>>, began_ms: u64 },
    Replaying,
}

impl ManagerPhase {
    /// Where the manager stands.
    pub open spec fn shown(self) -> PhaseView {
        match self {
            ManagerPhase::Idle => PhaseView::Idle,
            ManagerPhase::Starting { output, began_ms } => PhaseView::Starting {
                output: opt_string(output),
                began_ms,
            },
            ManagerPhase::Retargeting { message, output } => PhaseView::Retargeting {
                message: message.shown(),
                output: output@,
            },
            ManagerPhase::Spawning { message, output, began_ms } => PhaseView::Spawning {
                message: message.shown(),
                output: opt_string(output),
                began_ms,
            },
            ManagerPhase::Sending { message, was_missing } => PhaseView::Sending {
                message: message.shown(),
                was_missing,
            },
            ManagerPhase::Respawning { output, began_ms } => PhaseView::Respawning {
                output: opt_string(output),
                began_ms,
            },
            ManagerPhase::Replaying => PhaseView::Replaying,
        }
    }
}

/// What the manager is told.
#[derive(Debug)]
pub enum ManagerEvent {
    /// A message is to be sent.
    Message(OverlayIpcMessage),
    /// The launch it asked for succeeded, or not.
    Launched(bool),
    /// The message it asked to send was taken, or not.
    Sent(bool),
}

/// What the manager asks for.
#[derive(Debug)]
pub enum ManagerAction {
    /// A process is launched, on this output if there is one. It replaces the current one.
    Launch { output_name: Option<String> },
    /// A message is sent to the current process.
    Send(OverlayIpcMessage),
    /// Nothing more until the next message.
    Done,
}

/// What the manager asks for, mathematically.
pub enum ActionView {
    Launch(Option<Seq<char>>),
    Send(IpcView),
    Done,
}

impl ManagerAction {
    /// What the manager asks for.
    pub open spec fn shown(self) -> ActionView {
        match self {
            ManagerAction::Launch { output_name } => ActionView::Launch(opt_string(output_name)),
            ManagerAction::Send(message) => ActionView::Send(message.shown()),
            ManagerAction::Done => ActionView::Done,
        }
    }
}

/// What the manager knows, mathematically.
pub struct ManagerModel {
    pub mode: OverlayMode,
    pub require_output: bool,
    pub respawn_backoff_ms: u64,
    pub watchdog_ms: u64,
    pub connected: bool,
    pub active_output: Option<Seq<char>>,
    pub latest: Option<IpcView>,
    pub pending_output: Option<Seq<char>>,
    pub utterance_active: bool,
    pub next_spawn_at_ms: Option<u64>,
    pub wait_started_ms: Option<u64>,
    pub fallback_used: bool,
    pub metrics: OverlayManagerMetrics,
    pub phase: PhaseView,
}

/// Keeps the overlay process alive and up to date.
#[derive(Debug)]
pub struct OverlayProcessManager {
    mode: OverlayMode,
    require_output_name_on_spawn: bool,
    respawn_backoff_ms: u64,
    output_watchdog_timeout_ms: u64,
    connected: bool,
    active_output_name: Option<String>,
    latest_message: Option<OverlayIpcMessage>,
    pending_output_name: Option<String>,
    utterance_active: bool,
    next_spawn_allowed_at_ms: Option<u64>,
    output_wait_started_at_ms: Option<u64>,
    output_watchdog_fallback_used: bool,
    metrics: OverlayManagerMetrics,
    phase: ManagerPhase,
}

/// Whether a message starts an utterance.
pub open spec fn starts_utterance(message: IpcView) -> bool {
    message is InterimState || message is InterimText
}

/// Whether a message is sent again to a new process: states, texts and ends of sessions.
pub open spec fn replayable(message: IpcView) -> bool {
    message is InterimState || message is InterimText || message is SessionEnded
}

/// What is kept of a message.
pub open spec fn message_kept(m: ManagerModel, message: IpcView) -> ManagerModel {
    match message {
        IpcView::OutputHint { output_name } => ManagerModel {
            pending_output: Some(output_name),
            wait_started_ms: None,
            ..m
        },
        _ => if replayable(message) {
            ManagerModel { latest: Some(message), ..m }
        } else {
            m
        },
    }
}

/// Whether the next utterance is to be shown on another output.
pub open spec fn retarget_due(m: ManagerModel) -> bool {
    m.pending_output is Some && m.active_output != m.pending_output && m.connected
}

/// Whether a process may be launched, on which output, and what is kept of that.
///
/// Nothing is launched in disabled mode, beside a connected process, or before the wait after a
/// failed launch is over. The output is the hinted one, else the focused one. Where an output
/// is required and there is none, the launch waits for one until the watchdog's time is up;
/// then, once only, it goes ahead without.
pub open spec fn spawn_step(m: ManagerModel, now_ms: u64, focused: Option<Seq<char>>) -> (
    ManagerModel,
    Option<Option<Seq<char>>>,
) {
    if m.mode == OverlayMode::Disabled || m.connected || (m.next_spawn_at_ms matches Some(at)
        && now_ms < at) {
        (m, None)
    } else {
        let output = if m.pending_output is Some {
            m.pending_output
        } else {
            focused
        };
        let known = ManagerModel {
            pending_output: output,
            wait_started_ms: if output is Some {
                None
            } else {
                m.wait_started_ms
            },
            ..m
        };
        let attempt = OverlayManagerMetrics {
            spawn_attempt_total: counted(m.metrics.spawn_attempt_total, 1),
            ..m.metrics
        };
        if m.require_output && output is None {
            let since = match m.wait_started_ms {
                Some(at) => at,
                None => now_ms,
            };
            if m.fallback_used {
                (known, None)
            } else if between(since, now_ms) < m.watchdog_ms {
                (ManagerModel { wait_started_ms: Some(since), ..known }, None)
            } else {
                (
                    ManagerModel {
                        fallback_used: true,
                        wait_started_ms: None,
                        metrics: attempt,
                        ..known
                    },
                    Some(output),
                )
            }
        } else {
            (ManagerModel { metrics: attempt, ..known }, Some(output))
        }
    }
}

/// What is kept of how a launch went.
pub open spec fn spawn_done(
    m: ManagerModel,
    output: Option<Seq<char>>,
    began_ms: u64,
    success: bool,
) -> ManagerModel {
    if success {
        ManagerModel {
            connected: true,
            active_output: output,
            next_spawn_at_ms: None,
            metrics: OverlayManagerMetrics {
                spawn_success_total: counted(m.metrics.spawn_success_total, 1),
                ..m.metrics
            },
            ..m
        }
    } else {
        ManagerModel {
            next_spawn_at_ms: Some(later(began_ms, m.respawn_backoff_ms)),
            metrics: OverlayManagerMetrics {
                spawn_failure_total: counted(m.metrics.spawn_failure_total, 1),
                ..m.metrics
            },
            ..m
        }
    }
}

/// The process is gone.
pub open spec fn disconnected(m: ManagerModel) -> ManagerModel {
    ManagerModel { connected: false, active_output: None, ..m }
}

/// The latest state could not be sent again.
pub open spec fn replay_dropped(m: ManagerModel) -> ManagerModel {
    disconnected(
        ManagerModel {
            metrics: OverlayManagerMetrics {
                replay_dropped_total: counted(m.metrics.replay_dropped_total, 1),
                ..m.metrics
            },
            phase: PhaseView::Idle,
            ..m
        },
    )
}

/// Sends the latest state again, if there is one and a process to send it to.
pub open spec fn replay_step(m: ManagerModel) -> (ManagerModel, ActionView) {
    match m.latest {
        None => (ManagerModel { phase: PhaseView::Idle, ..m }, ActionView::Done),
        Some(message) => if m.connected {
            (ManagerModel { phase: PhaseView::Replaying, ..m }, ActionView::Send(message))
        } else {
            (replay_dropped(m), ActionView::Done)
        },
    }
}

/// A message was not taken: a new process is launched, if one may be, and gets the latest state.
pub open spec fn failure_step(m: ManagerModel, now_ms: u64, focused: Option<Seq<char>>) -> (
    ManagerModel,
    ActionView,
) {
    let gone = disconnected(
        ManagerModel {
            metrics: OverlayManagerMetrics {
                send_disconnect_total: counted(m.metrics.send_disconnect_total, 1),
                ..m.metrics
            },
            ..m
        },
    );
    let (next, plan) = spawn_step(gone, now_ms, focused);
    match plan {
        Some(output) => (
            ManagerModel {
                phase: PhaseView::Respawning { output, began_ms: now_ms },
                ..next
            },
            ActionView::Launch(output),
        ),
        None => replay_step(next),
    }
}

/// A message is sent to the process, or to one that is launched for it.
pub open spec fn send_step(
    m: ManagerModel,
    message: IpcView,
    now_ms: u64,
    focused: Option<Seq<char>>,
) -> (ManagerModel, ActionView) {
    if m.mode == OverlayMode::Disabled {
        (ManagerModel { phase: PhaseView::Idle, ..m }, ActionView::Done)
    } else if m.connected {
        (
            ManagerModel { phase: PhaseView::Sending { message, was_missing: false }, ..m },
            ActionView::Send(message),
        )
    } else {
        let (next, plan) = spawn_step(m, now_ms, focused);
        match plan {
            Some(output) => (
                ManagerModel {
                    phase: PhaseView::Spawning { message, output, began_ms: now_ms },
                    ..next
                },
                ActionView::Launch(output),
            ),
            None => failure_step(next, now_ms, focused),
        }
    }
}

/// A message arrives.
pub open spec fn message_step(
    m: ManagerModel,
    message: IpcView,
    now_ms: u64,
    focused: Option<Seq<char>>,
) -> (ManagerModel, ActionView) {
    let kept = message_kept(m, message);
    if starts_utterance(message) {
        let active = ManagerModel { utterance_active: true, ..kept };
        if !m.utterance_active && retarget_due(kept) {
            (
                ManagerModel {
                    phase: PhaseView::Retargeting { message, output: kept.pending_output->0 },
                    ..active
                },
                ActionView::Launch(kept.pending_output),
            )
        } else {
            send_step(active, message, now_ms, focused)
        }
    } else if message is SessionEnded {
        send_step(ManagerModel { utterance_active: false, ..kept }, message, now_ms, focused)
    } else {
        send_step(kept, message, now_ms, focused)
    }
}

/// A launch went well, or not.
pub open spec fn launched_step(
    m: ManagerModel,
    success: bool,
    now_ms: u64,
    focused: Option<Seq<char>>,
) -> (ManagerModel, ActionView) {
    match m.phase {
        PhaseView::Starting { output, began_ms } => (
            ManagerModel {
                phase: PhaseView::Idle,
                ..spawn_done(m, output, began_ms, success)
            },
            ActionView::Done,
        ),
        PhaseView::Retargeting { message, output } => send_step(
            if success {
                ManagerModel {
                    connected: true,
                    active_output: Some(output),
                    next_spawn_at_ms: None,
                    ..m
                }
            } else {
                m
            },
            message,
            now_ms,
            focused,
        ),
        PhaseView::Spawning { message, output, began_ms } => {
            let done = spawn_done(m, output, began_ms, success);
            if success {
                (
                    ManagerModel {
                        phase: PhaseView::Sending { message, was_missing: true },
                        ..done
                    },
                    ActionView::Send(message),
                )
            } else {
                failure_step(done, now_ms, focused)
            }
        },
        PhaseView::Respawning { output, began_ms } => replay_step(
            spawn_done(m, output, began_ms, success),
        ),
        _ => (m, ActionView::Done),
    }
}

/// A message was taken, or not.
pub open spec fn sent_step(
    m: ManagerModel,
    taken: bool,
    now_ms: u64,
    focused: Option<Seq<char>>,
) -> (ManagerModel, ActionView) {
    match m.phase {
        PhaseView::Sending { message, was_missing } => if !taken {
            failure_step(m, now_ms, focused)
        } else if was_missing && message is OutputHint {
            replay_step(m)
        } else {
            (ManagerModel { phase: PhaseView::Idle, ..m }, ActionView::Done)
        },
        PhaseView::Replaying => if taken {
            (
                ManagerModel {
                    metrics: OverlayManagerMetrics {
                        replay_sent_total: counted(m.metrics.replay_sent_total, 1),
                        ..m.metrics
                    },
                    phase: PhaseView::Idle,
                    ..m
                },
                ActionView::Done,
            )
        } else {
            (replay_dropped(m), ActionView::Done)
        },
        _ => (m, ActionView::Done),
    }
}

impl OverlayProcessManager {
    /// What the manager knows.
    pub closed spec fn model(self) -> ManagerModel {
        ManagerModel {
            mode: self.mode,
            require_output: self.require_output_name_on_spawn,
            respawn_backoff_ms: self.respawn_backoff_ms,
            watchdog_ms: self.output_watchdog_timeout_ms,
            connected: self.connected,
            active_output: opt_string(self.active_output_name),
            latest: match self.latest_message {
                Some(message) => Some(message.shown()),
                None => None,
            },
            pending_output: opt_string(self.pending_output_name),
            utterance_active: self.utterance_active,
            next_spawn_at_ms: self.next_spawn_allowed_at_ms,
            wait_started_ms: self.output_wait_started_at_ms,
            fallback_used: self.output_watchdog_fallback_used,
            metrics: self.metrics,
            phase: self.phase.shown(),
        }
    }

    /// A manager without a process.
    pub fn new(
        mode: OverlayMode,
        require_output_name_on_spawn: bool,
        respawn_backoff_ms: u64,
        output_watchdog_timeout_ms: u64,
    ) -> (r: OverlayProcessManager)
        ensures
            r.model() == fresh_manager(
                mode,
                require_output_name_on_spawn,
                respawn_backoff_ms,
                output_watchdog_timeout_ms,
            ),
    {
        OverlayProcessManager {
            mode,
            require_output_name_on_spawn,
            respawn_backoff_ms,
            output_watchdog_timeout_ms,
            connected: false,
            active_output_name: None,
            latest_message: None,
            pending_output_name: None,
            utterance_active: false,
            next_spawn_allowed_at_ms: None,
            output_wait_started_at_ms: None,
            output_watchdog_fallback_used: false,
            metrics: OverlayManagerMetrics::default(),
            phase: ManagerPhase::Idle,
        }
    }

    /// What happened to overlay processes so far.
    pub fn metrics(&self) -> (r: OverlayManagerMetrics)
        ensures
            r == self.model().metrics,
    {
        self.metrics
    }

    /// Whether there is a process to send to.
    pub fn has_active_sink(&self) -> (r: bool)
        ensures
            r == self.model().connected,
    {
        self.connected
    }

    /// Whether a process is to be launched, and on which output.
    fn plan_spawn(&mut self, now_ms: u64, focused: &Option<String>) -> (r: Option<Option<String>>)
        ensures
            ({
                let (m, plan) = spawn_step(old(self).model(), now_ms, opt_string(*focused));
                &&& final(self).model() == m
                &&& match r {
                    Some(output) => plan == Some(opt_string(output)),
                    None => plan is None,
                }
            }),
    {
        if self.mode == OverlayMode::Disabled || self.connected {
            return None;
        }
        if let Some(at) = self.next_spawn_allowed_at_ms {
            if now_ms < at {
                return None;
            }
        }
        let output: Option<String> = if self.pending_output_name.is_some() {
            copy_opt(&self.pending_output_name)
        } else {
            copy_opt(focused)
        };
        if output.is_some() {
            self.output_wait_started_at_ms = None;
        }
        if self.pending_output_name.is_none() {
            self.pending_output_name = copy_opt(&output);
        }
        if self.require_output_name_on_spawn && output.is_none() {
            if self.output_watchdog_fallback_used {
                return None;
            }
            let since: u64 = match self.output_wait_started_at_ms {
                Some(at) => at,
                None => now_ms,
            };
            self.output_wait_started_at_ms = Some(since);
            if now_ms.saturating_sub(since) < self.output_watchdog_timeout_ms {
                return None;
            }
            self.output_watchdog_fallback_used = true;
            self.output_wait_started_at_ms = None;
        }
        self.metrics.spawn_attempt_total = count(self.metrics.spawn_attempt_total, 1);
        Some(output)
    }

    /// Keeps how a launch went.
    fn note_spawn(&mut self, output: Option<String>, began_ms: u64, success: bool)
        ensures
            final(self).model() == spawn_done(
                old(self).model(),
                opt_string(output),
                began_ms,
                success,
            ),
    {
        if success {
            self.metrics.spawn_success_total = count(self.metrics.spawn_success_total, 1);
            self.connected = true;
            self.active_output_name = output;
            self.next_spawn_allowed_at_ms = None;
        } else {
            self.metrics.spawn_failure_total = count(self.metrics.spawn_failure_total, 1);
            self.next_spawn_allowed_at_ms = Some(began_ms.saturating_add(self.respawn_backoff_ms));
        }
    }

    fn drop_replay(&mut self)
        ensures
            final(self).model() == replay_dropped(old(self).model()),
    {
        self.connected = false;
        self.active_output_name = None;
        self.metrics.replay_dropped_total = count(self.metrics.replay_dropped_total, 1);
        self.phase = ManagerPhase::Idle;
    }

    fn replay(&mut self) -> (r: ManagerAction)
        ensures
            (final(self).model(), r.shown()) == replay_step(old(self).model()),
    {
        let message: OverlayIpcMessage = match &self.latest_message {
            Some(message) => message.copy(),
            None => {
                self.phase = ManagerPhase::Idle;
                return ManagerAction::Done;
            },
        };
        if self.connected {
            self.phase = ManagerPhase::Replaying;
            ManagerAction::Send(message)
        } else {
            self.drop_replay();
            ManagerAction::Done
        }
    }

    fn after_failure(&mut self, now_ms: u64, focused: &Option<String>) -> (r: ManagerAction)
        ensures
            (final(self).model(), r.shown()) == failure_step(
                old(self).model(),
                now_ms,
                opt_string(*focused),
            ),
    {
        self.metrics.send_disconnect_total = count(self.metrics.send_disconnect_total, 1);
        self.connected = false;
        self.active_output_name = None;
        match self.plan_spawn(now_ms, focused) {
            Some(output) => {
                self.phase = ManagerPhase::Respawning {
                    output: copy_opt(&output),
                    began_ms: now_ms,
                };
                ManagerAction::Launch { output_name: output }
            },
            None => self.replay(),
        }
    }

    fn send_now(&mut self, message: OverlayIpcMessage, now_ms: u64, focused: &Option<String>) -> (r:
        ManagerAction)
        ensures
            (final(self).model(), r.shown()) == send_step(
                old(self).model(),
                message.shown(),
                now_ms,
                opt_string(*focused),
            ),
    {
        if self.mode == OverlayMode::Disabled {
            self.phase = ManagerPhase::Idle;
            return ManagerAction::Done;
        }
        if self.connected {
            self.phase = ManagerPhase::Sending { message: message.copy(), was_missing: false };
            return ManagerAction::Send(message);
        }
        match self.plan_spawn(now_ms, focused) {
            Some(output) => {
                self.phase = ManagerPhase::Spawning {
                    message,
                    output: copy_opt(&output),
                    began_ms: now_ms,
                };
                ManagerAction::Launch { output_name: output }
            },
            None => self.after_failure(now_ms, focused),
        }
    }

    /// Takes a message.
    fn take_message(&mut self, message: OverlayIpcMessage, now_ms: u64, focused: &Option<String>)
        -> (r: ManagerAction)
        ensures
            (final(self).model(), r.shown()) == message_step(
                old(self).model(),
                message.shown(),
                now_ms,
                opt_string(*focused),
            ),
    {
        let starts = match &message {
            OverlayIpcMessage::InterimState { .. } => true,
            OverlayIpcMessage::InterimText { .. } => true,
            _ => false,
        };
        let ends = match &message {
            OverlayIpcMessage::SessionEnded { .. } => true,
            _ => false,
        };
        if let OverlayIpcMessage::OutputHint { output_name } = &message {
            self.pending_output_name = Some(output_name.as_str().to_owned());
            self.output_wait_started_at_ms = None;
        } else if is_replayable_overlay_message(&message) {
            self.latest_message = Some(message.copy());
        }
        if starts {
            let first = !self.utterance_active;
            self.utterance_active = true;
            if first && self.connected {
                if let Some(pending) = &self.pending_output_name {
                    let there = match &self.active_output_name {
                        Some(active) => same(active.as_str(), pending.as_str()),
                        None => false,
                    };
                    if !there {
                        let output = pending.as_str().to_owned();
                        let output_name = Some(pending.as_str().to_owned());
                        self.phase = ManagerPhase::Retargeting { message, output };
                        return ManagerAction::Launch { output_name };
                    }
                }
            }
        } else if ends {
            self.utterance_active = false;
        }
        self.send_now(message, now_ms, focused)
    }

    /// Begins: a process is launched at once, unless it must know its output first.
    pub fn start(&mut self, now_ms: u64, focused: &Option<String>) -> (r: ManagerAction)
        ensures
            ({
                let (m, plan) = spawn_step(old(self).model(), now_ms, opt_string(*focused));
                match plan {
                    Some(output) if !old(self).model().require_output => {
                        &&& final(self).model() == (ManagerModel {
                            phase: PhaseView::Starting { output, began_ms: now_ms },
                            ..m
                        })
                        &&& r.shown() == ActionView::Launch(output)
                    },
                    _ => {
                        &&& final(self).model() == if old(self).model().require_output {
                            old(self).model()
                        } else {
                            m
                        }
                        &&& r.shown() is Done
                    },
                }
            }),
    {
        if self.require_output_name_on_spawn {
            return ManagerAction::Done;
        }
        match self.plan_spawn(now_ms, focused) {
            Some(output) => {
                self.phase = ManagerPhase::Starting {
                    output: copy_opt(&output),
                    began_ms: now_ms,
                };
                ManagerAction::Launch { output_name: output }
            },
            None => ManagerAction::Done,
        }
    }

    /// The next action. `focused` is the output that has the focus at this moment, if known.
    pub fn next(&mut self, event: ManagerEvent, now_ms: u64, focused: &Option<String>) -> (r:
        ManagerAction)
        ensures
            (final(self).model(), r.shown()) == match event {
                ManagerEvent::Message(message) => message_step(
                    old(self).model(),
                    message.shown(),
                    now_ms,
                    opt_string(*focused),
                ),
                ManagerEvent::Launched(success) => launched_step(
                    old(self).model(),
                    success,
                    now_ms,
                    opt_string(*focused),
                ),
                ManagerEvent::Sent(taken) => sent_step(
                    old(self).model(),
                    taken,
                    now_ms,
                    opt_string(*focused),
                ),
            },
    {
        match event {
            ManagerEvent::Message(message) => self.take_message(message, now_ms, focused),
            ManagerEvent::Launched(success) => self.launched(success, now_ms, focused),
            ManagerEvent::Sent(taken) => self.sent(taken, now_ms, focused),
        }
    }

    fn take_phase(&mut self) -> (r: ManagerPhase)
        ensures
            r.shown() == old(self).model().phase,
            final(self).model() == (ManagerModel { phase: PhaseView::Idle, ..old(self).model() }),
    {
        let mut phase = ManagerPhase::Idle;
        std::mem::swap(&mut phase, &mut self.phase);
        phase
    }

    fn launched(&mut self, success: bool, now_ms: u64, focused: &Option<String>) -> (r:
        ManagerAction)
        ensures
            (final(self).model(), r.shown()) == launched_step(
                old(self).model(),
                success,
                now_ms,
                opt_string(*focused),
            ),
    {
        match self.take_phase() {
            ManagerPhase::Starting { output, began_ms } => {
                self.note_spawn(output, began_ms, success);
                ManagerAction::Done
            },
            ManagerPhase::Retargeting { message, output } => {
                if success {
                    self.connected = true;
                    self.active_output_name = Some(output);
                    self.next_spawn_allowed_at_ms = None;
                }
                self.send_now(message, now_ms, focused)
            },
            ManagerPhase::Spawning { message, output, began_ms } => {
                self.note_spawn(output, began_ms, success);
                if success {
                    self.phase = ManagerPhase::Sending {
                        message: message.copy(),
                        was_missing: true,
                    };
                    ManagerAction::Send(message)
                } else {
                    self.after_failure(now_ms, focused)
                }
            },
            ManagerPhase::Respawning { output, began_ms } => {
                self.note_spawn(output, began_ms, success);
                self.replay()
            },
            other => {
                self.phase = other;
                ManagerAction::Done
            },
        }
    }

    fn sent(&mut self, taken: bool, now_ms: u64, focused: &Option<String>) -> (r: ManagerAction)
        ensures
            (final(self).model(), r.shown()) == sent_step(
                old(self).model(),
                taken,
                now_ms,
                opt_string(*focused),
            ),
    {
        match self.take_phase() {
            ManagerPhase::Sending { message, was_missing } => {
                if !taken {
                    return self.after_failure(now_ms, focused);
                }
                let hint = match &message {
                    OverlayIpcMessage::OutputHint { .. } => true,
                    _ => false,
                };
                if was_missing && hint {
                    self.replay()
                } else {
                    ManagerAction::Done
                }
            },
            ManagerPhase::Replaying => {
                if taken {
                    self.metrics.replay_sent_total = count(self.metrics.replay_sent_total, 1);
                } else {
                    self.drop_replay();
                }
                ManagerAction::Done
            },
            other => {
                self.phase = other;
                ManagerAction::Done
            },
        }
    }
}

/// A manager without a process.
pub open spec fn fresh_manager(
    mode: OverlayMode,
    require_output: bool,
    respawn_backoff_ms: u64,
    watchdog_ms: u64,
) -> ManagerModel {
    ManagerModel {
        mode,
        require_output,
        respawn_backoff_ms,
        watchdog_ms,
        connected: false,
        active_output: None,
        latest: None,
        pending_output: None,
        utterance_active: false,
        next_spawn_at_ms: None,
        wait_started_ms: None,
        fallback_used: false,
        metrics: no_overlay_history(),
        phase: PhaseView::Idle,
    }
}

/// Whether a message is sent again to a new process.
pub fn is_replayable_overlay_message(message: &OverlayIpcMessage) -> (r: bool)
    ensures
        r == replayable(message.shown()),
{
    match message {
        OverlayIpcMessage::InterimState { .. } => true,
        OverlayIpcMessage::InterimText { .. } => true,
        OverlayIpcMessage::SessionEnded { .. } => true,
        _ => false,
    }
}

/// What a step leaves alone, and where it leads: the facts that the laws below rest on.
spec fn step_fits(m: ManagerModel, n: ManagerModel, action: ActionView) -> bool {
    &&& n.mode == m.mode
    &&& n.latest == m.latest
    &&& n.utterance_active == m.utterance_active
    &&& action is Done ==> n.phase is Idle
    &&& n.phase is Replaying ==> n.connected
    &&& n.phase is Sending ==> n.connected
    &&& n.phase is Spawning || n.phase is Respawning ==> !n.connected && n.mode
        != OverlayMode::Disabled
    &&& !(n.phase is Starting || n.phase is Retargeting)
    &&& (m.connected || m.active_output is None) ==> (n.connected || n.active_output is None)
    &&& m.mode == OverlayMode::Disabled && !m.connected ==> !n.connected && n.phase is Idle
}

proof fn lemma_spawn_step(m: ManagerModel, now_ms: u64, focused: Option<Seq<char>>)
    ensures
        ({
            let (n, plan) = spawn_step(m, now_ms, focused);
            &&& n.mode == m.mode
            &&& n.connected == m.connected
            &&& n.active_output == m.active_output
            &&& n.latest == m.latest
            &&& n.utterance_active == m.utterance_active
            &&& n.phase == m.phase
            &&& plan is Some ==> !m.connected && m.mode != OverlayMode::Disabled
        }),
{
}

proof fn lemma_replay_step(m: ManagerModel)
    ensures
        ({
            let (n, action) = replay_step(m);
            &&& step_fits(m, n, action)
            &&& n.phase is Idle || n.phase is Replaying
            &&& action matches ActionView::Send(sent) ==> Some(sent) == n.latest
        }),
{
}

proof fn lemma_failure_step(m: ManagerModel, now_ms: u64, focused: Option<Seq<char>>)
    ensures
        ({
            let (n, action) = failure_step(m, now_ms, focused);
            &&& step_fits(m, n, action)
            &&& n.phase is Idle || n.phase is Replaying || n.phase is Respawning
            &&& action matches ActionView::Send(sent) ==> Some(sent) == n.latest
        }),
{
    let gone = disconnected(
        ManagerModel {
            metrics: OverlayManagerMetrics {
                send_disconnect_total: counted(m.metrics.send_disconnect_total, 1),
                ..m.metrics
            },
            ..m
        },
    );
    lemma_spawn_step(gone, now_ms, focused);
    lemma_replay_step(spawn_step(gone, now_ms, focused).0);
}

proof fn lemma_send_step(
    m: ManagerModel,
    message: IpcView,
    now_ms: u64,
    focused: Option<Seq<char>>,
)
    ensures
        ({
            let (n, action) = send_step(m, message, now_ms, focused);
            &&& step_fits(m, n, action)
            &&& n.phase matches PhaseView::Sending { message: current, .. } ==> current == message
            &&& action matches ActionView::Send(sent) ==> Some(sent) == n.latest || (sent
                == message && n.phase is Sending)
        }),
{
    lemma_spawn_step(m, now_ms, focused);
    lemma_failure_step(spawn_step(m, now_ms, focused).0, now_ms, focused);
}

/// What holds of the manager at all times: in disabled mode it has no process and asks for
/// nothing, and without a process no output is the active one.
pub open spec fn manager_sound(m: ManagerModel) -> bool {
    &&& m.mode == OverlayMode::Disabled ==> !m.connected && m.phase is Idle
    &&& !m.connected ==> m.active_output is None
    &&& m.phase is Sending || m.phase is Replaying || m.phase is Retargeting ==> m.connected
    &&& m.phase is Spawning || m.phase is Respawning || m.phase is Starting ==> !m.connected
}

/// A new manager is sound.
pub proof fn law_manager_starts_sound(
    mode: OverlayMode,
    require_output: bool,
    backoff_ms: u64,
    watchdog_ms: u64,
)
    ensures
        manager_sound(fresh_manager(mode, require_output, backoff_ms, watchdog_ms)),
{
}

/// Whatever happens, a sound manager stays sound: messages come only when it is idle.
pub proof fn law_manager_stays_sound(
    m: ManagerModel,
    message: IpcView,
    success: bool,
    now_ms: u64,
    focused: Option<Seq<char>>,
)
    requires
        manager_sound(m),
    ensures
        m.phase is Idle ==> manager_sound(message_step(m, message, now_ms, focused).0),
        manager_sound(launched_step(m, success, now_ms, focused).0),
        manager_sound(sent_step(m, success, now_ms, focused).0),
{
    lemma_message_sound(m, message, now_ms, focused);
    lemma_launched_sound(m, success, now_ms, focused);
    lemma_sent_sound(m, success, now_ms, focused);
}

proof fn lemma_message_sound(
    m: ManagerModel,
    message: IpcView,
    now_ms: u64,
    focused: Option<Seq<char>>,
)
    requires
        manager_sound(m),
    ensures
        m.phase is Idle ==> manager_sound(message_step(m, message, now_ms, focused).0),
{
    let kept = message_kept(m, message);
    lemma_send_step(ManagerModel { utterance_active: true, ..kept }, message, now_ms, focused);
    lemma_send_step(ManagerModel { utterance_active: false, ..kept }, message, now_ms, focused);
    lemma_send_step(kept, message, now_ms, focused);
}

/// The manager after a launch on another output.
spec fn retargeted(m: ManagerModel, output: Seq<char>, success: bool) -> ManagerModel {
    if success {
        ManagerModel {
            connected: true,
            active_output: Some(output),
            next_spawn_at_ms: None,
            ..m
        }
    } else {
        m
    }
}

proof fn lemma_launched_parts(
    m: ManagerModel,
    success: bool,
    now_ms: u64,
    focused: Option<Seq<char>>,
)
    ensures
        m.phase matches PhaseView::Retargeting { message, output } ==> {
            let (n, action) = launched_step(m, success, now_ms, focused);
            &&& step_fits(retargeted(m, output, success), n, action)
            &&& n.phase matches PhaseView::Sending { message: current, .. } ==> current == message
            &&& action matches ActionView::Send(sent) ==> Some(sent) == n.latest || (sent
                == message && n.phase is Sending)
        },
        m.phase matches PhaseView::Spawning { message, output, began_ms } ==> {
            let (n, action) = launched_step(m, success, now_ms, focused);
            let d = spawn_done(m, output, began_ms, success);
            &&& step_fits(d, n, action)
            &&& n.phase is Idle || n.phase is Replaying || n.phase is Respawning
                || n.phase is Sending
            &&& n.phase matches PhaseView::Sending { message: current, .. } ==> current == message
            &&& action matches ActionView::Send(sent) ==> Some(sent) == n.latest || (sent
                == message && n.phase is Sending)
        },
        m.phase matches PhaseView::Respawning { output, began_ms } ==> {
            let (n, action) = launched_step(m, success, now_ms, focused);
            let d = spawn_done(m, output, began_ms, success);
            &&& step_fits(d, n, action)
            &&& n.phase is Idle || n.phase is Replaying
            &&& action matches ActionView::Send(sent) ==> Some(sent) == n.latest
        },
{
    match m.phase {
        PhaseView::Retargeting { message, output } => {
            lemma_send_step(retargeted(m, output, success), message, now_ms, focused);
        },
        PhaseView::Spawning { message, output, began_ms } => {
            lemma_failure_step(spawn_done(m, output, began_ms, success), now_ms, focused);
        },
        PhaseView::Respawning { output, began_ms } => {
            lemma_replay_step(spawn_done(m, output, began_ms, success));
        },
        _ => {},
    }
}

proof fn lemma_launched_sound(
    m: ManagerModel,
    success: bool,
    now_ms: u64,
    focused: Option<Seq<char>>,
)
    requires
        manager_sound(m),
    ensures
        manager_sound(launched_step(m, success, now_ms, focused).0),
{
    lemma_launched_parts(m, success, now_ms, focused);
}

proof fn lemma_sent_sound(m: ManagerModel, taken: bool, now_ms: u64, focused: Option<Seq<char>>)
    requires
        manager_sound(m),
    ensures
        manager_sound(sent_step(m, taken, now_ms, focused).0),
{
    lemma_failure_step(m, now_ms, focused);
    lemma_replay_step(m);
}

/// In disabled mode nothing is ever launched or sent.
pub proof fn law_disabled_overlay_does_nothing(
    m: ManagerModel,
    message: IpcView,
    now_ms: u64,
    focused: Option<Seq<char>>,
)
    requires
        manager_sound(m),
        m.mode == OverlayMode::Disabled,
    ensures
        message_step(m, message, now_ms, focused).1 is Done,
        spawn_step(m, now_ms, focused).1 is None,
{
}

/// How many actions a message may still lead to.
pub open spec fn actions_left(phase: PhaseView) -> int {
    match phase {
        PhaseView::Idle => 0,
        PhaseView::Starting { .. } => 1,
        PhaseView::Replaying => 1,
        PhaseView::Respawning { .. } => 2,
        PhaseView::Sending { .. } => 3,
        PhaseView::Spawning { .. } => 4,
        PhaseView::Retargeting { .. } => 5,
    }
}

/// A message leads to a few actions and then to rest, however they go: launches and sends that
/// fail never loop.
pub proof fn law_every_message_comes_to_rest(
    m: ManagerModel,
    message: IpcView,
    success: bool,
    now_ms: u64,
    focused: Option<Seq<char>>,
)
    ensures
        ({
            let (n, action) = message_step(m, message, now_ms, focused);
            actions_left(n.phase) <= 5 && (action is Done ==> n.phase is Idle)
        }),
        m.phase is Starting || m.phase is Retargeting || m.phase is Spawning
            || m.phase is Respawning ==> {
            let (n, action) = launched_step(m, success, now_ms, focused);
            actions_left(n.phase) < actions_left(m.phase) && (action is Done ==> n.phase is Idle)
        },
        m.phase is Sending || m.phase is Replaying ==> {
            let (n, action) = sent_step(m, success, now_ms, focused);
            actions_left(n.phase) < actions_left(m.phase) && (action is Done ==> n.phase is Idle)
        },
{
    let kept = message_kept(m, message);
    lemma_send_step(ManagerModel { utterance_active: true, ..kept }, message, now_ms, focused);
    lemma_send_step(ManagerModel { utterance_active: false, ..kept }, message, now_ms, focused);
    lemma_send_step(kept, message, now_ms, focused);
    lemma_launched_parts(m, success, now_ms, focused);
    lemma_failure_step(m, now_ms, focused);
    lemma_replay_step(m);
}

/// After a failed launch no launch is tried before the wait is over.
pub proof fn law_failed_launch_is_not_repeated_early(
    m: ManagerModel,
    output: Option<Seq<char>>,
    began_ms: u64,
    now_ms: u64,
    focused: Option<Seq<char>>,
)
    requires
        now_ms < later(began_ms, m.respawn_backoff_ms),
    ensures
        spawn_step(spawn_done(m, output, began_ms, false), now_ms, focused).1 is None,
{
}

/// A manager that must know its output launches without one at most once.
pub proof fn law_untargeted_launch_happens_once(
    m: ManagerModel,
    now_ms: u64,
    focused: Option<Seq<char>>,
    later_ms: u64,
    later_focused: Option<Seq<char>>,
)
    requires
        m.require_output,
        spawn_step(m, now_ms, focused).1 == Some(None::<Seq<char>>),
    ensures
        spawn_step(m, now_ms, focused).0.fallback_used,
        forall|n: ManagerModel|
            n.require_output && n.fallback_used ==> #[trigger] spawn_step(
                n,
                later_ms,
                later_focused,
            ).1 != Some(None::<Seq<char>>),
{
}

/// What goes to a process is the message at hand or the latest state, nothing older; and a
/// message that can be sent again is the latest state from then on.
pub proof fn law_only_the_current_state_is_sent(
    m: ManagerModel,
    message: IpcView,
    success: bool,
    now_ms: u64,
    focused: Option<Seq<char>>,
)
    ensures
        ({
            let (n, action) = message_step(m, message, now_ms, focused);
            &&& action matches ActionView::Send(sent) ==> sent == message || Some(sent) == n.latest
            &&& replayable(message) ==> n.latest == Some(message)
        }),
        ({
            let (n, action) = launched_step(m, success, now_ms, focused);
            &&& n.latest == m.latest
            &&& action matches ActionView::Send(sent) ==> Some(sent) == n.latest || (n.phase matches
                PhaseView::Sending { message: current, .. } && sent == current)
        }),
        ({
            let (n, action) = sent_step(m, success, now_ms, focused);
            &&& n.latest == m.latest
            &&& action matches ActionView::Send(sent) ==> Some(sent) == n.latest
        }),
{
    let kept = message_kept(m, message);
    lemma_send_step(ManagerModel { utterance_active: true, ..kept }, message, now_ms, focused);
    lemma_send_step(ManagerModel { utterance_active: false, ..kept }, message, now_ms, focused);
    lemma_send_step(kept, message, now_ms, focused);
    lemma_launched_parts(m, success, now_ms, focused);
    lemma_failure_step(m, now_ms, focused);
    lemma_replay_step(m);
}

/// The output changes only between utterances: while one is under way no launch is made to
/// follow a hint.
pub proof fn law_output_changes_between_utterances(
    m: ManagerModel,
    message: IpcView,
    now_ms: u64,
    focused: Option<Seq<char>>,
)
    requires
        m.utterance_active,
    ensures
        !(message_step(m, message, now_ms, focused).0.phase is Retargeting),
{
}

// ---- what the manager is for

/// A message goes to the process that is there, at once, unless an utterance begins that is to be
/// shown on another output.
pub proof fn law_message_goes_to_the_process(
    m: ManagerModel,
    message: IpcView,
    now_ms: u64,
    focused: Option<Seq<char>>,
)
    requires
        m.connected,
        m.mode != OverlayMode::Disabled,
        m.utterance_active || !(message is InterimState || message is InterimText)
            || m.pending_output is None || m.pending_output == m.active_output,
    ensures
        ({
            let (n, action) = message_step(m, message, now_ms, focused);
            &&& action == ActionView::Send(message)
            &&& sent_step(n, true, now_ms, focused).1 is Done
            &&& n.connected
            &&& n.active_output == m.active_output
            &&& n.metrics == m.metrics
        }),
{
}

/// An utterance that begins after a hint about another output is shown there: a process is
/// launched on it first, and then gets the message.
pub proof fn law_utterance_follows_the_hint(
    m: ManagerModel,
    message: IpcView,
    name: Seq<char>,
    now_ms: u64,
    focused: Option<Seq<char>>,
)
    requires
        m.connected,
        m.mode != OverlayMode::Disabled,
        !m.utterance_active,
        m.active_output != Some(name),
        message is InterimState || message is InterimText,
    ensures
        ({
            let hinted = message_kept(m, IpcView::OutputHint { output_name: name });
            let (n, action) = message_step(hinted, message, now_ms, focused);
            let (l, next) = launched_step(n, true, now_ms, focused);
            let (f, other) = launched_step(n, false, now_ms, focused);
            &&& hinted.pending_output == Some(name)
            &&& action == ActionView::Launch(Some(name))
            &&& next == ActionView::Send(message)
            &&& l.active_output == Some(name)
            &&& l.utterance_active
            &&& other == ActionView::Send(message)
            &&& f.active_output == m.active_output
        }),
{
}

/// Without a process one is launched, on the output that was hinted at or else the focused one,
/// and then gets the message; where the launch may not be made yet the message is not sent.
pub proof fn law_missing_process_is_launched(
    m: ManagerModel,
    message: IpcView,
    now_ms: u64,
    focused: Option<Seq<char>>,
)
    requires
        !m.connected,
        m.mode != OverlayMode::Disabled,
        !(message is OutputHint),
        m.next_spawn_at_ms is None || now_ms >= m.next_spawn_at_ms->0,
        m.pending_output is Some || focused is Some || !m.require_output,
    ensures
        ({
            let (n, action) = message_step(m, message, now_ms, focused);
            let (l, next) = launched_step(n, true, now_ms, focused);
            let output = if m.pending_output is Some {
                m.pending_output
            } else {
                focused
            };
            &&& action == ActionView::Launch(output)
            &&& next == ActionView::Send(message)
            &&& l.connected
            &&& l.active_output == output
            &&& l.next_spawn_at_ms is None
        }),
{
}

/// A message that a process did not take leads to a new one, which gets the latest state, text
/// or end; nothing else is kept for it.
pub proof fn law_new_process_gets_the_latest_state(
    m: ManagerModel,
    message: IpcView,
    now_ms: u64,
    focused: Option<Seq<char>>,
)
    requires
        m.connected,
        m.mode != OverlayMode::Disabled,
        m.utterance_active,
        message is InterimState || message is InterimText || message is SessionEnded,
        m.next_spawn_at_ms is None,
        m.pending_output is Some || focused is Some || !m.require_output,
    ensures
        ({
            let (a, send) = message_step(m, message, now_ms, focused);
            let (b, launch) = sent_step(a, false, now_ms, focused);
            let (c, again) = launched_step(b, true, now_ms, focused);
            let (d, done) = sent_step(c, true, now_ms, focused);
            &&& send == ActionView::Send(message)
            &&& launch is Launch
            &&& !b.connected
            &&& again == ActionView::Send(message)
            &&& done is Done
            &&& d.connected
            &&& d.phase is Idle
        }),
{
}

/// States, texts and ends of sessions are kept for a new process; hints, levels, injections and
/// warnings are not.
pub proof fn law_what_is_kept_for_a_new_process(m: ManagerModel, message: IpcView)
    ensures
        message is InterimState || message is InterimText || message is SessionEnded
            ==> message_kept(m, message).latest == Some(message),
        message is OutputHint || message is AudioLevel || message is InjectionComplete
            || message is SessionWarning ==> message_kept(m, message).latest == m.latest,
        message matches IpcView::OutputHint { output_name } ==> message_kept(
            m,
            message,
        ).pending_output == Some(output_name),
        !(message is OutputHint) ==> message_kept(m, message).pending_output == m.pending_output,
        starts_utterance(message) <==> message is InterimState || message is InterimText,
{
}

/// The end of a session ends the utterance; a state or a text begins one, and no other message
/// does either.
pub proof fn law_utterances_begin_and_end(
    m: ManagerModel,
    message: IpcView,
    now_ms: u64,
    focused: Option<Seq<char>>,
)
    requires
        m.connected,
        m.mode != OverlayMode::Disabled,
    ensures
        message is SessionEnded ==> !message_step(m, message, now_ms, focused).0.utterance_active,
        message is InterimState || message is InterimText ==> message_step(
            m,
            message,
            now_ms,
            focused,
        ).0.utterance_active,
        message is AudioLevel || message is OutputHint || message is InjectionComplete
            || message is SessionWarning ==> message_step(m, message, now_ms, focused).0.utterance_active
            == m.utterance_active,
{
}

/// Where an output must be known and is not, a launch waits for one until the watchdog's time is
/// up, and then goes ahead without.
pub proof fn law_launch_waits_for_an_output(m: ManagerModel, now_ms: u64, later_ms: u64)
    requires
        m.mode != OverlayMode::Disabled,
        !m.connected,
        m.next_spawn_at_ms is None,
        m.require_output,
        m.pending_output is None,
        m.wait_started_ms is None,
        !m.fallback_used,
        m.watchdog_ms > 0,
        now_ms <= later_ms,
    ensures
        ({
            let waiting = spawn_step(m, now_ms, None).0;
            &&& spawn_step(m, now_ms, None).1 is None
            &&& spawn_step(waiting, later_ms, None).1 is Some <==> later_ms - now_ms
                >= m.watchdog_ms
        }),
{
}

/// A launch that failed is tried again after the wait, and one that worked is counted.
pub proof fn law_launches_are_counted(
    m: ManagerModel,
    output: Option<Seq<char>>,
    began_ms: u64,
)
    requires
        m.metrics.spawn_success_total < u64::MAX,
        m.metrics.spawn_failure_total < u64::MAX,
        began_ms + m.respawn_backoff_ms <= u64::MAX,
    ensures
        ({
            let up = spawn_done(m, output, began_ms, true);
            let down = spawn_done(m, output, began_ms, false);
            &&& up.connected && up.active_output == output && up.next_spawn_at_ms is None
            &&& up.metrics.spawn_success_total == m.metrics.spawn_success_total + 1
            &&& up.metrics.spawn_failure_total == m.metrics.spawn_failure_total
            &&& down.connected == m.connected
            &&& down.next_spawn_at_ms == Some((began_ms + m.respawn_backoff_ms) as u64)
            &&& down.metrics.spawn_failure_total == m.metrics.spawn_failure_total + 1
            &&& down.metrics.spawn_success_total == m.metrics.spawn_success_total
            &&& !disconnected(m).connected && disconnected(m).active_output is None
        }),
{
}

/// An overlay process is told its backend, its width and, where one is known, its output.
pub proof fn law_process_is_told_its_settings(
    backend: Seq<char>,
    output: Option<Seq<char>>,
    adaptive: bool,
)
    ensures
        ({
            let args = overlay_args(backend, output, adaptive);
            &&& args[0] == "--backend"@ && args[1] == backend
            &&& args[2] == "--adaptive-width"@
            &&& adaptive ==> args[3] == "true"@
            &&& !adaptive ==> args[3] == "false"@
            &&& output is None ==> args.len() == 4
            &&& output matches Some(name) ==> args.len() == 6 && args[4] == "--output-name"@
                && args[5] == name
        }),
{
}

/// A message that was taken counts as queued and one that was not as dropped, together with the
/// loss of the process; launches count as what they came to.
pub proof fn law_sends_and_launches_are_counted(taken: bool, success: bool)
    ensures
        forall|m: &mut OverlayProcessMetrics, r: Result<(), OverlaySendError>| #[trigger]
            call_ensures(OverlayProcessMetrics::after_send, (m, taken), r) ==> {
                &&& r is Ok <==> taken
                &&& final(m).events_enqueued_total != m.events_enqueued_total <==> taken
                &&& final(m).events_dropped_total != m.events_dropped_total <==> !taken
                &&& final(m).writer_disconnect_total != m.writer_disconnect_total <==> !taken
                &&& final(m).launch_success_total == m.launch_success_total
                &&& final(m).launch_failure_total == m.launch_failure_total
            },
        forall|m: &mut OverlayProcessMetrics, r: ()| #[trigger]
            call_ensures(OverlayProcessMetrics::note_launch, (m, success), r) ==> {
                &&& final(m).launch_success_total != m.launch_success_total <==> success
                &&& final(m).launch_failure_total != m.launch_failure_total <==> !success
                &&& final(m).events_dropped_total == m.events_dropped_total
            },
{
}

} // verus!
