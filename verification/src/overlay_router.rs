//! Routing of session events to the overlay: stale and foreign ones are dropped.
use vstd::prelude::*;

use crate::injector::{count, counted};
use crate::overlay_ipc::{OverlayIpcMessage, OverlayTextProducer};
use crate::protocol::{FloatBits, SessionId};

verus! {

/// Counters of the router; they wrap around.
#[derive(Debug, Clone, Copy, PartialEq, Eq, Structural)]
pub struct OverlayRoutingMetrics {
    pub routed_interim_state_total: u64,
    pub routed_interim_text_total: u64,
    pub routed_session_ended_total: u64,
    pub dropped_stale_seq_total: u64,
    pub dropped_session_mismatch_total: u64,
}

impl OverlayRoutingMetrics {
    /// Counts a routed state.
    pub fn note_interim_state(&mut self)
        ensures
            *final(self) == (OverlayRoutingMetrics {
                routed_interim_state_total: counted(old(self).routed_interim_state_total, 1),
                ..*old(self)
            }),
    {
        self.routed_interim_state_total = count(self.routed_interim_state_total, 1);
    }

    /// Counts a routed text.
    pub fn note_interim_text(&mut self)
        ensures
            *final(self) == (OverlayRoutingMetrics {
                routed_interim_text_total: counted(old(self).routed_interim_text_total, 1),
                ..*old(self)
            }),
    {
        self.routed_interim_text_total = count(self.routed_interim_text_total, 1);
    }

    /// Counts a routed end of a session.
    pub fn note_session_ended(&mut self)
        ensures
            *final(self) == (OverlayRoutingMetrics {
                routed_session_ended_total: counted(old(self).routed_session_ended_total, 1),
                ..*old(self)
            }),
    {
        self.routed_session_ended_total = count(self.routed_session_ended_total, 1);
    }

    /// Counts a dropped event that came too late.
    pub fn note_stale_seq_drop(&mut self)
        ensures
            *final(self) == (OverlayRoutingMetrics {
                dropped_stale_seq_total: counted(old(self).dropped_stale_seq_total, 1),
                ..*old(self)
            }),
    {
        self.dropped_stale_seq_total = count(self.dropped_stale_seq_total, 1);
    }

    /// Counts a dropped event of another session.
    pub fn note_session_mismatch_drop(&mut self)
        ensures
            *final(self) == (OverlayRoutingMetrics {
                dropped_session_mismatch_total: counted(
                    old(self).dropped_session_mismatch_total,
                    1,
                ),
                ..*old(self)
            }),
    {
        self.dropped_session_mismatch_total = count(self.dropped_session_mismatch_total, 1);
    }
}

/// An event for the overlay.
#[allow(inconsistent_fields)]
#[derive(Debug, PartialEq, Eq)]
pub enum OverlayEvent {
    OutputHint { output_name: String },
    InterimState {
        producer: OverlayTextProducer,
        session_id: SessionId,
        seq: u64,
        state: String,
    },
    InterimText {
        producer: OverlayTextProducer,
        session_id: SessionId,
        seq: u64,
        text: String,
    },
    AudioLevel { session_id: SessionId, level_db: FloatBits },
    SessionEnded { session_id: SessionId, reason: Option<String> },
    InjectionComplete { session_id: SessionId, success: bool },
    SessionWarning {
        session_id: SessionId,
        remaining_seconds: FloatBits,
        limit_seconds: FloatBits,
    },
}

/// Something that takes events for the overlay.
pub trait OverlaySink {
    /// Takes one event.
    fn on_overlay_event(&mut self, event: OverlayEvent);
}

/// A sink that drops every event.
#[derive(Debug, Clone, Copy)]
pub struct NoopOverlaySink;

impl OverlaySink for NoopOverlaySink {
    fn on_overlay_event(&mut self, event: OverlayEvent) {
    }
}

/// The message that carries an event.
pub open spec fn message_of(event: OverlayEvent) -> OverlayIpcMessage {
    match event {
        OverlayEvent::OutputHint { output_name } => OverlayIpcMessage::OutputHint { output_name },
        OverlayEvent::InterimState { producer, session_id, seq, state } =>
            OverlayIpcMessage::InterimState { session_id, producer, seq, state },
        OverlayEvent::InterimText { producer, session_id, seq, text } =>
            OverlayIpcMessage::InterimText { session_id, producer, seq, text },
        OverlayEvent::AudioLevel { session_id, level_db } => OverlayIpcMessage::AudioLevel {
            session_id,
            level_db,
        },
        OverlayEvent::SessionEnded { session_id, reason } => OverlayIpcMessage::SessionEnded {
            session_id,
            reason,
        },
        OverlayEvent::InjectionComplete { session_id, success } =>
            OverlayIpcMessage::InjectionComplete { session_id, success },
        OverlayEvent::SessionWarning { session_id, remaining_seconds, limit_seconds } =>
            OverlayIpcMessage::SessionWarning {
                session_id,
                remaining_seconds: Some(remaining_seconds),
                limit_seconds: Some(limit_seconds),
            },
    }
}

/// The message that carries an event.
pub fn overlay_event_to_ipc(event: OverlayEvent) -> (r: OverlayIpcMessage)
    ensures
        r == message_of(event),
{
    match event {
        OverlayEvent::OutputHint { output_name } => OverlayIpcMessage::OutputHint { output_name },
        OverlayEvent::InterimState { producer, session_id, seq, state } =>
            OverlayIpcMessage::InterimState { session_id, producer, seq, state },
        OverlayEvent::InterimText { producer, session_id, seq, text } =>
            OverlayIpcMessage::InterimText { session_id, producer, seq, text },
        OverlayEvent::AudioLevel { session_id, level_db } => OverlayIpcMessage::AudioLevel {
            session_id,
            level_db,
        },
        OverlayEvent::SessionEnded { session_id, reason } => OverlayIpcMessage::SessionEnded {
            session_id,
            reason,
        },
        OverlayEvent::InjectionComplete { session_id, success } =>
            OverlayIpcMessage::InjectionComplete { session_id, success },
        OverlayEvent::SessionWarning { session_id, remaining_seconds, limit_seconds } =>
            OverlayIpcMessage::SessionWarning {
                session_id,
                remaining_seconds: Some(remaining_seconds),
                limit_seconds: Some(limit_seconds),
            },
    }
}

/// The router: the session it follows, and the last sequence number of each producer.
#[derive(Debug, Clone, Copy, PartialEq, Eq, Structural)]
pub struct OverlayRouter {
    pub metrics: OverlayRoutingMetrics,
    pub active_session_id: Option<SessionId>,
    pub last_daemon_seq: Option<u64>,
    pub last_llm_seq: Option<u64>,
}

/// The last sequence number of a producer.
pub open spec fn last_seq(r: OverlayRouter, producer: OverlayTextProducer) -> Option<u64> {
    match producer {
        OverlayTextProducer::DaemonSttInterim => r.last_daemon_seq,
        OverlayTextProducer::LlmAnswerDelta => r.last_llm_seq,
    }
}

/// The router with another last sequence number of a producer.
pub open spec fn with_seq(r: OverlayRouter, producer: OverlayTextProducer, seq: u64) ->
    OverlayRouter {
    match producer {
        OverlayTextProducer::DaemonSttInterim => OverlayRouter { last_daemon_seq: Some(seq), ..r },
        OverlayTextProducer::LlmAnswerDelta => OverlayRouter { last_llm_seq: Some(seq), ..r },
    }
}

/// The router when it follows the given session; a change of session forgets the sequence
/// numbers.
pub open spec fn following(r: OverlayRouter, session_id: SessionId) -> OverlayRouter {
    if r.active_session_id == Some(session_id) {
        r
    } else {
        OverlayRouter {
            active_session_id: Some(session_id),
            last_daemon_seq: None,
            last_llm_seq: None,
            ..r
        }
    }
}

/// Whether an event of a session is one of the expected session, where one is expected.
pub open spec fn expected_session(expected: Option<SessionId>, session_id: SessionId) -> bool {
    expected is None || expected == Some(session_id)
}

/// The router after it dropped an event of another session.
pub open spec fn mismatch_dropped(r: OverlayRouter) -> OverlayRouter {
    OverlayRouter {
        metrics: OverlayRoutingMetrics {
            dropped_session_mismatch_total: counted(r.metrics.dropped_session_mismatch_total, 1),
            ..r.metrics
        },
        ..r
    }
}

/// Whether an event with a sequence number is let through.
pub open spec fn admits(
    r: OverlayRouter,
    expected: Option<SessionId>,
    session_id: SessionId,
    seq: u64,
    producer: OverlayTextProducer,
) -> bool {
    expected_session(expected, session_id) && match last_seq(following(r, session_id), producer) {
        Some(last) => seq > last,
        None => true,
    }
}

/// The router after it has looked at an event with a sequence number.
pub open spec fn admission(
    r: OverlayRouter,
    expected: Option<SessionId>,
    session_id: SessionId,
    seq: u64,
    producer: OverlayTextProducer,
) -> OverlayRouter {
    if !expected_session(expected, session_id) {
        mismatch_dropped(r)
    } else {
        let f = following(r, session_id);
        if admits(r, expected, session_id, seq, producer) {
            with_seq(f, producer, seq)
        } else {
            OverlayRouter {
                metrics: OverlayRoutingMetrics {
                    dropped_stale_seq_total: counted(f.metrics.dropped_stale_seq_total, 1),
                    ..f.metrics
                },
                ..f
            }
        }
    }
}

/// The router after it routed a state.
pub open spec fn state_routed(r: OverlayRouter) -> OverlayRouter {
    OverlayRouter {
        metrics: OverlayRoutingMetrics {
            routed_interim_state_total: counted(r.metrics.routed_interim_state_total, 1),
            ..r.metrics
        },
        ..r
    }
}

/// The router after it routed a text.
pub open spec fn text_routed(r: OverlayRouter) -> OverlayRouter {
    OverlayRouter {
        metrics: OverlayRoutingMetrics {
            routed_interim_text_total: counted(r.metrics.routed_interim_text_total, 1),
            ..r.metrics
        },
        ..r
    }
}

/// The event that a hint about the output gives rise to.
pub open spec fn hint_events(hint: Option<String>) -> Seq<OverlayEvent> {
    match hint {
        Some(output_name) => seq![OverlayEvent::OutputHint { output_name }],
        None => Seq::empty(),
    }
}

/// The router after the end of a session.
pub open spec fn session_end(r: OverlayRouter, expected: Option<SessionId>, session_id: SessionId) ->
    OverlayRouter {
    if !expected_session(expected, session_id) {
        mismatch_dropped(r)
    } else {
        let n = OverlayRouter {
            metrics: OverlayRoutingMetrics {
                routed_session_ended_total: counted(r.metrics.routed_session_ended_total, 1),
                ..r.metrics
            },
            ..r
        };
        if n.active_session_id == Some(session_id) {
            OverlayRouter {
                active_session_id: None,
                last_daemon_seq: None,
                last_llm_seq: None,
                ..n
            }
        } else {
            n
        }
    }
}

impl OverlayRouter {
    /// A router that follows no session.
    pub fn new() -> (r: OverlayRouter)
        ensures
            r == (OverlayRouter {
                metrics: OverlayRoutingMetrics {
                    routed_interim_state_total: 0,
                    routed_interim_text_total: 0,
                    routed_session_ended_total: 0,
                    dropped_stale_seq_total: 0,
                    dropped_session_mismatch_total: 0,
                },
                active_session_id: None,
                last_daemon_seq: None,
                last_llm_seq: None,
            }),
    {
        OverlayRouter {
            metrics: OverlayRoutingMetrics {
                routed_interim_state_total: 0,
                routed_interim_text_total: 0,
                routed_session_ended_total: 0,
                dropped_stale_seq_total: 0,
                dropped_session_mismatch_total: 0,
            },
            active_session_id: None,
            last_daemon_seq: None,
            last_llm_seq: None,
        }
    }

    /// Follows a session from now on.
    pub fn note_session_started(&mut self, session_id: SessionId)
        ensures
            *final(self) == following(*old(self), session_id),
    {
        if self.active_session_id != Some(session_id) {
            self.active_session_id = Some(session_id);
            self.last_daemon_seq = None;
            self.last_llm_seq = None;
        }
    }

    /// Whether an event of a session is let through; a drop is counted.
    fn allow_session(&mut self, expected: Option<SessionId>, session_id: SessionId) -> (r: bool)
        ensures
            r == expected_session(expected, session_id),
            *final(self) == (if r {
                *old(self)
            } else {
                mismatch_dropped(*old(self))
            }),
    {
        match expected {
            Some(e) => {
                if e != session_id {
                    self.metrics.note_session_mismatch_drop();
                    false
                } else {
                    true
                }
            },
            None => true,
        }
    }

    /// Whether an event with a sequence number is let through.
    fn let_through(
        &mut self,
        expected: Option<SessionId>,
        session_id: SessionId,
        seq: u64,
        producer: OverlayTextProducer,
    ) -> (r: bool)
        ensures
            r == admits(*old(self), expected, session_id, seq, producer),
            *final(self) == admission(*old(self), expected, session_id, seq, producer),
    {
        if !self.allow_session(expected, session_id) {
            return false;
        }
        self.note_session_started(session_id);
        let last: Option<u64> = match producer {
            OverlayTextProducer::DaemonSttInterim => self.last_daemon_seq,
            OverlayTextProducer::LlmAnswerDelta => self.last_llm_seq,
        };
        if let Some(l) = last {
            if seq <= l {
                self.metrics.note_stale_seq_drop();
                return false;
            }
        }
        match producer {
            OverlayTextProducer::DaemonSttInterim => {
                self.last_daemon_seq = Some(seq);
            },
            OverlayTextProducer::LlmAnswerDelta => {
                self.last_llm_seq = Some(seq);
            },
        }
        true
    }

    /// Routes a state. The hint is asked for only where the state is let through, and goes
    /// first.
    pub fn route_interim_state<F: FnOnce() -> Option<String>>(
        &mut self,
        expected_session_id: Option<SessionId>,
        session_id: SessionId,
        seq: u64,
        state: String,
        producer: OverlayTextProducer,
        output_hint: F,
    ) -> (events: Vec<OverlayEvent>)
        requires
            output_hint.requires(()),
        ensures
            ({
                let n = admission(*old(self), expected_session_id, session_id, seq, producer);
                if admits(*old(self), expected_session_id, session_id, seq, producer) {
                    *final(self) == state_routed(n) && exists|hint: Option<String>|
                        output_hint.ensures((), hint) && events@ == #[trigger] hint_events(
                            hint,
                        ).push(OverlayEvent::InterimState { producer, session_id, seq, state })
                } else {
                    *final(self) == n && events@.len() == 0
                }
            }),
    {
        let mut events: Vec<OverlayEvent> = Vec::new();
        if !self.let_through(expected_session_id, session_id, seq, producer) {
            return events;
        }
        let hint = output_hint();
        let ghost given = hint;
        if let Some(output_name) = hint {
            events.push(OverlayEvent::OutputHint { output_name });
        }
        assert(events@ =~= hint_events(given));
        events.push(OverlayEvent::InterimState { producer, session_id, seq, state });
        self.metrics.note_interim_state();
        events
    }

    /// Routes a text. The hint is asked for only where the text is let through, and goes first.
    pub fn route_interim_text<F: FnOnce() -> Option<String>>(
        &mut self,
        expected_session_id: Option<SessionId>,
        session_id: SessionId,
        seq: u64,
        text: String,
        producer: OverlayTextProducer,
        output_hint: F,
    ) -> (events: Vec<OverlayEvent>)
        requires
            output_hint.requires(()),
        ensures
            ({
                let n = admission(*old(self), expected_session_id, session_id, seq, producer);
                if admits(*old(self), expected_session_id, session_id, seq, producer) {
                    *final(self) == text_routed(n) && exists|hint: Option<String>|
                        output_hint.ensures((), hint) && events@ == #[trigger] hint_events(
                            hint,
                        ).push(OverlayEvent::InterimText { producer, session_id, seq, text })
                } else {
                    *final(self) == n && events@.len() == 0
                }
            }),
    {
        let mut events: Vec<OverlayEvent> = Vec::new();
        if !self.let_through(expected_session_id, session_id, seq, producer) {
            return events;
        }
        let hint = output_hint();
        let ghost given = hint;
        if let Some(output_name) = hint {
            events.push(OverlayEvent::OutputHint { output_name });
        }
        assert(events@ =~= hint_events(given));
        events.push(OverlayEvent::InterimText { producer, session_id, seq, text });
        self.metrics.note_interim_text();
        events
    }

    /// Routes a hint about the output.
    pub fn route_output_hint(&self, output_name: String) -> (events: Vec<OverlayEvent>)
        ensures
            events@ == seq![OverlayEvent::OutputHint { output_name }],
    {
        let mut events: Vec<OverlayEvent> = Vec::new();
        events.push(OverlayEvent::OutputHint { output_name });
        events
    }

    /// Routes a state from the daemon; without a session under way it is dropped.
    pub fn route_daemon_interim_state_with_output_hint<F: FnOnce() -> Option<String>>(
        &mut self,
        expected_session_id: Option<SessionId>,
        session_id: SessionId,
        seq: u64,
        state: String,
        output_hint: F,
    ) -> (events: Vec<OverlayEvent>)
        requires
            output_hint.requires(()),
        ensures
            expected_session_id is None ==> events@.len() == 0 && *final(self) == mismatch_dropped(
                *old(self),
            ),
            expected_session_id is Some ==> ({
                let p = OverlayTextProducer::DaemonSttInterim;
                let n = admission(*old(self), expected_session_id, session_id, seq, p);
                if admits(*old(self), expected_session_id, session_id, seq, p) {
                    *final(self) == state_routed(n) && exists|hint: Option<String>|
                        output_hint.ensures((), hint) && events@ == #[trigger] hint_events(
                            hint,
                        ).push(OverlayEvent::InterimState { producer: p, session_id, seq, state })
                } else {
                    *final(self) == n && events@.len() == 0
                }
            }),
    {
        if expected_session_id.is_none() {
            self.metrics.note_session_mismatch_drop();
            return Vec::new();
        }
        self.route_interim_state(
            expected_session_id,
            session_id,
            seq,
            state,
            OverlayTextProducer::DaemonSttInterim,
            output_hint,
        )
    }

    /// Routes a text from the daemon; without a session under way it is dropped.
    pub fn route_daemon_interim_text_with_output_hint<F: FnOnce() -> Option<String>>(
        &mut self,
        expected_session_id: Option<SessionId>,
        session_id: SessionId,
        seq: u64,
        text: String,
        output_hint: F,
    ) -> (events: Vec<OverlayEvent>)
        requires
            output_hint.requires(()),
        ensures
            expected_session_id is None ==> events@.len() == 0 && *final(self) == mismatch_dropped(
                *old(self),
            ),
            expected_session_id is Some ==> ({
                let p = OverlayTextProducer::DaemonSttInterim;
                let n = admission(*old(self), expected_session_id, session_id, seq, p);
                if admits(*old(self), expected_session_id, session_id, seq, p) {
                    *final(self) == text_routed(n) && exists|hint: Option<String>|
                        output_hint.ensures((), hint) && events@ == #[trigger] hint_events(
                            hint,
                        ).push(OverlayEvent::InterimText { producer: p, session_id, seq, text })
                } else {
                    *final(self) == n && events@.len() == 0
                }
            }),
    {
        if expected_session_id.is_none() {
            self.metrics.note_session_mismatch_drop();
            return Vec::new();
        }
        self.route_interim_text(
            expected_session_id,
            session_id,
            seq,
            text,
            OverlayTextProducer::DaemonSttInterim,
            output_hint,
        )
    }

    /// Routes a state from the daemon, without a hint.
    pub fn route_daemon_interim_state(
        &mut self,
        expected_session_id: Option<SessionId>,
        session_id: SessionId,
        seq: u64,
        state: String,
    ) -> (events: Vec<OverlayEvent>)
        ensures
            expected_session_id is None ==> events@.len() == 0 && *final(self) == mismatch_dropped(
                *old(self),
            ),
            expected_session_id is Some ==> ({
                let p = OverlayTextProducer::DaemonSttInterim;
                let n = admission(*old(self), expected_session_id, session_id, seq, p);
                if admits(*old(self), expected_session_id, session_id, seq, p) {
                    *final(self) == state_routed(n) && events@ == seq![
                        OverlayEvent::InterimState { producer: p, session_id, seq, state },
                    ]
                } else {
                    *final(self) == n && events@.len() == 0
                }
            }),
    {
        let no_hint = || -> (h: Option<String>)
            ensures
                h is None,
            { None };
        self.route_daemon_interim_state_with_output_hint(
            expected_session_id,
            session_id,
            seq,
            state,
            no_hint,
        )
    }

    /// Routes a text from the daemon, without a hint.
    pub fn route_daemon_interim_text(
        &mut self,
        expected_session_id: Option<SessionId>,
        session_id: SessionId,
        seq: u64,
        text: String,
    ) -> (events: Vec<OverlayEvent>)
        ensures
            expected_session_id is None ==> events@.len() == 0 && *final(self) == mismatch_dropped(
                *old(self),
            ),
            expected_session_id is Some ==> ({
                let p = OverlayTextProducer::DaemonSttInterim;
                let n = admission(*old(self), expected_session_id, session_id, seq, p);
                if admits(*old(self), expected_session_id, session_id, seq, p) {
                    *final(self) == text_routed(n) && events@ == seq![
                        OverlayEvent::InterimText { producer: p, session_id, seq, text },
                    ]
                } else {
                    *final(self) == n && events@.len() == 0
                }
            }),
    {
        let no_hint = || -> (h: Option<String>)
            ensures
                h is None,
            { None };
        self.route_daemon_interim_text_with_output_hint(
            expected_session_id,
            session_id,
            seq,
            text,
            no_hint,
        )
    }

    /// Routes a state of the answer; any session may have one.
    pub fn route_llm_answer_state_with_output_hint<F: FnOnce() -> Option<String>>(
        &mut self,
        session_id: SessionId,
        seq: u64,
        state: String,
        output_hint: F,
    ) -> (events: Vec<OverlayEvent>)
        requires
            output_hint.requires(()),
        ensures
            ({
                let p = OverlayTextProducer::LlmAnswerDelta;
                let n = admission(*old(self), None, session_id, seq, p);
                if admits(*old(self), None, session_id, seq, p) {
                    *final(self) == state_routed(n) && exists|hint: Option<String>|
                        output_hint.ensures((), hint) && events@ == #[trigger] hint_events(
                            hint,
                        ).push(OverlayEvent::InterimState { producer: p, session_id, seq, state })
                } else {
                    *final(self) == n && events@.len() == 0
                }
            }),
    {
        self.route_interim_state(
            None,
            session_id,
            seq,
            state,
            OverlayTextProducer::LlmAnswerDelta,
            output_hint,
        )
    }

    /// Routes the text of the answer so far; any session may have one.
    pub fn route_llm_answer_delta_with_output_hint<F: FnOnce() -> Option<String>>(
        &mut self,
        session_id: SessionId,
        seq: u64,
        text: String,
        output_hint: F,
    ) -> (events: Vec<OverlayEvent>)
        requires
            output_hint.requires(()),
        ensures
            ({
                let p = OverlayTextProducer::LlmAnswerDelta;
                let n = admission(*old(self), None, session_id, seq, p);
                if admits(*old(self), None, session_id, seq, p) {
                    *final(self) == text_routed(n) && exists|hint: Option<String>|
                        output_hint.ensures((), hint) && events@ == #[trigger] hint_events(
                            hint,
                        ).push(OverlayEvent::InterimText { producer: p, session_id, seq, text })
                } else {
                    *final(self) == n && events@.len() == 0
                }
            }),
    {
        self.route_interim_text(
            None,
            session_id,
            seq,
            text,
            OverlayTextProducer::LlmAnswerDelta,
            output_hint,
        )
    }

    /// Routes the text of the answer so far, without a hint.
    pub fn route_llm_answer_delta(&mut self, session_id: SessionId, seq: u64, text: String) -> (
        events: Vec<OverlayEvent>)
        ensures
            ({
                let p = OverlayTextProducer::LlmAnswerDelta;
                let n = admission(*old(self), None, session_id, seq, p);
                if admits(*old(self), None, session_id, seq, p) {
                    *final(self) == text_routed(n) && events@ == seq![
                        OverlayEvent::InterimText { producer: p, session_id, seq, text },
                    ]
                } else {
                    *final(self) == n && events@.len() == 0
                }
            }),
    {
        let no_hint = || -> (h: Option<String>)
            ensures
                h is None,
            { None };
        self.route_llm_answer_delta_with_output_hint(session_id, seq, text, no_hint)
    }

    /// Routes a microphone level.
    pub fn route_audio_level(
        &mut self,
        expected_session_id: Option<SessionId>,
        session_id: SessionId,
        level_db: FloatBits,
    ) -> (events: Vec<OverlayEvent>)
        ensures
            if expected_session(expected_session_id, session_id) {
                *final(self) == *old(self) && events@ == seq![
                    OverlayEvent::AudioLevel { session_id, level_db },
                ]
            } else {
                *final(self) == mismatch_dropped(*old(self)) && events@.len() == 0
            },
    {
        let mut events: Vec<OverlayEvent> = Vec::new();
        if self.allow_session(expected_session_id, session_id) {
            events.push(OverlayEvent::AudioLevel { session_id, level_db });
        }
        events
    }

    /// Routes the end of a session; the router follows it no longer.
    pub fn route_session_ended(
        &mut self,
        expected_session_id: Option<SessionId>,
        session_id: SessionId,
        reason: Option<String>,
    ) -> (events: Vec<OverlayEvent>)
        ensures
            *final(self) == session_end(*old(self), expected_session_id, session_id),
            if expected_session(expected_session_id, session_id) {
                events@ == seq![OverlayEvent::SessionEnded { session_id, reason }]
            } else {
                events@.len() == 0
            },
    {
        let mut events: Vec<OverlayEvent> = Vec::new();
        if !self.allow_session(expected_session_id, session_id) {
            return events;
        }
        events.push(OverlayEvent::SessionEnded { session_id, reason });
        self.metrics.note_session_ended();
        if self.active_session_id == Some(session_id) {
            self.active_session_id = None;
            self.last_daemon_seq = None;
            self.last_llm_seq = None;
        }
        events
    }

    /// Routes the end of an injection.
    pub fn route_injection_complete(&self, session_id: SessionId, success: bool) -> (events: Vec<
        OverlayEvent,
    >)
        ensures
            events@ == seq![OverlayEvent::InjectionComplete { session_id, success }],
    {
        let mut events: Vec<OverlayEvent> = Vec::new();
        events.push(OverlayEvent::InjectionComplete { session_id, success });
        events
    }

    /// Routes a warning, if it is for the session that is followed.
    pub fn route_session_warning(
        &self,
        session_id: SessionId,
        remaining_seconds: FloatBits,
        limit_seconds: FloatBits,
    ) -> (events: Vec<OverlayEvent>)
        ensures
            if self.active_session_id == Some(session_id) {
                events@ == seq![
                    OverlayEvent::SessionWarning { session_id, remaining_seconds, limit_seconds },
                ]
            } else {
                events@.len() == 0
            },
    {
        let mut events: Vec<OverlayEvent> = Vec::new();
        if self.active_session_id == Some(session_id) {
            events.push(
                OverlayEvent::SessionWarning { session_id, remaining_seconds, limit_seconds },
            );
        }
        events
    }
}

/// Once an event is let through, none of the same producer and session with that number or a
/// smaller one is.
pub proof fn law_sequence_numbers_rise(
    r: OverlayRouter,
    expected: Option<SessionId>,
    session_id: SessionId,
    seq: u64,
    producer: OverlayTextProducer,
    expected_later: Option<SessionId>,
    seq_later: u64,
)
    requires
        admits(r, expected, session_id, seq, producer),
        seq_later <= seq,
    ensures
        !admits(
            admission(r, expected, session_id, seq, producer),
            expected_later,
            session_id,
            seq_later,
            producer,
        ),
{
}

/// The numbers of the daemon and of the language model are independent: what one producer
/// sends in a session does not change what is let through of the other.
pub proof fn law_producers_are_independent(
    r: OverlayRouter,
    expected: Option<SessionId>,
    session_id: SessionId,
    seq: u64,
    producer: OverlayTextProducer,
    other: OverlayTextProducer,
    other_expected: Option<SessionId>,
    other_seq: u64,
)
    requires
        producer != other,
        expected_session(expected, session_id),
    ensures
        admits(
            admission(r, expected, session_id, seq, producer),
            other_expected,
            session_id,
            other_seq,
            other,
        ) == admits(r, other_expected, session_id, other_seq, other),
{
}

/// An event of another session than the expected one is never let through, and changes nothing
/// but the count of drops.
pub proof fn law_foreign_sessions_are_dropped(
    r: OverlayRouter,
    expected: SessionId,
    session_id: SessionId,
    seq: u64,
    producer: OverlayTextProducer,
)
    requires
        expected != session_id,
    ensures
        !admits(r, Some(expected), session_id, seq, producer),
        admission(r, Some(expected), session_id, seq, producer).active_session_id
            == r.active_session_id,
        admission(r, Some(expected), session_id, seq, producer).last_daemon_seq
            == r.last_daemon_seq,
        admission(r, Some(expected), session_id, seq, producer).last_llm_seq == r.last_llm_seq,
{
}

// ---- what an event becomes

/// Whether a message says what an event says: the same kind of thing, of the same session, and
/// of the same producer with the same number and text.
pub open spec fn says(message: OverlayIpcMessage, event: OverlayEvent) -> bool {
    match (event, message) {
        (
            OverlayEvent::InterimText { producer: p, session_id: s, seq: n, text: t },
            OverlayIpcMessage::InterimText { producer, session_id, seq, text },
        ) => producer == p && session_id == s && seq == n && text == t,
        (
            OverlayEvent::InterimState { producer: p, session_id: s, seq: n, state: t },
            OverlayIpcMessage::InterimState { producer, session_id, seq, state },
        ) => producer == p && session_id == s && seq == n && state == t,
        (
            OverlayEvent::OutputHint { output_name: o },
            OverlayIpcMessage::OutputHint { output_name },
        ) => output_name == o,
        (
            OverlayEvent::AudioLevel { session_id: s, level_db: l },
            OverlayIpcMessage::AudioLevel { session_id, level_db },
        ) => session_id == s && level_db == l,
        (
            OverlayEvent::SessionEnded { session_id: s, reason: r },
            OverlayIpcMessage::SessionEnded { session_id, reason },
        ) => session_id == s && reason == r,
        (
            OverlayEvent::InjectionComplete { session_id: s, success: w },
            OverlayIpcMessage::InjectionComplete { session_id, success },
        ) => session_id == s && success == w,
        (
            OverlayEvent::SessionWarning { session_id: s, remaining_seconds: r, limit_seconds: l },
            OverlayIpcMessage::SessionWarning { session_id, remaining_seconds, limit_seconds },
        ) => session_id == s && remaining_seconds == Some(r) && limit_seconds == Some(l),
        _ => false,
    }
}

/// The message that carries an event says what the event says, field by field.
pub proof fn law_message_says_the_event(event: OverlayEvent)
    ensures
        says(message_of(event), event),
{
}

/// Nothing of an event is lost on its way: two events that become the same message are the same.
pub proof fn law_events_are_told_apart(a: OverlayEvent, b: OverlayEvent)
    requires
        message_of(a) == message_of(b),
    ensures
        a == b,
{
}

/// The message of a text or a state has the producer of its event.
pub proof fn law_message_keeps_the_producer(
    producer: OverlayTextProducer,
    session_id: SessionId,
    seq: u64,
    text: String,
)
    ensures
        message_of(OverlayEvent::InterimText { producer, session_id, seq, text }) matches
            OverlayIpcMessage::InterimText { producer: p, .. } && p == producer,
        message_of(OverlayEvent::InterimState { producer, session_id, seq, state: text }) matches
            OverlayIpcMessage::InterimState { producer: p, .. } && p == producer,
{
}

/// An event is let through exactly where its session is the expected one, if one is expected,
/// and its number is above the last of its producer in that session.
pub proof fn law_fresh_events_are_let_through(
    r: OverlayRouter,
    expected: Option<SessionId>,
    session_id: SessionId,
    seq: u64,
)
    ensures
        admits(r, expected, session_id, seq, OverlayTextProducer::DaemonSttInterim) <==> (expected
            is None || expected == Some(session_id)) && (r.active_session_id == Some(session_id)
            && r.last_daemon_seq is Some ==> seq > r.last_daemon_seq->0),
        admits(r, expected, session_id, seq, OverlayTextProducer::LlmAnswerDelta) <==> (expected
            is None || expected == Some(session_id)) && (r.active_session_id == Some(session_id)
            && r.last_llm_seq is Some ==> seq > r.last_llm_seq->0),
{
}

/// An event that is let through leaves its number behind as the last of its producer, and its
/// session as the one that is followed.
pub proof fn law_admitted_number_is_the_last(
    r: OverlayRouter,
    expected: Option<SessionId>,
    session_id: SessionId,
    seq: u64,
    producer: OverlayTextProducer,
)
    requires
        admits(r, expected, session_id, seq, producer),
    ensures
        ({
            let n = admission(r, expected, session_id, seq, producer);
            &&& n.active_session_id == Some(session_id)
            &&& producer is DaemonSttInterim ==> n.last_daemon_seq == Some(seq)
            &&& producer is LlmAnswerDelta ==> n.last_llm_seq == Some(seq)
            &&& n.metrics == r.metrics
            &&& state_routed(n).active_session_id == n.active_session_id
            &&& state_routed(n).last_daemon_seq == n.last_daemon_seq
            &&& state_routed(n).last_llm_seq == n.last_llm_seq
            &&& text_routed(n).active_session_id == n.active_session_id
            &&& text_routed(n).last_daemon_seq == n.last_daemon_seq
            &&& text_routed(n).last_llm_seq == n.last_llm_seq
        }),
{
}

/// Every event that has a number is counted once: as a state or a text that was routed, as
/// stale, or as one of another session.
pub proof fn law_events_are_counted_once(
    r: OverlayRouter,
    expected: Option<SessionId>,
    session_id: SessionId,
    seq: u64,
    producer: OverlayTextProducer,
)
    requires
        r.metrics.routed_interim_state_total < u64::MAX,
        r.metrics.routed_interim_text_total < u64::MAX,
        r.metrics.dropped_stale_seq_total < u64::MAX,
        r.metrics.dropped_session_mismatch_total < u64::MAX,
    ensures
        ({
            let n = admission(r, expected, session_id, seq, producer);
            let foreign = expected is Some && expected != Some(session_id);
            let late = !foreign && !admits(r, expected, session_id, seq, producer);
            &&& n.metrics.dropped_session_mismatch_total
                == r.metrics.dropped_session_mismatch_total + if foreign {
                1int
            } else {
                0
            }
            &&& n.metrics.dropped_stale_seq_total == r.metrics.dropped_stale_seq_total + if late {
                1int
            } else {
                0
            }
            &&& n.metrics.routed_interim_state_total == r.metrics.routed_interim_state_total
            &&& n.metrics.routed_interim_text_total == r.metrics.routed_interim_text_total
            &&& state_routed(r).metrics.routed_interim_state_total
                == r.metrics.routed_interim_state_total + 1
            &&& state_routed(r).metrics.routed_interim_text_total
                == r.metrics.routed_interim_text_total
            &&& text_routed(r).metrics.routed_interim_text_total
                == r.metrics.routed_interim_text_total + 1
            &&& text_routed(r).metrics.routed_interim_state_total
                == r.metrics.routed_interim_state_total
        }),
{
}

/// A session that has ended may start anew: of the expected session, or where none is expected,
/// any number of any producer is let through again.
pub proof fn law_ended_session_starts_anew(
    r: OverlayRouter,
    expected: Option<SessionId>,
    session_id: SessionId,
    seq: u64,
    producer: OverlayTextProducer,
)
    requires
        expected is None || expected == Some(session_id),
    ensures
        session_end(r, expected, session_id).active_session_id != Some(session_id),
        admits(session_end(r, expected, session_id), expected, session_id, seq, producer),
        r.active_session_id != Some(session_id) ==> session_end(
            r,
            expected,
            session_id,
        ).active_session_id == r.active_session_id,
{
}

/// A hint about the output, where there is one, is a single event that names it.
pub proof fn law_hint_names_the_output(hint: Option<String>)
    ensures
        hint is None ==> hint_events(hint).len() == 0,
        hint matches Some(name) ==> hint_events(hint).len() == 1 && hint_events(hint)[0] == (
        OverlayEvent::OutputHint { output_name: name }),
{
}

/// An event becomes a message that says the same: the producer, the session, the number and the
/// text of a text or a state are those of the event.
pub proof fn law_event_becomes_its_message(event: OverlayEvent, r: OverlayIpcMessage)
    requires
        call_ensures(overlay_event_to_ipc, (event,), r),
    ensures
        says(r, event),
        event matches OverlayEvent::InterimText { producer, session_id, seq, text } ==> r == (
        OverlayIpcMessage::InterimText { session_id, producer, seq, text }),
        event matches OverlayEvent::InterimState { producer, session_id, seq, state } ==> r == (
        OverlayIpcMessage::InterimState { session_id, producer, seq, state }),
{
}

/// A text that is routed comes out as an event of its producer, once: the same number is not
/// routed again, and one of another session than the expected one never is.
pub proof fn law_routed_text_comes_out_once<F: FnOnce() -> Option<String>>(
    expected: Option<SessionId>,
    session_id: SessionId,
    seq: u64,
    text: String,
    producer: OverlayTextProducer,
    hint: F,
)
    ensures
        forall|r: &mut OverlayRouter, events: Vec<OverlayEvent>| #[trigger]
            call_ensures(
                OverlayRouter::route_interim_text::<F>,
                (r, expected, session_id, seq, text, producer, hint),
                events,
            ) ==> {
                let last = if producer is DaemonSttInterim {
                    r.last_daemon_seq
                } else {
                    r.last_llm_seq
                };
                let fresh = (expected is None || expected == Some(session_id)) && (
                r.active_session_id != Some(session_id) || last is None || seq > last->0);
                &&& events@.len() > 0 <==> fresh
                &&& fresh ==> events@.last() == (OverlayEvent::InterimText {
                    producer,
                    session_id,
                    seq,
                    text,
                })
                &&& fresh && producer is DaemonSttInterim ==> final(r).last_daemon_seq == Some(seq)
                &&& fresh && producer is LlmAnswerDelta ==> final(r).last_llm_seq == Some(seq)
            },
        forall|r: &mut OverlayRouter, events: Vec<OverlayEvent>| #[trigger]
            call_ensures(
                OverlayRouter::route_interim_state::<F>,
                (r, expected, session_id, seq, text, producer, hint),
                events,
            ) ==> {
                let last = if producer is DaemonSttInterim {
                    r.last_daemon_seq
                } else {
                    r.last_llm_seq
                };
                let fresh = (expected is None || expected == Some(session_id)) && (
                r.active_session_id != Some(session_id) || last is None || seq > last->0);
                &&& events@.len() > 0 <==> fresh
                &&& fresh ==> events@.last() == (OverlayEvent::InterimState {
                    producer,
                    session_id,
                    seq,
                    state: text,
                })
            },
{
}

/// Levels, ends, injections and warnings come out as they went in; levels and ends unless they
/// are of another session than the expected one, warnings where their session is followed.
pub proof fn law_other_events_come_out(
    expected: Option<SessionId>,
    session_id: SessionId,
    level: FloatBits,
    limit: FloatBits,
    reason: Option<String>,
    success: bool,
)
    ensures
        forall|r: &mut OverlayRouter, events: Vec<OverlayEvent>| #[trigger]
            call_ensures(OverlayRouter::route_audio_level, (r, expected, session_id, level), events)
                ==> if expected is None || expected == Some(session_id) {
                events@ == seq![OverlayEvent::AudioLevel { session_id, level_db: level }]
            } else {
                events@.len() == 0
            },
        forall|r: &mut OverlayRouter, events: Vec<OverlayEvent>| #[trigger]
            call_ensures(
                OverlayRouter::route_session_ended,
                (r, expected, session_id, reason),
                events,
            ) ==> if expected is None || expected == Some(session_id) {
                events@ == seq![OverlayEvent::SessionEnded { session_id, reason }]
                    && final(r).active_session_id != Some(session_id)
            } else {
                events@.len() == 0 && final(r).active_session_id == r.active_session_id
            },
        forall|r: &OverlayRouter, events: Vec<OverlayEvent>| #[trigger]
            call_ensures(OverlayRouter::route_injection_complete, (r, session_id, success), events)
                ==> events@ == seq![OverlayEvent::InjectionComplete { session_id, success }],
        forall|r: &OverlayRouter, events: Vec<OverlayEvent>| #[trigger]
            call_ensures(OverlayRouter::route_session_warning, (r, session_id, level, limit), events)
                ==> if r.active_session_id == Some(session_id) {
                events@ == seq![
                    OverlayEvent::SessionWarning {
                        session_id,
                        remaining_seconds: level,
                        limit_seconds: limit,
                    },
                ]
            } else {
                events@.len() == 0
            },
{
}

} // verus!
