//! The client's side of a session: what daemon messages do to its state, the overlay and the
//! injection queue.
use vstd::prelude::*;

use std::collections::HashMap;

use vstd::std_specs::hash::group_hash_axioms;

use crate::injector::one_more;
use crate::injector_runtime::{between, InjectionJob, InjectionOrigin};
use crate::overlay_ipc::OverlayTextProducer;
use crate::overlay_router::{
    admission, admits, expected_session, following, hint_events, mismatch_dropped, session_end,
    state_routed, text_routed, OverlayEvent, OverlayRouter,
};
use crate::protocol::{is_v4, ServerMessage, SessionId};
use crate::state::{session_id_from_state, state_label, state_text, PttState};
use crate::surface_focus::ParentFocusCapture;
use crate::text::{opt_string, same};

verus! {

broadcast use group_hash_axioms;

/// The focus that was captured for a session, and when.
#[derive(Debug)]
pub struct CapturedParentFocus {
    pub focus: ParentFocusCapture,
    pub captured_at_ms: u64,
}

/// What a session is for.
#[derive(Debug, Clone, Copy, PartialEq, Eq, Structural)]
pub enum SessionIntent {
    Dictate,
    LlmQuery,
}

/// What the client keeps about answers of the language model.
#[derive(Debug)]
pub struct LlmSessionRuntime {
    busy: bool,
    in_flight_session: Option<SessionId>,
    seq: HashMap<u128, u64>,
    overlay_text: HashMap<u128, String>,
    deferred_session_end: HashMap<u128, Option<String>>,
    busy_overlay_seq: u64,
}

/// What the client keeps about answers, mathematically.
#[verifier::ext_equal]
pub struct LlmModel {
    pub busy: bool,
    pub in_flight: Option<SessionId>,
    pub seq: Map<u128, u64>,
    pub overlay_text: Map<u128, Seq<char>>,
    pub deferred: Map<u128, Option<Seq<char>>>,
    pub busy_seq: u64,
}

/// What the client keeps about its sessions.
#[derive(Debug)]
pub struct ClientSessionRuntime {
    state: PttState,
    active_intent: Option<SessionIntent>,
    llm: LlmSessionRuntime,
    parent_focus_by_session: HashMap<u128, CapturedParentFocus>,
    last_hotkey_up_ms: Option<u64>,
    last_stop_message: Option<(SessionId, u64)>,
}

/// What the client keeps about its sessions, mathematically.
#[verifier::ext_equal]
pub struct SessionModel {
    pub state: PttState,
    pub active_intent: Option<SessionIntent>,
    pub llm: LlmModel,
    pub focus: Map<u128, CapturedParentFocus>,
    pub last_hotkey_up_ms: Option<u64>,
    pub last_stop: Option<(SessionId, u64)>,
}

/// The text that the overlay shows of an answer, and its sequence number.
#[derive(Debug, PartialEq, Eq)]
pub struct LlmDeltaOverlay {
    pub seq: u64,
    pub text: String,
}

/// What is known when an answer is complete.
#[derive(Debug)]
pub struct LlmCompletionContext {
    pub session_end_reason: Option<String>,
    pub session_end_was_deferred: bool,
    pub state_label: &'static str,
    pub hotkey_up_elapsed_ms_at_enqueue: Option<u64>,
    pub stop_message_elapsed_ms_at_enqueue: Option<u64>,
    pub parent_focus: Option<ParentFocusCapture>,
}

/// Nothing under way, nothing kept.
pub open spec fn no_llm() -> LlmModel {
    LlmModel {
        busy: false,
        in_flight: None,
        seq: Map::empty(),
        overlay_text: Map::empty(),
        deferred: Map::empty(),
        busy_seq: 0,
    }
}

/// Nothing under way, nothing kept.
pub open spec fn no_session() -> SessionModel {
    SessionModel {
        state: PttState::Idle,
        active_intent: None,
        llm: no_llm(),
        focus: Map::empty(),
        last_hotkey_up_ms: None,
        last_stop: None,
    }
}

/// The number of the next event of a session's answer.
pub open spec fn next_number(seq: Map<u128, u64>, id: SessionId) -> u64 {
    one_more(
        if seq.dom().contains(id.bits) {
            seq[id.bits]
        } else {
            0
        },
    )
}

/// What is kept about answers, after a number was given out.
pub open spec fn numbered(m: LlmModel, id: SessionId) -> LlmModel {
    LlmModel { seq: m.seq.insert(id.bits, next_number(m.seq, id)), ..m }
}

/// What is kept about answers, without anything of one session.
pub open spec fn without_session(m: LlmModel, id: SessionId) -> LlmModel {
    LlmModel {
        seq: m.seq.remove(id.bits),
        overlay_text: m.overlay_text.remove(id.bits),
        deferred: m.deferred.remove(id.bits),
        ..m
    }
}

/// What is kept about answers after the connection dropped. The number of busy notices goes on.
pub open spec fn llm_cleared(m: LlmModel) -> LlmModel {
    LlmModel {
        busy: false,
        in_flight: None,
        seq: Map::empty(),
        overlay_text: Map::empty(),
        deferred: Map::empty(),
        ..m
    }
}

/// The text of an answer that the overlay has so far.
pub open spec fn answer_so_far(m: LlmModel, id: SessionId) -> Seq<char> {
    if m.overlay_text.dom().contains(id.bits) {
        m.overlay_text[id.bits]
    } else {
        Seq::empty()
    }
}

/// The client idle again.
pub open spec fn idle(m: SessionModel) -> SessionModel {
    SessionModel { state: PttState::Idle, active_intent: None, ..m }
}

/// The client without the focus that was captured for a session.
pub open spec fn without_focus(m: SessionModel, id: SessionId) -> SessionModel {
    SessionModel { focus: m.focus.remove(id.bits), ..m }
}

/// The time since a moment, where there was one.
pub open spec fn since(at: Option<u64>, now_ms: u64) -> Option<u64> {
    match at {
        Some(t) => Some(between(t, now_ms)),
        None => None,
    }
}

/// The time since the stop message, where the last one was for this session.
pub open spec fn since_stop(m: SessionModel, id: SessionId, now_ms: u64) -> Option<u64> {
    match m.last_stop {
        Some((stopped, at)) => if stopped == id {
            Some(between(at, now_ms))
        } else {
            None
        },
        None => None,
    }
}

/// The focus that was captured for a session, with its age.
pub open spec fn focus_for(m: SessionModel, id: SessionId, now_ms: u64) -> Option<
    ParentFocusCapture,
> {
    if m.focus.dom().contains(id.bits) {
        Some(
            ParentFocusCapture {
                captured_elapsed_ms: Some(between(m.focus[id.bits].captured_at_ms, now_ms)),
                ..m.focus[id.bits].focus
            },
        )
    } else {
        None
    }
}

/// Whether the end of a session is put off until its answer has been injected.
pub open spec fn defers_end(m: SessionModel, id: SessionId) -> bool {
    (m.active_intent == Some(SessionIntent::LlmQuery) && m.state.session() == Some(id))
        || m.llm.in_flight == Some(id)
}

/// The reason with which the end of a session was put off.
pub open spec fn deferred_reason(m: LlmModel, id: SessionId) -> Option<Seq<char>> {
    if m.deferred.dom().contains(id.bits) {
        m.deferred[id.bits]
    } else {
        None
    }
}

impl LlmSessionRuntime {
    /// What is kept about answers, mathematically.
    pub closed spec fn model(self) -> LlmModel {
        LlmModel {
            busy: self.busy,
            in_flight: self.in_flight_session,
            seq: self.seq@,
            overlay_text: self.overlay_text@.map_values(|s: String| s@),
            deferred: self.deferred_session_end@.map_values(|s: Option<String>| opt_string(s)),
            busy_seq: self.busy_overlay_seq,
        }
    }

    fn new() -> (r: LlmSessionRuntime)
        ensures
            r.model() == no_llm(),
    {
        let r = LlmSessionRuntime {
            busy: false,
            in_flight_session: None,
            seq: HashMap::new(),
            overlay_text: HashMap::new(),
            deferred_session_end: HashMap::new(),
            busy_overlay_seq: 0,
        };
        assert(r.model() =~= no_llm());
        r
    }

    fn next_seq(&mut self, session_id: SessionId) -> (r: u64)
        ensures
            r == next_number(old(self).model().seq, session_id),
            final(self).model() == numbered(old(self).model(), session_id),
    {
        let last: u64 = match self.seq.get(&session_id.bits) {
            Some(n) => *n,
            None => 0,
        };
        let next: u64 = last.saturating_add(1);
        self.seq.insert(session_id.bits, next);
        assert(self.model() =~= numbered(old(self).model(), session_id));
        next
    }

    fn clear_session(&mut self, session_id: SessionId)
        ensures
            final(self).model() == without_session(old(self).model(), session_id),
    {
        self.seq.remove(&session_id.bits);
        self.overlay_text.remove(&session_id.bits);
        self.deferred_session_end.remove(&session_id.bits);
        assert(self.model() =~= without_session(old(self).model(), session_id));
    }

    fn clear(&mut self)
        ensures
            final(self).model() == llm_cleared(old(self).model()),
    {
        self.busy = false;
        self.in_flight_session = None;
        self.seq.clear();
        self.overlay_text.clear();
        self.deferred_session_end.clear();
        assert(self.model() =~= llm_cleared(old(self).model()));
    }

    /// Adds a piece to the text that the overlay shows, and gives all of it.
    fn append_text(&mut self, session_id: SessionId, delta: &str) -> (r: String)
        ensures
            r@ == answer_so_far(old(self).model(), session_id) + delta@,
            final(self).model() == (LlmModel {
                overlay_text: old(self).model().overlay_text.insert(session_id.bits, r@),
                ..old(self).model()
            }),
    {
        let mut text: String = match self.overlay_text.get(&session_id.bits) {
            Some(t) => t.as_str().to_owned(),
            None => String::new(),
        };
        text.push_str(delta);
        self.overlay_text.insert(session_id.bits, text.as_str().to_owned());
        assert(self.model() =~= (LlmModel {
            overlay_text: old(self).model().overlay_text.insert(session_id.bits, text@),
            ..old(self).model()
        }));
        text
    }

    /// Takes the reason with which the end of a session was put off.
    fn take_deferred(&mut self, session_id: SessionId) -> (r: Option<String>)
        ensures
            opt_string(r) == deferred_reason(old(self).model(), session_id),
            final(self).model() == (LlmModel {
                deferred: old(self).model().deferred.remove(session_id.bits),
                ..old(self).model()
            }),
    {
        let r: Option<String> = match self.deferred_session_end.remove(&session_id.bits) {
            Some(reason) => reason,
            None => None,
        };
        assert(self.model() =~= (LlmModel {
            deferred: old(self).model().deferred.remove(session_id.bits),
            ..old(self).model()
        }));
        r
    }
}

impl ClientSessionRuntime {
    /// What the client keeps about its sessions, mathematically.
    pub closed spec fn model(self) -> SessionModel {
        SessionModel {
            state: self.state,
            active_intent: self.active_intent,
            llm: self.llm.model(),
            focus: self.parent_focus_by_session@,
            last_hotkey_up_ms: self.last_hotkey_up_ms,
            last_stop: self.last_stop_message,
        }
    }

    /// Nothing under way, nothing kept.
    pub fn new() -> (r: ClientSessionRuntime)
        ensures
            r.model() == no_session(),
    {
        let r = ClientSessionRuntime {
            state: PttState::new(),
            active_intent: None,
            llm: LlmSessionRuntime::new(),
            parent_focus_by_session: HashMap::new(),
            last_hotkey_up_ms: None,
            last_stop_message: None,
        };
        assert(r.model() =~= no_session());
        r
    }

    /// Starts a session under the given identity, if none is under way.
    pub fn begin_listening_as(&mut self, intent: SessionIntent, session_id: SessionId) -> (r:
        Option<SessionId>)
        ensures
            old(self).model().state == PttState::Idle ==> r == Some(session_id)
                && final(self).model() == (SessionModel {
                state: PttState::Listening { session_id },
                active_intent: Some(intent),
                ..old(self).model()
            }),
            old(self).model().state != PttState::Idle ==> r is None && final(self).model()
                == old(self).model(),
    {
        let started = self.state.begin_listening_as(session_id);
        if started.is_some() {
            self.active_intent = Some(intent);
        }
        started
    }

    /// Starts a session under a new identity, if none is under way.
    pub fn begin_listening(&mut self, intent: SessionIntent) -> (r: Option<SessionId>)
        ensures
            old(self).model().state == PttState::Idle ==> r is Some && is_v4(r->0.bits)
                && final(self).model() == (SessionModel {
                state: PttState::Listening { session_id: r->0 },
                active_intent: Some(intent),
                ..old(self).model()
            }),
            old(self).model().state != PttState::Idle ==> r is None && final(self).model()
                == old(self).model(),
    {
        let started = self.state.begin_listening();
        if started.is_some() {
            self.active_intent = Some(intent);
        }
        started
    }

    /// Stops listening, if that is what is under way.
    pub fn stop_listening(&mut self) -> (r: Option<SessionId>)
        ensures
            match old(self).model().state {
                PttState::Listening { session_id } => r == Some(session_id) && final(self).model()
                    == (SessionModel {
                    state: PttState::WaitingResult { session_id },
                    ..old(self).model()
                }),
                _ => r is None && final(self).model() == old(self).model(),
            },
    {
        self.state.stop_listening()
    }

    /// Notes that the stop message was sent, and the focus at that moment.
    pub fn record_stop_message_sent(
        &mut self,
        session_id: SessionId,
        parent_focus: Option<ParentFocusCapture>,
        sent_at_ms: u64,
    )
        ensures
            final(self).model() == (SessionModel {
                last_hotkey_up_ms: Some(sent_at_ms),
                last_stop: Some((session_id, sent_at_ms)),
                focus: match parent_focus {
                    Some(focus) => old(self).model().focus.insert(
                        session_id.bits,
                        CapturedParentFocus { focus, captured_at_ms: sent_at_ms },
                    ),
                    None => old(self).model().focus,
                },
                ..old(self).model()
            }),
    {
        self.last_hotkey_up_ms = Some(sent_at_ms);
        self.last_stop_message = Some((session_id, sent_at_ms));
        if let Some(focus) = parent_focus {
            self.parent_focus_by_session.insert(
                session_id.bits,
                CapturedParentFocus { focus, captured_at_ms: sent_at_ms },
            );
        }
    }

    /// Gives up the session under way.
    pub fn reset(&mut self)
        ensures
            final(self).model() == idle(old(self).model()),
    {
        self.state.reset();
        self.active_intent = None;
    }

    /// Forgets everything that the connection carried.
    pub fn reset_for_connection_drop(&mut self)
        ensures
            final(self).model() == connection_dropped(old(self).model()),
    {
        self.reset();
        self.llm.clear();
        self.parent_focus_by_session.clear();
        self.last_hotkey_up_ms = None;
        self.last_stop_message = None;
        assert(self.model() =~= connection_dropped(old(self).model()));
    }

    /// What the session under way is for.
    pub fn active_intent(&self) -> (r: Option<SessionIntent>)
        ensures
            r == self.model().active_intent,
    {
        self.active_intent
    }

    /// The session under way.
    pub fn active_session_id(&self) -> (r: Option<SessionId>)
        ensures
            r == self.model().state.session(),
    {
        session_id_from_state(&self.state)
    }

    /// The name of the state in logs.
    pub fn state_label(&self) -> (r: &'static str)
        ensures
            r@ == state_text(self.model().state),
    {
        state_label(&self.state)
    }

    /// Whether an answer is being generated.
    pub fn is_llm_busy(&self) -> (r: bool)
        ensures
            r == self.model().llm.busy,
    {
        self.llm.busy
    }

    /// Numbers a notice that the language model is busy; it belongs to no session.
    pub fn note_llm_busy_overlay_rejection(&mut self) -> (r: (SessionId, u64))
        ensures
            r.0 == SessionId::nil_id(),
            r.1 == one_more(old(self).model().llm.busy_seq),
            final(self).model() == (SessionModel {
                llm: LlmModel { busy_seq: r.1, ..old(self).model().llm },
                ..old(self).model()
            }),
    {
        self.llm.busy_overlay_seq = self.llm.busy_overlay_seq.saturating_add(1);
        (SessionId::nil(), self.llm.busy_overlay_seq)
    }

    /// Puts the end of a session off, where its answer is still to come.
    pub fn defer_session_end_if_needed(&mut self, message: &ServerMessage) -> (r: Option<SessionId>)
        ensures
            match *message {
                ServerMessage::SessionEnded { session_id, reason } => if defers_end(
                    old(self).model(),
                    session_id,
                ) {
                    r == Some(session_id) && final(self).model() == (SessionModel {
                        llm: LlmModel {
                            deferred: old(self).model().llm.deferred.insert(
                                session_id.bits,
                                opt_string(reason),
                            ),
                            ..old(self).model().llm
                        },
                        ..old(self).model()
                    })
                } else {
                    r is None && final(self).model() == old(self).model()
                },
                _ => r is None && final(self).model() == old(self).model(),
            },
    {
        match message {
            ServerMessage::SessionEnded { session_id, reason } => {
                let waiting = self.active_intent == Some(SessionIntent::LlmQuery)
                    && self.active_session_id() == Some(*session_id);
                let running = self.llm.in_flight_session == Some(*session_id);
                if waiting || running {
                    let kept: Option<String> = crate::injector::copy_opt(reason);
                    self.llm.deferred_session_end.insert(session_id.bits, kept);
                    assert(self.llm.model().deferred =~= old(self).model().llm.deferred.insert(
                        session_id.bits,
                        opt_string(*reason),
                    ));
                    Some(*session_id)
                } else {
                    None
                }
            },
            _ => None,
        }
    }

    /// Starts to wait for the answer to a session's question; the session itself is over.
    pub fn start_llm_answer(&mut self, session_id: SessionId) -> (r: u64)
        ensures
            r == next_number(old(self).model().llm.seq, session_id),
            final(self).model() == idle(
                SessionModel {
                    llm: LlmModel {
                        busy: true,
                        in_flight: Some(session_id),
                        ..numbered(old(self).model().llm, session_id)
                    },
                    ..old(self).model()
                },
            ),
    {
        self.llm.busy = true;
        self.llm.in_flight_session = Some(session_id);
        let seq: u64 = self.llm.next_seq(session_id);
        self.state.reset();
        self.active_intent = None;
        seq
    }

    /// Takes a piece of an answer; one of another session than the one in flight is ignored.
    pub fn record_llm_delta(&mut self, session_id: SessionId, delta: String) -> (r: Option<
        LlmDeltaOverlay,
    >)
        ensures
            if old(self).model().llm.in_flight == Some(session_id) {
                let text = answer_so_far(old(self).model().llm, session_id) + delta@;
                &&& r matches Some(d) && d.text@ == text && d.seq == next_number(
                    old(self).model().llm.seq,
                    session_id,
                )
                &&& final(self).model() == (SessionModel {
                    llm: numbered(
                        LlmModel {
                            overlay_text: old(self).model().llm.overlay_text.insert(
                                session_id.bits,
                                text,
                            ),
                            ..old(self).model().llm
                        },
                        session_id,
                    ),
                    ..old(self).model()
                })
            } else {
                r is None && final(self).model() == old(self).model()
            },
    {
        if self.llm.in_flight_session != Some(session_id) {
            return None;
        }
        let text = self.llm.append_text(session_id, delta.as_str());
        let seq: u64 = self.llm.next_seq(session_id);
        Some(LlmDeltaOverlay { seq, text })
    }

    /// Ends an answer; one of another session than the one in flight is ignored and forgotten.
    pub fn finish_llm_answer(&mut self, session_id: SessionId, now_ms: u64) -> (r: Option<
        LlmCompletionContext,
    >)
        ensures
            if old(self).model().llm.in_flight == Some(session_id) {
                &&& final(self).model() == answer_finished(old(self).model(), session_id)
                &&& r matches Some(c) && {
                    &&& opt_string(c.session_end_reason) == deferred_reason(
                        old(self).model().llm,
                        session_id,
                    )
                    &&& c.session_end_was_deferred == (c.session_end_reason is Some)
                    &&& c.state_label@ == state_text(old(self).model().state)
                    &&& c.hotkey_up_elapsed_ms_at_enqueue == since(
                        old(self).model().last_hotkey_up_ms,
                        now_ms,
                    )
                    &&& c.stop_message_elapsed_ms_at_enqueue == since_stop(
                        old(self).model(),
                        session_id,
                        now_ms,
                    )
                    &&& c.parent_focus == focus_for(old(self).model(), session_id, now_ms)
                }
            } else {
                r is None && final(self).model() == (SessionModel {
                    llm: without_session(old(self).model().llm, session_id),
                    ..old(self).model()
                })
            },
    {
        if self.llm.in_flight_session != Some(session_id) {
            self.llm.clear_session(session_id);
            return None;
        }
        self.llm.busy = false;
        self.llm.in_flight_session = None;
        let session_end_reason = self.llm.take_deferred(session_id);
        self.llm.clear_session(session_id);
        let session_end_was_deferred = session_end_reason.is_some();
        let label = self.state_label();
        let hotkey_up = elapsed_ms_since(self.last_hotkey_up_ms, now_ms);
        let stop = self.stop_message_elapsed_ms_at_enqueue(session_id, now_ms);
        let parent_focus = self.take_parent_focus_for_enqueue(session_id, now_ms);
        assert(self.model() =~= answer_finished(old(self).model(), session_id));
        Some(
            LlmCompletionContext {
                session_end_reason,
                session_end_was_deferred,
                state_label: label,
                hotkey_up_elapsed_ms_at_enqueue: hotkey_up,
                stop_message_elapsed_ms_at_enqueue: stop,
                parent_focus,
            },
        )
    }

    /// Whether a final result is for the session under way.
    pub fn final_result_belongs_to_active_session(&self, session_id: SessionId) -> (r: bool)
        ensures
            r == (self.model().state.session() == Some(session_id)),
    {
        self.active_session_id() == Some(session_id)
    }

    /// Takes the focus that was captured for a session, with its age.
    fn take_parent_focus_for_enqueue(&mut self, session_id: SessionId, now_ms: u64) -> (r: Option<
        ParentFocusCapture,
    >)
        ensures
            r == focus_for(old(self).model(), session_id, now_ms),
            final(self).model() == without_focus(old(self).model(), session_id),
    {
        match self.parent_focus_by_session.remove(&session_id.bits) {
            Some(captured) => {
                let mut focus = captured.focus;
                focus.captured_elapsed_ms = Some(now_ms.saturating_sub(captured.captured_at_ms));
                assert(self.model() =~= without_focus(old(self).model(), session_id));
                Some(focus)
            },
            None => {
                assert(self.model() =~= without_focus(old(self).model(), session_id));
                None
            },
        }
    }

    /// Forgets the focus that was captured for a session.
    fn remove_parent_focus(&mut self, session_id: SessionId)
        ensures
            final(self).model() == without_focus(old(self).model(), session_id),
    {
        self.parent_focus_by_session.remove(&session_id.bits);
        assert(self.model() =~= without_focus(old(self).model(), session_id));
    }

    /// The time since the stop message, where the last one was for this session.
    fn stop_message_elapsed_ms_at_enqueue(&self, session_id: SessionId, now_ms: u64) -> (r: Option<
        u64,
    >)
        ensures
            r == since_stop(self.model(), session_id, now_ms),
    {
        match self.last_stop_message {
            Some((stopped, at)) => {
                if stopped == session_id {
                    Some(now_ms.saturating_sub(at))
                } else {
                    None
                }
            },
            None => None,
        }
    }
}

/// The client after the connection dropped.
pub open spec fn connection_dropped(m: SessionModel) -> SessionModel {
    SessionModel { llm: llm_cleared(m.llm), ..no_session() }
}

/// The client after the answer in flight was finished.
pub open spec fn answer_finished(m: SessionModel, id: SessionId) -> SessionModel {
    SessionModel {
        llm: LlmModel { busy: false, in_flight: None, ..without_session(m.llm, id) },
        ..without_focus(m, id)
    }
}

/// The time since a moment, where there was one.
pub fn elapsed_ms_since(at_ms: Option<u64>, now_ms: u64) -> (r: Option<u64>)
    ensures
        r == since(at_ms, now_ms),
{
    match at_ms {
        Some(t) => Some(now_ms.saturating_sub(t)),
        None => None,
    }
}

/// The kind of error that a code of the daemon stands for.
pub open spec fn error_kind_of(code: Seq<char>) -> Seq<char> {
    if code == "SESSION_BUSY"@ {
        "session_busy"@
    } else if code == "SESSION_NOT_FOUND"@ {
        "session_not_found"@
    } else if code == "SESSION_ABORTED"@ {
        "session_aborted"@
    } else if code == "AUDIO_DEVICE"@ {
        "audio_device"@
    } else if code == "MODEL"@ {
        "model"@
    } else if code == "INVALID_REQUEST"@ {
        "invalid_request"@
    } else if code == "UNEXPECTED"@ {
        "unexpected"@
    } else {
        "unknown"@
    }
}

/// The kind of error that a code of the daemon stands for.
pub fn classify_error_code(code: &str) -> (r: &'static str)
    ensures
        r@ == error_kind_of(code@),
{
    if same(code, "SESSION_BUSY") {
        "session_busy"
    } else if same(code, "SESSION_NOT_FOUND") {
        "session_not_found"
    } else if same(code, "SESSION_ABORTED") {
        "session_aborted"
    } else if same(code, "AUDIO_DEVICE") {
        "audio_device"
    } else if same(code, "MODEL") {
        "model"
    } else if same(code, "INVALID_REQUEST") {
        "invalid_request"
    } else if same(code, "UNEXPECTED") {
        "unexpected"
    } else {
        "unknown"
    }
}

/// What a message of the daemon leads to: events for the overlay, and perhaps a job.
#[derive(Debug)]
pub struct ServerEffects {
    pub overlay: Vec<OverlayEvent>,
    pub job: Option<InjectionJob>,
}

/// The job that a final result leads to.
pub open spec fn final_result_job(
    m: SessionModel,
    session_id: SessionId,
    text: String,
    latency_ms: u64,
    audio_ms: u64,
    now_ms: u64,
) -> InjectionJob {
    InjectionJob {
        session_id,
        text,
        daemon_latency_ms: latency_ms,
        daemon_audio_ms: audio_ms,
        origin: InjectionOrigin::RawFinalResult,
        hotkey_up_elapsed_ms_at_enqueue: since(m.last_hotkey_up_ms, now_ms),
        stop_message_elapsed_ms_at_enqueue: since_stop(m, session_id, now_ms),
        parent_focus: focus_for(m, session_id, now_ms),
        enqueued_at_ms: now_ms,
    }
}

/// The client after a message of the daemon.
pub open spec fn session_after(m: SessionModel, message: ServerMessage) -> SessionModel {
    match message {
        ServerMessage::FinalResult { session_id, .. } => if m.state.session() == Some(session_id) {
            idle(without_focus(m, session_id))
        } else {
            m
        },
        ServerMessage::Error { session_id, .. } => match session_id {
            Some(id) => idle(without_focus(m, id)),
            None => idle(m),
        },
        ServerMessage::SessionEnded { session_id, .. } => without_focus(m, session_id),
        _ => m,
    }
}

/// The job that a message of the daemon leads to.
pub open spec fn job_after(m: SessionModel, message: ServerMessage, now_ms: u64) -> Option<
    InjectionJob,
> {
    match message {
        ServerMessage::FinalResult { session_id, text, latency_ms, audio_ms, .. } =>
            if m.state.session() == Some(session_id) {
                Some(final_result_job(m, session_id, text, latency_ms, audio_ms, now_ms))
            } else {
                None
            },
        _ => None,
    }
}

/// The router after a message of the daemon.
pub open spec fn router_after(m: SessionModel, router: OverlayRouter, message: ServerMessage) ->
    OverlayRouter {
    let active = m.state.session();
    let p = OverlayTextProducer::DaemonSttInterim;
    match message {
        ServerMessage::SessionStarted { session_id } => following(router, session_id),
        ServerMessage::InterimState { session_id, seq, .. } => if active is None {
            mismatch_dropped(router)
        } else if admits(router, active, session_id, seq, p) {
            state_routed(admission(router, active, session_id, seq, p))
        } else {
            admission(router, active, session_id, seq, p)
        },
        ServerMessage::InterimText { session_id, seq, .. } => if active is None {
            mismatch_dropped(router)
        } else if admits(router, active, session_id, seq, p) {
            text_routed(admission(router, active, session_id, seq, p))
        } else {
            admission(router, active, session_id, seq, p)
        },
        ServerMessage::AudioLevel { session_id, .. } => if expected_session(active, session_id) {
            router
        } else {
            mismatch_dropped(router)
        },
        ServerMessage::SessionEnded { session_id, .. } => session_end(router, active, session_id),
        _ => router,
    }
}

/// The event that a message of the daemon leads to; a state or a text may have a hint about the
/// output in front.
pub open spec fn event_after(m: SessionModel, router: OverlayRouter, message: ServerMessage) ->
    Option<OverlayEvent> {
    let active = m.state.session();
    let p = OverlayTextProducer::DaemonSttInterim;
    match message {
        ServerMessage::InterimState { session_id, seq, state } => if active is Some && admits(
            router,
            active,
            session_id,
            seq,
            p,
        ) {
            Some(OverlayEvent::InterimState { producer: p, session_id, seq, state })
        } else {
            None
        },
        ServerMessage::InterimText { session_id, seq, text } => if active is Some && admits(
            router,
            active,
            session_id,
            seq,
            p,
        ) {
            Some(OverlayEvent::InterimText { producer: p, session_id, seq, text })
        } else {
            None
        },
        ServerMessage::AudioLevel { session_id, level_db } => if expected_session(
            active,
            session_id,
        ) {
            Some(OverlayEvent::AudioLevel { session_id, level_db })
        } else {
            None
        },
        ServerMessage::SessionEnded { session_id, reason } => if expected_session(
            active,
            session_id,
        ) {
            Some(OverlayEvent::SessionEnded { session_id, reason })
        } else {
            None
        },
        ServerMessage::SessionWarning { session_id, remaining_seconds, limit_seconds, .. } =>
            if router.active_session_id == Some(session_id) {
                Some(
                    OverlayEvent::SessionWarning { session_id, remaining_seconds, limit_seconds },
                )
            } else {
                None
            },
        _ => None,
    }
}

/// Whether an event may have a hint about the output in front.
pub open spec fn may_have_hint(event: OverlayEvent) -> bool {
    event is InterimState || event is InterimText
}

/// Takes a message of the daemon.
pub fn handle_server_message<F: FnOnce() -> Option<String>>(
    message: ServerMessage,
    runtime: &mut ClientSessionRuntime,
    overlay_router: &mut OverlayRouter,
    now_ms: u64,
    output_hint: F,
) -> (r: ServerEffects)
    requires
        output_hint.requires(()),
    ensures
        final(runtime).model() == session_after(old(runtime).model(), message),
        *final(overlay_router) == router_after(
            old(runtime).model(),
            *old(overlay_router),
            message,
        ),
        r.job == job_after(old(runtime).model(), message, now_ms),
        match event_after(old(runtime).model(), *old(overlay_router), message) {
            None => r.overlay@.len() == 0,
            Some(event) => if may_have_hint(event) {
                exists|hint: Option<String>|
                    output_hint.ensures((), hint) && r.overlay@ == #[trigger] hint_events(
                        hint,
                    ).push(event)
            } else {
                r.overlay@ == seq![event]
            },
        },
{
    match message {
        ServerMessage::SessionStarted { session_id } => {
            overlay_router.note_session_started(session_id);
            ServerEffects { overlay: Vec::new(), job: None }
        },
        ServerMessage::FinalResult { session_id, text, latency_ms, audio_ms, .. } => {
            if !runtime.final_result_belongs_to_active_session(session_id) {
                return ServerEffects { overlay: Vec::new(), job: None };
            }
            let hotkey_up = elapsed_ms_since(runtime.last_hotkey_up_ms, now_ms);
            let stop = runtime.stop_message_elapsed_ms_at_enqueue(session_id, now_ms);
            let parent_focus = runtime.take_parent_focus_for_enqueue(session_id, now_ms);
            let job = InjectionJob::new(
                session_id,
                text,
                latency_ms,
                audio_ms,
                now_ms,
            ).with_origin(InjectionOrigin::RawFinalResult).with_enqueue_timing(
                hotkey_up,
                stop,
            ).with_parent_focus(parent_focus);
            runtime.reset();
            ServerEffects { overlay: Vec::new(), job: Some(job) }
        },
        ServerMessage::Error { session_id, .. } => {
            if let Some(id) = session_id {
                runtime.remove_parent_focus(id);
            }
            runtime.reset();
            ServerEffects { overlay: Vec::new(), job: None }
        },
        ServerMessage::InterimState { session_id, seq, state } => {
            let active = runtime.active_session_id();
            let overlay = overlay_router.route_daemon_interim_state_with_output_hint(
                active,
                session_id,
                seq,
                state,
                output_hint,
            );
            ServerEffects { overlay, job: None }
        },
        ServerMessage::InterimText { session_id, seq, text } => {
            let active = runtime.active_session_id();
            let overlay = overlay_router.route_daemon_interim_text_with_output_hint(
                active,
                session_id,
                seq,
                text,
                output_hint,
            );
            ServerEffects { overlay, job: None }
        },
        ServerMessage::AudioLevel { session_id, level_db } => {
            let active = runtime.active_session_id();
            let overlay = overlay_router.route_audio_level(active, session_id, level_db);
            ServerEffects { overlay, job: None }
        },
        ServerMessage::SessionEnded { session_id, reason } => {
            let active = runtime.active_session_id();
            runtime.remove_parent_focus(session_id);
            let overlay = overlay_router.route_session_ended(active, session_id, reason);
            ServerEffects { overlay, job: None }
        },
        ServerMessage::SessionWarning { session_id, remaining_seconds, limit_seconds, .. } => {
            let overlay = overlay_router.route_session_warning(
                session_id,
                remaining_seconds,
                limit_seconds,
            );
            ServerEffects { overlay, job: None }
        },
        ServerMessage::Status(_) => ServerEffects { overlay: Vec::new(), job: None },
    }
}

/// Only the final result of the session under way is injected: any other message leads to no
/// job, and after a final result the same message leads to none again.
pub proof fn law_one_final_result_one_job(m: SessionModel, message: ServerMessage, now_ms: u64)
    ensures
        job_after(m, message, now_ms) is Some ==> message is FinalResult,
        message is FinalResult ==> job_after(session_after(m, message), message, now_ms) is None,
{
}

/// A final result of another session changes nothing.
pub proof fn law_stale_final_result_changes_nothing(
    m: SessionModel,
    router: OverlayRouter,
    message: ServerMessage,
    now_ms: u64,
)
    requires
        message matches ServerMessage::FinalResult { session_id, .. } && m.state.session() != Some(
            session_id,
        ),
    ensures
        session_after(m, message) == m,
        router_after(m, router, message) == router,
        job_after(m, message, now_ms) is None,
        event_after(m, router, message) is None,
{
}

/// After the connection dropped nothing of the old sessions is left: no answer in flight, no
/// focus, no deferred end, whatever was there before.
pub proof fn law_connection_drop_forgets_sessions(m: SessionModel, id: SessionId, now_ms: u64)
    ensures
        connection_dropped(m).state == PttState::Idle,
        connection_dropped(m).active_intent is None,
        !connection_dropped(m).llm.busy,
        connection_dropped(m).llm.in_flight is None,
        !defers_end(connection_dropped(m), id),
        focus_for(connection_dropped(m), id, now_ms) is None,
        deferred_reason(connection_dropped(m).llm, id) is None,
{
}

/// The pieces of an answer add up: two pieces in a row show as both together, with rising
/// numbers.
pub proof fn law_answer_pieces_add_up(m: LlmModel, id: SessionId, a: Seq<char>, b: Seq<char>)
    requires
        next_number(m.seq, id) < u64::MAX,
    ensures
        ({
            let n = numbered(
                LlmModel {
                    overlay_text: m.overlay_text.insert(id.bits, answer_so_far(m, id) + a),
                    ..m
                },
                id,
            );
            &&& answer_so_far(n, id) + b == answer_so_far(m, id) + (a + b)
            &&& next_number(n.seq, id) > next_number(m.seq, id)
        }),
{
    assert(answer_so_far(m, id) + a + b =~= answer_so_far(m, id) + (a + b));
}

/// An end that was put off comes back with its reason when the answer is finished, and only
/// once.
pub proof fn law_deferred_end_comes_back_once(m: LlmModel, id: SessionId, reason: Option<Seq<char>>)
    ensures
        ({
            let d = LlmModel { deferred: m.deferred.insert(id.bits, reason), ..m };
            &&& deferred_reason(d, id) == reason
            &&& deferred_reason(without_session(d, id), id) is None
        }),
{
}

// ---- the talk key

/// Why a session must not start.
#[derive(Debug, Clone, Copy, PartialEq, Eq, Structural)]
pub enum ClientSessionStartBlocker {
    LlmBusy,
}

/// Why a press or release of the talk key was ignored.
#[derive(Debug, Clone, Copy, PartialEq, Eq, Structural)]
pub enum ClientSessionIgnoredHotkeyReason {
    LlmBusy,
    NotIdle,
    NotListening,
}

impl ClientSessionIgnoredHotkeyReason {
    /// The name of the reason.
    pub fn as_str(&self) -> (r: &'static str)
        ensures
            r@ == match *self {
                ClientSessionIgnoredHotkeyReason::LlmBusy => "llm_busy"@,
                ClientSessionIgnoredHotkeyReason::NotIdle => "not_idle"@,
                ClientSessionIgnoredHotkeyReason::NotListening => "not_listening"@,
            },
    {
        match self {
            ClientSessionIgnoredHotkeyReason::LlmBusy => "llm_busy",
            ClientSessionIgnoredHotkeyReason::NotIdle => "not_idle",
            ClientSessionIgnoredHotkeyReason::NotListening => "not_listening",
        }
    }
}

/// The session state at one moment, for logs.
#[derive(Debug, Clone, Copy)]
pub struct ClientSessionSnapshot {
    pub state: &'static str,
    pub active_session_id: Option<SessionId>,
    pub active_intent: Option<SessionIntent>,
}

/// Whether a snapshot says what a session was like.
pub open spec fn shows_session(s: ClientSessionSnapshot, m: SessionModel) -> bool {
    &&& s.state@ == state_text(m.state)
    &&& s.active_session_id == m.state.session()
    &&& s.active_intent == m.active_intent
}

/// What the talk key leads to.
#[derive(Debug, Clone, Copy)]
pub enum ClientSessionAction {
    StartSession { session_id: SessionId, intent: SessionIntent },
    StopSession { session_id: SessionId },
    IgnoreHotkeyDown { reason: ClientSessionIgnoredHotkeyReason, snapshot: ClientSessionSnapshot },
    IgnoreHotkeyUp { reason: ClientSessionIgnoredHotkeyReason, snapshot: ClientSessionSnapshot },
}

impl ClientSessionRuntime {
    /// The session state now, for logs.
    pub fn snapshot(&self) -> (r: ClientSessionSnapshot)
        ensures
            shows_session(r, self.model()),
    {
        ClientSessionSnapshot {
            state: self.state_label(),
            active_session_id: self.active_session_id(),
            active_intent: self.active_intent,
        }
    }

    /// Takes a press of the talk key; a session starts under the given identity.
    pub fn hotkey_down_as(
        &mut self,
        intent: SessionIntent,
        blocker: Option<ClientSessionStartBlocker>,
        session_id: SessionId,
    ) -> (r: ClientSessionAction)
        ensures
            blocker is Some ==> final(self).model() == old(self).model() && (r matches
                ClientSessionAction::IgnoreHotkeyDown { reason, snapshot } && reason
                == ClientSessionIgnoredHotkeyReason::LlmBusy && shows_session(
                snapshot,
                old(self).model(),
            )),
            blocker is None && old(self).model().state == PttState::Idle ==> r == (
                ClientSessionAction::StartSession { session_id, intent }) && final(self).model()
                == (SessionModel {
                state: PttState::Listening { session_id },
                active_intent: Some(intent),
                ..old(self).model()
            }),
            blocker is None && old(self).model().state != PttState::Idle ==> final(self).model()
                == old(self).model() && (r matches ClientSessionAction::IgnoreHotkeyDown {
                reason,
                snapshot,
            } && reason == ClientSessionIgnoredHotkeyReason::NotIdle && shows_session(
                snapshot,
                old(self).model(),
            )),
    {
        if blocker.is_some() {
            return ClientSessionAction::IgnoreHotkeyDown {
                reason: ClientSessionIgnoredHotkeyReason::LlmBusy,
                snapshot: self.snapshot(),
            };
        }
        match self.begin_listening_as(intent, session_id) {
            Some(started) => ClientSessionAction::StartSession { session_id: started, intent },
            None => ClientSessionAction::IgnoreHotkeyDown {
                reason: ClientSessionIgnoredHotkeyReason::NotIdle,
                snapshot: self.snapshot(),
            },
        }
    }

    /// Takes a press of the talk key; a session starts under a new identity.
    pub fn handle_hotkey_down(
        &mut self,
        intent: SessionIntent,
        blocker: Option<ClientSessionStartBlocker>,
    ) -> (r: ClientSessionAction)
        ensures
            blocker is Some ==> final(self).model() == old(self).model() && (r matches
                ClientSessionAction::IgnoreHotkeyDown { reason, snapshot } && reason
                == ClientSessionIgnoredHotkeyReason::LlmBusy && shows_session(
                snapshot,
                old(self).model(),
            )),
            blocker is None && old(self).model().state == PttState::Idle ==> (r matches
                ClientSessionAction::StartSession { session_id, intent: i } && i == intent
                && is_v4(session_id.bits) && final(self).model() == (SessionModel {
                state: PttState::Listening { session_id },
                active_intent: Some(intent),
                ..old(self).model()
            })),
            blocker is None && old(self).model().state != PttState::Idle ==> final(self).model()
                == old(self).model() && (r matches ClientSessionAction::IgnoreHotkeyDown {
                reason,
                snapshot,
            } && reason == ClientSessionIgnoredHotkeyReason::NotIdle && shows_session(
                snapshot,
                old(self).model(),
            )),
    {
        let fresh = SessionId::fresh();
        self.hotkey_down_as(intent, blocker, fresh)
    }

    /// Takes a release of the talk key.
    pub fn handle_hotkey_up(&mut self) -> (r: ClientSessionAction)
        ensures
            match old(self).model().state {
                PttState::Listening { session_id } => r == (ClientSessionAction::StopSession {
                    session_id,
                }) && final(self).model() == (SessionModel {
                    state: PttState::WaitingResult { session_id },
                    ..old(self).model()
                }),
                _ => final(self).model() == old(self).model() && (r matches
                    ClientSessionAction::IgnoreHotkeyUp { reason, snapshot } && reason
                    == ClientSessionIgnoredHotkeyReason::NotListening && shows_session(
                    snapshot,
                    old(self).model(),
                )),
            },
    {
        match self.stop_listening() {
            Some(session_id) => ClientSessionAction::StopSession { session_id },
            None => ClientSessionAction::IgnoreHotkeyUp {
                reason: ClientSessionIgnoredHotkeyReason::NotListening,
                snapshot: self.snapshot(),
            },
        }
    }
}

// ---- what messages of the daemon are for

/// After any error of the daemon the client is idle and has no intent, so that the next press
/// starts a session. The focus of the named session is forgotten, that of others is kept, and
/// what is kept about answers is left alone.
pub proof fn law_error_frees_the_client(m: SessionModel, message: ServerMessage, other: SessionId)
    requires
        message is Error,
    ensures
        session_after(m, message).state == PttState::Idle,
        session_after(m, message).active_intent is None,
        session_after(m, message).llm == m.llm,
        message matches ServerMessage::Error { session_id, .. } && (session_id matches Some(id)
            ==> !session_after(m, message).focus.dom().contains(id.bits)) && (session_id != Some(
            other,
        ) ==> (session_after(m, message).focus.dom().contains(other.bits)
            <==> m.focus.dom().contains(other.bits))),
        forall|now_ms: u64| job_after(m, message, now_ms) is None,
{
    if let ServerMessage::Error { session_id: Some(id), .. } = message {
        if id != other {
            assert(id.bits != other.bits);
        }
    }
}

/// The final result of the session under way is injected as it came, and frees the client: its
/// text, session and timings are those of the message, and the client is idle without intent.
pub proof fn law_final_result_is_injected(m: SessionModel, message: ServerMessage, now_ms: u64)
    requires
        message matches ServerMessage::FinalResult { session_id, .. } && (m.state
            == (PttState::WaitingResult { session_id }) || m.state == (PttState::Listening {
            session_id,
        })),
    ensures
        session_after(m, message).state == PttState::Idle,
        session_after(m, message).active_intent is None,
        session_after(m, message).llm == m.llm,
        message matches ServerMessage::FinalResult { session_id, text, latency_ms, audio_ms, .. }
            && {
            &&& job_after(m, message, now_ms) matches Some(job) && {
                &&& job.session_id == session_id
                &&& job.text == text
                &&& job.daemon_latency_ms == latency_ms
                &&& job.daemon_audio_ms == audio_ms
                &&& job.origin is RawFinalResult
                &&& job.enqueued_at_ms == now_ms
                &&& job.parent_focus is Some <==> m.focus.dom().contains(session_id.bits)
                &&& job.hotkey_up_elapsed_ms_at_enqueue is Some <==> m.last_hotkey_up_ms is Some
                &&& m.last_hotkey_up_ms is Some && m.last_hotkey_up_ms->0 <= now_ms
                    ==> job.hotkey_up_elapsed_ms_at_enqueue == Some(
                    (now_ms - m.last_hotkey_up_ms->0) as u64,
                )
                &&& job.stop_message_elapsed_ms_at_enqueue is Some <==> (m.last_stop matches Some(s)
                    && s.0 == session_id)
                &&& m.last_stop is Some && (m.last_stop->0).0 == session_id && (m.last_stop->0).1
                    <= now_ms ==> job.stop_message_elapsed_ms_at_enqueue == Some(
                    (now_ms - (m.last_stop->0).1) as u64,
                )
            }
            &&& !session_after(m, message).focus.dom().contains(session_id.bits)
        },
{
}

/// The focus that goes with a job is the one that was captured, with the time that has passed
/// since.
pub proof fn law_captured_focus_goes_with_the_job(m: SessionModel, id: SessionId, now_ms: u64)
    requires
        m.focus.dom().contains(id.bits),
        m.focus[id.bits].captured_at_ms <= now_ms,
    ensures
        focus_for(m, id, now_ms) matches Some(f) && {
            &&& f.captured_elapsed_ms == Some((now_ms - m.focus[id.bits].captured_at_ms) as u64)
            &&& f.snapshot == m.focus[id.bits].focus.snapshot
            &&& f.source_selected == m.focus[id.bits].focus.source_selected
            &&& f.wayland_cache_age_ms == m.focus[id.bits].focus.wayland_cache_age_ms
            &&& f.wayland_fallback_reason == m.focus[id.bits].focus.wayland_fallback_reason
        },
{
}

/// Nothing but a final result or an error ends the session under way.
pub proof fn law_only_results_and_errors_free_the_client(m: SessionModel, message: ServerMessage)
    requires
        !(message is FinalResult),
        !(message is Error),
    ensures
        session_after(m, message).state == m.state,
        session_after(m, message).active_intent == m.active_intent,
        session_after(m, message).llm == m.llm,
        session_after(m, message).last_hotkey_up_ms == m.last_hotkey_up_ms,
        session_after(m, message).last_stop == m.last_stop,
        !(message is SessionEnded) ==> session_after(m, message) == m,
        message matches ServerMessage::SessionEnded { session_id, .. } ==> !session_after(
            m,
            message,
        ).focus.dom().contains(session_id.bits),
{
}

/// The interim text of the session under way is shown as it came, where its number is above the
/// last of the daemon; no other is.
pub proof fn law_interim_text_is_shown(
    m: SessionModel,
    router: OverlayRouter,
    session_id: SessionId,
    seq: u64,
    text: String,
)
    ensures
        ({
            let shown = event_after(
                m,
                router,
                ServerMessage::InterimText { session_id, seq, text },
            );
            let fresh = router.active_session_id != Some(session_id) || router.last_daemon_seq
                is None || seq > router.last_daemon_seq->0;
            let ours = m.state == (PttState::Listening { session_id }) || m.state == (
            PttState::WaitingResult { session_id });
            &&& shown is Some <==> ours && fresh
            &&& shown is Some ==> shown == Some(
                OverlayEvent::InterimText {
                    producer: OverlayTextProducer::DaemonSttInterim,
                    session_id,
                    seq,
                    text,
                },
            )
        }),
{
}

/// The interim state of the session under way is shown as it came, where its number is above
/// the last of the daemon; no other is.
pub proof fn law_interim_state_is_shown(
    m: SessionModel,
    router: OverlayRouter,
    session_id: SessionId,
    seq: u64,
    state: String,
)
    ensures
        ({
            let shown = event_after(
                m,
                router,
                ServerMessage::InterimState { session_id, seq, state },
            );
            let fresh = router.active_session_id != Some(session_id) || router.last_daemon_seq
                is None || seq > router.last_daemon_seq->0;
            let ours = m.state == (PttState::Listening { session_id }) || m.state == (
            PttState::WaitingResult { session_id });
            &&& shown is Some <==> ours && fresh
            &&& shown is Some ==> shown == Some(
                OverlayEvent::InterimState {
                    producer: OverlayTextProducer::DaemonSttInterim,
                    session_id,
                    seq,
                    state,
                },
            )
        }),
{
}

/// After an interim text or state was shown its number is the last of the daemon, the session is
/// followed, and the same message is not shown again.
pub proof fn law_shown_interim_is_not_shown_again(
    m: SessionModel,
    router: OverlayRouter,
    message: ServerMessage,
)
    requires
        message is InterimText || message is InterimState,
        event_after(m, router, message) is Some,
    ensures
        event_after(m, router_after(m, router, message), message) is None,
        message matches ServerMessage::InterimText { session_id, seq, .. } ==> router_after(
            m,
            router,
            message,
        ).last_daemon_seq == Some(seq) && router_after(m, router, message).active_session_id
            == Some(session_id),
        message matches ServerMessage::InterimState { session_id, seq, .. } ==> router_after(
            m,
            router,
            message,
        ).last_daemon_seq == Some(seq) && router_after(m, router, message).active_session_id
            == Some(session_id),
{
}

/// The end of a session, a level and a warning are shown as they came: an end and a level unless
/// another session is under way, a warning where its session is followed. Final results, errors,
/// starts and statuses show nothing.
pub proof fn law_other_messages_are_shown(
    m: SessionModel,
    router: OverlayRouter,
    message: ServerMessage,
)
    ensures
        match message {
            ServerMessage::SessionEnded { session_id, reason } => event_after(m, router, message)
                == if m.state == PttState::Idle || m.state.session() == Some(session_id) {
                Some(OverlayEvent::SessionEnded { session_id, reason })
            } else {
                None
            },
            ServerMessage::AudioLevel { session_id, level_db } => event_after(m, router, message)
                == if m.state == PttState::Idle || m.state.session() == Some(session_id) {
                Some(OverlayEvent::AudioLevel { session_id, level_db })
            } else {
                None
            },
            ServerMessage::SessionWarning { session_id, remaining_seconds, limit_seconds, .. } =>
                event_after(m, router, message) == if router.active_session_id == Some(session_id) {
                Some(OverlayEvent::SessionWarning { session_id, remaining_seconds, limit_seconds })
            } else {
                None
            },
            ServerMessage::InterimText { .. } => true,
            ServerMessage::InterimState { .. } => true,
            _ => event_after(m, router, message) is None,
        },
{
}

/// A session that starts is followed, with no numbers seen yet unless it was followed before; one
/// that ends is followed no longer.
pub proof fn law_router_follows_sessions(
    m: SessionModel,
    router: OverlayRouter,
    session_id: SessionId,
    reason: Option<String>,
)
    ensures
        ({
            let begun = router_after(m, router, ServerMessage::SessionStarted { session_id });
            &&& begun.active_session_id == Some(session_id)
            &&& router.active_session_id != Some(session_id) ==> begun.last_daemon_seq is None
                && begun.last_llm_seq is None
            &&& router.active_session_id == Some(session_id) ==> begun == router
            &&& begun.metrics == router.metrics
        }),
        m.state == PttState::Idle || m.state.session() == Some(session_id) ==> router_after(
            m,
            router,
            ServerMessage::SessionEnded { session_id, reason },
        ).active_session_id != Some(session_id),
{
}

/// The number of the next event of an answer is one more than the last, and one at first.
pub proof fn law_answer_numbers_count_up(m: LlmModel, id: SessionId, other: SessionId)
    requires
        m.seq.dom().contains(id.bits) ==> m.seq[id.bits] < u64::MAX,
        other != id,
    ensures
        !m.seq.dom().contains(id.bits) ==> next_number(m.seq, id) == 1,
        m.seq.dom().contains(id.bits) ==> next_number(m.seq, id) == m.seq[id.bits] + 1,
        next_number(numbered(m, id).seq, id) > next_number(m.seq, id) || next_number(m.seq, id)
            == u64::MAX,
        next_number(numbered(m, id).seq, other) == next_number(m.seq, other),
        numbered(m, id).busy == m.busy,
        numbered(m, id).in_flight == m.in_flight,
        numbered(m, id).overlay_text == m.overlay_text,
        numbered(m, id).deferred == m.deferred,
{
    assert(id.bits != other.bits);
}

/// An answer that is finished is forgotten, and nothing of other sessions is: the client is no
/// longer busy, no answer is in flight, and no number, text, put-off end or focus of that
/// session is kept.
pub proof fn law_finished_answer_is_forgotten(
    m: SessionModel,
    id: SessionId,
    other: SessionId,
    now_ms: u64,
)
    requires
        other != id,
    ensures
        ({
            let n = answer_finished(m, id);
            &&& !n.llm.busy
            &&& n.llm.in_flight is None
            &&& next_number(n.llm.seq, id) == 1
            &&& answer_so_far(n.llm, id).len() == 0
            &&& deferred_reason(n.llm, id) is None
            &&& focus_for(n, id, now_ms) is None
            &&& !(n.state.session() == Some(id) && n.active_intent == Some(SessionIntent::LlmQuery))
                ==> !defers_end(n, id)
            &&& answer_so_far(n.llm, other) == answer_so_far(m.llm, other)
            &&& next_number(n.llm.seq, other) == next_number(m.llm.seq, other)
            &&& deferred_reason(n.llm, other) == deferred_reason(m.llm, other)
            &&& focus_for(n, other, now_ms) == focus_for(m, other, now_ms)
            &&& n.state == m.state
            &&& n.active_intent == m.active_intent
        }),
{
    assert(id.bits != other.bits);
}

/// The end of a session is put off exactly while its question is recorded or decoded, or its
/// answer is in flight; the end of a dictation never is.
pub proof fn law_only_questions_put_off_their_end(m: SessionModel, id: SessionId)
    ensures
        m.active_intent == Some(SessionIntent::LlmQuery) && (m.state == (PttState::Listening {
            session_id: id,
        }) || m.state == (PttState::WaitingResult { session_id: id })) ==> defers_end(m, id),
        m.llm.in_flight == Some(id) ==> defers_end(m, id),
        m.llm.in_flight != Some(id) && m.active_intent != Some(SessionIntent::LlmQuery)
            ==> !defers_end(m, id),
        m.llm.in_flight != Some(id) && m.state == PttState::Idle ==> !defers_end(m, id),
{
}

/// Two codes of the daemon that are known have two kinds, and every other code is unknown.
pub proof fn law_error_kinds_tell_codes_apart(a: Seq<char>, b: Seq<char>)
    ensures
        error_kind_of(a) != "unknown"@ && error_kind_of(a) == error_kind_of(b) ==> a == b,
        error_kind_of(a) == "unknown"@ <==> !(a == "SESSION_BUSY"@ || a == "SESSION_NOT_FOUND"@
            || a == "SESSION_ABORTED"@ || a == "AUDIO_DEVICE"@ || a == "MODEL"@ || a
            == "INVALID_REQUEST"@ || a == "UNEXPECTED"@),
        a == "MODEL"@ ==> error_kind_of(a) == "model"@,
        a == "SESSION_BUSY"@ ==> error_kind_of(a) == "session_busy"@,
        a == "AUDIO_DEVICE"@ ==> error_kind_of(a) == "audio_device"@,
{
    reveal_strlit("SESSION_BUSY");
    reveal_strlit("SESSION_NOT_FOUND");
    reveal_strlit("SESSION_ABORTED");
    reveal_strlit("AUDIO_DEVICE");
    reveal_strlit("MODEL");
    reveal_strlit("INVALID_REQUEST");
    reveal_strlit("UNEXPECTED");
    reveal_strlit("session_busy");
    reveal_strlit("session_not_found");
    reveal_strlit("session_aborted");
    reveal_strlit("audio_device");
    reveal_strlit("model");
    reveal_strlit("invalid_request");
    reveal_strlit("unexpected");
    reveal_strlit("unknown");
    assert("session_busy"@.len() == 12);
    assert("session_not_found"@.len() == 17);
    assert("session_aborted"@.len() == 15);
    assert("audio_device"@.len() == 12);
    assert("model"@.len() == 5);
    assert("invalid_request"@.len() == 15);
    assert("unexpected"@.len() == 10);
    assert("unknown"@.len() == 7);
    assert("SESSION_BUSY"@.len() == 12);
    assert("SESSION_NOT_FOUND"@.len() == 17);
    assert("SESSION_ABORTED"@.len() == 15);
    assert("AUDIO_DEVICE"@.len() == 12);
    assert("MODEL"@.len() == 5);
    assert("INVALID_REQUEST"@.len() == 15);
    assert("UNEXPECTED"@.len() == 10);
    assert("session_busy"@[8] == 'b');
    assert("audio_device"@[8] == 'v');
    assert("session_busy"@ != "audio_device"@);
    assert("SESSION_BUSY"@[8] == 'B');
    assert("AUDIO_DEVICE"@[8] == 'V');
    assert("SESSION_BUSY"@ != "AUDIO_DEVICE"@);
    assert("session_aborted"@[8] == 'a');
    assert("invalid_request"@[8] == 'r');
    assert("session_aborted"@ != "invalid_request"@);
    assert("SESSION_ABORTED"@[8] == 'A');
    assert("INVALID_REQUEST"@[8] == 'R');
    assert("SESSION_ABORTED"@ != "INVALID_REQUEST"@);
}

// ---- what calls do to a session

/// After an error of the daemon the next press of the talk key starts a session: whatever was
/// under way, the handling of the error leaves the client idle, and a press that nothing blocks
/// then starts a session under its identity and for its intent.
pub proof fn law_press_after_an_error_starts_a_session<F: FnOnce() -> Option<String>>(
    message: ServerMessage,
    now_ms: u64,
    hint: F,
    intent: SessionIntent,
    id: SessionId,
)
    requires
        message is Error,
    ensures
        forall|
            runtime: &mut ClientSessionRuntime,
            router: &mut OverlayRouter,
            r: ServerEffects,
            next: &mut ClientSessionRuntime,
            pressed: ClientSessionAction,
        |
            #![trigger call_ensures(handle_server_message::<F>, (message, runtime, router, now_ms, hint), r), call_ensures(ClientSessionRuntime::hotkey_down_as, (next, intent, None::<ClientSessionStartBlocker>, id), pressed)]
            call_ensures(
                handle_server_message::<F>,
                (message, runtime, router, now_ms, hint),
                r,
            ) && call_ensures(
                ClientSessionRuntime::hotkey_down_as,
                (next, intent, None::<ClientSessionStartBlocker>, id),
                pressed,
            ) && next.model() == final(runtime).model() ==> {
                &&& final(runtime).model().state == PttState::Idle
                &&& final(runtime).model().active_intent is None
                &&& r.job is None && r.overlay@.len() == 0
                &&& pressed == (ClientSessionAction::StartSession { session_id: id, intent })
                &&& final(next).model().state == (PttState::Listening { session_id: id })
                &&& final(next).model().active_intent == Some(intent)
            },
{
}

/// The final result of the session under way is handed on as one job with its text, and the
/// client is idle afterwards; that of another session leads to nothing and changes nothing.
pub proof fn law_handling_a_final_result<F: FnOnce() -> Option<String>>(
    message: ServerMessage,
    now_ms: u64,
    hint: F,
)
    requires
        message is FinalResult,
    ensures
        forall|runtime: &mut ClientSessionRuntime, router: &mut OverlayRouter, r: ServerEffects|
         #[trigger]
            call_ensures(
                handle_server_message::<F>,
                (message, runtime, router, now_ms, hint),
                r,
            ) ==> {
                &&& *final(router) == *router && r.overlay@.len() == 0
                &&& message matches ServerMessage::FinalResult { session_id, text, .. } && {
                    if runtime.model().state == (PttState::WaitingResult { session_id })
                        || runtime.model().state == (PttState::Listening { session_id }) {
                        &&& r.job matches Some(job) && job.text == text && job.session_id
                            == session_id
                        &&& final(runtime).model().state == PttState::Idle
                        &&& final(runtime).model().active_intent is None
                    } else {
                        r.job is None && final(runtime).model() == runtime.model()
                    }
                }
            },
{
}

/// A press starts a session only where none is under way and nothing blocks it, and a release
/// stops the session that listens and no other; whatever is ignored changes nothing and says why.
pub proof fn law_talk_key_starts_and_stops_sessions(
    intent: SessionIntent,
    blocker: Option<ClientSessionStartBlocker>,
    id: SessionId,
)
    ensures
        forall|s: &mut ClientSessionRuntime, r: ClientSessionAction| #[trigger]
            call_ensures(ClientSessionRuntime::hotkey_down_as, (s, intent, blocker, id), r)
                ==> if blocker is None && s.model().state == PttState::Idle {
                &&& r == (ClientSessionAction::StartSession { session_id: id, intent })
                &&& final(s).model().state == (PttState::Listening { session_id: id })
                &&& final(s).model().active_intent == Some(intent)
                &&& final(s).model().llm == s.model().llm
                &&& final(s).model().focus == s.model().focus
            } else {
                &&& final(s).model() == s.model()
                &&& r matches ClientSessionAction::IgnoreHotkeyDown { reason, snapshot } && (reason
                    is LlmBusy <==> blocker is Some) && (reason is NotIdle <==> blocker is None)
                    && snapshot.active_session_id == s.model().state.session()
                    && snapshot.active_intent == s.model().active_intent
            },
        forall|s: &mut ClientSessionRuntime, r: ClientSessionAction| #[trigger]
            call_ensures(ClientSessionRuntime::handle_hotkey_up, (s,), r) ==> {
                &&& s.model().state == (PttState::Listening { session_id: id }) ==> r == (
                ClientSessionAction::StopSession { session_id: id }) && final(s).model().state == (
                PttState::WaitingResult { session_id: id })
                &&& !(s.model().state is Listening) ==> final(s).model() == s.model() && (r matches
                    ClientSessionAction::IgnoreHotkeyUp { reason, .. } && reason is NotListening)
                &&& final(s).model().active_intent == s.model().active_intent
                &&& final(s).model().llm == s.model().llm
            },
{
}

/// What is recorded when a session is stopped is what its job later carries: the time since, and
/// the focus, if one was captured.
pub proof fn law_stop_is_recorded_for_the_job(
    id: SessionId,
    focus: Option<ParentFocusCapture>,
    sent_at_ms: u64,
    now_ms: u64,
)
    requires
        sent_at_ms <= now_ms,
    ensures
        forall|s: &mut ClientSessionRuntime, r: ()| #[trigger]
            call_ensures(
                ClientSessionRuntime::record_stop_message_sent,
                (s, id, focus, sent_at_ms),
                r,
            ) ==> {
                let m = final(s).model();
                &&& since(m.last_hotkey_up_ms, now_ms) == Some((now_ms - sent_at_ms) as u64)
                &&& since_stop(m, id, now_ms) == Some((now_ms - sent_at_ms) as u64)
                &&& focus matches Some(f) ==> (focus_for(m, id, now_ms) matches Some(g)
                    && g.snapshot == f.snapshot && g.captured_elapsed_ms == Some(
                    (now_ms - sent_at_ms) as u64,
                ))
                &&& focus is None ==> m.focus == s.model().focus
                &&& m.state == s.model().state && m.active_intent == s.model().active_intent
                    && m.llm == s.model().llm
            },
{
}

/// A piece of the answer in flight is shown with all pieces before it, under the next number; a
/// piece of another answer is ignored.
pub proof fn law_pieces_of_the_answer_in_flight(id: SessionId, delta: String)
    ensures
        forall|s: &mut ClientSessionRuntime, r: Option<LlmDeltaOverlay>| #[trigger]
            call_ensures(ClientSessionRuntime::record_llm_delta, (s, id, delta), r)
                ==> if s.model().llm.in_flight == Some(id) {
                &&& r matches Some(d) && d.text@ == answer_so_far(s.model().llm, id) + delta@
                    && d.seq == next_number(s.model().llm.seq, id)
                &&& answer_so_far(final(s).model().llm, id) == answer_so_far(s.model().llm, id)
                    + delta@
                &&& final(s).model().llm.in_flight == Some(id)
                &&& final(s).model().llm.busy == s.model().llm.busy
                &&& final(s).model().state == s.model().state
            } else {
                r is None && final(s).model() == s.model()
            },
{
}

/// The answer in flight ends once: the client is busy no longer, and gets back what was recorded
/// for the session and the reason of its end; the end of another answer gives nothing.
pub proof fn law_end_of_the_answer_in_flight(id: SessionId, now_ms: u64)
    ensures
        forall|s: &mut ClientSessionRuntime, r: Option<LlmCompletionContext>| #[trigger]
            call_ensures(ClientSessionRuntime::finish_llm_answer, (s, id, now_ms), r) ==> {
                &&& r is Some <==> s.model().llm.in_flight == Some(id)
                &&& r matches Some(c) ==> {
                    &&& !final(s).model().llm.busy && final(s).model().llm.in_flight is None
                    &&& opt_string(c.session_end_reason) == deferred_reason(s.model().llm, id)
                    &&& c.parent_focus == focus_for(s.model(), id, now_ms)
                    &&& c.hotkey_up_elapsed_ms_at_enqueue == since(
                        s.model().last_hotkey_up_ms,
                        now_ms,
                    )
                    &&& c.stop_message_elapsed_ms_at_enqueue == since_stop(s.model(), id, now_ms)
                }
                &&& r is None ==> final(s).model().llm.in_flight == s.model().llm.in_flight
                    && final(s).model().llm.busy == s.model().llm.busy
                &&& final(s).model().state == s.model().state
            },
        forall|s: &mut ClientSessionRuntime, n: u64| #[trigger]
            call_ensures(ClientSessionRuntime::start_llm_answer, (s, id), n) ==> {
                &&& final(s).model().llm.busy && final(s).model().llm.in_flight == Some(id)
                &&& final(s).model().state == PttState::Idle && final(s).model().active_intent
                    is None
                &&& n == next_number(s.model().llm.seq, id)
                &&& final(s).model().focus == s.model().focus
            },
{
}

} // verus!
