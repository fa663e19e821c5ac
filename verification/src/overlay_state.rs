//! What the overlay shows: one session at a time, folded from the messages of the client.
use vstd::prelude::*;

use crate::injector_runtime::{between, later};
use crate::overlay_ipc::{OverlayIpcMessage, OverlayTextProducer};
use crate::protocol::SessionId;
use crate::text::{is_blank, opt_string, same, trim};

verus! {

/// What a session is for, as the overlay shows it.
#[derive(Debug, Clone, Copy, PartialEq, Eq, Structural)]
pub enum SessionMode {
    Stt,
    Llm,
}

/// Where a session stands.
#[derive(Debug, Clone, Copy, PartialEq, Eq, Structural)]
pub enum OverlayPhase {
    Listening,
    Interim,
    Finalizing,
    Answering,
    Done { success: bool },
}

/// A warning that the session is about to reach its limit.
#[derive(Debug, Clone, Copy, PartialEq, Eq, Structural)]
pub struct CapWarning {
    pub at_ms: u64,
    pub remaining_ms: Option<u64>,
}

/// A session as the overlay shows it.
#[derive(Debug, PartialEq, Eq)]
pub struct SessionView {
    pub session_id: SessionId,
    pub mode: SessionMode,
    pub phase: OverlayPhase,
    pub transcript: String,
    pub question: Option<String>,
    pub answer: String,
    pub status: Option<String>,
    pub notice: Option<String>,
    /// Why the session failed, if it did.
    pub reason: Option<String>,
    pub started_ms: u64,
    pub ended_ms: Option<u64>,
    pub warning: Option<CapWarning>,
}

/// A session as the overlay shows it, mathematically.
pub struct ViewModel {
    pub session_id: SessionId,
    pub mode: SessionMode,
    pub phase: OverlayPhase,
    pub transcript: Seq<char>,
    pub question: Option<Seq<char>>,
    pub answer: Seq<char>,
    pub status: Option<Seq<char>>,
    pub notice: Option<Seq<char>>,
    pub reason: Option<Seq<char>>,
    pub started_ms: u64,
    pub ended_ms: Option<u64>,
    pub warning: Option<CapWarning>,
}

/// Whether there is any text to show.
pub open spec fn shows_text(v: ViewModel) -> bool {
    trim(v.transcript).len() > 0 || trim(v.answer).len() > 0
}

/// Whether the microphone is heard.
pub open spec fn live(v: ViewModel) -> bool {
    v.phase == OverlayPhase::Listening || v.phase == OverlayPhase::Interim
}

/// How long the session has run.
pub open spec fn elapsed(v: ViewModel, now_ms: u64) -> u64 {
    match v.ended_ms {
        Some(ended) => between(v.started_ms, ended),
        None => between(v.started_ms, now_ms),
    }
}

/// How long the session has left, where a warning said so.
pub open spec fn remaining(v: ViewModel, now_ms: u64) -> Option<u64> {
    match v.warning {
        Some(w) => match w.remaining_ms {
            Some(left) => Some(between(now_ms, later(w.at_ms, left))),
            None => None,
        },
        None => None,
    }
}

impl SessionView {
    /// The session, mathematically.
    pub open spec fn model(self) -> ViewModel {
        ViewModel {
            session_id: self.session_id,
            mode: self.mode,
            phase: self.phase,
            transcript: self.transcript@,
            question: opt_string(self.question),
            answer: self.answer@,
            status: opt_string(self.status),
            notice: opt_string(self.notice),
            reason: opt_string(self.reason),
            started_ms: self.started_ms,
            ended_ms: self.ended_ms,
            warning: self.warning,
        }
    }

    /// Whether the session failed.
    pub fn failed(&self) -> (r: bool)
        ensures
            r == (self.model().reason is Some),
    {
        self.reason.is_some()
    }

    /// Whether there is any text to show.
    pub fn has_text(&self) -> (r: bool)
        ensures
            r == shows_text(self.model()),
    {
        !is_blank(self.transcript.as_str()) || !is_blank(self.answer.as_str())
    }

    /// Whether the microphone is heard.
    pub fn is_live(&self) -> (r: bool)
        ensures
            r == live(self.model()),
    {
        self.phase == OverlayPhase::Listening || self.phase == OverlayPhase::Interim
    }

    /// How long the session has run.
    pub fn elapsed_ms(&self, now_ms: u64) -> (r: u64)
        ensures
            r == elapsed(self.model(), now_ms),
    {
        match self.ended_ms {
            Some(ended) => ended.saturating_sub(self.started_ms),
            None => now_ms.saturating_sub(self.started_ms),
        }
    }

    /// How long the session has left, where a warning said so.
    pub fn remaining_ms(&self, now_ms: u64) -> (r: Option<u64>)
        ensures
            r == remaining(self.model(), now_ms),
    {
        match self.warning {
            Some(w) => match w.remaining_ms {
                Some(left) => Some(w.at_ms.saturating_add(left).saturating_sub(now_ms)),
                None => None,
            },
            None => None,
        }
    }

    /// A copy of the session.
    pub fn copy(&self) -> (r: SessionView)
        ensures
            r.model() == self.model(),
    {
        SessionView {
            session_id: self.session_id,
            mode: self.mode,
            phase: self.phase,
            transcript: self.transcript.as_str().to_owned(),
            question: crate::injector::copy_opt(&self.question),
            answer: self.answer.as_str().to_owned(),
            status: crate::injector::copy_opt(&self.status),
            notice: crate::injector::copy_opt(&self.notice),
            reason: crate::injector::copy_opt(&self.reason),
            started_ms: self.started_ms,
            ended_ms: self.ended_ms,
            warning: self.warning,
        }
    }
}

/// The countdown never runs past zero, and gets shorter as time goes by.
pub proof fn law_countdown_only_falls(v: ViewModel, now_ms: u64, later_ms: u64)
    requires
        now_ms <= later_ms,
    ensures
        (remaining(v, now_ms) is Some) == (remaining(v, later_ms) is Some),
        remaining(v, now_ms) is Some ==> remaining(v, later_ms)->0 <= remaining(v, now_ms)->0,
{
}

/// Nothing, or a session.
#[derive(Debug)]
pub enum OverlayVisibility {
    Hidden,
    Visible(SessionView),
}

impl OverlayVisibility {
    /// What is shown, mathematically.
    pub open spec fn shown(self) -> Option<ViewModel> {
        match self {
            OverlayVisibility::Hidden => None,
            OverlayVisibility::Visible(view) => Some(view.model()),
        }
    }
}

/// What became of a message.
#[derive(Debug, Clone, Copy, PartialEq, Eq, Structural)]
pub enum ApplyOutcome {
    Applied,
    DroppedStaleSeq,
    DroppedSessionMismatch,
}

/// Folds messages into what is shown.
#[derive(Debug)]
pub struct OverlayStateMachine {
    visibility: OverlayVisibility,
    last_daemon_seq: Option<u64>,
    last_llm_seq: Option<u64>,
    hide_at_ms: Option<u64>,
    auto_hide_ms: u64,
}

/// Folds messages into what is shown, mathematically.
pub struct MachineModel {
    pub view: Option<ViewModel>,
    pub daemon_seq: Option<u64>,
    pub llm_seq: Option<u64>,
    pub hide_at_ms: Option<u64>,
    pub auto_hide_ms: u64,
}

/// A session that has just begun.
pub open spec fn new_view(session_id: SessionId, now_ms: u64) -> ViewModel {
    ViewModel {
        session_id,
        mode: SessionMode::Stt,
        phase: OverlayPhase::Listening,
        transcript: Seq::empty(),
        question: None,
        answer: Seq::empty(),
        status: None,
        notice: None,
        reason: None,
        started_ms: now_ms,
        ended_ms: None,
        warning: None,
    }
}

/// Whether the session shown is the given one.
pub open spec fn shows_session(m: MachineModel, id: SessionId) -> bool {
    m.view matches Some(v) && v.session_id == id
}

/// The machine with the given session shown.
pub open spec fn opened(m: MachineModel, id: SessionId, now_ms: u64) -> MachineModel {
    if shows_session(m, id) {
        m
    } else {
        MachineModel {
            view: Some(new_view(id, now_ms)),
            daemon_seq: None,
            llm_seq: None,
            hide_at_ms: None,
            ..m
        }
    }
}

/// Whether a state or text comes too late.
pub open spec fn comes_late(
    m: MachineModel,
    id: SessionId,
    producer: OverlayTextProducer,
    seq: u64,
) -> bool {
    let last = match producer {
        OverlayTextProducer::DaemonSttInterim => m.daemon_seq,
        OverlayTextProducer::LlmAnswerDelta => m.llm_seq,
    };
    shows_session(m, id) && last is Some && seq <= last->0
}

/// The machine that remembers a sequence number.
pub open spec fn seq_noted(m: MachineModel, producer: OverlayTextProducer, seq: u64) ->
    MachineModel {
    match producer {
        OverlayTextProducer::DaemonSttInterim => MachineModel { daemon_seq: Some(seq), ..m },
        OverlayTextProducer::LlmAnswerDelta => MachineModel { llm_seq: Some(seq), ..m },
    }
}

/// A session that is being answered: what was said is the question.
pub open spec fn answering(v: ViewModel) -> ViewModel {
    ViewModel {
        mode: SessionMode::Llm,
        phase: OverlayPhase::Answering,
        question: if v.question is None && trim(v.transcript).len() > 0 {
            Some(v.transcript)
        } else {
            v.question
        },
        ..v
    }
}

/// A session with a new state.
pub open spec fn with_state(v: ViewModel, producer: OverlayTextProducer, state: Seq<char>) ->
    ViewModel {
    match producer {
        OverlayTextProducer::DaemonSttInterim => if state == "finalizing"@ {
            ViewModel { phase: OverlayPhase::Finalizing, ..v }
        } else if state == "listening"@ {
            ViewModel { phase: OverlayPhase::Listening, ..v }
        } else {
            v
        },
        OverlayTextProducer::LlmAnswerDelta => ViewModel { status: Some(state), ..answering(v) },
    }
}

/// A session with a new text.
pub open spec fn with_text(v: ViewModel, producer: OverlayTextProducer, text: Seq<char>) ->
    ViewModel {
    match producer {
        OverlayTextProducer::DaemonSttInterim => ViewModel {
            transcript: text,
            phase: OverlayPhase::Interim,
            ..v
        },
        OverlayTextProducer::LlmAnswerDelta => ViewModel { answer: text, ..answering(v) },
    }
}

/// A session that has ended: it failed unless it ended with its final result.
pub open spec fn ended(v: ViewModel, reason: Option<Seq<char>>, now_ms: u64) -> ViewModel {
    let failure = if reason == Some("final"@) {
        None
    } else {
        reason
    };
    ViewModel {
        ended_ms: Some(
            match v.ended_ms {
                Some(at) => at,
                None => now_ms,
            },
        ),
        reason: if failure is Some {
            failure
        } else {
            v.reason
        },
        phase: if failure is Some {
            OverlayPhase::Finalizing
        } else {
            v.phase
        },
        ..v
    }
}

/// The machine after a message, and what became of it. What a notice for no session says is
/// shown beside the session at hand.
pub open spec fn applied(
    m: MachineModel,
    message: OverlayIpcMessage,
    remaining_ms: Option<u64>,
    now_ms: u64,
) -> (MachineModel, ApplyOutcome) {
    let nil = SessionId::nil_id();
    match message {
        OverlayIpcMessage::InterimState { session_id, producer, seq, state } => if session_id
            == nil {
            match m.view {
                Some(v) => (
                    MachineModel { view: Some(ViewModel { notice: Some(state@), ..v }), ..m },
                    ApplyOutcome::Applied,
                ),
                None => (m, ApplyOutcome::DroppedSessionMismatch),
            }
        } else if comes_late(m, session_id, producer, seq) {
            (m, ApplyOutcome::DroppedStaleSeq)
        } else {
            let o = opened(m, session_id, now_ms);
            (
                MachineModel {
                    view: Some(with_state(o.view->0, producer, state@)),
                    ..seq_noted(o, producer, seq)
                },
                ApplyOutcome::Applied,
            )
        },
        OverlayIpcMessage::InterimText { session_id, producer, seq, text } => if comes_late(
            m,
            session_id,
            producer,
            seq,
        ) {
            (m, ApplyOutcome::DroppedStaleSeq)
        } else {
            let o = opened(m, session_id, now_ms);
            (
                MachineModel {
                    view: Some(with_text(o.view->0, producer, text@)),
                    ..seq_noted(o, producer, seq)
                },
                ApplyOutcome::Applied,
            )
        },
        OverlayIpcMessage::SessionEnded { session_id, reason } => match m.view {
            Some(v) => if session_id == nil && v.session_id != nil {
                (
                    MachineModel { view: Some(ViewModel { notice: None, ..v }), ..m },
                    ApplyOutcome::Applied,
                )
            } else if v.session_id == session_id {
                (
                    MachineModel {
                        view: Some(ended(v, opt_string(reason), now_ms)),
                        hide_at_ms: Some(later(now_ms, m.auto_hide_ms)),
                        ..m
                    },
                    ApplyOutcome::Applied,
                )
            } else {
                (m, ApplyOutcome::DroppedSessionMismatch)
            },
            None => (m, ApplyOutcome::DroppedSessionMismatch),
        },
        OverlayIpcMessage::InjectionComplete { session_id, success } => if shows_session(
            m,
            session_id,
        ) {
            (
                MachineModel {
                    view: Some(
                        ViewModel { phase: OverlayPhase::Done { success }, ..m.view->0 },
                    ),
                    hide_at_ms: Some(later(now_ms, m.auto_hide_ms)),
                    ..m
                },
                ApplyOutcome::Applied,
            )
        } else {
            (m, ApplyOutcome::DroppedSessionMismatch)
        },
        OverlayIpcMessage::SessionWarning { session_id, .. } => if shows_session(m, session_id) {
            (
                MachineModel {
                    view: Some(
                        ViewModel {
                            warning: Some(CapWarning { at_ms: now_ms, remaining_ms }),
                            ..m.view->0
                        },
                    ),
                    ..m
                },
                ApplyOutcome::Applied,
            )
        } else {
            (m, ApplyOutcome::DroppedSessionMismatch)
        },
        _ => (m, ApplyOutcome::Applied),
    }
}

impl OverlayStateMachine {
    /// The machine, mathematically.
    pub closed spec fn model(self) -> MachineModel {
        MachineModel {
            view: self.visibility.shown(),
            daemon_seq: self.last_daemon_seq,
            llm_seq: self.last_llm_seq,
            hide_at_ms: self.hide_at_ms,
            auto_hide_ms: self.auto_hide_ms,
        }
    }

    /// A machine that shows nothing.
    pub fn new(auto_hide_ms: u64) -> (r: OverlayStateMachine)
        ensures
            r.model() == (MachineModel {
                view: None,
                daemon_seq: None,
                llm_seq: None,
                hide_at_ms: None,
                auto_hide_ms,
            }),
    {
        OverlayStateMachine {
            visibility: OverlayVisibility::Hidden,
            last_daemon_seq: None,
            last_llm_seq: None,
            hide_at_ms: None,
            auto_hide_ms,
        }
    }

    /// What is shown.
    pub fn visibility(&self) -> (r: &OverlayVisibility)
        ensures
            r.shown() == self.model().view,
    {
        &self.visibility
    }

    fn take_view(&mut self) -> (r: Option<SessionView>)
        ensures
            match r {
                Some(view) => old(self).model().view == Some(view.model()),
                None => old(self).model().view is None,
            },
            final(self).model() == (MachineModel { view: None, ..old(self).model() }),
    {
        let mut v = OverlayVisibility::Hidden;
        std::mem::swap(&mut v, &mut self.visibility);
        match v {
            OverlayVisibility::Visible(view) => Some(view),
            OverlayVisibility::Hidden => None,
        }
    }

    fn is_late(&self, session_id: SessionId, producer: OverlayTextProducer, seq: u64) -> (r: bool)
        ensures
            r == comes_late(self.model(), session_id, producer, seq),
    {
        match &self.visibility {
            OverlayVisibility::Visible(view) => {
                if view.session_id != session_id {
                    return false;
                }
                let last = match producer {
                    OverlayTextProducer::DaemonSttInterim => self.last_daemon_seq,
                    OverlayTextProducer::LlmAnswerDelta => self.last_llm_seq,
                };
                match last {
                    Some(n) => seq <= n,
                    None => false,
                }
            },
            OverlayVisibility::Hidden => false,
        }
    }

    /// Takes the view of a session, a new one if another or none is shown.
    fn open_view(&mut self, session_id: SessionId, now_ms: u64) -> (r: SessionView)
        ensures
            ({
                let o = opened(old(self).model(), session_id, now_ms);
                &&& Some(r.model()) == o.view
                &&& final(self).model() == (MachineModel { view: None, ..o })
            }),
    {
        if let Some(view) = self.take_view() {
            if view.session_id == session_id {
                return view;
            }
        }
        self.last_daemon_seq = None;
        self.last_llm_seq = None;
        self.hide_at_ms = None;
        SessionView {
            session_id,
            mode: SessionMode::Stt,
            phase: OverlayPhase::Listening,
            transcript: String::new(),
            question: None,
            answer: String::new(),
            status: None,
            notice: None,
            reason: None,
            started_ms: now_ms,
            ended_ms: None,
            warning: None,
        }
    }

    fn note_seq(&mut self, producer: OverlayTextProducer, seq: u64)
        ensures
            final(self).model() == seq_noted(old(self).model(), producer, seq),
    {
        match producer {
            OverlayTextProducer::DaemonSttInterim => {
                self.last_daemon_seq = Some(seq);
            },
            OverlayTextProducer::LlmAnswerDelta => {
                self.last_llm_seq = Some(seq);
            },
        }
    }

    fn show(&mut self, view: SessionView)
        ensures
            final(self).model() == (MachineModel { view: Some(view.model()), ..old(self).model() }),
    {
        self.visibility = OverlayVisibility::Visible(view);
    }

    /// Takes a message. `remaining_ms` is what a warning says of the time that is left.
    pub fn apply_event(
        &mut self,
        message: OverlayIpcMessage,
        remaining_ms: Option<u64>,
        now_ms: u64,
    ) -> (r: ApplyOutcome)
        ensures
            (final(self).model(), r) == applied(old(self).model(), message, remaining_ms, now_ms),
    {
        let nil = SessionId::nil();
        match message {
            OverlayIpcMessage::InterimState { session_id, producer, seq, state } => {
                if session_id == nil {
                    return match self.take_view() {
                        Some(mut view) => {
                            view.notice = Some(state);
                            self.show(view);
                            ApplyOutcome::Applied
                        },
                        None => ApplyOutcome::DroppedSessionMismatch,
                    };
                }
                if self.is_late(session_id, producer, seq) {
                    return ApplyOutcome::DroppedStaleSeq;
                }
                let mut view = self.open_view(session_id, now_ms);
                self.note_seq(producer, seq);
                match producer {
                    OverlayTextProducer::DaemonSttInterim => {
                        if same(state.as_str(), "finalizing") {
                            view.phase = OverlayPhase::Finalizing;
                        } else if same(state.as_str(), "listening") {
                            view.phase = OverlayPhase::Listening;
                        }
                    },
                    OverlayTextProducer::LlmAnswerDelta => {
                        view = start_answer(view);
                        view.status = Some(state);
                    },
                }
                self.show(view);
                ApplyOutcome::Applied
            },
            OverlayIpcMessage::InterimText { session_id, producer, seq, text } => {
                if self.is_late(session_id, producer, seq) {
                    return ApplyOutcome::DroppedStaleSeq;
                }
                let mut view = self.open_view(session_id, now_ms);
                self.note_seq(producer, seq);
                match producer {
                    OverlayTextProducer::DaemonSttInterim => {
                        view.transcript = text;
                        view.phase = OverlayPhase::Interim;
                    },
                    OverlayTextProducer::LlmAnswerDelta => {
                        view = start_answer(view);
                        view.answer = text;
                    },
                }
                self.show(view);
                ApplyOutcome::Applied
            },
            OverlayIpcMessage::SessionEnded { session_id, reason } => {
                match self.take_view() {
                    Some(mut view) => {
                        if session_id == nil && view.session_id != nil {
                            view.notice = None;
                            self.show(view);
                            ApplyOutcome::Applied
                        } else if view.session_id == session_id {
                            let view = end_session(view, reason, now_ms);
                            self.show(view);
                            self.hide_at_ms = Some(now_ms.saturating_add(self.auto_hide_ms));
                            ApplyOutcome::Applied
                        } else {
                            self.show(view);
                            ApplyOutcome::DroppedSessionMismatch
                        }
                    },
                    None => ApplyOutcome::DroppedSessionMismatch,
                }
            },
            OverlayIpcMessage::InjectionComplete { session_id, success } => {
                match self.take_view() {
                    Some(mut view) => {
                        if view.session_id == session_id {
                            view.phase = OverlayPhase::Done { success };
                            self.show(view);
                            self.hide_at_ms = Some(now_ms.saturating_add(self.auto_hide_ms));
                            ApplyOutcome::Applied
                        } else {
                            self.show(view);
                            ApplyOutcome::DroppedSessionMismatch
                        }
                    },
                    None => ApplyOutcome::DroppedSessionMismatch,
                }
            },
            OverlayIpcMessage::SessionWarning { session_id, .. } => {
                match self.take_view() {
                    Some(mut view) => {
                        if view.session_id == session_id {
                            view.warning = Some(CapWarning { at_ms: now_ms, remaining_ms });
                            self.show(view);
                            ApplyOutcome::Applied
                        } else {
                            self.show(view);
                            ApplyOutcome::DroppedSessionMismatch
                        }
                    },
                    None => ApplyOutcome::DroppedSessionMismatch,
                }
            },
            _ => ApplyOutcome::Applied,
        }
    }

    /// Lets time pass: what has ended is hidden when its time is up. Tells whether it was.
    pub fn advance_time(&mut self, now_ms: u64) -> (r: bool)
        ensures
            r == (old(self).model().hide_at_ms matches Some(at) && at <= now_ms),
            final(self).model() == if r {
                MachineModel {
                    view: None,
                    daemon_seq: None,
                    llm_seq: None,
                    hide_at_ms: None,
                    ..old(self).model()
                }
            } else {
                old(self).model()
            },
    {
        let due = match self.hide_at_ms {
            Some(at) => at <= now_ms,
            None => false,
        };
        if due {
            self.visibility = OverlayVisibility::Hidden;
            self.last_daemon_seq = None;
            self.last_llm_seq = None;
            self.hide_at_ms = None;
        }
        due
    }
}

fn start_answer(view: SessionView) -> (r: SessionView)
    ensures
        r.model() == answering(view.model()),
{
    let mut v = view;
    v.mode = SessionMode::Llm;
    v.phase = OverlayPhase::Answering;
    if v.question.is_none() && !is_blank(v.transcript.as_str()) {
        v.question = Some(v.transcript.as_str().to_owned());
    }
    v
}

fn end_session(view: SessionView, reason: Option<String>, now_ms: u64) -> (r: SessionView)
    ensures
        r.model() == ended(view.model(), opt_string(reason), now_ms),
{
    let mut v = view;
    if v.ended_ms.is_none() {
        v.ended_ms = Some(now_ms);
    }
    if let Some(why) = reason {
        if !same(why.as_str(), "final") {
            v.reason = Some(why);
            v.phase = OverlayPhase::Finalizing;
        }
    }
    v
}

/// A message that comes too late, or for another session, changes nothing.
pub proof fn law_dropped_messages_change_nothing(
    m: MachineModel,
    message: OverlayIpcMessage,
    remaining_ms: Option<u64>,
    now_ms: u64,
)
    ensures
        applied(m, message, remaining_ms, now_ms).1 != ApplyOutcome::Applied ==> applied(
            m,
            message,
            remaining_ms,
            now_ms,
        ).0 == m,
{
}

/// The same state or text is not applied twice.
pub proof fn law_repeated_messages_are_late(
    m: MachineModel,
    message: OverlayIpcMessage,
    remaining_ms: Option<u64>,
    now_ms: u64,
)
    requires
        message matches OverlayIpcMessage::InterimText { .. },
        applied(m, message, remaining_ms, now_ms).1 == ApplyOutcome::Applied,
    ensures
        applied(applied(m, message, remaining_ms, now_ms).0, message, remaining_ms, now_ms).1
            == ApplyOutcome::DroppedStaleSeq,
{
}

// ---- what messages show

/// A text that is applied is what is shown of its producer: the transcript of the daemon, the
/// answer of the model. It is the text of its own session, and the other text stays where the
/// session was shown before.
pub proof fn law_applied_text_is_shown(
    m: MachineModel,
    session_id: SessionId,
    producer: OverlayTextProducer,
    seq: u64,
    text: String,
    remaining_ms: Option<u64>,
    now_ms: u64,
)
    requires
        !(m.view is Some && (m.view->0).session_id == session_id && producer is DaemonSttInterim
            && m.daemon_seq is Some && seq <= m.daemon_seq->0),
        !(m.view is Some && (m.view->0).session_id == session_id && producer is LlmAnswerDelta
            && m.llm_seq is Some && seq <= m.llm_seq->0),
    ensures
        ({
            let (n, outcome) = applied(
                m,
                OverlayIpcMessage::InterimText { session_id, producer, seq, text },
                remaining_ms,
                now_ms,
            );
            let known = m.view is Some && (m.view->0).session_id == session_id;
            &&& outcome == ApplyOutcome::Applied
            &&& n.view matches Some(v) && {
                &&& v.session_id == session_id
                &&& producer is DaemonSttInterim ==> v.transcript == text@ && v.phase
                    == OverlayPhase::Interim && n.daemon_seq == Some(seq)
                &&& producer is LlmAnswerDelta ==> v.answer == text@ && v.phase
                    == OverlayPhase::Answering && v.mode == SessionMode::Llm && n.llm_seq == Some(
                    seq,
                )
                &&& known && producer is DaemonSttInterim ==> v.answer == (m.view->0).answer
                    && v.mode == (m.view->0).mode && v.question == (m.view->0).question
                &&& known && producer is LlmAnswerDelta ==> v.transcript == (m.view->0).transcript
                &&& known ==> v.started_ms == (m.view->0).started_ms && n.hide_at_ms
                    == m.hide_at_ms && v.warning == (m.view->0).warning && v.notice
                    == (m.view->0).notice
                &&& !known ==> v.started_ms == now_ms && n.hide_at_ms is None && v.reason is None
                    && v.warning is None && v.notice is None && v.ended_ms is None
                &&& !known && producer is DaemonSttInterim ==> v.answer.len() == 0 && v.mode
                    == SessionMode::Stt && v.question is None
                &&& !known && producer is LlmAnswerDelta ==> v.transcript.len() == 0
            }
            &&& n.auto_hide_ms == m.auto_hide_ms
        }),
{
}

/// A state that is applied moves its session: the daemon's between listening and finalizing, the
/// model's into the answer, with the state as the line that stands in for it.
pub proof fn law_applied_state_moves_the_session(
    m: MachineModel,
    session_id: SessionId,
    producer: OverlayTextProducer,
    seq: u64,
    state: String,
    remaining_ms: Option<u64>,
    now_ms: u64,
)
    requires
        session_id.bits != 0,
        m.view is Some && (m.view->0).session_id == session_id,
        !(producer is DaemonSttInterim && m.daemon_seq is Some && seq <= m.daemon_seq->0),
        !(producer is LlmAnswerDelta && m.llm_seq is Some && seq <= m.llm_seq->0),
    ensures
        ({
            let (n, outcome) = applied(
                m,
                OverlayIpcMessage::InterimState { session_id, producer, seq, state },
                remaining_ms,
                now_ms,
            );
            let old = m.view->0;
            &&& outcome == ApplyOutcome::Applied
            &&& n.view matches Some(v) && {
                &&& v.session_id == session_id && v.transcript == old.transcript && v.answer
                    == old.answer && v.started_ms == old.started_ms && v.notice == old.notice
                &&& producer is DaemonSttInterim ==> {
                    &&& state@ == "finalizing"@ ==> v.phase == OverlayPhase::Finalizing
                    &&& state@ == "listening"@ ==> v.phase == OverlayPhase::Listening
                    &&& state@ != "finalizing"@ && state@ != "listening"@ ==> v.phase == old.phase
                    &&& v.mode == old.mode && v.status == old.status
                    &&& n.daemon_seq == Some(seq) && n.llm_seq == m.llm_seq
                }
                &&& producer is LlmAnswerDelta ==> {
                    &&& v.phase == OverlayPhase::Answering && v.mode == SessionMode::Llm
                    &&& v.status == Some(state@)
                    &&& n.llm_seq == Some(seq) && n.daemon_seq == m.daemon_seq
                }
            }
        }),
{
    reveal_strlit("finalizing");
    reveal_strlit("listening");
    assert("finalizing"@.len() != "listening"@.len());
}

/// When a session is answered, what was said becomes the question, and stays it.
pub proof fn law_transcript_becomes_the_question(v: ViewModel)
    ensures
        v.question is Some ==> answering(v).question == v.question,
        v.question is None && trim(v.transcript).len() > 0 ==> answering(v).question == Some(
            v.transcript,
        ),
        v.question is None && trim(v.transcript).len() == 0 ==> answering(v).question is None,
        answering(answering(v)) == answering(v),
        answering(v).transcript == v.transcript,
        answering(v).answer == v.answer,
        answering(v).session_id == v.session_id,
{
}

/// The end of the session shown is noted once, with a failure unless it ended with its final
/// result, and the sheet is hidden after the delay.
pub proof fn law_end_of_session_is_shown(
    m: MachineModel,
    session_id: SessionId,
    reason: Option<String>,
    remaining_ms: Option<u64>,
    now_ms: u64,
)
    requires
        session_id.bits != 0,
        m.view is Some && (m.view->0).session_id == session_id,
        now_ms + m.auto_hide_ms <= u64::MAX,
    ensures
        ({
            let (n, outcome) = applied(
                m,
                OverlayIpcMessage::SessionEnded { session_id, reason },
                remaining_ms,
                now_ms,
            );
            let old = m.view->0;
            let failed = reason is Some && (reason->0)@ != "final"@;
            &&& outcome == ApplyOutcome::Applied
            &&& n.hide_at_ms == Some((now_ms + m.auto_hide_ms) as u64)
            &&& n.view matches Some(v) && {
                &&& old.ended_ms is Some ==> v.ended_ms == old.ended_ms
                &&& old.ended_ms is None ==> v.ended_ms == Some(now_ms)
                &&& failed ==> v.reason == Some((reason->0)@) && v.phase
                    == OverlayPhase::Finalizing
                &&& !failed ==> v.reason == old.reason && v.phase == old.phase
                &&& v.transcript == old.transcript && v.answer == old.answer && v.session_id
                    == session_id && v.mode == old.mode && v.question == old.question
            }
            &&& n.daemon_seq == m.daemon_seq && n.llm_seq == m.llm_seq
        }),
{
}

/// An injection that is complete is shown of the session at hand and of no other, as a success or
/// a failure, and the sheet is hidden after the delay.
pub proof fn law_injection_is_shown(
    m: MachineModel,
    session_id: SessionId,
    success: bool,
    remaining_ms: Option<u64>,
    now_ms: u64,
)
    requires
        now_ms + m.auto_hide_ms <= u64::MAX,
    ensures
        ({
            let (n, outcome) = applied(
                m,
                OverlayIpcMessage::InjectionComplete { session_id, success },
                remaining_ms,
                now_ms,
            );
            if m.view is Some && (m.view->0).session_id == session_id {
                &&& outcome == ApplyOutcome::Applied
                &&& n.hide_at_ms == Some((now_ms + m.auto_hide_ms) as u64)
                &&& n.view == Some(
                    ViewModel { phase: OverlayPhase::Done { success }, ..m.view->0 },
                )
            } else {
                outcome == ApplyOutcome::DroppedSessionMismatch && n == m
            }
        }),
{
}

/// A warning is shown of the session at hand and of no other, with what it says is left.
pub proof fn law_warning_is_shown(
    m: MachineModel,
    message: OverlayIpcMessage,
    remaining_ms: Option<u64>,
    now_ms: u64,
)
    requires
        message is SessionWarning,
    ensures
        message matches OverlayIpcMessage::SessionWarning { session_id, .. } && {
            let (n, outcome) = applied(m, message, remaining_ms, now_ms);
            if m.view is Some && (m.view->0).session_id == session_id {
                &&& outcome == ApplyOutcome::Applied
                &&& n.hide_at_ms == m.hide_at_ms
                &&& n.view == Some(
                    ViewModel {
                        warning: Some(CapWarning { at_ms: now_ms, remaining_ms }),
                        ..m.view->0
                    },
                )
            } else {
                outcome == ApplyOutcome::DroppedSessionMismatch && n == m
            }
        },
{
}

/// A notice of no session stands beside the session at hand until its end comes, and touches
/// nothing else; without a session it is dropped.
pub proof fn law_notice_stands_beside_the_session(
    m: MachineModel,
    producer: OverlayTextProducer,
    seq: u64,
    state: String,
    reason: Option<String>,
    remaining_ms: Option<u64>,
    now_ms: u64,
)
    requires
        m.view is Some ==> (m.view->0).session_id.bits != 0,
    ensures
        ({
            let nil = SessionId { bits: 0 };
            let (n, outcome) = applied(
                m,
                OverlayIpcMessage::InterimState { session_id: nil, producer, seq, state },
                remaining_ms,
                now_ms,
            );
            let (e, ended) = applied(
                n,
                OverlayIpcMessage::SessionEnded { session_id: nil, reason },
                remaining_ms,
                now_ms,
            );
            if m.view is Some {
                &&& outcome == ApplyOutcome::Applied
                &&& n == (MachineModel {
                    view: Some(ViewModel { notice: Some(state@), ..m.view->0 }),
                    ..m
                })
                &&& ended == ApplyOutcome::Applied
                &&& e == (MachineModel { view: Some(ViewModel { notice: None, ..m.view->0 }), ..m })
            } else {
                n == m && outcome == ApplyOutcome::DroppedSessionMismatch
            }
        }),
{
}

/// The clock of a session runs from its start to its end, and stands still after it.
pub proof fn law_clock_runs_until_the_end(v: ViewModel, now_ms: u64)
    ensures
        v.ended_ms is None && now_ms >= v.started_ms ==> elapsed(v, now_ms) == now_ms
            - v.started_ms,
        v.ended_ms is Some && v.ended_ms->0 >= v.started_ms ==> elapsed(v, now_ms) == v.ended_ms->0
            - v.started_ms,
        v.warning is None ==> remaining(v, now_ms) is None,
        v.warning is Some && (v.warning->0).remaining_ms is None ==> remaining(v, now_ms) is None,
        v.warning is Some && (v.warning->0).remaining_ms is Some && (v.warning->0).at_ms <= now_ms
            && now_ms <= (v.warning->0).at_ms + (v.warning->0).remaining_ms->0 <= u64::MAX
            ==> remaining(v, now_ms) == Some(
            ((v.warning->0).at_ms + (v.warning->0).remaining_ms->0 - now_ms) as u64,
        ),
{
}

/// There is a text to show where the transcript or the answer is not blank; the microphone is
/// heard while the session listens.
pub proof fn law_text_and_microphone(v: ViewModel)
    ensures
        shows_text(v) <==> trim(v.transcript).len() > 0 || trim(v.answer).len() > 0,
        live(v) ==> !(v.phase is Done) && !(v.phase is Finalizing) && !(v.phase is Answering),
        v.phase is Listening || v.phase is Interim ==> live(v),
{
}

/// What is to be hidden is hidden at its time, at once and completely, and nothing is before.
pub proof fn law_hidden_at_its_time(now_ms: u64)
    ensures
        forall|m: &mut OverlayStateMachine, r: bool| #[trigger]
            call_ensures(OverlayStateMachine::advance_time, (m, now_ms), r) ==> {
                &&& r <==> m.model().hide_at_ms is Some && m.model().hide_at_ms->0 <= now_ms
                &&& r ==> final(m).model().view is None && final(m).model().hide_at_ms is None
                &&& !r ==> final(m).model() == m.model()
            },
{
}

} // verus!
