//! What the client tells the overlay process.
use vstd::prelude::*;

use crate::injector::copy_opt;
use crate::protocol::{FloatBits, SessionId};
use crate::text::{opt_string, same};

verus! {

/// Who produces a text for the overlay.
#[derive(Debug, Clone, Copy, Eq, Hash, PartialEq, Structural)]
pub enum OverlayTextProducer {
    DaemonSttInterim,
    LlmAnswerDelta,
}

impl Default for OverlayTextProducer {
    /// The daemon's interim transcript.
    fn default() -> (r: OverlayTextProducer)
        ensures
            r == OverlayTextProducer::DaemonSttInterim,
    {
        OverlayTextProducer::DaemonSttInterim
    }
}

/// The name of a producer, as messages hold it.
pub open spec fn producer_name(producer: OverlayTextProducer) -> Seq<char> {
    match producer {
        OverlayTextProducer::DaemonSttInterim => "daemon_stt_interim"@,
        OverlayTextProducer::LlmAnswerDelta => "llm_answer_delta"@,
    }
}

/// The producer of a name, if there is one.
pub open spec fn producer_named(name: Seq<char>) -> Option<OverlayTextProducer> {
    if name == producer_name(OverlayTextProducer::DaemonSttInterim) {
        Some(OverlayTextProducer::DaemonSttInterim)
    } else if name == producer_name(OverlayTextProducer::LlmAnswerDelta) {
        Some(OverlayTextProducer::LlmAnswerDelta)
    } else {
        None
    }
}

impl OverlayTextProducer {
    /// The name of the producer, as messages hold it.
    pub fn as_str(&self) -> (r: &'static str)
        ensures
            r@ == producer_name(*self),
    {
        match self {
            OverlayTextProducer::DaemonSttInterim => "daemon_stt_interim",
            OverlayTextProducer::LlmAnswerDelta => "llm_answer_delta",
        }
    }

    /// The producer of a name that a message holds, if there is one.
    pub fn from_name(name: &str) -> (r: Option<OverlayTextProducer>)
        ensures
            r == producer_named(name@),
    {
        if same(name, "daemon_stt_interim") {
            Some(OverlayTextProducer::DaemonSttInterim)
        } else if same(name, "llm_answer_delta") {
            Some(OverlayTextProducer::LlmAnswerDelta)
        } else {
            None
        }
    }
}

/// A producer is read back from its name, and no other name stands for it.
pub proof fn law_producer_is_read_back(producer: OverlayTextProducer, name: Seq<char>)
    ensures
        producer_named(producer_name(producer)) == Some(producer),
        producer_named(name) == Some(producer) ==> name == producer_name(producer),
{
    reveal_strlit("daemon_stt_interim");
    reveal_strlit("llm_answer_delta");
    assert("daemon_stt_interim"@.len() != "llm_answer_delta"@.len());
}

/// A message to the overlay process.
#[allow(inconsistent_fields)]
#[derive(Debug, PartialEq, Eq)]
pub enum OverlayIpcMessage {
    OutputHint { output_name: String },
    InterimState {
        session_id: SessionId,
        producer: OverlayTextProducer,
        seq: u64,
        state: String,
    },
    InterimText {
        session_id: SessionId,
        producer: OverlayTextProducer,
        seq: u64,
        text: String,
    },
    AudioLevel { session_id: SessionId, level_db: FloatBits },
    InjectionComplete { session_id: SessionId, success: bool },
    SessionEnded { session_id: SessionId, reason: Option<String> },
    SessionWarning {
        session_id: SessionId,
        remaining_seconds: Option<FloatBits>,
        limit_seconds: Option<FloatBits>,
    },
}

/// A message to the overlay process, by what its texts say.
#[allow(inconsistent_fields)]
pub enum IpcView {
    OutputHint { output_name: Seq<char> },
    InterimState {
        session_id: SessionId,
        producer: OverlayTextProducer,
        seq: u64,
        state: Seq<char>,
    },
    InterimText {
        session_id: SessionId,
        producer: OverlayTextProducer,
        seq: u64,
        text: Seq<char>,
    },
    AudioLevel { session_id: SessionId, level_db: FloatBits },
    InjectionComplete { session_id: SessionId, success: bool },
    SessionEnded { session_id: SessionId, reason: Option<Seq<char>> },
    SessionWarning {
        session_id: SessionId,
        remaining_seconds: Option<FloatBits>,
        limit_seconds: Option<FloatBits>,
    },
}

impl OverlayIpcMessage {
    /// The message, by what its texts say.
    pub open spec fn shown(self) -> IpcView {
        match self {
            OverlayIpcMessage::OutputHint { output_name } => IpcView::OutputHint {
                output_name: output_name@,
            },
            OverlayIpcMessage::InterimState { session_id, producer, seq, state } =>
                IpcView::InterimState { session_id, producer, seq, state: state@ },
            OverlayIpcMessage::InterimText { session_id, producer, seq, text } =>
                IpcView::InterimText { session_id, producer, seq, text: text@ },
            OverlayIpcMessage::AudioLevel { session_id, level_db } => IpcView::AudioLevel {
                session_id,
                level_db,
            },
            OverlayIpcMessage::InjectionComplete { session_id, success } =>
                IpcView::InjectionComplete { session_id, success },
            OverlayIpcMessage::SessionEnded { session_id, reason } => IpcView::SessionEnded {
                session_id,
                reason: opt_string(reason),
            },
            OverlayIpcMessage::SessionWarning { session_id, remaining_seconds, limit_seconds } =>
                IpcView::SessionWarning { session_id, remaining_seconds, limit_seconds },
        }
    }

    /// A copy of the message.
    pub fn copy(&self) -> (r: OverlayIpcMessage)
        ensures
            r.shown() == self.shown(),
    {
        match self {
            OverlayIpcMessage::OutputHint { output_name } => OverlayIpcMessage::OutputHint {
                output_name: output_name.as_str().to_owned(),
            },
            OverlayIpcMessage::InterimState { session_id, producer, seq, state } =>
                OverlayIpcMessage::InterimState {
                session_id: *session_id,
                producer: *producer,
                seq: *seq,
                state: state.as_str().to_owned(),
            },
            OverlayIpcMessage::InterimText { session_id, producer, seq, text } =>
                OverlayIpcMessage::InterimText {
                session_id: *session_id,
                producer: *producer,
                seq: *seq,
                text: text.as_str().to_owned(),
            },
            OverlayIpcMessage::AudioLevel { session_id, level_db } =>
                OverlayIpcMessage::AudioLevel { session_id: *session_id, level_db: *level_db },
            OverlayIpcMessage::InjectionComplete { session_id, success } =>
                OverlayIpcMessage::InjectionComplete {
                session_id: *session_id,
                success: *success,
            },
            OverlayIpcMessage::SessionEnded { session_id, reason } =>
                OverlayIpcMessage::SessionEnded {
                session_id: *session_id,
                reason: copy_opt(reason),
            },
            OverlayIpcMessage::SessionWarning { session_id, remaining_seconds, limit_seconds } =>
                OverlayIpcMessage::SessionWarning {
                session_id: *session_id,
                remaining_seconds: *remaining_seconds,
                limit_seconds: *limit_seconds,
            },
        }
    }
}

/// What a message says is what it holds, field by field; two messages that say the same hold the
/// same texts.
pub proof fn law_message_says_what_it_holds(m: OverlayIpcMessage)
    ensures
        match m {
            OverlayIpcMessage::OutputHint { output_name } => m.shown() matches
                IpcView::OutputHint { output_name: n } && n == output_name@,
            OverlayIpcMessage::InterimState { session_id, producer, seq, state } => m.shown()
                matches IpcView::InterimState { session_id: i, producer: p, seq: n, state: s }
                && i == session_id && p == producer && n == seq && s == state@,
            OverlayIpcMessage::InterimText { session_id, producer, seq, text } => m.shown()
                matches IpcView::InterimText { session_id: i, producer: p, seq: n, text: t } && i
                == session_id && p == producer && n == seq && t == text@,
            OverlayIpcMessage::AudioLevel { session_id, level_db } => m.shown() matches
                IpcView::AudioLevel { session_id: i, level_db: l } && i == session_id && l
                == level_db,
            OverlayIpcMessage::InjectionComplete { session_id, success } => m.shown() matches
                IpcView::InjectionComplete { session_id: i, success: s } && i == session_id && s
                == success,
            OverlayIpcMessage::SessionEnded { session_id, reason } => m.shown() matches
                IpcView::SessionEnded { session_id: i, reason: r } && i == session_id && r
                == opt_string(reason),
            OverlayIpcMessage::SessionWarning { session_id, remaining_seconds, limit_seconds } =>
                m.shown() matches IpcView::SessionWarning {
                    session_id: i,
                    remaining_seconds: r,
                    limit_seconds: l,
                } && i == session_id && r == remaining_seconds && l == limit_seconds,
        },
{
}

} // verus!
