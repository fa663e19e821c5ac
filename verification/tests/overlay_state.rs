use parakeet_ptt::overlay_ipc::{OverlayIpcMessage, OverlayTextProducer};
use parakeet_ptt::overlay_state::{
    ApplyOutcome, OverlayPhase, OverlayStateMachine, OverlayVisibility, SessionMode, SessionView,
};
use parakeet_ptt::protocol::SessionId;

const ID: SessionId = SessionId { bits: 7 };

fn text(producer: OverlayTextProducer, seq: u64, text: &str) -> OverlayIpcMessage {
    OverlayIpcMessage::InterimText {
        session_id: ID,
        producer,
        seq,
        text: text.to_string(),
    }
}

fn state(session_id: SessionId, producer: OverlayTextProducer, seq: u64, s: &str) -> OverlayIpcMessage {
    OverlayIpcMessage::InterimState {
        session_id,
        producer,
        seq,
        state: s.to_string(),
    }
}

fn shown(machine: &OverlayStateMachine) -> &SessionView {
    match machine.visibility() {
        OverlayVisibility::Visible(view) => view,
        OverlayVisibility::Hidden => panic!("a session should be shown"),
    }
}

#[test]
fn a_session_is_shown_from_its_first_text_to_its_hiding() {
    let daemon = OverlayTextProducer::DaemonSttInterim;
    let mut machine = OverlayStateMachine::new(1_200);
    assert_eq!(
        machine.apply_event(text(daemon, 1, "hello"), None, 100),
        ApplyOutcome::Applied
    );
    let view = shown(&machine);
    assert_eq!(view.phase, OverlayPhase::Interim);
    assert_eq!(view.transcript, "hello");
    assert!(view.is_live());
    assert_eq!(view.elapsed_ms(350), 250);

    machine.apply_event(
        OverlayIpcMessage::SessionEnded {
            session_id: ID,
            reason: Some("final".to_string()),
        },
        None,
        500,
    );
    assert!(!shown(&machine).failed());
    assert_eq!(shown(&machine).elapsed_ms(9_000), 400);
    machine.apply_event(
        OverlayIpcMessage::InjectionComplete {
            session_id: ID,
            success: true,
        },
        None,
        600,
    );
    assert_eq!(shown(&machine).phase, OverlayPhase::Done { success: true });
    assert!(!machine.advance_time(1_799));
    assert!(machine.advance_time(1_800));
    assert!(matches!(machine.visibility(), OverlayVisibility::Hidden));
}

#[test]
fn a_question_keeps_what_was_said() {
    let mut machine = OverlayStateMachine::new(0);
    machine.apply_event(
        text(OverlayTextProducer::DaemonSttInterim, 5, "what is a mutex"),
        None,
        0,
    );
    machine.apply_event(
        state(ID, OverlayTextProducer::LlmAnswerDelta, 1, "Generating answer..."),
        None,
        10,
    );
    machine.apply_event(text(OverlayTextProducer::LlmAnswerDelta, 2, "A lock."), None, 20);
    let view = shown(&machine);
    assert_eq!(view.mode, SessionMode::Llm);
    assert_eq!(view.phase, OverlayPhase::Answering);
    assert_eq!(view.question.as_deref(), Some("what is a mutex"));
    assert_eq!(view.answer, "A lock.");
    assert_eq!(view.status.as_deref(), Some("Generating answer..."));
}

#[test]
fn late_and_foreign_messages_are_dropped() {
    let daemon = OverlayTextProducer::DaemonSttInterim;
    let mut machine = OverlayStateMachine::new(0);
    machine.apply_event(text(daemon, 3, "new"), None, 0);
    assert_eq!(
        machine.apply_event(text(daemon, 3, "again"), None, 1),
        ApplyOutcome::DroppedStaleSeq
    );
    assert_eq!(
        machine.apply_event(
            OverlayIpcMessage::InjectionComplete {
                session_id: SessionId { bits: 8 },
                success: true,
            },
            None,
            2
        ),
        ApplyOutcome::DroppedSessionMismatch
    );
    assert_eq!(shown(&machine).transcript, "new");
}

#[test]
fn notices_for_no_session_stand_beside_the_session() {
    let llm = OverlayTextProducer::LlmAnswerDelta;
    let mut machine = OverlayStateMachine::new(0);
    machine.apply_event(text(OverlayTextProducer::DaemonSttInterim, 1, "x"), None, 0);
    machine.apply_event(state(SessionId::nil(), llm, 1, "LLM busy"), None, 1);
    assert_eq!(shown(&machine).notice.as_deref(), Some("LLM busy"));
    machine.apply_event(
        OverlayIpcMessage::SessionEnded {
            session_id: SessionId::nil(),
            reason: Some("busy".to_string()),
        },
        None,
        2,
    );
    assert_eq!(shown(&machine).notice, None);
}

#[test]
fn a_warning_counts_down() {
    let mut machine = OverlayStateMachine::new(0);
    machine.apply_event(text(OverlayTextProducer::DaemonSttInterim, 1, "x"), None, 0);
    machine.apply_event(
        OverlayIpcMessage::SessionWarning {
            session_id: ID,
            remaining_seconds: None,
            limit_seconds: None,
        },
        Some(120_000),
        1_000,
    );
    assert_eq!(shown(&machine).remaining_ms(6_000), Some(115_000));
    assert_eq!(shown(&machine).remaining_ms(500_000), Some(0));
}

#[test]
fn an_aborted_session_has_failed() {
    let mut machine = OverlayStateMachine::new(0);
    machine.apply_event(text(OverlayTextProducer::DaemonSttInterim, 1, "x"), None, 0);
    machine.apply_event(
        OverlayIpcMessage::SessionEnded {
            session_id: ID,
            reason: Some("abort".to_string()),
        },
        None,
        5,
    );
    assert!(shown(&machine).failed());
    assert_eq!(shown(&machine).phase, OverlayPhase::Finalizing);
}
