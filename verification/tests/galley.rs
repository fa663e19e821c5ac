use parakeet_ptt::galley::{
    answer_layout, buffer_size, format_elapsed, format_remaining, lamp_for, max_sheet_height,
    question_layout, status_text, DotPulse, Ink, Motion, MotionKind, RuleFill, Sheet,
    DEFAULT_SHEET_WIDTH, MIN_SHEET_HEIGHT, SHADOW_PAD_BOTTOM, SHADOW_PAD_SIDE, SHADOW_PAD_TOP,
    SLIDE_ROOM,
};
use parakeet_ptt::overlay_state::{
    CapWarning, OverlayPhase, OverlayVisibility, SessionMode, SessionView,
};
use parakeet_ptt::paint::{Frame, Rgb};
use parakeet_ptt::protocol::SessionId;

fn view(phase: OverlayPhase) -> SessionView {
    SessionView {
        session_id: SessionId { bits: 1 },
        mode: SessionMode::Stt,
        phase,
        transcript: "hello".to_string(),
        question: None,
        answer: String::new(),
        status: None,
        notice: None,
        reason: None,
        started_ms: 0,
        ended_ms: None,
        warning: None,
    }
}

#[test]
fn lamp_vocabulary_matches_the_prototype() {
    assert_eq!(lamp_for(&view(OverlayPhase::Listening)).word, "REC");
    assert_eq!(lamp_for(&view(OverlayPhase::Finalizing)).word, "DECODING");
    assert_eq!(
        lamp_for(&view(OverlayPhase::Done { success: true })).word,
        "PASTED"
    );
    assert_eq!(
        lamp_for(&view(OverlayPhase::Done { success: false })).word,
        "FAILED"
    );

    let mut empty = view(OverlayPhase::Done { success: false });
    empty.transcript.clear();
    assert_eq!(lamp_for(&empty).word, "NO TEXT");

    let mut llm = view(OverlayPhase::Interim);
    llm.mode = SessionMode::Llm;
    assert_eq!(lamp_for(&llm).word, "ASK");
    llm.phase = OverlayPhase::Answering;
    assert_eq!(lamp_for(&llm).word, "ANSWER");

    let mut failed = view(OverlayPhase::Finalizing);
    failed.reason = Some("abort".to_string());
    assert_eq!(lamp_for(&failed).word, "FAULT");
}

#[test]
fn timer_formats_count_up_and_count_down() {
    assert_eq!(format_elapsed(0), "0:00.0");
    assert_eq!(format_elapsed(7_460), "0:07.4");
    assert_eq!(format_elapsed(125_900), "2:05.9");
    assert_eq!(format_remaining(117_001), "-1:58");
    assert_eq!(format_remaining(60_000), "-1:00");
    assert_eq!(format_remaining(0), "-0:00");
}

#[test]
fn buffer_fits_the_tallest_layout_and_the_slide() {
    let (width, height) = buffer_size(DEFAULT_SHEET_WIDTH, 4);
    assert_eq!(width, DEFAULT_SHEET_WIDTH + 2 * SHADOW_PAD_SIDE);
    assert!(height >= max_sheet_height(4) + SHADOW_PAD_TOP + SHADOW_PAD_BOTTOM + SLIDE_ROOM);
    assert!(max_sheet_height(4) >= 190);
    assert!(max_sheet_height(1) >= MIN_SHEET_HEIGHT);
}

#[test]
fn countdown_replaces_the_timer_after_the_warning() {
    let mut v = view(OverlayPhase::Interim);
    v.warning = Some(CapWarning {
        at_ms: 0,
        remaining_ms: Some(120_000),
    });
    assert_eq!(v.remaining_ms(5_000), Some(115_000));
    assert_eq!(format_remaining(v.remaining_ms(5_000).unwrap()), "-1:55");
}

#[test]
fn hidden_state_paints_nothing_after_the_exit_motion() {
    let mut sheet = Sheet::new();
    sheet.observe(
        &OverlayVisibility::Visible(view(OverlayPhase::Done { success: true })),
        0,
    );
    sheet.observe(
        &OverlayVisibility::Visible(view(OverlayPhase::Done { success: true })),
        1_000,
    );
    sheet.observe(&OverlayVisibility::Hidden, 2_000);
    assert!(
        sheet.is_moving(2_000),
        "the exit motion is still running"
    );
    let seen = sheet.observe(&OverlayVisibility::Hidden, 3_000);
    assert!(seen.gone);
    assert!(!sheet.is_moving(3_000));
    assert!(sheet.paint_plan(3_000).is_none());
    assert!(sheet.title().is_none());
    let (w, h) = buffer_size(DEFAULT_SHEET_WIDTH, 4);
    let mut frame = Frame {
        bytes: vec![7u8; (w * h * 4) as usize],
        width: w,
        height: h,
    };
    assert!(sheet.begin_paint(&mut frame, 3_000).is_none());
    assert_eq!((frame.width, frame.height), (w, h));
    assert_eq!(frame.bytes.len(), (w * h * 4) as usize);
    assert!(frame.bytes.iter().all(|b| *b == 0));
}

#[test]
fn painting_begins_with_a_clear_frame() {
    let mut sheet = Sheet::new();
    sheet.observe(&OverlayVisibility::Visible(view(OverlayPhase::Interim)), 0);
    let mut frame = Frame {
        bytes: vec![255u8; 16],
        width: 2,
        height: 2,
    };
    let plan = sheet.begin_paint(&mut frame, 500).expect("a sheet");
    let same = sheet.paint_plan(500).expect("a sheet");
    assert_eq!(format!("{plan:?}"), format!("{same:?}"));
    assert_eq!(frame.bytes, vec![0u8; 16]);
}

#[test]
fn a_plan_says_what_is_painted() {
    let mut sheet = Sheet::new();
    let mut v = view(OverlayPhase::Finalizing);
    v.warning = Some(CapWarning {
        at_ms: 0,
        remaining_ms: Some(120_000),
    });
    v.notice = Some("groß".to_string());
    let seen = sheet.observe(&OverlayVisibility::Visible(v), 5_000);
    assert!(seen.arriving);
    let plan = sheet.paint_plan(5_000).expect("a sheet");
    assert_eq!(plan.lamp.word, "DECODING");
    assert_eq!(plan.timer, "-1:55");
    assert_eq!(plan.timer_ink, Ink::Rubric);
    assert_eq!(plan.meta, Some(("GROSS".to_string(), Ink::Pencil)));
    assert!(plan.rule_shown);
    assert_eq!(plan.rule_fill, RuleFill::Sealing);

    let seen = sheet.observe(
        &OverlayVisibility::Visible(view(OverlayPhase::Done { success: true })),
        5_250,
    );
    assert!(!seen.arriving);
    assert!(seen.fading);
    let plan = sheet.paint_plan(5_250).expect("a sheet");
    assert_eq!(plan.aux.as_deref(), Some("seal 250ms"));
    assert_eq!(plan.dot, DotPulse::Pasted);
    assert_eq!(plan.meta, None);
}

#[test]
fn a_failed_session_falls_and_another_lifts() {
    for (success, kind, over_at) in [
        (true, MotionKind::OutLift, 1_220),
        (false, MotionKind::OutFall, 1_200),
    ] {
        let mut sheet = Sheet::new();
        sheet.observe(
            &OverlayVisibility::Visible(view(OverlayPhase::Done { success })),
            0,
        );
        sheet.observe(&OverlayVisibility::Hidden, 1_000);
        let motion = sheet.motion().expect("a motion");
        assert_eq!(
            motion,
            Motion {
                kind,
                started_ms: 1_000
            }
        );
        assert!(motion.exiting());
        assert!(!motion.finished(over_at - 1));
        assert!(motion.finished(over_at));
    }
}

#[test]
fn questions_and_answers_have_their_layout() {
    let mut v = view(OverlayPhase::Interim);
    assert!(!answer_layout(&v));
    assert!(!question_layout(&v));
    v.mode = SessionMode::Llm;
    v.phase = OverlayPhase::Answering;
    v.question = Some("what".to_string());
    v.status = Some("Generating answer...".to_string());
    assert!(answer_layout(&v));
    assert!(question_layout(&v));
    assert_eq!(status_text(&v).as_deref(), Some("Generating answer..."));
    v.answer = "A lock.".to_string();
    assert_eq!(status_text(&v), None);
}

#[test]
fn inks_have_their_colours() {
    let Rgb { r, g, b } = Ink::Ink.rgb();
    assert!(r < 0x60 && g < 0x60 && b < 0x60);
    assert_ne!(Ink::Rubric.rgb(), Ink::Sage.rgb());
}
