use parakeet_ptt::protocol::{frame_step, Frame, FrameStep, SessionId};
use parakeet_ptt::text::{
    comes_before, contains, end_trimmed, first_chars, is_blank, is_whitespace, join, print_hex,
    print_two_digits, print_u64, split_words, strip_prefix, to_lower, to_upper, trimmed,
};

#[test]
fn white_space_is_that_of_std() {
    for u in 0..=0x11_0000u32 {
        if let Some(c) = char::from_u32(u) {
            assert_eq!(is_whitespace(c), c.is_whitespace(), "{u:#x}");
        }
    }
}

#[test]
fn texts_are_cut_as_std_cuts_them() {
    for text in ["", "  ", " a b ", "\u{2003}x\u{a0}", "line\r\n", "é \t"] {
        assert_eq!(trimmed(text), text.trim());
        assert_eq!(end_trimmed(text), text.trim_end());
        assert_eq!(is_blank(text), text.trim().is_empty());
        let words: Vec<String> = text.split_whitespace().map(|w| w.to_string()).collect();
        assert_eq!(split_words(text), words);
        assert_eq!(to_lower(text), text.to_ascii_lowercase());
        assert_eq!(to_upper(text), text.to_ascii_uppercase());
    }
}

#[test]
fn numbers_are_printed_as_std_prints_them() {
    for n in [0u64, 7, 10, 99, 100, 12_345, u64::MAX] {
        assert_eq!(print_u64(n), format!("{n}"));
        assert_eq!(print_two_digits(n), format!("{n:02}"));
        assert_eq!(print_hex(n, 16), format!("{n:016x}"));
    }
}

#[test]
fn texts_are_searched_and_joined() {
    assert!(contains("stage=backend x", "stage=backend"));
    assert!(!contains("stage", "stage=backend"));
    assert!(contains("x", ""));
    assert_eq!(strip_prefix("data: x", "data:"), Some(" x".to_string()));
    assert_eq!(strip_prefix("dat", "data:"), None);
    assert_eq!(first_chars("héllo", 2), "hé");
    assert_eq!(
        join(&vec!["a".to_string(), "b".to_string()], " | "),
        "a | b"
    );
    assert_eq!(join(&vec![], ","), "");
    for (a, b) in [("a", "b"), ("a", "aa"), ("", "a"), ("é", "z"), ("event10", "event2")] {
        assert_eq!(comes_before(a, b), a < b);
        assert_eq!(comes_before(b, a), b < a);
    }
}

#[test]
fn sessions_are_named_as_uuids_are() {
    assert_eq!(
        SessionId::nil().text(),
        "00000000-0000-0000-0000-000000000000"
    );
    let id = SessionId::fresh();
    let uuid = uuid::Uuid::from_u128(id.bits);
    assert_eq!(id.text(), uuid.to_string());
    assert_eq!(uuid.get_version_num(), 4);
    assert_ne!(id, SessionId::nil());
    assert_ne!(id, SessionId::fresh());
}

#[test]
fn frames_are_delivered_answered_or_passed_over() {
    for (frame, step) in [
        (Frame::KnownText, FrameStep::Deliver),
        (Frame::UnknownText, FrameStep::Next),
        (Frame::BadText, FrameStep::Fail),
        (Frame::Binary, FrameStep::Next),
        (Frame::Ping, FrameStep::ReplyPong),
        (Frame::Pong, FrameStep::Next),
        (Frame::Close, FrameStep::Closed),
        (Frame::Failed, FrameStep::Fail),
        (Frame::End, FrameStep::Closed),
    ] {
        assert_eq!(frame_step(frame), step);
    }
}
