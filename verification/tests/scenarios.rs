use parakeet_ptt::overlay_ipc::{OverlayIpcMessage, OverlayTextProducer};
use parakeet_ptt::protocol::{FloatBits, SessionId};
use parakeet_ptt::scenarios::{
    cap_scenario, is_talking, llm_scenario, picture_name, scenarios, short_scenario, time_order,
    Playback,
};

#[test]
fn scenarios_come_in_order_with_their_pictures() {
    let all = scenarios();
    let names: Vec<String> = all
        .iter()
        .flat_map(|s| s.shots.iter().map(|(_, shot)| picture_name(&s.name, shot)))
        .collect();
    for expected in [
        "short-pasted.ppm",
        "long-cap.ppm",
        "llm-answer.ppm",
        "empty-no-text.ppm",
        "error-fault.ppm",
        "cap-countdown.ppm",
        "short-interim.ppm",
        "long-four-lines.ppm",
        "short-exit.ppm",
    ] {
        assert!(names.iter().any(|n| n == expected), "missing {expected} in {names:?}");
    }
    assert_eq!(all.len(), 6);
    for (i, a) in all.iter().enumerate() {
        for b in &all[i + 1..] {
            assert_ne!(a.session, b.session);
        }
    }
}

#[test]
fn short_scenario_is_sealed_after_its_last_word() {
    let s = short_scenario(SessionId { bits: 9 });
    // Eleven words.
    let end = 420 + 11 * 190;
    assert_eq!(s.speech, vec![(300, end + 100)]);
    assert_eq!(s.shots.last(), Some(&(end + 1_970, "exit".to_string())));
    assert_eq!(s.events.len(), 1 + 11 + 3);
    assert_eq!(
        s.events[12],
        (
            end + 350,
            OverlayIpcMessage::InterimState {
                session_id: SessionId { bits: 9 },
                producer: OverlayTextProducer::DaemonSttInterim,
                seq: 13,
                state: "finalizing".to_string(),
            }
        )
    );
}

#[test]
fn answer_is_streamed_five_characters_at_a_time() {
    let s = llm_scenario(SessionId { bits: 3 });
    let answer: Vec<&(u64, OverlayIpcMessage)> = s
        .events
        .iter()
        .filter(|(_, m)| {
            matches!(
                m,
                OverlayIpcMessage::InterimText {
                    producer: OverlayTextProducer::LlmAnswerDelta,
                    ..
                }
            )
        })
        .collect();
    let texts: Vec<String> = answer
        .iter()
        .filter_map(|(_, m)| match m {
            OverlayIpcMessage::InterimText { text, .. } => Some(text.clone()),
            _ => None,
        })
        .collect();
    assert_eq!(texts[0], "A mut");
    assert_eq!(texts[1], "A mutex is");
    let last = texts.last().unwrap();
    assert!(last.ends_with("between threads."));
    assert_eq!(texts.len(), (last.chars().count() + 4) / 5);
    assert_eq!(answer[1].0 - answer[0].0, 45);
}

#[test]
fn warning_carries_its_seconds() {
    let s = cap_scenario(SessionId { bits: 3 });
    assert_eq!(
        s.events.last(),
        Some(&(
            1_500,
            OverlayIpcMessage::SessionWarning {
                session_id: SessionId { bits: 3 },
                remaining_seconds: Some(FloatBits { bits: 30.0f32.to_bits() }),
                limit_seconds: Some(FloatBits { bits: 600.0f32.to_bits() }),
            }
        ))
    );
}

#[test]
fn speech_windows_are_half_open() {
    let speech = vec![(10, 20), (40, 41)];
    assert!(!is_talking(9, &speech));
    assert!(is_talking(10, &speech));
    assert!(!is_talking(20, &speech));
    assert!(is_talking(40, &speech));
    assert!(!is_talking(100, &Vec::new()));
}

#[test]
fn entries_of_one_time_keep_their_order() {
    assert_eq!(time_order(&vec![30, 10, 30, 0, 10]), vec![3, 1, 4, 0, 2]);
}

#[test]
fn play_feeds_levels_and_takes_pictures_on_time() {
    let mut play = Playback::new(vec![40, 0], vec![100, 34]);
    let first = play.tick().unwrap();
    assert_eq!((first.now_ms, first.levels), (0, vec![0]));
    assert_eq!((first.events, first.shots), (vec![1], Vec::new()));
    let second = play.tick().unwrap();
    assert_eq!((second.now_ms, second.levels.len()), (33, 0));
    let third = play.tick().unwrap();
    assert_eq!((third.now_ms, third.levels), (66, vec![50]));
    assert_eq!((third.events, third.shots), (vec![0], vec![1]));
    let fourth = play.tick().unwrap();
    assert_eq!((fourth.now_ms, fourth.shots.len()), (99, 0));
    let fifth = play.tick().unwrap();
    assert_eq!((fifth.now_ms, fifth.levels), (132, vec![100]));
    assert_eq!(fifth.shots, vec![0]);
    assert!(play.tick().is_none());
}
