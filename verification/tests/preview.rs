use parakeet_ptt::overlay_ipc::{OverlayIpcMessage, OverlayTextProducer};
use parakeet_ptt::preview::{compose_picture, header_text, Script};
use parakeet_ptt::protocol::SessionId;

#[test]
fn pictures_lie_on_their_page() {
    assert_eq!(header_text(972, 250), "P6\n972 250\n255\n");
    // A clear pixel shows the page, an opaque one itself.
    assert_eq!(
        compose_picture(&vec![0, 0, 0, 0, 10, 20, 30, 255]),
        vec![0xdd, 0xdc, 0xd8, 30, 20, 10]
    );
}

#[test]
fn sentences_are_said_word_by_word() {
    let session = SessionId { bits: 1 };
    let mut script = Script::new(session);
    script.state(0, OverlayTextProducer::DaemonSttInterim, "listening");
    let end = script.words(100, 50, "okay so  then");
    assert_eq!(end, 250);
    let said: Vec<(u64, u64, String)> = script
        .events
        .iter()
        .filter_map(|(at, message)| match message {
            OverlayIpcMessage::InterimText { seq, text, .. } => Some((*at, *seq, text.clone())),
            _ => None,
        })
        .collect();
    assert_eq!(
        said,
        vec![
            (100, 2, "okay".to_string()),
            (150, 3, "okay so".to_string()),
            (200, 4, "okay so then".to_string()),
        ]
    );
    script.ended(300, "final");
    script.injected(350, true);
    assert_eq!(script.events.len(), 6);
    assert_eq!(
        script.events[5].1,
        OverlayIpcMessage::InjectionComplete {
            session_id: session,
            success: true
        }
    );
}
