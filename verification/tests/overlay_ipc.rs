use parakeet_ptt::overlay_ipc::OverlayTextProducer;

#[test]
fn a_producer_is_read_back_from_its_name() {
    for (producer, name) in [
        (OverlayTextProducer::DaemonSttInterim, "daemon_stt_interim"),
        (OverlayTextProducer::LlmAnswerDelta, "llm_answer_delta"),
    ] {
        assert_eq!(producer.as_str(), name);
        assert_eq!(OverlayTextProducer::from_name(name), Some(producer));
    }
    assert_eq!(OverlayTextProducer::from_name("daemon"), None);
    assert_eq!(OverlayTextProducer::from_name(""), None);
}
