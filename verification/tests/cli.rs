use parakeet_ptt::cli::{
    internal_overlay_args, launch_mode, pause_after_test, test_attempts, test_payload, timeout_ms,
    LaunchMode,
};

#[test]
fn flags_decide_how_the_program_runs() {
    assert_eq!(launch_mode(false, false, false), LaunchMode::Client);
    assert_eq!(launch_mode(false, false, true), LaunchMode::Demo);
    assert_eq!(launch_mode(false, true, true), LaunchMode::TestInjection);
    assert_eq!(launch_mode(true, true, true), LaunchMode::InjectOnce);
}

#[test]
fn the_overlay_is_run_by_its_first_argument() {
    let args = |words: &[&str]| -> Vec<String> { words.iter().map(|w| w.to_string()).collect() };
    assert_eq!(
        internal_overlay_args(&args(&["parakeet-ptt", "__overlay-renderer", "--margin-y", "5"])),
        Some(args(&["parakeet-overlay", "--margin-y", "5"]))
    );
    assert_eq!(internal_overlay_args(&args(&["parakeet-ptt", "--demo"])), None);
    assert_eq!(internal_overlay_args(&args(&[])), None);
}

#[test]
fn times_and_counts_are_one_at_least() {
    assert_eq!(timeout_ms(0), 1_000);
    assert_eq!(timeout_ms(20), 20_000);
    assert_eq!(timeout_ms(u64::MAX), u64::MAX);
    assert_eq!(test_attempts(0), 1);
    assert_eq!(test_attempts(3), 3);
}

#[test]
fn test_texts_are_numbered() {
    assert_eq!(test_payload("Parakeet Test", 0, 1), "Parakeet Test");
    assert_eq!(test_payload("Parakeet Test", 0, 3), "Parakeet Test 01");
    assert_eq!(test_payload("Parakeet Test", 11, 12), "Parakeet Test 12");
    assert!(pause_after_test(0, 3, 150));
    assert!(!pause_after_test(2, 3, 150));
    assert!(!pause_after_test(0, 3, 0));
}
