use parakeet_ptt::audio_feedback::{
    audio_players, pick_found, pick_present, sound_candidates, AudioFeedback,
};

#[test]
fn disabled_feedback_does_not_probe() {
    let feedback = AudioFeedback::new(false, None, None, 100);
    assert!(!feedback.is_enabled());
    assert!(feedback.player_binary.is_none());
    assert!(feedback.sound_path.is_none());
}

#[test]
fn custom_path_takes_precedence() {
    // This test verifies the logic path, not actual file existence
    let feedback = AudioFeedback::new(
        true,
        Some("/nonexistent/custom.ogg".to_string()),
        None,
        100,
    );
    // Custom path doesn't exist, so it should fall back to system sounds (or none)
    // The important thing is it doesn't panic
    let _ = feedback.is_enabled();
}

#[test]
fn a_custom_sound_that_is_present_is_the_one_played() {
    let file = tempfile::NamedTempFile::new().expect("a temporary file");
    let path = file.path().to_str().expect("a path of text").to_string();
    let feedback = AudioFeedback::new(true, Some(path.clone()), None, 100);
    assert_eq!(feedback.sound_path, Some(path));
    // Whether there is a player depends on the machine: if one was found, it is a file.
    assert_eq!(feedback.is_enabled(), feedback.player_binary.is_some());
    if let Some(player) = &feedback.player_binary {
        assert!(std::path::Path::new(player).is_file());
    }
}

#[test]
fn the_first_present_choice_is_picked() {
    let choices = vec!["a".to_string(), "b".to_string(), "c".to_string()];
    assert_eq!(
        pick_present(&choices, &vec![false, true, true]),
        Some("b".to_string())
    );
    assert_eq!(pick_present(&choices, &vec![false, false, false]), None);
}

#[test]
fn the_first_player_found_is_picked() {
    let pw_play = Some("/usr/bin/pw-play".to_string());
    let paplay = Some("/usr/bin/paplay".to_string());
    let aplay = Some("/opt/bin/aplay".to_string());
    assert_eq!(
        pick_found(&vec![pw_play.clone(), paplay.clone(), aplay.clone()]),
        pw_play
    );
    assert_eq!(pick_found(&vec![None, paplay.clone(), aplay.clone()]), paplay);
    assert_eq!(pick_found(&vec![None, None, aplay.clone()]), aplay);
    assert_eq!(pick_found(&vec![None, None, None]), None);
    assert_eq!(pick_found(&vec![]), None);
}

#[test]
fn a_player_that_is_found_has_the_name_of_a_player() {
    // Whether there is a player depends on the machine.
    let feedback = AudioFeedback::new(true, None, None, 100);
    if let Some(player) = &feedback.player_binary {
        let name = std::path::Path::new(player).file_name().expect("a file name");
        assert!(audio_players().iter().any(|p| name == p.as_str()));
    }
}

#[test]
fn candidates_begin_with_the_custom_sound() {
    let with = sound_candidates(&Some("/x.ogg".to_string()), &None);
    let without = sound_candidates(&None, &None);
    assert_eq!(with[0], "/x.ogg");
    assert_eq!(with[1..].to_vec(), without);
    assert!(!audio_players().is_empty());
}

#[test]
fn feedback_needs_a_player_and_a_sound() {
    let whole = AudioFeedback::with_found(
        true,
        Some("/usr/bin/pw-play".to_string()),
        Some("/x.ogg".to_string()),
        50,
    );
    assert!(whole.is_enabled());
    let (program, args) = whole.completion_command().expect("a command");
    assert_eq!(program, "/usr/bin/pw-play");
    assert_eq!(args, vec!["/x.ogg", "--volume", "0.50"]);
    let loud = AudioFeedback::with_found(
        true,
        Some("/usr/bin/pw-play".to_string()),
        Some("/x.ogg".to_string()),
        100,
    );
    assert_eq!(loud.completion_command().expect("a command").1, vec!["/x.ogg"]);
    let other = AudioFeedback::with_found(
        true,
        Some("/usr/bin/aplay".to_string()),
        Some("/x.ogg".to_string()),
        5,
    );
    assert_eq!(other.completion_command().expect("a command").1, vec!["/x.ogg"]);

    let silent = AudioFeedback::with_found(true, None, Some("/x.ogg".to_string()), 50);
    assert!(!silent.is_enabled());
    assert!(silent.completion_command().is_none());
}
