use parakeet_ptt::hotkey::{
    derive_hotkey_event, file_name, hotkey_device_paths, is_event_device_path,
    is_hotkey_capable_device, parse_key_name, parse_pre_modifier_key_names, FoundDevice,
    HotkeyEvent, HotkeyIntent, HotkeySharedState, HotkeySharedStateReset, HotkeySupervisor,
    InputAccess, ListenerExitReason, CODE_LEFTALT, CODE_RIGHTALT, CODE_RIGHTCTRL, CODE_RIGHTSHIFT,
};
use parakeet_ptt::injector::{KeyCode, CODE_LEFTCTRL, CODE_LEFTSHIFT, CODE_V};

const RIGHTCTRL: KeyCode = KeyCode { code: CODE_RIGHTCTRL };
const LEFTSHIFT: KeyCode = KeyCode { code: CODE_LEFTSHIFT };
const RIGHTSHIFT: KeyCode = KeyCode { code: CODE_RIGHTSHIFT };

#[test]
fn parse_key_name_accepts_known_aliases() {
    assert_eq!(parse_key_name("KEY_RIGHTCTRL").unwrap(), RIGHTCTRL);
    assert_eq!(
        parse_key_name("right_alt").unwrap(),
        KeyCode { code: CODE_RIGHTALT }
    );
    assert_eq!(parse_key_name("left_shift").unwrap(), LEFTSHIFT);
}

#[test]
fn parse_pre_modifier_key_names_accepts_any_shift_alias() {
    assert_eq!(
        parse_pre_modifier_key_names("KEY_SHIFT").unwrap(),
        vec![LEFTSHIFT, RIGHTSHIFT]
    );
}

#[test]
fn parse_key_name_rejects_unknown_values() {
    assert!(parse_key_name("KEY_NOT_REAL").is_err());
}

#[test]
fn shared_state_tracks_pre_modifiers_globally() {
    let mut state = HotkeySharedState::default();
    state.note_pre_modifier_down(RIGHTSHIFT);
    assert!(state.pre_modifier_active());
    state.note_pre_modifier_down(LEFTSHIFT);
    state.note_pre_modifier_up(RIGHTSHIFT);
    assert!(state.pre_modifier_active());
    state.note_pre_modifier_up(LEFTSHIFT);
    assert!(!state.pre_modifier_active());
}

#[test]
fn shared_state_deduplicates_talk_presses_across_devices() {
    let mut state = HotkeySharedState::default();
    assert!(state.note_talk_down());
    assert!(!state.note_talk_down());
    assert!(!state.note_talk_up());
    assert!(state.note_talk_up());
}

#[test]
fn shared_state_reset_clears_stuck_pressed_keys() {
    let mut state = HotkeySharedState::default();
    state.note_pre_modifier_down(LEFTSHIFT);
    assert!(state.note_talk_down());

    assert_eq!(
        state.reset(),
        HotkeySharedStateReset {
            talk_down_count: 1,
            pre_modifier_down_count: 1
        }
    );
    assert!(!state.pre_modifier_active());
    assert!(state.note_talk_down());
}

#[test]
fn derive_hotkey_event_snapshots_llm_intent_on_talk_press() {
    let mut state = HotkeySharedState::default();
    let llm_pre_modifiers = vec![LEFTSHIFT, RIGHTSHIFT];
    assert_eq!(
        derive_hotkey_event(&mut state, RIGHTCTRL, &llm_pre_modifiers, LEFTSHIFT, 1),
        None
    );
    assert_eq!(
        derive_hotkey_event(&mut state, RIGHTCTRL, &llm_pre_modifiers, RIGHTCTRL, 1),
        Some(HotkeyEvent::Down {
            intent: HotkeyIntent::LlmQuery
        })
    );
}

#[test]
fn derive_hotkey_event_defaults_to_dictate_without_pre_modifier() {
    let mut state = HotkeySharedState::default();
    let llm_pre_modifiers = vec![LEFTSHIFT, RIGHTSHIFT];
    assert_eq!(
        derive_hotkey_event(&mut state, RIGHTCTRL, &llm_pre_modifiers, RIGHTCTRL, 1),
        Some(HotkeyEvent::Down {
            intent: HotkeyIntent::Dictate
        })
    );
}

#[test]
fn derive_hotkey_event_ignores_key_repeat_values() {
    let mut state = HotkeySharedState::default();
    let llm_pre_modifiers = vec![LEFTSHIFT];
    assert_eq!(
        derive_hotkey_event(&mut state, RIGHTCTRL, &llm_pre_modifiers, LEFTSHIFT, 2),
        None
    );
    assert_eq!(
        derive_hotkey_event(&mut state, RIGHTCTRL, &llm_pre_modifiers, RIGHTCTRL, 2),
        None
    );
}

#[test]
fn event_device_path_filter_is_strict() {
    assert!(is_event_device_path("/dev/input/event6"));
    assert!(!is_event_device_path("/dev/input/mouse0"));
    assert!(!is_event_device_path("/dev/input/by-id/keyboard"));
}

#[test]
fn key_codes_are_those_of_the_kernel() {
    assert_eq!(CODE_RIGHTCTRL, evdev::KeyCode::KEY_RIGHTCTRL.code());
    assert_eq!(CODE_LEFTCTRL, evdev::KeyCode::KEY_LEFTCTRL.code());
    assert_eq!(CODE_RIGHTALT, evdev::KeyCode::KEY_RIGHTALT.code());
    assert_eq!(CODE_LEFTALT, evdev::KeyCode::KEY_LEFTALT.code());
    assert_eq!(CODE_LEFTSHIFT, evdev::KeyCode::KEY_LEFTSHIFT.code());
    assert_eq!(CODE_RIGHTSHIFT, evdev::KeyCode::KEY_RIGHTSHIFT.code());
    assert_eq!(CODE_V, evdev::KeyCode::KEY_V.code());
}

#[test]
fn file_names_are_those_of_std_paths() {
    for path in [
        "/dev/input/event6",
        "event6",
        "/dev/input/",
        "/",
        "",
        "..",
        "a/..",
        "a/.",
        "a/./",
        ".",
        "a//b//",
        "./x",
    ] {
        let expected = std::path::Path::new(path)
            .file_name()
            .and_then(|name| name.to_str())
            .map(|name| name.to_string());
        assert_eq!(file_name(path), expected, "{path:?}");
    }
}

#[test]
fn only_devices_with_the_talk_key_or_a_modifier_are_capable() {
    let modifiers = vec![LEFTSHIFT];
    let v = KeyCode { code: CODE_V };
    assert!(is_hotkey_capable_device(
        &Some(vec![v, RIGHTCTRL]),
        RIGHTCTRL,
        &modifiers
    ));
    assert!(is_hotkey_capable_device(
        &Some(vec![LEFTSHIFT]),
        RIGHTCTRL,
        &modifiers
    ));
    assert!(!is_hotkey_capable_device(&Some(vec![v]), RIGHTCTRL, &modifiers));
    assert!(!is_hotkey_capable_device(&None, RIGHTCTRL, &modifiers));
}

#[test]
fn device_paths_come_in_order_without_others() {
    let device = |path: &str, keys: Option<Vec<KeyCode>>| FoundDevice {
        path: path.to_string(),
        supported: keys,
    };
    let devices = vec![
        device("/dev/input/event7", Some(vec![RIGHTCTRL])),
        device("/dev/input/event3", Some(vec![LEFTSHIFT])),
        device("/dev/input/mouse0", Some(vec![RIGHTCTRL])),
        device("/dev/input/event5", None),
    ];
    assert_eq!(
        hotkey_device_paths(&devices, RIGHTCTRL, &vec![LEFTSHIFT]),
        vec!["/dev/input/event3".to_string(), "/dev/input/event7".to_string()]
    );
}

#[test]
fn talk_reports_alternate_over_two_keyboards() {
    let mut state = HotkeySharedState::default();
    let none: Vec<KeyCode> = vec![];
    let mut seen = Vec::new();
    for value in [1, 1, 0, 0, 1, 0] {
        if let Some(event) = derive_hotkey_event(&mut state, RIGHTCTRL, &none, RIGHTCTRL, value) {
            seen.push(event);
        }
    }
    let down = HotkeyEvent::Down {
        intent: HotkeyIntent::Dictate,
    };
    assert_eq!(seen, vec![down, HotkeyEvent::Up, down, HotkeyEvent::Up]);
}

#[test]
fn releasing_the_modifier_does_not_change_what_was_asked() {
    let mut state = HotkeySharedState::default();
    let modifiers = vec![LEFTSHIFT];
    derive_hotkey_event(&mut state, RIGHTCTRL, &modifiers, LEFTSHIFT, 1);
    assert_eq!(
        derive_hotkey_event(&mut state, RIGHTCTRL, &modifiers, RIGHTCTRL, 1),
        Some(HotkeyEvent::Down {
            intent: HotkeyIntent::LlmQuery
        })
    );
    assert_eq!(
        derive_hotkey_event(&mut state, RIGHTCTRL, &modifiers, LEFTSHIFT, 0),
        None
    );
    assert_eq!(
        derive_hotkey_event(&mut state, RIGHTCTRL, &modifiers, RIGHTCTRL, 0),
        Some(HotkeyEvent::Up)
    );
    assert!(!state.pre_modifier_active());
    assert_eq!(state.reset().talk_down_count, 0);
}

#[test]
fn scans_start_what_is_missing_and_lost_devices_come_back() {
    let mut supervisor = HotkeySupervisor::new();
    let a = "/dev/input/event1".to_string();
    let b = "/dev/input/event2".to_string();
    assert_eq!(supervisor.scanned(&vec![a.clone()]), vec![a.clone()]);
    assert_eq!(
        supervisor.scanned(&vec![a.clone(), b.clone()]),
        vec![b.clone()]
    );
    assert!(supervisor.scanned(&vec![a.clone(), b.clone()]).is_empty());

    assert_eq!(
        supervisor.key_event(RIGHTCTRL, &vec![], RIGHTCTRL, 1),
        Some(HotkeyEvent::Down {
            intent: HotkeyIntent::Dictate
        })
    );
    let step = supervisor.listener_exited(&a, &ListenerExitReason::FetchError("gone".to_string()));
    assert!(!step.stop);
    assert!(step.reset.had_pressed_keys());
    assert_eq!(supervisor.scanned(&vec![a.clone(), b.clone()]), vec![a]);
    assert_eq!(supervisor.diagnostics.scan_runs_total, 4);
    assert_eq!(supervisor.diagnostics.listener_start_total, 3);
    assert_eq!(supervisor.diagnostics.listener_fetch_error_total, 1);

    let step = supervisor.listener_exited(&b, &ListenerExitReason::ChannelClosed);
    assert!(step.stop);
}

#[test]
fn exits_are_counted_by_their_reasons() {
    let mut supervisor = HotkeySupervisor::new();
    supervisor.listener_exited("a", &ListenerExitReason::OpenError("x".to_string()));
    supervisor.listener_exited("a", &ListenerExitReason::TaskJoinError("x".to_string()));
    assert_eq!(supervisor.diagnostics.listener_exit_total, 2);
    assert_eq!(supervisor.diagnostics.listener_open_error_total, 1);
    assert_eq!(supervisor.diagnostics.listener_task_join_error_total, 1);
    assert_eq!(supervisor.diagnostics.listener_fetch_error_total, 0);
    supervisor.diagnostics.note_send_failure();
    assert_eq!(supervisor.diagnostics.channel_send_fail_total, 1);
}

#[test]
fn input_access_names_what_failed() {
    let hint =
        "Add your user to the 'input' group with `sudo usermod -aG input $USER` and re-login.";
    let mut access = InputAccess::new();
    assert_eq!(
        access.failure(),
        format!("No /dev/input/event* devices found. {hint}")
    );
    assert!(!access.tried(
        "/dev/input/event0".to_string(),
        Some("Permission denied (os error 13)".to_string())
    ));
    assert_eq!(
        access.failure(),
        format!(
            "No readable /dev/input/event* devices (last tried /dev/input/event0: Permission \
             denied (os error 13)). {hint}"
        )
    );
    assert!(access.tried("/dev/input/event1".to_string(), None));
}
