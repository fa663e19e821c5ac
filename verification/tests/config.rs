use parakeet_ptt::config::{
    classify_overlay_capability, parse_overlay_enabled_override, parse_overlay_mode_override,
    resolve_overlay_adaptive_width_with_env, resolve_overlay_capability_with_inputs,
    resolve_overlay_enable_gate, ClientConfig, ClipboardOptions, ConfigError, InjectionConfig,
    InjectionMode, OverlayEnableGate, OverlayMode, OverlayProbeSignals, PasteBackendFailurePolicy,
    PasteKeyBackend, DEFAULT_ENDPOINT,
};

#[test]
fn classify_overlay_prefers_layer_shell_when_available() {
    let capability = classify_overlay_capability(OverlayProbeSignals {
        has_layer_shell: true,
        has_wl_compositor: true,
        has_xdg_wm_base: true,
    });

    assert_eq!(capability.mode, OverlayMode::LayerShell);
    assert_eq!(capability.reason, "zwlr_layer_shell_v1_available");
}

#[test]
fn classify_overlay_uses_fallback_when_layer_shell_missing() {
    let capability = classify_overlay_capability(OverlayProbeSignals {
        has_layer_shell: false,
        has_wl_compositor: true,
        has_xdg_wm_base: true,
    });

    assert_eq!(capability.mode, OverlayMode::FallbackWindow);
    assert_eq!(
        capability.reason,
        "zwlr_layer_shell_v1_unavailable_using_xdg_toplevel_fallback"
    );
}

#[test]
fn classify_overlay_disables_when_required_protocols_missing() {
    let capability = classify_overlay_capability(OverlayProbeSignals {
        has_layer_shell: false,
        has_wl_compositor: true,
        has_xdg_wm_base: false,
    });

    assert_eq!(capability.mode, OverlayMode::Disabled);
    assert_eq!(capability.reason, "missing_window_protocols:xdg_wm_base");
}

#[test]
fn parse_overlay_mode_override_forces_fallback_window() {
    let capability = parse_overlay_mode_override("fallback-window")
        .expect("fallback-window override should parse");

    assert_eq!(capability.mode, OverlayMode::FallbackWindow);
    assert_eq!(capability.reason, "overlay_mode_override:fallback_window");
}

#[test]
fn parse_overlay_mode_override_rejects_invalid_values() {
    assert!(parse_overlay_mode_override("bad-value").is_none());
}

#[test]
fn parse_overlay_enabled_override_accepts_common_boolean_values() {
    assert_eq!(parse_overlay_enabled_override("true"), Some(true));
    assert_eq!(parse_overlay_enabled_override("1"), Some(true));
    assert_eq!(parse_overlay_enabled_override("off"), Some(false));
    assert_eq!(parse_overlay_enabled_override("0"), Some(false));
}

#[test]
fn resolve_overlay_enable_gate_defaults_to_disabled() {
    assert_eq!(
        resolve_overlay_enable_gate(None, None),
        OverlayEnableGate::Disabled {
            reason: "overlay_disabled_by_default".to_string()
        }
    );
}

#[test]
fn resolve_overlay_enable_gate_cli_value_takes_precedence_over_env() {
    assert_eq!(
        resolve_overlay_enable_gate(Some(true), Some("false")),
        OverlayEnableGate::Enabled
    );
    assert_eq!(
        resolve_overlay_enable_gate(Some(false), Some("true")),
        OverlayEnableGate::Disabled {
            reason: "overlay_enabled_override:cli:false".to_string()
        }
    );
}

#[test]
fn resolve_overlay_enable_gate_rejects_invalid_env_value() {
    assert_eq!(
        resolve_overlay_enable_gate(None, Some("sometimes")),
        OverlayEnableGate::Disabled {
            reason: "overlay_enabled_invalid:sometimes".to_string()
        }
    );
}

#[test]
fn resolve_overlay_capability_skips_probe_when_overlay_is_not_enabled() {
    let capability = resolve_overlay_capability_with_inputs(
        None,
        None,
        Some("layer-shell"),
        Ok(OverlayProbeSignals {
            has_layer_shell: true,
            has_wl_compositor: true,
            has_xdg_wm_base: true,
        }),
    );

    assert_eq!(capability.mode, OverlayMode::Disabled);
    assert_eq!(capability.reason, "overlay_disabled_by_default");
}

#[test]
fn resolve_overlay_capability_honors_cli_enabled_over_env_disabled() {
    let capability = resolve_overlay_capability_with_inputs(
        Some(true),
        Some("false"),
        Some("fallback-window"),
        Err("probe should not run when mode override is set".to_string()),
    );

    assert_eq!(capability.mode, OverlayMode::FallbackWindow);
    assert_eq!(capability.reason, "overlay_mode_override:fallback_window");
}

#[test]
fn resolve_overlay_capability_treats_empty_mode_env_as_auto() {
    let capability = resolve_overlay_capability_with_inputs(
        Some(true),
        None,
        Some(" "),
        Ok(OverlayProbeSignals {
            has_layer_shell: false,
            has_wl_compositor: true,
            has_xdg_wm_base: true,
        }),
    );

    assert_eq!(capability.mode, OverlayMode::FallbackWindow);
    assert_eq!(
        capability.reason,
        "zwlr_layer_shell_v1_unavailable_using_xdg_toplevel_fallback"
    );
}

#[test]
fn resolve_overlay_adaptive_width_defaults_to_disabled() {
    assert!(!resolve_overlay_adaptive_width_with_env(None, None));
}

#[test]
fn resolve_overlay_adaptive_width_honors_env_when_cli_absent() {
    assert!(!resolve_overlay_adaptive_width_with_env(
        None,
        Some("false")
    ));
    assert!(resolve_overlay_adaptive_width_with_env(None, Some("true")));
}

#[test]
fn resolve_overlay_adaptive_width_cli_takes_precedence_over_env() {
    assert!(!resolve_overlay_adaptive_width_with_env(
        Some(false),
        Some("true")
    ));
    assert!(resolve_overlay_adaptive_width_with_env(
        Some(true),
        Some("false")
    ));
}

#[test]
fn resolve_overlay_adaptive_width_invalid_env_falls_back_to_disabled() {
    assert!(!resolve_overlay_adaptive_width_with_env(
        None,
        Some("maybe")
    ));
}

fn client(endpoint: &str, secret: Option<&str>) -> Result<ClientConfig, ConfigError> {
    ClientConfig::new(
        endpoint,
        secret.map(|s| s.to_string()),
        "KEY_RIGHTCTRL".to_string(),
        InjectionConfig {
            ydotool_path: None,
            uinput_dwell_ms: 18,
            injection_mode: InjectionMode::Paste,
            clipboard: ClipboardOptions {
                key_backend: PasteKeyBackend::Uinput,
                backend_failure_policy: PasteBackendFailurePolicy::CopyOnly,
                post_chord_hold_ms: 700,
                seat: None,
                write_primary: false,
            },
        },
        1_000,
    )
}

#[test]
fn the_status_is_found_beside_the_socket() {
    for (endpoint, status) in [
        (DEFAULT_ENDPOINT, Some("http://127.0.0.1:8765/status")),
        ("wss://host/deep/ws", Some("https://host/status")),
        ("http://host:81/ws", Some("http://host:81/status")),
        ("https://host/ws", Some("https://host/status")),
        ("test://daemon/ws", None),
    ] {
        let config = client(endpoint, None).expect("a valid endpoint");
        assert_eq!(config.status_url().as_deref(), status, "{endpoint}");
    }
}

#[test]
fn endpoints_that_are_no_urls_are_refused() {
    match client("not a url", None) {
        Err(ConfigError::InvalidEndpoint { endpoint, cause }) => {
            assert_eq!(endpoint, "not a url");
            assert_eq!(cause, "relative URL without a base");
        }
        other => panic!("expected an invalid endpoint, got {other:?}"),
    }
}

#[test]
fn secrets_go_into_a_header() {
    let plan = client(DEFAULT_ENDPOINT, Some("hush"))
        .expect("a valid endpoint")
        .build_request()
        .expect("a valid secret");
    assert_eq!(plan.secret.as_deref(), Some("hush"));
    assert_eq!(plan.url, "ws://127.0.0.1:8765/ws");
    let open = client(DEFAULT_ENDPOINT, None)
        .expect("a valid endpoint")
        .build_request()
        .expect("no secret");
    assert_eq!(open.secret, None);
    for bad in ["line\nbreak", "bell\u{7f}", "nul\0"] {
        assert_eq!(
            client(DEFAULT_ENDPOINT, Some(bad))
                .expect("a valid endpoint")
                .build_request(),
            Err(ConfigError::SharedSecretHeader)
        );
    }
    for good in ["", "tab\there", "é"] {
        assert!(client(DEFAULT_ENDPOINT, Some(good))
            .expect("a valid endpoint")
            .build_request()
            .is_ok());
    }
}
