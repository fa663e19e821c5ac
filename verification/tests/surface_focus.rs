use parakeet_ptt::surface_focus::{resolve_focus_metadata, FocusSnapshot, WaylandFocusObservation};

fn snapshot() -> FocusSnapshot {
    FocusSnapshot {
        app_name: Some("Ghostty".to_string()),
        object_name: Some("terminal".to_string()),
        object_path: None,
        service_name: None,
        output_name: Some("DP-1".to_string()),
        focused: true,
        active: true,
        resolver: "wayland".to_string(),
    }
}

#[test]
fn a_fresh_focus_is_taken_as_it_is() {
    let outcome = resolve_focus_metadata(Some(WaylandFocusObservation::Fresh {
        snapshot: snapshot(),
        cache_age_ms: 12,
    }));
    assert_eq!(outcome.snapshot, Some(snapshot()));
    assert_eq!(outcome.source_selected, "wayland_cache");
    assert_eq!(outcome.wayland_cache_age_ms, Some(12));
    assert_eq!(outcome.wayland_fallback_reason, None);
}

#[test]
fn a_doubtful_focus_says_why() {
    let outcome = resolve_focus_metadata(Some(WaylandFocusObservation::LowConfidence {
        snapshot: snapshot(),
        cache_age_ms: 31_000,
        reason: "stale",
    }));
    assert_eq!(outcome.snapshot, Some(snapshot()));
    assert_eq!(outcome.source_selected, "wayland_cache_low_confidence");
    assert_eq!(outcome.wayland_fallback_reason, Some("stale"));
}

#[test]
fn without_a_focus_there_is_a_reason() {
    let none = resolve_focus_metadata(None);
    assert_eq!(none.snapshot, None);
    assert_eq!(none.source_selected, "wayland_unavailable");
    assert_eq!(
        none.wayland_fallback_reason,
        Some("wayland_cache_not_initialized")
    );
    let gone = resolve_focus_metadata(Some(WaylandFocusObservation::Unavailable {
        reason: "disconnected",
        cache_age_ms: Some(3),
    }));
    assert_eq!(gone.snapshot, None);
    assert_eq!(gone.wayland_cache_age_ms, Some(3));
    assert_eq!(gone.wayland_fallback_reason, Some("disconnected"));
}
