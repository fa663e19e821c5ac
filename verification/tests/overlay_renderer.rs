use parakeet_ptt::galley::{
    buffer_size, DEFAULT_SHEET_WIDTH, MAX_SHEET_WIDTH, MIN_SHEET_WIDTH, SHADOW_PAD_BOTTOM,
    SHADOW_PAD_SIDE, SHADOW_PAD_TOP, SLIDE_ROOM,
};
use parakeet_ptt::overlay_ipc::{OverlayIpcMessage, OverlayTextProducer};
use parakeet_ptt::overlay_renderer::{
    after_init, begin_backend, is_probably_cosmic_session, layer_anchor, layer_margins,
    layer_margins_for_sheet, output_name_match_index, resolve_adaptive_width_with_env_input, resolve_backend_selection,
    sheet_margins_fit, shm_layout, truncate_for_title, AnchorEdges, BackendKind, BackendSelection, BackendSignals, BackendStep,
    BufferPlan, CliAnchor, CliBackendMode, OverlayUiConfig, RenderStep, RendererCore, SheetBox,
    ShellKind, SurfaceDimensions, SurfaceState,
};
use parakeet_ptt::overlay_state::{ApplyOutcome, OverlayVisibility};
use parakeet_ptt::protocol::{FloatBits, SessionId};

#[test]
fn auto_prefers_layer_shell_when_available() {
    assert_eq!(
        resolve_backend_selection(
            CliBackendMode::Auto,
            Ok(BackendSignals {
                has_layer_shell: true,
                has_wl_compositor: true,
                has_xdg_wm_base: true,
                has_wl_shm: true,
            })
        ),
        BackendSelection::LayerShell
    );
}

#[test]
fn auto_uses_fallback_when_layer_shell_missing() {
    assert_eq!(
        resolve_backend_selection(
            CliBackendMode::Auto,
            Ok(BackendSignals {
                has_layer_shell: false,
                has_wl_compositor: true,
                has_xdg_wm_base: true,
                has_wl_shm: true,
            })
        ),
        BackendSelection::FallbackWindow
    );
}

#[test]
fn explicit_layer_shell_disables_when_unsupported() {
    assert_eq!(
        resolve_backend_selection(
            CliBackendMode::LayerShell,
            Ok(BackendSignals {
                has_layer_shell: false,
                has_wl_compositor: true,
                has_xdg_wm_base: true,
                has_wl_shm: true,
            })
        ),
        BackendSelection::Noop {
            reason: "unsupported_wayland_backend:layer_shell".to_string(),
        }
    );
}

#[test]
fn probe_failure_degrades_to_noop() {
    assert_eq!(
        resolve_backend_selection(CliBackendMode::Auto, Err("no_display".to_string())),
        BackendSelection::Noop {
            reason: "wayland_probe_failed:no_display".to_string(),
        }
    );
}

#[test]
fn resolve_adaptive_width_override_defaults_to_enabled() {
    assert!(resolve_adaptive_width_with_env_input(None, None));
}

#[test]
fn resolve_adaptive_width_override_honors_env_and_cli_precedence() {
    assert!(!resolve_adaptive_width_with_env_input(None, Some("false")));
    assert!(resolve_adaptive_width_with_env_input(None, Some("true")));
    assert!(resolve_adaptive_width_with_env_input(
        Some(true),
        Some("false")
    ));
    assert!(!resolve_adaptive_width_with_env_input(
        Some(false),
        Some("true")
    ));
}

#[test]
fn output_matching_finds_correct_output() {
    let outputs = [Some("DP-1"), Some("HDMI-A-1")];
    assert_eq!(output_name_match_index(&outputs, "HDMI-A-1"), Some(1));
}

#[test]
fn output_matching_falls_back_to_none() {
    let outputs = [Some("DP-1"), None];
    assert_eq!(output_name_match_index(&outputs, "UNKNOWN"), None);
}

fn ui() -> OverlayUiConfig {
    OverlayUiConfig {
        opacity: FloatBits {
            bits: 1.0f32.to_bits(),
        },
        anchor: CliAnchor::BottomCenter,
        margin_x: 24,
        margin_y: 32,
        max_width: DEFAULT_SHEET_WIDTH,
        max_lines: 4,
        adaptive_width_enabled: true,
    }
}

#[test]
fn surface_dimensions_come_from_the_galley_layout() {
    let dims = ui().surface_dimensions();
    let (width, height) = buffer_size(DEFAULT_SHEET_WIDTH, 4);
    assert_eq!((dims.width, dims.height), (width, height));

    let wide = OverlayUiConfig {
        max_width: 5000,
        ..ui()
    };
    assert_eq!(wide.content_width(), MAX_SHEET_WIDTH);
    let narrow = OverlayUiConfig {
        max_width: 10,
        ..ui()
    };
    assert_eq!(narrow.content_width(), MIN_SHEET_WIDTH);
}

#[test]
fn layer_margins_take_the_shadow_pads_off() {
    let (top, right, bottom, left) = layer_margins_for_sheet(CliAnchor::BottomCenter, 24, 32);
    assert_eq!((top, right, left), (0, 0, 0));
    assert_eq!(bottom, 32 - SHADOW_PAD_BOTTOM as i32);

    let (top, right, bottom, left) = layer_margins_for_sheet(CliAnchor::TopRight, 30, 40);
    assert_eq!(top, 40 - (SHADOW_PAD_TOP + SLIDE_ROOM) as i32);
    assert_eq!(right, 30 - SHADOW_PAD_SIDE as i32);
    assert_eq!((bottom, left), (0, 0));

    assert!(sheet_margins_fit(CliAnchor::TopRight, 30, 40));
    assert!(sheet_margins_fit(CliAnchor::TopRight, u32::MAX, u32::MAX));
    assert!(!sheet_margins_fit(CliAnchor::TopRight, 0x8000_0000, 40));
    assert!(!sheet_margins_fit(CliAnchor::TopRight, 30, 0x8000_0000));
}

#[test]
fn margins_go_to_the_anchored_sides() {
    assert_eq!(layer_margins(CliAnchor::TopLeft, 1, 2), (2, 0, 0, 1));
    assert_eq!(layer_margins(CliAnchor::BottomRight, 1, 2), (0, 1, 2, 0));
    assert_eq!(layer_margins(CliAnchor::TopCenter, 1, 2), (2, 0, 0, 0));
    assert_eq!(
        layer_anchor(CliAnchor::BottomRight),
        AnchorEdges {
            top: false,
            right: true,
            bottom: true,
            left: false
        }
    );
    assert!(CliAnchor::TopCenter.is_top());
    assert!(!CliAnchor::BottomLeft.is_top());
}

#[test]
fn a_layer_surface_that_fails_gives_way_to_a_window() {
    match begin_backend(BackendSelection::LayerShell) {
        BackendStep::Try { kind, layer_error } => {
            assert_eq!(kind, BackendKind::LayerShell);
            assert_eq!(layer_error, None);
        }
        other => panic!("expected a try, got {other:?}"),
    }
    match after_init(
        CliBackendMode::Auto,
        BackendKind::LayerShell,
        None,
        Some("no".to_string()),
    ) {
        BackendStep::Try { kind, layer_error } => {
            assert_eq!(kind, BackendKind::FallbackWindow);
            assert_eq!(layer_error, Some("no".to_string()));
        }
        other => panic!("expected another try, got {other:?}"),
    }
    match after_init(
        CliBackendMode::LayerShell,
        BackendKind::LayerShell,
        None,
        Some("no".to_string()),
    ) {
        BackendStep::Noop { reason, idle } => {
            assert_eq!(reason, "layer_shell_init_failed:no");
            assert_eq!(idle, "runtime_backend_init_failed");
        }
        other => panic!("expected no backend, got {other:?}"),
    }
    match begin_backend(BackendSelection::Noop {
        reason: "wayland_probe_failed:no".to_string(),
    }) {
        BackendStep::Noop { reason, idle } => {
            assert_eq!(reason, "wayland_probe_failed:no");
            assert_eq!(idle, "wayland_probe_failed:no");
        }
        other => panic!("expected no backend, got {other:?}"),
    }
    assert!(matches!(
        after_init(CliBackendMode::Auto, BackendKind::FallbackWindow, None, None),
        BackendStep::Use {
            kind: BackendKind::FallbackWindow,
            ..
        }
    ));
}

#[test]
fn what_the_compositor_offers_is_noted() {
    let mut signals = BackendSignals::default();
    for interface in ["wl_compositor", "wl_shm", "zwlr_layer_shell_v1", "wl_seat"] {
        signals.note_global(interface);
    }
    assert!(signals.supports_layer_shell());
    assert!(!signals.supports_fallback_window());
}

#[test]
fn shared_memory_has_two_slots() {
    let layout = shm_layout(SurfaceDimensions {
        width: 100,
        height: 50,
    })
    .expect("a small surface");
    assert_eq!(layout.stride, 400);
    assert_eq!(layout.slot_bytes, 20_000);
    assert_eq!(layout.pool_bytes, 40_000);
    for (width, height, why) in [
        (0x4000_0000, 1, "overlay stride overflow"),
        (0x2000_0000, 4, "overlay buffer size overflow"),
        (0x2000_0000, 1, "overlay pool size overflow"),
        (0x1000_0000, 1, "overlay buffer too large"),
        (0, 0x8000_0000, "overlay height too large"),
    ] {
        assert_eq!(shm_layout(SurfaceDimensions { width, height }), Err(why));
    }
}

#[test]
fn slots_are_taken_in_turn_and_given_back() {
    let sheet = Some(SheetBox {
        x: 1,
        y: 2,
        w: 3,
        h: 4,
    });
    let mut state = SurfaceState::new();
    assert_eq!(state.free_slot(), Some(0));
    let first = state.present(ShellKind::Layer, 900, sheet, 3, None);
    assert_eq!(first.buffer, BufferPlan::Slot(0));
    let second = state.present(ShellKind::Layer, 900, sheet, 3, None);
    assert_eq!(second.buffer, BufferPlan::Slot(1));
    let third = state.present(ShellKind::Layer, 900, sheet, 3, None);
    assert_eq!(third.buffer, BufferPlan::Wait);
    state.release(1);
    assert_eq!(state.free_slot(), Some(1));
    let gone = state.present(ShellKind::Layer, 900, None, 3, None);
    assert_eq!(gone.buffer, BufferPlan::Slot(1));
    let window = state.present(ShellKind::Fallback, 900, None, 3, None);
    assert_eq!(window.buffer, BufferPlan::Detach);
}

#[test]
fn titles_are_cut_to_one_line() {
    assert_eq!(truncate_for_title("short"), "short");
    let long = "word ".repeat(60);
    assert!(truncate_for_title(&long).chars().count() < long.chars().count());
}

#[test]
fn a_cosmic_session_is_known_by_its_names() {
    assert!(is_probably_cosmic_session(&vec!["COSMIC".to_string()]));
    assert!(!is_probably_cosmic_session(&vec!["GNOME".to_string()]));
    assert!(!is_probably_cosmic_session(&vec![]));
}

#[test]
fn messages_are_drawn_or_dropped() {
    let mut core = RendererCore::new(1_000);
    let session_id = SessionId { bits: 1 };
    let text = |seq: u64| OverlayIpcMessage::InterimText {
        session_id,
        producer: OverlayTextProducer::DaemonSttInterim,
        seq,
        text: "hello".to_string(),
    };
    assert_eq!(core.message(text(2), None, 0), RenderStep::Render);
    assert_eq!(
        core.message(text(1), None, 10),
        RenderStep::Dropped(ApplyOutcome::DroppedStaleSeq)
    );
    let level_db = FloatBits {
        bits: (-30.0f32).to_bits(),
    };
    assert_eq!(
        core.message(
            OverlayIpcMessage::AudioLevel {
                session_id,
                level_db
            },
            None,
            20
        ),
        RenderStep::Level(level_db)
    );
    assert!(!core.tick(30, false));
    assert!(core.tick(30, true));
    core.message(
        OverlayIpcMessage::SessionEnded {
            session_id,
            reason: Some("final".to_string()),
        },
        None,
        100,
    );
    assert!(core.tick(1_100, false));
    assert!(matches!(core.visibility(), OverlayVisibility::Hidden));
    // What was hidden is not due again, and its numbers are forgotten.
    assert!(!core.tick(5_000, false));
    assert_eq!(
        core.message(
            OverlayIpcMessage::InterimState {
                session_id,
                producer: OverlayTextProducer::DaemonSttInterim,
                seq: 1,
                state: "listening".to_string(),
            },
            None,
            5_000
        ),
        RenderStep::Render
    );
}
