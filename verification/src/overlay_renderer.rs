//! The overlay process: which surface it uses, where the sheet lies on it, and when it is drawn.
use vstd::prelude::*;

use crate::env_parse::{bool_override, parse_bool_override};
use crate::galley::{
    buffer_of, buffer_size, MAX_SHEET_WIDTH, MIN_SHEET_WIDTH, SHADOW_PAD_BOTTOM, SHADOW_PAD_SIDE,
    SHADOW_PAD_TOP, SLIDE_ROOM,
};
use crate::overlay_ipc::OverlayIpcMessage;
use crate::overlay_state::{
    applied, ApplyOutcome, MachineModel, OverlayStateMachine, OverlayVisibility,
};
use crate::protocol::FloatBits;
use crate::text::{
    at_most, cat2, cat3, contains, first_chars, holds_text, lowered, opt_chars, same, texts,
    to_lower, trim, trimmed,
};

verus! {

/// The argument that turns the client into the overlay process.
pub const INTERNAL_OVERLAY_MODE_ARG: &'static str = "__overlay-renderer";

/// The title of the fallback window.
pub const FALLBACK_WINDOW_TITLE: &'static str = "Parakeet Overlay";

/// How often the sheet is drawn while anything on it moves, in milliseconds.
pub const TICK_MS: u64 = 33;

/// How many buffers the process draws into in turn.
pub const SHM_SLOTS: usize = 2;

/// Which surface is asked for.
#[derive(Debug, Clone, Copy, PartialEq, Eq, Structural)]
pub enum CliBackendMode {
    Auto,
    LayerShell,
    FallbackWindow,
}

/// Where the sheet is anchored.
#[derive(Debug, Clone, Copy, PartialEq, Eq, Structural)]
pub enum CliAnchor {
    TopLeft,
    TopCenter,
    TopRight,
    BottomLeft,
    BottomCenter,
    BottomRight,
}

/// Whether an anchor is at the top.
pub open spec fn at_top(anchor: CliAnchor) -> bool {
    anchor == CliAnchor::TopLeft || anchor == CliAnchor::TopCenter || anchor == CliAnchor::TopRight
}

impl CliAnchor {
    /// Whether the anchor is at the top.
    pub fn is_top(self) -> (r: bool)
        ensures
            r == at_top(self),
    {
        match self {
            CliAnchor::TopLeft => true,
            CliAnchor::TopCenter => true,
            CliAnchor::TopRight => true,
            _ => false,
        }
    }
}

/// Whether the sheet's width follows its text: the command line decides, then the environment;
/// it does unless one of them says no.
pub open spec fn adaptive(cli: Option<bool>, env: Option<Seq<char>>) -> bool {
    match cli {
        Some(b) => b,
        None => match env {
            Some(raw) => match bool_override(raw) {
                Some(b) => b,
                None => true,
            },
            None => true,
        },
    }
}

/// Whether the sheet's width follows its text.
pub fn resolve_adaptive_width_with_env_input(
    cli_override: Option<bool>,
    env_override: Option<&str>,
) -> (r: bool)
    ensures
        r == adaptive(cli_override, opt_chars(env_override)),
{
    if let Some(adaptive_width) = cli_override {
        return adaptive_width;
    }
    match env_override {
        Some(raw) => match parse_bool_override(raw) {
            Some(b) => b,
            None => true,
        },
        None => true,
    }
}

/// The surface in use.
#[derive(Debug, Clone, Copy, PartialEq, Eq, Structural)]
pub enum BackendKind {
    LayerShell,
    FallbackWindow,
    Noop,
}

/// How the sheet is to look and where it is to lie.
#[derive(Debug, Clone, Copy, PartialEq, Eq, Structural)]
pub struct OverlayUiConfig {
    pub opacity: FloatBits,
    pub anchor: CliAnchor,
    pub margin_x: u32,
    pub margin_y: u32,
    pub max_width: u32,
    pub max_lines: u32,
    pub adaptive_width_enabled: bool,
}

/// The size of a surface.
#[derive(Debug, Clone, Copy, PartialEq, Eq, Structural)]
pub struct SurfaceDimensions {
    pub width: u32,
    pub height: u32,
}

/// A number between two others.
pub open spec fn clamped(n: u32, low: u32, high: u32) -> u32 {
    if n < low {
        low
    } else if n > high {
        high
    } else {
        n
    }
}

impl OverlayUiConfig {
    /// The width of the sheet, as far as it can be laid out.
    pub fn content_width(&self) -> (r: u32)
        ensures
            r == clamped(self.max_width, MIN_SHEET_WIDTH, MAX_SHEET_WIDTH),
            MIN_SHEET_WIDTH <= r <= MAX_SHEET_WIDTH,
    {
        if self.max_width < MIN_SHEET_WIDTH {
            MIN_SHEET_WIDTH
        } else if self.max_width > MAX_SHEET_WIDTH {
            MAX_SHEET_WIDTH
        } else {
            self.max_width
        }
    }

    /// How many lines of prose there are at most.
    pub fn max_lines(&self) -> (r: u32)
        ensures
            r == clamped(self.max_lines, 1, 10),
            1 <= r <= 10,
    {
        if self.max_lines < 1 {
            1
        } else if self.max_lines > 10 {
            10
        } else {
            self.max_lines
        }
    }

    /// The size of the surface: that of the sheet's buffer.
    pub fn surface_dimensions(&self) -> (r: SurfaceDimensions)
        ensures
            (r.width as int, r.height as int) == buffer_of(
                clamped(self.max_width, MIN_SHEET_WIDTH, MAX_SHEET_WIDTH),
                clamped(self.max_lines, 1, 10),
            ),
    {
        let (width, height) = buffer_size(self.content_width(), self.max_lines());
        SurfaceDimensions { width, height }
    }
}

// ---- which surface

/// What the compositor offers.
#[derive(Debug, Clone, Copy, PartialEq, Eq, Structural)]
pub struct BackendSignals {
    pub has_layer_shell: bool,
    pub has_wl_compositor: bool,
    pub has_xdg_wm_base: bool,
    pub has_wl_shm: bool,
}

impl Default for BackendSignals {
    /// Nothing is known to be offered.
    fn default() -> (r: BackendSignals)
        ensures
            r == (BackendSignals {
                has_layer_shell: false,
                has_wl_compositor: false,
                has_xdg_wm_base: false,
                has_wl_shm: false,
            }),
    {
        BackendSignals {
            has_layer_shell: false,
            has_wl_compositor: false,
            has_xdg_wm_base: false,
            has_wl_shm: false,
        }
    }
}

/// Whether a layer surface can be had.
pub open spec fn offers_layer(s: BackendSignals) -> bool {
    s.has_layer_shell && s.has_wl_compositor && s.has_wl_shm
}

/// Whether a window can be had.
pub open spec fn offers_window(s: BackendSignals) -> bool {
    s.has_wl_compositor && s.has_xdg_wm_base && s.has_wl_shm
}

impl BackendSignals {
    /// Whether a layer surface can be had.
    pub fn supports_layer_shell(self) -> (r: bool)
        ensures
            r == offers_layer(self),
    {
        self.has_layer_shell && self.has_wl_compositor && self.has_wl_shm
    }

    /// Whether a window can be had.
    pub fn supports_fallback_window(self) -> (r: bool)
        ensures
            r == offers_window(self),
    {
        self.has_wl_compositor && self.has_xdg_wm_base && self.has_wl_shm
    }

    /// The compositor offers an interface of this name.
    pub fn note_global(&mut self, interface: &str)
        ensures
            *final(self) == (BackendSignals {
                has_layer_shell: old(self).has_layer_shell || interface@ == "zwlr_layer_shell_v1"@,
                has_wl_compositor: old(self).has_wl_compositor || interface@ == "wl_compositor"@,
                has_xdg_wm_base: old(self).has_xdg_wm_base || interface@ == "xdg_wm_base"@,
                has_wl_shm: old(self).has_wl_shm || interface@ == "wl_shm"@,
            }),
    {
        if same(interface, "zwlr_layer_shell_v1") {
            self.has_layer_shell = true;
        }
        if same(interface, "wl_compositor") {
            self.has_wl_compositor = true;
        }
        if same(interface, "xdg_wm_base") {
            self.has_xdg_wm_base = true;
        }
        if same(interface, "wl_shm") {
            self.has_wl_shm = true;
        }
    }
}

/// The surface to try first.
#[derive(Debug, PartialEq, Eq)]
pub enum BackendSelection {
    LayerShell,
    FallbackWindow,
    Noop { reason: String },
}

/// The surface to try first, mathematically.
pub enum SelectionView {
    LayerShell,
    FallbackWindow,
    Noop(Seq<char>),
}

impl BackendSelection {
    /// The surface to try first.
    pub open spec fn shown(self) -> SelectionView {
        match self {
            BackendSelection::LayerShell => SelectionView::LayerShell,
            BackendSelection::FallbackWindow => SelectionView::FallbackWindow,
            BackendSelection::Noop { reason } => SelectionView::Noop(reason@),
        }
    }
}

/// The surface to try first, given what is asked for and what is offered.
pub open spec fn selected(mode: CliBackendMode, s: BackendSignals) -> SelectionView {
    match mode {
        CliBackendMode::Auto => if offers_layer(s) {
            SelectionView::LayerShell
        } else if offers_window(s) {
            SelectionView::FallbackWindow
        } else {
            SelectionView::Noop("unsupported_wayland_backend:auto"@)
        },
        CliBackendMode::LayerShell => if offers_layer(s) {
            SelectionView::LayerShell
        } else {
            SelectionView::Noop("unsupported_wayland_backend:layer_shell"@)
        },
        CliBackendMode::FallbackWindow => if offers_window(s) {
            SelectionView::FallbackWindow
        } else {
            SelectionView::Noop("unsupported_wayland_backend:fallback_window"@)
        },
    }
}

/// The surface to try first.
pub fn resolve_backend_selection(mode: CliBackendMode, probe: Result<BackendSignals, String>) -> (r:
    BackendSelection)
    ensures
        r.shown() == match probe {
            Ok(signals) => selected(mode, signals),
            Err(err) => SelectionView::Noop("wayland_probe_failed:"@ + err@),
        },
{
    let signals = match probe {
        Ok(signals) => signals,
        Err(err) => {
            let reason = cat2("wayland_probe_failed:", err.as_str());
            return BackendSelection::Noop { reason };
        },
    };
    match mode {
        CliBackendMode::Auto => {
            if signals.supports_layer_shell() {
                BackendSelection::LayerShell
            } else if signals.supports_fallback_window() {
                BackendSelection::FallbackWindow
            } else {
                BackendSelection::Noop { reason: "unsupported_wayland_backend:auto".to_owned() }
            }
        },
        CliBackendMode::LayerShell => {
            if signals.supports_layer_shell() {
                BackendSelection::LayerShell
            } else {
                BackendSelection::Noop {
                    reason: "unsupported_wayland_backend:layer_shell".to_owned(),
                }
            }
        },
        CliBackendMode::FallbackWindow => {
            if signals.supports_fallback_window() {
                BackendSelection::FallbackWindow
            } else {
                BackendSelection::Noop {
                    reason: "unsupported_wayland_backend:fallback_window".to_owned(),
                }
            }
        },
    }
}

/// What is done to bring a surface up.
#[derive(Debug)]
pub enum BackendStep {
    /// A surface is tried. `layer_error` is why the layer surface before it failed, if one did.
    Try { kind: BackendKind, layer_error: Option<String> },
    /// A surface is used, for this reason.
    Use { kind: BackendKind, reason: String },
    /// None is used, for this reason; `idle` is what the idle backend says of itself.
    Noop { reason: String, idle: String },
}

/// What an idle backend says of itself where a surface could not be made.
pub const INIT_FAILED: &'static str = "runtime_backend_init_failed";

/// The first step: the selected surface is tried.
pub fn begin_backend(selection: BackendSelection) -> (r: BackendStep)
    ensures
        match selection {
            BackendSelection::LayerShell => r matches BackendStep::Try { kind, layer_error } && kind
                == BackendKind::LayerShell && layer_error is None,
            BackendSelection::FallbackWindow => r matches BackendStep::Try { kind, layer_error }
                && kind == BackendKind::FallbackWindow && layer_error is None,
            BackendSelection::Noop { reason: why } => r matches BackendStep::Noop { reason, idle }
                && reason@ == why@ && idle@ == why@,
        },
{
    match selection {
        BackendSelection::LayerShell => BackendStep::Try {
            kind: BackendKind::LayerShell,
            layer_error: None,
        },
        BackendSelection::FallbackWindow => BackendStep::Try {
            kind: BackendKind::FallbackWindow,
            layer_error: None,
        },
        BackendSelection::Noop { reason } => {
            let idle: String = reason.as_str().to_owned();
            BackendStep::Noop { reason, idle }
        },
    }
}

/// The step after a surface was tried: it is used; or, where any surface may be, a window is
/// tried after a layer surface; or none is used.
pub fn after_init(
    mode: CliBackendMode,
    tried: BackendKind,
    layer_error: Option<String>,
    error: Option<String>,
) -> (r: BackendStep)
    requires
        tried != BackendKind::Noop,
        tried == BackendKind::LayerShell ==> layer_error is None,
    ensures
        match (tried, layer_error, error) {
            (BackendKind::LayerShell, _, None) => r matches BackendStep::Use { kind, reason }
                && kind == BackendKind::LayerShell && reason@ == "layer_shell"@,
            (BackendKind::LayerShell, _, Some(e)) => if mode == CliBackendMode::Auto {
                r == (BackendStep::Try {
                    kind: BackendKind::FallbackWindow,
                    layer_error: Some(e),
                })
            } else {
                r matches BackendStep::Noop { reason, idle } && idle@ == INIT_FAILED@ && reason@
                    == "layer_shell_init_failed:"@ + e@
            },
            (_, None, None) => r matches BackendStep::Use { kind, reason } && kind
                == BackendKind::FallbackWindow && reason@ == "fallback_window"@,
            (_, Some(l), None) => r matches BackendStep::Use { kind, reason } && kind
                == BackendKind::FallbackWindow && reason@ == "layer_shell_init_failed:"@ + l@
                + ";using_fallback_window"@,
            (_, None, Some(e)) => r matches BackendStep::Noop { reason, idle } && idle@
                == INIT_FAILED@ && reason@ == "fallback_window_init_failed:"@ + e@,
            (_, Some(l), Some(e)) => r matches BackendStep::Noop { reason, idle } && idle@
                == INIT_FAILED@ && reason@ == "layer_shell_init_failed:"@ + l@ + ";fallback_init_failed:"@ + e@,
        },
{
    if tried == BackendKind::LayerShell {
        return match error {
            None => BackendStep::Use {
                kind: BackendKind::LayerShell,
                reason: "layer_shell".to_owned(),
            },
            Some(e) => {
                if mode == CliBackendMode::Auto {
                    BackendStep::Try { kind: BackendKind::FallbackWindow, layer_error: Some(e) }
                } else {
                    BackendStep::Noop {
                        reason: cat2("layer_shell_init_failed:", e.as_str()),
                        idle: INIT_FAILED.to_owned(),
                    }
                }
            },
        };
    }
    match (layer_error, error) {
        (None, None) => BackendStep::Use {
            kind: BackendKind::FallbackWindow,
            reason: "fallback_window".to_owned(),
        },
        (Some(l), None) => BackendStep::Use {
            kind: BackendKind::FallbackWindow,
            reason: cat3("layer_shell_init_failed:", l.as_str(), ";using_fallback_window"),
        },
        (None, Some(e)) => BackendStep::Noop {
            reason: cat2("fallback_window_init_failed:", e.as_str()),
            idle: INIT_FAILED.to_owned(),
        },
        (Some(l), Some(e)) => {
            let mut reason = cat3("layer_shell_init_failed:", l.as_str(), ";fallback_init_failed:");
            reason.push_str(e.as_str());
            BackendStep::Noop { reason, idle: INIT_FAILED.to_owned() }
        },
    }
}

/// The output of the given name: the first that has it.
pub open spec fn output_match(names: Seq<Option<&str>>, requested: Seq<char>, from: int) -> Option<
    int,
>
    decreases names.len() - from,
{
    if from < 0 || from >= names.len() {
        None
    } else if opt_chars(names[from]) == Some(requested) {
        Some(from)
    } else {
        output_match(names, requested, from + 1)
    }
}

/// The output of the given name: the first that has it.
pub fn output_name_match_index(output_names: &[Option<&str>], requested: &str) -> (r: Option<usize>)
    ensures
        match r {
            Some(i) => output_match(output_names@, requested@, 0) == Some(i as int),
            None => output_match(output_names@, requested@, 0) is None,
        },
{
    let mut i: usize = 0;
    while i < output_names.len()
        invariant
            i <= output_names@.len(),
            output_match(output_names@, requested@, 0) == output_match(
                output_names@,
                requested@,
                i as int,
            ),
        decreases output_names@.len() - i,
    {
        if let Some(name) = output_names[i] {
            if same(name, requested) {
                return Some(i);
            }
        }
        i = i + 1;
    }
    None
}

// ---- where the sheet lies

/// A number as a signed one of the same bits.
pub open spec fn as_signed(n: u32) -> int {
    if n <= i32::MAX {
        n as int
    } else {
        n - 0x1_0000_0000
    }
}

fn signed(n: u32) -> (r: i64)
    ensures
        r == as_signed(n),
        i32::MIN <= r <= i32::MAX,
{
    if n <= 0x7fff_ffff {
        n as i64
    } else {
        n as i64 - 0x1_0000_0000
    }
}

/// The edges that a layer surface holds on to.
#[derive(Debug, Clone, Copy, PartialEq, Eq, Structural)]
pub struct AnchorEdges {
    pub top: bool,
    pub right: bool,
    pub bottom: bool,
    pub left: bool,
}

/// The edges that a layer surface holds on to: top or bottom, and a side unless it is centred.
pub open spec fn edges(anchor: CliAnchor) -> AnchorEdges {
    AnchorEdges {
        top: at_top(anchor),
        right: anchor == CliAnchor::TopRight || anchor == CliAnchor::BottomRight,
        bottom: !at_top(anchor),
        left: anchor == CliAnchor::TopLeft || anchor == CliAnchor::BottomLeft,
    }
}

/// The edges that a layer surface holds on to.
pub fn layer_anchor(anchor: CliAnchor) -> (r: AnchorEdges)
    ensures
        r == edges(anchor),
{
    let none = AnchorEdges { top: false, right: false, bottom: false, left: false };
    match anchor {
        CliAnchor::TopLeft => AnchorEdges { top: true, left: true, ..none },
        CliAnchor::TopCenter => AnchorEdges { top: true, ..none },
        CliAnchor::TopRight => AnchorEdges { top: true, right: true, ..none },
        CliAnchor::BottomLeft => AnchorEdges { bottom: true, left: true, ..none },
        CliAnchor::BottomCenter => AnchorEdges { bottom: true, ..none },
        CliAnchor::BottomRight => AnchorEdges { bottom: true, right: true, ..none },
    }
}

/// There is a margin only at an edge that the surface holds on to.
pub proof fn law_margins_are_at_held_edges(anchor: CliAnchor, x: int, y: int)
    ensures
        ({
            let (top, right, bottom, left) = margins(anchor, x, y);
            let e = edges(anchor);
            &&& !e.top ==> top == 0
            &&& !e.right ==> right == 0
            &&& !e.bottom ==> bottom == 0
            &&& !e.left ==> left == 0
        }),
{
}

/// The margins of a layer surface: top, right, bottom, left.
pub open spec fn margins(anchor: CliAnchor, x: int, y: int) -> (int, int, int, int) {
    match anchor {
        CliAnchor::TopLeft => (y, 0, 0, x),
        CliAnchor::TopCenter => (y, 0, 0, 0),
        CliAnchor::TopRight => (y, x, 0, 0),
        CliAnchor::BottomLeft => (0, 0, y, x),
        CliAnchor::BottomCenter => (0, 0, y, 0),
        CliAnchor::BottomRight => (0, x, y, 0),
    }
}

/// The margins of a layer surface: top, right, bottom, left.
pub fn layer_margins(anchor: CliAnchor, x: i32, y: i32) -> (r: (i32, i32, i32, i32))
    ensures
        (r.0 as int, r.1 as int, r.2 as int, r.3 as int) == margins(anchor, x as int, y as int),
{
    match anchor {
        CliAnchor::TopLeft => (y, 0, 0, x),
        CliAnchor::TopCenter => (y, 0, 0, 0),
        CliAnchor::TopRight => (y, x, 0, 0),
        CliAnchor::BottomLeft => (0, 0, y, x),
        CliAnchor::BottomCenter => (0, 0, y, 0),
        CliAnchor::BottomRight => (0, x, y, 0),
    }
}

/// The room above or below the sheet that counts into its margin.
pub open spec fn pad_y(anchor: CliAnchor) -> int {
    if at_top(anchor) {
        SHADOW_PAD_TOP + SLIDE_ROOM
    } else {
        SHADOW_PAD_BOTTOM as int
    }
}

/// Whether margins leave room for the signed margins of a layer surface.
pub open spec fn margins_fit(anchor: CliAnchor, margin_x: u32, margin_y: u32) -> bool {
    &&& as_signed(margin_x) - SHADOW_PAD_SIDE >= i32::MIN
    &&& as_signed(margin_y) - pad_y(anchor) >= i32::MIN
}

/// Whether margins leave room for the signed margins of a layer surface.
pub fn sheet_margins_fit(anchor: CliAnchor, margin_x: u32, margin_y: u32) -> (r: bool)
    ensures
        r == margins_fit(anchor, margin_x, margin_y),
{
    let pad: i64 = room_y(anchor);
    let least: i64 = i32::MIN as i64;
    signed(margin_x) - SHADOW_PAD_SIDE as i64 >= least && signed(margin_y) - pad >= least
}

fn room_y(anchor: CliAnchor) -> (r: i64)
    ensures
        r == pad_y(anchor),
{
    if anchor.is_top() {
        SHADOW_PAD_TOP as i64 + SLIDE_ROOM as i64
    } else {
        SHADOW_PAD_BOTTOM as i64
    }
}

/// The margins of a layer surface that put the paper, without its shadow, where it was asked
/// for. They may be negative.
pub fn layer_margins_for_sheet(anchor: CliAnchor, margin_x: u32, margin_y: u32) -> (r: (
    i32,
    i32,
    i32,
    i32,
))
    requires
        margins_fit(anchor, margin_x, margin_y),
    ensures
        (r.0 as int, r.1 as int, r.2 as int, r.3 as int) == margins(
            anchor,
            as_signed(margin_x) - SHADOW_PAD_SIDE,
            as_signed(margin_y) - pad_y(anchor),
        ),
{
    let pad: i64 = room_y(anchor);
    let x: i64 = signed(margin_x) - SHADOW_PAD_SIDE as i64;
    let y: i64 = signed(margin_y) - pad;
    layer_margins(anchor, x as i32, y as i32)
}

/// The paper's distance from the edge it is anchored to is the margin that was asked for: the
/// surface's margin and the room around the paper add up to it.
pub proof fn law_paper_lies_where_asked(anchor: CliAnchor, margin_x: u32, margin_y: u32)
    requires
        margin_x <= i32::MAX,
        margin_y <= i32::MAX,
    ensures
        ({
            let (top, right, bottom, left) = margins(
                anchor,
                as_signed(margin_x) - SHADOW_PAD_SIDE,
                as_signed(margin_y) - pad_y(anchor),
            );
            &&& at_top(anchor) ==> top + pad_y(anchor) == margin_y && bottom == 0
            &&& !at_top(anchor) ==> bottom + pad_y(anchor) == margin_y && top == 0
            &&& anchor == CliAnchor::TopLeft || anchor == CliAnchor::BottomLeft ==> left
                + SHADOW_PAD_SIDE == margin_x
            &&& anchor == CliAnchor::TopRight || anchor == CliAnchor::BottomRight ==> right
                + SHADOW_PAD_SIDE == margin_x
        }),
{
}

// ---- buffers

/// The shape of the memory that is shared with the compositor.
#[derive(Debug, Clone, Copy, PartialEq, Eq, Structural)]
pub struct ShmLayout {
    pub width: i32,
    pub height: i32,
    pub stride: i32,
    pub slot_bytes: u32,
    pub pool_bytes: i32,
}

/// The shape of the shared memory for a surface, or what of it is too large.
pub open spec fn shm_shape(d: SurfaceDimensions) -> Result<ShmLayout, Seq<char>> {
    let stride = d.width * 4;
    let size = stride * d.height;
    let pool = size * 2;
    if stride > u32::MAX {
        Err("overlay stride overflow"@)
    } else if size > u32::MAX {
        Err("overlay buffer size overflow"@)
    } else if pool > u32::MAX {
        Err("overlay pool size overflow"@)
    } else if pool > i32::MAX {
        Err("overlay buffer too large"@)
    } else if d.width > i32::MAX {
        Err("overlay width too large"@)
    } else if d.height > i32::MAX {
        Err("overlay height too large"@)
    } else if stride > i32::MAX {
        Err("overlay stride too large"@)
    } else {
        Ok(
            ShmLayout {
                width: d.width as i32,
                height: d.height as i32,
                stride: stride as i32,
                slot_bytes: size as u32,
                pool_bytes: pool as i32,
            },
        )
    }
}

/// The shape of the shared memory for a surface, or what of it is too large.
pub fn shm_layout(d: SurfaceDimensions) -> (r: Result<ShmLayout, &'static str>)
    ensures
        match r {
            Ok(layout) => shm_shape(d) == Ok::<ShmLayout, Seq<char>>(layout),
            Err(why) => shm_shape(d) == Err::<ShmLayout, Seq<char>>(why@),
        },
{
    let stride: u64 = d.width as u64 * 4;
    if stride > 0xffff_ffff {
        return Err("overlay stride overflow");
    }
    proof {
        assert(stride as int * d.height as int <= 0xffff_ffff * 0xffff_ffff) by (nonlinear_arith)
            requires
                stride <= 0xffff_ffff,
                d.height <= 0xffff_ffff,
        ;
    }
    let size: u64 = stride * d.height as u64;
    if size > 0xffff_ffff {
        return Err("overlay buffer size overflow");
    }
    let pool: u64 = size * 2;
    if pool > 0xffff_ffff {
        return Err("overlay pool size overflow");
    }
    if pool > 0x7fff_ffff {
        return Err("overlay buffer too large");
    }
    if d.width > 0x7fff_ffff {
        return Err("overlay width too large");
    }
    if d.height > 0x7fff_ffff {
        return Err("overlay height too large");
    }
    if stride > 0x7fff_ffff {
        return Err("overlay stride too large");
    }
    Ok(
        ShmLayout {
            width: d.width as i32,
            height: d.height as i32,
            stride: stride as i32,
            slot_bytes: size as u32,
            pool_bytes: pool as i32,
        },
    )
}

/// A frame's slot lies in the pool, and the slots do not overlap.
pub proof fn law_slots_fill_the_pool(d: SurfaceDimensions, slot: int)
    requires
        shm_shape(d) is Ok,
        0 <= slot < SHM_SLOTS,
    ensures
        ({
            let l = shm_shape(d)->Ok_0;
            &&& slot * l.slot_bytes + l.slot_bytes <= l.pool_bytes
            &&& l.slot_bytes == l.stride * l.height
            &&& l.stride == l.width * 4
        }),
{
    let l = shm_shape(d)->Ok_0;
    let b = l.slot_bytes as int;
    assert(0 <= (d.width * 4) * d.height) by (nonlinear_arith);
    assert(slot * b + b <= b * 2) by (nonlinear_arith)
        requires
            0 <= slot <= 1,
            b >= 0,
    ;
}

/// Which shell the surface belongs to.
#[derive(Debug, Clone, Copy, PartialEq, Eq, Structural)]
pub enum ShellKind {
    Layer,
    Fallback,
}

/// A rectangle in whole pixels.
#[derive(Debug, Clone, Copy, PartialEq, Eq, Structural)]
pub struct SheetBox {
    pub x: i32,
    pub y: i32,
    pub w: i32,
    pub h: i32,
}

/// What is done with a painted frame.
#[derive(Debug)]
pub struct PresentPlan {
    /// The width that the layer surface takes.
    pub surface_width: Option<u32>,
    /// The geometry that the window takes.
    pub geometry: Option<SheetBox>,
    /// The title that the window takes.
    pub title: Option<String>,
    pub buffer: BufferPlan,
}

/// Which buffer is handed over.
#[derive(Debug, Clone, Copy, PartialEq, Eq, Structural)]
pub enum BufferPlan {
    /// The frame is copied into this slot, attached and committed.
    Slot(usize),
    /// No buffer is attached, and that is committed.
    Detach,
    /// The compositor holds every slot: the frame is dropped and painted again later.
    Wait,
}

/// What the process remembers of its surface.
#[derive(Debug, Clone, Copy, PartialEq, Eq, Structural)]
pub struct SurfaceState {
    pub first_busy: bool,
    pub second_busy: bool,
    pub last_geometry: Option<SheetBox>,
    pub frame_pending: bool,
}

/// The slot that the compositor does not hold, the first one first.
pub open spec fn free(s: SurfaceState) -> Option<usize> {
    if !s.first_busy {
        Some(0)
    } else if !s.second_busy {
        Some(1)
    } else {
        None
    }
}

/// The surface once a frame was handed over in a slot, or waits for one.
pub open spec fn handed_over(s: SurfaceState) -> (SurfaceState, BufferPlan) {
    match free(s) {
        Some(slot) => (
            SurfaceState {
                first_busy: s.first_busy || slot == 0,
                second_busy: s.second_busy || slot == 1,
                frame_pending: false,
                ..s
            },
            BufferPlan::Slot(slot),
        ),
        None => (SurfaceState { frame_pending: true, ..s }, BufferPlan::Wait),
    }
}

/// The width of the layer surface around a sheet.
pub open spec fn layer_width(sheet_width: u32, surface_width: u32) -> u32 {
    if sheet_width + 2 * SHADOW_PAD_SIDE > surface_width {
        surface_width
    } else {
        (sheet_width + 2 * SHADOW_PAD_SIDE) as u32
    }
}

/// The title of the fallback window for a sheet.
pub open spec fn window_title(title: Option<Seq<char>>) -> Seq<char> {
    match title {
        Some(t) => if t.len() > 0 {
            FALLBACK_WINDOW_TITLE@ + ": "@ + short_title(t)
        } else {
            FALLBACK_WINDOW_TITLE@
        },
        None => FALLBACK_WINDOW_TITLE@,
    }
}

/// A title without white space around it and with 96 characters at most.
pub open spec fn short_title(input: Seq<char>) -> Seq<char> {
    let short = at_most(trim(input), 96);
    if short.len() == 0 {
        "(active)"@
    } else {
        short
    }
}

/// A title without white space around it and with 96 characters at most.
pub fn truncate_for_title(input: &str) -> (r: String)
    ensures
        r@ == short_title(input@),
{
    let short = first_chars(trimmed(input).as_str(), 96);
    if short.as_str().is_empty() {
        "(active)".to_owned()
    } else {
        short
    }
}

fn title_for_window(title: Option<&str>) -> (r: String)
    ensures
        r@ == window_title(opt_chars(title)),
{
    match title {
        Some(t) => {
            if t.is_empty() {
                FALLBACK_WINDOW_TITLE.to_owned()
            } else {
                cat3(FALLBACK_WINDOW_TITLE, ": ", truncate_for_title(t).as_str())
            }
        },
        None => FALLBACK_WINDOW_TITLE.to_owned(),
    }
}

impl SurfaceState {
    /// A surface of which the compositor holds nothing.
    pub fn new() -> (r: SurfaceState)
        ensures
            r == (SurfaceState {
                first_busy: false,
                second_busy: false,
                last_geometry: None,
                frame_pending: false,
            }),
    {
        SurfaceState {
            first_busy: false,
            second_busy: false,
            last_geometry: None,
            frame_pending: false,
        }
    }

    /// The slot that the compositor does not hold, the first one first.
    pub fn free_slot(&self) -> (r: Option<usize>)
        ensures
            r == free(*self),
    {
        if !self.first_busy {
            Some(0)
        } else if !self.second_busy {
            Some(1)
        } else {
            None
        }
    }

    /// The compositor gave a slot back.
    pub fn release(&mut self, slot: usize)
        ensures
            *final(self) == (SurfaceState {
                first_busy: old(self).first_busy && slot != 0,
                second_busy: old(self).second_busy && slot != 1,
                ..*old(self)
            }),
    {
        if slot == 0 {
            self.first_busy = false;
        } else if slot == 1 {
            self.second_busy = false;
        }
    }

    fn hand_over(&mut self) -> (r: BufferPlan)
        ensures
            (*final(self), r) == handed_over(*old(self)),
    {
        match self.free_slot() {
            Some(slot) => {
                if slot == 0 {
                    self.first_busy = true;
                } else {
                    self.second_busy = true;
                }
                self.frame_pending = false;
                BufferPlan::Slot(slot)
            },
            None => {
                self.frame_pending = true;
                BufferPlan::Wait
            },
        }
    }

    /// What is done with a painted frame. `sheet` is the rectangle of the sheet on it, `None`
    /// when the frame is clear; `sheet_width` is the sheet's width.
    ///
    /// A layer surface stays, as wide as the sheet and its shadow. A window takes the sheet's
    /// geometry and title, and is taken down when there is nothing to show.
    pub fn present(
        &mut self,
        shell: ShellKind,
        surface_width: u32,
        sheet: Option<SheetBox>,
        sheet_width: u32,
        title: Option<&str>,
    ) -> (r: PresentPlan)
        requires
            surface_width >= 1,
        ensures
            match (shell, sheet) {
                (ShellKind::Layer, _) => {
                    &&& (*final(self), r.buffer) == handed_over(*old(self))
                    &&& r.surface_width == if sheet is Some {
                        Some(layer_width(sheet_width, surface_width))
                    } else {
                        None
                    }
                    &&& r.geometry is None
                    &&& r.title is None
                },
                (ShellKind::Fallback, Some(b)) => {
                    &&& (*final(self), r.buffer) == handed_over(
                        SurfaceState { last_geometry: Some(b), ..*old(self) },
                    )
                    &&& r.surface_width is None
                    &&& r.geometry == if old(self).last_geometry == Some(b) {
                        None
                    } else {
                        Some(b)
                    }
                    &&& r.title is Some && r.title->0@ == window_title(opt_chars(title))
                },
                (ShellKind::Fallback, None) => {
                    &&& *final(self) == (SurfaceState {
                        last_geometry: None,
                        frame_pending: false,
                        ..*old(self)
                    })
                    &&& r.buffer == BufferPlan::Detach
                    &&& r.surface_width is None
                    &&& r.geometry is None
                    &&& r.title is Some && r.title->0@ == FALLBACK_WINDOW_TITLE@
                },
            },
    {
        match shell {
            ShellKind::Layer => {
                let width: Option<u32> = match sheet {
                    Some(_) => {
                        let wanted: u64 = sheet_width as u64 + 2 * SHADOW_PAD_SIDE as u64;
                        if wanted > surface_width as u64 {
                            Some(surface_width)
                        } else {
                            Some(wanted as u32)
                        }
                    },
                    None => None,
                };
                let buffer = self.hand_over();
                PresentPlan { surface_width: width, geometry: None, title: None, buffer }
            },
            ShellKind::Fallback => match sheet {
                Some(b) => {
                    let geometry: Option<SheetBox> = if self.last_geometry == Some(b) {
                        None
                    } else {
                        Some(b)
                    };
                    self.last_geometry = Some(b);
                    let buffer = self.hand_over();
                    PresentPlan {
                        surface_width: None,
                        geometry,
                        title: Some(title_for_window(title)),
                        buffer,
                    }
                },
                None => {
                    self.last_geometry = None;
                    self.frame_pending = false;
                    PresentPlan {
                        surface_width: None,
                        geometry: None,
                        title: Some(FALLBACK_WINDOW_TITLE.to_owned()),
                        buffer: BufferPlan::Detach,
                    }
                },
            },
        }
    }
}

/// A slot that the compositor holds is not written to: a frame goes into a free slot or waits.
pub proof fn law_held_slots_are_not_written(s: SurfaceState)
    ensures
        handed_over(s).1 matches BufferPlan::Slot(slot) ==> {
            &&& slot == 0 ==> !s.first_busy
            &&& slot == 1 ==> !s.second_busy
            &&& slot < SHM_SLOTS
        },
        handed_over(s).1 == BufferPlan::Wait <==> s.first_busy && s.second_busy,
{
}

/// Whether one of the names of the desktop says that it is COSMIC.
pub open spec fn names_cosmic(values: Seq<Seq<char>>) -> bool {
    exists|i: int|
        0 <= i < values.len() && holds_text(lowered(#[trigger] values[i]), "cosmic"@)
}

/// Whether one of the names of the desktop says that it is COSMIC.
pub fn is_probably_cosmic_session(values: &Vec<String>) -> (r: bool)
    ensures
        r == names_cosmic(texts(values@)),
{
    let mut i: usize = 0;
    while i < values.len()
        invariant
            i <= values@.len(),
            forall|j: int|
                0 <= j < i ==> !holds_text(lowered(#[trigger] texts(values@)[j]), "cosmic"@),
        decreases values@.len() - i,
    {
        if contains(to_lower(values[i].as_str()).as_str(), "cosmic") {
            assert(holds_text(lowered(texts(values@)[i as int]), "cosmic"@));
            return true;
        }
        i = i + 1;
    }
    false
}

// ---- the loop

/// What a message leads to.
#[derive(Debug, Clone, Copy, PartialEq, Eq, Structural)]
pub enum RenderStep {
    /// The level is kept; the next tick shows it.
    Level(FloatBits),
    /// The sheet is drawn.
    Render,
    /// Nothing, because it came too late or was for another session.
    Dropped(ApplyOutcome),
}

/// The state of the overlay process.
#[derive(Debug)]
pub struct RendererCore {
    pub machine: OverlayStateMachine,
}

impl RendererCore {
    /// A process that shows nothing, and hides what has ended after a while, however short.
    pub fn new(auto_hide_ms: u64) -> (r: RendererCore)
        ensures
            r.machine.model() == (MachineModel {
                view: None,
                daemon_seq: None,
                llm_seq: None,
                hide_at_ms: None,
                auto_hide_ms: if auto_hide_ms < 1 {
                    1
                } else {
                    auto_hide_ms
                },
            }),
    {
        let hide: u64 = if auto_hide_ms < 1 {
            1
        } else {
            auto_hide_ms
        };
        RendererCore { machine: OverlayStateMachine::new(hide) }
    }

    /// Takes a message.
    pub fn message(&mut self, message: OverlayIpcMessage, remaining_ms: Option<u64>, now_ms: u64)
        -> (r: RenderStep)
        ensures
            match message {
                OverlayIpcMessage::AudioLevel { level_db, .. } => r == RenderStep::Level(level_db)
                    && final(self).machine.model() == old(self).machine.model(),
                _ => {
                    let (m, outcome) = applied(
                        old(self).machine.model(),
                        message,
                        remaining_ms,
                        now_ms,
                    );
                    &&& final(self).machine.model() == m
                    &&& r == if outcome == ApplyOutcome::Applied {
                        RenderStep::Render
                    } else {
                        RenderStep::Dropped(outcome)
                    }
                },
            },
    {
        match message {
            OverlayIpcMessage::AudioLevel { level_db, .. } => RenderStep::Level(level_db),
            other => {
                let outcome = self.machine.apply_event(other, remaining_ms, now_ms);
                if outcome == ApplyOutcome::Applied {
                    RenderStep::Render
                } else {
                    RenderStep::Dropped(outcome)
                }
            },
        }
    }

    /// A tick: a sheet whose time is up is hidden, and all else stays. Tells whether the sheet is
    /// drawn.
    pub fn tick(&mut self, now_ms: u64, animating: bool) -> (r: bool)
        ensures
            r == (animating || (old(self).machine.model().hide_at_ms matches Some(at) && at
                <= now_ms)),
            final(self).machine.model() == if old(self).machine.model().hide_at_ms matches Some(at)
                && at <= now_ms {
                MachineModel {
                    view: None,
                    daemon_seq: None,
                    llm_seq: None,
                    hide_at_ms: None,
                    ..old(self).machine.model()
                }
            } else {
                old(self).machine.model()
            },
    {
        let advanced = self.machine.advance_time(now_ms);
        advanced || animating
    }

    /// What is shown.
    pub fn visibility(&self) -> (r: &OverlayVisibility)
        ensures
            r.shown() == self.machine.model().view,
    {
        self.machine.visibility()
    }
}

// ---- what the surface is for

/// The surface that is tried first is the one asked for, where the compositor offers all that it
/// needs; any will do where none was asked for, a layer before a window.
pub proof fn law_offered_surface_is_tried(s: BackendSignals)
    ensures
        ({
            let layer = s.has_layer_shell && s.has_wl_compositor && s.has_wl_shm;
            let window = s.has_xdg_wm_base && s.has_wl_compositor && s.has_wl_shm;
            &&& selected(CliBackendMode::LayerShell, s) is LayerShell <==> layer
            &&& selected(CliBackendMode::LayerShell, s) is Noop <==> !layer
            &&& selected(CliBackendMode::FallbackWindow, s) is FallbackWindow <==> window
            &&& selected(CliBackendMode::FallbackWindow, s) is Noop <==> !window
            &&& selected(CliBackendMode::Auto, s) is LayerShell <==> layer
            &&& selected(CliBackendMode::Auto, s) is FallbackWindow <==> !layer && window
            &&& selected(CliBackendMode::Auto, s) is Noop <==> !layer && !window
        }),
{
}

/// The output that is found is the first of the name asked for; where none has it, none is.
pub proof fn law_output_is_found_by_name(names: Seq<Option<&str>>, requested: Seq<char>, from: int)
    requires
        0 <= from,
    ensures
        output_match(names, requested, from) matches Some(i) ==> from <= i < names.len()
            && names[i] is Some && (names[i]->0)@ == requested && forall|j: int|
            from <= j < i ==> opt_chars(#[trigger] names[j]) != Some(requested),
        output_match(names, requested, from) is None ==> forall|j: int|
            from <= j < names.len() ==> opt_chars(#[trigger] names[j]) != Some(requested),
    decreases names.len() - from,
{
    if from < names.len() && opt_chars(names[from]) != Some(requested) {
        law_output_is_found_by_name(names, requested, from + 1);
    }
}

/// A surface holds on to the edges of its anchor, and has its margins there.
pub proof fn law_anchor_holds_its_edges(anchor: CliAnchor, x: int, y: int)
    ensures
        ({
            let e = edges(anchor);
            let (top, right, bottom, left) = margins(anchor, x, y);
            let upper = anchor == CliAnchor::TopLeft || anchor == CliAnchor::TopCenter || anchor
                == CliAnchor::TopRight;
            let on_left = anchor == CliAnchor::TopLeft || anchor == CliAnchor::BottomLeft;
            let on_right = anchor == CliAnchor::TopRight || anchor == CliAnchor::BottomRight;
            &&& e.top <==> upper
            &&& e.bottom <==> !upper
            &&& e.left <==> on_left
            &&& e.right <==> on_right
            &&& upper ==> top == y && bottom == 0
            &&& !upper ==> bottom == y && top == 0
            &&& on_left ==> left == x && right == 0
            &&& on_right ==> right == x && left == 0
            &&& !on_left && !on_right ==> left == 0 && right == 0
        }),
{
}

/// The shared memory holds two pictures of four bytes a pixel, or is refused where a number for
/// it would be too large.
pub proof fn law_memory_holds_two_pictures(d: SurfaceDimensions)
    ensures
        shm_shape(d) matches Ok(l) ==> {
            &&& l.width == d.width && l.height == d.height
            &&& l.stride == 4 * d.width
            &&& l.slot_bytes == 4 * d.width * d.height
            &&& l.pool_bytes == 8 * d.width * d.height
        },
        shm_shape(d) is Ok <==> 4 * d.width * d.height * 2 <= i32::MAX && 4 * d.width <= i32::MAX
            && d.height <= i32::MAX,
{
    let (w, h) = (d.width as int, d.height as int);
    assert(w * 4 * h * 2 == 8 * w * h && w * 4 * h == 4 * w * h && 4 * w * h * 2 == 8 * w * h)
        by (nonlinear_arith);
    assert(w * 4 * h >= 0) by (nonlinear_arith)
        requires
            w >= 0,
            h >= 0,
    ;
}

/// A frame goes into the first slot that is free, which is then held; where both are held it
/// waits.
pub proof fn law_frame_goes_into_a_free_slot(s: SurfaceState)
    ensures
        !s.first_busy ==> handed_over(s).1 == BufferPlan::Slot(0) && handed_over(s).0.first_busy
            && handed_over(s).0.second_busy == s.second_busy && !handed_over(s).0.frame_pending,
        s.first_busy && !s.second_busy ==> handed_over(s).1 == BufferPlan::Slot(1) && handed_over(
            s,
        ).0.second_busy && handed_over(s).0.first_busy && !handed_over(s).0.frame_pending,
        s.first_busy && s.second_busy ==> handed_over(s).1 == BufferPlan::Wait && handed_over(
            s,
        ).0.frame_pending,
        handed_over(s).0.last_geometry == s.last_geometry,
{
}

/// The layer is as wide as the sheet and its shadow, and never wider than the surface.
pub proof fn law_layer_is_as_wide_as_the_sheet(sheet_width: u32, surface_width: u32)
    ensures
        sheet_width + 52 <= surface_width ==> layer_width(sheet_width, surface_width) == sheet_width
            + 52,
        sheet_width + 52 > surface_width ==> layer_width(sheet_width, surface_width)
            == surface_width,
{
}

/// A window is titled after what it shows, cut to ninety-six characters; with nothing to show it
/// has its own name.
pub proof fn law_window_is_titled_after_its_sheet(t: Seq<char>)
    ensures
        window_title(None) == "Parakeet Overlay"@,
        t.len() == 0 ==> window_title(Some(t)) == "Parakeet Overlay"@,
        t.len() > 0 && 0 < trim(t).len() <= 96 ==> window_title(Some(t)) == "Parakeet Overlay"@
            + ": "@ + trim(t),
        t.len() > 0 && trim(t).len() > 96 ==> window_title(Some(t)) == "Parakeet Overlay"@ + ": "@
            + trim(t).take(96),
        t.len() > 0 && trim(t).len() == 0 ==> window_title(Some(t)) == "Parakeet Overlay"@ + ": "@
            + "(active)"@,
{
}

/// The width follows the text unless someone says no: the command line, else the environment.
pub proof fn law_width_follows_unless_told(env: Seq<char>)
    ensures
        adaptive(None, None),
        adaptive(Some(true), Some(env)),
        !adaptive(Some(false), Some(env)),
        adaptive(None, Some(env)) <==> bool_override(env) != Some(false),
{
}

/// A number that is too small or too large becomes the nearest that is not.
pub proof fn law_clamped_to_the_nearest(n: u32, low: u32, high: u32)
    requires
        low <= high,
    ensures
        low <= clamped(n, low, high) <= high,
        low <= n <= high ==> clamped(n, low, high) == n,
        n < low ==> clamped(n, low, high) == low,
        n > high ==> clamped(n, low, high) == high,
{
}

/// The surface that was selected is tried; where the layer cannot be had and the choice is free
/// the window is tried after it; what came up is used, and where nothing did nothing is drawn.
pub proof fn law_surfaces_are_tried_in_turn(
    selection: BackendSelection,
    first: BackendStep,
    mode: CliBackendMode,
    tried: BackendKind,
    layer_error: Option<String>,
    error: Option<String>,
    next: BackendStep,
)
    requires
        call_ensures(begin_backend, (selection,), first),
        tried != BackendKind::Noop,
        tried == BackendKind::LayerShell ==> layer_error is None,
        call_ensures(after_init, (mode, tried, layer_error, error), next),
    ensures
        first is Noop <==> selection is Noop,
        selection is LayerShell ==> (first matches BackendStep::Try { kind, .. } && kind
            == BackendKind::LayerShell),
        selection is FallbackWindow ==> (first matches BackendStep::Try { kind, .. } && kind
            == BackendKind::FallbackWindow),
        next is Use <==> error is None,
        next matches BackendStep::Use { kind, .. } ==> kind == tried,
        next is Try <==> error is Some && tried == BackendKind::LayerShell && mode
            == CliBackendMode::Auto,
        next matches BackendStep::Try { kind, layer_error: why } ==> kind
            == BackendKind::FallbackWindow && why == error,
{
}

/// What is announced is noted, what was noted stays noted, and nothing else is.
pub proof fn law_announcements_add_up(interface: &str)
    ensures
        forall|s: &mut BackendSignals, r: ()| #[trigger]
            call_ensures(BackendSignals::note_global, (s, interface), r) ==> {
                &&& final(s).has_layer_shell <==> s.has_layer_shell || interface@
                    == "zwlr_layer_shell_v1"@
                &&& final(s).has_wl_compositor <==> s.has_wl_compositor || interface@
                    == "wl_compositor"@
                &&& final(s).has_xdg_wm_base <==> s.has_xdg_wm_base || interface@ == "xdg_wm_base"@
                &&& final(s).has_wl_shm <==> s.has_wl_shm || interface@ == "wl_shm"@
            },
{
}

/// A slot that is released is free, and the other stays as it was.
pub proof fn law_released_slot_is_free(slot: usize)
    ensures
        forall|s: &mut SurfaceState, r: ()| #[trigger]
            call_ensures(SurfaceState::release, (s, slot), r) ==> {
                &&& slot == 0 ==> !final(s).first_busy && final(s).second_busy == s.second_busy
                &&& slot == 1 ==> !final(s).second_busy && final(s).first_busy == s.first_busy
                &&& slot < 2 ==> free(*final(s)) is Some
                &&& slot > 1 ==> *final(s) == *s
            },
{
}

/// A title is never empty and never longer than its limit, and says what the text begins with.
pub proof fn law_title_is_short(input: Seq<char>)
    ensures
        0 < short_title(input).len() <= 96,
        trim(input).len() > 0 ==> short_title(input) == trim(input).take(
            short_title(input).len() as int,
        ),
        0 < trim(input).len() <= 96 ==> short_title(input) == trim(input),
{
    reveal_strlit("(active)");
    let t = trim(input);
    if 0 < t.len() <= 96 {
        assert(at_most(t, 96) =~= t);
    }
    assert(t.take(t.len() as int) =~= t);
}

} // verus!
