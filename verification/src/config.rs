//! Client configuration: overlay capability, injection options and the daemon endpoint.
use vstd::prelude::*;
use vstd::utf8::encode_utf8;

use crate::env_parse::{bool_override, parse_bool_override};
use crate::text::{cat2, joined, lowered, opt_chars, opt_string, same, to_lower, trim, trimmed};
use crate::url_text::{
    endpoint_view, parse_url, set_path, set_scheme, url_parsed, url_with_path, url_with_scheme,
    Endpoint,
};

verus! {

/// Where the daemon listens unless the user says otherwise.
pub const DEFAULT_ENDPOINT: &'static str = "ws://127.0.0.1:8765/ws";

/// How the overlay reaches the screen.
#[derive(Clone, Debug, Copy, PartialEq, Eq, Structural)]
pub enum OverlayMode {
    LayerShell,
    FallbackWindow,
    Disabled,
}

/// The name of a mode in logs.
pub open spec fn overlay_mode_name(mode: OverlayMode) -> Seq<char> {
    match mode {
        OverlayMode::LayerShell => "layer_shell"@,
        OverlayMode::FallbackWindow => "fallback_window"@,
        OverlayMode::Disabled => "disabled"@,
    }
}

impl OverlayMode {
    /// The name of the mode in logs.
    pub fn as_str(self) -> (r: &'static str)
        ensures
            r@ == overlay_mode_name(self),
    {
        match self {
            OverlayMode::LayerShell => "layer_shell",
            OverlayMode::FallbackWindow => "fallback_window",
            OverlayMode::Disabled => "disabled",
        }
    }
}

/// The overlay mode that was chosen, and why.
#[derive(Clone, Debug, PartialEq, Eq)]
pub struct OverlayCapability {
    pub mode: OverlayMode,
    pub reason: String,
}

impl View for OverlayCapability {
    type V = (OverlayMode, Seq<char>);

    open spec fn view(&self) -> (OverlayMode, Seq<char>) {
        (self.mode, self.reason@)
    }
}

impl OverlayCapability {
    /// A capability with the given mode and reason.
    fn of(mode: OverlayMode, reason: &str) -> (r: OverlayCapability)
        ensures
            r@ == (mode, reason@),
    {
        OverlayCapability { mode, reason: reason.to_owned() }
    }
}

/// Which window protocols the compositor announced.
#[derive(Clone, Debug, Copy, PartialEq, Eq, Structural)]
pub struct OverlayProbeSignals {
    pub has_layer_shell: bool,
    pub has_wl_compositor: bool,
    pub has_xdg_wm_base: bool,
}

impl Default for OverlayProbeSignals {
    /// Nothing announced yet.
    fn default() -> (r: OverlayProbeSignals)
        ensures
            !r.has_layer_shell && !r.has_wl_compositor && !r.has_xdg_wm_base,
    {
        OverlayProbeSignals {
            has_layer_shell: false,
            has_wl_compositor: false,
            has_xdg_wm_base: false,
        }
    }
}

/// The signals after the registry announced one more interface.
pub open spec fn signals_with(s: OverlayProbeSignals, interface: Seq<char>) -> OverlayProbeSignals {
    OverlayProbeSignals {
        has_layer_shell: s.has_layer_shell || interface == "zwlr_layer_shell_v1"@,
        has_wl_compositor: s.has_wl_compositor || interface == "wl_compositor"@,
        has_xdg_wm_base: s.has_xdg_wm_base || interface == "xdg_wm_base"@,
    }
}

impl OverlayProbeSignals {
    /// Notes an interface that the registry announced.
    pub fn note_global(&mut self, interface: &str)
        ensures
            *final(self) == signals_with(*old(self), interface@),
    {
        if same(interface, "zwlr_layer_shell_v1") {
            self.has_layer_shell = true;
        }
        if same(interface, "wl_compositor") {
            self.has_wl_compositor = true;
        }
        if same(interface, "xdg_wm_base") {
            self.has_xdg_wm_base = true;
        }
    }
}

/// Whether the overlay is wanted at all.
#[derive(Clone, Debug, PartialEq, Eq)]
pub enum OverlayEnableGate {
    Enabled,
    Disabled { reason: String },
}

impl OverlayEnableGate {
    /// Why the overlay is off; `None` where it is on.
    pub open spec fn off_because(self) -> Option<Seq<char>> {
        match self {
            OverlayEnableGate::Enabled => None,
            OverlayEnableGate::Disabled { reason } => Some(reason@),
        }
    }
}

/// Why the overlay is off, given the command line and the environment; `None` where it is on.
/// The command line has precedence; without either the overlay is off.
pub open spec fn enable_gate(cli: Option<bool>, env: Option<Seq<char>>) -> Option<Seq<char>> {
    match cli {
        Some(true) => None,
        Some(false) => Some("overlay_enabled_override:cli:false"@),
        None => match env {
            None => Some("overlay_disabled_by_default"@),
            Some(raw) => match bool_override(raw) {
                Some(true) => None,
                Some(false) => Some("overlay_enabled_override:env:false"@),
                None => Some("overlay_enabled_invalid:"@ + raw),
            },
        },
    }
}

/// The mode that an override names, and the reason that goes with it.
pub open spec fn mode_override(raw: Seq<char>) -> Option<(OverlayMode, Seq<char>)> {
    let word = lowered(trim(raw));
    if word == "layer-shell"@ || word == "layer_shell"@ {
        Some((OverlayMode::LayerShell, "overlay_mode_override:layer_shell"@))
    } else if word == "fallback-window"@ || word == "fallback_window"@ {
        Some((OverlayMode::FallbackWindow, "overlay_mode_override:fallback_window"@))
    } else if word == "disabled"@ || word == "off"@ || word == "none"@ {
        Some((OverlayMode::Disabled, "overlay_mode_override:disabled"@))
    } else {
        None
    }
}

/// The names of the window protocols that are missing.
pub open spec fn missing_protocols(s: OverlayProbeSignals) -> Seq<Seq<char>> {
    (if s.has_wl_compositor {
        Seq::<Seq<char>>::empty()
    } else {
        seq!["wl_compositor"@]
    }) + (if s.has_xdg_wm_base {
        Seq::<Seq<char>>::empty()
    } else {
        seq!["xdg_wm_base"@]
    })
}

/// The capability that the announced protocols allow.
pub open spec fn classified(s: OverlayProbeSignals) -> (OverlayMode, Seq<char>) {
    if s.has_layer_shell {
        (OverlayMode::LayerShell, "zwlr_layer_shell_v1_available"@)
    } else if s.has_wl_compositor && s.has_xdg_wm_base {
        (
            OverlayMode::FallbackWindow,
            "zwlr_layer_shell_v1_unavailable_using_xdg_toplevel_fallback"@,
        )
    } else {
        (
            OverlayMode::Disabled,
            "missing_window_protocols:"@ + joined(missing_protocols(s), ","@),
        )
    }
}

/// A probe result, its error as characters.
pub open spec fn probe_view(p: Result<OverlayProbeSignals, String>) -> Result<
    OverlayProbeSignals,
    Seq<char>,
> {
    match p {
        Ok(s) => Ok(s),
        Err(m) => Err(m@),
    }
}

/// The capability for a mode from the environment and a probe result. A mode that is not
/// blank decides alone.
pub open spec fn probed(mode: Option<Seq<char>>, probe: Result<OverlayProbeSignals, Seq<char>>) -> (
    OverlayMode,
    Seq<char>,
) {
    if mode is Some && trim(mode->0).len() > 0 {
        match mode_override(trim(mode->0)) {
            Some(c) => c,
            None => (
                OverlayMode::Disabled,
                "overlay_mode_override_invalid:"@ + trim(mode->0),
            ),
        }
    } else {
        match probe {
            Ok(s) => classified(s),
            Err(m) => (OverlayMode::Disabled, "wayland_probe_failed:"@ + m),
        }
    }
}

/// The capability for all inputs: whether the overlay is enabled first, then mode and probe.
pub open spec fn capability(
    cli: Option<bool>,
    enabled_env: Option<Seq<char>>,
    mode_env: Option<Seq<char>>,
    probe: Result<OverlayProbeSignals, Seq<char>>,
) -> (OverlayMode, Seq<char>) {
    match enable_gate(cli, enabled_env) {
        Some(reason) => (OverlayMode::Disabled, reason),
        None => probed(mode_env, probe),
    }
}

/// Parses the boolean that switches the overlay on or off.
pub fn parse_overlay_enabled_override(raw: &str) -> (r: Option<bool>)
    ensures
        r == bool_override(raw@),
{
    parse_bool_override(raw)
}

/// Decides whether the overlay is wanted.
pub fn resolve_overlay_enable_gate(
    overlay_enabled_override: Option<bool>,
    overlay_enabled_env: Option<&str>,
) -> (r: OverlayEnableGate)
    ensures
        r.off_because() == enable_gate(overlay_enabled_override, opt_chars(overlay_enabled_env)),
{
    if let Some(overlay_enabled) = overlay_enabled_override {
        if overlay_enabled {
            return OverlayEnableGate::Enabled;
        }
        return OverlayEnableGate::Disabled {
            reason: "overlay_enabled_override:cli:false".to_owned(),
        };
    }
    match overlay_enabled_env {
        None => OverlayEnableGate::Disabled { reason: "overlay_disabled_by_default".to_owned() },
        Some(raw) => match parse_overlay_enabled_override(raw) {
            Some(true) => OverlayEnableGate::Enabled,
            Some(false) => OverlayEnableGate::Disabled {
                reason: "overlay_enabled_override:env:false".to_owned(),
            },
            None => OverlayEnableGate::Disabled { reason: cat2("overlay_enabled_invalid:", raw) },
        },
    }
}

/// Parses a mode from the environment; `auto` and unknown words name none.
pub fn parse_overlay_mode_override(raw: &str) -> (r: Option<OverlayCapability>)
    ensures
        match r {
            Some(c) => mode_override(raw@) == Some(c@),
            None => mode_override(raw@) is None,
        },
{
    let outer = trimmed(raw);
    let word = to_lower(outer.as_str());
    let w = word.as_str();
    if same(w, "layer-shell") || same(w, "layer_shell") {
        Some(OverlayCapability::of(OverlayMode::LayerShell, "overlay_mode_override:layer_shell"))
    } else if same(w, "fallback-window") || same(w, "fallback_window") {
        Some(
            OverlayCapability::of(
                OverlayMode::FallbackWindow,
                "overlay_mode_override:fallback_window",
            ),
        )
    } else if same(w, "disabled") || same(w, "off") || same(w, "none") {
        Some(OverlayCapability::of(OverlayMode::Disabled, "overlay_mode_override:disabled"))
    } else {
        None
    }
}

/// Chooses a mode from what the compositor announced.
pub fn classify_overlay_capability(signals: OverlayProbeSignals) -> (r: OverlayCapability)
    ensures
        r@ == classified(signals),
{
    if signals.has_layer_shell {
        return OverlayCapability::of(OverlayMode::LayerShell, "zwlr_layer_shell_v1_available");
    }
    if signals.has_wl_compositor && signals.has_xdg_wm_base {
        return OverlayCapability::of(
            OverlayMode::FallbackWindow,
            "zwlr_layer_shell_v1_unavailable_using_xdg_toplevel_fallback",
        );
    }
    let mut missing: Vec<String> = Vec::new();
    if !signals.has_wl_compositor {
        missing.push("wl_compositor".to_owned());
    }
    if !signals.has_xdg_wm_base {
        missing.push("xdg_wm_base".to_owned());
    }
    assert(crate::text::texts(missing@) =~= missing_protocols(signals));
    let list = crate::text::join(&missing, ",");
    OverlayCapability {
        mode: OverlayMode::Disabled,
        reason: cat2("missing_window_protocols:", list.as_str()),
    }
}

/// Chooses a mode from the environment, or from the probe where the environment names none.
pub fn probe_overlay_capability_with_inputs(
    overlay_mode_env: Option<&str>,
    probe_signals: Result<OverlayProbeSignals, String>,
) -> (r: OverlayCapability)
    ensures
        r@ == probed(opt_chars(overlay_mode_env), probe_view(probe_signals)),
{
    if let Some(raw) = overlay_mode_env {
        let name = trimmed(raw);
        if !name.as_str().is_empty() {
            return match parse_overlay_mode_override(name.as_str()) {
                Some(c) => c,
                None => OverlayCapability {
                    mode: OverlayMode::Disabled,
                    reason: cat2("overlay_mode_override_invalid:", name.as_str()),
                },
            };
        }
    }
    match probe_signals {
        Ok(signals) => classify_overlay_capability(signals),
        Err(err) => OverlayCapability {
            mode: OverlayMode::Disabled,
            reason: cat2("wayland_probe_failed:", err.as_str()),
        },
    }
}

/// Chooses the overlay capability from the command line, the environment and a probe result.
pub fn resolve_overlay_capability_with_inputs(
    overlay_enabled_override: Option<bool>,
    overlay_enabled_env: Option<&str>,
    overlay_mode_env: Option<&str>,
    probe_signals: Result<OverlayProbeSignals, String>,
) -> (r: OverlayCapability)
    ensures
        r@ == capability(
            overlay_enabled_override,
            opt_chars(overlay_enabled_env),
            opt_chars(overlay_mode_env),
            probe_view(probe_signals),
        ),
{
    match resolve_overlay_enable_gate(overlay_enabled_override, overlay_enabled_env) {
        OverlayEnableGate::Enabled => probe_overlay_capability_with_inputs(
            overlay_mode_env,
            probe_signals,
        ),
        OverlayEnableGate::Disabled { reason } => OverlayCapability {
            mode: OverlayMode::Disabled,
            reason,
        },
    }
}

/// Whether the overlay adapts its width: the command line, else the environment, else no.
pub open spec fn adaptive_width(cli: Option<bool>, env: Option<Seq<char>>) -> bool {
    match cli {
        Some(b) => b,
        None => env is Some && bool_override(env->0) == Some(true),
    }
}

/// Decides whether the overlay adapts its width.
pub fn resolve_overlay_adaptive_width_with_env(
    overlay_adaptive_width_override: Option<bool>,
    overlay_adaptive_width_env: Option<&str>,
) -> (r: bool)
    ensures
        r == adaptive_width(overlay_adaptive_width_override, opt_chars(overlay_adaptive_width_env)),
{
    if let Some(b) = overlay_adaptive_width_override {
        return b;
    }
    match overlay_adaptive_width_env {
        None => false,
        Some(raw) => match parse_overlay_enabled_override(raw) {
            Some(b) => b,
            None => false,
        },
    }
}

/// With the overlay not enabled, neither the mode from the environment nor the probe matters.
pub proof fn law_disabled_overlay_ignores_mode_and_probe(
    cli: Option<bool>,
    enabled_env: Option<Seq<char>>,
    mode_a: Option<Seq<char>>,
    mode_b: Option<Seq<char>>,
    probe_a: Result<OverlayProbeSignals, Seq<char>>,
    probe_b: Result<OverlayProbeSignals, Seq<char>>,
)
    requires
        enable_gate(cli, enabled_env) is Some,
    ensures
        capability(cli, enabled_env, mode_a, probe_a) == capability(
            cli,
            enabled_env,
            mode_b,
            probe_b,
        ),
        capability(cli, enabled_env, mode_a, probe_a).0 == OverlayMode::Disabled,
{
}

/// A mode that is not blank decides without the probe.
pub proof fn law_mode_override_decides_without_probe(
    cli: Option<bool>,
    enabled_env: Option<Seq<char>>,
    mode: Seq<char>,
    probe_a: Result<OverlayProbeSignals, Seq<char>>,
    probe_b: Result<OverlayProbeSignals, Seq<char>>,
)
    requires
        trim(mode).len() > 0,
    ensures
        capability(cli, enabled_env, Some(mode), probe_a) == capability(
            cli,
            enabled_env,
            Some(mode),
            probe_b,
        ),
{
}

/// A value on the command line has precedence over the environment.
pub proof fn law_command_line_overrides_environment(
    cli: bool,
    env_a: Option<Seq<char>>,
    env_b: Option<Seq<char>>,
)
    ensures
        enable_gate(Some(cli), env_a) == enable_gate(Some(cli), env_b),
        adaptive_width(Some(cli), env_a) == adaptive_width(Some(cli), env_b),
{
}

/// What an injection does with the text.
#[derive(Clone, Debug, Copy, PartialEq, Eq, Structural)]
pub enum InjectionMode {
    Paste,
    CopyOnly,
}

/// The key chord that pastes.
#[derive(Clone, Debug, Copy, PartialEq, Eq, Structural)]
pub enum PasteShortcut {
    CtrlV,
    CtrlShiftV,
}

/// Which backend sends the paste chord.
#[derive(Clone, Debug, Copy, PartialEq, Eq, Structural)]
pub enum PasteKeyBackend {
    Ydotool,
    Uinput,
    Auto,
}

/// What happens where no backend can send the chord.
#[derive(Clone, Debug, Copy, PartialEq, Eq, Structural)]
pub enum PasteBackendFailurePolicy {
    CopyOnly,
    Error,
}

/// How the clipboard is used.
#[derive(Clone, Debug)]
pub struct ClipboardOptions {
    pub key_backend: PasteKeyBackend,
    pub backend_failure_policy: PasteBackendFailurePolicy,
    pub post_chord_hold_ms: u64,
    pub seat: Option<String>,
    pub write_primary: bool,
}

/// How text is injected.
#[derive(Clone, Debug)]
pub struct InjectionConfig {
    pub ydotool_path: Option<String>,
    pub uinput_dwell_ms: u64,
    pub injection_mode: InjectionMode,
    pub clipboard: ClipboardOptions,
}

/// Everything the client is told at the start.
#[derive(Clone, Debug)]
pub struct ClientConfig {
    pub endpoint: Endpoint,
    pub shared_secret: Option<String>,
    pub hotkey: String,
    pub ydotool_path: Option<String>,
    pub uinput_dwell_ms: u64,
    pub injection_mode: InjectionMode,
    pub clipboard: ClipboardOptions,
    pub connect_timeout_ms: u64,
}

/// Why a configuration cannot be used.
#[derive(Clone, Debug, PartialEq, Eq)]
pub enum ConfigError {
    InvalidEndpoint { endpoint: String, cause: String },
    SharedSecretHeader,
}

impl ConfigError {
    /// The message of the error.
    pub open spec fn text(self) -> Seq<char> {
        match self {
            ConfigError::InvalidEndpoint { endpoint, cause } => "invalid WebSocket endpoint: "@
                + endpoint@,
            ConfigError::SharedSecretHeader => "failed to encode shared secret header"@,
        }
    }

    /// The message of the error.
    pub fn message(&self) -> (r: String)
        ensures
            r@ == self.text(),
    {
        match self {
            ConfigError::InvalidEndpoint { endpoint, .. } => cat2(
                "invalid WebSocket endpoint: ",
                endpoint.as_str(),
            ),
            ConfigError::SharedSecretHeader => "failed to encode shared secret header".to_owned(),
        }
    }
}

/// What the client asks the daemon's server for when it opens the connection.
#[derive(Clone, Debug, PartialEq, Eq)]
pub struct RequestPlan {
    pub url: String,
    /// The value of the header `x-parakeet-secret`, where there is a secret.
    pub secret: Option<String>,
}

/// A byte that may stand in a header value.
pub open spec fn header_byte(b: u8) -> bool {
    b == 9 || (b >= 32 && b != 127)
}

/// A text that may be a header value.
pub open spec fn header_text(s: Seq<char>) -> bool {
    forall|i: int| 0 <= i < encode_utf8(s).len() ==> header_byte(#[trigger] encode_utf8(s)[i])
}

/// Whether a text may be a header value.
///
/// Calls `http::header::HeaderValue::from_str`, which accepts a text whose bytes are all
/// tabs or at least 32 and not 127.
#[verifier::external_body]
pub(crate) fn header_accepts(text: &str) -> (r: bool)
    ensures
        r == header_text(text@),
{
    http::header::HeaderValue::from_str(text).is_ok()
}

/// What the scheme of the endpoint says about the status URL.
#[derive(Clone, Debug, Copy, PartialEq, Eq, Structural)]
pub enum StatusScheme {
    /// The endpoint becomes an `http` URL.
    Http,
    /// The endpoint becomes an `https` URL.
    Https,
    /// The endpoint keeps its scheme.
    Keep,
    /// There is no status URL.
    Unsupported,
}

/// The status scheme that belongs to an endpoint scheme.
pub open spec fn status_scheme_of(scheme: Seq<char>) -> StatusScheme {
    if scheme == "ws"@ {
        StatusScheme::Http
    } else if scheme == "wss"@ {
        StatusScheme::Https
    } else if scheme == "http"@ || scheme == "https"@ {
        StatusScheme::Keep
    } else {
        StatusScheme::Unsupported
    }
}

/// The status scheme that belongs to an endpoint scheme.
pub fn status_scheme(scheme: &str) -> (r: StatusScheme)
    ensures
        r == status_scheme_of(scheme@),
{
    if same(scheme, "ws") {
        StatusScheme::Http
    } else if same(scheme, "wss") {
        StatusScheme::Https
    } else if same(scheme, "http") || same(scheme, "https") {
        StatusScheme::Keep
    } else {
        StatusScheme::Unsupported
    }
}

/// `url` with the given scheme, or `url` itself where the scheme is refused.
pub open spec fn with_scheme(url: Seq<char>, scheme: Seq<char>) -> Seq<char> {
    match url_with_scheme(url, scheme) {
        Some(u) => u,
        None => url,
    }
}

/// The status URL of an endpoint: its HTTP form with the path `/status`.
pub open spec fn status_url_of(endpoint: (Seq<char>, Seq<char>)) -> Option<Seq<char>> {
    match status_scheme_of(endpoint.1) {
        StatusScheme::Http => url_with_path(with_scheme(endpoint.0, "http"@), "/status"@),
        StatusScheme::Https => url_with_path(with_scheme(endpoint.0, "https"@), "/status"@),
        StatusScheme::Keep => url_with_path(endpoint.0, "/status"@),
        StatusScheme::Unsupported => None,
    }
}

/// The fields of a configuration are those it was made of.
pub open spec fn config_of(
    c: ClientConfig,
    shared_secret: Option<String>,
    hotkey: String,
    injection: InjectionConfig,
    connect_timeout_ms: u64,
) -> bool {
    &&& c.shared_secret == shared_secret
    &&& c.hotkey == hotkey
    &&& c.ydotool_path == injection.ydotool_path
    &&& c.uinput_dwell_ms == injection.uinput_dwell_ms
    &&& c.injection_mode == injection.injection_mode
    &&& c.clipboard == injection.clipboard
    &&& c.connect_timeout_ms == connect_timeout_ms
}

impl ClientConfig {
    /// A configuration for the endpoint that `endpoint` parses to.
    pub fn new(
        endpoint: &str,
        shared_secret: Option<String>,
        hotkey: String,
        injection: InjectionConfig,
        connect_timeout_ms: u64,
    ) -> (r: Result<ClientConfig, ConfigError>)
        ensures
            match url_parsed(endpoint@) {
                Ok(parsed) => r matches Ok(c) && c.endpoint@ == parsed && config_of(
                    c,
                    shared_secret,
                    hotkey,
                    injection,
                    connect_timeout_ms,
                ),
                Err(message) => r matches Err(ConfigError::InvalidEndpoint {
                    endpoint: e,
                    cause,
                }) && e@ == endpoint@ && cause@ == message,
            },
    {
        let parsed = parse_url(endpoint);
        ClientConfig::with_parsed_endpoint(
            endpoint,
            parsed,
            shared_secret,
            hotkey,
            injection,
            connect_timeout_ms,
        )
    }

    /// A configuration for an endpoint that has been parsed, or the error of the parse.
    pub fn with_parsed_endpoint(
        endpoint: &str,
        parsed: Result<Endpoint, String>,
        shared_secret: Option<String>,
        hotkey: String,
        injection: InjectionConfig,
        connect_timeout_ms: u64,
    ) -> (r: Result<ClientConfig, ConfigError>)
        ensures
            match endpoint_view(parsed) {
                Ok(p) => r matches Ok(c) && c.endpoint@ == p && config_of(
                    c,
                    shared_secret,
                    hotkey,
                    injection,
                    connect_timeout_ms,
                ),
                Err(message) => r matches Err(ConfigError::InvalidEndpoint {
                    endpoint: e,
                    cause,
                }) && e@ == endpoint@ && cause@ == message,
            },
    {
        match parsed {
            Ok(p) => Ok(
                ClientConfig {
                    endpoint: p,
                    shared_secret,
                    hotkey,
                    ydotool_path: injection.ydotool_path,
                    uinput_dwell_ms: injection.uinput_dwell_ms,
                    injection_mode: injection.injection_mode,
                    clipboard: injection.clipboard,
                    connect_timeout_ms,
                },
            ),
            Err(cause) => Err(
                ConfigError::InvalidEndpoint { endpoint: endpoint.to_owned(), cause },
            ),
        }
    }

    /// The URL at which the daemon reports its status.
    pub fn status_url(&self) -> (r: Option<String>)
        ensures
            opt_string(r) == status_url_of(self.endpoint@),
    {
        let base: String = match status_scheme(self.endpoint.scheme.as_str()) {
            StatusScheme::Http => match set_scheme(self.endpoint.text.as_str(), "http") {
                Some(u) => u,
                None => self.endpoint.text.as_str().to_owned(),
            },
            StatusScheme::Https => match set_scheme(self.endpoint.text.as_str(), "https") {
                Some(u) => u,
                None => self.endpoint.text.as_str().to_owned(),
            },
            StatusScheme::Keep => self.endpoint.text.as_str().to_owned(),
            StatusScheme::Unsupported => {
                return None;
            },
        };
        set_path(base.as_str(), "/status")
    }

    /// What to ask the server for: the endpoint, and the shared secret as a header where it
    /// can be one.
    pub fn build_request(&self) -> (r: Result<RequestPlan, ConfigError>)
        ensures
            match r {
                Ok(plan) => plan.url@ == self.endpoint.text@ && opt_string(plan.secret)
                    == opt_string(self.shared_secret) && (self.shared_secret is Some
                    ==> header_text(self.shared_secret->0@)),
                Err(e) => e == ConfigError::SharedSecretHeader && self.shared_secret is Some
                    && !header_text(self.shared_secret->0@),
            },
    {
        let url: String = self.endpoint.text.as_str().to_owned();
        match &self.shared_secret {
            None => Ok(RequestPlan { url, secret: None }),
            Some(secret) => {
                if header_accepts(secret.as_str()) {
                    Ok(RequestPlan { url, secret: Some(secret.as_str().to_owned()) })
                } else {
                    Err(ConfigError::SharedSecretHeader)
                }
            },
        }
    }
}

// ---- what settings mean

/// The overlay is on where the command line says so, or where it says nothing and the environment
/// does; without either it is off.
pub proof fn law_overlay_is_off_unless_wanted(env: Seq<char>)
    ensures
        enable_gate(Some(true), Some(env)) is None,
        enable_gate(Some(false), Some(env)) is Some,
        enable_gate(None, None) is Some,
        bool_override(env) == Some(true) <==> enable_gate(None, Some(env)) is None,
        adaptive_width(Some(true), Some(env)),
        !adaptive_width(Some(false), Some(env)),
        !adaptive_width(None, None),
        adaptive_width(None, Some(env)) <==> bool_override(env) == Some(true),
{
}

/// The best surface that the compositor offers is chosen: a layer, else a window, else none, and
/// the reason of none names what is missing.
pub proof fn law_best_surface_is_chosen(s: OverlayProbeSignals)
    ensures
        classified(s).0 == OverlayMode::LayerShell <==> s.has_layer_shell,
        classified(s).0 == OverlayMode::FallbackWindow <==> !s.has_layer_shell
            && s.has_wl_compositor && s.has_xdg_wm_base,
        classified(s).0 == OverlayMode::Disabled <==> !s.has_layer_shell && !(s.has_wl_compositor
            && s.has_xdg_wm_base),
        missing_protocols(s).contains("wl_compositor"@) || s.has_wl_compositor,
        missing_protocols(s).contains("xdg_wm_base"@) || s.has_xdg_wm_base,
        s.has_wl_compositor && s.has_xdg_wm_base ==> missing_protocols(s).len() == 0,
{
    if !s.has_wl_compositor {
        assert(missing_protocols(s)[0] == "wl_compositor"@);
    }
    if !s.has_xdg_wm_base {
        let n = missing_protocols(s).len();
        assert(missing_protocols(s)[n - 1] == "xdg_wm_base"@);
    }
}

/// An interface that is announced is noted as what it is, and never forgotten.
pub proof fn law_announced_interfaces_are_noted(s: OverlayProbeSignals, interface: Seq<char>)
    ensures
        signals_with(s, interface).has_layer_shell <==> s.has_layer_shell || interface
            == "zwlr_layer_shell_v1"@,
        signals_with(s, interface).has_wl_compositor <==> s.has_wl_compositor || interface
            == "wl_compositor"@,
        signals_with(s, interface).has_xdg_wm_base <==> s.has_xdg_wm_base || interface
            == "xdg_wm_base"@,
{
}

/// A mode that the environment names is taken, white space and case aside; a word that names none
/// switches the overlay off, and a blank one leaves the choice to the probe, whose failure
/// switches it off too.
pub proof fn law_named_mode_is_taken(
    raw: Seq<char>,
    signals: OverlayProbeSignals,
    why: Seq<char>,
)
    ensures
        ({
            let w = lowered(trim(raw));
            let layer = w == "layer-shell"@ || w == "layer_shell"@;
            let window = w == "fallback-window"@ || w == "fallback_window"@;
            let off = w == "disabled"@ || w == "off"@ || w == "none"@;
            &&& mode_override(raw) is Some <==> layer || window || off
            &&& mode_override(raw) matches Some(c) ==> {
                &&& c.0 == OverlayMode::LayerShell ==> layer
                &&& c.0 == OverlayMode::FallbackWindow ==> window
                &&& c.0 == OverlayMode::Disabled ==> off
            }
            &&& trim(raw).len() == 0 ==> probed(Some(raw), Ok(signals)) == classified(signals)
            &&& probed(None, Ok(signals)) == classified(signals)
            &&& probed(None, Err(why)).0 == OverlayMode::Disabled
            &&& trim(raw).len() > 0 && !(layer || window || off) ==> probed(
                Some(raw),
                Ok(signals),
            ).0 == OverlayMode::Disabled
            &&& trim(raw).len() > 0 && (layer || window || off) ==> Some(
                probed(Some(raw), Ok(signals)),
            ) == mode_override(raw)
        }),
{
    crate::text::lemma_trim_idempotent(raw);
}

/// What is wanted and named is what is used: an overlay that is on takes the named mode or what
/// the probe allows, one that is off is disabled for the reason it is off.
pub proof fn law_capability_follows_the_gate(
    cli: Option<bool>,
    enabled_env: Option<Seq<char>>,
    mode_env: Option<Seq<char>>,
    probe: Result<OverlayProbeSignals, Seq<char>>,
)
    ensures
        enable_gate(cli, enabled_env) is None ==> capability(cli, enabled_env, mode_env, probe)
            == probed(mode_env, probe),
        enable_gate(cli, enabled_env) matches Some(why) ==> capability(
            cli,
            enabled_env,
            mode_env,
            probe,
        ) == (OverlayMode::Disabled, why),
{
}

/// The status of a daemon is asked for over HTTP: plainly where the socket is plain, encrypted
/// where it is encrypted, and always at its own path.
pub proof fn law_status_is_asked_over_http(url: Seq<char>, scheme: Seq<char>)
    ensures
        scheme == "ws"@ && url_with_scheme(url, "http"@) is Some ==> status_url_of((url, scheme))
            == url_with_path(url_with_scheme(url, "http"@)->0, "/status"@),
        scheme == "wss"@ && url_with_scheme(url, "https"@) is Some ==> status_url_of((url, scheme))
            == url_with_path(url_with_scheme(url, "https"@)->0, "/status"@),
        scheme == "http"@ || scheme == "https"@ ==> status_url_of((url, scheme)) == url_with_path(
            url,
            "/status"@,
        ),
        scheme != "ws"@ && scheme != "wss"@ && scheme != "http"@ && scheme != "https"@
            ==> status_url_of((url, scheme)) is None,
{
    reveal_strlit("ws");
    reveal_strlit("wss");
    reveal_strlit("http");
    reveal_strlit("https");
    assert("ws"@.len() == 2 && "wss"@.len() == 3 && "http"@.len() == 4 && "https"@.len() == 5);
}

/// A configuration keeps what it was made of.
pub proof fn law_settings_are_kept(
    c: ClientConfig,
    shared_secret: Option<String>,
    hotkey: String,
    injection: InjectionConfig,
    connect_timeout_ms: u64,
)
    requires
        config_of(c, shared_secret, hotkey, injection, connect_timeout_ms),
    ensures
        c.shared_secret == shared_secret,
        c.hotkey == hotkey,
        c.injection_mode == injection.injection_mode,
        c.clipboard == injection.clipboard,
        c.uinput_dwell_ms == injection.uinput_dwell_ms,
        c.ydotool_path == injection.ydotool_path,
        c.connect_timeout_ms == connect_timeout_ms,
{
}

/// Every mode has a name of its own.
pub proof fn law_modes_have_their_names(mode: OverlayMode)
    ensures
        overlay_mode_name(mode) == "layer_shell"@ <==> mode is LayerShell,
        overlay_mode_name(mode) == "fallback_window"@ <==> mode is FallbackWindow,
        overlay_mode_name(mode) == "disabled"@ <==> mode is Disabled,
{
    reveal_strlit("layer_shell");
    reveal_strlit("fallback_window");
    reveal_strlit("disabled");
    assert("layer_shell"@.len() == 11 && "fallback_window"@.len() == 15 && "disabled"@.len() == 8);
}

/// A request goes to the configured address with the configured secret; it is refused just where
/// there is a secret that a header cannot hold.
pub proof fn law_request_carries_the_secret(c: &ClientConfig, r: Result<RequestPlan, ConfigError>)
    requires
        call_ensures(ClientConfig::build_request, (c,), r),
    ensures
        r is Err <==> (c.shared_secret matches Some(secret) && !header_text(secret@)),
        r matches Ok(plan) ==> plan.url@ == c.endpoint.text@ && (plan.secret is Some
            <==> c.shared_secret is Some) && (c.shared_secret matches Some(secret)
            ==> plan.secret->0@ == secret@),
{
}

} // verus!
