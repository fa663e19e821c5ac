//! Injection of text through the clipboard and a paste chord: what is decided on the way.
use vstd::prelude::*;

use std::collections::hash_map::DefaultHasher;
use std::hash::Hasher;

use vstd::std_specs::hash::DefaultHasherAdditionalSpecFns;
use vstd::string::StringSliceAdditionalSpecFns;
use vstd::utf8::encode_utf8;

use crate::config::PasteShortcut;
use crate::protocol::SessionId;
use crate::surface_focus::{FocusResolutionOutcome, FocusSnapshot, ParentFocusCapture};
use crate::text::{
    cat2, chars_of, contains, decimal, first_chars, hex, holds_text, join, joined, opt_string,
    print_hex, print_u64, same, texts,
};

verus! {

/// MIME type used for all clipboard writes.
pub const CLIPBOARD_MIME_TYPE: &'static str = "text/plain;charset=utf-8";

/// How long a helper command may run.
pub const INJECTOR_CHILD_COMMAND_TIMEOUT_MS: u64 = 1_000;

/// How often a running helper command is looked at.
pub const INJECTOR_SUBPROCESS_POLL_INTERVAL_MS: u64 = 5;

/// The environment variable that carries an injection's context.
pub const INJECTOR_CONTEXT_ENV: &'static str = "PARAKEET_INJECT_CONTEXT_JSON";

/// What a line on standard error starts with where it holds a report.
pub const INJECTOR_REPORT_PREFIX: &'static str = "PARAKEET_INJECT_REPORT ";

/// How long the clipboard may take to show the requested text.
pub const CLIPBOARD_READY_TIMEOUT_MS: u64 = 250;

/// What an injection knows of the session it belongs to.
#[derive(Debug)]
pub struct InjectorContext {
    pub session_id: SessionId,
    pub origin: String,
    pub hotkey_up_elapsed_ms_at_enqueue: Option<u64>,
    pub stop_message_elapsed_ms_at_enqueue: Option<u64>,
    pub parent_focus: Option<ParentFocusCapture>,
}

/// One attempt to send a paste chord.
#[derive(Debug)]
pub struct BackendAttemptReport {
    pub route_attempt_name: String,
    pub route_attempt_index: usize,
    pub route_attempt_total: usize,
    pub backend: String,
    pub backend_attempt_index: usize,
    pub backend_attempt_total: usize,
    pub shortcut: String,
    pub status: String,
    pub duration_ms: u64,
    pub exit_status: Option<String>,
    pub stderr_excerpt: Option<String>,
    pub warning_tags: Vec<String>,
    pub backend_config: Option<String>,
    pub error: Option<String>,
    pub uinput_sender_generation: Option<u64>,
    pub uinput_fresh_device: Option<bool>,
    pub uinput_device_age_ms_at_attempt: Option<u64>,
    pub uinput_use_count_before_attempt: Option<u64>,
    pub uinput_created_this_job: Option<bool>,
    pub uinput_create_elapsed_ms: Option<u64>,
    pub uinput_last_create_error: Option<String>,
    pub uinput_reused_after_failure: Option<bool>,
}

/// What is reported of one injection.
#[derive(Debug)]
pub struct InjectorChildReport {
    pub session_id: Option<SessionId>,
    pub origin: Option<String>,
    pub trace_id: u64,
    pub outcome: String,
    pub requested_len: usize,
    pub requested_fingerprint: String,
    pub clipboard_ready: bool,
    pub clipboard_probe_count: u64,
    pub post_clipboard_matches: Option<bool>,
    pub parent_focus: Option<ParentFocusCapture>,
    pub child_focus_before: Option<FocusSnapshot>,
    pub child_focus_after: Option<FocusSnapshot>,
    pub child_focus_source_selected: String,
    pub child_focus_wayland_cache_age_ms: Option<u64>,
    pub child_focus_wayland_fallback_reason: Option<String>,
    pub route_focus_source: String,
    pub route_class: String,
    pub route_primary: String,
    pub route_adaptive_fallback: Option<String>,
    pub route_reason: String,
    pub backend_attempts: Vec<BackendAttemptReport>,
    pub elapsed_ms_total: u64,
}

/// A stage of an injection.
#[derive(Debug, Clone, Copy, PartialEq, Eq, Structural)]
pub enum InjectionStage {
    ClipboardReady,
    RouteShortcut,
    Backend,
}

impl InjectionStage {
    /// The name of the stage.
    pub fn as_str(self) -> (r: &'static str)
        ensures
            r@ == match self {
                InjectionStage::ClipboardReady => "clipboard_ready"@,
                InjectionStage::RouteShortcut => "route_shortcut"@,
                InjectionStage::Backend => "backend"@,
            },
    {
        match self {
            InjectionStage::ClipboardReady => "clipboard_ready",
            InjectionStage::RouteShortcut => "route_shortcut",
            InjectionStage::Backend => "backend",
        }
    }
}

/// Counters over all injections; they wrap around.
#[derive(Debug, Clone, Copy, PartialEq, Eq, Structural)]
pub struct InjectorMetrics {
    pub clipboard_ready_success_total: u64,
    pub clipboard_ready_failure_total: u64,
    pub clipboard_ready_duration_ms_total: u64,
    pub route_shortcut_success_total: u64,
    pub route_shortcut_failure_total: u64,
    pub route_shortcut_duration_ms_total: u64,
    pub backend_success_total: u64,
    pub backend_failure_total: u64,
    pub backend_duration_ms_total: u64,
    pub wl_copy_spawn_total: u64,
    pub wl_paste_spawn_total: u64,
}

/// The counters at one moment.
#[derive(Debug, Clone, Copy, PartialEq, Eq, Structural)]
pub struct InjectorMetricsSnapshot {
    pub clipboard_ready_success_total: u64,
    pub clipboard_ready_failure_total: u64,
    pub clipboard_ready_duration_ms_total: u64,
    pub route_shortcut_success_total: u64,
    pub route_shortcut_failure_total: u64,
    pub route_shortcut_duration_ms_total: u64,
    pub backend_success_total: u64,
    pub backend_failure_total: u64,
    pub backend_duration_ms_total: u64,
    pub wl_copy_spawn_total: u64,
    pub wl_paste_spawn_total: u64,
}

impl Default for InjectorMetrics {
    /// All counters at zero.
    fn default() -> (r: InjectorMetrics)
        ensures
            r == no_injections(),
    {
        InjectorMetrics {
            clipboard_ready_success_total: 0,
            clipboard_ready_failure_total: 0,
            clipboard_ready_duration_ms_total: 0,
            route_shortcut_success_total: 0,
            route_shortcut_failure_total: 0,
            route_shortcut_duration_ms_total: 0,
            backend_success_total: 0,
            backend_failure_total: 0,
            backend_duration_ms_total: 0,
            wl_copy_spawn_total: 0,
            wl_paste_spawn_total: 0,
        }
    }
}

/// All counters at zero.
pub open spec fn no_injections() -> InjectorMetrics {
    InjectorMetrics {
        clipboard_ready_success_total: 0,
        clipboard_ready_failure_total: 0,
        clipboard_ready_duration_ms_total: 0,
        route_shortcut_success_total: 0,
        route_shortcut_failure_total: 0,
        route_shortcut_duration_ms_total: 0,
        backend_success_total: 0,
        backend_failure_total: 0,
        backend_duration_ms_total: 0,
        wl_copy_spawn_total: 0,
        wl_paste_spawn_total: 0,
    }
}

/// The sum of a counter and an amount, as a counter that wraps around holds it.
pub open spec fn counted(total: u64, amount: u64) -> u64 {
    ((total + amount) % 0x1_0000_0000_0000_0000) as u64
}

/// `total` and `amount` together, wrapping around.
pub fn count(total: u64, amount: u64) -> (r: u64)
    ensures
        r == counted(total, amount),
{
    total.wrapping_add(amount)
}

/// The counters after a stage has ended.
pub open spec fn stage_counted(
    m: InjectorMetrics,
    stage: InjectionStage,
    duration_ms: u64,
    success: bool,
) -> InjectorMetrics {
    let won = if success { 1u64 } else { 0u64 };
    let lost = if success { 0u64 } else { 1u64 };
    match stage {
        InjectionStage::ClipboardReady => InjectorMetrics {
            clipboard_ready_success_total: counted(m.clipboard_ready_success_total, won),
            clipboard_ready_failure_total: counted(m.clipboard_ready_failure_total, lost),
            clipboard_ready_duration_ms_total: counted(
                m.clipboard_ready_duration_ms_total,
                duration_ms,
            ),
            ..m
        },
        InjectionStage::RouteShortcut => InjectorMetrics {
            route_shortcut_success_total: counted(m.route_shortcut_success_total, won),
            route_shortcut_failure_total: counted(m.route_shortcut_failure_total, lost),
            route_shortcut_duration_ms_total: counted(
                m.route_shortcut_duration_ms_total,
                duration_ms,
            ),
            ..m
        },
        InjectionStage::Backend => InjectorMetrics {
            backend_success_total: counted(m.backend_success_total, won),
            backend_failure_total: counted(m.backend_failure_total, lost),
            backend_duration_ms_total: counted(m.backend_duration_ms_total, duration_ms),
            ..m
        },
    }
}

impl InjectorMetrics {
    /// Counts a stage that succeeded.
    pub fn note_stage_success(&mut self, stage: InjectionStage, duration_ms: u64)
        ensures
            *final(self) == stage_counted(*old(self), stage, duration_ms, true),
    {
        match stage {
            InjectionStage::ClipboardReady => {
                self.clipboard_ready_success_total = count(self.clipboard_ready_success_total, 1);
                self.clipboard_ready_duration_ms_total =
                count(self.clipboard_ready_duration_ms_total, duration_ms);
            },
            InjectionStage::RouteShortcut => {
                self.route_shortcut_success_total = count(self.route_shortcut_success_total, 1);
                self.route_shortcut_duration_ms_total =
                count(self.route_shortcut_duration_ms_total, duration_ms);
            },
            InjectionStage::Backend => {
                self.backend_success_total = count(self.backend_success_total, 1);
                self.backend_duration_ms_total =
                count(self.backend_duration_ms_total, duration_ms);
            },
        }
    }

    /// Counts a stage that failed.
    pub fn note_stage_failure(&mut self, stage: InjectionStage, duration_ms: u64)
        ensures
            *final(self) == stage_counted(*old(self), stage, duration_ms, false),
    {
        match stage {
            InjectionStage::ClipboardReady => {
                self.clipboard_ready_failure_total = count(self.clipboard_ready_failure_total, 1);
                self.clipboard_ready_duration_ms_total =
                count(self.clipboard_ready_duration_ms_total, duration_ms);
            },
            InjectionStage::RouteShortcut => {
                self.route_shortcut_failure_total = count(self.route_shortcut_failure_total, 1);
                self.route_shortcut_duration_ms_total =
                count(self.route_shortcut_duration_ms_total, duration_ms);
            },
            InjectionStage::Backend => {
                self.backend_failure_total = count(self.backend_failure_total, 1);
                self.backend_duration_ms_total =
                count(self.backend_duration_ms_total, duration_ms);
            },
        }
    }

    /// Counts a launch of `wl-copy`.
    pub fn note_copy_launch(&mut self)
        ensures
            *final(self) == news_counted(*old(self), InjectorNews::CopyLaunched),
    {
        self.wl_copy_spawn_total = count(self.wl_copy_spawn_total, 1);
    }

    /// Counts a launch of `wl-paste`.
    pub fn note_paste_launch(&mut self)
        ensures
            *final(self) == news_counted(*old(self), InjectorNews::PasteLaunched),
    {
        self.wl_paste_spawn_total = count(self.wl_paste_spawn_total, 1);
    }

    /// The counters now.
    pub fn snapshot(&self) -> (r: InjectorMetricsSnapshot)
        ensures
            r == snapshot_of(*self),
    {
        InjectorMetricsSnapshot {
            clipboard_ready_success_total: self.clipboard_ready_success_total,
            clipboard_ready_failure_total: self.clipboard_ready_failure_total,
            clipboard_ready_duration_ms_total: self.clipboard_ready_duration_ms_total,
            route_shortcut_success_total: self.route_shortcut_success_total,
            route_shortcut_failure_total: self.route_shortcut_failure_total,
            route_shortcut_duration_ms_total: self.route_shortcut_duration_ms_total,
            backend_success_total: self.backend_success_total,
            backend_failure_total: self.backend_failure_total,
            backend_duration_ms_total: self.backend_duration_ms_total,
            wl_copy_spawn_total: self.wl_copy_spawn_total,
            wl_paste_spawn_total: self.wl_paste_spawn_total,
        }
    }
}

/// The counters of `m`, as a snapshot.
pub open spec fn snapshot_of(m: InjectorMetrics) -> InjectorMetricsSnapshot {
    InjectorMetricsSnapshot {
        clipboard_ready_success_total: m.clipboard_ready_success_total,
        clipboard_ready_failure_total: m.clipboard_ready_failure_total,
        clipboard_ready_duration_ms_total: m.clipboard_ready_duration_ms_total,
        route_shortcut_success_total: m.route_shortcut_success_total,
        route_shortcut_failure_total: m.route_shortcut_failure_total,
        route_shortcut_duration_ms_total: m.route_shortcut_duration_ms_total,
        backend_success_total: m.backend_success_total,
        backend_failure_total: m.backend_failure_total,
        backend_duration_ms_total: m.backend_duration_ms_total,
        wl_copy_spawn_total: m.wl_copy_spawn_total,
        wl_paste_spawn_total: m.wl_paste_spawn_total,
    }
}

/// Something that is counted.
pub enum InjectorNews {
    StageEnded { stage: InjectionStage, duration_ms: u64, success: bool },
    CopyLaunched,
    PasteLaunched,
}

/// The counters after something that is counted.
pub open spec fn news_counted(m: InjectorMetrics, news: InjectorNews) -> InjectorMetrics {
    match news {
        InjectorNews::StageEnded { stage, duration_ms, success } => stage_counted(
            m,
            stage,
            duration_ms,
            success,
        ),
        InjectorNews::CopyLaunched => InjectorMetrics {
            wl_copy_spawn_total: counted(m.wl_copy_spawn_total, 1),
            ..m
        },
        InjectorNews::PasteLaunched => InjectorMetrics {
            wl_paste_spawn_total: counted(m.wl_paste_spawn_total, 1),
            ..m
        },
    }
}

/// The counters after all that is counted from `from` on.
pub open spec fn all_counted(
    m: InjectorMetrics,
    news: Seq<InjectorNews>,
    from: int,
) -> InjectorMetrics
    decreases news.len() - from,
{
    if from >= news.len() {
        m
    } else {
        all_counted(news_counted(m, news[from]), news, from + 1)
    }
}

/// Whether no counter wraps around when something is counted.
pub open spec fn counts_without_wrap(m: InjectorMetrics, news: InjectorNews) -> bool {
    match news {
        InjectorNews::StageEnded { stage, duration_ms, success } => {
            let (won, lost, spent) = match stage {
                InjectionStage::ClipboardReady => (
                    m.clipboard_ready_success_total,
                    m.clipboard_ready_failure_total,
                    m.clipboard_ready_duration_ms_total,
                ),
                InjectionStage::RouteShortcut => (
                    m.route_shortcut_success_total,
                    m.route_shortcut_failure_total,
                    m.route_shortcut_duration_ms_total,
                ),
                InjectionStage::Backend => (
                    m.backend_success_total,
                    m.backend_failure_total,
                    m.backend_duration_ms_total,
                ),
            };
            &&& success ==> won < u64::MAX
            &&& !success ==> lost < u64::MAX
            &&& spent + duration_ms <= u64::MAX
        },
        InjectorNews::CopyLaunched => m.wl_copy_spawn_total < u64::MAX,
        InjectorNews::PasteLaunched => m.wl_paste_spawn_total < u64::MAX,
    }
}

/// Whether no counter wraps around over all that is counted from `from` on.
pub open spec fn all_count_without_wrap(
    m: InjectorMetrics,
    news: Seq<InjectorNews>,
    from: int,
) -> bool
    decreases news.len() - from,
{
    from >= news.len() || counts_without_wrap(m, news[from]) && all_count_without_wrap(
        news_counted(m, news[from]),
        news,
        from + 1,
    )
}

/// Whether every counter of a snapshot is at least that of another.
pub open spec fn at_least(a: InjectorMetricsSnapshot, b: InjectorMetricsSnapshot) -> bool {
    &&& a.clipboard_ready_success_total >= b.clipboard_ready_success_total
    &&& a.clipboard_ready_failure_total >= b.clipboard_ready_failure_total
    &&& a.clipboard_ready_duration_ms_total >= b.clipboard_ready_duration_ms_total
    &&& a.route_shortcut_success_total >= b.route_shortcut_success_total
    &&& a.route_shortcut_failure_total >= b.route_shortcut_failure_total
    &&& a.route_shortcut_duration_ms_total >= b.route_shortcut_duration_ms_total
    &&& a.backend_success_total >= b.backend_success_total
    &&& a.backend_failure_total >= b.backend_failure_total
    &&& a.backend_duration_ms_total >= b.backend_duration_ms_total
    &&& a.wl_copy_spawn_total >= b.wl_copy_spawn_total
    &&& a.wl_paste_spawn_total >= b.wl_paste_spawn_total
}

#[verifier::spinoff_prover]
#[verifier::rlimit(40)]
proof fn lemma_counts_never_shrink(m: InjectorMetrics, news: Seq<InjectorNews>, from: int)
    requires
        0 <= from,
        all_count_without_wrap(m, news, from),
    ensures
        at_least(snapshot_of(all_counted(m, news, from)), snapshot_of(m)),
    decreases news.len() - from,
{
    if from < news.len() {
        lemma_counts_never_shrink(news_counted(m, news[from]), news, from + 1);
    }
}

/// While no counter wraps around, a later snapshot is at least an earlier one, field by field;
/// it is the same where nothing was counted in between.
pub proof fn law_later_snapshots_are_not_smaller(m: InjectorMetrics, news: Seq<InjectorNews>)
    requires
        all_count_without_wrap(m, news, 0),
    ensures
        at_least(snapshot_of(all_counted(m, news, 0)), snapshot_of(m)),
        news.len() == 0 ==> snapshot_of(all_counted(m, news, 0)) == snapshot_of(m),
{
    lemma_counts_never_shrink(m, news, 0);
}

/// The counters of the process now.
pub fn injector_metrics_snapshot(metrics: &InjectorMetrics) -> (r: InjectorMetricsSnapshot)
    ensures
        r == snapshot_of(*metrics),
{
    metrics.snapshot()
}

/// Something that puts a text where the user's cursor is.
pub trait TextInjector {
    /// Injects a text; an error is the message of its cause.
    fn inject(&self, text: &str) -> Result<(), String>;
}

/// An injector that always fails with the same message.
#[derive(Debug, Clone)]
pub struct FailInjector {
    message: String,
}

impl FailInjector {
    /// The message that every injection fails with.
    pub closed spec fn spec_message(self) -> Seq<char> {
        self.message@
    }

    /// An injector that fails with `message`.
    pub fn new(message: String) -> (r: FailInjector)
        ensures
            r.spec_message() == message@,
    {
        FailInjector { message }
    }
}

impl TextInjector for FailInjector {
    fn inject(&self, text: &str) -> (r: Result<(), String>)
        ensures
            r matches Err(m) && m@ == self.spec_message(),
    {
        Err(self.message.as_str().to_owned())
    }
}

/// What is known of the virtual keyboard when a chord is sent through it.
#[derive(Debug, PartialEq, Eq)]
pub struct UinputAttemptMetadata {
    pub generation: u64,
    pub fresh_device: bool,
    pub device_age_ms_at_attempt: u64,
    pub use_count_before_attempt: u64,
    pub created_this_job: bool,
    pub create_elapsed_ms: Option<u64>,
    pub last_create_error: Option<String>,
    pub reused_after_failure: bool,
}

/// Something that sends a paste chord.
pub trait PasteChordSender {
    /// Sends the chord; an error is the message of its cause.
    fn send_shortcut(&self, shortcut: PasteShortcut) -> Result<(), String>;

    /// How the sender is configured, for reports.
    fn backend_config(&self) -> Option<String>;
}

/// The way a paste chord is sent, if there is one.
#[derive(Debug)]
pub enum PasteKeySender<S> {
    Uinput { sender: S, metadata: Option<UinputAttemptMetadata> },
    Disabled,
}

/// A key of the keyboard, by its number in Linux's input event codes.
#[derive(Debug, Clone, Copy, PartialEq, Eq, Structural)]
pub struct KeyCode {
    pub code: u16,
}

/// The left control key.
pub const CODE_LEFTCTRL: u16 = 29;

/// The left shift key.
pub const CODE_LEFTSHIFT: u16 = 42;

/// The key `V`.
pub const CODE_V: u16 = 47;

/// The modifiers that are held for a shortcut, in the order in which they go down, and the
/// key that is struck.
pub open spec fn chord_of(shortcut: PasteShortcut) -> (Seq<KeyCode>, KeyCode) {
    match shortcut {
        PasteShortcut::CtrlV => (seq![KeyCode { code: CODE_LEFTCTRL }], KeyCode { code: CODE_V }),
        PasteShortcut::CtrlShiftV => (
            seq![KeyCode { code: CODE_LEFTCTRL }, KeyCode { code: CODE_LEFTSHIFT }],
            KeyCode { code: CODE_V },
        ),
    }
}

/// The modifiers and the key of a shortcut.
pub fn shortcut_plan(shortcut: PasteShortcut) -> (r: (Vec<KeyCode>, KeyCode))
    ensures
        (r.0@, r.1) == chord_of(shortcut),
{
    let mut modifiers: Vec<KeyCode> = Vec::new();
    modifiers.push(KeyCode { code: CODE_LEFTCTRL });
    if shortcut == PasteShortcut::CtrlShiftV {
        modifiers.push(KeyCode { code: CODE_LEFTSHIFT });
    }
    assert(modifiers@ =~= chord_of(shortcut).0);
    (modifiers, KeyCode { code: CODE_V })
}

/// One step of sending a chord.
#[derive(Debug, Clone, Copy, PartialEq, Eq, Structural)]
pub enum ChordStep {
    /// A key goes down (`true`) or up.
    Key { key: KeyCode, down: bool },
    /// The struck key is held.
    Dwell,
}

/// The steps that send a chord: modifiers down, key down, dwell, key up, modifiers up in
/// reverse.
pub open spec fn chord_steps_of(shortcut: PasteShortcut) -> Seq<ChordStep> {
    let (modifiers, key) = chord_of(shortcut);
    let n = modifiers.len();
    Seq::new(n, |i: int| ChordStep::Key { key: modifiers[i], down: true }) + seq![
        ChordStep::Key { key, down: true },
        ChordStep::Dwell,
        ChordStep::Key { key, down: false },
    ] + Seq::new(n, |i: int| ChordStep::Key { key: modifiers[n - 1 - i], down: false })
}

/// The steps that send a chord.
pub fn chord_steps(shortcut: PasteShortcut) -> (r: Vec<ChordStep>)
    ensures
        r@ == chord_steps_of(shortcut),
{
    let (modifiers, key) = shortcut_plan(shortcut);
    let mut steps: Vec<ChordStep> = Vec::new();
    let mut i: usize = 0;
    while i < modifiers.len()
        invariant
            i <= modifiers@.len(),
            steps@ == Seq::new(
                i as nat,
                |k: int| ChordStep::Key { key: modifiers@[k], down: true },
            ),
        decreases modifiers@.len() - i,
    {
        steps.push(ChordStep::Key { key: modifiers[i], down: true });
        i = i + 1;
        assert(steps@ =~= Seq::new(
            i as nat,
            |k: int| ChordStep::Key { key: modifiers@[k], down: true },
        ));
    }
    let ghost downs = steps@;
    steps.push(ChordStep::Key { key, down: true });
    steps.push(ChordStep::Dwell);
    steps.push(ChordStep::Key { key, down: false });
    let ghost middle = seq![
        ChordStep::Key { key, down: true },
        ChordStep::Dwell,
        ChordStep::Key { key, down: false },
    ];
    assert(steps@ =~= downs + middle);
    let ghost n = modifiers@.len();
    let mut left: usize = modifiers.len();
    assert(steps@ =~= downs + middle + Seq::new(
        0,
        |k: int| ChordStep::Key { key: modifiers@[n - 1 - k], down: false },
    ));
    while left > 0
        invariant
            left <= modifiers@.len(),
            n == modifiers@.len(),
            steps@ == downs + middle + Seq::new(
                (n - left) as nat,
                |k: int| ChordStep::Key { key: modifiers@[n - 1 - k], down: false },
            ),
        decreases left,
    {
        left = left - 1;
        steps.push(ChordStep::Key { key: modifiers[left], down: false });
        assert(steps@ =~= downs + middle + Seq::new(
            (n - left) as nat,
            |k: int| ChordStep::Key { key: modifiers@[n - 1 - k], down: false },
        ));
    }
    assert(steps@ =~= chord_steps_of(shortcut));
    steps
}

/// Whether a key goes down in the first `n` steps and not up again.
pub open spec fn held_after(steps: Seq<ChordStep>, n: int, key: KeyCode) -> bool
    decreases n,
{
    if n <= 0 {
        false
    } else {
        match steps[n - 1] {
            ChordStep::Key { key: k, down } => if k == key {
                down
            } else {
                held_after(steps, n - 1, key)
            },
            ChordStep::Dwell => held_after(steps, n - 1, key),
        }
    }
}

/// A chord leaves no key held down.
pub proof fn law_chord_releases_every_key(shortcut: PasteShortcut, key: KeyCode)
    ensures
        !held_after(chord_steps_of(shortcut), chord_steps_of(shortcut).len() as int, key),
{
    reveal_with_fuel(held_after, 8);
    let s = chord_steps_of(shortcut);
    let (modifiers, struck) = chord_of(shortcut);
    match shortcut {
        PasteShortcut::CtrlV => {
            assert(s.len() == 5);
        },
        PasteShortcut::CtrlShiftV => {
            assert(s.len() == 7);
        },
    }
}

/// The name of a shortcut in reports.
pub open spec fn shortcut_text(shortcut: PasteShortcut) -> Seq<char> {
    match shortcut {
        PasteShortcut::CtrlV => "CtrlV"@,
        PasteShortcut::CtrlShiftV => "CtrlShiftV"@,
    }
}

/// The name of a shortcut in reports.
pub fn shortcut_name(shortcut: PasteShortcut) -> (r: String)
    ensures
        r@ == shortcut_text(shortcut),
{
    match shortcut {
        PasteShortcut::CtrlV => "CtrlV".to_owned(),
        PasteShortcut::CtrlShiftV => "CtrlShiftV".to_owned(),
    }
}

/// Which attempt is under way.
#[derive(Debug, Clone, Copy)]
pub struct ShortcutAttemptContext {
    pub route_attempt_name: &'static str,
    pub route_attempt_index: usize,
    pub route_attempt_total: usize,
    pub backend_attempt_index: usize,
    pub backend_attempt_total: usize,
}

/// How an attempt ended.
#[derive(Debug)]
pub struct BackendAttemptOutcome {
    pub status: &'static str,
    pub duration_ms: u64,
    pub exit_status: Option<String>,
    pub stderr_excerpt: Option<String>,
    pub warning_tags: Vec<String>,
    pub backend_config: Option<String>,
    pub error: Option<String>,
    pub uinput_metadata: Option<UinputAttemptMetadata>,
}

/// A report says what it was made of.
pub open spec fn reports_attempt(
    r: BackendAttemptReport,
    attempt: ShortcutAttemptContext,
    backend: Seq<char>,
    shortcut: Seq<char>,
    status: Seq<char>,
    error: Option<Seq<char>>,
    metadata: Option<UinputAttemptMetadata>,
) -> bool {
    &&& r.route_attempt_name@ == attempt.route_attempt_name@
    &&& r.route_attempt_index == attempt.route_attempt_index
    &&& r.route_attempt_total == attempt.route_attempt_total
    &&& r.backend@ == backend
    &&& r.backend_attempt_index == attempt.backend_attempt_index
    &&& r.backend_attempt_total == attempt.backend_attempt_total
    &&& r.shortcut@ == shortcut
    &&& r.status@ == status
    &&& opt_string(r.error) == error
    &&& match metadata {
        Some(m) => {
            &&& r.uinput_sender_generation == Some(m.generation)
            &&& r.uinput_fresh_device == Some(m.fresh_device)
            &&& r.uinput_device_age_ms_at_attempt == Some(m.device_age_ms_at_attempt)
            &&& r.uinput_use_count_before_attempt == Some(m.use_count_before_attempt)
            &&& r.uinput_created_this_job == Some(m.created_this_job)
            &&& r.uinput_create_elapsed_ms == m.create_elapsed_ms
            &&& opt_string(r.uinput_last_create_error) == opt_string(m.last_create_error)
            &&& r.uinput_reused_after_failure == Some(m.reused_after_failure)
        },
        None => {
            &&& r.uinput_sender_generation is None
            &&& r.uinput_fresh_device is None
            &&& r.uinput_device_age_ms_at_attempt is None
            &&& r.uinput_use_count_before_attempt is None
            &&& r.uinput_created_this_job is None
            &&& r.uinput_create_elapsed_ms is None
            &&& r.uinput_last_create_error is None
            &&& r.uinput_reused_after_failure is None
        },
    }
}

/// A copy of an optional string.
pub fn copy_opt(s: &Option<String>) -> (r: Option<String>)
    ensures
        opt_string(r) == opt_string(*s),
{
    match s {
        Some(t) => Some(t.as_str().to_owned()),
        None => None,
    }
}

/// A copy of what is known of the virtual keyboard.
pub fn copy_metadata(m: &UinputAttemptMetadata) -> (r: UinputAttemptMetadata)
    ensures
        same_metadata(r, *m),
{
    UinputAttemptMetadata {
        generation: m.generation,
        fresh_device: m.fresh_device,
        device_age_ms_at_attempt: m.device_age_ms_at_attempt,
        use_count_before_attempt: m.use_count_before_attempt,
        created_this_job: m.created_this_job,
        create_elapsed_ms: m.create_elapsed_ms,
        last_create_error: copy_opt(&m.last_create_error),
        reused_after_failure: m.reused_after_failure,
    }
}

/// Two pieces of metadata say the same.
pub open spec fn same_metadata(a: UinputAttemptMetadata, b: UinputAttemptMetadata) -> bool {
    &&& a.generation == b.generation
    &&& a.fresh_device == b.fresh_device
    &&& a.device_age_ms_at_attempt == b.device_age_ms_at_attempt
    &&& a.use_count_before_attempt == b.use_count_before_attempt
    &&& a.created_this_job == b.created_this_job
    &&& a.create_elapsed_ms == b.create_elapsed_ms
    &&& opt_string(a.last_create_error) == opt_string(b.last_create_error)
    &&& a.reused_after_failure == b.reused_after_failure
}

/// The report of an attempt.
pub fn backend_attempt_report(
    attempt: ShortcutAttemptContext,
    backend_name: &str,
    shortcut_name: &str,
    outcome: BackendAttemptOutcome,
) -> (r: BackendAttemptReport)
    ensures
        reports_attempt(
            r,
            attempt,
            backend_name@,
            shortcut_name@,
            outcome.status@,
            opt_string(outcome.error),
            outcome.uinput_metadata,
        ),
        r.duration_ms == outcome.duration_ms,
        r.exit_status == outcome.exit_status,
        r.stderr_excerpt == outcome.stderr_excerpt,
        r.warning_tags == outcome.warning_tags,
        r.backend_config == outcome.backend_config,
{
    let mut report = BackendAttemptReport {
        route_attempt_name: attempt.route_attempt_name.to_owned(),
        route_attempt_index: attempt.route_attempt_index,
        route_attempt_total: attempt.route_attempt_total,
        backend: backend_name.to_owned(),
        backend_attempt_index: attempt.backend_attempt_index,
        backend_attempt_total: attempt.backend_attempt_total,
        shortcut: shortcut_name.to_owned(),
        status: outcome.status.to_owned(),
        duration_ms: outcome.duration_ms,
        exit_status: outcome.exit_status,
        stderr_excerpt: outcome.stderr_excerpt,
        warning_tags: outcome.warning_tags,
        backend_config: outcome.backend_config,
        error: outcome.error,
        uinput_sender_generation: None,
        uinput_fresh_device: None,
        uinput_device_age_ms_at_attempt: None,
        uinput_use_count_before_attempt: None,
        uinput_created_this_job: None,
        uinput_create_elapsed_ms: None,
        uinput_last_create_error: None,
        uinput_reused_after_failure: None,
    };
    if let Some(meta) = outcome.uinput_metadata {
        report.uinput_sender_generation = Some(meta.generation);
        report.uinput_fresh_device = Some(meta.fresh_device);
        report.uinput_device_age_ms_at_attempt = Some(meta.device_age_ms_at_attempt);
        report.uinput_use_count_before_attempt = Some(meta.use_count_before_attempt);
        report.uinput_created_this_job = Some(meta.created_this_job);
        report.uinput_create_elapsed_ms = meta.create_elapsed_ms;
        report.uinput_last_create_error = meta.last_create_error;
        report.uinput_reused_after_failure = Some(meta.reused_after_failure);
    }
    report
}

/// The message where a chord could not be sent.
pub open spec fn chord_failure(shortcut: PasteShortcut, cause: Seq<char>) -> Seq<char> {
    "stage=backend failed to emit paste key chord "@ + shortcut_text(shortcut) + " via uinput: "@
        + cause
}

/// The message where there is no way to send a chord.
pub open spec fn sender_disabled() -> Seq<char> {
    "stage=backend paste key sender is disabled"@
}

/// The name of a way to send chords.
pub fn sender_name<S>(sender: &PasteKeySender<S>) -> (r: &'static str)
    ensures
        r@ == (if sender is Uinput {
            "uinput"@
        } else {
            "disabled"@
        }),
{
    match sender {
        PasteKeySender::Uinput { .. } => "uinput",
        PasteKeySender::Disabled => "disabled",
    }
}

/// The text of a result that is an error.
pub open spec fn error_text(r: Result<(), String>) -> Option<Seq<char>> {
    match r {
        Ok(_) => None,
        Err(m) => Some(m@),
    }
}

/// The error that an attempt through the virtual keyboard ends with.
pub open spec fn uinput_error(shortcut: PasteShortcut, sent: Result<(), String>) -> Option<
    Seq<char>,
> {
    match sent {
        Ok(_) => None,
        Err(cause) => Some(chord_failure(shortcut, cause@)),
    }
}

/// Notes how sending a chord through the virtual keyboard ended.
pub fn note_uinput_attempt(
    shortcut: PasteShortcut,
    metadata: &Option<UinputAttemptMetadata>,
    backend_config: Option<String>,
    sent: Result<(), String>,
    duration_ms: u64,
    attempt: ShortcutAttemptContext,
    backend_attempts: &mut Vec<BackendAttemptReport>,
    metrics: &mut InjectorMetrics,
) -> (r: Result<(), String>)
    ensures
        error_text(r) == uinput_error(shortcut, sent),
        *final(metrics) == stage_counted(
            *old(metrics),
            InjectionStage::Backend,
            duration_ms,
            sent is Ok,
        ),
        final(backend_attempts)@.len() == old(backend_attempts)@.len() + 1,
        final(backend_attempts)@.drop_last() == old(backend_attempts)@,
        reports_attempt_of(
            final(backend_attempts)@.last(),
            attempt,
            shortcut,
            uinput_error(shortcut, sent),
            *metadata,
        ),
        final(backend_attempts)@.last().duration_ms == duration_ms,
        final(backend_attempts)@.last().backend_config == backend_config,
{
    let name = shortcut_name(shortcut);
    let error: Option<String> = match sent {
        Ok(_) => None,
        Err(cause) => {
            let mut m: String = "stage=backend failed to emit paste key chord ".to_owned();
            m.push_str(name.as_str());
            m.push_str(" via uinput: ");
            m.push_str(cause.as_str());
            Some(m)
        },
    };
    let meta: Option<UinputAttemptMetadata> = match metadata {
        Some(m) => Some(copy_metadata(m)),
        None => None,
    };
    let failed = error.is_some();
    let result: Result<(), String> = match &error {
        Some(m) => Err(m.as_str().to_owned()),
        None => Ok(()),
    };
    let report = backend_attempt_report(
        attempt,
        "uinput",
        name.as_str(),
        BackendAttemptOutcome {
            status: if failed { "error" } else { "ok" },
            duration_ms,
            exit_status: None,
            stderr_excerpt: None,
            warning_tags: Vec::new(),
            backend_config,
            error,
            uinput_metadata: meta,
        },
    );
    let ghost before = backend_attempts@;
    backend_attempts.push(report);
    assert(backend_attempts@.drop_last() =~= before);
    if failed {
        metrics.note_stage_failure(InjectionStage::Backend, duration_ms);
    } else {
        metrics.note_stage_success(InjectionStage::Backend, duration_ms);
    }
    result
}

/// A report of an attempt through the virtual keyboard.
pub open spec fn reports_attempt_of(
    r: BackendAttemptReport,
    attempt: ShortcutAttemptContext,
    shortcut: PasteShortcut,
    error: Option<Seq<char>>,
    metadata: Option<UinputAttemptMetadata>,
) -> bool {
    &&& reports_attempt(
        r,
        attempt,
        "uinput"@,
        shortcut_text(shortcut),
        if error is Some {
            "error"@
        } else {
            "ok"@
        },
        error,
        metadata,
    )
    &&& r.exit_status is None
    &&& r.stderr_excerpt is None
    &&& r.warning_tags@.len() == 0
}

/// A report of an attempt where there is no way to send chords.
pub open spec fn reports_disabled_attempt(
    r: BackendAttemptReport,
    attempt: ShortcutAttemptContext,
    shortcut: PasteShortcut,
) -> bool {
    &&& reports_attempt(
        r,
        attempt,
        "disabled"@,
        shortcut_text(shortcut),
        "error"@,
        Some(sender_disabled()),
        None,
    )
    &&& r.exit_status is None
    &&& r.stderr_excerpt is None
    &&& r.warning_tags@.len() == 0
    &&& r.backend_config is None
}

/// Notes an attempt where there is no way to send chords.
pub fn note_disabled_attempt(
    shortcut: PasteShortcut,
    duration_ms: u64,
    attempt: ShortcutAttemptContext,
    backend_attempts: &mut Vec<BackendAttemptReport>,
    metrics: &mut InjectorMetrics,
) -> (r: Result<(), String>)
    ensures
        error_text(r) == Some(sender_disabled()),
        *final(metrics) == stage_counted(
            *old(metrics),
            InjectionStage::Backend,
            duration_ms,
            false,
        ),
        final(backend_attempts)@.len() == old(backend_attempts)@.len() + 1,
        final(backend_attempts)@.drop_last() == old(backend_attempts)@,
        reports_disabled_attempt(final(backend_attempts)@.last(), attempt, shortcut),
        final(backend_attempts)@.last().duration_ms == duration_ms,
{
    let name = shortcut_name(shortcut);
    let message: String = "stage=backend paste key sender is disabled".to_owned();
    let report = backend_attempt_report(
        attempt,
        "disabled",
        name.as_str(),
        BackendAttemptOutcome {
            status: "error",
            duration_ms,
            exit_status: None,
            stderr_excerpt: None,
            warning_tags: Vec::new(),
            backend_config: None,
            error: Some(message.as_str().to_owned()),
            uinput_metadata: None,
        },
    );
    let ghost before = backend_attempts@;
    backend_attempts.push(report);
    assert(backend_attempts@.drop_last() =~= before);
    metrics.note_stage_failure(InjectionStage::Backend, duration_ms);
    Err(message)
}

/// A point in time of the monotonic clock. It is opaque here.
#[verifier::external_type_specification]
#[verifier::external_body]
pub struct ExInstant(std::time::Instant);

/// The present moment.
///
/// Calls `std::time::Instant::now`. Nothing can be promised of a time.
#[verifier::external_body]
pub(crate) fn instant_now() -> (r: std::time::Instant)
{
    std::time::Instant::now()
}

/// The milliseconds that have passed since a moment.
///
/// Calls `std::time::Instant::elapsed`. Nothing can be promised of a time.
#[verifier::external_body]
pub(crate) fn elapsed_ms(since: &std::time::Instant) -> (r: u64)
{
    since.elapsed().as_millis() as u64
}

/// An attempt was made and reported. With a virtual keyboard the chord was handed to the sender,
/// whose answer is the error of the report; the report holds what is known of the keyboard and
/// how the sender is configured. Without one the report says that there is no way to send.
pub open spec fn attempt_made<S: PasteChordSender>(
    report: BackendAttemptReport,
    attempt: ShortcutAttemptContext,
    shortcut: PasteShortcut,
    sender: PasteKeySender<S>,
) -> bool {
    match sender {
        PasteKeySender::Uinput { sender: s, metadata } => {
            &&& exists|sent: Result<(), String>|
                call_ensures(S::send_shortcut, (&s, shortcut), sent) && opt_string(report.error)
                    == #[trigger] uinput_error(shortcut, sent)
            &&& call_ensures(S::backend_config, (&s,), report.backend_config)
            &&& reports_attempt_of(report, attempt, shortcut, opt_string(report.error), metadata)
        },
        PasteKeySender::Disabled => reports_disabled_attempt(report, attempt, shortcut),
    }
}

/// What one attempt adds: one report, and one success or failure of the backend stage. The
/// error of the report is how the attempt ends.
pub open spec fn one_attempt_added<S: PasteChordSender>(
    before: Seq<BackendAttemptReport>,
    after: Seq<BackendAttemptReport>,
    metrics_before: InjectorMetrics,
    metrics_after: InjectorMetrics,
    attempt: ShortcutAttemptContext,
    shortcut: PasteShortcut,
    sender: PasteKeySender<S>,
    error: Option<Seq<char>>,
) -> bool {
    &&& after.len() == before.len() + 1
    &&& after.drop_last() == before
    &&& attempt_made(after.last(), attempt, shortcut, sender)
    &&& opt_string(after.last().error) == error
    &&& metrics_after == stage_counted(
        metrics_before,
        InjectionStage::Backend,
        after.last().duration_ms,
        error is None,
    )
}

/// Sends one shortcut through a sender and reports the attempt.
///
/// With a virtual keyboard the sender decides; its failure comes back with the stage and the
/// shortcut in front. Without one the attempt fails.
pub fn run_shortcut_with_sender<S: PasteChordSender>(
    shortcut: PasteShortcut,
    sender: &PasteKeySender<S>,
    attempt: ShortcutAttemptContext,
    backend_attempts: &mut Vec<BackendAttemptReport>,
    metrics: &mut InjectorMetrics,
) -> (r: Result<(), String>)
    ensures
        one_attempt_added(
            old(backend_attempts)@,
            final(backend_attempts)@,
            *old(metrics),
            *final(metrics),
            attempt,
            shortcut,
            *sender,
            error_text(r),
        ),
{
    let started = instant_now();
    match sender {
        PasteKeySender::Uinput { sender: s, metadata } => {
            let sent = s.send_shortcut(shortcut);
            let config = s.backend_config();
            let duration_ms: u64 = elapsed_ms(&started);
            note_uinput_attempt(
                shortcut,
                metadata,
                config,
                sent,
                duration_ms,
                attempt,
                backend_attempts,
                metrics,
            )
        },
        PasteKeySender::Disabled => {
            let duration_ms: u64 = elapsed_ms(&started);
            note_disabled_attempt(shortcut, duration_ms, attempt, backend_attempts, metrics)
        },
    }
}

/// The context of the only backend attempt of a route attempt.
pub open spec fn route_context(name: &'static str, index: usize, total: usize) ->
    ShortcutAttemptContext {
    ShortcutAttemptContext {
        route_attempt_name: name,
        route_attempt_index: index,
        route_attempt_total: total,
        backend_attempt_index: 1,
        backend_attempt_total: 1,
    }
}

/// Sends one shortcut of a route.
pub fn run_shortcut_for_route<S: PasteChordSender>(
    route_attempt_name: &'static str,
    route_attempt_index: usize,
    route_attempt_total: usize,
    shortcut: PasteShortcut,
    sender: &PasteKeySender<S>,
    backend_attempts: &mut Vec<BackendAttemptReport>,
    metrics: &mut InjectorMetrics,
) -> (r: Result<(), String>)
    ensures
        one_attempt_added(
            old(backend_attempts)@,
            final(backend_attempts)@,
            *old(metrics),
            *final(metrics),
            route_context(route_attempt_name, route_attempt_index, route_attempt_total),
            shortcut,
            *sender,
            error_text(r),
        ),
{
    run_shortcut_with_sender(
        shortcut,
        sender,
        ShortcutAttemptContext {
            route_attempt_name,
            route_attempt_index,
            route_attempt_total,
            backend_attempt_index: 1,
            backend_attempt_total: 1,
        },
        backend_attempts,
        metrics,
    )
}

/// What is said of one failed attempt of a route.
pub open spec fn route_error(name: Seq<char>, shortcut: PasteShortcut, error: Seq<char>) -> Seq<
    char,
> {
    name + "("@ + shortcut_text(shortcut) + "): "@ + error
}

/// What is said of one failed attempt of a route.
fn route_error_text(name: &str, shortcut: PasteShortcut, error: &str) -> (r: String)
    ensures
        r@ == route_error(name@, shortcut, error@),
{
    let shortcut_text = shortcut_name(shortcut);
    let mut out: String = name.to_owned();
    out.push_str("(");
    out.push_str(shortcut_text.as_str());
    out.push_str("): ");
    out.push_str(error);
    out
}

/// The message where every attempt of a route failed.
pub open spec fn route_failure(errors: Seq<Seq<char>>) -> Seq<char> {
    "stage=route_shortcut all route shortcut attempts failed: "@ + joined(errors, " | "@)
}

/// The message of a route where there is no way to send chords.
pub open spec fn disabled_route(primary: PasteShortcut, fallback: Option<PasteShortcut>) -> Seq<
    char,
> {
    let first = route_error("primary"@, primary, sender_disabled());
    route_failure(
        match fallback {
            None => seq![first],
            Some(shortcut) => seq![
                first,
                route_error("adaptive_fallback"@, shortcut, sender_disabled()),
            ],
        },
    )
}

/// What the attempts of a route add to the reports, and how the route ends: the primary
/// shortcut is sent first, the fallback only where the primary failed, each with a report of
/// its own, and a failure names every attempt where none succeeded.
pub open spec fn route_attempts_added<S: PasteChordSender>(
    before: Seq<BackendAttemptReport>,
    after: Seq<BackendAttemptReport>,
    primary: PasteShortcut,
    fallback: Option<PasteShortcut>,
    sender: PasteKeySender<S>,
    result: Option<Seq<char>>,
) -> bool {
    let n = before.len() as int;
    let total = if fallback is Some { 2usize } else { 1usize };
    let first = after[n];
    &&& after.len() > n
    &&& after.take(n) == before
    &&& attempt_made(first, route_context("primary", 1, total), primary, sender)
    &&& match first.error {
        None => after.len() == n + 1 && result is None,
        Some(e1) => match fallback {
            None => {
                &&& after.len() == n + 1
                &&& result == Some(
                    route_failure(seq![route_error("primary"@, primary, e1@)]),
                )
            },
            Some(shortcut) => {
                let second = after[n + 1];
                &&& after.len() == n + 2
                &&& attempt_made(
                    second,
                    route_context("adaptive_fallback", 2, total),
                    shortcut,
                    sender,
                )
                &&& match second.error {
                    None => result is None,
                    Some(e2) => result == Some(
                        route_failure(
                            seq![
                                route_error("primary"@, primary, e1@),
                                route_error("adaptive_fallback"@, shortcut, e2@),
                            ],
                        ),
                    ),
                }
            },
        },
    }
}

/// The counters after the attempts from `from` on.
pub open spec fn attempts_counted(
    m: InjectorMetrics,
    reports: Seq<BackendAttemptReport>,
    from: int,
) -> InjectorMetrics
    decreases reports.len() - from,
{
    if from >= reports.len() {
        m
    } else {
        attempts_counted(
            stage_counted(
                m,
                InjectionStage::Backend,
                reports[from].duration_ms,
                reports[from].error is None,
            ),
            reports,
            from + 1,
        )
    }
}

/// The count over one attempt.
proof fn lemma_one_attempt_counted(m: InjectorMetrics, reports: Seq<BackendAttemptReport>, n: int)
    requires
        reports.len() == n + 1,
    ensures
        attempts_counted(m, reports, n) == stage_counted(
            m,
            InjectionStage::Backend,
            reports[n].duration_ms,
            reports[n].error is None,
        ),
{
    reveal_with_fuel(attempts_counted, 2);
}

/// The count over two attempts.
proof fn lemma_two_attempts_counted(m: InjectorMetrics, reports: Seq<BackendAttemptReport>, n: int)
    requires
        reports.len() == n + 2,
    ensures
        attempts_counted(m, reports, n) == stage_counted(
            stage_counted(
                m,
                InjectionStage::Backend,
                reports[n].duration_ms,
                reports[n].error is None,
            ),
            InjectionStage::Backend,
            reports[n + 1].duration_ms,
            reports[n + 1].error is None,
        ),
{
    reveal_with_fuel(attempts_counted, 3);
}

/// Sends the shortcuts of a route until one succeeds.
#[verifier::rlimit(40)]
pub fn run_route_shortcuts<S: PasteChordSender>(
    primary: PasteShortcut,
    adaptive_fallback: Option<PasteShortcut>,
    sender: &PasteKeySender<S>,
    backend_attempts: &mut Vec<BackendAttemptReport>,
    metrics: &mut InjectorMetrics,
) -> (r: Result<(), String>)
    ensures
        route_attempts_added(
            old(backend_attempts)@,
            final(backend_attempts)@,
            primary,
            adaptive_fallback,
            *sender,
            error_text(r),
        ),
        sender is Disabled ==> error_text(r) == Some(disabled_route(primary, adaptive_fallback)),
        exists|duration_ms: u64| *final(metrics) == #[trigger] stage_counted(
            attempts_counted(
                *old(metrics),
                final(backend_attempts)@,
                old(backend_attempts)@.len() as int,
            ),
            InjectionStage::RouteShortcut,
            duration_ms,
            r is Ok,
        ),
{
    let ghost before = backend_attempts@;
    let ghost m0 = *metrics;
    let ghost n = before.len() as int;
    let started = instant_now();
    let total: usize = if adaptive_fallback.is_some() {
        2
    } else {
        1
    };
    let mut errors: Vec<String> = Vec::new();
    let first = run_shortcut_for_route(
        "primary",
        1,
        total,
        primary,
        sender,
        backend_attempts,
        metrics,
    );
    let ghost after1 = backend_attempts@;
    assert(after1.take(n) =~= before);
    proof {
        lemma_one_attempt_counted(m0, after1, n);
    }
    let ghost m1 = *metrics;
    assert(m1 == attempts_counted(m0, after1, n));
    match first {
        Ok(_) => {
            let duration_ms: u64 = elapsed_ms(&started);
            metrics.note_stage_success(InjectionStage::RouteShortcut, duration_ms);
            return Ok(());
        },
        Err(e) => {
            let text = route_error_text("primary", primary, e.as_str());
            errors.push(text);
        },
    }
    if let Some(shortcut) = adaptive_fallback {
        let second = run_shortcut_for_route(
            "adaptive_fallback",
            2,
            total,
            shortcut,
            sender,
            backend_attempts,
            metrics,
        );
        let ghost after2 = backend_attempts@;
        assert(after2[n] == after2.drop_last()[n]);
        assert(after2.take(n) =~= after1.take(n));
        proof {
            lemma_two_attempts_counted(m0, after2, n);
        }
        assert(*metrics == attempts_counted(m0, after2, n));
        match second {
            Ok(_) => {
                let duration_ms: u64 = elapsed_ms(&started);
                metrics.note_stage_success(InjectionStage::RouteShortcut, duration_ms);
                return Ok(());
            },
            Err(e) => {
                let text = route_error_text("adaptive_fallback", shortcut, e.as_str());
                errors.push(text);
            },
        }
    }
    proof {
        let e1 = after1.last().error->0@;
        if adaptive_fallback is Some {
            assert(texts(errors@) =~= seq![
                route_error("primary"@, primary, e1),
                route_error(
                    "adaptive_fallback"@,
                    adaptive_fallback->0,
                    backend_attempts@.last().error->0@,
                ),
            ]);
        } else {
            assert(texts(errors@) =~= seq![route_error("primary"@, primary, e1)]);
        }
    }
    let list = join(&errors, " | ");
    let message = cat2(
        "stage=route_shortcut all route shortcut attempts failed: ",
        list.as_str(),
    );
    let duration_ms: u64 = elapsed_ms(&started);
    assert(*metrics == attempts_counted(m0, backend_attempts@, n));
    metrics.note_stage_failure(InjectionStage::RouteShortcut, duration_ms);
    Err(message)
}

/// The stage that a failed route is logged under.
pub fn failure_stage(error: &str) -> (r: InjectionStage)
    ensures
        r == (if holds_text(error@, "stage=backend"@) {
            InjectionStage::Backend
        } else {
            InjectionStage::RouteShortcut
        }),
{
    if contains(error, "stage=backend") {
        InjectionStage::Backend
    } else {
        InjectionStage::RouteShortcut
    }
}

/// The shortcuts that suit a focused surface.
#[derive(Debug, PartialEq, Eq)]
pub struct RouteDecision {
    /// The name of the class of surface.
    pub class: String,
    pub primary: PasteShortcut,
    pub adaptive_fallback: Option<PasteShortcut>,
    pub low_confidence: bool,
    pub reason: String,
}

/// The route that an injection takes, as it is reported.
#[derive(Debug, PartialEq, Eq)]
pub struct RouteChoice {
    pub focus_source: String,
    pub class: String,
    pub primary: PasteShortcut,
    pub adaptive_fallback: Option<PasteShortcut>,
    pub reason: String,
}

/// What is reported of the route before one is chosen.
pub fn no_route() -> (r: RouteChoice)
    ensures
        r.focus_source@ == "not_selected"@,
        r.class@ == "Unknown"@,
        r.primary == PasteShortcut::CtrlShiftV,
        r.adaptive_fallback == Some(PasteShortcut::CtrlV),
        r.reason@ == "not_routed"@,
{
    RouteChoice {
        focus_source: "not_selected".to_owned(),
        class: "Unknown".to_owned(),
        primary: PasteShortcut::CtrlShiftV,
        adaptive_fallback: Some(PasteShortcut::CtrlV),
        reason: "not_routed".to_owned(),
    }
}

/// Chooses the route: a forced shortcut alone, else what was decided for the focused surface.
pub fn choose_route(
    forced_shortcut: Option<PasteShortcut>,
    focus_source_selected: &str,
    decision: RouteDecision,
) -> (r: RouteChoice)
    ensures
        match forced_shortcut {
            Some(shortcut) => {
                &&& r.focus_source@ == "forced_shortcut"@
                &&& r.class@ == "Forced"@
                &&& r.primary == shortcut
                &&& r.adaptive_fallback is None
                &&& r.reason@ == "forced_diagnostic_shortcut"@
            },
            None => {
                &&& r.focus_source@ == focus_source_selected@
                &&& r.class == decision.class
                &&& r.primary == decision.primary
                &&& r.adaptive_fallback == decision.adaptive_fallback
                &&& r.reason == decision.reason
            },
        },
{
    match forced_shortcut {
        Some(shortcut) => RouteChoice {
            focus_source: "forced_shortcut".to_owned(),
            class: "Forced".to_owned(),
            primary: shortcut,
            adaptive_fallback: None,
            reason: "forced_diagnostic_shortcut".to_owned(),
        },
        None => RouteChoice {
            focus_source: focus_source_selected.to_owned(),
            class: decision.class,
            primary: decision.primary,
            adaptive_fallback: decision.adaptive_fallback,
            reason: decision.reason,
        },
    }
}

/// How an injection ended.
#[derive(Debug, Clone, Copy, PartialEq, Eq, Structural)]
pub enum InjectionOutcome {
    SuccessAssumed,
    ClipboardNotReady,
    ChordFailed,
    NoEffectSuspected,
    CopyOnly,
}

/// The name of an outcome in reports.
pub open spec fn outcome_text(outcome: InjectionOutcome) -> Seq<char> {
    match outcome {
        InjectionOutcome::SuccessAssumed => "success_assumed"@,
        InjectionOutcome::ClipboardNotReady => "clipboard_not_ready"@,
        InjectionOutcome::ChordFailed => "chord_failed"@,
        InjectionOutcome::NoEffectSuspected => "no_effect_suspected"@,
        InjectionOutcome::CopyOnly => "copy_only"@,
    }
}

impl InjectionOutcome {
    /// The name of the outcome in reports.
    pub fn as_str(self) -> (r: &'static str)
        ensures
            r@ == outcome_text(self),
    {
        match self {
            InjectionOutcome::SuccessAssumed => "success_assumed",
            InjectionOutcome::ClipboardNotReady => "clipboard_not_ready",
            InjectionOutcome::ChordFailed => "chord_failed",
            InjectionOutcome::NoEffectSuspected => "no_effect_suspected",
            InjectionOutcome::CopyOnly => "copy_only",
        }
    }
}

/// How long to wait before the clipboard is read again, after `probe_count` reads.
pub open spec fn ready_pause(probe_count: u64) -> u64 {
    if probe_count <= 1 {
        5
    } else if probe_count == 2 {
        10
    } else if probe_count == 3 {
        15
    } else if probe_count == 4 {
        20
    } else if probe_count == 5 {
        30
    } else if probe_count == 6 {
        40
    } else if probe_count == 7 {
        50
    } else {
        70
    }
}

/// How long to wait before the clipboard is read again, after `probe_count` reads.
pub fn next_clipboard_ready_sleep_ms(probe_count: u64) -> (r: u64)
    ensures
        r == ready_pause(probe_count),
{
    if probe_count <= 1 {
        5
    } else if probe_count == 2 {
        10
    } else if probe_count == 3 {
        15
    } else if probe_count == 4 {
        20
    } else if probe_count == 5 {
        30
    } else if probe_count == 6 {
        40
    } else if probe_count == 7 {
        50
    } else {
        70
    }
}

/// The waits between reads of the clipboard grow and never exceed the last one.
pub proof fn law_ready_pauses_grow(a: u64, b: u64)
    requires
        a <= b,
    ensures
        5 <= ready_pause(a) <= ready_pause(b) <= 70,
{
}

// ---- the course of an injection

/// Where an injection stands.
#[derive(Debug, Clone, Copy, PartialEq, Eq, Structural)]
pub enum FlowPhase {
    Begin,
    ReadClipboard,
    ReadPrimary,
    Write,
    Probe,
    ProbePause,
    Focus,
    Route,
    Hold,
    PostProbe,
    FocusAfter,
    Transfer,
    Done,
}

/// What has happened since the last action.
#[derive(Debug)]
pub enum FlowEvent {
    Started,
    /// A clipboard was read; `None` where that failed. `waited_ms` counts from the first read
    /// that waited for the requested text.
    Read { value: Option<String>, waited_ms: u64 },
    Wrote { result: Result<(), String> },
    Slept,
    /// The focus was looked at, and this is the route for it.
    Focused { primary: PasteShortcut, fallback: Option<PasteShortcut> },
    Routed { result: Result<(), String> },
    Transferred,
}

/// What to do next.
#[allow(inconsistent_fields)]
#[derive(Debug, PartialEq, Eq)]
pub enum FlowAction {
    ReadClipboard { primary: bool },
    /// Put the text on the clipboards, with a helper that stays in the foreground.
    WriteClipboards,
    Sleep { ms: u64 },
    ResolveFocus,
    SendRoute { primary: PasteShortcut, fallback: Option<PasteShortcut> },
    /// Hand the clipboards to helpers in the background.
    TransferToBackground,
    /// Give the result back; `report` says whether a report goes out first.
    Finish { result: Result<(), String>, report: bool },
    /// The event does not fit the phase; nothing changed.
    Unexpected,
}

/// An event, mathematically.
pub enum FlowNews {
    Started,
    Read(Option<Seq<char>>, u64),
    Wrote(Option<Seq<char>>),
    Slept,
    Focused(PasteShortcut, Option<PasteShortcut>),
    Routed(Option<Seq<char>>),
    Transferred,
}

/// An action, mathematically.
pub enum FlowDo {
    ReadClipboard(bool),
    WriteClipboards,
    Sleep(u64),
    ResolveFocus,
    SendRoute(PasteShortcut, Option<PasteShortcut>),
    TransferToBackground,
    Finish(Option<Seq<char>>, bool),
    Unexpected,
}

impl FlowEvent {
    /// The event, mathematically.
    pub open spec fn news(self) -> FlowNews {
        match self {
            FlowEvent::Started => FlowNews::Started,
            FlowEvent::Read { value, waited_ms } => FlowNews::Read(opt_string(value), waited_ms),
            FlowEvent::Wrote { result } => FlowNews::Wrote(error_text(result)),
            FlowEvent::Slept => FlowNews::Slept,
            FlowEvent::Focused { primary, fallback } => FlowNews::Focused(primary, fallback),
            FlowEvent::Routed { result } => FlowNews::Routed(error_text(result)),
            FlowEvent::Transferred => FlowNews::Transferred,
        }
    }
}

impl FlowAction {
    /// The action, mathematically.
    pub open spec fn deed(self) -> FlowDo {
        match self {
            FlowAction::ReadClipboard { primary } => FlowDo::ReadClipboard(primary),
            FlowAction::WriteClipboards => FlowDo::WriteClipboards,
            FlowAction::Sleep { ms } => FlowDo::Sleep(ms),
            FlowAction::ResolveFocus => FlowDo::ResolveFocus,
            FlowAction::SendRoute { primary, fallback } => FlowDo::SendRoute(primary, fallback),
            FlowAction::TransferToBackground => FlowDo::TransferToBackground,
            FlowAction::Finish { result, report } => FlowDo::Finish(error_text(result), report),
            FlowAction::Unexpected => FlowDo::Unexpected,
        }
    }
}

/// An injection on its way, mathematically.
pub struct FlowModel {
    pub text: Seq<char>,
    pub copy_only: bool,
    pub write_primary: bool,
    pub hold_ms: u64,
    pub phase: FlowPhase,
    pub ready: bool,
    pub probe_count: u64,
    pub outcome: InjectionOutcome,
    pub post_matches: Option<bool>,
    pub failure: Option<Seq<char>>,
}

/// What follows once the clipboard has shown the text or has had its time.
pub open spec fn after_probe(m: FlowModel) -> (FlowModel, FlowDo) {
    if m.copy_only {
        (
            FlowModel { outcome: InjectionOutcome::CopyOnly, phase: FlowPhase::Transfer, ..m },
            FlowDo::TransferToBackground,
        )
    } else {
        (FlowModel { phase: FlowPhase::Focus, ..m }, FlowDo::ResolveFocus)
    }
}

/// One more, where that is possible.
pub open spec fn one_more(n: u64) -> u64 {
    if n < u64::MAX {
        (n + 1) as u64
    } else {
        n
    }
}

/// The next state and action of an injection.
///
/// The clipboards are read, written, and read until they show the text or the time is up. A
/// copy-only injection then only hands the clipboards over. Any other looks at the focus, sends
/// the route, holds, reads the clipboard again, looks at the focus again and hands the
/// clipboards over. A failed write ends at once; a failed route still hands over.
pub open spec fn flow_next(m: FlowModel, e: FlowNews) -> (FlowModel, FlowDo) {
    match (m.phase, e) {
        (FlowPhase::Begin, FlowNews::Started) => (
            FlowModel { phase: FlowPhase::ReadClipboard, ..m },
            FlowDo::ReadClipboard(false),
        ),
        (FlowPhase::ReadClipboard, FlowNews::Read(_, _)) => if m.write_primary {
            (FlowModel { phase: FlowPhase::ReadPrimary, ..m }, FlowDo::ReadClipboard(true))
        } else {
            (FlowModel { phase: FlowPhase::Write, ..m }, FlowDo::WriteClipboards)
        },
        (FlowPhase::ReadPrimary, FlowNews::Read(_, _)) => (
            FlowModel { phase: FlowPhase::Write, ..m },
            FlowDo::WriteClipboards,
        ),
        (FlowPhase::Write, FlowNews::Wrote(error)) => match error {
            Some(cause) => {
                let message = "failed to set clipboard contents: "@ + cause;
                (
                    FlowModel { phase: FlowPhase::Done, failure: Some(message), ..m },
                    FlowDo::Finish(Some(message), false),
                )
            },
            None => (FlowModel { phase: FlowPhase::Probe, ..m }, FlowDo::ReadClipboard(false)),
        },
        (FlowPhase::Probe, FlowNews::Read(value, waited_ms)) => {
            let n = FlowModel { probe_count: one_more(m.probe_count), ..m };
            if value == Some(m.text) {
                after_probe(
                    FlowModel { ready: true, outcome: InjectionOutcome::SuccessAssumed, ..n },
                )
            } else if waited_ms >= CLIPBOARD_READY_TIMEOUT_MS {
                after_probe(
                    FlowModel { ready: false, outcome: InjectionOutcome::ClipboardNotReady, ..n },
                )
            } else {
                (
                    FlowModel { phase: FlowPhase::ProbePause, ..n },
                    FlowDo::Sleep(ready_pause(n.probe_count)),
                )
            }
        },
        (FlowPhase::ProbePause, FlowNews::Slept) => (
            FlowModel { phase: FlowPhase::Probe, ..m },
            FlowDo::ReadClipboard(false),
        ),
        (FlowPhase::Focus, FlowNews::Focused(primary, fallback)) => (
            FlowModel { phase: FlowPhase::Route, ..m },
            FlowDo::SendRoute(primary, fallback),
        ),
        (FlowPhase::Route, FlowNews::Routed(error)) => match error {
            Some(message) => (
                FlowModel {
                    phase: FlowPhase::Transfer,
                    outcome: InjectionOutcome::ChordFailed,
                    failure: Some(message),
                    ..m
                },
                FlowDo::TransferToBackground,
            ),
            None => if m.hold_ms > 0 {
                (FlowModel { phase: FlowPhase::Hold, ..m }, FlowDo::Sleep(m.hold_ms))
            } else {
                (FlowModel { phase: FlowPhase::PostProbe, ..m }, FlowDo::ReadClipboard(false))
            },
        },
        (FlowPhase::Hold, FlowNews::Slept) => (
            FlowModel { phase: FlowPhase::PostProbe, ..m },
            FlowDo::ReadClipboard(false),
        ),
        (FlowPhase::PostProbe, FlowNews::Read(value, _)) => {
            let n = FlowModel { phase: FlowPhase::FocusAfter, ..m };
            (
                match value {
                    Some(v) => if v == m.text {
                        FlowModel { post_matches: Some(true), ..n }
                    } else {
                        FlowModel {
                            post_matches: Some(false),
                            outcome: InjectionOutcome::NoEffectSuspected,
                            ..n
                        }
                    },
                    None => n,
                },
                FlowDo::ResolveFocus,
            )
        },
        (FlowPhase::FocusAfter, FlowNews::Focused(_, _)) => (
            FlowModel { phase: FlowPhase::Transfer, ..m },
            FlowDo::TransferToBackground,
        ),
        (FlowPhase::Transfer, FlowNews::Transferred) => (
            FlowModel { phase: FlowPhase::Done, ..m },
            FlowDo::Finish(m.failure, true),
        ),
        _ => (m, FlowDo::Unexpected),
    }
}

/// What holds of every injection on its way.
pub open spec fn flow_sound(m: FlowModel) -> bool {
    &&& m.copy_only ==> !(m.phase == FlowPhase::Focus || m.phase == FlowPhase::Route || m.phase
        == FlowPhase::Hold || m.phase == FlowPhase::PostProbe || m.phase == FlowPhase::FocusAfter)
    &&& m.failure is Some ==> m.phase == FlowPhase::Transfer || m.phase == FlowPhase::Done
    &&& (m.phase == FlowPhase::Transfer || m.phase == FlowPhase::Done) && m.failure is None
        && m.copy_only ==> m.outcome == InjectionOutcome::CopyOnly
    &&& m.outcome == InjectionOutcome::ChordFailed ==> m.failure is Some
    &&& m.post_matches is Some ==> m.phase == FlowPhase::FocusAfter || m.phase
        == FlowPhase::Transfer || m.phase == FlowPhase::Done
    &&& m.post_matches == Some(false) ==> m.outcome == InjectionOutcome::NoEffectSuspected
}

/// An injection that has not begun.
pub open spec fn flow_start(text: Seq<char>, copy_only: bool, write_primary: bool, hold_ms: u64) ->
    FlowModel {
    FlowModel {
        text,
        copy_only,
        write_primary,
        hold_ms,
        phase: FlowPhase::Begin,
        ready: false,
        probe_count: 0,
        outcome: InjectionOutcome::ClipboardNotReady,
        post_matches: None,
        failure: None,
    }
}

/// Every injection begins sound.
pub proof fn law_flow_starts_sound(
    text: Seq<char>,
    copy_only: bool,
    write_primary: bool,
    hold_ms: u64,
)
    ensures
        flow_sound(flow_start(text, copy_only, write_primary, hold_ms)),
{
}

/// Every step keeps an injection sound, and never changes the text.
pub proof fn law_flow_stays_sound(m: FlowModel, e: FlowNews)
    requires
        flow_sound(m),
    ensures
        flow_sound(flow_next(m, e).0),
        flow_next(m, e).0.text == m.text,
{
}

/// A copy-only injection never sends a chord.
pub proof fn law_copy_only_sends_no_chord(m: FlowModel, e: FlowNews)
    requires
        flow_sound(m),
        m.copy_only,
    ensures
        !(flow_next(m, e).1 is SendRoute),
{
}

/// After a failed route the clipboards are still handed over before the failure comes back.
pub proof fn law_failed_route_hands_over(m: FlowModel, message: Seq<char>)
    requires
        m.phase == FlowPhase::Route,
    ensures
        flow_next(m, FlowNews::Routed(Some(message))).1 is TransferToBackground,
        flow_next(flow_next(m, FlowNews::Routed(Some(message))).0, FlowNews::Transferred).1
            == FlowDo::Finish(Some(message), true),
{
}

/// A clipboard that never shows the text does not stop a paste: when the time is up the
/// injection goes on to the focus.
pub proof fn law_slow_clipboard_does_not_stop_paste(
    m: FlowModel,
    value: Option<Seq<char>>,
    waited_ms: u64,
)
    requires
        m.phase == FlowPhase::Probe,
        !m.copy_only,
        waited_ms >= CLIPBOARD_READY_TIMEOUT_MS,
    ensures
        flow_next(m, FlowNews::Read(value, waited_ms)).1 is ResolveFocus,
{
}

/// A paste whose clipboard never showed the text sends its route all the same and succeeds. It
/// is reported as one whose clipboard was not ready, or as one without effect where the
/// clipboard then shows another text.
pub proof fn law_degraded_paste_sends_its_route(
    m: FlowModel,
    probed: (Option<Seq<char>>, u64),
    route: (PasteShortcut, Option<PasteShortcut>),
    post: (Option<Seq<char>>, u64),
    again: (PasteShortcut, Option<PasteShortcut>),
)
    requires
        flow_sound(m),
        m.phase == FlowPhase::Probe,
        !m.copy_only,
        probed.0 != Some(m.text),
        probed.1 >= CLIPBOARD_READY_TIMEOUT_MS,
    ensures
        ({
            let focused = flow_next(m, FlowNews::Read(probed.0, probed.1));
            let routed = flow_next(focused.0, FlowNews::Focused(route.0, route.1));
            let sent = flow_next(routed.0, FlowNews::Routed(None));
            let held = if m.hold_ms > 0 {
                flow_next(sent.0, FlowNews::Slept)
            } else {
                sent
            };
            let looked = flow_next(held.0, FlowNews::Read(post.0, post.1));
            let over = flow_next(looked.0, FlowNews::Focused(again.0, again.1));
            let done = flow_next(over.0, FlowNews::Transferred);
            &&& focused.1 is ResolveFocus
            &&& routed.1 == FlowDo::SendRoute(route.0, route.1)
            &&& done.1 == FlowDo::Finish(None, true)
            &&& !done.0.ready
            &&& done.0.outcome == if post.0 is Some && post.0 != Some(m.text) {
                InjectionOutcome::NoEffectSuspected
            } else {
                InjectionOutcome::ClipboardNotReady
            }
        }),
{
}

/// Whether a step ends the wait for the clipboard: it leaves the probing for good.
pub open spec fn wait_ended(before: FlowPhase, after: FlowPhase) -> bool {
    before == FlowPhase::Probe && after != FlowPhase::Probe && after != FlowPhase::ProbePause
}

/// The wait for the clipboard ends once: when the text is read, and then it has succeeded, or
/// when the time is up without it, and then it has failed. No later step ends it again.
pub proof fn law_wait_for_clipboard_ends_once(m: FlowModel, e: FlowNews)
    ensures
        wait_ended(m.phase, flow_next(m, e).0.phase) <==> m.phase == FlowPhase::Probe && (e matches
            FlowNews::Read(value, waited_ms) && (value == Some(m.text) || waited_ms
            >= CLIPBOARD_READY_TIMEOUT_MS)),
        wait_ended(m.phase, flow_next(m, e).0.phase) ==> (e matches FlowNews::Read(value, _)
            && flow_next(m, e).0.ready == (value == Some(m.text))) && past_wait(
            flow_next(m, e).0.phase,
        ),
        past_wait(m.phase) ==> past_wait(flow_next(m, e).0.phase) && !wait_ended(
            m.phase,
            flow_next(m, e).0.phase,
        ) && flow_next(m, e).0.ready == m.ready,
{
}

/// Whether the wait for the clipboard is over.
pub open spec fn past_wait(phase: FlowPhase) -> bool {
    phase == FlowPhase::Focus || past_route(phase)
}

/// Whether the route of an injection has been given out.
pub open spec fn past_route(phase: FlowPhase) -> bool {
    phase == FlowPhase::Route || phase == FlowPhase::Hold || phase == FlowPhase::PostProbe || phase
        == FlowPhase::FocusAfter || phase == FlowPhase::Transfer || phase == FlowPhase::Done
}

/// The route of an injection is given out once: after it no step gives it out again.
pub proof fn law_route_is_sent_once(m: FlowModel, e: FlowNews)
    ensures
        flow_next(m, e).1 is SendRoute ==> !past_route(m.phase) && past_route(
            flow_next(m, e).0.phase,
        ),
        past_route(m.phase) ==> past_route(flow_next(m, e).0.phase),
{
}

/// An injection on its way.
#[derive(Debug)]
pub struct InjectionFlow {
    text: String,
    copy_only: bool,
    write_primary: bool,
    hold_ms: u64,
    phase: FlowPhase,
    ready: bool,
    probe_count: u64,
    outcome: InjectionOutcome,
    post_matches: Option<bool>,
    failure: Option<String>,
}

impl InjectionFlow {
    /// The injection, mathematically.
    pub closed spec fn model(self) -> FlowModel {
        FlowModel {
            text: self.text@,
            copy_only: self.copy_only,
            write_primary: self.write_primary,
            hold_ms: self.hold_ms,
            phase: self.phase,
            ready: self.ready,
            probe_count: self.probe_count,
            outcome: self.outcome,
            post_matches: self.post_matches,
            failure: opt_string(self.failure),
        }
    }

    /// An injection that has not begun.
    pub fn new(text: &str, copy_only: bool, write_primary: bool, post_chord_hold_ms: u64) -> (r:
        InjectionFlow)
        ensures
            r.model() == flow_start(text@, copy_only, write_primary, post_chord_hold_ms),
    {
        InjectionFlow {
            text: text.to_owned(),
            copy_only,
            write_primary,
            hold_ms: post_chord_hold_ms,
            phase: FlowPhase::Begin,
            ready: false,
            probe_count: 0,
            outcome: InjectionOutcome::ClipboardNotReady,
            post_matches: None,
            failure: None,
        }
    }

    /// Where the injection stands.
    pub fn phase(&self) -> (r: FlowPhase)
        ensures
            r == self.model().phase,
    {
        self.phase
    }

    /// Counts the stage that waits for the clipboard, if the step from the given phase has ended
    /// it. Tells whether it has.
    pub fn count_clipboard_ready(
        &self,
        before: FlowPhase,
        duration_ms: u64,
        metrics: &mut InjectorMetrics,
    ) -> (r: bool)
        ensures
            r == wait_ended(before, self.model().phase),
            *final(metrics) == if wait_ended(before, self.model().phase) {
                stage_counted(
                    *old(metrics),
                    InjectionStage::ClipboardReady,
                    duration_ms,
                    self.model().ready,
                )
            } else {
                *old(metrics)
            },
    {
        let ended = before == FlowPhase::Probe && self.phase != FlowPhase::Probe && self.phase
            != FlowPhase::ProbePause;
        if ended {
            if self.ready {
                metrics.note_stage_success(InjectionStage::ClipboardReady, duration_ms);
            } else {
                metrics.note_stage_failure(InjectionStage::ClipboardReady, duration_ms);
            }
        }
        ended
    }

    /// Whether the clipboard showed the text in time.
    pub fn clipboard_ready(&self) -> (r: bool)
        ensures
            r == self.model().ready,
    {
        self.ready
    }

    /// How often the clipboard was read while it was waited for.
    pub fn probe_count(&self) -> (r: u64)
        ensures
            r == self.model().probe_count,
    {
        self.probe_count
    }

    /// How the injection ended, or would end now.
    pub fn outcome(&self) -> (r: InjectionOutcome)
        ensures
            r == self.model().outcome,
    {
        self.outcome
    }

    /// Whether the clipboard still held the text after the chord, where it could be read.
    pub fn post_clipboard_matches(&self) -> (r: Option<bool>)
        ensures
            r == self.model().post_matches,
    {
        self.post_matches
    }

    /// What follows once the clipboard has shown the text or has had its time.
    fn go_on_after_probe(&mut self) -> (r: FlowAction)
        ensures
            (final(self).model(), r.deed()) == after_probe(old(self).model()),
    {
        if self.copy_only {
            self.outcome = InjectionOutcome::CopyOnly;
            self.phase = FlowPhase::Transfer;
            FlowAction::TransferToBackground
        } else {
            self.phase = FlowPhase::Focus;
            FlowAction::ResolveFocus
        }
    }

    /// Takes what has happened and says what to do next.
    pub fn step(&mut self, event: FlowEvent) -> (r: FlowAction)
        ensures
            (final(self).model(), r.deed()) == flow_next(old(self).model(), event.news()),
    {
        match (self.phase, event) {
            (FlowPhase::Begin, FlowEvent::Started) => {
                self.phase = FlowPhase::ReadClipboard;
                FlowAction::ReadClipboard { primary: false }
            },
            (FlowPhase::ReadClipboard, FlowEvent::Read { .. }) => {
                if self.write_primary {
                    self.phase = FlowPhase::ReadPrimary;
                    FlowAction::ReadClipboard { primary: true }
                } else {
                    self.phase = FlowPhase::Write;
                    FlowAction::WriteClipboards
                }
            },
            (FlowPhase::ReadPrimary, FlowEvent::Read { .. }) => {
                self.phase = FlowPhase::Write;
                FlowAction::WriteClipboards
            },
            (FlowPhase::Write, FlowEvent::Wrote { result }) => {
                match result {
                    Err(cause) => {
                        let message = cat2("failed to set clipboard contents: ", cause.as_str());
                        self.phase = FlowPhase::Done;
                        self.failure = Some(message.as_str().to_owned());
                        FlowAction::Finish { result: Err(message), report: false }
                    },
                    Ok(_) => {
                        self.phase = FlowPhase::Probe;
                        FlowAction::ReadClipboard { primary: false }
                    },
                }
            },
            (FlowPhase::Probe, FlowEvent::Read { value, waited_ms }) => {
                self.probe_count = self.probe_count.saturating_add(1);
                let shown: bool = match &value {
                    Some(v) => same(v.as_str(), self.text.as_str()),
                    None => false,
                };
                if shown {
                    self.ready = true;
                    self.outcome = InjectionOutcome::SuccessAssumed;
                    self.go_on_after_probe()
                } else if waited_ms >= CLIPBOARD_READY_TIMEOUT_MS {
                    self.ready = false;
                    self.outcome = InjectionOutcome::ClipboardNotReady;
                    self.go_on_after_probe()
                } else {
                    self.phase = FlowPhase::ProbePause;
                    FlowAction::Sleep { ms: next_clipboard_ready_sleep_ms(self.probe_count) }
                }
            },
            (FlowPhase::ProbePause, FlowEvent::Slept) => {
                self.phase = FlowPhase::Probe;
                FlowAction::ReadClipboard { primary: false }
            },
            (FlowPhase::Focus, FlowEvent::Focused { primary, fallback }) => {
                self.phase = FlowPhase::Route;
                FlowAction::SendRoute { primary, fallback }
            },
            (FlowPhase::Route, FlowEvent::Routed { result }) => {
                match result {
                    Err(message) => {
                        self.phase = FlowPhase::Transfer;
                        self.outcome = InjectionOutcome::ChordFailed;
                        self.failure = Some(message);
                        FlowAction::TransferToBackground
                    },
                    Ok(_) => {
                        if self.hold_ms > 0 {
                            self.phase = FlowPhase::Hold;
                            FlowAction::Sleep { ms: self.hold_ms }
                        } else {
                            self.phase = FlowPhase::PostProbe;
                            FlowAction::ReadClipboard { primary: false }
                        }
                    },
                }
            },
            (FlowPhase::Hold, FlowEvent::Slept) => {
                self.phase = FlowPhase::PostProbe;
                FlowAction::ReadClipboard { primary: false }
            },
            (FlowPhase::PostProbe, FlowEvent::Read { value, .. }) => {
                self.phase = FlowPhase::FocusAfter;
                match &value {
                    Some(v) => {
                        if same(v.as_str(), self.text.as_str()) {
                            self.post_matches = Some(true);
                        } else {
                            self.post_matches = Some(false);
                            self.outcome = InjectionOutcome::NoEffectSuspected;
                        }
                    },
                    None => {},
                }
                FlowAction::ResolveFocus
            },
            (FlowPhase::FocusAfter, FlowEvent::Focused { .. }) => {
                self.phase = FlowPhase::Transfer;
                FlowAction::TransferToBackground
            },
            (FlowPhase::Transfer, FlowEvent::Transferred) => {
                self.phase = FlowPhase::Done;
                let result: Result<(), String> = match &self.failure {
                    Some(m) => Err(m.as_str().to_owned()),
                    None => Ok(()),
                };
                FlowAction::Finish { result, report: true }
            },
            _ => FlowAction::Unexpected,
        }
    }
}

/// The report of an injection: its outcome and what was seen on the way.
pub fn child_report(
    trace_id: u64,
    text: &str,
    flow: &InjectionFlow,
    session_id: Option<SessionId>,
    origin: Option<String>,
    parent_focus: Option<ParentFocusCapture>,
    focus_before: Option<FocusResolutionOutcome>,
    focus_after: Option<FocusSnapshot>,
    route: RouteChoice,
    backend_attempts: Vec<BackendAttemptReport>,
    elapsed_ms_total: u64,
) -> (r: InjectorChildReport)
    ensures
        r.session_id == session_id,
        r.origin == origin,
        r.trace_id == trace_id,
        r.outcome@ == outcome_text(flow.model().outcome),
        r.requested_len == encode_utf8(text@).len() as usize,
        r.requested_fingerprint@ == fingerprint_text(text@),
        r.clipboard_ready == flow.model().ready,
        r.clipboard_probe_count == flow.model().probe_count,
        r.post_clipboard_matches == flow.model().post_matches,
        r.parent_focus == parent_focus,
        r.child_focus_after == focus_after,
        match focus_before {
            Some(f) => {
                &&& r.child_focus_before == f.snapshot
                &&& r.child_focus_source_selected@ == f.source_selected@
                &&& r.child_focus_wayland_cache_age_ms == f.wayland_cache_age_ms
                &&& opt_string(r.child_focus_wayland_fallback_reason) == crate::text::opt_chars(
                    f.wayland_fallback_reason,
                )
            },
            None => {
                &&& r.child_focus_before is None
                &&& r.child_focus_source_selected@ == "not_resolved"@
                &&& r.child_focus_wayland_cache_age_ms is None
                &&& r.child_focus_wayland_fallback_reason is None
            },
        },
        r.route_focus_source == route.focus_source,
        r.route_class == route.class,
        r.route_primary@ == shortcut_text(route.primary),
        match route.adaptive_fallback {
            Some(s) => r.route_adaptive_fallback is Some && r.route_adaptive_fallback->0@
                == shortcut_text(s),
            None => r.route_adaptive_fallback is None,
        },
        r.route_reason == route.reason,
        r.backend_attempts == backend_attempts,
        r.elapsed_ms_total == elapsed_ms_total,
{
    let mut before: Option<FocusSnapshot> = None;
    let mut source: String = "not_resolved".to_owned();
    let mut age: Option<u64> = None;
    let mut reason: Option<String> = None;
    if let Some(f) = focus_before {
        before = f.snapshot;
        source = f.source_selected.to_owned();
        age = f.wayland_cache_age_ms;
        reason = match f.wayland_fallback_reason {
            Some(t) => Some(t.to_owned()),
            None => None,
        };
    }
    InjectorChildReport {
        session_id,
        origin,
        trace_id,
        outcome: flow.outcome().as_str().to_owned(),
        requested_len: text.len(),
        requested_fingerprint: fingerprint(text),
        clipboard_ready: flow.clipboard_ready(),
        clipboard_probe_count: flow.probe_count(),
        post_clipboard_matches: flow.post_clipboard_matches(),
        parent_focus,
        child_focus_before: before,
        child_focus_after: focus_after,
        child_focus_source_selected: source,
        child_focus_wayland_cache_age_ms: age,
        child_focus_wayland_fallback_reason: reason,
        route_focus_source: route.focus_source,
        route_class: route.class,
        route_primary: shortcut_name(route.primary),
        route_adaptive_fallback: match route.adaptive_fallback {
            Some(s) => Some(shortcut_name(s)),
            None => None,
        },
        route_reason: route.reason,
        backend_attempts,
        elapsed_ms_total,
    }
}

// ---- helper commands

/// The optional parts of a clipboard command line.
pub open spec fn seat_args(seat: Option<Seq<char>>) -> Seq<Seq<char>> {
    match seat {
        Some(s) => seq!["--seat"@, s],
        None => Seq::empty(),
    }
}

/// One word where it is wanted.
pub open spec fn flag_arg(wanted: bool, flag: Seq<char>) -> Seq<Seq<char>> {
    if wanted {
        seq![flag]
    } else {
        Seq::empty()
    }
}

/// The arguments of `wl-paste`.
pub fn wl_paste_args(seat: &Option<String>, primary: bool) -> (r: Vec<String>)
    ensures
        texts(r@) == seq!["--no-newline"@] + seat_args(opt_string(*seat)) + flag_arg(
            primary,
            "--primary"@,
        ),
{
    let mut args: Vec<String> = Vec::new();
    args.push("--no-newline".to_owned());
    if let Some(s) = seat {
        args.push("--seat".to_owned());
        args.push(s.as_str().to_owned());
    }
    if primary {
        args.push("--primary".to_owned());
    }
    assert(texts(args@) =~= seq!["--no-newline"@] + seat_args(opt_string(*seat)) + flag_arg(
        primary,
        "--primary"@,
    ));
    args
}

/// The arguments of `wl-copy`.
pub fn wl_copy_args(seat: &Option<String>, primary: bool, foreground: bool) -> (r: Vec<String>)
    ensures
        texts(r@) == seq!["--type"@, "text/plain;charset=utf-8"@] + seat_args(opt_string(*seat))
            + flag_arg(primary, "--primary"@) + flag_arg(foreground, "--foreground"@),
{
    let mut args: Vec<String> = Vec::new();
    args.push("--type".to_owned());
    args.push("text/plain;charset=utf-8".to_owned());
    if let Some(s) = seat {
        args.push("--seat".to_owned());
        args.push(s.as_str().to_owned());
    }
    if primary {
        args.push("--primary".to_owned());
    }
    if foreground {
        args.push("--foreground".to_owned());
    }
    assert(texts(args@) =~= seq!["--type"@, "text/plain;charset=utf-8"@] + seat_args(
        opt_string(*seat),
    ) + flag_arg(primary, "--primary"@) + flag_arg(foreground, "--foreground"@));
    args
}

/// Whether the helper for the primary selection stays in the foreground: only where the one
/// for the clipboard does not.
pub fn primary_foreground(foreground: bool, clipboard_has_source: bool) -> (r: bool)
    ensures
        r == (foreground && !clipboard_has_source),
{
    foreground && !clipboard_has_source
}

/// What to do with a helper command that was looked at.
#[derive(Debug, Clone, Copy, PartialEq, Eq, Structural)]
pub enum ChildWait {
    Exited,
    /// Its time is up: it is killed and reaped.
    Kill,
    /// It is looked at again after so many milliseconds.
    Sleep { ms: u64 },
}

/// Decides what to do with a helper command that was looked at.
pub fn child_wait(exited: bool, elapsed_ms: u64, timeout_ms: u64) -> (r: ChildWait)
    ensures
        r == (if exited {
            ChildWait::Exited
        } else if elapsed_ms >= timeout_ms {
            ChildWait::Kill
        } else {
            ChildWait::Sleep { ms: INJECTOR_SUBPROCESS_POLL_INTERVAL_MS }
        }),
{
    if exited {
        ChildWait::Exited
    } else if elapsed_ms >= timeout_ms {
        ChildWait::Kill
    } else {
        ChildWait::Sleep { ms: INJECTOR_SUBPROCESS_POLL_INTERVAL_MS }
    }
}

/// The message where a helper command ran too long.
pub fn child_timeout_message(command: &str, timeout_ms: u64) -> (r: String)
    ensures
        r@ == command@ + " timed out after "@ + decimal(timeout_ms as nat) + " ms"@,
{
    let n = print_u64(timeout_ms);
    let mut out: String = command.to_owned();
    out.push_str(" timed out after ");
    out.push_str(n.as_str());
    out.push_str(" ms");
    out
}

// ---- texts in logs

/// What std's default hasher makes of a text: its bytes and the byte that ends a string.
pub open spec fn text_hash(text: Seq<char>) -> u64 {
    DefaultHasher::spec_finish(seq![encode_utf8(text), seq![0xffu8]])
}

/// The sixteen hexadecimal digits that stand for a text in logs.
pub open spec fn fingerprint_text(text: Seq<char>) -> Seq<char> {
    hex(text_hash(text) as nat, 16)
}

/// The sixteen hexadecimal digits that stand for a text in logs.
pub fn fingerprint(text: &str) -> (r: String)
    ensures
        r@ == fingerprint_text(text@),
{
    let mut hasher = DefaultHasher::new();
    hasher.write(text.as_bytes());
    let end: [u8; 1] = [0xffu8];
    hasher.write(&end);
    assert(end@ =~= seq![0xffu8]);
    assert(hasher@ =~= seq![encode_utf8(text@), seq![0xffu8]]);
    print_hex(hasher.finish(), 16)
}

/// The first eighty characters of a text, and dots where there are more.
pub open spec fn preview_text(text: Seq<char>) -> Seq<char> {
    if text.len() <= 80 {
        text
    } else {
        text.take(80) + "..."@
    }
}

/// The first eighty characters of a text, and dots where there are more.
pub fn preview(text: &str) -> (r: String)
    ensures
        r@ == preview_text(text@),
{
    let chars = chars_of(text);
    let mut out = first_chars(text, 80);
    if chars.len() > 80 {
        out.push_str("...");
    }
    out
}

// ---- what a paste chord is

/// A paste is struck with control held, and with shift held exactly where the shortcut has it:
/// whenever `V` goes down the left control key is held, the left shift key for the one shortcut
/// only, and no other key.
pub proof fn law_paste_is_struck_with_its_modifiers(shortcut: PasteShortcut, at: int, other: KeyCode)
    requires
        0 <= at < chord_steps_of(shortcut).len(),
        chord_steps_of(shortcut)[at] == (ChordStep::Key { key: KeyCode { code: 47 }, down: true }),
        other.code != 29 && other.code != 42,
    ensures
        held_after(chord_steps_of(shortcut), at, KeyCode { code: 29 }),
        held_after(chord_steps_of(shortcut), at, KeyCode { code: 42 }) <==> shortcut
            == PasteShortcut::CtrlShiftV,
        !held_after(chord_steps_of(shortcut), at, other),
{
    reveal_with_fuel(held_after, 8);
    let s = chord_steps_of(shortcut);
    assert(s.len() == 5 || s.len() == 7);
    assert(at == 0 || at == 1 || at == 2 || at == 3 || at == 4 || at == 5 || at == 6);
}

/// Whether `V` is struck at a step: it goes down, is held, and comes up, and at all other steps
/// only control and shift are touched.
pub open spec fn struck_only_at(steps: Seq<ChordStep>, at: int) -> bool {
    &&& 0 <= at && at + 2 < steps.len()
    &&& steps[at] == (ChordStep::Key { key: KeyCode { code: 47 }, down: true })
    &&& steps[at + 1] == ChordStep::Dwell
    &&& steps[at + 2] == (ChordStep::Key { key: KeyCode { code: 47 }, down: false })
    &&& forall|i: int|
        0 <= i < steps.len() && !(at <= i <= at + 2) ==> (#[trigger] steps[i] matches
            ChordStep::Key { key, .. } && (key.code == 29 || key.code == 42))
}

/// A chord strikes `V` once, holds it, and touches no other key than control and shift.
pub proof fn law_chord_strikes_once(shortcut: PasteShortcut)
    ensures
        exists|at: int| struck_only_at(chord_steps_of(shortcut), at),
{
    let s = chord_steps_of(shortcut);
    match shortcut {
        PasteShortcut::CtrlV => {
            assert(s.len() == 5);
            assert(struck_only_at(s, 1));
        },
        PasteShortcut::CtrlShiftV => {
            assert(s.len() == 7);
            assert(struck_only_at(s, 2));
        },
    }
}

/// The modifiers of a shortcut are the keys that are held when its key is struck: control, and
/// shift exactly where the shortcut has it.
pub proof fn law_plan_names_the_keys(shortcut: PasteShortcut, key: KeyCode)
    ensures
        chord_of(shortcut).0.contains(key) <==> key.code == 29 || (key.code == 42 && shortcut
            == PasteShortcut::CtrlShiftV),
        chord_of(shortcut).0.no_duplicates(),
        chord_of(shortcut).1.code == 47,
{
    let (modifiers, struck) = chord_of(shortcut);
    assert(modifiers[0].code == 29);
    if shortcut == PasteShortcut::CtrlShiftV {
        assert(modifiers[1].code == 42);
    }
    if key.code == 29 {
        assert(modifiers[0] == key);
    }
    if key.code == 42 && shortcut == PasteShortcut::CtrlShiftV {
        assert(modifiers[1] == key);
    }
}

// ---- what an injection does

/// A paste whose clipboard shows the text runs its course: the clipboards are read and then
/// written, the clipboard is read back, the focus is looked up, its route is sent, the source is
/// held, the clipboard is read again, and the clipboards are handed over before it succeeds.
pub proof fn law_paste_runs_its_course(
    text: Seq<char>,
    write_primary: bool,
    hold_ms: u64,
    seen: (Option<Seq<char>>, Option<Seq<char>>),
    waited: (u64, u64, u64, u64),
    route: (PasteShortcut, Option<PasteShortcut>),
    again: (PasteShortcut, Option<PasteShortcut>),
)
    ensures
        ({
            let a = flow_next(flow_start(text, false, write_primary, hold_ms), FlowNews::Started);
            let b = flow_next(a.0, FlowNews::Read(seen.0, waited.0));
            let c = if write_primary {
                flow_next(b.0, FlowNews::Read(seen.1, waited.1))
            } else {
                b
            };
            let d = flow_next(c.0, FlowNews::Wrote(None));
            let e = flow_next(d.0, FlowNews::Read(Some(text), waited.2));
            let f = flow_next(e.0, FlowNews::Focused(route.0, route.1));
            let g = flow_next(f.0, FlowNews::Routed(None));
            let h = if hold_ms > 0 {
                flow_next(g.0, FlowNews::Slept)
            } else {
                g
            };
            let i = flow_next(h.0, FlowNews::Read(Some(text), waited.3));
            let j = flow_next(i.0, FlowNews::Focused(again.0, again.1));
            let k = flow_next(j.0, FlowNews::Transferred);
            &&& a.1 == FlowDo::ReadClipboard(false)
            &&& write_primary ==> b.1 == FlowDo::ReadClipboard(true)
            &&& c.1 is WriteClipboards
            &&& d.1 == FlowDo::ReadClipboard(false)
            &&& e.1 is ResolveFocus
            &&& f.1 == FlowDo::SendRoute(route.0, route.1)
            &&& hold_ms > 0 ==> g.1 == FlowDo::Sleep(hold_ms)
            &&& h.1 == FlowDo::ReadClipboard(false)
            &&& i.1 is ResolveFocus
            &&& j.1 is TransferToBackground
            &&& k.1 == FlowDo::Finish(None, true)
            &&& k.0.outcome == InjectionOutcome::SuccessAssumed
            &&& k.0.ready
            &&& k.0.post_matches == Some(true)
            &&& k.0.text == text
        }),
{
}

/// A copy-only injection writes the clipboards, waits for them, and hands them over; it is
/// reported as a copy whether or not the clipboard showed the text in time.
pub proof fn law_copy_runs_its_course(
    text: Seq<char>,
    hold_ms: u64,
    seen: Option<Seq<char>>,
    probed: Option<Seq<char>>,
    waited: (u64, u64),
)
    requires
        probed == Some(text) || waited.1 >= 250,
    ensures
        ({
            let a = flow_next(flow_start(text, true, false, hold_ms), FlowNews::Started);
            let b = flow_next(a.0, FlowNews::Read(seen, waited.0));
            let c = flow_next(b.0, FlowNews::Wrote(None));
            let d = flow_next(c.0, FlowNews::Read(probed, waited.1));
            let e = flow_next(d.0, FlowNews::Transferred);
            &&& b.1 is WriteClipboards
            &&& c.1 == FlowDo::ReadClipboard(false)
            &&& d.1 is TransferToBackground
            &&& e.1 == FlowDo::Finish(None, true)
            &&& e.0.outcome == InjectionOutcome::CopyOnly
            &&& e.0.ready <==> probed == Some(text)
        }),
{
}

/// A clipboard that cannot be written ends the injection at once, with the cause, and without a
/// report or a chord.
pub proof fn law_failed_write_ends_the_injection(m: FlowModel, cause: Seq<char>)
    requires
        m.phase == FlowPhase::Write,
    ensures
        flow_next(m, FlowNews::Wrote(Some(cause))).1 == FlowDo::Finish(
            Some("failed to set clipboard contents: "@ + cause),
            false,
        ),
        flow_next(m, FlowNews::Wrote(Some(cause))).0.phase == FlowPhase::Done,
        flow_next(m, FlowNews::Wrote(None)).0.phase == FlowPhase::Probe,
{
}

/// While the clipboard shows another text and there is time left, it is read again after a
/// pause.
pub proof fn law_clipboard_is_read_again(m: FlowModel, value: Option<Seq<char>>, waited_ms: u64)
    requires
        m.phase == FlowPhase::Probe,
        value != Some(m.text),
        waited_ms < 250,
    ensures
        ({
            let a = flow_next(m, FlowNews::Read(value, waited_ms));
            let b = flow_next(a.0, FlowNews::Slept);
            &&& a.1 matches FlowDo::Sleep(ms) && 5 <= ms <= 70
            &&& b.1 == FlowDo::ReadClipboard(false)
            &&& b.0.phase == FlowPhase::Probe
            &&& b.0.ready == m.ready
            &&& b.0.outcome == m.outcome
            &&& m.probe_count < u64::MAX ==> b.0.probe_count == m.probe_count + 1
        }),
{
}

/// The pauses between reads of the clipboard: five milliseconds longer each time at first, then
/// ten, and seventy in the end.
pub proof fn law_pauses_between_reads(n: u64)
    ensures
        1 <= n <= 4 ==> ready_pause(n) == 5 * n,
        5 <= n <= 7 ==> ready_pause(n) == 10 * (n - 2),
        n >= 8 ==> ready_pause(n) == 70,
{
}

/// A route whose chord could not be sent is a failed injection, with the message of the route,
/// after the clipboards were handed over.
pub proof fn law_failed_route_is_reported(m: FlowModel, message: Seq<char>)
    requires
        m.phase == FlowPhase::Route,
    ensures
        ({
            let a = flow_next(m, FlowNews::Routed(Some(message)));
            let b = flow_next(a.0, FlowNews::Transferred);
            &&& a.1 is TransferToBackground
            &&& b.1 == FlowDo::Finish(Some(message), true)
            &&& b.0.outcome == InjectionOutcome::ChordFailed
            &&& b.0.post_matches == m.post_matches
        }),
{
}

/// A clipboard that shows another text after the chord makes the paste suspect; one that cannot
/// be read, or still shows the text, does not.
pub proof fn law_changed_clipboard_is_suspect(m: FlowModel, value: Option<Seq<char>>, ms: u64)
    requires
        m.phase == FlowPhase::PostProbe,
    ensures
        ({
            let n = flow_next(m, FlowNews::Read(value, ms)).0;
            &&& value is None ==> n.post_matches == m.post_matches && n.outcome == m.outcome
            &&& value == Some(m.text) ==> n.post_matches == Some(true) && n.outcome == m.outcome
            &&& value is Some && value != Some(m.text) ==> n.post_matches == Some(false)
                && n.outcome == InjectionOutcome::NoEffectSuspected
        }),
{
}

/// A chord that was sent is reported without an error, one that was not with the chord and the
/// cause in its message.
pub proof fn law_chord_error_names_chord_and_cause(
    shortcut: PasteShortcut,
    sent: Result<(), String>,
)
    ensures
        uinput_error(shortcut, sent) is None <==> sent is Ok,
        sent matches Err(cause) ==> uinput_error(shortcut, sent) == Some(
            "stage=backend failed to emit paste key chord "@ + (if shortcut
                == PasteShortcut::CtrlV {
                "CtrlV"@
            } else {
                "CtrlShiftV"@
            }) + " via uinput: "@ + cause@,
        ),
        sender_disabled() == "stage=backend paste key sender is disabled"@,
{
}

/// A report of an attempt says which chord was tried and how it ended: without an error it is a
/// success, with one a failure; and which keyboard was used.
pub proof fn law_report_says_how_the_attempt_ended<S: PasteChordSender>(
    report: BackendAttemptReport,
    attempt: ShortcutAttemptContext,
    shortcut: PasteShortcut,
    sender: PasteKeySender<S>,
)
    requires
        attempt_made(report, attempt, shortcut, sender),
    ensures
        report.error is None ==> report.status@ == "ok"@,
        report.error is Some ==> report.status@ == "error"@,
        shortcut == PasteShortcut::CtrlV ==> report.shortcut@ == "CtrlV"@,
        shortcut == PasteShortcut::CtrlShiftV ==> report.shortcut@ == "CtrlShiftV"@,
        sender is Disabled ==> report.error is Some && report.backend@ == "disabled"@
            && (report.error->0)@ == "stage=backend paste key sender is disabled"@,
        sender is Uinput ==> report.backend@ == "uinput"@,
        report.route_attempt_name@ == attempt.route_attempt_name@,
        report.route_attempt_index == attempt.route_attempt_index,
        report.route_attempt_total == attempt.route_attempt_total,
        sender matches PasteKeySender::Uinput { sender: s, metadata } ==> {
            &&& exists|sent: Result<(), String>| #[trigger]
                call_ensures(S::send_shortcut, (&s, shortcut), sent) && (sent is Ok
                    <==> report.error is None)
            &&& metadata matches Some(m) ==> report.uinput_sender_generation == Some(m.generation)
                && report.uinput_fresh_device == Some(m.fresh_device)
                && report.uinput_use_count_before_attempt == Some(m.use_count_before_attempt)
        },
{
    if let PasteKeySender::Uinput { sender: s, metadata } = sender {
        let sent = choose|sent: Result<(), String>|
            call_ensures(S::send_shortcut, (&s, shortcut), sent) && opt_string(report.error)
                == #[trigger] uinput_error(shortcut, sent);
        assert(call_ensures(S::send_shortcut, (&s, shortcut), sent));
    }
}

/// A route tries its first shortcut, and its second only where the first failed and there is
/// one; it succeeds exactly where the last attempt did, and otherwise names every attempt.
pub proof fn law_route_tries_in_order<S: PasteChordSender>(
    before: Seq<BackendAttemptReport>,
    after: Seq<BackendAttemptReport>,
    primary: PasteShortcut,
    fallback: Option<PasteShortcut>,
    sender: PasteKeySender<S>,
    result: Option<Seq<char>>,
)
    requires
        route_attempts_added(before, after, primary, fallback, sender, result),
    ensures
        ({
            let n = before.len() as int;
            &&& after.take(n) == before
            &&& after.len() == n + 1 || after.len() == n + 2
            &&& after.len() == n + 2 <==> after[n].error is Some && fallback is Some
            &&& result is None <==> after.last().error is None
            &&& attempt_made(
                after[n],
                ShortcutAttemptContext {
                    route_attempt_name: "primary",
                    route_attempt_index: 1,
                    route_attempt_total: if fallback is Some {
                        2
                    } else {
                        1
                    },
                    backend_attempt_index: 1,
                    backend_attempt_total: 1,
                },
                primary,
                sender,
            )
            &&& after.len() == n + 2 ==> attempt_made(
                after[n + 1],
                ShortcutAttemptContext {
                    route_attempt_name: "adaptive_fallback",
                    route_attempt_index: 2,
                    route_attempt_total: 2,
                    backend_attempt_index: 1,
                    backend_attempt_total: 1,
                },
                fallback->0,
                sender,
            )
            &&& result is Some && after.len() == n + 1 ==> result->0
                == "stage=route_shortcut all route shortcut attempts failed: "@ + ("primary"@ + "("@
                + shortcut_text(primary) + "): "@ + (after[n].error->0)@)
            &&& result is Some && after.len() == n + 2 ==> result->0
                == "stage=route_shortcut all route shortcut attempts failed: "@ + ("primary"@ + "("@
                + shortcut_text(primary) + "): "@ + (after[n].error->0)@ + " | "@
                + ("adaptive_fallback"@ + "("@ + shortcut_text(fallback->0) + "): "@ + (after[n
                + 1].error->0)@))
        }),
{
    reveal_with_fuel(crate::text::joined, 3);
    let n = before.len() as int;
    if result is Some && after.len() == n + 2 {
        let a = route_error("primary"@, primary, (after[n].error->0)@);
        let b = route_error("adaptive_fallback"@, fallback->0, (after[n + 1].error->0)@);
        assert(seq![a, b].drop_last() =~= seq![a]);
        assert(joined(seq![a, b], " | "@) == a + " | "@ + b);
    } else if result is Some {
        let a = route_error("primary"@, primary, (after[n].error->0)@);
        assert(joined(seq![a], " | "@) == a);
    }
}

/// A shortcut is named after the keys it has.
pub proof fn law_shortcuts_have_their_names(shortcut: PasteShortcut)
    ensures
        shortcut_text(shortcut) == "CtrlV"@ <==> shortcut == PasteShortcut::CtrlV,
        shortcut_text(shortcut) == "CtrlShiftV"@ <==> shortcut == PasteShortcut::CtrlShiftV,
{
    reveal_strlit("CtrlV");
    reveal_strlit("CtrlShiftV");
    assert("CtrlV"@.len() != "CtrlShiftV"@.len());
}

/// Every outcome has a name of its own.
pub proof fn law_outcomes_have_their_names(outcome: InjectionOutcome)
    ensures
        outcome_text(outcome) == "success_assumed"@ <==> outcome is SuccessAssumed,
        outcome_text(outcome) == "clipboard_not_ready"@ <==> outcome is ClipboardNotReady,
        outcome_text(outcome) == "chord_failed"@ <==> outcome is ChordFailed,
        outcome_text(outcome) == "no_effect_suspected"@ <==> outcome is NoEffectSuspected,
        outcome_text(outcome) == "copy_only"@ <==> outcome is CopyOnly,
{
    reveal_strlit("success_assumed");
    reveal_strlit("clipboard_not_ready");
    reveal_strlit("chord_failed");
    reveal_strlit("no_effect_suspected");
    reveal_strlit("copy_only");
    assert("success_assumed"@.len() == 15 && "clipboard_not_ready"@.len() == 19
        && "chord_failed"@.len() == 12 && "no_effect_suspected"@.len() == 19 && "copy_only"@.len()
        == 9);
    assert("clipboard_not_ready"@[0] == 'c' && "no_effect_suspected"@[0] == 'n');
}

/// A stage that ends is counted in its own counters: one success or one failure, and the time it
/// took; the counters of the other stages and of the helpers stay.
pub proof fn law_stage_counts_its_own(
    m: InjectorMetrics,
    duration_ms: u64,
    success: bool,
)
    requires
        m.clipboard_ready_success_total < u64::MAX,
        m.clipboard_ready_failure_total < u64::MAX,
        m.clipboard_ready_duration_ms_total + duration_ms <= u64::MAX,
        m.route_shortcut_success_total < u64::MAX,
        m.route_shortcut_failure_total < u64::MAX,
        m.route_shortcut_duration_ms_total + duration_ms <= u64::MAX,
        m.backend_success_total < u64::MAX,
        m.backend_failure_total < u64::MAX,
        m.backend_duration_ms_total + duration_ms <= u64::MAX,
    ensures
        ({
            let won = if success {
                1int
            } else {
                0
            };
            &&& stage_counted(m, InjectionStage::ClipboardReady, duration_ms, success) == (
            InjectorMetrics {
                clipboard_ready_success_total: (m.clipboard_ready_success_total + won) as u64,
                clipboard_ready_failure_total: (m.clipboard_ready_failure_total + 1 - won) as u64,
                clipboard_ready_duration_ms_total: (m.clipboard_ready_duration_ms_total
                    + duration_ms) as u64,
                ..m
            })
            &&& stage_counted(m, InjectionStage::RouteShortcut, duration_ms, success) == (
            InjectorMetrics {
                route_shortcut_success_total: (m.route_shortcut_success_total + won) as u64,
                route_shortcut_failure_total: (m.route_shortcut_failure_total + 1 - won) as u64,
                route_shortcut_duration_ms_total: (m.route_shortcut_duration_ms_total
                    + duration_ms) as u64,
                ..m
            })
            &&& stage_counted(m, InjectionStage::Backend, duration_ms, success) == (
            InjectorMetrics {
                backend_success_total: (m.backend_success_total + won) as u64,
                backend_failure_total: (m.backend_failure_total + 1 - won) as u64,
                backend_duration_ms_total: (m.backend_duration_ms_total + duration_ms) as u64,
                ..m
            })
        }),
{
}

/// A preview is the text itself, or its first eighty characters and dots.
pub proof fn law_preview_is_short(text: Seq<char>, i: int)
    ensures
        text.len() <= 80 ==> preview_text(text) == text,
        text.len() > 80 ==> preview_text(text).len() == 83,
        text.len() > 80 && 0 <= i < 80 ==> preview_text(text)[i] == text[i],
        text.len() > 80 && 80 <= i < 83 ==> preview_text(text)[i] == '.',
{
    reveal_strlit("...");
}

/// The seat is named by its option, and a flag is there where it is wanted.
pub proof fn law_helper_options(seat: Option<Seq<char>>, wanted: bool, flag: Seq<char>)
    ensures
        seat is None ==> seat_args(seat).len() == 0,
        seat matches Some(s) ==> seat_args(seat).len() == 2 && seat_args(seat)[0] == "--seat"@
            && seat_args(seat)[1] == s,
        wanted ==> flag_arg(wanted, flag).len() == 1 && flag_arg(wanted, flag)[0] == flag,
        !wanted ==> flag_arg(wanted, flag).len() == 0,
{
}

// ---- what calls decide

/// Whatever steps are sent for a shortcut: they strike `V` once, control is held when it goes
/// down, shift is held just for the shortcut that has it, and no key stays down.
pub proof fn law_sent_chord_is_the_shortcut(
    shortcut: PasteShortcut,
    steps: Vec<ChordStep>,
    at: int,
    key: KeyCode,
)
    requires
        call_ensures(chord_steps, (shortcut,), steps),
        0 <= at < steps@.len(),
        steps@[at] == (ChordStep::Key { key: KeyCode { code: 47 }, down: true }),
    ensures
        struck_only_at(steps@, at),
        held_after(steps@, at, KeyCode { code: 29 }),
        held_after(steps@, at, KeyCode { code: 42 }) <==> shortcut == PasteShortcut::CtrlShiftV,
        !held_after(steps@, steps@.len() as int, key),
{
    law_paste_is_struck_with_its_modifiers(shortcut, at, KeyCode { code: 47 });
    law_chord_releases_every_key(shortcut, key);
    let s = chord_steps_of(shortcut);
    match shortcut {
        PasteShortcut::CtrlV => {
            assert(s.len() == 5);
            assert(at == 1);
        },
        PasteShortcut::CtrlShiftV => {
            assert(s.len() == 7);
            assert(at == 2);
        },
    }
}

/// A forced shortcut is the only one tried; else what was decided for the surface is.
pub proof fn law_forced_shortcut_stands_alone(
    forced: Option<PasteShortcut>,
    source: &str,
    decision: RouteDecision,
    r: RouteChoice,
)
    requires
        call_ensures(choose_route, (forced, source, decision), r),
    ensures
        forced matches Some(shortcut) ==> r.primary == shortcut && r.adaptive_fallback is None,
        forced is None ==> r.primary == decision.primary && r.adaptive_fallback
            == decision.adaptive_fallback && r.class@ == decision.class@ && r.reason@
            == decision.reason@ && r.focus_source@ == source@,
{
}

/// A helper command that has exited is never killed; one that has not is killed once its time is
/// up, and waited for until then.
pub proof fn law_helper_is_killed_when_its_time_is_up(
    exited: bool,
    elapsed_ms: u64,
    timeout_ms: u64,
    r: ChildWait,
)
    requires
        call_ensures(child_wait, (exited, elapsed_ms, timeout_ms), r),
    ensures
        r is Exited <==> exited,
        r is Kill <==> !exited && timeout_ms <= elapsed_ms,
        r matches ChildWait::Sleep { ms } ==> ms > 0,
{
}

/// The helpers are told the seat and the selection that is meant, and no other.
pub proof fn law_helpers_are_told_what_is_meant(
    seat: &Option<String>,
    primary: bool,
    foreground: bool,
    copy: Vec<String>,
    paste: Vec<String>,
)
    requires
        call_ensures(wl_copy_args, (seat, primary, foreground), copy),
        call_ensures(wl_paste_args, (seat, primary), paste),
    ensures
        copy@.len() == 2 + (if seat is Some { 2int } else { 0 }) + (if primary { 1int } else { 0 })
            + (if foreground { 1int } else { 0 }),
        paste@.len() == 1 + (if seat is Some { 2int } else { 0 }) + (if primary {
            1int
        } else {
            0
        }),
        copy@[0]@ == "--type"@ && copy@[1]@ == "text/plain;charset=utf-8"@,
        paste@[0]@ == "--no-newline"@,
        seat matches Some(s) ==> copy@[2]@ == "--seat"@ && copy@[3]@ == s@ && paste@[1]@
            == "--seat"@ && paste@[2]@ == s@,
        primary ==> paste@.last()@ == "--primary"@,
        foreground ==> copy@.last()@ == "--foreground"@,
        primary && !foreground ==> copy@.last()@ == "--primary"@,
{
    assert(texts(copy@).len() == copy@.len());
    assert(texts(paste@).len() == paste@.len());
    assert forall|i: int| 0 <= i < copy@.len() implies texts(copy@)[i] == (#[trigger] copy@[i])@ by {}
    assert forall|i: int| 0 <= i < paste@.len() implies texts(paste@)[i] == (#[trigger] paste@[i])@ by {}
}

/// A shortcut that is run adds one report to those before it, and the report says how it ended;
/// the attempt is counted among the successes or the failures of its stage.
pub proof fn law_run_adds_one_report<S: PasteChordSender>(
    shortcut: PasteShortcut,
    sender: &PasteKeySender<S>,
    attempt: ShortcutAttemptContext,
)
    ensures
        forall|
            reports: &mut Vec<BackendAttemptReport>,
            metrics: &mut InjectorMetrics,
            r: Result<(), String>,
        | #[trigger]
            call_ensures(
                run_shortcut_with_sender::<S>,
                (shortcut, sender, attempt, reports, metrics),
                r,
            ) ==> {
                &&& final(reports)@.len() == reports@.len() + 1
                &&& final(reports)@.drop_last() == reports@
                &&& final(reports)@.last().error is None <==> r is Ok
                &&& r matches Err(why) ==> final(reports)@.last().error->0@ == why@
                &&& final(reports)@.last().route_attempt_name@ == attempt.route_attempt_name@
                &&& final(reports)@.last().route_attempt_index == attempt.route_attempt_index
            },
{
}

} // verus!
