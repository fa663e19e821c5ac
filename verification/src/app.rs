//! The client's loop, event by event: the talk key, the daemon, reports of injections and the
//! progress of answers.
use vstd::prelude::*;

use crate::client_session::{
    answer_finished, answer_so_far, connection_dropped, deferred_reason, defers_end, event_after,
    focus_for, handle_server_message, idle, job_after, may_have_hint, next_number, no_session,
    numbered, router_after, session_after, since, since_stop, without_session, CapturedParentFocus,
    ClientSessionAction, ClientSessionRuntime, ClientSessionStartBlocker, LlmModel, SessionIntent,
    SessionModel,
};
use crate::config::ClientConfig;
use crate::hotkey::{
    parse_key_name, parse_pre_modifier_key_names, parsed_key, parsed_keys, HotkeyIntent,
};
use crate::injector::{one_more, KeyCode};
use crate::injector_runtime::{InjectionJob, InjectionOrigin, InjectionReport};
use crate::llm::{kept_answer, sanitize_model_answer, LlmProgress};
use crate::overlay_ipc::OverlayTextProducer;
use crate::overlay_router::{
    admission, admits, hint_events, session_end, state_routed, text_routed, OverlayEvent,
    OverlayRouter, OverlayRoutingMetrics,
};
use crate::protocol::{
    session_text, start_message, stop_message, ClientMessage, ServerMessage, SessionId,
};
use crate::state::PttState;
use crate::surface_focus::ParentFocusCapture;
use crate::text::{cat2, cat3, opt_string};

verus! {

/// How often the loop's lag is sampled, in milliseconds.
pub const EVENT_LOOP_LAG_TICK_MS: u64 = 10;

/// How often the loop's lag is logged, in seconds.
pub const EVENT_LOOP_LAG_LOG_INTERVAL_SECS: u64 = 30;

/// After how many presses and releases the counters are logged again.
pub const HOTKEY_INTENT_DIAGNOSTIC_LOG_INTERVAL_EVENTS: u64 = 20;

/// What the overlay shows when the talk key is pressed while an answer is being generated.
pub const LLM_BUSY_STATE: &'static str = "LLM busy; wait for current answer";

/// What the overlay shows while an answer is being generated.
pub const LLM_GENERATING_STATE: &'static str = "Generating answer...";

// ---- which keys

/// Where presses of the talk key come from, and the name of the keys that ask for an answer.
#[derive(Debug)]
pub struct EvdevHotkeySource {
    pub llm_pre_modifier_key_name: String,
}

/// A key name in the settings that stands for no key.
#[derive(Debug)]
pub struct KeyNameError {
    pub context: String,
    pub cause: String,
}

impl EvdevHotkeySource {
    /// A source with the name of the keys that ask for an answer.
    pub fn new(llm_pre_modifier_key_name: String) -> (r: EvdevHotkeySource)
        ensures
            r.llm_pre_modifier_key_name == llm_pre_modifier_key_name,
    {
        EvdevHotkeySource { llm_pre_modifier_key_name }
    }

    /// The talk key and the keys that ask for an answer, by their names.
    pub fn keys(&self, config: &ClientConfig) -> (r: Result<(KeyCode, Vec<KeyCode>), KeyNameError>)
        ensures
            match r {
                Ok((talk, modifiers)) => parsed_key(config.hotkey@) == Ok::<KeyCode, Seq<char>>(
                    talk,
                ) && parsed_keys(self.llm_pre_modifier_key_name@) == Ok::<
                    Seq<KeyCode>,
                    Seq<char>,
                >(modifiers@),
                Err(e) => match parsed_key(config.hotkey@) {
                    Err(cause) => e.cause@ == cause && e.context@ == "invalid --hotkey value '"@
                        + config.hotkey@ + "'"@,
                    Ok(_) => parsed_keys(self.llm_pre_modifier_key_name@) == Err::<
                        Seq<KeyCode>,
                        Seq<char>,
                    >(e.cause@) && e.context@ == "invalid --llm-pre-modifier-key value '"@
                        + self.llm_pre_modifier_key_name@ + "'"@,
                },
            },
    {
        let talk = match parse_key_name(config.hotkey.as_str()) {
            Ok(key) => key,
            Err(cause) => {
                let context = cat3("invalid --hotkey value '", config.hotkey.as_str(), "'");
                return Err(KeyNameError { context, cause });
            },
        };
        match parse_pre_modifier_key_names(self.llm_pre_modifier_key_name.as_str()) {
            Ok(modifiers) => Ok((talk, modifiers)),
            Err(cause) => {
                let context = cat3(
                    "invalid --llm-pre-modifier-key value '",
                    self.llm_pre_modifier_key_name.as_str(),
                    "'",
                );
                Err(KeyNameError { context, cause })
            },
        }
    }
}

/// What a session started by the talk key is for.
pub open spec fn session_intent(intent: HotkeyIntent) -> SessionIntent {
    match intent {
        HotkeyIntent::Dictate => SessionIntent::Dictate,
        HotkeyIntent::LlmQuery => SessionIntent::LlmQuery,
    }
}

/// What a session started by the talk key is for.
pub fn session_intent_from_hotkey(intent: HotkeyIntent) -> (r: SessionIntent)
    ensures
        r == session_intent(intent),
{
    match intent {
        HotkeyIntent::Dictate => SessionIntent::Dictate,
        HotkeyIntent::LlmQuery => SessionIntent::LlmQuery,
    }
}

// ---- counters

/// What became of presses and releases of the talk key.
#[derive(Debug, Clone, Copy, PartialEq, Eq, Structural)]
pub struct HotkeyIntentDiagnostics {
    pub hotkey_down_total: u64,
    pub hotkey_down_dictate_total: u64,
    pub hotkey_down_llm_query_total: u64,
    pub hotkey_down_ignored_total: u64,
    pub hotkey_up_total: u64,
    pub hotkey_up_ignored_total: u64,
    pub llm_busy_reject_total: u64,
    pub last_logged_hotkey_events: u64,
}

/// Nothing has happened.
pub open spec fn no_presses() -> HotkeyIntentDiagnostics {
    HotkeyIntentDiagnostics {
        hotkey_down_total: 0,
        hotkey_down_dictate_total: 0,
        hotkey_down_llm_query_total: 0,
        hotkey_down_ignored_total: 0,
        hotkey_up_total: 0,
        hotkey_up_ignored_total: 0,
        llm_busy_reject_total: 0,
        last_logged_hotkey_events: 0,
    }
}

/// The counters after a press.
pub open spec fn down_noted(d: HotkeyIntentDiagnostics, intent: SessionIntent) ->
    HotkeyIntentDiagnostics {
    let n = HotkeyIntentDiagnostics { hotkey_down_total: one_more(d.hotkey_down_total), ..d };
    match intent {
        SessionIntent::Dictate => HotkeyIntentDiagnostics {
            hotkey_down_dictate_total: one_more(d.hotkey_down_dictate_total),
            ..n
        },
        SessionIntent::LlmQuery => HotkeyIntentDiagnostics {
            hotkey_down_llm_query_total: one_more(d.hotkey_down_llm_query_total),
            ..n
        },
    }
}

/// The counters after a press that was ignored.
pub open spec fn down_ignored_noted(d: HotkeyIntentDiagnostics) -> HotkeyIntentDiagnostics {
    HotkeyIntentDiagnostics {
        hotkey_down_ignored_total: one_more(d.hotkey_down_ignored_total),
        ..d
    }
}

/// The counters after a release.
pub open spec fn up_noted(d: HotkeyIntentDiagnostics) -> HotkeyIntentDiagnostics {
    HotkeyIntentDiagnostics { hotkey_up_total: one_more(d.hotkey_up_total), ..d }
}

/// The counters after a release that was ignored.
pub open spec fn up_ignored_noted(d: HotkeyIntentDiagnostics) -> HotkeyIntentDiagnostics {
    HotkeyIntentDiagnostics { hotkey_up_ignored_total: one_more(d.hotkey_up_ignored_total), ..d }
}

/// The counters after a press was turned away because an answer was being generated.
pub open spec fn busy_noted(d: HotkeyIntentDiagnostics) -> HotkeyIntentDiagnostics {
    HotkeyIntentDiagnostics { llm_busy_reject_total: one_more(d.llm_busy_reject_total), ..d }
}

/// The sum of two counters, not past the largest.
pub open spec fn full_sum(a: u64, b: u64) -> u64 {
    if a + b <= u64::MAX {
        (a + b) as u64
    } else {
        u64::MAX
    }
}

/// Whether the counters are to be logged again.
pub open spec fn summary_due(d: HotkeyIntentDiagnostics) -> bool {
    let events = full_sum(d.hotkey_down_total, d.hotkey_up_total);
    events != 0 && events >= full_sum(
        d.last_logged_hotkey_events,
        HOTKEY_INTENT_DIAGNOSTIC_LOG_INTERVAL_EVENTS,
    )
}

/// The counters after it was settled whether to log them.
pub open spec fn summary_noted(d: HotkeyIntentDiagnostics) -> HotkeyIntentDiagnostics {
    if summary_due(d) {
        HotkeyIntentDiagnostics {
            last_logged_hotkey_events: full_sum(d.hotkey_down_total, d.hotkey_up_total),
            ..d
        }
    } else {
        d
    }
}

impl Default for HotkeyIntentDiagnostics {
    /// Nothing has happened.
    fn default() -> (r: HotkeyIntentDiagnostics)
        ensures
            r == no_presses(),
    {
        HotkeyIntentDiagnostics {
            hotkey_down_total: 0,
            hotkey_down_dictate_total: 0,
            hotkey_down_llm_query_total: 0,
            hotkey_down_ignored_total: 0,
            hotkey_up_total: 0,
            hotkey_up_ignored_total: 0,
            llm_busy_reject_total: 0,
            last_logged_hotkey_events: 0,
        }
    }
}

impl HotkeyIntentDiagnostics {
    /// Counts a press. A full counter stays full, here and below.
    pub fn note_hotkey_down(&mut self, intent: SessionIntent)
        ensures
            *final(self) == down_noted(*old(self), intent),
    {
        self.hotkey_down_total = self.hotkey_down_total.saturating_add(1);
        match intent {
            SessionIntent::Dictate => {
                self.hotkey_down_dictate_total = self.hotkey_down_dictate_total.saturating_add(1);
            },
            SessionIntent::LlmQuery => {
                self.hotkey_down_llm_query_total =
                self.hotkey_down_llm_query_total.saturating_add(1);
            },
        }
    }

    /// Counts a press that was ignored.
    pub fn note_hotkey_down_ignored(&mut self)
        ensures
            *final(self) == down_ignored_noted(*old(self)),
    {
        self.hotkey_down_ignored_total = self.hotkey_down_ignored_total.saturating_add(1);
    }

    /// Counts a release.
    pub fn note_hotkey_up(&mut self)
        ensures
            *final(self) == up_noted(*old(self)),
    {
        self.hotkey_up_total = self.hotkey_up_total.saturating_add(1);
    }

    /// Counts a release that was ignored.
    pub fn note_hotkey_up_ignored(&mut self)
        ensures
            *final(self) == up_ignored_noted(*old(self)),
    {
        self.hotkey_up_ignored_total = self.hotkey_up_ignored_total.saturating_add(1);
    }

    /// Counts a press that was turned away because an answer was being generated.
    pub fn note_llm_busy_reject(&mut self)
        ensures
            *final(self) == busy_noted(*old(self)),
    {
        self.llm_busy_reject_total = self.llm_busy_reject_total.saturating_add(1);
    }

    /// Tells whether the counters are to be logged, and remembers when they were.
    pub fn maybe_log_summary(&mut self) -> (r: bool)
        ensures
            r == summary_due(*old(self)),
            *final(self) == summary_noted(*old(self)),
    {
        let events: u64 = self.hotkey_down_total.saturating_add(self.hotkey_up_total);
        if events == 0 {
            return false;
        }
        if events < self.last_logged_hotkey_events.saturating_add(
            HOTKEY_INTENT_DIAGNOSTIC_LOG_INTERVAL_EVENTS,
        ) {
            return false;
        }
        self.last_logged_hotkey_events = events;
        true
    }

    /// Whether there is anything to log.
    pub fn log_summary(&self) -> (r: bool)
        ensures
            r == (self.hotkey_down_total != 0 || self.hotkey_up_total != 0),
    {
        !(self.hotkey_down_total == 0 && self.hotkey_up_total == 0)
    }
}

/// Two summaries in a row are at least the interval apart.
pub proof fn law_summaries_are_apart(d: HotkeyIntentDiagnostics, later: HotkeyIntentDiagnostics)
    requires
        summary_due(d),
        later.last_logged_hotkey_events == summary_noted(d).last_logged_hotkey_events,
        summary_due(later),
        full_sum(d.hotkey_down_total, d.hotkey_up_total) + 20 <= u64::MAX,
    ensures
        full_sum(later.hotkey_down_total, later.hotkey_up_total) >= full_sum(
            d.hotkey_down_total,
            d.hotkey_up_total,
        ) + HOTKEY_INTENT_DIAGNOSTIC_LOG_INTERVAL_EVENTS,
{
}

// ---- the lag of the loop

/// The value below which so many percent of ascending samples lie.
pub open spec fn percentile(samples: Seq<u64>, percent: int) -> u64 {
    if samples.len() == 0 {
        0
    } else {
        samples[(samples.len() - 1) * (if percent < 100 {
            percent
        } else {
            100
        }) / 100]
    }
}

/// The value below which so many percent of ascending samples lie; above 100 counts as 100.
pub fn percentile_value(sorted_samples: &Vec<u64>, percentile: u64) -> (r: u64)
    ensures
        r == self::percentile(sorted_samples@, percentile as int),
{
    let len: usize = sorted_samples.len();
    if len == 0 {
        return 0;
    }
    let pct: u128 = if percentile < 100 {
        percentile as u128
    } else {
        100
    };
    let last: u128 = (len - 1) as u128;
    assert(last * pct <= last * 100 && last * pct >= 0) by (nonlinear_arith)
        requires
            pct <= 100,
    ;
    let idx: u128 = last * pct / 100;
    sorted_samples[idx as usize]
}

/// Samples in ascending order.
pub open spec fn ordered(samples: Seq<u64>) -> bool {
    forall|i: int, j: int| 0 <= i <= j < samples.len() ==> samples[i] <= samples[j]
}

/// Sorts samples.
///
/// Calls `<[u64]>::sort_unstable` of std. The contract says what std documents: the same
/// samples, in ascending order.
#[verifier::external_body]
fn sort_samples(samples: &mut Vec<u64>)
    ensures
        ordered(final(samples)@),
        final(samples)@.to_multiset() == old(samples)@.to_multiset(),
{
    samples.sort_unstable();
}

/// What is logged of the loop's lag.
#[derive(Debug, Clone, Copy, PartialEq, Eq, Structural)]
pub struct LagSummary {
    pub sample_count: usize,
    pub lag_p50_ms: u64,
    pub lag_p95_ms: u64,
    pub lag_p99_ms: u64,
}

/// The lag of the loop since the last log.
#[derive(Debug)]
pub struct LagMonitor {
    pub samples_ms: Vec<u64>,
    pub last_log_ms: u64,
}

/// Whether a summary is that of the samples, in ascending order.
pub open spec fn summarizes(s: LagSummary, samples: Seq<u64>) -> bool {
    s.sample_count == samples.len() && exists|sorted: Seq<u64>|
        #![trigger ordered(sorted)]
        ordered(sorted) && sorted.to_multiset() == samples.to_multiset() && s.lag_p50_ms
            == percentile(sorted, 50) && s.lag_p95_ms == percentile(sorted, 95) && s.lag_p99_ms
            == percentile(sorted, 99)
}

impl LagMonitor {
    /// No samples yet.
    pub fn new(now_ms: u64) -> (r: LagMonitor)
        ensures
            r.samples_ms@.len() == 0,
            r.last_log_ms == now_ms,
    {
        LagMonitor { samples_ms: Vec::new(), last_log_ms: now_ms }
    }

    /// Takes a sample; gives a summary, and starts anew, when it is time for one.
    pub fn tick(&mut self, lag_ms: u64, now_ms: u64) -> (r: Option<LagSummary>)
        ensures
            now_ms - old(self).last_log_ms >= 30_000 ==> {
                &&& r matches Some(s) && summarizes(s, old(self).samples_ms@.push(lag_ms))
                &&& final(self).samples_ms@.len() == 0
                &&& final(self).last_log_ms == now_ms
            },
            now_ms - old(self).last_log_ms < 30_000 ==> {
                &&& r is None
                &&& final(self).samples_ms@ == old(self).samples_ms@.push(lag_ms)
                &&& final(self).last_log_ms == old(self).last_log_ms
            },
    {
        self.samples_ms.push(lag_ms);
        if now_ms.saturating_sub(self.last_log_ms) < EVENT_LOOP_LAG_LOG_INTERVAL_SECS * 1000 {
            return None;
        }
        let ghost taken = self.samples_ms@;
        sort_samples(&mut self.samples_ms);
        proof {
            taken.to_multiset_ensures();
            self.samples_ms@.to_multiset_ensures();
        }
        let summary = LagSummary {
            sample_count: self.samples_ms.len(),
            lag_p50_ms: percentile_value(&self.samples_ms, 50),
            lag_p95_ms: percentile_value(&self.samples_ms, 95),
            lag_p99_ms: percentile_value(&self.samples_ms, 99),
        };
        assert(ordered(self.samples_ms@));
        self.samples_ms.clear();
        self.last_log_ms = now_ms;
        Some(summary)
    }
}

// ---- reconnecting

/// How long to wait before the first new attempt to connect, in milliseconds.
pub const INITIAL_BACKOFF_MS: u64 = 500;

/// How long to wait at most before a new attempt to connect, in milliseconds.
pub const MAX_BACKOFF_MS: u64 = 10_000;

/// How long to wait after one more failed attempt.
pub open spec fn longer_backoff(backoff_ms: u64) -> u64 {
    if backoff_ms * 2 < MAX_BACKOFF_MS {
        (backoff_ms * 2) as u64
    } else {
        MAX_BACKOFF_MS
    }
}

/// How long to wait after one more failed attempt.
pub fn next_backoff_ms(backoff_ms: u64) -> (r: u64)
    ensures
        r == longer_backoff(backoff_ms),
{
    if backoff_ms < MAX_BACKOFF_MS / 2 {
        backoff_ms * 2
    } else {
        MAX_BACKOFF_MS
    }
}

/// Waits between attempts stay between the first and the longest, and never get shorter.
pub proof fn law_backoff_grows_to_its_limit(backoff_ms: u64)
    requires
        INITIAL_BACKOFF_MS <= backoff_ms <= MAX_BACKOFF_MS,
    ensures
        backoff_ms <= longer_backoff(backoff_ms) <= MAX_BACKOFF_MS,
        longer_backoff(backoff_ms) == backoff_ms ==> backoff_ms == MAX_BACKOFF_MS,
{
}

// ---- the loop's state

/// What the loop keeps while it runs.
#[derive(Debug)]
pub struct ClientCore {
    pub session: ClientSessionRuntime,
    pub router: OverlayRouter,
    pub diagnostics: HotkeyIntentDiagnostics,
}

/// What a press or release of the talk key leads to.
#[derive(Debug)]
pub struct HotkeyEffects {
    pub send: Option<ClientMessage>,
    pub overlay: Vec<OverlayEvent>,
    pub reset_overlay_target: bool,
    /// The session whose stop message is sent: the moment and the focus are to be recorded.
    pub stopped: Option<SessionId>,
    /// Why the counters are to be logged, if they are.
    pub log_reason: Option<&'static str>,
}

/// A question for the language model.
#[derive(Debug)]
pub struct LlmQueryRequest {
    pub session_id: SessionId,
    pub transcript: String,
    pub daemon_latency_ms: u64,
    pub daemon_audio_ms: u64,
}

/// What a message of the daemon leads to.
#[derive(Debug)]
pub struct DaemonEffects {
    pub overlay: Vec<OverlayEvent>,
    pub job: Option<InjectionJob>,
    pub query: Option<LlmQueryRequest>,
}

/// What a report of an injection leads to.
#[derive(Debug)]
pub struct ReportEffects {
    pub overlay: Vec<OverlayEvent>,
    pub play_completion: bool,
}

/// What progress of an answer leads to.
#[derive(Debug)]
pub struct ProgressEffects {
    pub overlay: Vec<OverlayEvent>,
    pub job: Option<InjectionJob>,
    pub reset_overlay_target: bool,
}

/// Whether an event shows, under the given number, that an answer is being generated.
pub open spec fn shows_busy(event: OverlayEvent, seq: u64) -> bool {
    event matches OverlayEvent::InterimState { producer, session_id, seq: n, state } && producer
        == OverlayTextProducer::LlmAnswerDelta && session_id == SessionId::nil_id() && n == seq
        && state@ == LLM_BUSY_STATE@
}

/// Whether an event ends the notice that an answer is being generated.
pub open spec fn ends_busy(event: OverlayEvent) -> bool {
    event matches OverlayEvent::SessionEnded { session_id, reason } && session_id
        == SessionId::nil_id() && opt_string(reason) == Some("busy"@)
}

/// Whether an event shows that the answer of a session is being generated.
pub open spec fn shows_generating(event: OverlayEvent, id: SessionId, seq: u64) -> bool {
    event matches OverlayEvent::InterimState { producer, session_id, seq: n, state } && producer
        == OverlayTextProducer::LlmAnswerDelta && session_id == id && n == seq && state@
        == LLM_GENERATING_STATE@
}

/// Whether an event shows the text of an answer.
pub open spec fn shows_answer(event: OverlayEvent, id: SessionId, seq: u64, text: Seq<char>) ->
    bool {
    event matches OverlayEvent::InterimText { producer, session_id, seq: n, text: t } && producer
        == OverlayTextProducer::LlmAnswerDelta && session_id == id && n == seq && t@ == text
}

/// Whether an event is the end of a session for the given reason.
pub open spec fn shows_end(event: OverlayEvent, id: SessionId, why: Option<Seq<char>>) -> bool {
    event matches OverlayEvent::SessionEnded { session_id, reason } && session_id == id
        && opt_string(reason) == why
}

/// Whether a message starts a push-to-talk session in any language.
pub open spec fn starts_session(message: ClientMessage, id: SessionId) -> bool {
    message matches ClientMessage::StartSession { session_id, mode, preferred_lang } && session_id
        == id && mode@ == "push_to_talk"@ && opt_string(preferred_lang) == Some("auto"@)
}

/// The router after a state of an answer was handed to it.
pub open spec fn answer_state_routed(r: OverlayRouter, id: SessionId, seq: u64) -> OverlayRouter {
    let p = OverlayTextProducer::LlmAnswerDelta;
    if admits(r, None, id, seq, p) {
        state_routed(admission(r, None, id, seq, p))
    } else {
        admission(r, None, id, seq, p)
    }
}

/// The router after the text of an answer was handed to it.
pub open spec fn answer_text_routed(r: OverlayRouter, id: SessionId, seq: u64) -> OverlayRouter {
    let p = OverlayTextProducer::LlmAnswerDelta;
    if admits(r, None, id, seq, p) {
        text_routed(admission(r, None, id, seq, p))
    } else {
        admission(r, None, id, seq, p)
    }
}

/// Whether a message of the daemon is the transcript of a question.
pub open spec fn is_question(m: SessionModel, message: ServerMessage) -> bool {
    m.active_intent == Some(SessionIntent::LlmQuery) && message is FinalResult
}

/// Whether a message of the daemon is put off until the answer has come.
pub open spec fn is_deferred(m: SessionModel, message: ServerMessage) -> bool {
    message matches ServerMessage::SessionEnded { session_id, .. } && defers_end(m, session_id)
}

/// The session after an end was put off.
pub open spec fn end_deferred(m: SessionModel, message: ServerMessage) -> SessionModel {
    match message {
        ServerMessage::SessionEnded { session_id, reason } => SessionModel {
            llm: LlmModel {
                deferred: m.llm.deferred.insert(session_id.bits, opt_string(reason)),
                ..m.llm
            },
            ..m
        },
        _ => m,
    }
}

/// The session after its question went to the language model.
pub open spec fn question_asked(m: SessionModel, id: SessionId) -> SessionModel {
    idle(
        SessionModel {
            llm: LlmModel { busy: true, in_flight: Some(id), ..numbered(m.llm, id) },
            ..m
        },
    )
}

/// The text to inject for an answer: what is shown of it, or the question itself when there is
/// none.
pub open spec fn answer_text(transcript: Seq<char>, result: Result<String, String>) -> Seq<char> {
    match result {
        Ok(answer) => kept_answer(answer@),
        Err(_) => transcript,
    }
}

impl ClientCore {
    /// No session, and nothing has happened.
    pub fn new() -> (r: ClientCore)
        ensures
            r.session.model() == no_session(),
            r.router == (OverlayRouter {
                metrics: OverlayRoutingMetrics {
                    routed_interim_state_total: 0,
                    routed_interim_text_total: 0,
                    routed_session_ended_total: 0,
                    dropped_stale_seq_total: 0,
                    dropped_session_mismatch_total: 0,
                },
                active_session_id: None,
                last_daemon_seq: None,
                last_llm_seq: None,
            }),
            r.diagnostics == no_presses(),
    {
        ClientCore {
            session: ClientSessionRuntime::new(),
            router: OverlayRouter::new(),
            diagnostics: HotkeyIntentDiagnostics::default(),
        }
    }

    /// Takes a press of the talk key; a session, if one starts, gets the given identity.
    ///
    /// While an answer is being generated the press is turned away, with a notice on the
    /// overlay. Otherwise a session starts if none is under way, and the press is ignored if
    /// one is.
    pub fn hotkey_down_as<F: FnOnce() -> Option<String>>(
        &mut self,
        intent: HotkeyIntent,
        session_id: SessionId,
        output_hint: F,
    ) -> (r: HotkeyEffects)
        requires
            output_hint.requires(()),
        ensures
            r.stopped is None,
            old(self).session.model().llm.busy ==> {
                let m = old(self).session.model();
                let n = one_more(m.llm.busy_seq);
                let nil = SessionId::nil_id();
                let counted = busy_noted(down_noted(old(self).diagnostics, session_intent(intent)));
                &&& final(self).session.model() == (SessionModel {
                    llm: LlmModel { busy_seq: n, ..m.llm },
                    ..m
                })
                &&& final(self).router == session_end(
                    answer_state_routed(old(self).router, nil, n),
                    None,
                    nil,
                )
                &&& final(self).diagnostics == summary_noted(counted)
                &&& r.send is None
                &&& r.reset_overlay_target
                &&& r.log_reason is Some == summary_due(counted)
                &&& r.log_reason is Some ==> r.log_reason->0@ == "hotkey_down_busy"@
                &&& r.overlay@.len() > 0 && ends_busy(r.overlay@.last())
                &&& if admits(
                    old(self).router,
                    None,
                    nil,
                    n,
                    OverlayTextProducer::LlmAnswerDelta,
                ) {
                    exists|hint: Option<String>, event: OverlayEvent|
                        output_hint.ensures((), hint) && shows_busy(event, n)
                            && r.overlay@.drop_last() == #[trigger] hint_events(hint).push(event)
                } else {
                    r.overlay@.len() == 1
                }
            },
            !old(self).session.model().llm.busy ==> {
                let m = old(self).session.model();
                let starts = m.state == PttState::Idle;
                let pressed = down_noted(old(self).diagnostics, session_intent(intent));
                let counted = if starts {
                    pressed
                } else {
                    down_ignored_noted(pressed)
                };
                &&& final(self).session.model() == if starts {
                    SessionModel {
                        state: PttState::Listening { session_id },
                        active_intent: Some(session_intent(intent)),
                        ..m
                    }
                } else {
                    m
                }
                &&& final(self).router == old(self).router
                &&& final(self).diagnostics == summary_noted(counted)
                &&& starts ==> r.send is Some && starts_session(r.send->0, session_id)
                &&& !starts ==> r.send is None
                &&& !r.reset_overlay_target
                &&& r.log_reason is Some == summary_due(counted)
                &&& r.log_reason is Some ==> r.log_reason->0@ == "hotkey_down"@
                &&& r.overlay@.len() == 0
            },
    {
        let intent = session_intent_from_hotkey(intent);
        self.diagnostics.note_hotkey_down(intent);
        let blocker = if self.session.is_llm_busy() {
            Some(ClientSessionStartBlocker::LlmBusy)
        } else {
            None
        };
        let busy = blocker.is_some();
        let action = self.session.hotkey_down_as(intent, blocker, session_id);
        if busy {
            let (nil, seq) = self.session.note_llm_busy_overlay_rejection();
            let mut overlay = self.router.route_llm_answer_state_with_output_hint(
                nil,
                seq,
                LLM_BUSY_STATE.to_owned(),
                output_hint,
            );
            let ghost before = overlay@;
            let mut ended = self.router.route_session_ended(None, nil, Some("busy".to_owned()));
            let ghost end_event = ended@[0];
            overlay.append(&mut ended);
            assert(overlay@ =~= before.push(end_event));
            assert(overlay@.drop_last() =~= before);
            self.diagnostics.note_llm_busy_reject();
            let log = self.diagnostics.maybe_log_summary();
            return HotkeyEffects {
                send: None,
                overlay,
                reset_overlay_target: true,
                stopped: None,
                log_reason: if log {
                    Some("hotkey_down_busy")
                } else {
                    None
                },
            };
        }
        let send: Option<ClientMessage> = match action {
            ClientSessionAction::StartSession { session_id: started, .. } => Some(
                start_message(started, Some("auto".to_owned())),
            ),
            _ => {
                self.diagnostics.note_hotkey_down_ignored();
                None
            },
        };
        let log = self.diagnostics.maybe_log_summary();
        HotkeyEffects {
            send,
            overlay: Vec::new(),
            reset_overlay_target: false,
            stopped: None,
            log_reason: if log {
                Some("hotkey_down")
            } else {
                None
            },
        }
    }

    /// Takes a release of the talk key: the session that listens is stopped.
    pub fn hotkey_up(&mut self) -> (r: HotkeyEffects)
        ensures
            final(self).router == old(self).router,
            r.overlay@.len() == 0,
            !r.reset_overlay_target,
            r.log_reason is Some ==> r.log_reason->0@ == "hotkey_up"@,
            ({
                let m = old(self).session.model();
                let released = up_noted(old(self).diagnostics);
                let counted = if m.state is Listening {
                    released
                } else {
                    up_ignored_noted(released)
                };
                &&& final(self).diagnostics == summary_noted(counted)
                &&& r.log_reason is Some == summary_due(counted)
                &&& match m.state {
                    PttState::Listening { session_id } => {
                        &&& final(self).session.model() == (SessionModel {
                            state: PttState::WaitingResult { session_id },
                            ..m
                        })
                        &&& r.send == Some(ClientMessage::StopSession { session_id })
                        &&& r.stopped == Some(session_id)
                    },
                    _ => {
                        &&& final(self).session.model() == m
                        &&& r.send is None
                        &&& r.stopped is None
                    },
                }
            }),
    {
        self.diagnostics.note_hotkey_up();
        let action = self.session.handle_hotkey_up();
        let stopped: Option<SessionId> = match action {
            ClientSessionAction::StopSession { session_id } => Some(session_id),
            _ => {
                self.diagnostics.note_hotkey_up_ignored();
                None
            },
        };
        let send: Option<ClientMessage> = match stopped {
            Some(session_id) => Some(stop_message(session_id)),
            None => None,
        };
        let log = self.diagnostics.maybe_log_summary();
        HotkeyEffects {
            send,
            overlay: Vec::new(),
            reset_overlay_target: false,
            stopped,
            log_reason: if log {
                Some("hotkey_up")
            } else {
                None
            },
        }
    }

    /// Takes a message of the daemon.
    ///
    /// The end of a session whose answer is still to come is put off. The final result of a
    /// question goes to the language model, if it is for the session under way, and nowhere
    /// else. Anything else is handled as a message of a dictation.
    pub fn daemon_message<F: FnOnce() -> Option<String>>(
        &mut self,
        message: ServerMessage,
        now_ms: u64,
        output_hint: F,
    ) -> (r: DaemonEffects)
        requires
            output_hint.requires(()),
        ensures
            final(self).diagnostics == old(self).diagnostics,
            is_deferred(old(self).session.model(), message) ==> {
                &&& final(self).session.model() == end_deferred(
                    old(self).session.model(),
                    message,
                )
                &&& final(self).router == old(self).router
                &&& r.overlay@.len() == 0 && r.job is None && r.query is None
            },
            is_question(old(self).session.model(), message) ==> {
                let m = old(self).session.model();
                &&& r.job is None
                &&& message matches ServerMessage::FinalResult {
                    session_id,
                    text,
                    latency_ms,
                    audio_ms,
                    ..
                } && if m.state.session() == Some(session_id) {
                    let n = next_number(m.llm.seq, session_id);
                    &&& final(self).session.model() == question_asked(m, session_id)
                    &&& final(self).router == answer_state_routed(
                        old(self).router,
                        session_id,
                        n,
                    )
                    &&& r.query == Some(
                        LlmQueryRequest {
                            session_id,
                            transcript: text,
                            daemon_latency_ms: latency_ms,
                            daemon_audio_ms: audio_ms,
                        },
                    )
                    &&& if admits(
                        old(self).router,
                        None,
                        session_id,
                        n,
                        OverlayTextProducer::LlmAnswerDelta,
                    ) {
                        exists|hint: Option<String>, event: OverlayEvent|
                            output_hint.ensures((), hint) && shows_generating(
                                event,
                                session_id,
                                n,
                            ) && r.overlay@ == #[trigger] hint_events(hint).push(event)
                    } else {
                        r.overlay@.len() == 0
                    }
                } else {
                    &&& final(self).session.model() == m
                    &&& final(self).router == old(self).router
                    &&& r.overlay@.len() == 0 && r.query is None
                }
            },
            !is_deferred(old(self).session.model(), message) && !is_question(
                old(self).session.model(),
                message,
            ) ==> {
                let m = old(self).session.model();
                &&& r.query is None
                &&& final(self).session.model() == session_after(m, message)
                &&& final(self).router == router_after(m, old(self).router, message)
                &&& r.job == job_after(m, message, now_ms)
                &&& match event_after(m, old(self).router, message) {
                    None => r.overlay@.len() == 0,
                    Some(event) => if may_have_hint(event) {
                        exists|hint: Option<String>|
                            output_hint.ensures((), hint) && r.overlay@ == #[trigger] hint_events(
                                hint,
                            ).push(event)
                    } else {
                        r.overlay@ == seq![event]
                    },
                }
            },
    {
        if self.session.defer_session_end_if_needed(&message).is_some() {
            return DaemonEffects { overlay: Vec::new(), job: None, query: None };
        }
        let asks = self.session.active_intent() == Some(SessionIntent::LlmQuery);
        match message {
            ServerMessage::FinalResult { session_id, text, latency_ms, audio_ms, .. } if asks => {
                if !self.session.final_result_belongs_to_active_session(session_id) {
                    return DaemonEffects { overlay: Vec::new(), job: None, query: None };
                }
                let seq: u64 = self.session.start_llm_answer(session_id);
                let overlay = self.router.route_llm_answer_state_with_output_hint(
                    session_id,
                    seq,
                    LLM_GENERATING_STATE.to_owned(),
                    output_hint,
                );
                let query = LlmQueryRequest {
                    session_id,
                    transcript: text,
                    daemon_latency_ms: latency_ms,
                    daemon_audio_ms: audio_ms,
                };
                DaemonEffects { overlay, job: None, query: Some(query) }
            },
            known => {
                let effects = handle_server_message(
                    known,
                    &mut self.session,
                    &mut self.router,
                    now_ms,
                    output_hint,
                );
                DaemonEffects { overlay: effects.overlay, job: effects.job, query: None }
            },
        }
    }

    /// Takes a report of an injection: the overlay learns how it went, and a success is heard.
    pub fn injection_report(&self, report: &InjectionReport) -> (r: ReportEffects)
        ensures
            r.overlay@ == seq![
                OverlayEvent::InjectionComplete {
                    session_id: report.session_id,
                    success: report.error is None,
                },
            ],
            r.play_completion == (report.error is None),
    {
        let success = report.error.is_none();
        ReportEffects {
            overlay: self.router.route_injection_complete(report.session_id, success),
            play_completion: success,
        }
    }

    /// Takes progress of an answer.
    ///
    /// A piece of the answer in flight is shown. Its end ends the session on the overlay and
    /// gives a job: what is shown of the answer, or the question when there is none. Progress of
    /// another answer leads to nothing.
    pub fn llm_progress<F: FnOnce() -> Option<String>>(
        &mut self,
        progress: LlmProgress,
        now_ms: u64,
        output_hint: F,
    ) -> (r: ProgressEffects)
        requires
            output_hint.requires(()),
        ensures
            final(self).diagnostics == old(self).diagnostics,
            ({
                let m = old(self).session.model();
                match progress {
                    LlmProgress::Delta { session_id, delta } => {
                        let n = next_number(m.llm.seq, session_id);
                        let text = answer_so_far(m.llm, session_id) + delta@;
                        &&& r.job is None
                        &&& !r.reset_overlay_target
                        &&& if m.llm.in_flight == Some(session_id) {
                            &&& final(self).session.model() == (SessionModel {
                                llm: numbered(
                                    LlmModel {
                                        overlay_text: m.llm.overlay_text.insert(
                                            session_id.bits,
                                            text,
                                        ),
                                        ..m.llm
                                    },
                                    session_id,
                                ),
                                ..m
                            })
                            &&& final(self).router == answer_text_routed(
                                old(self).router,
                                session_id,
                                n,
                            )
                            &&& if admits(
                                old(self).router,
                                None,
                                session_id,
                                n,
                                OverlayTextProducer::LlmAnswerDelta,
                            ) {
                                exists|hint: Option<String>, event: OverlayEvent|
                                    output_hint.ensures((), hint) && shows_answer(
                                        event,
                                        session_id,
                                        n,
                                        text,
                                    ) && r.overlay@ == #[trigger] hint_events(hint).push(event)
                            } else {
                                r.overlay@.len() == 0
                            }
                        } else {
                            &&& final(self).session.model() == m
                            &&& final(self).router == old(self).router
                            &&& r.overlay@.len() == 0
                        }
                    },
                    LlmProgress::Finished {
                        session_id,
                        transcript,
                        daemon_latency_ms,
                        daemon_audio_ms,
                        result,
                    } => {
                        if m.llm.in_flight == Some(session_id) {
                            &&& final(self).session.model() == answer_finished(m, session_id)
                            &&& final(self).router == session_end(
                                old(self).router,
                                None,
                                session_id,
                            )
                            &&& r.overlay@.len() == 1 && shows_end(
                                r.overlay@[0],
                                session_id,
                                deferred_reason(m.llm, session_id),
                            )
                            &&& r.reset_overlay_target
                            &&& r.job matches Some(job) && {
                                &&& job.text@ == answer_text(transcript@, result)
                                &&& job == (InjectionJob {
                                    session_id,
                                    text: job.text,
                                    daemon_latency_ms,
                                    daemon_audio_ms,
                                    origin: InjectionOrigin::LlmAnswer,
                                    hotkey_up_elapsed_ms_at_enqueue: since(
                                        m.last_hotkey_up_ms,
                                        now_ms,
                                    ),
                                    stop_message_elapsed_ms_at_enqueue: since_stop(
                                        m,
                                        session_id,
                                        now_ms,
                                    ),
                                    parent_focus: focus_for(m, session_id, now_ms),
                                    enqueued_at_ms: now_ms,
                                })
                            }
                        } else {
                            &&& final(self).session.model() == (SessionModel {
                                llm: without_session(m.llm, session_id),
                                ..m
                            })
                            &&& final(self).router == old(self).router
                            &&& r.overlay@.len() == 0
                            &&& r.job is None
                            &&& !r.reset_overlay_target
                        }
                    },
                }
            }),
    {
        match progress {
            LlmProgress::Delta { session_id, delta } => {
                let overlay: Vec<OverlayEvent> = match self.session.record_llm_delta(
                    session_id,
                    delta,
                ) {
                    Some(update) => self.router.route_llm_answer_delta_with_output_hint(
                        session_id,
                        update.seq,
                        update.text,
                        output_hint,
                    ),
                    None => Vec::new(),
                };
                ProgressEffects { overlay, job: None, reset_overlay_target: false }
            },
            LlmProgress::Finished {
                session_id,
                transcript,
                daemon_latency_ms,
                daemon_audio_ms,
                result,
            } => {
                match self.session.finish_llm_answer(session_id, now_ms) {
                    None => ProgressEffects {
                        overlay: Vec::new(),
                        job: None,
                        reset_overlay_target: false,
                    },
                    Some(context) => {
                        let text: String = match result {
                            Ok(answer) => sanitize_model_answer(answer.as_str()),
                            Err(_) => transcript,
                        };
                        let overlay = self.router.route_session_ended(
                            None,
                            session_id,
                            context.session_end_reason,
                        );
                        let job = InjectionJob::new(
                            session_id,
                            text,
                            daemon_latency_ms,
                            daemon_audio_ms,
                            now_ms,
                        ).with_origin(InjectionOrigin::LlmAnswer).with_enqueue_timing(
                            context.hotkey_up_elapsed_ms_at_enqueue,
                            context.stop_message_elapsed_ms_at_enqueue,
                        ).with_parent_focus(context.parent_focus);
                        ProgressEffects { overlay, job: Some(job), reset_overlay_target: true }
                    },
                }
            },
        }
    }

    /// The connection dropped. Tells whether the counters are to be logged.
    pub fn connection_dropped(&mut self) -> (r: bool)
        ensures
            final(self).session.model() == connection_dropped(old(self).session.model()),
            final(self).router == old(self).router,
            final(self).diagnostics == old(self).diagnostics,
            r == (old(self).diagnostics.hotkey_down_total != 0
                || old(self).diagnostics.hotkey_up_total != 0),
    {
        let log = self.diagnostics.log_summary();
        self.session.reset_for_connection_drop();
        log
    }

    /// The stop message of a session was sent, with this focus at that moment.
    pub fn stop_sent(
        &mut self,
        session_id: SessionId,
        focus: Option<ParentFocusCapture>,
        sent_at_ms: u64,
    )
        ensures
            final(self).router == old(self).router,
            final(self).diagnostics == old(self).diagnostics,
            final(self).session.model() == (SessionModel {
                last_hotkey_up_ms: Some(sent_at_ms),
                last_stop: Some((session_id, sent_at_ms)),
                focus: match focus {
                    Some(captured) => old(self).session.model().focus.insert(
                        session_id.bits,
                        CapturedParentFocus { focus: captured, captured_at_ms: sent_at_ms },
                    ),
                    None => old(self).session.model().focus,
                },
                ..old(self).session.model()
            }),
    {
        self.session.record_stop_message_sent(session_id, focus, sent_at_ms);
    }
}

/// The end of a question's session is put off from the press until the answer has come, and not
/// after that.
pub proof fn law_question_ends_after_its_answer(m: SessionModel, id: SessionId)
    requires
        m.active_intent == Some(SessionIntent::LlmQuery),
        m.state.session() == Some(id),
    ensures
        defers_end(m, id),
        defers_end(question_asked(m, id), id),
        !defers_end(answer_finished(question_asked(m, id), id), id),
{
}

/// While an answer is awaited the client is idle but busy, and its pieces are taken; the end of
/// the answer frees it.
pub proof fn law_busy_from_question_to_answer(m: SessionModel, id: SessionId)
    ensures
        question_asked(m, id).llm.busy,
        question_asked(m, id).llm.in_flight == Some(id),
        question_asked(m, id).state == PttState::Idle,
        !answer_finished(question_asked(m, id), id).llm.busy,
        answer_finished(question_asked(m, id), id).llm.in_flight is None,
{
}

// ---- the demonstration run

/// What the demonstration does with a message of the daemon.
#[derive(Debug)]
pub enum DemoStep {
    Wait,
    Inject(InjectionJob),
    Fail(String),
}

/// How the session of an error is shown.
pub open spec fn shown_session(id: Option<SessionId>) -> Seq<char> {
    match id {
        Some(s) => "Some("@ + session_text(s) + ")"@,
        None => "None"@,
    }
}

/// How the session of an error is shown.
fn show_session(id: &Option<SessionId>) -> (r: String)
    ensures
        r@ == shown_session(*id),
{
    match id {
        Some(s) => cat3("Some(", s.text().as_str(), ")"),
        None => "None".to_owned(),
    }
}

/// The session of a demonstration, started and stopped at once, and the messages for that.
pub fn demo_start(session_id: SessionId) -> (r: (
    ClientSessionRuntime,
    ClientMessage,
    ClientMessage,
))
    ensures
        r.0.model() == (SessionModel {
            state: PttState::WaitingResult { session_id },
            active_intent: Some(SessionIntent::Dictate),
            ..no_session()
        }),
        starts_session(r.1, session_id),
        r.2 == (ClientMessage::StopSession { session_id }),
{
    let mut runtime = ClientSessionRuntime::new();
    runtime.begin_listening_as(SessionIntent::Dictate, session_id);
    runtime.stop_listening();
    (runtime, start_message(session_id, Some("auto".to_owned())), stop_message(session_id))
}

/// What a demonstration does with a message of the daemon: the final result of its session is
/// injected, or the text given in its place; an error ends it.
pub fn demo_message(
    runtime: &ClientSessionRuntime,
    message: ServerMessage,
    override_text: &Option<String>,
    now_ms: u64,
) -> (r: DemoStep)
    ensures
        match message {
            ServerMessage::FinalResult { session_id, text, latency_ms, audio_ms, .. } =>
                if runtime.model().state.session() == Some(session_id) {
                    r matches DemoStep::Inject(job) && {
                        &&& job.text@ == match *override_text {
                            Some(t) => t@,
                            None => text@,
                        }
                        &&& job == (InjectionJob {
                            session_id,
                            text: job.text,
                            daemon_latency_ms: latency_ms,
                            daemon_audio_ms: audio_ms,
                            origin: InjectionOrigin::Demo,
                            hotkey_up_elapsed_ms_at_enqueue: None,
                            stop_message_elapsed_ms_at_enqueue: None,
                            parent_focus: None,
                            enqueued_at_ms: now_ms,
                        })
                    }
                } else {
                    r is Wait
                },
            ServerMessage::Error { session_id, code, message: text } => r matches DemoStep::Fail(
                why,
            ) && why@ == "demo failed: daemon returned error for session "@ + shown_session(
                session_id,
            ) + ": "@ + code@ + ": "@ + text@,
            _ => r is Wait,
        },
{
    match message {
        ServerMessage::FinalResult { session_id, text, latency_ms, audio_ms, .. } => {
            if !runtime.final_result_belongs_to_active_session(session_id) {
                return DemoStep::Wait;
            }
            let to_inject: String = match override_text {
                Some(t) => t.as_str().to_owned(),
                None => text,
            };
            let job = InjectionJob::new(
                session_id,
                to_inject,
                latency_ms,
                audio_ms,
                now_ms,
            ).with_origin(InjectionOrigin::Demo);
            DemoStep::Inject(job)
        },
        ServerMessage::Error { session_id, code, message: text } => {
            let session = show_session(&session_id);
            let mut why = cat3(
                "demo failed: daemon returned error for session ",
                session.as_str(),
                ": ",
            );
            why.push_str(code.as_str());
            why.push_str(": ");
            why.push_str(text.as_str());
            DemoStep::Fail(why)
        },
        _ => DemoStep::Wait,
    }
}

/// How a demonstration ends once its injection was reported.
pub fn demo_report(report: &InjectionReport) -> (r: Result<(), String>)
    ensures
        match report.error {
            Some(e) => r matches Err(why) && why@ == "demo injection failed: "@ + e@,
            None => r is Ok,
        },
{
    match &report.error {
        Some(e) => Err(cat2("demo injection failed: ", e.as_str())),
        None => Ok(()),
    }
}

/// How a demonstration ends when the daemon has no more to say.
pub fn demo_end(injection_succeeded: bool) -> (r: Result<(), &'static str>)
    ensures
        injection_succeeded ==> r is Ok,
        !injection_succeeded ==> (r matches Err(why) && why@
            == "demo did not reach final injection"@),
{
    if injection_succeeded {
        Ok(())
    } else {
        Err("demo did not reach final injection")
    }
}

// ---- what the loop is for

/// What the talk key is pressed for is what the session is for.
pub proof fn law_session_is_for_what_was_pressed(intent: HotkeyIntent)
    ensures
        session_intent(intent) == SessionIntent::LlmQuery <==> intent == HotkeyIntent::LlmQuery,
        session_intent(intent) == SessionIntent::Dictate <==> intent == HotkeyIntent::Dictate,
{
}

/// The final result of a session that was started as a question goes to the language model; that
/// of a dictation, and every other message, does not.
pub proof fn law_only_results_of_questions_are_asked(m: SessionModel, message: ServerMessage)
    ensures
        is_question(m, message) <==> m.active_intent == Some(SessionIntent::LlmQuery) && message
            is FinalResult,
        m.active_intent == Some(SessionIntent::Dictate) ==> !is_question(m, message),
        m.active_intent is None ==> !is_question(m, message),
        !(message is SessionEnded) ==> !is_deferred(m, message),
{
}

/// An answer is injected without what the model thought aloud and without white space around it;
/// where there is none, the question itself is injected, unchanged.
pub proof fn law_answer_or_question_is_injected(
    transcript: Seq<char>,
    result: Result<String, String>,
)
    ensures
        result is Err ==> answer_text(transcript, result) == transcript,
        result matches Ok(answer) ==> (!crate::text::holds_text(answer@, "<think>"@)
            ==> answer_text(transcript, result) == crate::text::trim(answer@)),
        result is Ok ==> !crate::text::holds_text(answer_text(transcript, result), "<think>"@),
{
    if let Ok(answer) = result {
        crate::llm::law_kept_answer_shows_no_thinking(answer@);
        if !crate::text::holds_text(answer@, "<think>"@) {
            crate::llm::law_plain_answer_is_only_trimmed(answer@);
        }
    }
}

/// A question that went to the model frees the session and keeps everything else: what was
/// recorded for it is still there when its answer comes, and its numbers go on.
pub proof fn law_question_keeps_what_was_recorded(m: SessionModel, id: SessionId, now_ms: u64)
    ensures
        ({
            let q = question_asked(m, id);
            &&& q.state == PttState::Idle
            &&& q.active_intent is None
            &&& q.llm.busy
            &&& q.llm.in_flight == Some(id)
            &&& focus_for(q, id, now_ms) == focus_for(m, id, now_ms)
            &&& q.last_hotkey_up_ms == m.last_hotkey_up_ms
            &&& q.last_stop == m.last_stop
            &&& deferred_reason(q.llm, id) == deferred_reason(m.llm, id)
            &&& answer_so_far(q.llm, id) == answer_so_far(m.llm, id)
            &&& q.llm.seq.dom().contains(id.bits)
            &&& q.llm.seq[id.bits] == next_number(m.llm.seq, id)
        }),
{
}

/// An end that is put off comes back with its reason, changes nothing else, and is that of its
/// own session.
pub proof fn law_put_off_end_is_kept(
    m: SessionModel,
    session_id: SessionId,
    reason: Option<String>,
    other: SessionId,
)
    requires
        other != session_id,
    ensures
        ({
            let n = end_deferred(m, ServerMessage::SessionEnded { session_id, reason });
            &&& deferred_reason(n.llm, session_id) == opt_string(reason)
            &&& deferred_reason(n.llm, other) == deferred_reason(m.llm, other)
            &&& n.state == m.state
            &&& n.active_intent == m.active_intent
            &&& n.llm.busy == m.llm.busy
            &&& n.llm.in_flight == m.llm.in_flight
            &&& n.llm.seq == m.llm.seq
            &&& n.llm.overlay_text == m.llm.overlay_text
            &&& n.focus == m.focus
        }),
{
    assert(other.bits != session_id.bits);
}

/// The notices about answers say what they are: of no session and of the model while it is busy,
/// of the session asked while its answer is generated, and its text as it grows.
pub proof fn law_notices_say_what_they_are(event: OverlayEvent, id: SessionId, seq: u64, text: Seq<char>)
    ensures
        shows_busy(event, seq) ==> (event matches OverlayEvent::InterimState {
            producer,
            session_id,
            seq: n,
            state,
        } && producer is LlmAnswerDelta && session_id.bits == 0 && n == seq && state@
            == "LLM busy; wait for current answer"@),
        shows_generating(event, id, seq) ==> (event matches OverlayEvent::InterimState {
            producer,
            session_id,
            seq: n,
            state,
        } && producer is LlmAnswerDelta && session_id == id && n == seq && state@
            == "Generating answer..."@),
        shows_answer(event, id, seq, text) ==> (event matches OverlayEvent::InterimText {
            producer,
            session_id,
            seq: n,
            text: t,
        } && producer is LlmAnswerDelta && session_id == id && n == seq && t@ == text),
        ends_busy(event) ==> (event matches OverlayEvent::SessionEnded { session_id, reason }
            && session_id.bits == 0 && reason is Some && (reason->0)@ == "busy"@),
        shows_end(event, id, None) ==> (event matches OverlayEvent::SessionEnded {
            session_id,
            reason,
        } && session_id == id && reason is None),
        shows_end(event, id, Some(text)) ==> (event matches OverlayEvent::SessionEnded {
            session_id,
            reason,
        } && session_id == id && reason is Some && (reason->0)@ == text),
{
}

/// A message that starts a session names it, as push to talk in any language.
pub proof fn law_start_names_its_session(message: ClientMessage, id: SessionId)
    requires
        starts_session(message, id),
    ensures
        message matches ClientMessage::StartSession { session_id, mode, preferred_lang }
            && session_id == id && mode@ == "push_to_talk"@ && preferred_lang is Some
            && (preferred_lang->0)@ == "auto"@,
{
}

/// A number of an answer that is new to the router is shown, and the router then has it as the
/// last of the model.
pub proof fn law_answers_are_routed_by_number(r: OverlayRouter, id: SessionId, seq: u64)
    requires
        r.active_session_id != Some(id) || r.last_llm_seq is None || seq > r.last_llm_seq->0,
    ensures
        admits(r, None, id, seq, OverlayTextProducer::LlmAnswerDelta),
        answer_state_routed(r, id, seq).last_llm_seq == Some(seq),
        answer_text_routed(r, id, seq).last_llm_seq == Some(seq),
        answer_state_routed(r, id, seq).active_session_id == Some(id),
        answer_text_routed(r, id, seq).active_session_id == Some(id),
        !admits(
            answer_text_routed(r, id, seq),
            None,
            id,
            seq,
            OverlayTextProducer::LlmAnswerDelta,
        ),
{
}

/// Every press is counted once, by what it was for, and what became of it once more; a release
/// likewise.
pub proof fn law_presses_are_counted_once(d: HotkeyIntentDiagnostics, intent: SessionIntent)
    requires
        d.hotkey_down_total < u64::MAX,
        d.hotkey_down_dictate_total < u64::MAX,
        d.hotkey_down_llm_query_total < u64::MAX,
        d.hotkey_down_ignored_total < u64::MAX,
        d.hotkey_up_total < u64::MAX,
        d.hotkey_up_ignored_total < u64::MAX,
        d.llm_busy_reject_total < u64::MAX,
    ensures
        down_noted(d, intent) == (HotkeyIntentDiagnostics {
            hotkey_down_total: (d.hotkey_down_total + 1) as u64,
            hotkey_down_dictate_total: (d.hotkey_down_dictate_total + if intent
                == SessionIntent::Dictate {
                1int
            } else {
                0
            }) as u64,
            hotkey_down_llm_query_total: (d.hotkey_down_llm_query_total + if intent
                == SessionIntent::LlmQuery {
                1int
            } else {
                0
            }) as u64,
            ..d
        }),
        down_ignored_noted(d).hotkey_down_ignored_total == d.hotkey_down_ignored_total + 1,
        up_noted(d).hotkey_up_total == d.hotkey_up_total + 1,
        up_ignored_noted(d).hotkey_up_ignored_total == d.hotkey_up_ignored_total + 1,
        busy_noted(d).llm_busy_reject_total == d.llm_busy_reject_total + 1,
        up_noted(d).hotkey_down_total == d.hotkey_down_total,
        down_ignored_noted(d).hotkey_down_total == d.hotkey_down_total,
        busy_noted(d).hotkey_down_total == d.hotkey_down_total,
        up_ignored_noted(d).hotkey_up_total == d.hotkey_up_total,
{
}

/// The counters are logged after every twenty presses and releases.
pub proof fn law_counters_are_logged_every_twenty(d: HotkeyIntentDiagnostics)
    requires
        d.hotkey_down_total + d.hotkey_up_total <= u64::MAX,
        d.last_logged_hotkey_events + 20 <= u64::MAX,
    ensures
        summary_due(d) <==> d.hotkey_down_total + d.hotkey_up_total >= d.last_logged_hotkey_events
            + 20,
        summary_due(d) ==> summary_noted(d).last_logged_hotkey_events == d.hotkey_down_total
            + d.hotkey_up_total,
        !summary_due(d) ==> summary_noted(d) == d,
        summary_noted(d).hotkey_down_total == d.hotkey_down_total,
        summary_noted(d).hotkey_up_total == d.hotkey_up_total,
{
}

/// The wait before a new attempt doubles, up to ten seconds.
pub proof fn law_backoff_doubles(backoff_ms: u64)
    ensures
        backoff_ms <= 5000 ==> longer_backoff(backoff_ms) == 2 * backoff_ms,
        backoff_ms > 5000 ==> longer_backoff(backoff_ms) == 10_000,
{
}

/// A percentile of samples in order is one of them, never falls with the percentage, and is the
/// least at none and the greatest at all.
pub proof fn law_percentiles_rise(samples: Seq<u64>, a: int, b: int)
    requires
        ordered(samples),
        samples.len() > 0,
        0 <= a <= b,
    ensures
        samples.contains(percentile(samples, a)),
        percentile(samples, a) <= percentile(samples, b),
        percentile(samples, 0) == samples[0],
        b >= 100 ==> percentile(samples, b) == samples[samples.len() - 1],
        samples.len() == 101 && b <= 100 ==> percentile(samples, b) == samples[b],
        percentile(Seq::empty(), a) == 0,
{
    let n = samples.len() - 1;
    let x = if a < 100 {
        a
    } else {
        100
    };
    let y = if b < 100 {
        b
    } else {
        100
    };
    assert(0 <= n * x <= n * y <= n * 100) by (nonlinear_arith)
        requires
            0 <= x <= y <= 100,
            n >= 0,
    ;
    assert(0 <= n * x / 100 <= n * y / 100 <= n);
    assert(samples[n * x / 100] == percentile(samples, a));
    assert(n * 100 / 100 == n);
    if samples.len() == 101 {
        assert(n == 100);
        assert(100 * y / 100 == y);
    }
}

// ---- what the loop does

/// A press while nothing is under way and no answer is awaited sends the start of a session with
/// the given identity, for what was pressed; while an answer is awaited nothing is sent; a press
/// never stops a session.
pub proof fn law_press_sends_a_start<F: FnOnce() -> Option<String>>(
    intent: HotkeyIntent,
    id: SessionId,
    hint: F,
)
    ensures
        forall|c: &mut ClientCore, r: HotkeyEffects| #[trigger]
            call_ensures(ClientCore::hotkey_down_as::<F>, (c, intent, id, hint), r) ==> {
                let m = c.session.model();
                let after = final(c).session.model();
                &&& r.stopped is None
                &&& r.send is Some <==> !m.llm.busy && m.state == PttState::Idle
                &&& r.send matches Some(message) ==> {
                    &&& message matches ClientMessage::StartSession { session_id, .. }
                        && session_id == id
                    &&& after.state == (PttState::Listening { session_id: id })
                    &&& after.active_intent == Some(SessionIntent::LlmQuery) <==> intent
                        == HotkeyIntent::LlmQuery
                    &&& after.active_intent is Some
                }
                &&& r.send is None ==> after.state == m.state && after.active_intent
                    == m.active_intent
                &&& after.llm.busy == m.llm.busy && after.llm.in_flight == m.llm.in_flight
            },
{
}

/// A release sends the stop of the session that listens, and nothing where none does.
pub proof fn law_release_sends_a_stop(id: SessionId)
    ensures
        forall|c: &mut ClientCore, r: HotkeyEffects| #[trigger]
            call_ensures(ClientCore::hotkey_up, (c,), r) ==> {
                &&& c.session.model().state == (PttState::Listening { session_id: id }) ==> r.send
                    == Some(ClientMessage::StopSession { session_id: id }) && r.stopped == Some(id)
                    && final(c).session.model().state == (PttState::WaitingResult {
                    session_id: id,
                })
                &&& !(c.session.model().state is Listening) ==> r.send is None && r.stopped is None
                    && final(c).session.model() == c.session.model()
                &&& r.overlay@.len() == 0
                &&& final(c).router == c.router
            },
{
}

/// An error of the daemon frees the client, whatever it was doing: nothing is injected, nothing
/// is asked, and the next press starts a session.
pub proof fn law_error_frees_the_core<F: FnOnce() -> Option<String>>(
    message: ServerMessage,
    now_ms: u64,
    hint: F,
)
    requires
        message is Error,
    ensures
        forall|c: &mut ClientCore, r: DaemonEffects| #[trigger]
            call_ensures(ClientCore::daemon_message::<F>, (c, message, now_ms, hint), r) ==> {
                &&& final(c).session.model().state == PttState::Idle
                &&& final(c).session.model().active_intent is None
                &&& r.job is None && r.query is None && r.overlay@.len() == 0
            },
{
}

/// The result of a dictation is injected as it is; that of a question is asked as it is, and not
/// injected; a result of another session leads to neither.
pub proof fn law_result_is_injected_or_asked<F: FnOnce() -> Option<String>>(
    message: ServerMessage,
    now_ms: u64,
    hint: F,
)
    requires
        message is FinalResult,
    ensures
        forall|c: &mut ClientCore, r: DaemonEffects| #[trigger]
            call_ensures(ClientCore::daemon_message::<F>, (c, message, now_ms, hint), r) ==> {
                let m = c.session.model();
                message matches ServerMessage::FinalResult { session_id, text, .. } && {
                    let asked = m.active_intent == Some(SessionIntent::LlmQuery);
                    let awaited = m.state.session() == Some(session_id);
                    &&& r.job is Some <==> awaited && !asked
                    &&& r.query is Some <==> awaited && asked
                    &&& r.job matches Some(job) ==> job.text == text && job.session_id
                        == session_id
                    &&& r.query matches Some(q) ==> q.session_id == session_id && q.transcript@
                        == text@
                    &&& awaited ==> final(c).session.model().state == PttState::Idle
                    &&& awaited && asked ==> final(c).session.model().llm.in_flight == Some(
                        session_id,
                    )
                }
            },
{
}

/// What was injected is told to the overlay, as it went; the sound is played where it went well.
pub proof fn law_report_is_told(report: &InjectionReport)
    ensures
        forall|c: &ClientCore, r: ReportEffects| #[trigger]
            call_ensures(ClientCore::injection_report, (c, report), r) ==> {
                &&& r.play_completion <==> report.error is None
                &&& r.overlay@.len() == 1
                &&& r.overlay@[0] matches OverlayEvent::InjectionComplete { session_id, success }
                    && session_id == report.session_id && (success <==> report.error is None)
            },
{
}

/// A lost connection leaves nothing under way.
pub proof fn law_lost_connection_frees_the_core()
    ensures
        forall|c: &mut ClientCore, r: bool| #[trigger]
            call_ensures(ClientCore::connection_dropped, (c,), r) ==> {
                &&& final(c).session.model().state == PttState::Idle
                &&& final(c).session.model().active_intent is None
                &&& final(c).router == c.router
            },
{
}

/// A piece of the answer in flight injects nothing; the end of it gives one job for its session
/// and the client is busy no longer; progress of another answer leads to nothing.
pub proof fn law_progress_of_the_answer<F: FnOnce() -> Option<String>>(
    id: SessionId,
    progress: LlmProgress,
    now_ms: u64,
    hint: F,
)
    requires
        match progress {
            LlmProgress::Delta { session_id, .. } => session_id == id,
            LlmProgress::Finished { session_id, .. } => session_id == id,
        },
    ensures
        forall|c: &mut ClientCore, r: ProgressEffects| #[trigger]
            call_ensures(ClientCore::llm_progress::<F>, (c, progress, now_ms, hint), r) ==> {
                let m = c.session.model();
                let after = final(c).session.model();
                &&& r.job is Some <==> progress is Finished && m.llm.in_flight == Some(id)
                &&& r.job matches Some(job) ==> job.session_id == id && !after.llm.busy
                    && after.llm.in_flight is None
                &&& m.llm.in_flight != Some(id) ==> r.overlay@.len() == 0 && after.llm.in_flight
                    == m.llm.in_flight && after.llm.busy == m.llm.busy
                &&& progress is Delta && m.llm.in_flight == Some(id) ==> answer_so_far(
                    after.llm,
                    id,
                ) == answer_so_far(m.llm, id) + progress->Delta_delta@
            },
{
}

/// A demonstration injects the result of its session, or the text given in its place; an error
/// ends it; every other message is passed over.
pub proof fn law_demonstration_injects_its_result(
    runtime: &ClientSessionRuntime,
    message: ServerMessage,
    given: &Option<String>,
    now_ms: u64,
    r: DemoStep,
)
    requires
        call_ensures(demo_message, (runtime, message, given, now_ms), r),
    ensures
        r is Fail <==> message is Error,
        r is Inject <==> (message matches ServerMessage::FinalResult { session_id, .. }
            && runtime.model().state.session() == Some(session_id)),
        r matches DemoStep::Inject(job) ==> {
            &&& job.origin == InjectionOrigin::Demo
            &&& given matches Some(t) ==> job.text@ == t@
            &&& given is None ==> (message matches ServerMessage::FinalResult { text, .. }
                && job.text@ == text@)
        },
{
}

/// A demonstration starts and stops one session, and fails just where its injection failed.
pub proof fn law_demonstration_runs_one_session(
    id: SessionId,
    r: (ClientSessionRuntime, ClientMessage, ClientMessage),
    report: &InjectionReport,
    told: Result<(), String>,
    succeeded: bool,
    ended: Result<(), &'static str>,
)
    requires
        call_ensures(demo_start, (id,), r),
        call_ensures(demo_report, (report,), told),
        call_ensures(demo_end, (succeeded,), ended),
    ensures
        r.0.model().state == (PttState::WaitingResult { session_id: id }),
        r.1 matches ClientMessage::StartSession { session_id, .. } && session_id == id,
        r.2 == (ClientMessage::StopSession { session_id: id }),
        told is Ok <==> report.error is None,
        ended is Ok <==> succeeded,
{
}

} // verus!
