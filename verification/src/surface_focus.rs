//! What is known of the focused surface.
use vstd::prelude::*;

verus! {

/// The focused surface, as a resolver saw it.
#[derive(Debug, PartialEq, Eq)]
pub struct FocusSnapshot {
    pub app_name: Option<String>,
    pub object_name: Option<String>,
    pub object_path: Option<String>,
    pub service_name: Option<String>,
    pub output_name: Option<String>,
    pub focused: bool,
    pub active: bool,
    pub resolver: String,
}

/// What the focus cache says when it is asked.
#[allow(inconsistent_fields)]
#[derive(Debug, PartialEq, Eq)]
pub enum WaylandFocusObservation {
    Fresh { snapshot: FocusSnapshot, cache_age_ms: u64 },
    LowConfidence { snapshot: FocusSnapshot, cache_age_ms: u64, reason: &'static str },
    Unavailable { reason: &'static str, cache_age_ms: Option<u64> },
}

/// What an injection takes from the focus cache.
#[derive(Debug, PartialEq, Eq)]
pub struct FocusResolutionOutcome {
    pub snapshot: Option<FocusSnapshot>,
    pub source_selected: &'static str,
    pub wayland_cache_age_ms: Option<u64>,
    pub wayland_fallback_reason: Option<&'static str>,
}

/// The focus that was captured when the talk key was released.
#[derive(Debug, PartialEq, Eq)]
pub struct ParentFocusCapture {
    pub snapshot: Option<FocusSnapshot>,
    pub source_selected: String,
    pub wayland_cache_age_ms: Option<u64>,
    pub wayland_fallback_reason: Option<String>,
    pub captured_elapsed_ms: Option<u64>,
}

/// How old the cache may be before it counts as stale.
pub const WAYLAND_STALE_MS: u64 = 30_000;

/// How long a focus transition is waited out.
pub const WAYLAND_TRANSITION_GRACE_MS: u64 = 500;

/// Which source a focus came from.
pub open spec fn focus_source(observation: Option<WaylandFocusObservation>) -> Seq<char> {
    match observation {
        Some(WaylandFocusObservation::Fresh { .. }) => "wayland_cache"@,
        Some(WaylandFocusObservation::LowConfidence { .. }) => "wayland_cache_low_confidence"@,
        _ => "wayland_unavailable"@,
    }
}

/// Turns an observation of the cache into focus metadata; `None` stands for no cache at all.
pub fn resolve_focus_metadata(observation: Option<WaylandFocusObservation>) -> (r:
    FocusResolutionOutcome)
    ensures
        r.source_selected@ == focus_source(observation),
        match observation {
            None => r.snapshot is None && r.wayland_cache_age_ms is None
                && r.wayland_fallback_reason is Some && r.wayland_fallback_reason->0@
                == "wayland_cache_not_initialized"@,
            Some(WaylandFocusObservation::Fresh { snapshot, cache_age_ms }) => r.snapshot == Some(
                snapshot,
            ) && r.wayland_cache_age_ms == Some(cache_age_ms) && r.wayland_fallback_reason is None,
            Some(WaylandFocusObservation::LowConfidence { snapshot, cache_age_ms, reason }) =>
                r.snapshot == Some(snapshot) && r.wayland_cache_age_ms == Some(cache_age_ms)
                    && r.wayland_fallback_reason == Some(reason),
            Some(WaylandFocusObservation::Unavailable { reason, cache_age_ms }) =>
                r.snapshot is None && r.wayland_cache_age_ms == cache_age_ms
                    && r.wayland_fallback_reason == Some(reason),
        },
{
    match observation {
        None => FocusResolutionOutcome {
            snapshot: None,
            source_selected: "wayland_unavailable",
            wayland_cache_age_ms: None,
            wayland_fallback_reason: Some("wayland_cache_not_initialized"),
        },
        Some(WaylandFocusObservation::Fresh { snapshot, cache_age_ms }) => FocusResolutionOutcome {
            snapshot: Some(snapshot),
            source_selected: "wayland_cache",
            wayland_cache_age_ms: Some(cache_age_ms),
            wayland_fallback_reason: None,
        },
        Some(
            WaylandFocusObservation::LowConfidence { snapshot, cache_age_ms, reason },
        ) => FocusResolutionOutcome {
            snapshot: Some(snapshot),
            source_selected: "wayland_cache_low_confidence",
            wayland_cache_age_ms: Some(cache_age_ms),
            wayland_fallback_reason: Some(reason),
        },
        Some(
            WaylandFocusObservation::Unavailable { reason, cache_age_ms },
        ) => FocusResolutionOutcome {
            snapshot: None,
            source_selected: "wayland_unavailable",
            wayland_cache_age_ms: cache_age_ms,
            wayland_fallback_reason: Some(reason),
        },
    }
}

/// What is known of the focus is passed on as it was observed: its snapshot and age where there
/// are any, and the reason where it is not to be trusted; a fresh one needs no reason.
pub proof fn law_observed_focus_is_passed_on(
    observation: Option<WaylandFocusObservation>,
    r: FocusResolutionOutcome,
)
    requires
        call_ensures(resolve_focus_metadata, (observation,), r),
    ensures
        r.snapshot is Some <==> (observation matches Some(o) && (o is Fresh || o is LowConfidence)),
        observation matches Some(WaylandFocusObservation::Fresh { snapshot, cache_age_ms })
            ==> r.snapshot == Some(snapshot) && r.wayland_cache_age_ms == Some(cache_age_ms),
        observation matches Some(
            WaylandFocusObservation::LowConfidence { snapshot, cache_age_ms, reason },
        ) ==> r.snapshot == Some(snapshot) && r.wayland_cache_age_ms == Some(cache_age_ms)
            && r.wayland_fallback_reason == Some(reason),
        r.wayland_fallback_reason is None <==> (observation matches Some(o) && o is Fresh),
{
}

} // verus!
