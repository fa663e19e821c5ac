//! The overlay's sheet: what it says, how large it can get, and how it comes and goes.
use vstd::prelude::*;

use crate::injector::copy_opt;
use crate::injector_runtime::between;
use crate::overlay_state::{
    elapsed, live, remaining, shows_text, OverlayPhase, OverlayVisibility, SessionMode, SessionView,
    ViewModel,
};
use crate::paint::{Frame, Rgb};
use crate::prose::{
    committed, no_prose, prose_sound, prose_updated, Prose, ProseModel,
};
use crate::text::{
    cat3, decimal, decimal2, is_blank, join, joined, opt_string, print_two_digits, print_u64,
    split_words, texts, trim, trimmed, words,
};

verus! {

/// The width of the sheet unless another is asked for.
pub const DEFAULT_SHEET_WIDTH: u32 = 920;

/// The least width of the sheet.
pub const MIN_SHEET_WIDTH: u32 = 480;

/// The greatest width of the sheet.
pub const MAX_SHEET_WIDTH: u32 = 1600;

/// The least height of the sheet.
pub const MIN_SHEET_HEIGHT: u32 = 88;

/// The room for the shadow above the sheet.
pub const SHADOW_PAD_TOP: u32 = 10;

/// The room for the shadow at either side of the sheet.
pub const SHADOW_PAD_SIDE: u32 = 26;

/// The room for the shadow below the sheet.
pub const SHADOW_PAD_BOTTOM: u32 = 46;

/// The room that the sheet needs to slide.
pub const SLIDE_ROOM: u32 = 13;

/// How long the sheet slides in, in milliseconds.
pub const ENTRANCE_SLIDE_MS: u64 = 170;

/// How long the sheet lifts out.
pub const EXIT_LIFT_MS: u64 = 220;

/// How long the sheet falls out.
pub const EXIT_FALL_MS: u64 = 200;

// ---- colours and the lamp

/// The inks of the sheet.
#[derive(Debug, Clone, Copy, PartialEq, Eq, Structural)]
pub enum Ink {
    Ink,
    Pencil,
    Rubric,
    Sage,
    Ochre,
    Slate,
}

impl Ink {
    /// The colour of the ink.
    pub fn rgb(self) -> (r: Rgb)
        ensures
            r == match self {
                Ink::Ink => Rgb { r: 0x1a, g: 0x17, b: 0x12 },
                Ink::Pencil => Rgb { r: 0x8c, g: 0x83, b: 0x77 },
                Ink::Rubric => Rgb { r: 0xa3, g: 0x3a, b: 0x22 },
                Ink::Sage => Rgb { r: 0x5f, g: 0x8f, b: 0x6c },
                Ink::Ochre => Rgb { r: 0xc2, g: 0x95, b: 0x3f },
                Ink::Slate => Rgb { r: 0x5f, g: 0x7e, b: 0xa6 },
            },
    {
        match self {
            Ink::Ink => Rgb { r: 0x1a, g: 0x17, b: 0x12 },
            Ink::Pencil => Rgb { r: 0x8c, g: 0x83, b: 0x77 },
            Ink::Rubric => Rgb { r: 0xa3, g: 0x3a, b: 0x22 },
            Ink::Sage => Rgb { r: 0x5f, g: 0x8f, b: 0x6c },
            Ink::Ochre => Rgb { r: 0xc2, g: 0x95, b: 0x3f },
            Ink::Slate => Rgb { r: 0x5f, g: 0x7e, b: 0xa6 },
        }
    }
}

/// The lamp: its word, the colour of its dot and of its word.
#[derive(Debug, Clone, Copy, PartialEq, Eq)]
pub struct Lamp {
    pub word: &'static str,
    pub dot: Ink,
    pub ink: Ink,
}

/// What the lamp shows of a session.
pub open spec fn lamp_of(v: ViewModel) -> (Seq<char>, Ink, Ink) {
    match v.phase {
        OverlayPhase::Listening | OverlayPhase::Interim => match v.mode {
            SessionMode::Llm => ("ASK"@, Ink::Slate, Ink::Pencil),
            SessionMode::Stt => ("REC"@, Ink::Sage, Ink::Pencil),
        },
        OverlayPhase::Finalizing => if v.reason is Some {
            ("FAULT"@, Ink::Rubric, Ink::Rubric)
        } else {
            ("DECODING"@, Ink::Ochre, Ink::Pencil)
        },
        OverlayPhase::Answering => ("ANSWER"@, Ink::Slate, Ink::Slate),
        OverlayPhase::Done { success } => if success {
            ("PASTED"@, Ink::Sage, Ink::Sage)
        } else if shows_text(v) {
            ("FAILED"@, Ink::Rubric, Ink::Rubric)
        } else {
            ("NO TEXT"@, Ink::Rubric, Ink::Rubric)
        },
    }
}

/// What the lamp shows of a session.
pub fn lamp_for(view: &SessionView) -> (r: Lamp)
    ensures
        (r.word@, r.dot, r.ink) == lamp_of(view.model()),
{
    match view.phase {
        OverlayPhase::Listening | OverlayPhase::Interim => match view.mode {
            SessionMode::Llm => Lamp { word: "ASK", dot: Ink::Slate, ink: Ink::Pencil },
            SessionMode::Stt => Lamp { word: "REC", dot: Ink::Sage, ink: Ink::Pencil },
        },
        OverlayPhase::Finalizing => {
            if view.failed() {
                Lamp { word: "FAULT", dot: Ink::Rubric, ink: Ink::Rubric }
            } else {
                Lamp { word: "DECODING", dot: Ink::Ochre, ink: Ink::Pencil }
            }
        },
        OverlayPhase::Answering => Lamp { word: "ANSWER", dot: Ink::Slate, ink: Ink::Slate },
        OverlayPhase::Done { success } => {
            if success {
                Lamp { word: "PASTED", dot: Ink::Sage, ink: Ink::Sage }
            } else if view.has_text() {
                Lamp { word: "FAILED", dot: Ink::Rubric, ink: Ink::Rubric }
            } else {
                Lamp { word: "NO TEXT", dot: Ink::Rubric, ink: Ink::Rubric }
            }
        },
    }
}

// ---- the timer

/// A time that counts up: minutes, seconds and tenths.
pub open spec fn elapsed_text(ms: u64) -> Seq<char> {
    let tenths = ms as nat / 100;
    decimal(tenths / 600) + ":"@ + decimal2(tenths % 600 / 10) + "."@ + decimal(tenths % 600 % 10)
}

/// A time that counts down: minutes and seconds, rounded up.
pub open spec fn remaining_text(ms: u64) -> Seq<char> {
    let seconds = (ms as nat + 999) / 1000;
    "-"@ + decimal(seconds / 60) + ":"@ + decimal2(seconds % 60)
}

/// A time that counts up: minutes, seconds and tenths.
pub fn format_elapsed(ms: u64) -> (r: String)
    ensures
        r@ == elapsed_text(ms),
{
    let tenths: u64 = ms / 100;
    let minutes: u64 = tenths / 600;
    let rest: u64 = tenths % 600;
    let mut out = print_u64(minutes);
    out.push_str(":");
    out.push_str(print_two_digits(rest / 10).as_str());
    out.push_str(".");
    out.push_str(print_u64(rest % 10).as_str());
    out
}

/// A time that counts down: minutes and seconds, rounded up.
pub fn format_remaining(ms: u64) -> (r: String)
    ensures
        r@ == remaining_text(ms),
{
    let seconds: u64 = if ms % 1000 == 0 {
        ms / 1000
    } else {
        ms / 1000 + 1
    };
    let mut out = cat3("-", print_u64(seconds / 60).as_str(), ":");
    out.push_str(print_two_digits(seconds % 60).as_str());
    out
}

// ---- sizes

/// A number of lines, as far as the sheet has room for them.
pub open spec fn fitting_lines(max_lines: u32) -> int {
    if max_lines < 1 {
        1
    } else if max_lines > 10 {
        10
    } else {
        max_lines as int
    }
}

/// The height of the tallest sheet: 89 pixels and 25.5 for each line, rounded up.
pub open spec fn tallest_sheet(max_lines: u32) -> int {
    (178 + 51 * fitting_lines(max_lines) + 1) / 2
}

/// The height of the tallest sheet with so many lines.
pub fn max_sheet_height(max_lines: u32) -> (r: u32)
    ensures
        r == tallest_sheet(max_lines),
        MIN_SHEET_HEIGHT <= r <= 344,
{
    let lines: u32 = if max_lines < 1 {
        1
    } else if max_lines > 10 {
        10
    } else {
        max_lines
    };
    (178 + 51 * lines + 1) / 2
}

/// The size of the buffer for a sheet: the sheet, the shadow, and the room to slide.
pub open spec fn buffer_of(content_width: u32, max_lines: u32) -> (int, int) {
    (
        content_width + 2 * SHADOW_PAD_SIDE,
        tallest_sheet(max_lines) + SHADOW_PAD_TOP + SHADOW_PAD_BOTTOM + SLIDE_ROOM,
    )
}

/// The size of the buffer for a sheet.
pub fn buffer_size(content_width: u32, max_lines: u32) -> (r: (u32, u32))
    requires
        content_width + 2 * SHADOW_PAD_SIDE <= u32::MAX,
    ensures
        (r.0 as int, r.1 as int) == buffer_of(content_width, max_lines),
{
    (
        content_width + 2 * SHADOW_PAD_SIDE,
        max_sheet_height(max_lines) + SHADOW_PAD_TOP + SHADOW_PAD_BOTTOM + SLIDE_ROOM,
    )
}

/// More lines never make the sheet lower, and the buffer has room for the tallest sheet, its
/// shadow and the way it slides.
pub proof fn law_buffer_fits_the_tallest_sheet(content_width: u32, a: u32, b: u32)
    requires
        a <= b,
    ensures
        tallest_sheet(a) <= tallest_sheet(b),
        buffer_of(content_width, a).1 >= tallest_sheet(a) + SHADOW_PAD_TOP + SHADOW_PAD_BOTTOM
            + SLIDE_ROOM,
        tallest_sheet(a) >= MIN_SHEET_HEIGHT,
{
}

// ---- coming and going

/// How the sheet moves.
#[derive(Debug, Clone, Copy, PartialEq, Eq, Structural)]
pub enum MotionKind {
    In,
    OutLift,
    OutFall,
}

/// A motion of the sheet.
#[derive(Debug, Clone, Copy, PartialEq, Eq, Structural)]
pub struct Motion {
    pub kind: MotionKind,
    pub started_ms: u64,
}

/// How long a motion lasts.
pub open spec fn motion_ms(kind: MotionKind) -> u64 {
    match kind {
        MotionKind::In => ENTRANCE_SLIDE_MS,
        MotionKind::OutLift => EXIT_LIFT_MS,
        MotionKind::OutFall => EXIT_FALL_MS,
    }
}

/// Whether a motion is over.
pub open spec fn motion_over(m: Motion, now_ms: u64) -> bool {
    between(m.started_ms, now_ms) >= motion_ms(m.kind)
}

/// Whether the sheet is on its way out.
pub open spec fn leaving(m: Option<Motion>) -> bool {
    m matches Some(motion) && motion.kind != MotionKind::In
}

impl Motion {
    /// Whether the motion is over.
    pub fn finished(&self, now_ms: u64) -> (r: bool)
        ensures
            r == motion_over(*self, now_ms),
    {
        let t: u64 = now_ms.saturating_sub(self.started_ms);
        match self.kind {
            MotionKind::In => t >= ENTRANCE_SLIDE_MS,
            MotionKind::OutLift => t >= EXIT_LIFT_MS,
            MotionKind::OutFall => t >= EXIT_FALL_MS,
        }
    }

    /// Whether the sheet is on its way out.
    pub fn exiting(&self) -> (r: bool)
        ensures
            r == leaving(Some(*self)),
    {
        self.kind != MotionKind::In
    }
}

/// Whether the answer is what the sheet sets: it is roman from the start.
pub open spec fn sets_answer(v: ViewModel) -> bool {
    v.mode == SessionMode::Llm && (v.phase == OverlayPhase::Answering || v.phase is Done)
}

/// Whether the question stands above a rule, and the answer below it.
pub open spec fn sets_question(v: ViewModel) -> bool {
    v.mode == SessionMode::Llm && v.question is Some
}

/// The line that stands in for an answer that has not begun.
pub open spec fn standing_in(v: ViewModel) -> Option<Seq<char>> {
    if v.mode == SessionMode::Llm && trim(v.answer).len() == 0 && (v.status matches Some(s) && trim(
        s,
    ).len() > 0) {
        v.status
    } else {
        None
    }
}

/// Whether the answer is what the sheet sets.
pub fn answer_layout(view: &SessionView) -> (r: bool)
    ensures
        r == sets_answer(view.model()),
{
    view.mode == SessionMode::Llm && match view.phase {
        OverlayPhase::Answering => true,
        OverlayPhase::Done { .. } => true,
        _ => false,
    }
}

/// Whether the question stands above a rule.
pub fn question_layout(view: &SessionView) -> (r: bool)
    ensures
        r == sets_question(view.model()),
{
    view.mode == SessionMode::Llm && view.question.is_some()
}

/// The line that stands in for an answer that has not begun.
pub fn status_text(view: &SessionView) -> (r: Option<String>)
    ensures
        opt_string(r) == standing_in(view.model()),
{
    if view.mode == SessionMode::Llm && is_blank(view.answer.as_str()) {
        match &view.status {
            Some(status) => {
                if is_blank(status.as_str()) {
                    None
                } else {
                    Some(status.as_str().to_owned())
                }
            },
            None => None,
        }
    } else {
        None
    }
}

/// The sheet: what it shows, and where it is in its motions.
#[derive(Debug)]
pub struct Sheet {
    prose: Prose,
    motion: Option<Motion>,
    view: Option<SessionView>,
    phase: Option<OverlayPhase>,
    phase_at_ms: u64,
    seal_started_ms: Option<u64>,
    seal_took_ms: u64,
    answering_at_ms: Option<u64>,
    last_tick_ms: u64,
}

/// The sheet, mathematically.
pub struct SheetModel {
    pub prose: ProseModel,
    pub motion: Option<Motion>,
    pub view: Option<ViewModel>,
    pub phase: Option<OverlayPhase>,
    pub phase_at_ms: u64,
    pub seal_started_ms: Option<u64>,
    pub seal_took_ms: u64,
    pub answering_at_ms: Option<u64>,
    pub last_tick_ms: u64,
}

/// What the rest of the picture has to know after a look at the state.
#[derive(Debug, Clone, Copy, PartialEq, Eq, Structural)]
pub struct Observed {
    /// How long ago the last look was.
    pub dt_ms: u64,
    /// Another session came, so that everything starts anew.
    pub arriving: bool,
    /// The sheet has gone.
    pub gone: bool,
    /// The microphone is heard.
    pub live: bool,
    /// The coil fades.
    pub fading: bool,
}

/// Whether a session is another one than the sheet shows, or comes back while it leaves.
pub open spec fn arrives(m: SheetModel, v: ViewModel) -> bool {
    !(m.view matches Some(current) && current.session_id == v.session_id) || leaving(m.motion)
}

/// The sheet when a session comes.
pub open spec fn session_come(m: SheetModel, now_ms: u64) -> SheetModel {
    SheetModel {
        prose: no_prose(m.prose.roman_only),
        motion: Some(Motion { kind: MotionKind::In, started_ms: now_ms }),
        phase: None,
        seal_started_ms: None,
        seal_took_ms: 0,
        answering_at_ms: None,
        ..m
    }
}

/// The sheet when a session is in a phase.
pub open spec fn phase_seen(m: SheetModel, phase: OverlayPhase, now_ms: u64) -> SheetModel {
    if m.phase == Some(phase) {
        m
    } else {
        SheetModel {
            seal_took_ms: if m.phase == Some(OverlayPhase::Finalizing)
                && m.seal_started_ms is Some {
                between(m.seal_started_ms->0, now_ms)
            } else {
                m.seal_took_ms
            },
            seal_started_ms: if phase == OverlayPhase::Finalizing {
                Some(now_ms)
            } else {
                m.seal_started_ms
            },
            answering_at_ms: if phase == OverlayPhase::Answering && m.answering_at_ms is None {
                Some(now_ms)
            } else {
                m.answering_at_ms
            },
            phase: Some(phase),
            phase_at_ms: now_ms,
            ..m
        }
    }
}

/// The prose of a session: its answer or its transcript, set once it is final.
pub open spec fn prose_seen(p: ProseModel, v: ViewModel, now_ms: u64) -> ProseModel {
    let answer = sets_answer(v);
    let ready = if p.roman_only != answer {
        no_prose(answer)
    } else {
        p
    };
    let text = if answer {
        v.answer
    } else {
        v.transcript
    };
    let told = prose_updated(ready, text, now_ms);
    if v.phase == OverlayPhase::Finalizing || v.phase is Done {
        ProseModel { glyphs: committed(told.glyphs, told.glyphs.len() as int, now_ms), ..told }
    } else {
        told
    }
}

/// The sheet with a session to show.
pub open spec fn visible_seen(m: SheetModel, v: ViewModel, now_ms: u64) -> SheetModel {
    let come = if arrives(m, v) {
        session_come(m, now_ms)
    } else {
        m
    };
    let phased = phase_seen(come, v.phase, now_ms);
    SheetModel { prose: prose_seen(phased.prose, v, now_ms), view: Some(v), ..phased }
}

/// The sheet with nothing to show: it leaves, falling if the session failed, and is then gone.
pub open spec fn hidden_seen(m: SheetModel, now_ms: u64) -> SheetModel {
    match m.view {
        None => m,
        Some(v) => if !leaving(m.motion) {
            SheetModel {
                motion: Some(
                    Motion {
                        kind: if v.reason is Some || v.phase == (OverlayPhase::Done {
                            success: false,
                        }) {
                            MotionKind::OutFall
                        } else {
                            MotionKind::OutLift
                        },
                        started_ms: now_ms,
                    },
                ),
                ..m
            }
        } else if motion_over(m.motion->0, now_ms) {
            SheetModel { view: None, motion: None, phase: None, ..m }
        } else {
            m
        },
    }
}

/// The sheet after a look at the state.
pub open spec fn sheet_seen(m: SheetModel, shown: Option<ViewModel>, now_ms: u64) -> SheetModel {
    let ticked = SheetModel { last_tick_ms: now_ms, ..m };
    match shown {
        Some(v) => visible_seen(ticked, v, now_ms),
        None => hidden_seen(ticked, now_ms),
    }
}

/// What the rest of the picture has to know after a look at the state.
pub open spec fn observed(m: SheetModel, shown: Option<ViewModel>, now_ms: u64) -> Observed {
    let n = sheet_seen(m, shown, now_ms);
    Observed {
        dt_ms: between(m.last_tick_ms, now_ms),
        arriving: shown matches Some(v) && arrives(m, v),
        gone: m.view is Some && n.view is None,
        live: n.view matches Some(v) && live(v) && !leaving(n.motion),
        fading: n.view matches Some(v) && (v.phase is Done || v.reason is Some),
    }
}

impl Sheet {
    /// The sheet, mathematically.
    pub closed spec fn model(self) -> SheetModel {
        SheetModel {
            prose: self.prose.model(),
            motion: self.motion,
            view: match self.view {
                Some(v) => Some(v.model()),
                None => None,
            },
            phase: self.phase,
            phase_at_ms: self.phase_at_ms,
            seal_started_ms: self.seal_started_ms,
            seal_took_ms: self.seal_took_ms,
            answering_at_ms: self.answering_at_ms,
            last_tick_ms: self.last_tick_ms,
        }
    }

    /// A sheet that shows nothing.
    pub fn new() -> (r: Sheet)
        ensures
            r.model() == (SheetModel {
                prose: no_prose(false),
                motion: None,
                view: None,
                phase: None,
                phase_at_ms: 0,
                seal_started_ms: None,
                seal_took_ms: 0,
                answering_at_ms: None,
                last_tick_ms: 0,
            }),
            prose_sound(r.model().prose),
    {
        Sheet {
            prose: Prose::new(),
            motion: None,
            view: None,
            phase: None,
            phase_at_ms: 0,
            seal_started_ms: None,
            seal_took_ms: 0,
            answering_at_ms: None,
            last_tick_ms: 0,
        }
    }

    fn start_session(&mut self, now_ms: u64)
        ensures
            final(self).model() == session_come(old(self).model(), now_ms),
            prose_sound(final(self).model().prose),
    {
        self.prose.reset();
        self.motion = Some(Motion { kind: MotionKind::In, started_ms: now_ms });
        self.phase = None;
        self.seal_started_ms = None;
        self.seal_took_ms = 0;
        self.answering_at_ms = None;
    }

    fn see_phase(&mut self, phase: OverlayPhase, now_ms: u64)
        ensures
            final(self).model() == phase_seen(old(self).model(), phase, now_ms),
    {
        if self.phase == Some(phase) {
            return;
        }
        if self.phase == Some(OverlayPhase::Finalizing) {
            if let Some(started) = self.seal_started_ms {
                self.seal_took_ms = now_ms.saturating_sub(started);
            }
        }
        if phase == OverlayPhase::Finalizing {
            self.seal_started_ms = Some(now_ms);
        }
        if phase == OverlayPhase::Answering && self.answering_at_ms.is_none() {
            self.answering_at_ms = Some(now_ms);
        }
        self.phase = Some(phase);
        self.phase_at_ms = now_ms;
    }

    /// Takes a look at the state.
    pub fn observe(&mut self, visibility: &OverlayVisibility, now_ms: u64) -> (r: Observed)
        requires
            prose_sound(old(self).model().prose),
        ensures
            final(self).model() == sheet_seen(old(self).model(), visibility.shown(), now_ms),
            r == observed(old(self).model(), visibility.shown(), now_ms),
            prose_sound(final(self).model().prose),
    {
        let dt_ms: u64 = now_ms.saturating_sub(self.last_tick_ms);
        self.last_tick_ms = now_ms;
        let had_view = self.view.is_some();
        let leaving_now = match &self.motion {
            Some(m) => m.exiting(),
            None => false,
        };
        let mut arriving = false;
        match visibility {
            OverlayVisibility::Visible(incoming) => {
                let same_session = match &self.view {
                    Some(current) => current.session_id == incoming.session_id,
                    None => false,
                };
                if !same_session || leaving_now {
                    arriving = true;
                    self.start_session(now_ms);
                }
                self.see_phase(incoming.phase, now_ms);
                let answer = answer_layout(incoming);
                self.prose.set_roman_only(answer);
                if answer {
                    self.prose.update(incoming.answer.as_str(), now_ms);
                } else {
                    self.prose.update(incoming.transcript.as_str(), now_ms);
                }
                match incoming.phase {
                    OverlayPhase::Finalizing => {
                        self.prose.commit_all(now_ms);
                    },
                    OverlayPhase::Done { .. } => {
                        self.prose.commit_all(now_ms);
                    },
                    _ => {},
                }
                self.view = Some(incoming.copy());
            },
            OverlayVisibility::Hidden => {
                let fall = match &self.view {
                    Some(view) => view.failed() || view.phase == (OverlayPhase::Done {
                        success: false,
                    }),
                    None => false,
                };
                if had_view {
                    if !leaving_now {
                        let kind = if fall {
                            MotionKind::OutFall
                        } else {
                            MotionKind::OutLift
                        };
                        self.motion = Some(Motion { kind, started_ms: now_ms });
                    } else {
                        let over = match &self.motion {
                            Some(m) => m.finished(now_ms),
                            None => false,
                        };
                        if over {
                            self.view = None;
                            self.motion = None;
                            self.phase = None;
                        }
                    }
                }
            },
        }
        let out = match &self.motion {
            Some(m) => m.exiting(),
            None => false,
        };
        let gone = had_view && self.view.is_none();
        match &self.view {
            Some(view) => {
                let done = match view.phase {
                    OverlayPhase::Done { .. } => true,
                    _ => false,
                };
                Observed {
                    dt_ms,
                    arriving,
                    gone,
                    live: view.is_live() && !out,
                    fading: done || view.failed(),
                }
            },
            None => Observed { dt_ms, arriving, gone, live: false, fading: false },
        }
    }

    /// Whether there is a session on the sheet, or the sheet is still moving.
    pub fn is_moving(&self, now_ms: u64) -> (r: bool)
        ensures
            r == (self.model().view is Some || (self.model().motion matches Some(m)
                && !motion_over(m, now_ms))),
    {
        if self.view.is_some() {
            return true;
        }
        match &self.motion {
            Some(m) => !m.finished(now_ms),
            None => false,
        }
    }

    /// The session on the sheet.
    pub fn view(&self) -> (r: Option<&SessionView>)
        ensures
            match r {
                Some(v) => self.model().view == Some(v.model()),
                None => self.model().view is None,
            },
    {
        match &self.view {
            Some(v) => Some(v),
            None => None,
        }
    }

    /// The motion of the sheet.
    pub fn motion(&self) -> (r: Option<Motion>)
        ensures
            r == self.model().motion,
    {
        self.motion
    }

    /// When the phase at hand began.
    pub fn phase_at_ms(&self) -> (r: u64)
        ensures
            r == self.model().phase_at_ms,
    {
        self.phase_at_ms
    }

    /// When the answer began.
    pub fn answering_at_ms(&self) -> (r: Option<u64>)
        ensures
            r == self.model().answering_at_ms,
    {
        self.answering_at_ms
    }

    /// The prose on the sheet.
    pub fn prose(&self) -> (r: &Prose)
        ensures
            r.model() == self.model().prose,
    {
        &self.prose
    }

    /// Drops leading characters of the prose.
    pub fn drop_leading(&mut self, n: usize)
        requires
            n <= old(self).model().prose.glyphs.len(),
            prose_sound(old(self).model().prose),
        ensures
            final(self).model() == (SheetModel {
                prose: ProseModel {
                    glyphs: old(self).model().prose.glyphs.skip(n as int),
                    dropped: old(self).model().prose.dropped + n,
                    ..old(self).model().prose
                },
                ..old(self).model()
            }),
            prose_sound(final(self).model().prose),
    {
        self.prose.drop_leading(n);
    }
}

/// A hidden sheet leaves, and is gone once its motion is over: it never stays.
pub proof fn law_hidden_sheet_goes(m: SheetModel, first_ms: u64, later_ms: u64)
    requires
        m.view is Some,
        !leaving(m.motion),
        later_ms >= first_ms + EXIT_LIFT_MS,
    ensures
        sheet_seen(sheet_seen(m, None, first_ms), None, later_ms).view is None,
        sheet_seen(sheet_seen(m, None, first_ms), None, later_ms).motion is None,
{
}

/// A session that comes while another leaves, or the same one again, starts its motion anew.
pub proof fn law_new_session_slides_in(m: SheetModel, v: ViewModel, now_ms: u64)
    requires
        arrives(m, v),
    ensures
        sheet_seen(m, Some(v), now_ms).motion == Some(
            Motion { kind: MotionKind::In, started_ms: now_ms },
        ),
        sheet_seen(m, Some(v), now_ms).view == Some(v),
{
}

/// The time a session took to seal is measured from the first look at its sealing to the first
/// look at what came after.
pub proof fn law_seal_time_is_measured(
    m: SheetModel,
    phase: OverlayPhase,
    sealing_ms: u64,
    after_ms: u64,
)
    requires
        m.phase != Some(OverlayPhase::Finalizing),
        phase != OverlayPhase::Finalizing,
    ensures
        phase_seen(
            phase_seen(m, OverlayPhase::Finalizing, sealing_ms),
            phase,
            after_ms,
        ).seal_took_ms == between(sealing_ms, after_ms),
{
}

// ---- what is painted

/// A text in capitals, as std writes it.
pub uninterp spec fn uppercase_of(text: Seq<char>) -> Seq<char>;

/// A text in capitals.
///
/// Calls `str::to_uppercase` of std. The contract names the result: the capitals of all of
/// Unicode are not listed here.
#[verifier::external_body]
fn shouted(text: &str) -> (r: String)
    ensures
        r@ == uppercase_of(text@),
{
    text.to_uppercase()
}

/// How far the rule below the text is filled.
#[derive(Debug, Clone, Copy, PartialEq, Eq, Structural)]
pub enum RuleFill {
    /// Not at all.
    Empty,
    /// Quickly, since the phase began: the session failed.
    Failing,
    /// Slowly, since the phase began: the session is being sealed.
    Sealing,
    /// Wholly.
    Full,
    /// To one half: there was no text.
    Half,
}

/// How the lamp's dot is drawn.
#[derive(Debug, Clone, Copy, PartialEq, Eq, Structural)]
pub enum DotPulse {
    /// As large as the microphone is loud.
    Live,
    /// Larger: the text was injected.
    Pasted,
    /// At rest.
    Still,
}

/// What is painted of a session.
#[derive(Debug)]
pub struct PaintPlan {
    pub lamp: Lamp,
    pub coil: Ink,
    pub dot: DotPulse,
    pub dot_blinks: bool,
    pub timer: String,
    pub timer_ink: Ink,
    pub aux: Option<String>,
    pub question: Option<String>,
    pub status_line: Option<String>,
    pub rule_shown: bool,
    pub rule_fill: RuleFill,
    pub rule_ink: Ink,
    pub meta: Option<(String, Ink)>,
}

/// The timer of a session: what is left once a warning came, else what has passed.
pub open spec fn timer_of(v: ViewModel, now_ms: u64) -> (Seq<char>, Ink) {
    match (v.warning, remaining(v, now_ms)) {
        (Some(_), Some(left)) => (remaining_text(left), Ink::Rubric),
        (Some(_), None) => (elapsed_text(elapsed(v, now_ms)), Ink::Rubric),
        (None, _) => (elapsed_text(elapsed(v, now_ms)), Ink::Pencil),
    }
}

/// The rule below the text: whether it is shown for the phase, how far it is filled, in which
/// ink.
pub open spec fn rule_of(v: ViewModel) -> (bool, RuleFill, Ink) {
    let failed = v.reason is Some;
    match v.phase {
        OverlayPhase::Listening => (trim(v.transcript).len() == 0, RuleFill::Empty, Ink::Ink),
        OverlayPhase::Interim => (false, RuleFill::Empty, Ink::Ink),
        OverlayPhase::Finalizing => if failed {
            (true, RuleFill::Failing, Ink::Rubric)
        } else {
            (true, RuleFill::Sealing, Ink::Ink)
        },
        OverlayPhase::Done { .. } => if failed {
            (true, RuleFill::Failing, Ink::Rubric)
        } else if shows_text(v) {
            (true, RuleFill::Full, Ink::Ink)
        } else {
            (true, RuleFill::Half, Ink::Pencil)
        },
        OverlayPhase::Answering => if shows_text(v) {
            (true, RuleFill::Full, Ink::Ink)
        } else {
            (true, RuleFill::Half, Ink::Pencil)
        },
    }
}

/// What stands at the end of the rule: why the session failed, else a notice.
pub open spec fn meta_of(v: ViewModel) -> Option<(Seq<char>, Ink)> {
    match v.reason {
        Some(reason) => Some((uppercase_of(reason), Ink::Rubric)),
        None => match v.notice {
            Some(notice) => Some((uppercase_of(notice), Ink::Pencil)),
            None => None,
        },
    }
}

/// How the lamp's dot is drawn.
pub open spec fn dot_of(v: ViewModel, exiting: bool) -> DotPulse {
    if live(v) && !exiting {
        DotPulse::Live
    } else if v.phase == (OverlayPhase::Done { success: true }) {
        DotPulse::Pasted
    } else {
        DotPulse::Still
    }
}

/// How long sealing took, once the session is done.
pub open spec fn aux_of(v: ViewModel, seal_took_ms: u64) -> Option<Seq<char>> {
    if v.phase is Done && seal_took_ms > 0 {
        Some("seal "@ + decimal(seal_took_ms as nat) + "ms"@)
    } else {
        None
    }
}

/// A plan's meta line, by what it says.
pub open spec fn meta_text(meta: Option<(String, Ink)>) -> Option<(Seq<char>, Ink)> {
    match meta {
        Some((text, ink)) => Some((text@, ink)),
        None => None,
    }
}

/// Whether a plan is what is to be painted of the sheet.
pub open spec fn paints(p: PaintPlan, m: SheetModel, v: ViewModel, now_ms: u64) -> bool {
    &&& (p.lamp.word@, p.lamp.dot, p.lamp.ink) == lamp_of(v)
    &&& p.coil == if v.reason is Some {
        Ink::Rubric
    } else if sets_answer(v) {
        Ink::Slate
    } else {
        Ink::Ink
    }
    &&& p.dot == dot_of(v, leaving(m.motion))
    &&& p.dot_blinks == (v.phase == OverlayPhase::Finalizing && v.reason is None)
    &&& (p.timer@, p.timer_ink) == timer_of(v, now_ms)
    &&& opt_string(p.aux) == aux_of(v, m.seal_took_ms)
    &&& opt_string(p.question) == if sets_question(v) {
        v.question
    } else {
        None
    }
    &&& opt_string(p.status_line) == if m.prose.glyphs.len() == 0 {
        standing_in(v)
    } else {
        None
    }
    &&& p.rule_shown == (sets_question(v) || rule_of(v).0)
    &&& (p.rule_fill, p.rule_ink) == (rule_of(v).1, rule_of(v).2)
    &&& meta_text(p.meta) == meta_of(v)
}

fn plan_rule(view: &SessionView) -> (r: (bool, RuleFill, Ink))
    ensures
        r == rule_of(view.model()),
{
    let failed = view.failed();
    match view.phase {
        OverlayPhase::Listening => (
            is_blank(view.transcript.as_str()),
            RuleFill::Empty,
            Ink::Ink,
        ),
        OverlayPhase::Interim => (false, RuleFill::Empty, Ink::Ink),
        OverlayPhase::Finalizing => {
            if failed {
                (true, RuleFill::Failing, Ink::Rubric)
            } else {
                (true, RuleFill::Sealing, Ink::Ink)
            }
        },
        OverlayPhase::Done { .. } => {
            if failed {
                (true, RuleFill::Failing, Ink::Rubric)
            } else if view.has_text() {
                (true, RuleFill::Full, Ink::Ink)
            } else {
                (true, RuleFill::Half, Ink::Pencil)
            }
        },
        OverlayPhase::Answering => {
            if view.has_text() {
                (true, RuleFill::Full, Ink::Ink)
            } else {
                (true, RuleFill::Half, Ink::Pencil)
            }
        },
    }
}

fn plan_timer(view: &SessionView, now_ms: u64) -> (r: (String, Ink))
    ensures
        (r.0@, r.1) == timer_of(view.model(), now_ms),
{
    if view.warning.is_some() {
        match view.remaining_ms(now_ms) {
            Some(left) => (format_remaining(left), Ink::Rubric),
            None => (format_elapsed(view.elapsed_ms(now_ms)), Ink::Rubric),
        }
    } else {
        (format_elapsed(view.elapsed_ms(now_ms)), Ink::Pencil)
    }
}

impl Sheet {
    /// What is painted of the sheet, if there is anything on it.
    pub fn paint_plan(&self, now_ms: u64) -> (r: Option<PaintPlan>)
        ensures
            match r {
                Some(p) => self.model().view matches Some(v) && paints(p, self.model(), v, now_ms),
                None => self.model().view is None,
            },
    {
        let view: &SessionView = match &self.view {
            Some(view) => view,
            None => {
                return None;
            },
        };
        let exiting = match &self.motion {
            Some(m) => m.exiting(),
            None => false,
        };
        let failed = view.failed();
        let done = match view.phase {
            OverlayPhase::Done { .. } => true,
            _ => false,
        };
        let asked = question_layout(view);
        let (timer, timer_ink) = plan_timer(view, now_ms);
        let (track, rule_fill, rule_ink) = plan_rule(view);
        let meta: Option<(String, Ink)> = match &view.reason {
            Some(reason) => Some((shouted(reason.as_str()), Ink::Rubric)),
            None => match &view.notice {
                Some(notice) => Some((shouted(notice.as_str()), Ink::Pencil)),
                None => None,
            },
        };
        let aux: Option<String> = if done && self.seal_took_ms > 0 {
            Some(cat3("seal ", print_u64(self.seal_took_ms).as_str(), "ms"))
        } else {
            None
        };
        let dot = if view.is_live() && !exiting {
            DotPulse::Live
        } else if view.phase == (OverlayPhase::Done { success: true }) {
            DotPulse::Pasted
        } else {
            DotPulse::Still
        };
        let coil = if failed {
            Ink::Rubric
        } else if answer_layout(view) {
            Ink::Slate
        } else {
            Ink::Ink
        };
        Some(
            PaintPlan {
                lamp: lamp_for(view),
                coil,
                dot,
                dot_blinks: view.phase == OverlayPhase::Finalizing && !failed,
                timer,
                timer_ink,
                aux,
                question: if asked {
                    copy_opt(&view.question)
                } else {
                    None
                },
                status_line: if self.prose.is_empty() {
                    status_text(view)
                } else {
                    None
                },
                rule_shown: asked || track,
                rule_fill,
                rule_ink,
                meta,
            },
        )
    }

    /// Clears the frame and says what is painted onto it. Of a sheet with nothing on it the frame
    /// stays clear.
    pub fn begin_paint(&self, frame: &mut Frame, now_ms: u64) -> (r: Option<PaintPlan>)
        ensures
            final(frame).width == old(frame).width,
            final(frame).height == old(frame).height,
            final(frame).bytes@.len() == old(frame).bytes@.len(),
            forall|i: int| 0 <= i < final(frame).bytes@.len() ==> final(frame).bytes@[i] == 0,
            match r {
                Some(p) => self.model().view matches Some(v) && paints(p, self.model(), v, now_ms),
                None => self.model().view is None,
            },
    {
        frame.clear();
        self.paint_plan(now_ms)
    }

    /// The sheet in a few words: the lamp's word and the first words of the prose.
    pub fn title(&self) -> (r: Option<String>)
        ensures
            match r {
                Some(t) => self.model().view matches Some(v) && t@ == title_of(v),
                None => self.model().view is None,
            },
    {
        let view: &SessionView = match &self.view {
            Some(view) => view,
            None => {
                return None;
            },
        };
        let mut first = if answer_layout(view) {
            split_words(view.answer.as_str())
        } else {
            split_words(view.transcript.as_str())
        };
        let ghost all = texts(first@);
        first.truncate(8);
        assert(texts(first@) =~= if all.len() < 8 {
            all
        } else {
            all.take(8)
        });
        let snippet = join(&first, " ");
        let title = cat3(lamp_for(view).word, " ", snippet.as_str());
        Some(trimmed(title.as_str()))
    }
}

/// A session in a few words.
pub open spec fn title_of(v: ViewModel) -> Seq<char> {
    let all = words(
        if sets_answer(v) {
            v.answer
        } else {
            v.transcript
        },
    );
    let first = if all.len() < 8 {
        all
    } else {
        all.take(8)
    };
    trim(lamp_of(v).0 + " "@ + joined(first, " "@))
}

// ---- what the sheet shows

/// The sheet shows the answer of a session that is answered, and the transcript of any other;
/// an answer is set in roman from the start.
pub proof fn law_sheet_shows_the_text_at_hand(m: SheetModel, v: ViewModel, now_ms: u64)
    ensures
        ({
            let n = sheet_seen(m, Some(v), now_ms);
            let answered = v.mode == SessionMode::Llm && (v.phase == OverlayPhase::Answering
                || v.phase == (OverlayPhase::Done { success: true }) || v.phase == (
            OverlayPhase::Done { success: false }));
            &&& n.view == Some(v)
            &&& answered ==> n.prose.text == v.answer
            &&& !answered ==> n.prose.text == v.transcript
            &&& n.prose.roman_only == answered
        }),
{
    if let OverlayPhase::Done { success } = v.phase {
        assert(success || !success);
    }
}

/// All characters on the sheet are those of the text at hand, but for those dropped from its
/// front.
pub proof fn law_sheet_sets_the_characters_of_the_text(
    m: SheetModel,
    v: ViewModel,
    now_ms: u64,
    i: int,
)
    requires
        prose_sound(m.prose),
        0 <= i < sheet_seen(m, Some(v), now_ms).prose.glyphs.len(),
    ensures
        ({
            let p = sheet_seen(m, Some(v), now_ms).prose;
            &&& 0 <= p.dropped
            &&& p.dropped + p.glyphs.len() == p.text.len()
            &&& p.glyphs[i].ch == p.text[p.dropped + i]
            &&& v.phase == OverlayPhase::Finalizing || v.phase is Done ==> !p.glyphs[i].draft
        }),
{
    let ticked = SheetModel { last_tick_ms: now_ms, ..m };
    let come = if arrives(ticked, v) {
        session_come(ticked, now_ms)
    } else {
        ticked
    };
    let phased = phase_seen(come, v.phase, now_ms);
    let p = phased.prose;
    let ready = if p.roman_only != sets_answer(v) {
        no_prose(sets_answer(v))
    } else {
        p
    };
    assert(prose_sound(ready));
    let text = if sets_answer(v) {
        v.answer
    } else {
        v.transcript
    };
    crate::prose::law_prose_stays_sound(ready, text, now_ms);
    let told = prose_updated(ready, text, now_ms);
    assert(told.glyphs.len() > i);
    assert(told.glyphs[i].ch == told.text[told.dropped + i]);
}

/// A session that the sheet shows already goes on without a motion: its prose is kept, and a
/// look that brings nothing new changes nothing but the time of the look.
pub proof fn law_second_look_changes_nothing(m: SheetModel, v: ViewModel, now_ms: u64, later_ms: u64)
    requires
        !(v.phase == OverlayPhase::Finalizing || v.phase is Done),
    ensures
        ({
            let n = sheet_seen(m, Some(v), now_ms);
            let again = sheet_seen(n, Some(v), later_ms);
            &&& again.motion == n.motion
            &&& again.prose == n.prose
            &&& again.view == n.view
            &&& again.phase == n.phase
            &&& again.phase_at_ms == n.phase_at_ms
            &&& again.seal_took_ms == n.seal_took_ms
            &&& again.answering_at_ms == n.answering_at_ms
            &&& again.last_tick_ms == later_ms
        }) || leaving(sheet_seen(m, Some(v), now_ms).motion),
{
}

/// A sheet that is hidden falls where its session failed and lifts otherwise, and is gone after
/// two hundred or two hundred and twenty milliseconds, not before.
pub proof fn law_failed_sheet_falls(m: SheetModel, v: ViewModel, first_ms: u64, later_ms: u64)
    requires
        m.view == Some(v),
        m.motion is None || (m.motion->0).kind == MotionKind::In,
        first_ms <= later_ms,
    ensures
        ({
            let failed = v.reason is Some || v.phase == (OverlayPhase::Done { success: false });
            let a = sheet_seen(m, None, first_ms);
            let b = sheet_seen(a, None, later_ms);
            let lasts = if failed {
                200int
            } else {
                220
            };
            &&& a.motion matches Some(motion) && motion.started_ms == first_ms && (motion.kind
                == MotionKind::OutFall <==> failed) && (motion.kind == MotionKind::OutLift
                <==> !failed)
            &&& a.view == m.view && a.prose == m.prose
            &&& b.view is None <==> later_ms - first_ms >= lasts
            &&& observed(a, None, later_ms).gone <==> later_ms - first_ms >= lasts
            &&& !observed(m, None, first_ms).gone
        }),
{
}

/// A new session starts the sheet anew: it slides in, nothing of the text before is kept, and
/// nothing is sealed yet.
pub proof fn law_new_session_starts_anew(m: SheetModel, v: ViewModel, now_ms: u64)
    requires
        m.view is None || (m.view->0).session_id != v.session_id,
    ensures
        ({
            let n = sheet_seen(m, Some(v), now_ms);
            &&& observed(m, Some(v), now_ms).arriving
            &&& n.motion == Some(Motion { kind: MotionKind::In, started_ms: now_ms })
            &&& n.prose.dropped == 0
            &&& n.seal_took_ms == 0
            &&& n.phase == Some(v.phase) && n.phase_at_ms == now_ms
            &&& v.phase == OverlayPhase::Answering ==> n.answering_at_ms == Some(now_ms)
            &&& v.phase != OverlayPhase::Answering ==> n.answering_at_ms is None
            &&& v.phase == OverlayPhase::Finalizing ==> n.seal_started_ms == Some(now_ms)
        }),
{
}

/// What the rest of the picture is told: the time since the last look, whether the microphone is
/// heard, and whether the coil fades.
pub proof fn law_look_tells_the_picture(m: SheetModel, v: ViewModel, now_ms: u64)
    ensures
        now_ms >= m.last_tick_ms ==> observed(m, Some(v), now_ms).dt_ms == now_ms - m.last_tick_ms,
        !observed(m, Some(v), now_ms).gone,
        observed(m, Some(v), now_ms).fading <==> v.reason is Some || v.phase is Done,
        observed(m, Some(v), now_ms).live <==> v.phase == OverlayPhase::Listening || v.phase
            == OverlayPhase::Interim,
        m.view is Some && (m.view->0).session_id == v.session_id && m.motion is None
            ==> !observed(m, Some(v), now_ms).arriving,
{
}

/// The lamp tells where a session stands: each word stands for one state, and its letters are
/// red exactly where something failed.
pub proof fn law_lamp_tells_the_state(v: ViewModel)
    ensures
        ({
            let (word, dot, ink) = lamp_of(v);
            let listens = v.phase == OverlayPhase::Listening || v.phase == OverlayPhase::Interim;
            let failed = v.phase == (OverlayPhase::Done { success: false });
            &&& word == "REC"@ <==> listens && v.mode == SessionMode::Stt
            &&& word == "ASK"@ <==> listens && v.mode == SessionMode::Llm
            &&& word == "DECODING"@ <==> v.phase == OverlayPhase::Finalizing && v.reason is None
            &&& word == "FAULT"@ <==> v.phase == OverlayPhase::Finalizing && v.reason is Some
            &&& word == "ANSWER"@ <==> v.phase == OverlayPhase::Answering
            &&& word == "PASTED"@ <==> v.phase == (OverlayPhase::Done { success: true })
            &&& word == "FAILED"@ <==> failed && (trim(v.transcript).len() > 0 || trim(
                v.answer,
            ).len() > 0)
            &&& word == "NO TEXT"@ <==> failed && trim(v.transcript).len() == 0 && trim(
                v.answer,
            ).len() == 0
            &&& ink == Ink::Rubric <==> failed || (v.phase == OverlayPhase::Finalizing
                && v.reason is Some)
            &&& dot == Ink::Rubric <==> ink == Ink::Rubric
            &&& dot == Ink::Slate <==> v.phase == OverlayPhase::Answering || (listens && v.mode
                == SessionMode::Llm)
            &&& dot == Ink::Ochre <==> v.phase == OverlayPhase::Finalizing && v.reason is None
        }),
{
    reveal_strlit("REC");
    reveal_strlit("ASK");
    reveal_strlit("DECODING");
    reveal_strlit("FAULT");
    reveal_strlit("ANSWER");
    reveal_strlit("PASTED");
    reveal_strlit("FAILED");
    reveal_strlit("NO TEXT");
    assert("REC"@[0] == 'R' && "ASK"@[0] == 'A');
    assert("REC"@.len() == 3 && "ASK"@.len() == 3 && "DECODING"@.len() == 8 && "FAULT"@.len() == 5
        && "ANSWER"@.len() == 6 && "PASTED"@.len() == 6 && "FAILED"@.len() == 6 && "NO TEXT"@.len()
        == 7);
    assert("ANSWER"@[0] == 'A' && "PASTED"@[0] == 'P' && "FAILED"@[0] == 'F');
}

/// The clock that counts up shows whole minutes, the seconds of the minute in two digits and the
/// tenth that has passed.
pub proof fn law_clock_shows_minutes_seconds_tenths(m: nat, s: nat, t: nat, rest: nat, ms: u64)
    requires
        s < 60,
        t < 10,
        rest < 100,
        ms == m * 60_000 + s * 1000 + t * 100 + rest,
    ensures
        elapsed_text(ms) == decimal(m) + ":"@ + decimal2(s) + "."@ + decimal(t),
{
    assert(ms as nat / 100 == m * 600 + s * 10 + t);
    assert((m * 600 + s * 10 + t) / 600 == m);
    assert((m * 600 + s * 10 + t) % 600 == s * 10 + t);
}

/// The clock that counts down shows at least what is left, and less than a second more.
pub proof fn law_countdown_is_rounded_up(m: nat, s: nat, ms: u64)
    requires
        s < 60,
        ms <= (m * 60 + s) * 1000,
        (m * 60 + s) * 1000 < ms + 1000,
    ensures
        remaining_text(ms) == "-"@ + decimal(m) + ":"@ + decimal2(s),
{
    assert((ms as nat + 999) / 1000 == m * 60 + s);
    assert((m * 60 + s) / 60 == m);
    assert((m * 60 + s) % 60 == s);
}

/// The timer counts up until a warning says how much is left; from the warning on it is red.
pub proof fn law_timer_turns_to_the_countdown(v: ViewModel, now_ms: u64)
    ensures
        v.warning is None ==> timer_of(v, now_ms) == (
            elapsed_text(elapsed(v, now_ms)),
            Ink::Pencil,
        ),
        v.warning is Some ==> timer_of(v, now_ms).1 == Ink::Rubric,
        v.warning is Some && (v.warning->0).remaining_ms is Some ==> timer_of(v, now_ms).0
            == remaining_text(remaining(v, now_ms)->0),
        v.warning is Some && (v.warning->0).remaining_ms is None ==> timer_of(v, now_ms).0
            == elapsed_text(elapsed(v, now_ms)),
{
}

/// What is painted is what the session says: the question of a session that asks, the line that
/// stands in for an answer only while there is no prose, the reason of a failure before a
/// notice, the time that sealing took once the session is done, and red for what failed.
pub proof fn law_plan_paints_the_session(p: PaintPlan, m: SheetModel, v: ViewModel, now_ms: u64)
    requires
        paints(p, m, v, now_ms),
    ensures
        p.lamp.word@ == lamp_of(v).0 && p.lamp.dot == lamp_of(v).1 && p.lamp.ink == lamp_of(v).2,
        p.timer@ == timer_of(v, now_ms).0 && p.timer_ink == timer_of(v, now_ms).1,
        v.mode == SessionMode::Llm ==> opt_string(p.question) == v.question,
        v.mode == SessionMode::Stt ==> p.question is None,
        v.mode == SessionMode::Llm && v.question is Some ==> p.rule_shown,
        m.prose.glyphs.len() > 0 ==> p.status_line is None,
        v.mode == SessionMode::Stt ==> p.status_line is None,
        m.prose.glyphs.len() == 0 && v.mode == SessionMode::Llm && trim(v.answer).len() == 0
            && v.status is Some && trim(v.status->0).len() > 0 ==> opt_string(p.status_line)
            == v.status,
        trim(v.answer).len() > 0 ==> p.status_line is None,
        v.reason is Some ==> p.coil == Ink::Rubric && meta_text(p.meta) == Some(
            (uppercase_of(v.reason->0), Ink::Rubric),
        ),
        v.reason is None && v.notice is Some ==> meta_text(p.meta) == Some(
            (uppercase_of(v.notice->0), Ink::Pencil),
        ),
        v.reason is None && v.notice is None ==> p.meta is None,
        v.reason is None && v.mode == SessionMode::Stt ==> p.coil == Ink::Ink,
        v.reason is None && v.mode == SessionMode::Llm && v.phase == OverlayPhase::Answering
            ==> p.coil == Ink::Slate,
        p.aux is Some <==> v.phase is Done && m.seal_took_ms > 0,
        p.aux is Some ==> (p.aux->0)@ == "seal "@ + decimal(m.seal_took_ms as nat) + "ms"@,
        p.dot == DotPulse::Live <==> (v.phase == OverlayPhase::Listening || v.phase
            == OverlayPhase::Interim) && !(m.motion is Some && (m.motion->0).kind
            != MotionKind::In),
        p.dot == DotPulse::Pasted <==> v.phase == (OverlayPhase::Done { success: true }),
        p.dot_blinks <==> v.phase == OverlayPhase::Finalizing && v.reason is None,
{
}

/// The rule below the text is filled as the session goes: not while it listens, then while it is
/// sealed, wholly once there is text, and by half where there is none; red for what failed.
pub proof fn law_rule_follows_the_session(v: ViewModel)
    ensures
        ({
            let (shown, fill, ink) = rule_of(v);
            let text = trim(v.transcript).len() > 0 || trim(v.answer).len() > 0;
            let sealed = v.phase is Done || v.phase == OverlayPhase::Answering;
            &&& v.phase == OverlayPhase::Interim ==> !shown
            &&& v.phase == OverlayPhase::Listening ==> (shown <==> trim(v.transcript).len() == 0)
            &&& v.phase == OverlayPhase::Finalizing || sealed ==> shown
            &&& fill == RuleFill::Empty <==> v.phase == OverlayPhase::Listening || v.phase
                == OverlayPhase::Interim
            &&& fill == RuleFill::Failing <==> v.reason is Some && (v.phase
                == OverlayPhase::Finalizing || v.phase is Done)
            &&& fill == RuleFill::Sealing <==> v.reason is None && v.phase
                == OverlayPhase::Finalizing
            &&& fill == RuleFill::Full ==> sealed && text
            &&& fill == RuleFill::Half ==> sealed && !text
            &&& ink == Ink::Rubric <==> fill == RuleFill::Failing
            &&& ink == Ink::Pencil <==> fill == RuleFill::Half
        }),
{
}

/// The sheet has room for one to ten lines, its least height, and its shadow.
pub proof fn law_sheet_has_room_for_its_lines(content_width: u32, max_lines: u32)
    ensures
        1 <= max_lines <= 10 ==> 2 * tallest_sheet(max_lines) >= 178 + 51 * max_lines && 2
            * tallest_sheet(max_lines) <= 179 + 51 * max_lines,
        max_lines == 0 ==> tallest_sheet(max_lines) == tallest_sheet(1),
        max_lines > 10 ==> tallest_sheet(max_lines) == tallest_sheet(10),
        buffer_of(content_width, max_lines).0 == content_width + 52,
        buffer_of(content_width, max_lines).1 == tallest_sheet(max_lines) + 69,
{
}

/// A look at a visible session puts its answer on the sheet where the session is answered, and
/// its transcript where it is not.
pub proof fn law_look_puts_the_text_on_the_sheet(view: SessionView, now_ms: u64)
    ensures
        forall|s: &mut Sheet, seen: &OverlayVisibility, r: Observed| #[trigger]
            call_ensures(Sheet::observe, (s, seen, now_ms), r) && *seen
                == OverlayVisibility::Visible(view) ==> {
                let answered = view.mode == SessionMode::Llm && (view.phase
                    == OverlayPhase::Answering || view.phase is Done);
                &&& answered ==> final(s).model().prose.text == view.answer@
                &&& !answered ==> final(s).model().prose.text == view.transcript@
                &&& final(s).model().prose.roman_only == answered
                &&& final(s).model().view == Some(view.model())
            },
{
}

/// The inks are told apart.
pub proof fn law_inks_are_told_apart(a: Ink, b: Ink, x: Rgb, y: Rgb)
    requires
        call_ensures(Ink::rgb, (a,), x),
        call_ensures(Ink::rgb, (b,), y),
    ensures
        x == y ==> a == b,
        a == Ink::Rubric ==> x.r > x.g && x.r > x.b,
        a == Ink::Sage ==> x.g > x.r && x.g > x.b,
        a == Ink::Slate ==> x.b > x.r && x.b > x.g,
        a == Ink::Ink ==> x.r < 0x20 && x.g < 0x20 && x.b < 0x20,
{
}

/// Dropping characters from the front of the prose keeps the rest and the text.
pub proof fn law_dropping_keeps_the_rest(n: usize)
    ensures
        forall|s: &mut Sheet, r: ()| #[trigger]
            call_ensures(Sheet::drop_leading, (s, n), r) ==> {
                &&& final(s).model().prose.text == s.model().prose.text
                &&& final(s).model().prose.dropped == s.model().prose.dropped + n
                &&& final(s).model().prose.glyphs == s.model().prose.glyphs.skip(n as int)
                &&& final(s).model().view == s.model().view
                &&& final(s).model().motion == s.model().motion
            },
{
}

/// The layout follows what is shown: an answer has its own just where one is shown, a question
/// where there is one, and a status stands in for an answer that has no text yet.
pub proof fn law_layout_follows_the_view(
    view: &SessionView,
    answers: bool,
    asks: bool,
    status: Option<String>,
)
    requires
        call_ensures(answer_layout, (view,), answers),
        call_ensures(question_layout, (view,), asks),
        call_ensures(status_text, (view,), status),
    ensures
        answers <==> view.model().mode == SessionMode::Llm && (view.model().phase
            == OverlayPhase::Answering || view.model().phase is Done),
        asks <==> view.model().mode == SessionMode::Llm && view.model().question is Some,
        view.model().mode == SessionMode::Stt ==> status is None,
        status matches Some(s) ==> view.model().status == Some(s@) && trim(s@).len() > 0 && trim(
            view.model().answer,
        ).len() == 0,
        view.model().mode == SessionMode::Llm && trim(view.model().answer).len() == 0 && (
        view.model().status matches Some(s) && trim(s).len() > 0) ==> status is Some,
{
}

} // verus!
