//! The scripts that the previews play, and how they are played.
use vstd::prelude::*;

use crate::overlay_ipc::{IpcView, OverlayIpcMessage, OverlayTextProducer};
use crate::overlay_renderer::TICK_MS;
use crate::preview::{pieces, spoken, streamed, told, Script, LEVEL_PERIOD_MS, PIECE_PERIOD_MS};
use crate::protocol::{is_v4, FloatBits, SessionId};
use crate::text::{cat3, lemma_words_fit, words};

verus! {

/// The bits of thirty as a floating point number.
pub const THIRTY_SECONDS: u32 = 0x41f0_0000;

/// The bits of six hundred as a floating point number.
pub const TEN_MINUTES: u32 = 0x4416_0000;

/// What is said in one breath.
pub const SHORT_SENTENCE: &'static str = "Okay, let's ship the coil version and see how it reads.";

/// What runs over the lines of the sheet.
pub const LONG_SENTENCE: &'static str = "So the plan for this afternoon is to finish the overlay renderer refactor, move the waveform into its own module, add a proper test for the per character fade, wire the seal timing into the aux line, check the countdown against the daemon cap, and then write the release notes before the standup so nobody has to ask what changed.";

/// A question.
pub const QUESTION: &'static str = "what's the difference between a mutex and a semaphore";

/// Its answer.
pub const ANSWER: &'static str = "A mutex is a lock owned by one holder at a time; a semaphore is a counter that admits up to N holders, so it can also signal between threads.";

/// What is broken off.
pub const BROKEN_SENTENCE: &'static str = "so the plan is to";

/// What goes on past the warning.
pub const CAP_SENTENCE: &'static str = "and we keep talking well past the cap warning";

/// What is played in one preview, and when pictures are taken.
#[derive(Debug)]
pub struct Scenario {
    pub name: String,
    pub session: SessionId,
    /// Messages, each with its time.
    pub events: Vec<(u64, OverlayIpcMessage)>,
    /// Pictures, each with its time.
    pub shots: Vec<(u64, String)>,
    /// From when until when the microphone hears speech.
    pub speech: Vec<(u64, u64)>,
}

/// A scenario, mathematically.
#[verifier::ext_equal]
pub struct ScenarioView {
    pub name: Seq<char>,
    pub events: Seq<(u64, IpcView)>,
    pub shots: Seq<(u64, Seq<char>)>,
    pub speech: Seq<(u64, u64)>,
}

/// Pictures, by what they are called.
pub open spec fn shot_views(shots: Seq<(u64, String)>) -> Seq<(u64, Seq<char>)> {
    Seq::new(shots.len(), |i: int| (shots[i].0, shots[i].1@))
}

impl Scenario {
    /// The scenario, mathematically.
    pub open spec fn shown(self) -> ScenarioView {
        ScenarioView {
            name: self.name@,
            events: told(self.events@),
            shots: shot_views(self.shots@),
            speech: self.speech@,
        }
    }
}

/// A state of the transcript.
pub open spec fn heard_state(
    at_ms: int,
    session_id: SessionId,
    seq: int,
    state: Seq<char>,
) -> (u64, IpcView) {
    (
        at_ms as u64,
        IpcView::InterimState {
            session_id,
            producer: OverlayTextProducer::DaemonSttInterim,
            seq: seq as u64,
            state,
        },
    )
}

/// A state of the answer.
pub open spec fn answer_state(
    at_ms: int,
    session_id: SessionId,
    seq: int,
    state: Seq<char>,
) -> (u64, IpcView) {
    (
        at_ms as u64,
        IpcView::InterimState {
            session_id,
            producer: OverlayTextProducer::LlmAnswerDelta,
            seq: seq as u64,
            state,
        },
    )
}

/// The end of a session.
pub open spec fn end_at(at_ms: int, session_id: SessionId, reason: Seq<char>) -> (u64, IpcView) {
    (at_ms as u64, IpcView::SessionEnded { session_id, reason: Some(reason) })
}

/// The end of an injection.
pub open spec fn injected_at(at_ms: int, session_id: SessionId, success: bool) -> (u64, IpcView) {
    (at_ms as u64, IpcView::InjectionComplete { session_id, success })
}

/// A picture.
pub open spec fn shot_at(at_ms: int, name: Seq<char>) -> (u64, Seq<char>) {
    (at_ms as u64, name)
}

/// A sentence that is said after the first message of a session.
pub open spec fn said(session: SessionId, start_ms: u64, gap_ms: u64, sentence: Seq<char>) -> Seq<
    (u64, IpcView),
> {
    spoken(session, 1, start_ms, gap_ms, words(sentence), words(sentence).len())
}

/// When a sentence has been said.
pub open spec fn said_until(start_ms: u64, gap_ms: u64, sentence: Seq<char>) -> int {
    start_ms + words(sentence).len() * gap_ms
}

/// A short sentence is said in a short time.
proof fn lemma_said_until(start_ms: u64, gap_ms: u64, sentence: Seq<char>)
    requires
        start_ms <= 1000,
        gap_ms <= 1000,
        sentence.len() <= 1000,
    ensures
        start_ms <= said_until(start_ms, gap_ms, sentence) <= 1_001_000,
        words(sentence).len() <= 1000,
{
    lemma_words_fit(sentence);
    let n = words(sentence).len();
    assert(0 <= n * gap_ms <= 1000 * 1000) by (nonlinear_arith)
        requires
            n <= 1000,
            gap_ms <= 1000,
    ;
}

/// Adds a picture.
fn shot(shots: &mut Vec<(u64, String)>, at_ms: u64, name: &str)
    ensures
        shot_views(final(shots)@) == shot_views(old(shots)@).push((at_ms, name@)),
{
    shots.push((at_ms, name.to_owned()));
    assert(shot_views(shots@) =~= shot_views(old(shots)@).push((at_ms, name@)));
}

/// One sentence, sealed, pasted, lifted out.
pub open spec fn short_view(session: SessionId) -> ScenarioView {
    let end = said_until(420, 190, SHORT_SENTENCE@);
    let n = words(SHORT_SENTENCE@).len() as int;
    ScenarioView {
        name: "short"@,
        events: seq![heard_state(0, session, 1, "listening"@)] + said(
            session,
            420,
            190,
            SHORT_SENTENCE@,
        ) + seq![
            heard_state(end + 350, session, n + 2, "finalizing"@),
            end_at(end + 900, session, "final"@),
            injected_at(end + 980, session, true),
        ],
        shots: seq![
            shot_at(60, "in"@),
            shot_at(700, "listening"@),
            shot_at(1_400, "interim"@),
            shot_at(end + 500, "sealing"@),
            shot_at(end + 1_200, "pasted"@),
            shot_at(end + 1_970, "exit"@),
        ],
        speech: seq![(300, (end + 100) as u64)],
    }
}

/// Prose that wraps, then overflows the most lines.
pub open spec fn long_view(session: SessionId) -> ScenarioView {
    let end = said_until(300, 130, LONG_SENTENCE@);
    let n = words(LONG_SENTENCE@).len() as int;
    ScenarioView {
        name: "long"@,
        events: seq![heard_state(0, session, 1, "listening"@)] + said(
            session,
            300,
            130,
            LONG_SENTENCE@,
        ) + seq![
            heard_state(end + 200, session, n + 2, "finalizing"@),
            end_at(end + 1_100, session, "final"@),
            injected_at(end + 1_150, session, true),
        ],
        shots: seq![
            shot_at(2_200, "two-lines"@),
            shot_at(5_000, "four-lines"@),
            shot_at(end - 100, "cap"@),
            shot_at(end + 700, "sealing"@),
        ],
        speech: seq![(250, end as u64)],
    }
}

/// A question, the status line, a streamed answer, a busy notice, pasted.
pub open spec fn llm_view(session: SessionId) -> ScenarioView {
    let end = said_until(400, 170, QUESTION@);
    let n = words(QUESTION@).len() as int;
    let start = (end + 1_300) as u64;
    let at = start + pieces(ANSWER@) * PIECE_PERIOD_MS;
    ScenarioView {
        name: "llm"@,
        events: seq![heard_state(0, session, 1, "listening"@)] + said(
            session,
            400,
            170,
            QUESTION@,
        ) + seq![
            heard_state(end + 200, session, n + 2, "finalizing"@),
            answer_state(end + 700, session, n + 3, crate::app::LLM_GENERATING_STATE@),
        ] + streamed(session, (n + 3) as u64, start, ANSWER@, pieces(ANSWER@)) + seq![
            answer_state(at + 200, SessionId::nil_id(), 1, crate::app::LLM_BUSY_STATE@),
            end_at(at + 1_400, SessionId::nil_id(), "busy"@),
            end_at(at + 1_800, session, "final"@),
            injected_at(at + 1_900, session, true),
        ],
        shots: seq![
            shot_at(end + 900, "status"@),
            shot_at(end + 1_900, "answer"@),
            shot_at(at + 500, "busy"@),
            shot_at(at + 2_100, "pasted"@),
        ],
        speech: seq![(300, end as u64)],
    }
}

/// Nothing heard, sealed to nothing.
pub open spec fn empty_view(session: SessionId) -> ScenarioView {
    ScenarioView {
        name: "empty"@,
        events: seq![heard_state(0, session, 1, "listening"@)] + seq![
            heard_state(1_800, session, 2, "finalizing"@),
            end_at(2_300, session, "final"@),
            injected_at(2_350, session, false),
        ],
        shots: seq![
            shot_at(900, "listening"@),
            shot_at(2_000, "sealing"@),
            shot_at(2_600, "no-text"@),
        ],
        speech: Seq::empty(),
    }
}

/// The session aborts within a sentence and the sheet falls away.
pub open spec fn error_view(session: SessionId) -> ScenarioView {
    let end = said_until(400, 180, BROKEN_SENTENCE@);
    let n = words(BROKEN_SENTENCE@).len() as int;
    ScenarioView {
        name: "error"@,
        events: seq![heard_state(0, session, 1, "listening"@)] + said(
            session,
            400,
            180,
            BROKEN_SENTENCE@,
        ) + seq![
            end_at(end + 300, session, "abort"@),
        ],
        shots: seq![
            shot_at(end + 450, "fault"@),
            shot_at(end + 980, "fall"@),
        ],
        speech: seq![(300, end as u64)],
    }
}

/// A warning comes; the timer becomes a countdown.
pub open spec fn cap_view(session: SessionId) -> ScenarioView {
    let end = said_until(300, 160, CAP_SENTENCE@);
    let n = words(CAP_SENTENCE@).len() as int;
    ScenarioView {
        name: "cap"@,
        events: seq![heard_state(0, session, 1, "listening"@)] + said(
            session,
            300,
            160,
            CAP_SENTENCE@,
        ) + seq![
            (
                1_500,
                IpcView::SessionWarning {
                    session_id: session,
                    remaining_seconds: Some(FloatBits { bits: THIRTY_SECONDS }),
                    limit_seconds: Some(FloatBits { bits: TEN_MINUTES }),
                },
            ),
        ],
        shots: seq![
            shot_at(1_200, "before"@),
            shot_at(2_600, "countdown"@),
        ],
        speech: seq![(250, (end + 2_000) as u64)],
    }
}

/// One sentence, sealed, pasted, lifted out.
pub fn short_scenario(session: SessionId) -> (r: Scenario)
    ensures
        r.shown() == short_view(session),
        r.session == session,
{
    proof {
        reveal_strlit("Okay, let's ship the coil version and see how it reads.");
        lemma_said_until(420, 190, SHORT_SENTENCE@);
    }
    let mut script = Script::new(session);
    script.state(0, OverlayTextProducer::DaemonSttInterim, "listening");
    let end: u64 = script.words(420, 190, SHORT_SENTENCE);
    script.state(end + 350, OverlayTextProducer::DaemonSttInterim, "finalizing");
    script.ended(end + 900, "final");
    script.injected(end + 980, true);
    let mut shots: Vec<(u64, String)> = Vec::new();
    shot(&mut shots, 60, "in");
    shot(&mut shots, 700, "listening");
    shot(&mut shots, 1_400, "interim");
    shot(&mut shots, end + 500, "sealing");
    shot(&mut shots, end + 1_200, "pasted");
    shot(&mut shots, end + 1_970, "exit");
    let mut speech: Vec<(u64, u64)> = Vec::new();
    speech.push((300, end + 100));
    let r = Scenario { name: "short".to_owned(), session, events: script.events, shots, speech };
    assert(r.shown() =~= short_view(session));
    r
}

/// Prose that wraps, then overflows the most lines.
pub fn long_scenario(session: SessionId) -> (r: Scenario)
    ensures
        r.shown() == long_view(session),
        r.session == session,
{
    proof {
        reveal_strlit("So the plan for this afternoon is to finish the overlay renderer refactor, move the waveform into its own module, add a proper test for the per character fade, wire the seal timing into the aux line, check the countdown against the daemon cap, and then write the release notes before the standup so nobody has to ask what changed.");
        lemma_said_until(300, 130, LONG_SENTENCE@);
    }
    let mut script = Script::new(session);
    script.state(0, OverlayTextProducer::DaemonSttInterim, "listening");
    let end: u64 = script.words(300, 130, LONG_SENTENCE);
    script.state(end + 200, OverlayTextProducer::DaemonSttInterim, "finalizing");
    script.ended(end + 1_100, "final");
    script.injected(end + 1_150, true);
    let mut shots: Vec<(u64, String)> = Vec::new();
    shot(&mut shots, 2_200, "two-lines");
    shot(&mut shots, 5_000, "four-lines");
    shot(&mut shots, end - 100, "cap");
    shot(&mut shots, end + 700, "sealing");
    let mut speech: Vec<(u64, u64)> = Vec::new();
    speech.push((250, end));
    let r = Scenario { name: "long".to_owned(), session, events: script.events, shots, speech };
    assert(r.shown() =~= long_view(session));
    r
}

/// A question, the status line, a streamed answer, a busy notice, pasted.
pub fn llm_scenario(session: SessionId) -> (r: Scenario)
    ensures
        r.shown() == llm_view(session),
        r.session == session,
{
    proof {
        reveal_strlit("what's the difference between a mutex and a semaphore");
        reveal_strlit("A mutex is a lock owned by one holder at a time; a semaphore is a counter that admits up to N holders, so it can also signal between threads.");
        lemma_said_until(400, 170, QUESTION@);
    }
    let mut script = Script::new(session);
    script.state(0, OverlayTextProducer::DaemonSttInterim, "listening");
    let end: u64 = script.words(400, 170, QUESTION);
    script.state(end + 200, OverlayTextProducer::DaemonSttInterim, "finalizing");
    script.state(end + 700, OverlayTextProducer::LlmAnswerDelta, crate::app::LLM_GENERATING_STATE);
    let at: u64 = script.answer(end + 1_300, ANSWER);
    script.busy(at + 200, at + 1_400);
    script.ended(at + 1_800, "final");
    script.injected(at + 1_900, true);
    let mut shots: Vec<(u64, String)> = Vec::new();
    shot(&mut shots, end + 900, "status");
    shot(&mut shots, end + 1_900, "answer");
    shot(&mut shots, at + 500, "busy");
    shot(&mut shots, at + 2_100, "pasted");
    let mut speech: Vec<(u64, u64)> = Vec::new();
    speech.push((300, end));
    let r = Scenario { name: "llm".to_owned(), session, events: script.events, shots, speech };
    assert(r.shown() =~= llm_view(session));
    r
}

/// Nothing heard, sealed to nothing.
pub fn empty_scenario(session: SessionId) -> (r: Scenario)
    ensures
        r.shown() == empty_view(session),
        r.session == session,
{
    let mut script = Script::new(session);
    script.state(0, OverlayTextProducer::DaemonSttInterim, "listening");
    script.state(1_800, OverlayTextProducer::DaemonSttInterim, "finalizing");
    script.ended(2_300, "final");
    script.injected(2_350, false);
    let mut shots: Vec<(u64, String)> = Vec::new();
    shot(&mut shots, 900, "listening");
    shot(&mut shots, 2_000, "sealing");
    shot(&mut shots, 2_600, "no-text");
    let speech: Vec<(u64, u64)> = Vec::new();
    let r = Scenario { name: "empty".to_owned(), session, events: script.events, shots, speech };
    assert(r.shown() =~= empty_view(session));
    r
}

/// The session aborts within a sentence and the sheet falls away.
pub fn error_scenario(session: SessionId) -> (r: Scenario)
    ensures
        r.shown() == error_view(session),
        r.session == session,
{
    proof {
        reveal_strlit("so the plan is to");
        lemma_said_until(400, 180, BROKEN_SENTENCE@);
    }
    let mut script = Script::new(session);
    script.state(0, OverlayTextProducer::DaemonSttInterim, "listening");
    let end: u64 = script.words(400, 180, BROKEN_SENTENCE);
    script.ended(end + 300, "abort");
    let mut shots: Vec<(u64, String)> = Vec::new();
    shot(&mut shots, end + 450, "fault");
    shot(&mut shots, end + 980, "fall");
    let mut speech: Vec<(u64, u64)> = Vec::new();
    speech.push((300, end));
    let r = Scenario { name: "error".to_owned(), session, events: script.events, shots, speech };
    assert(r.shown() =~= error_view(session));
    r
}

/// A warning comes; the timer becomes a countdown.
pub fn cap_scenario(session: SessionId) -> (r: Scenario)
    ensures
        r.shown() == cap_view(session),
        r.session == session,
{
    proof {
        reveal_strlit("and we keep talking well past the cap warning");
        lemma_said_until(300, 160, CAP_SENTENCE@);
    }
    let mut script = Script::new(session);
    script.state(0, OverlayTextProducer::DaemonSttInterim, "listening");
    let end: u64 = script.words(300, 160, CAP_SENTENCE);
    script.warning(
        1_500,
        FloatBits { bits: THIRTY_SECONDS },
        FloatBits { bits: TEN_MINUTES },
    );
    let mut shots: Vec<(u64, String)> = Vec::new();
    shot(&mut shots, 1_200, "before");
    shot(&mut shots, 2_600, "countdown");
    let mut speech: Vec<(u64, u64)> = Vec::new();
    speech.push((250, end + 2_000));
    let r = Scenario { name: "cap".to_owned(), session, events: script.events, shots, speech };
    assert(r.shown() =~= cap_view(session));
    r
}

/// All scenarios, in the order in which they are played.
pub fn scenarios() -> (r: Vec<Scenario>)
    ensures
        r@.len() == 6,
        r@[0].shown() == short_view(r@[0].session),
        r@[1].shown() == long_view(r@[1].session),
        r@[2].shown() == llm_view(r@[2].session),
        r@[3].shown() == empty_view(r@[3].session),
        r@[4].shown() == error_view(r@[4].session),
        r@[5].shown() == cap_view(r@[5].session),
        forall|i: int| 0 <= i < 6 ==> is_v4((#[trigger] r@[i]).session.bits),
{
    let mut out: Vec<Scenario> = Vec::new();
    out.push(short_scenario(SessionId::fresh()));
    out.push(long_scenario(SessionId::fresh()));
    out.push(llm_scenario(SessionId::fresh()));
    out.push(empty_scenario(SessionId::fresh()));
    out.push(error_scenario(SessionId::fresh()));
    out.push(cap_scenario(SessionId::fresh()));
    out
}

/// The name of the file that a picture goes to.
pub fn picture_name(scenario: &str, shot: &str) -> (r: String)
    ensures
        r@ == scenario@ + "-"@ + shot@ + ".ppm"@,
{
    let mut name = cat3(scenario, "-", shot);
    name.push_str(".ppm");
    name
}

/// Whether someone speaks at this time.
pub fn is_talking(at_ms: u64, speech: &Vec<(u64, u64)>) -> (r: bool)
    ensures
        r == exists|i: int|
            0 <= i < speech@.len() && #[trigger] speech@[i].0 <= at_ms < speech@[i].1,
{
    let mut i: usize = 0;
    while i < speech.len()
        invariant
            i <= speech@.len(),
            forall|j: int| 0 <= j < i ==> !(#[trigger] speech@[j].0 <= at_ms < speech@[j].1),
        decreases speech@.len() - i,
    {
        let (from, until) = speech[i];
        if from <= at_ms && at_ms < until {
            assert(speech@[i as int].0 <= at_ms < speech@[i as int].1);
            return true;
        }
        i = i + 1;
    }
    false
}

// ---- playing

/// Whether an order goes through all entries by their time, and those of one time as they
/// stand.
pub open spec fn in_time_order(times: Seq<u64>, order: Seq<usize>) -> bool {
    &&& order.len() == times.len()
    &&& forall|i: int| 0 <= i < order.len() ==> (#[trigger] order[i]) < times.len()
    &&& forall|i: int, j: int|
        0 <= i < j < order.len() ==> comes_first(times, #[trigger] order[i], #[trigger] order[j])
}

/// Whether an entry comes before another.
pub open spec fn comes_first(times: Seq<u64>, a: usize, b: usize) -> bool {
    times[a as int] < times[b as int] || times[a as int] == times[b as int] && a < b
}

/// The order of entries by their time.
pub fn time_order(times: &Vec<u64>) -> (r: Vec<usize>)
    ensures
        in_time_order(times@, r@),
{
    let mut order: Vec<usize> = Vec::new();
    let total: usize = times.len();
    let mut n: usize = 0;
    while n < total
        invariant
            n <= total,
            total == times@.len(),
            order@.len() == n,
            forall|i: int| 0 <= i < n ==> (#[trigger] order@[i]) < n,
            forall|i: int, j: int|
                0 <= i < j < n ==> comes_first(
                    times@,
                    #[trigger] order@[i],
                    #[trigger] order@[j],
                ),
        decreases total - n,
    {
        let mut at: usize = n;
        while at > 0 && times[order[at - 1]] > times[n]
            invariant
                at <= n,
                n < total,
                total == times@.len(),
                order@.len() == n,
                forall|i: int| 0 <= i < n ==> (#[trigger] order@[i]) < n,
                forall|i: int|
                    at <= i < n ==> times@[(#[trigger] order@[i]) as int] > times@[n as int],
            decreases at,
        {
            at = at - 1;
        }
        let ghost before = order@;
        order.insert(at, n);
        proof {
            assert(order@ =~= before.insert(at as int, n));
            assert forall|i: int, j: int| 0 <= i < j < n + 1 implies comes_first(
                times@,
                #[trigger] order@[i],
                #[trigger] order@[j],
            ) by {
                let a = if i < at {
                    i
                } else {
                    i - 1
                };
                let b = if j < at {
                    j
                } else {
                    j - 1
                };
                if j == at {
                    assert(order@[i] == before[i]);
                    if i < at - 1 {
                        assert(comes_first(times@, before[i], before[at - 1]));
                    }
                } else if i == at {
                    assert(order@[j] == before[b]);
                } else {
                    assert(order@[i] == before[a] && order@[j] == before[b]);
                    assert(comes_first(times@, before[a], before[b]));
                }
            }
            assert forall|i: int| 0 <= i < n + 1 implies (#[trigger] order@[i]) < n + 1 by {
                if i < at {
                    assert(order@[i] == before[i]);
                } else if i > at {
                    assert(order@[i] == before[i - 1]);
                }
            }
        }
        n = n + 1;
    }
    order
}

/// Where the entries that are due by now end.
pub open spec fn due_end(times: Seq<u64>, order: Seq<usize>, from: int, now_ms: u64) -> int
    decreases order.len() - from,
{
    if 0 <= from < order.len() && times[order[from] as int] <= now_ms {
        due_end(times, order, from + 1, now_ms)
    } else {
        from
    }
}

/// Where the entries that are due by now end.
fn find_due_end(times: &Vec<u64>, order: &Vec<usize>, from: usize, now_ms: u64) -> (r: usize)
    requires
        from <= order@.len(),
        forall|i: int| 0 <= i < order@.len() ==> (#[trigger] order@[i]) < times@.len(),
    ensures
        r == due_end(times@, order@, from as int, now_ms),
        from <= r <= order@.len(),
{
    let mut at: usize = from;
    while at < order.len() && times[order[at]] <= now_ms
        invariant
            from <= at <= order@.len(),
            forall|i: int| 0 <= i < order@.len() ==> (#[trigger] order@[i]) < times@.len(),
            due_end(times@, order@, from as int, now_ms) == due_end(
                times@,
                order@,
                at as int,
                now_ms,
            ),
        ensures
            from <= at <= order@.len(),
            due_end(times@, order@, from as int, now_ms) == at,
        decreases order@.len() - at,
    {
        at = at + 1;
    }
    at
}

/// A scenario that is being played, mathematically.
pub struct PlayModel {
    pub event_times: Seq<u64>,
    pub events: Seq<usize>,
    pub shot_times: Seq<u64>,
    pub shots: Seq<usize>,
    pub next_event: int,
    pub next_shot: int,
    pub next_level_ms: u64,
    pub now_ms: u64,
}

/// What is done at one tick, mathematically.
#[verifier::ext_equal]
pub struct TickView {
    pub now_ms: u64,
    /// The times whose microphone levels are fed in.
    pub levels: Seq<u64>,
    /// The messages that are applied.
    pub events: Seq<usize>,
    /// The pictures that are taken.
    pub shots: Seq<usize>,
}

/// How many levels are due.
pub open spec fn levels_due(next_level_ms: u64, now_ms: u64) -> nat {
    if next_level_ms <= now_ms {
        ((now_ms - next_level_ms) / LEVEL_PERIOD_MS as int + 1) as nat
    } else {
        0
    }
}

/// Levels, a period apart.
pub open spec fn level_times(next_level_ms: u64, n: nat) -> Seq<u64> {
    Seq::new(n, |i: int| (next_level_ms + i * LEVEL_PERIOD_MS) as u64)
}

/// What is done at this tick, and what follows it. When all pictures have been taken, nothing
/// is.
pub open spec fn ticked(m: PlayModel) -> (PlayModel, Option<TickView>) {
    if m.next_shot >= m.shots.len() {
        (m, None)
    } else {
        let n = levels_due(m.next_level_ms, m.now_ms);
        let event_end = due_end(m.event_times, m.events, m.next_event, m.now_ms);
        let shot_end = due_end(m.shot_times, m.shots, m.next_shot, m.now_ms);
        (
            PlayModel {
                next_event: event_end,
                next_shot: shot_end,
                next_level_ms: (m.next_level_ms + n * LEVEL_PERIOD_MS) as u64,
                now_ms: (m.now_ms + TICK_MS) as u64,
                ..m
            },
            Some(
                TickView {
                    now_ms: m.now_ms,
                    levels: level_times(m.next_level_ms, n),
                    events: m.events.subrange(m.next_event, event_end),
                    shots: m.shots.subrange(m.next_shot, shot_end),
                },
            ),
        )
    }
}

/// The latest time at which a picture can be taken: the clock still counts the ticks after it.
pub const LAST_SHOT_MS: u64 = 0xffff_ffff_ffff_ff00;

/// What holds of a scenario while it is played.
pub open spec fn play_sound(m: PlayModel) -> bool {
    &&& in_time_order(m.event_times, m.events)
    &&& in_time_order(m.shot_times, m.shots)
    &&& 0 <= m.next_event <= m.events.len()
    &&& 0 <= m.next_shot <= m.shots.len()
    &&& forall|i: int| 0 <= i < m.shot_times.len() ==> (#[trigger] m.shot_times[i]) <= LAST_SHOT_MS
    &&& m.now_ms < TICK_MS || m.next_shot >= m.shots.len() || m.now_ms - TICK_MS
        < m.shot_times[m.shots[m.next_shot] as int]
    &&& m.now_ms <= LAST_SHOT_MS + 2 * TICK_MS
    &&& m.next_level_ms <= m.now_ms + LEVEL_PERIOD_MS
}

/// The entries before the end are due, and the one at the end is not.
proof fn lemma_due_end(times: Seq<u64>, order: Seq<usize>, from: int, now_ms: u64)
    requires
        0 <= from <= order.len(),
    ensures
        from <= due_end(times, order, from, now_ms) <= order.len(),
        forall|i: int|
            from <= i < due_end(times, order, from, now_ms) ==> times[(#[trigger] order[i]) as int]
                <= now_ms,
        due_end(times, order, from, now_ms) < order.len() ==> times[order[due_end(
            times,
            order,
            from,
            now_ms,
        )] as int] > now_ms,
    decreases order.len() - from,
{
    if from < order.len() && times[order[from] as int] <= now_ms {
        lemma_due_end(times, order, from + 1, now_ms);
    }
}

/// So many periods go into the time that has passed.
proof fn lemma_levels(next_level_ms: u64, now_ms: u64)
    ensures
        next_level_ms <= now_ms ==> (levels_due(next_level_ms, now_ms) - 1) * LEVEL_PERIOD_MS
            <= now_ms - next_level_ms < levels_due(next_level_ms, now_ms) * LEVEL_PERIOD_MS,
{
}

/// A tick keeps a play sound.
pub proof fn law_play_stays_sound(m: PlayModel)
    requires
        play_sound(m),
    ensures
        play_sound(ticked(m).0),
{
    lemma_due_end(m.event_times, m.events, m.next_event, m.now_ms);
    lemma_due_end(m.shot_times, m.shots, m.next_shot, m.now_ms);
    lemma_levels(m.next_level_ms, m.now_ms);
}

/// A picture is taken at the first tick at or after its time: after its time, and less than a
/// tick late. Only the first tick of all takes what is due from the start.
pub proof fn law_shots_are_taken_on_time(m: PlayModel, i: int)
    requires
        play_sound(m),
        m.next_shot <= i < ticked(m).0.next_shot,
    ensures
        m.shot_times[m.shots[i] as int] <= m.now_ms,
        m.now_ms < TICK_MS || m.now_ms < m.shot_times[m.shots[i] as int] + TICK_MS,
{
    lemma_due_end(m.shot_times, m.shots, m.next_shot, m.now_ms);
    if m.next_shot < i {
        assert(comes_first(m.shot_times, m.shots[m.next_shot], m.shots[i]));
    }
}

/// Levels are fed in a period apart, without a gap between ticks.
pub proof fn law_levels_are_a_period_apart(m: PlayModel)
    requires
        play_sound(m),
        ticked(m).1 is Some,
    ensures
        ({
            let levels = ticked(m).1.unwrap().levels;
            &&& forall|i: int|
                0 <= i < levels.len() ==> (#[trigger] levels[i]) == m.next_level_ms + i
                    * LEVEL_PERIOD_MS && levels[i] <= m.now_ms
            &&& ticked(m).0.next_level_ms == m.next_level_ms + levels.len() * LEVEL_PERIOD_MS
            &&& ticked(m).0.next_level_ms > m.now_ms
        }),
{
    lemma_levels(m.next_level_ms, m.now_ms);
}

/// What is done at one tick.
#[derive(Debug)]
pub struct PlayTick {
    pub now_ms: u64,
    pub levels: Vec<u64>,
    pub events: Vec<usize>,
    pub shots: Vec<usize>,
}

impl PlayTick {
    /// The tick, mathematically.
    pub open spec fn shown(self) -> TickView {
        TickView {
            now_ms: self.now_ms,
            levels: self.levels@,
            events: self.events@,
            shots: self.shots@,
        }
    }
}

/// A scenario that is being played.
#[derive(Debug)]
pub struct Playback {
    event_times: Vec<u64>,
    events: Vec<usize>,
    shot_times: Vec<u64>,
    shots: Vec<usize>,
    next_event: usize,
    next_shot: usize,
    next_level_ms: u64,
    now_ms: u64,
}

/// A part of an order.
fn part(order: &Vec<usize>, from: usize, to: usize) -> (r: Vec<usize>)
    requires
        from <= to <= order@.len(),
    ensures
        r@ == order@.subrange(from as int, to as int),
{
    let mut out: Vec<usize> = Vec::new();
    let mut at: usize = from;
    while at < to
        invariant
            from <= at <= to <= order@.len(),
            out@ == order@.subrange(from as int, at as int),
        decreases to - at,
    {
        out.push(order[at]);
        assert(order@.subrange(from as int, at + 1) =~= order@.subrange(
            from as int,
            at as int,
        ).push(order@[at as int]));
        at = at + 1;
    }
    out
}

impl Playback {
    /// The play, mathematically.
    pub closed spec fn model(self) -> PlayModel {
        PlayModel {
            event_times: self.event_times@,
            events: self.events@,
            shot_times: self.shot_times@,
            shots: self.shots@,
            next_event: self.next_event as int,
            next_shot: self.next_shot as int,
            next_level_ms: self.next_level_ms,
            now_ms: self.now_ms,
        }
    }

    /// The play before its first tick.
    pub fn new(event_times: Vec<u64>, shot_times: Vec<u64>) -> (r: Playback)
        requires
            forall|i: int|
                0 <= i < shot_times@.len() ==> (#[trigger] shot_times@[i]) <= LAST_SHOT_MS,
        ensures
            play_sound(r.model()),
            r.model().event_times == event_times@,
            r.model().shot_times == shot_times@,
            r.model().next_event == 0,
            r.model().next_shot == 0,
            r.model().next_level_ms == 0,
            r.model().now_ms == 0,
    {
        let events = time_order(&event_times);
        let shots = time_order(&shot_times);
        Playback {
            event_times,
            events,
            shot_times,
            shots,
            next_event: 0,
            next_shot: 0,
            next_level_ms: 0,
            now_ms: 0,
        }
    }

    /// Goes on by one tick.
    pub fn tick(&mut self) -> (r: Option<PlayTick>)
        requires
            play_sound(old(self).model()),
        ensures
            final(self).model() == ticked(old(self).model()).0,
            play_sound(final(self).model()),
            match (r, ticked(old(self).model()).1) {
                (Some(tick), Some(view)) => tick.shown() == view,
                (None, None) => true,
                _ => false,
            },
    {
        proof {
            law_play_stays_sound(self.model());
        }
        if self.next_shot >= self.shots.len() {
            return None;
        }
        let now_ms: u64 = self.now_ms;
        let first: u64 = self.next_level_ms;
        let mut levels: Vec<u64> = Vec::new();
        let mut level: u64 = first;
        proof {
            lemma_levels(first, now_ms);
            assert(levels@ =~= level_times(first, 0));
        }
        while level <= now_ms
            invariant
                now_ms <= LAST_SHOT_MS + 2 * TICK_MS,
                first <= now_ms + LEVEL_PERIOD_MS,
                level == first + levels@.len() * LEVEL_PERIOD_MS,
                levels@.len() <= levels_due(first, now_ms),
                first <= now_ms ==> (levels_due(first, now_ms) - 1) * LEVEL_PERIOD_MS <= now_ms
                    - first < levels_due(first, now_ms) * LEVEL_PERIOD_MS,
                levels@ == level_times(first, levels@.len()),
            decreases now_ms + LEVEL_PERIOD_MS - level,
        {
            levels.push(level);
            assert(levels@ =~= level_times(first, levels@.len()));
            level = level + LEVEL_PERIOD_MS;
        }
        let event_end: usize = find_due_end(
            &self.event_times,
            &self.events,
            self.next_event,
            now_ms,
        );
        let shot_end: usize = find_due_end(&self.shot_times, &self.shots, self.next_shot, now_ms);
        let events = part(&self.events, self.next_event, event_end);
        let shots = part(&self.shots, self.next_shot, shot_end);
        self.next_event = event_end;
        self.next_shot = shot_end;
        self.next_level_ms = level;
        self.now_ms = now_ms + TICK_MS;
        let tick = PlayTick { now_ms, levels, events, shots };
        Some(tick)
    }
}

/// In the order of time nothing is lost and nothing comes too early.
pub proof fn law_order_is_that_of_time(times: &Vec<u64>, order: Vec<usize>, i: int, j: int)
    requires
        call_ensures(time_order, (times,), order),
        0 <= i < j < order@.len(),
    ensures
        order@.len() == times@.len(),
        order@[i] != order@[j],
        times@[order@[i] as int] <= times@[order@[j] as int],
        times@[order@[i] as int] == times@[order@[j] as int] ==> order@[i] < order@[j],
{
    assert(comes_first(times@, order@[i], order@[j]));
}

} // verus!
