//! Scripted previews of the overlay: the messages of a script, and a frame as a picture.
use vstd::prelude::*;

use crate::overlay_ipc::{IpcView, OverlayIpcMessage, OverlayTextProducer};
use crate::protocol::{FloatBits, SessionId};
use crate::text::{chars_of, decimal, join, joined, print_u64, split_words, texts, words};

verus! {

/// How often a microphone level is fed in, in milliseconds.
pub const LEVEL_PERIOD_MS: u64 = 50;

/// The page behind the sheet: red, green, blue.
pub open spec fn backdrop(channel: int) -> u8 {
    if channel == 0 {
        0xdd
    } else if channel == 1 {
        0xdc
    } else {
        0xd8
    }
}

/// A channel of a premultiplied pixel over the page.
pub open spec fn on_page(src: u8, alpha: u8, channel: int) -> u8 {
    let sum = src + (backdrop(channel) * (255 - alpha) + 127) / 255;
    if sum > 255 {
        255
    } else {
        sum as u8
    }
}

/// The pixels of a frame over the page: red, green and blue of each.
pub open spec fn picture(bgra: Seq<u8>) -> Seq<u8>
    decreases bgra.len(),
{
    if bgra.len() < 4 {
        Seq::empty()
    } else {
        let a = bgra[3];
        seq![on_page(bgra[2], a, 0), on_page(bgra[1], a, 1), on_page(bgra[0], a, 2)] + picture(
            bgra.skip(4),
        )
    }
}

/// The first lines of a picture file.
pub open spec fn ppm_header(width: u32, height: u32) -> Seq<char> {
    "P6\n"@ + decimal(width as nat) + " "@ + decimal(height as nat) + "\n255\n"@
}

/// The first lines of a picture file.
pub fn header_text(width: u32, height: u32) -> (r: String)
    ensures
        r@ == ppm_header(width, height),
{
    let mut out = "P6\n".to_owned();
    out.push_str(print_u64(width as u64).as_str());
    out.push_str(" ");
    out.push_str(print_u64(height as u64).as_str());
    out.push_str("\n255\n");
    out
}

fn page_channel(src: u8, alpha: u8, channel: usize) -> (r: u8)
    requires
        channel < 3,
    ensures
        r == on_page(src, alpha, channel as int),
{
    let back: u32 = if channel == 0 {
        0xdd
    } else if channel == 1 {
        0xdc
    } else {
        0xd8
    };
    let inv: u32 = 255 - alpha as u32;
    proof {
        assert(back * inv <= 255 * 255) by (nonlinear_arith)
            requires
                back <= 255,
                inv <= 255,
        ;
    }
    let sum: u32 = src as u32 + (back * inv + 127) / 255;
    if sum > 255 {
        255
    } else {
        sum as u8
    }
}

/// The pixels of a frame over the page: red, green and blue of each. Bytes that make no whole
/// pixel are left out.
pub fn compose_picture(bgra: &Vec<u8>) -> (r: Vec<u8>)
    ensures
        r@ == picture(bgra@),
{
    let mut out: Vec<u8> = Vec::new();
    let total: usize = bgra.len();
    let mut at: usize = 0;
    assert(bgra@.skip(0) =~= bgra@);
    assert(out@ + picture(bgra@) =~= picture(bgra@));
    while total - at >= 4
        invariant
            total == bgra@.len(),
            at <= total,
            out@ + picture(bgra@.skip(at as int)) == picture(bgra@),
        decreases total - at,
    {
        let ghost here = bgra@.skip(at as int);
        let ghost before = out@;
        let a: u8 = bgra[at + 3];
        assert(here[0] == bgra@[at as int] && here[1] == bgra@[at + 1] && here[2] == bgra@[at + 2]
            && here[3] == bgra@[at + 3]);
        let red: u8 = page_channel(bgra[at + 2], a, 0);
        let green: u8 = page_channel(bgra[at + 1], a, 1);
        let blue: u8 = page_channel(bgra[at], a, 2);
        out.push(red);
        out.push(green);
        out.push(blue);
        proof {
            assert(here.skip(4) =~= bgra@.skip(at + 4));
            assert(out@ =~= before + seq![red, green, blue]);
            assert(out@ + picture(here.skip(4)) =~= before + (seq![red, green, blue] + picture(
                here.skip(4),
            )));
        }
        at = at + 4;
    }
    assert(out@ + picture(bgra@.skip(at as int)) =~= out@);
    out
}

/// A picture has three bytes for each pixel.
pub proof fn law_picture_size(bgra: Seq<u8>)
    ensures
        picture(bgra).len() == bgra.len() / 4 * 3,
    decreases bgra.len(),
{
    if bgra.len() >= 4 {
        law_picture_size(bgra.skip(4));
    }
}

/// A clear pixel shows the page.
pub proof fn law_clear_pixel_shows_the_page(channel: int)
    ensures
        on_page(0, 0, channel) == backdrop(channel),
{
}

// ---- scripts

/// Messages to the overlay, each with its time.
#[derive(Debug)]
pub struct Script {
    pub session: SessionId,
    pub seq: u64,
    pub events: Vec<(u64, OverlayIpcMessage)>,
}

/// The messages of a script, by what they say.
pub open spec fn told(events: Seq<(u64, OverlayIpcMessage)>) -> Seq<(u64, IpcView)> {
    Seq::new(events.len(), |i: int| (events[i].0, events[i].1.shown()))
}

/// The messages that say a sentence word by word.
pub open spec fn spoken(
    session_id: SessionId,
    seq: u64,
    start_ms: u64,
    gap_ms: u64,
    said: Seq<Seq<char>>,
    n: nat,
) -> Seq<(u64, IpcView)> {
    Seq::new(
        n,
        |i: int|
            (
                (start_ms + i * gap_ms) as u64,
                IpcView::InterimText {
                    session_id,
                    producer: OverlayTextProducer::DaemonSttInterim,
                    seq: (seq + i + 1) as u64,
                    text: joined(said.take(i + 1), " "@),
                },
            ),
    )
}

/// How many characters of an answer come in at once.
pub const PIECE_CHARS: usize = 5;

/// How far apart the pieces of an answer come in, in milliseconds.
pub const PIECE_PERIOD_MS: u64 = 45;

/// How many pieces an answer comes in.
pub open spec fn pieces(answer: Seq<char>) -> nat {
    ((answer.len() + PIECE_CHARS - 1) / PIECE_CHARS as int) as nat
}

/// How much of an answer is there after so many pieces.
pub open spec fn piece_end(answer: Seq<char>, n: nat) -> int {
    if PIECE_CHARS * n > answer.len() {
        answer.len() as int
    } else {
        PIECE_CHARS * n
    }
}

/// The messages that bring an answer piece by piece.
pub open spec fn streamed(
    session_id: SessionId,
    seq: u64,
    start_ms: u64,
    answer: Seq<char>,
    n: nat,
) -> Seq<(u64, IpcView)> {
    Seq::new(
        n,
        |i: int|
            (
                (start_ms + i * PIECE_PERIOD_MS) as u64,
                IpcView::InterimText {
                    session_id,
                    producer: OverlayTextProducer::LlmAnswerDelta,
                    seq: (seq + i + 1) as u64,
                    text: answer.take(piece_end(answer, (i + 1) as nat)),
                },
            ),
    )
}

impl Script {
    /// A script of one session.
    pub fn new(session: SessionId) -> (r: Script)
        ensures
            r.session == session,
            r.seq == 0,
            r.events@.len() == 0,
    {
        Script { session, seq: 0, events: Vec::new() }
    }

    fn add(&mut self, at_ms: u64, message: OverlayIpcMessage)
        ensures
            told(final(self).events@) == told(old(self).events@).push((at_ms, message.shown())),
            final(self).session == old(self).session,
            final(self).seq == old(self).seq,
    {
        self.events.push((at_ms, message));
        assert(told(self.events@) =~= told(old(self).events@).push((at_ms, message.shown())));
    }

    /// A state.
    pub fn state(&mut self, at_ms: u64, producer: OverlayTextProducer, state: &str)
        requires
            old(self).seq < u64::MAX,
        ensures
            final(self).session == old(self).session,
            final(self).seq == old(self).seq + 1,
            told(final(self).events@) == told(old(self).events@).push(
                (
                    at_ms,
                    IpcView::InterimState {
                        session_id: old(self).session,
                        producer,
                        seq: final(self).seq,
                        state: state@,
                    },
                ),
            ),
    {
        self.seq = self.seq + 1;
        let message = OverlayIpcMessage::InterimState {
            session_id: self.session,
            producer,
            seq: self.seq,
            state: state.to_owned(),
        };
        self.add(at_ms, message);
    }

    /// A text.
    pub fn text(&mut self, at_ms: u64, producer: OverlayTextProducer, text: &str)
        requires
            old(self).seq < u64::MAX,
        ensures
            final(self).session == old(self).session,
            final(self).seq == old(self).seq + 1,
            told(final(self).events@) == told(old(self).events@).push(
                (
                    at_ms,
                    IpcView::InterimText {
                        session_id: old(self).session,
                        producer,
                        seq: final(self).seq,
                        text: text@,
                    },
                ),
            ),
    {
        self.seq = self.seq + 1;
        let message = OverlayIpcMessage::InterimText {
            session_id: self.session,
            producer,
            seq: self.seq,
            text: text.to_owned(),
        };
        self.add(at_ms, message);
    }

    /// A sentence, word by word, so many milliseconds apart. Gives the time after the last word.
    pub fn words(&mut self, start_ms: u64, gap_ms: u64, sentence: &str) -> (r: u64)
        requires
            start_ms + words(sentence@).len() * gap_ms <= u64::MAX,
            old(self).seq + words(sentence@).len() <= u64::MAX,
        ensures
            r == start_ms + words(sentence@).len() * gap_ms,
            final(self).session == old(self).session,
            final(self).seq == old(self).seq + words(sentence@).len(),
            told(final(self).events@) == told(old(self).events@) + spoken(
                old(self).session,
                old(self).seq,
                start_ms,
                gap_ms,
                words(sentence@),
                words(sentence@).len(),
            ),
    {
        let all = split_words(sentence);
        let total: usize = all.len();
        let mut at_ms: u64 = start_ms;
        let mut said: Vec<String> = Vec::new();
        let mut n: usize = 0;
        let ghost first = told(self.events@);
        let ghost w = words(sentence@);
        assert(texts(said@) =~= w.take(0));
        assert(first + spoken(self.session, self.seq, start_ms, gap_ms, w, 0) =~= first);
        while n < total
            invariant
                n <= total,
                total == all@.len(),
                w == texts(all@),
                w == words(sentence@),
                w.len() == total,
                start_ms + w.len() * gap_ms <= u64::MAX,
                old(self).seq + w.len() <= u64::MAX,
                at_ms == start_ms + n * gap_ms,
                texts(said@) == w.take(n as int),
                self.session == old(self).session,
                self.seq == old(self).seq + n,
                first == told(old(self).events@),
                told(self.events@) == first + spoken(
                    old(self).session,
                    old(self).seq,
                    start_ms,
                    gap_ms,
                    w,
                    n as nat,
                ),
            decreases total - n,
        {
            let ghost before = told(self.events@);
            let ghost said_before = texts(said@);
            said.push(all[n].as_str().to_owned());
            proof {
                assert(w[n as int] == all@[n as int]@);
                assert(texts(said@) =~= said_before.push(w[n as int]));
                assert(texts(said@) =~= w.take(n + 1));
            }
            let sentence_so_far = join(&said, " ");
            self.text(at_ms, OverlayTextProducer::DaemonSttInterim, sentence_so_far.as_str());
            proof {
                let s0 = spoken(old(self).session, old(self).seq, start_ms, gap_ms, w, n as nat);
                let s1 = spoken(
                    old(self).session,
                    old(self).seq,
                    start_ms,
                    gap_ms,
                    w,
                    (n + 1) as nat,
                );
                assert(s1 =~= s0.push(s1[n as int]));
                assert(told(self.events@) =~= first + s1);
                assert((n + 1) * gap_ms <= w.len() * gap_ms) by (nonlinear_arith)
                    requires
                        n + 1 <= w.len(),
                        gap_ms >= 0,
                ;
                assert((n + 1) * gap_ms == n * gap_ms + gap_ms) by (nonlinear_arith);
            }
            at_ms = at_ms + gap_ms;
            n = n + 1;
        }
        at_ms
    }

    /// An answer as it comes in, a few characters more each time. Gives the time after the last
    /// piece.
    pub fn answer(&mut self, start_ms: u64, answer: &str) -> (r: u64)
        requires
            start_ms + pieces(answer@) * PIECE_PERIOD_MS <= u64::MAX,
            old(self).seq + pieces(answer@) <= u64::MAX,
        ensures
            r == start_ms + pieces(answer@) * PIECE_PERIOD_MS,
            final(self).session == old(self).session,
            final(self).seq == old(self).seq + pieces(answer@),
            told(final(self).events@) == told(old(self).events@) + streamed(
                old(self).session,
                old(self).seq,
                start_ms,
                answer@,
                pieces(answer@),
            ),
    {
        let chars = chars_of(answer);
        let total: usize = chars.len();
        let mut at_ms: u64 = start_ms;
        let mut shown = "".to_owned();
        let mut at: usize = 0;
        let ghost mut n: nat = 0;
        let ghost first = told(self.events@);
        proof {
            reveal_strlit("");
            assert(shown@ =~= answer@.take(0));
            assert(first + streamed(self.session, self.seq, start_ms, answer@, 0) =~= first);
        }
        while at < total
            invariant
                at <= total,
                total == chars@.len(),
                chars@ == answer@,
                at == piece_end(answer@, n),
                at < total ==> at == PIECE_CHARS * n,
                n <= pieces(answer@),
                at < total ==> n < pieces(answer@),
                at == total ==> n == pieces(answer@),
                start_ms + pieces(answer@) * PIECE_PERIOD_MS <= u64::MAX,
                old(self).seq + pieces(answer@) <= u64::MAX,
                at_ms == start_ms + n * PIECE_PERIOD_MS,
                shown@ == answer@.take(at as int),
                self.session == old(self).session,
                self.seq == old(self).seq + n,
                first == told(old(self).events@),
                told(self.events@) == first + streamed(
                    old(self).session,
                    old(self).seq,
                    start_ms,
                    answer@,
                    n,
                ),
            decreases total - at,
        {
            let end: usize = if total - at > PIECE_CHARS {
                at + PIECE_CHARS
            } else {
                total
            };
            while at < end
                invariant
                    at <= end <= total,
                    total == chars@.len(),
                    chars@ == answer@,
                    shown@ == answer@.take(at as int),
                decreases end - at,
            {
                shown.push(chars[at]);
                assert(answer@.take(at + 1) =~= answer@.take(at as int).push(answer@[at as int]));
                at = at + 1;
            }
            self.text(at_ms, OverlayTextProducer::LlmAnswerDelta, shown.as_str());
            proof {
                let s0 = streamed(old(self).session, old(self).seq, start_ms, answer@, n);
                let s1 = streamed(old(self).session, old(self).seq, start_ms, answer@, n + 1);
                assert(s1 =~= s0.push(s1[n as int]));
                assert(told(self.events@) =~= first + s1);
                n = n + 1;
            }
            at_ms = at_ms + PIECE_PERIOD_MS;
        }
        at_ms
    }

    /// The end of the session.
    pub fn ended(&mut self, at_ms: u64, reason: &str)
        ensures
            final(self).session == old(self).session,
            final(self).seq == old(self).seq,
            told(final(self).events@) == told(old(self).events@).push(
                (
                    at_ms,
                    IpcView::SessionEnded { session_id: old(self).session, reason: Some(reason@) },
                ),
            ),
    {
        let message = OverlayIpcMessage::SessionEnded {
            session_id: self.session,
            reason: Some(reason.to_owned()),
        };
        self.add(at_ms, message);
    }

    /// The end of the injection.
    pub fn injected(&mut self, at_ms: u64, success: bool)
        ensures
            final(self).session == old(self).session,
            final(self).seq == old(self).seq,
            told(final(self).events@) == told(old(self).events@).push(
                (
                    at_ms,
                    IpcView::InjectionComplete { session_id: old(self).session, success },
                ),
            ),
    {
        let message = OverlayIpcMessage::InjectionComplete { session_id: self.session, success };
        self.add(at_ms, message);
    }

    /// A warning that the session reaches its limit.
    pub fn warning(&mut self, at_ms: u64, remaining_seconds: FloatBits, limit_seconds: FloatBits)
        ensures
            final(self).session == old(self).session,
            final(self).seq == old(self).seq,
            told(final(self).events@) == told(old(self).events@).push(
                (
                    at_ms,
                    IpcView::SessionWarning {
                        session_id: old(self).session,
                        remaining_seconds: Some(remaining_seconds),
                        limit_seconds: Some(limit_seconds),
                    },
                ),
            ),
    {
        let message = OverlayIpcMessage::SessionWarning {
            session_id: self.session,
            remaining_seconds: Some(remaining_seconds),
            limit_seconds: Some(limit_seconds),
        };
        self.add(at_ms, message);
    }

    /// A notice for no session that an answer is being generated, and its end.
    pub fn busy(&mut self, at_ms: u64, until_ms: u64)
        ensures
            final(self).session == old(self).session,
            final(self).seq == old(self).seq,
            told(final(self).events@) == told(old(self).events@).push(
                (
                    at_ms,
                    IpcView::InterimState {
                        session_id: SessionId::nil_id(),
                        producer: OverlayTextProducer::LlmAnswerDelta,
                        seq: 1,
                        state: crate::app::LLM_BUSY_STATE@,
                    },
                ),
            ).push(
                (
                    until_ms,
                    IpcView::SessionEnded {
                        session_id: SessionId::nil_id(),
                        reason: Some("busy"@),
                    },
                ),
            ),
    {
        let notice = OverlayIpcMessage::InterimState {
            session_id: SessionId::nil(),
            producer: OverlayTextProducer::LlmAnswerDelta,
            seq: 1,
            state: crate::app::LLM_BUSY_STATE.to_owned(),
        };
        self.add(at_ms, notice);
        let end = OverlayIpcMessage::SessionEnded {
            session_id: SessionId::nil(),
            reason: Some("busy".to_owned()),
        };
        self.add(until_ms, end);
    }
}

/// A picture has three bytes for each pixel of four; an opaque pixel shows its own colour, red
/// first.
pub proof fn law_picture_shows_the_pixels(bgra: Seq<u8>, i: int)
    requires
        bgra.len() % 4 == 0,
        0 <= i < bgra.len() / 4,
    ensures
        picture(bgra).len() == bgra.len() / 4 * 3,
        bgra[4 * i + 3] == 255 ==> {
            &&& picture(bgra)[3 * i] == bgra[4 * i + 2]
            &&& picture(bgra)[3 * i + 1] == bgra[4 * i + 1]
            &&& picture(bgra)[3 * i + 2] == bgra[4 * i]
        },
    decreases bgra.len(),
{
    let rest = bgra.skip(4);
    if bgra.len() > 4 {
        law_picture_shows_the_pixels(rest, if i > 0 { i - 1 } else { 0 });
    } else {
        assert(rest.len() == 0);
        assert(picture(rest).len() == 0);
    }
}

} // verus!
