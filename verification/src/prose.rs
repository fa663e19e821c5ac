//! The overlay's prose: which characters are drafts, when they arrive and when they are set.
//!
//! Interim texts arrive in bursts. The characters of a burst are a draft until the next burst
//! arrives; then they are set. What two texts in a row have in common is kept as it is, so that
//! nothing that is set moves again, and leading words make room when the text outgrows its lines.
use vstd::prelude::*;

use crate::fonts::Face;
use crate::injector_runtime::later;
use crate::text::chars_of;

verus! {

/// How much later each character of a burst arrives than the one before, in milliseconds.
pub const ARRIVE_STAGGER_MS: u64 = 16;

/// How much later the last character of a burst arrives at most.
pub const ARRIVE_STAGGER_CAP_MS: u64 = 560;

/// How much later each character is set than the one before.
pub const SET_STAGGER_MS: u64 = 10;

/// How much later the last character is set at most.
pub const SET_STAGGER_CAP_MS: u64 = 420;

/// How long into its setting a character changes from italic to roman.
pub const SET_FACE_SWITCH_MS: u64 = 92;

/// A character of the prose.
#[derive(Debug, Clone, Copy, PartialEq, Eq)]
pub struct ProseGlyph {
    pub ch: char,
    pub draft: bool,
    pub arrive_at: u64,
    pub set_at: Option<u64>,
}

/// The prose on the sheet.
#[derive(Debug)]
pub struct Prose {
    glyphs: Vec<ProseGlyph>,
    dropped: usize,
    prev_text: Vec<char>,
    roman_only: bool,
}

/// The prose on the sheet, mathematically.
#[verifier::ext_equal]
pub struct ProseModel {
    pub glyphs: Seq<ProseGlyph>,
    /// How many characters of the text were dropped from its front.
    pub dropped: int,
    pub text: Seq<char>,
    pub roman_only: bool,
}

/// Whether the characters on the sheet are those of the text, but for the dropped ones.
pub open spec fn prose_sound(m: ProseModel) -> bool {
    &&& 0 <= m.dropped
    &&& m.dropped + m.glyphs.len() == m.text.len()
    &&& forall|i: int|
        0 <= i < m.glyphs.len() ==> (#[trigger] m.glyphs[i]).ch == m.text[m.dropped + i]
}

/// How many characters two texts have in common at their front.
pub open spec fn common_front(a: Seq<char>, b: Seq<char>) -> int
    decreases a.len(),
{
    if a.len() == 0 || b.len() == 0 || a[0] != b[0] {
        0
    } else {
        1 + common_front(a.skip(1), b.skip(1))
    }
}

/// A delay that grows with a place, up to a limit.
pub open spec fn staggered(place: int, step: u64, cap: u64) -> u64 {
    if place * step < cap {
        (place * step) as u64
    } else {
        cap
    }
}

/// The character at a place of a burst.
pub open spec fn arriving(ch: char, place: int, roman_only: bool, now_ms: u64) -> ProseGlyph {
    ProseGlyph {
        ch,
        draft: !roman_only,
        arrive_at: later(now_ms, staggered(place, ARRIVE_STAGGER_MS, ARRIVE_STAGGER_CAP_MS)),
        set_at: None,
    }
}

/// A burst of characters.
pub open spec fn burst(chars: Seq<char>, roman_only: bool, now_ms: u64) -> Seq<ProseGlyph> {
    Seq::new(chars.len(), |i: int| arriving(chars[i], i, roman_only, now_ms))
}

/// Whether a character is set visibly: a draft that is no space.
pub open spec fn sets(g: ProseGlyph) -> bool {
    g.draft && g.ch != ' '
}

/// The first of the characters from a place on that is set visibly.
pub open spec fn first_to_set(glyphs: Seq<ProseGlyph>, from: int, end: int) -> int
    decreases end - from,
{
    if from >= end || from >= glyphs.len() {
        end
    } else if sets(glyphs[from]) {
        from
    } else {
        first_to_set(glyphs, from + 1, end)
    }
}

/// The characters once the first of them were set, one after the other.
pub open spec fn committed(glyphs: Seq<ProseGlyph>, end: int, now_ms: u64) -> Seq<ProseGlyph> {
    let first = first_to_set(glyphs, 0, end);
    Seq::new(
        glyphs.len(),
        |i: int|
            if i >= end {
                glyphs[i]
            } else if sets(glyphs[i]) {
                ProseGlyph {
                    draft: false,
                    set_at: Some(
                        later(now_ms, staggered(i - first, SET_STAGGER_MS, SET_STAGGER_CAP_MS)),
                    ),
                    ..glyphs[i]
                }
            } else {
                ProseGlyph { draft: false, ..glyphs[i] }
            },
    )
}

/// Empty prose.
pub open spec fn no_prose(roman_only: bool) -> ProseModel {
    ProseModel { glyphs: Seq::empty(), dropped: 0, text: Seq::empty(), roman_only }
}

/// The prose with another text: what both have in common stays, the rest arrives, and what
/// stays is set if anything arrives.
pub open spec fn prose_updated(m: ProseModel, text: Seq<char>, now_ms: u64) -> ProseModel {
    if text == m.text {
        m
    } else {
        let common = common_front(text, m.text);
        let base = if common < m.dropped {
            no_prose(m.roman_only)
        } else {
            m
        };
        let front = if common < m.dropped {
            0
        } else {
            common
        };
        let kept = base.glyphs.take(front - base.dropped);
        let arrived = kept + burst(text.skip(front), m.roman_only, now_ms);
        ProseModel {
            glyphs: if text.len() > front {
                committed(arrived, front - base.dropped, now_ms)
            } else {
                arrived
            },
            dropped: base.dropped,
            text,
            roman_only: m.roman_only,
        }
    }
}

proof fn lemma_common_front(a: Seq<char>, b: Seq<char>)
    ensures
        0 <= common_front(a, b) <= a.len(),
        common_front(a, b) <= b.len(),
        forall|i: int| 0 <= i < common_front(a, b) ==> a[i] == b[i],
        common_front(a, b) < a.len() && common_front(a, b) < b.len() ==> a[common_front(a, b)]
            != b[common_front(a, b)],
    decreases a.len(),
{
    if a.len() > 0 && b.len() > 0 && a[0] == b[0] {
        lemma_common_front(a.skip(1), b.skip(1));
        let n = common_front(a, b);
        assert forall|i: int| 0 <= i < n implies a[i] == b[i] by {
            if i > 0 {
                assert(a.skip(1)[i - 1] == b.skip(1)[i - 1]);
            }
        }
    }
}

proof fn lemma_common_front_is(a: Seq<char>, b: Seq<char>, n: int)
    requires
        0 <= n <= a.len(),
        n <= b.len(),
        forall|i: int| 0 <= i < n ==> a[i] == b[i],
        n < a.len() && n < b.len() ==> a[n] != b[n],
    ensures
        common_front(a, b) == n,
    decreases a.len(),
{
    if n > 0 {
        assert forall|i: int| 0 <= i < n - 1 implies a.skip(1)[i] == b.skip(1)[i] by {
            assert(a[i + 1] == b[i + 1]);
        }
        lemma_common_front_is(a.skip(1), b.skip(1), n - 1);
    }
}

/// Whatever text arrives, the characters on the sheet stay those of the text.
pub proof fn law_prose_stays_sound(m: ProseModel, text: Seq<char>, now_ms: u64)
    requires
        prose_sound(m),
    ensures
        prose_sound(prose_updated(m, text, now_ms)),
        prose_updated(m, text, now_ms).text == text,
{
    if text != m.text {
        lemma_common_front(text, m.text);
        let n = prose_updated(m, text, now_ms);
        let common = common_front(text, m.text);
        assert forall|i: int| 0 <= i < n.glyphs.len() implies (#[trigger] n.glyphs[i]).ch
            == n.text[n.dropped + i] by {
            if common >= m.dropped && i < common - m.dropped {
                assert(m.glyphs[i].ch == m.text[m.dropped + i]);
            }
        }
    }
}

/// The same text again changes nothing, so what is set stays set.
pub proof fn law_unchanged_text_changes_nothing(m: ProseModel, now_ms: u64)
    ensures
        prose_updated(m, m.text, now_ms) == m,
{
}

/// After everything was set no character is a draft.
pub proof fn law_set_prose_has_no_drafts(glyphs: Seq<ProseGlyph>, now_ms: u64)
    ensures
        forall|i: int|
            0 <= i < glyphs.len() ==> !(#[trigger] committed(
                glyphs,
                glyphs.len() as int,
                now_ms,
            )[i]).draft,
{
}

/// A text that only grows leaves what was on the sheet there: no character of it arrives again.
pub proof fn law_growing_text_keeps_its_front(
    m: ProseModel,
    more: Seq<char>,
    now_ms: u64,
    i: int,
)
    requires
        prose_sound(m),
        0 <= i < m.glyphs.len(),
    ensures
        ({
            let n = prose_updated(m, m.text + more, now_ms);
            &&& n.dropped == m.dropped
            &&& n.glyphs.len() == m.glyphs.len() + more.len()
            &&& n.glyphs[i].ch == m.glyphs[i].ch
            &&& n.glyphs[i].arrive_at == m.glyphs[i].arrive_at
        }),
{
    let text = m.text + more;
    if more.len() == 0 {
        assert(text =~= m.text);
    } else {
        assert(text.len() != m.text.len());
        lemma_common_front_is(text, m.text, m.text.len() as int);
    }
}

impl Prose {
    /// The prose, mathematically.
    pub closed spec fn model(self) -> ProseModel {
        ProseModel {
            glyphs: self.glyphs@,
            dropped: self.dropped as int,
            text: self.prev_text@,
            roman_only: self.roman_only,
        }
    }

    /// No prose.
    pub fn new() -> (r: Prose)
        ensures
            r.model() == no_prose(false),
            prose_sound(r.model()),
    {
        let r = Prose {
            glyphs: Vec::new(),
            dropped: 0,
            prev_text: Vec::new(),
            roman_only: false,
        };
        assert(r.model() =~= no_prose(false));
        r
    }

    /// Removes all prose.
    pub fn reset(&mut self)
        ensures
            final(self).model() == no_prose(old(self).model().roman_only),
            prose_sound(final(self).model()),
    {
        self.glyphs.clear();
        self.dropped = 0;
        self.prev_text.clear();
        assert(self.model() =~= no_prose(old(self).model().roman_only));
    }

    /// Prose that is roman from the start has no drafts; a change starts anew.
    pub fn set_roman_only(&mut self, roman_only: bool)
        ensures
            final(self).model() == if old(self).model().roman_only != roman_only {
                no_prose(roman_only)
            } else {
                old(self).model()
            },
            prose_sound(old(self).model()) ==> prose_sound(final(self).model()),
    {
        if self.roman_only != roman_only {
            self.roman_only = roman_only;
            self.reset();
        }
    }

    /// Whether there is no prose.
    pub fn is_empty(&self) -> (r: bool)
        ensures
            r == (self.model().glyphs.len() == 0),
    {
        self.glyphs.len() == 0
    }

    /// How many characters are on the sheet.
    pub fn len(&self) -> (r: usize)
        ensures
            r == self.model().glyphs.len(),
    {
        self.glyphs.len()
    }

    /// A character on the sheet.
    pub fn glyph(&self, index: usize) -> (r: ProseGlyph)
        requires
            index < self.model().glyphs.len(),
        ensures
            r == self.model().glyphs[index as int],
    {
        self.glyphs[index]
    }

    /// How many characters were dropped from the front of the text.
    pub fn dropped(&self) -> (r: usize)
        ensures
            r == self.model().dropped,
    {
        self.dropped
    }

    /// Whether the prose is roman from the start.
    pub fn is_roman_only(&self) -> (r: bool)
        ensures
            r == self.model().roman_only,
    {
        self.roman_only
    }

    /// Takes the whole text as it is now. Tells whether it changed.
    pub fn update(&mut self, text: &str, now_ms: u64) -> (r: bool)
        requires
            prose_sound(old(self).model()),
        ensures
            r == (text@ != old(self).model().text),
            final(self).model() == prose_updated(old(self).model(), text@, now_ms),
            prose_sound(final(self).model()),
    {
        let chars = chars_of(text);
        proof {
            law_prose_stays_sound(self.model(), text@, now_ms);
        }
        let mut common: usize = 0;
        while common < chars.len() && common < self.prev_text.len() && chars[common]
            == self.prev_text[common]
            invariant
                common <= chars@.len(),
                common <= self.prev_text@.len(),
                forall|i: int| 0 <= i < common ==> chars@[i] == self.prev_text@[i],
            ensures
                common <= chars@.len(),
                common <= self.prev_text@.len(),
                forall|i: int| 0 <= i < common ==> chars@[i] == self.prev_text@[i],
                common < chars@.len() && common < self.prev_text@.len() ==> chars@[common as int]
                    != self.prev_text@[common as int],
            decreases chars@.len() - common,
        {
            common = common + 1;
        }
        if common == chars.len() && common == self.prev_text.len() {
            assert(chars@ =~= self.prev_text@);
            return false;
        }
        proof {
            lemma_common_front_is(chars@, self.prev_text@, common as int);
            if text@ == old(self).model().text {
                lemma_common_front_is(chars@, self.prev_text@, chars@.len() as int);
            }
        }
        let ghost m = self.model();
        let mut front: usize = common;
        if common < self.dropped {
            self.reset();
            front = 0;
        } else {
            self.glyphs.truncate(common - self.dropped);
        }
        let ghost base = if common < m.dropped {
            no_prose(m.roman_only)
        } else {
            m
        };
        let kept: usize = front - self.dropped;
        let ghost kept_glyphs = base.glyphs.take(kept as int);
        assert(self.glyphs@ =~= kept_glyphs);
        let ghost tail = chars@.skip(front as int);
        let ghost rest = burst(tail, m.roman_only, now_ms);
        let mut at: usize = front;
        assert(self.glyphs@ =~= kept_glyphs + rest.take(0));
        while at < chars.len()
            invariant
                chars@ == text@,
                front <= at <= chars@.len(),
                tail == chars@.skip(front as int),
                rest == burst(tail, m.roman_only, now_ms),
                self.roman_only == m.roman_only,
                self.dropped == base.dropped,
                self.glyphs@ == kept_glyphs + rest.take(at - front),
            decreases chars@.len() - at,
        {
            let ch: char = chars[at];
            let place: u64 = (at - front) as u64;
            let delay: u64 = if place < ARRIVE_STAGGER_CAP_MS / ARRIVE_STAGGER_MS {
                place * ARRIVE_STAGGER_MS
            } else {
                ARRIVE_STAGGER_CAP_MS
            };
            self.glyphs.push(
                ProseGlyph {
                    ch,
                    draft: !self.roman_only,
                    arrive_at: now_ms.saturating_add(delay),
                    set_at: None,
                },
            );
            proof {
                assert(tail[at - front] == ch);
                assert(rest[at - front] == arriving(ch, at - front, m.roman_only, now_ms));
                assert(rest.take(at - front + 1) =~= rest.take(at - front).push(rest[at - front]));
                assert(self.glyphs@ =~= kept_glyphs + rest.take(at - front + 1));
            }
            at = at + 1;
        }
        assert(rest.take(at - front) =~= rest);
        if chars.len() > front {
            self.commit_range(kept, now_ms);
        }
        self.prev_text = chars;
        assert(self.model() =~= prose_updated(m, text@, now_ms));
        true
    }

    /// Sets everything that is still a draft.
    pub fn commit_all(&mut self, now_ms: u64)
        ensures
            final(self).model() == (ProseModel {
                glyphs: committed(
                    old(self).model().glyphs,
                    old(self).model().glyphs.len() as int,
                    now_ms,
                ),
                ..old(self).model()
            }),
            prose_sound(old(self).model()) ==> prose_sound(final(self).model()),
    {
        let end: usize = self.glyphs.len();
        self.commit_range(end, now_ms);
        assert(self.model() =~= (ProseModel {
            glyphs: committed(
                old(self).model().glyphs,
                old(self).model().glyphs.len() as int,
                now_ms,
            ),
            ..old(self).model()
        }));
        proof {
            let before = old(self).model();
            let after = self.model();
            if prose_sound(before) {
                assert forall|i: int| 0 <= i < after.glyphs.len() implies (
                #[trigger] after.glyphs[i]).ch == after.text[after.dropped + i] by {
                    assert(before.glyphs[i].ch == before.text[before.dropped + i]);
                }
            }
        }
    }

    /// Sets the first characters, as far as they are drafts.
    fn commit_range(&mut self, end: usize, now_ms: u64)
        requires
            end <= old(self).glyphs@.len(),
        ensures
            final(self).glyphs@ == committed(old(self).glyphs@, end as int, now_ms),
            final(self).dropped == old(self).dropped,
            final(self).prev_text == old(self).prev_text,
            final(self).roman_only == old(self).roman_only,
    {
        let mut first: Option<usize> = None;
        let mut index: usize = 0;
        let ghost start = self.glyphs@;
        let ghost anchor = first_to_set(start, 0, end as int);
        while index < end
            invariant
                index <= end <= start.len(),
                start == old(self).glyphs@,
                self.glyphs@.len() == start.len(),
                self.dropped == old(self).dropped,
                self.prev_text == old(self).prev_text,
                self.roman_only == old(self).roman_only,
                anchor == first_to_set(start, 0, end as int),
                first is None ==> anchor == first_to_set(start, index as int, end as int),
                first is Some ==> first->0 == anchor && anchor < index,
                forall|i: int|
                    0 <= i < index ==> #[trigger] self.glyphs@[i] == committed(
                        start,
                        end as int,
                        now_ms,
                    )[i],
                forall|i: int|
                    index <= i < start.len() ==> #[trigger] self.glyphs@[i] == start[i],
            decreases end - index,
        {
            let mut glyph: ProseGlyph = self.glyphs[index];
            if glyph.draft && glyph.ch != ' ' {
                let from: usize = match first {
                    Some(f) => f,
                    None => index,
                };
                if first.is_none() {
                    first = Some(index);
                }
                let place: u64 = (index - from) as u64;
                let delay: u64 = if place < SET_STAGGER_CAP_MS / SET_STAGGER_MS {
                    place * SET_STAGGER_MS
                } else {
                    SET_STAGGER_CAP_MS
                };
                glyph.set_at = Some(now_ms.saturating_add(delay));
            }
            glyph.draft = false;
            self.glyphs.set(index, glyph);
            index = index + 1;
        }
        assert(self.glyphs@ =~= committed(start, end as int, now_ms));
    }

    /// How many leading characters to drop when the text outgrows its lines. `fits` tells
    /// whether the rest would fit if so many were dropped.
    ///
    /// The fewest that fit are found by halving; where a word would be cut and the text still
    /// goes on after it, the whole word goes if the rest fits without it.
    pub fn clamp_drop<F: Fn(usize) -> bool>(&self, fits: &F) -> (r: usize)
        requires
            forall|n: usize| fits.requires((n,)),
        ensures
            drop_is_right(self.model().glyphs, *fits, r),
    {
        let total: usize = self.glyphs.len();
        if total == 0 {
            return 0;
        }
        let mut lo: usize = 1;
        let mut hi: usize = total;
        while lo < hi
            invariant
                1 <= lo <= hi <= total,
                forall|n: usize| fits.requires((n,)),
                lo == 1 || fits.ensures(((lo - 1) as usize,), false),
                hi == total || fits.ensures((hi,), true),
            decreases hi - lo,
        {
            let mid: usize = lo + (hi - lo) / 2;
            if fits(mid) {
                hi = mid;
            } else {
                lo = mid + 1;
            }
        }
        let drop: usize = hi;
        assert(drop_is_fewest(total as int, *fits, drop));
        if self.glyphs[drop - 1].ch == ' ' {
            return drop;
        }
        let mut at: usize = drop;
        while at < total && self.glyphs[at].ch != ' '
            invariant
                total == self.glyphs@.len(),
                drop <= at <= total,
                word_end(self.glyphs@, drop as int) == word_end(self.glyphs@, at as int),
            ensures
                drop <= at <= total,
                word_end(self.glyphs@, drop as int) == word_end(self.glyphs@, at as int),
                at < total ==> self.glyphs@[at as int].ch == ' ',
            decreases total - at,
        {
            at = at + 1;
        }
        if at < total {
            let end: usize = at + 1;
            if end < total {
                if fits(end) {
                    return end;
                }
            }
        }
        drop
    }

    /// Drops leading characters.
    pub fn drop_leading(&mut self, n: usize)
        requires
            n <= old(self).model().glyphs.len(),
            prose_sound(old(self).model()),
        ensures
            final(self).model() == (ProseModel {
                glyphs: old(self).model().glyphs.skip(n as int),
                dropped: old(self).model().dropped + n,
                ..old(self).model()
            }),
            prose_sound(final(self).model()),
    {
        let total: usize = self.prev_text.len();
        let rest = self.glyphs.split_off(n);
        self.glyphs = rest;
        self.dropped = self.dropped + n;
        proof {
            let before = old(self).model();
            assert(self.model() =~= (ProseModel {
                glyphs: before.glyphs.skip(n as int),
                dropped: before.dropped + n,
                ..before
            }));
            assert forall|i: int| 0 <= i < self.model().glyphs.len() implies (
            #[trigger] self.model().glyphs[i]).ch == self.model().text[self.model().dropped
                + i] by {
                assert(before.glyphs[n + i].ch == before.text[before.dropped + (n + i)]);
            }
        }
    }

    /// The face of a character, and whether it is still drawn in pencil.
    pub fn look(&self, index: usize, now_ms: u64) -> (r: (Face, bool))
        requires
            index < self.model().glyphs.len(),
        ensures
            r == glyph_look(self.model().glyphs[index as int], self.model().roman_only, now_ms),
    {
        let glyph: ProseGlyph = self.glyphs[index];
        match glyph.set_at {
            Some(set_at) => {
                if now_ms < set_at.saturating_add(SET_FACE_SWITCH_MS) {
                    (Face::Italic, true)
                } else {
                    (Face::Roman, false)
                }
            },
            None => {
                if !glyph.draft {
                    (Face::Roman, false)
                } else if self.roman_only {
                    (Face::Roman, true)
                } else {
                    (Face::Italic, true)
                }
            },
        }
    }

    /// The column without so many leading characters.
    pub fn column(&self, skip: usize, now_ms: u64) -> (r: Vec<SetGlyph>)
        ensures
            r@ == column_of(self.model(), skip as int, now_ms),
    {
        let total: usize = self.glyphs.len();
        let from: usize = if skip < total {
            skip
        } else {
            total
        };
        let mut out: Vec<SetGlyph> = Vec::new();
        if self.dropped > 0 || skip > 0 {
            out.push(SetGlyph { ch: '\u{2026}', face: Face::Roman, pencil: true, source: None });
            out.push(SetGlyph { ch: ' ', face: Face::Roman, pencil: true, source: None });
        }
        let ghost dots = out@;
        assert(dots =~= if self.model().dropped + skip > 0 {
            leading_dots()
        } else {
            Seq::empty()
        });
        let mut index: usize = from;
        assert(out@ =~= dots + Seq::new(0, |i: int| set_glyph(self.model(), from + i, now_ms)));
        while index < total
            invariant
                from <= index <= total,
                total == self.glyphs@.len(),
                total == self.model().glyphs.len(),
                out@ == dots + Seq::new(
                    (index - from) as nat,
                    |i: int| set_glyph(self.model(), from + i, now_ms),
                ),
            decreases total - index,
        {
            let (face, pencil) = self.look(index, now_ms);
            let ch: char = if self.glyphs[index].ch == '\n' {
                ' '
            } else {
                self.glyphs[index].ch
            };
            let ghost before = out@;
            let glyph = SetGlyph { ch, face, pencil, source: Some(index) };
            out.push(glyph);
            assert(glyph == set_glyph(self.model(), index as int, now_ms));
            assert(out@ =~= dots + Seq::new(
                (index + 1 - from) as nat,
                |i: int| set_glyph(self.model(), from + i, now_ms),
            ));
            index = index + 1;
        }
        out
    }
}

/// A character as it stands in the column.
#[derive(Debug, Clone, Copy, PartialEq, Eq)]
pub struct SetGlyph {
    pub ch: char,
    pub face: Face,
    pub pencil: bool,
    /// Which character of the prose it is; none for the dots in front.
    pub source: Option<usize>,
}

/// The characters that stand in for what was dropped: dots and a space.
pub open spec fn leading_dots() -> Seq<SetGlyph> {
    seq![
        SetGlyph { ch: '\u{2026}', face: Face::Roman, pencil: true, source: None },
        SetGlyph { ch: ' ', face: Face::Roman, pencil: true, source: None },
    ]
}

/// A character of the prose as it stands in the column; a line break is a space.
pub open spec fn set_glyph(p: ProseModel, index: int, now_ms: u64) -> SetGlyph {
    let (face, pencil) = glyph_look(p.glyphs[index], p.roman_only, now_ms);
    SetGlyph {
        ch: if p.glyphs[index].ch == '\n' {
            ' '
        } else {
            p.glyphs[index].ch
        },
        face,
        pencil,
        source: Some(index as usize),
    }
}

/// The column without so many leading characters: dots in front if any are missing, then the
/// rest.
pub open spec fn column_of(p: ProseModel, skip: int, now_ms: u64) -> Seq<SetGlyph> {
    let from = if skip < p.glyphs.len() {
        skip
    } else {
        p.glyphs.len() as int
    };
    let dots = if p.dropped + skip > 0 {
        leading_dots()
    } else {
        Seq::empty()
    };
    dots + Seq::new(
        (p.glyphs.len() - from) as nat,
        |i: int| set_glyph(p, from + i, now_ms),
    )
}

/// However much is dropped, what is set is the end of the text.
pub proof fn law_column_ends_with_the_newest(p: ProseModel, skip: int, now_ms: u64)
    requires
        0 <= skip < p.glyphs.len(),
    ensures
        column_of(p, skip, now_ms).last() == set_glyph(p, p.glyphs.len() - 1, now_ms),
{
}

/// The face of a character, and whether it is still drawn in pencil.
pub open spec fn glyph_look(g: ProseGlyph, roman_only: bool, now_ms: u64) -> (Face, bool) {
    match g.set_at {
        Some(set_at) => if now_ms < later(set_at, SET_FACE_SWITCH_MS) {
            (Face::Italic, true)
        } else {
            (Face::Roman, false)
        },
        None => if !g.draft {
            (Face::Roman, false)
        } else if roman_only {
            (Face::Roman, true)
        } else {
            (Face::Italic, true)
        },
    }
}

/// Where the next word begins: behind the first space at or after a place, or nowhere.
pub open spec fn word_end(glyphs: Seq<ProseGlyph>, from: int) -> Option<int>
    decreases glyphs.len() - from,
{
    if from < 0 || from >= glyphs.len() {
        None
    } else if glyphs[from].ch == ' ' {
        Some(from + 1)
    } else {
        word_end(glyphs, from + 1)
    }
}

/// Whether dropping so many fits, or is all there is to drop, while one fewer does not fit.
pub open spec fn drop_is_fewest<F: Fn(usize) -> bool>(total: int, fits: F, n: usize) -> bool {
    &&& 1 <= n <= total
    &&& n == total || fits.ensures((n,), true)
    &&& n == 1 || fits.ensures(((n - 1) as usize,), false)
}

/// Whether so many leading characters are the right ones to drop.
pub open spec fn drop_is_right<F: Fn(usize) -> bool>(
    glyphs: Seq<ProseGlyph>,
    fits: F,
    r: usize,
) -> bool {
    if glyphs.len() == 0 {
        r == 0
    } else {
        exists|n: usize| #[trigger]
            drop_is_fewest(glyphs.len() as int, fits, n) && {
                let end = word_end(glyphs, n as int);
                if glyphs[n - 1].ch != ' ' && end is Some && end->0 < glyphs.len() {
                    (r == end->0 && fits.ensures((r,), true)) || (r == n && fits.ensures(
                        ((end->0) as usize,),
                        false,
                    ))
                } else {
                    r == n
                }
            }
    }
}

/// Whatever the text, it is what the prose holds afterwards: no character is lost or invented, but
/// for those that were dropped from its front.
pub proof fn law_prose_holds_the_text(m: ProseModel, text: Seq<char>, now_ms: u64, i: int)
    requires
        prose_sound(m),
        m.dropped == 0,
        0 <= i < text.len(),
    ensures
        ({
            let n = prose_updated(m, text, now_ms);
            &&& n.text == text
            &&& n.dropped == 0
            &&& n.glyphs.len() == text.len()
            &&& n.glyphs[i].ch == text[i]
            &&& n.roman_only == m.roman_only
        }),
{
    law_prose_stays_sound(m, text, now_ms);
    let n = prose_updated(m, text, now_ms);
    lemma_common_front(text, m.text);
    assert(n.glyphs[i].ch == n.text[n.dropped + i]);
}

/// Characters that are new on the sheet are drafts unless the prose is roman, and arrive one
/// after the other, sixteen milliseconds apart at first and not before they came.
pub proof fn law_new_characters_arrive_in_order(
    chars: Seq<char>,
    roman_only: bool,
    now_ms: u64,
    i: int,
    j: int,
)
    requires
        0 <= i <= j < chars.len(),
        now_ms <= u64::MAX - 1000,
    ensures
        ({
            let b = burst(chars, roman_only, now_ms);
            &&& b.len() == chars.len()
            &&& b[i].ch == chars[i]
            &&& b[i].draft == !roman_only
            &&& b[i].set_at is None
            &&& now_ms <= b[i].arrive_at <= b[j].arrive_at <= now_ms + 560
            &&& i <= 34 ==> b[i].arrive_at == now_ms + 16 * i
        }),
{
    assert(i * 16 <= j * 16) by (nonlinear_arith)
        requires
            i <= j,
    ;
}

/// Setting keeps the characters and when they arrived; drafts are set one after the other, not
/// before the moment, and spaces and what was set before are not set again.
pub proof fn law_setting_keeps_the_characters(
    glyphs: Seq<ProseGlyph>,
    end: int,
    now_ms: u64,
    i: int,
)
    requires
        0 <= i < glyphs.len(),
        now_ms <= u64::MAX - 1000,
    ensures
        ({
            let c = committed(glyphs, end, now_ms);
            &&& c.len() == glyphs.len()
            &&& c[i].ch == glyphs[i].ch
            &&& c[i].arrive_at == glyphs[i].arrive_at
            &&& i >= end ==> c[i] == glyphs[i]
            &&& i < end ==> !c[i].draft
            &&& i < end && glyphs[i].draft && glyphs[i].ch != ' ' ==> c[i].set_at is Some && now_ms
                <= c[i].set_at->0 <= now_ms + 420
            &&& !(glyphs[i].draft && glyphs[i].ch != ' ') ==> c[i].set_at == glyphs[i].set_at
        }),
{
    if i < end && sets(glyphs[i]) {
        lemma_first_to_set(glyphs, 0, end, i);
        let first = first_to_set(glyphs, 0, end);
        assert((i - first) * 10 >= 0) by (nonlinear_arith)
            requires
                i >= first,
        ;
    }
}

proof fn lemma_first_to_set(glyphs: Seq<ProseGlyph>, from: int, end: int, i: int)
    requires
        0 <= from <= i < end,
        i < glyphs.len(),
        sets(glyphs[i]),
    ensures
        from <= first_to_set(glyphs, from, end) <= i,
    decreases end - from,
{
    if !sets(glyphs[from]) {
        lemma_first_to_set(glyphs, from + 1, end, i);
    }
}

/// A character that was set is shown in pencil until it has settled, and for good in ink after;
/// one that is a draft stays in pencil, and in the roman face where only that is used.
pub proof fn law_characters_settle(g: ProseGlyph, roman_only: bool, now_ms: u64, later_ms: u64)
    requires
        now_ms <= later_ms,
    ensures
        g.set_at is Some && !glyph_look(g, roman_only, now_ms).1 ==> !glyph_look(
            g,
            roman_only,
            later_ms,
        ).1,
        g.set_at matches Some(at) ==> (glyph_look(g, roman_only, now_ms).1 <==> now_ms < at + 92
            && now_ms < u64::MAX),
        g.set_at is None ==> (glyph_look(g, roman_only, now_ms).1 <==> g.draft),
        g.set_at is None && roman_only ==> glyph_look(g, roman_only, now_ms).0 == Face::Roman,
        !glyph_look(g, roman_only, now_ms).1 ==> glyph_look(g, roman_only, now_ms).0
            == Face::Roman,
{
}

/// A column holds the characters that are left after the skipped ones, in order, behind dots just
/// where something was left out; a line feed stands as a space.
pub proof fn law_column_holds_the_rest(p: ProseModel, skip: int, now_ms: u64, i: int)
    requires
        0 <= skip <= p.glyphs.len() <= usize::MAX,
        skip <= i < p.glyphs.len(),
        p.dropped >= 0,
    ensures
        ({
            let all = column_of(p, skip, now_ms);
            let shown = p.glyphs.len() - skip;
            let g = all[all.len() - shown + i - skip];
            &&& all.len() >= shown
            &&& all.len() == shown <==> p.dropped + skip == 0
            &&& g.source == Some(i as usize)
            &&& p.glyphs[i].ch != '\n' ==> g.ch == p.glyphs[i].ch
            &&& p.glyphs[i].ch == '\n' ==> g.ch == ' '
        }),
{
}

} // verus!
