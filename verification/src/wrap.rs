//! How prose is broken into lines. The widths are measured elsewhere: the wrapping asks for each
//! comparison it needs, and says where every character goes.
use vstd::prelude::*;

use crate::prose::SetGlyph;

verus! {

/// What the wrapping waits for.
#[derive(Debug, Clone, Copy, PartialEq, Eq, Structural)]
pub enum WrapPhase {
    /// Whether the word fits on the line.
    Word,
    /// Whether the character fits on the line.
    Glyph,
    /// That a character of a word was placed.
    Placing,
    /// That a space was placed.
    Spacing,
    /// Nothing: all is placed.
    Done,
}

/// What was measured or done.
#[derive(Debug, Clone, Copy, PartialEq, Eq, Structural)]
pub enum WrapNews {
    /// Whether the word would go over the end of the line.
    Word { over: bool },
    /// Whether the pen, after the kerning, has left the start of the line, and whether the
    /// character would go over its end.
    Glyph { started: bool, over: bool },
    /// The character was placed; whether the pen has left the start of the line.
    Placed { started: bool },
}

/// What to do next.
#[derive(Debug, Clone, Copy, PartialEq, Eq, Structural)]
pub enum WrapDo {
    /// Measure the word of these characters behind the pen.
    MeasureWord { from: usize, to: usize },
    /// Go to the start of a new line if asked to, add the kerning with the character before if
    /// asked to, and measure this character behind the pen.
    MeasureGlyph { item: usize, new_line: bool, kern: bool },
    /// Go to the start of a new line if asked to, and place this character there at the pen.
    Place { item: usize, line: usize, new_line: bool },
    /// All is placed, on so many lines.
    Finish { lines: usize },
    /// The news does not fit; nothing changed.
    Unexpected,
}

/// Prose that is being wrapped, mathematically.
pub struct WrapModel {
    pub items: Seq<SetGlyph>,
    /// How many characters in front stand in for what was dropped.
    pub dots: int,
    /// Where the word begins, or the space that is placed.
    pub index: int,
    /// Where the word ends.
    pub end: int,
    /// The character at hand.
    pub at: int,
    pub line: int,
    pub phase: WrapPhase,
}

/// Where the run of spaces that begins here ends.
pub open spec fn spaces_end(items: Seq<SetGlyph>, at: int) -> int
    decreases items.len() - at,
{
    if 0 <= at < items.len() && items[at].ch == ' ' {
        spaces_end(items, at + 1)
    } else {
        at
    }
}

/// Where the word that begins here ends.
pub open spec fn word_stop(items: Seq<SetGlyph>, at: int) -> int
    decreases items.len() - at,
{
    if 0 <= at < items.len() && items[at].ch != ' ' {
        word_stop(items, at + 1)
    } else {
        at
    }
}

/// The first character of a word, at the pen.
pub open spec fn word_begun(m: WrapModel, index: int, started: bool) -> (WrapModel, WrapDo) {
    let end = word_stop(m.items, index);
    let n = WrapModel { index, end, at: index, ..m };
    if started && index != m.dots {
        (
            WrapModel { phase: WrapPhase::Word, ..n },
            WrapDo::MeasureWord { from: index as usize, to: end as usize },
        )
    } else {
        (
            WrapModel { phase: WrapPhase::Glyph, ..n },
            WrapDo::MeasureGlyph { item: index as usize, new_line: false, kern: false },
        )
    }
}

/// What comes at this place when the pen has, or has not, left the start of the line. There a
/// space is left out.
pub open spec fn from_here(m: WrapModel, at: int, started: bool) -> (WrapModel, WrapDo) {
    let index = if started {
        at
    } else {
        spaces_end(m.items, at)
    };
    if index >= m.items.len() {
        (
            WrapModel { index, end: index, at: index, phase: WrapPhase::Done, ..m },
            WrapDo::Finish { lines: (m.line + 1) as usize },
        )
    } else if m.items[index].ch == ' ' {
        (
            WrapModel { index, end: index + 1, at: index, phase: WrapPhase::Spacing, ..m },
            WrapDo::Place { item: index as usize, line: m.line as usize, new_line: false },
        )
    } else {
        word_begun(m, index, started)
    }
}

/// Whether a character is set closer to the one before it: both are in one word and one face.
pub open spec fn kerned(m: WrapModel, at: int) -> bool {
    m.index < at < m.items.len() && m.items[at - 1].face == m.items[at].face
}

/// The next state and action.
///
/// A word that does not fit goes to a new line, unless it is the first after the dots; a
/// character of a word that does not fit does so too. At the start of a line nothing breaks.
pub open spec fn wrap_next(m: WrapModel, news: WrapNews) -> (WrapModel, WrapDo) {
    match (m.phase, news) {
        (WrapPhase::Word, WrapNews::Word { over }) => (
            WrapModel {
                line: if over {
                    m.line + 1
                } else {
                    m.line
                },
                phase: WrapPhase::Glyph,
                ..m
            },
            WrapDo::MeasureGlyph { item: m.at as usize, new_line: over, kern: false },
        ),
        (WrapPhase::Glyph, WrapNews::Glyph { started, over }) => {
            let breaks = started && over;
            let line = if breaks {
                m.line + 1
            } else {
                m.line
            };
            (
                WrapModel { line, phase: WrapPhase::Placing, ..m },
                WrapDo::Place { item: m.at as usize, line: line as usize, new_line: breaks },
            )
        },
        (WrapPhase::Placing, WrapNews::Placed { started }) => if m.at + 1 < m.end {
            (
                WrapModel { at: m.at + 1, phase: WrapPhase::Glyph, ..m },
                WrapDo::MeasureGlyph {
                    item: (m.at + 1) as usize,
                    new_line: false,
                    kern: kerned(m, m.at + 1),
                },
            )
        } else {
            from_here(m, m.end, started)
        },
        (WrapPhase::Spacing, WrapNews::Placed { started }) => from_here(m, m.end, started),
        _ => (m, WrapDo::Unexpected),
    }
}

/// How many times a line may still be broken: before each word and each character that is left.
pub open spec fn breaks_left(m: WrapModel) -> int {
    match m.phase {
        WrapPhase::Word => 2 * (m.items.len() - m.at),
        WrapPhase::Glyph => 2 * (m.items.len() - m.at) - 1,
        WrapPhase::Placing => 2 * (m.items.len() - m.at - 1),
        WrapPhase::Spacing => 2 * (m.items.len() - m.at - 1),
        WrapPhase::Done => 0,
    }
}

/// What holds of every wrapping on its way.
pub open spec fn wrap_sound(m: WrapModel) -> bool {
    &&& 0 <= m.index <= m.at <= m.end <= m.items.len()
    &&& 2 * m.items.len() < usize::MAX
    &&& 0 <= m.line
    &&& m.line + breaks_left(m) <= 2 * m.items.len()
    &&& m.phase != WrapPhase::Done ==> m.at < m.end
    &&& m.phase == WrapPhase::Word ==> m.at == m.index
    &&& m.phase == WrapPhase::Word || m.phase == WrapPhase::Glyph || m.phase == WrapPhase::Placing
        ==> m.end == word_stop(m.items, m.at) && m.items[m.at].ch != ' '
    &&& m.phase == WrapPhase::Spacing ==> m.items[m.at].ch == ' ' && m.end == m.at + 1
    &&& m.phase == WrapPhase::Done ==> m.at == m.items.len()
}

/// A run of spaces ends within the column, and only spaces are in it.
proof fn lemma_spaces_end(items: Seq<SetGlyph>, at: int)
    requires
        0 <= at <= items.len(),
    ensures
        at <= spaces_end(items, at) <= items.len(),
        forall|i: int| at <= i < spaces_end(items, at) ==> (#[trigger] items[i]).ch == ' ',
        spaces_end(items, at) < items.len() ==> items[spaces_end(items, at)].ch != ' ',
    decreases items.len() - at,
{
    if at < items.len() && items[at].ch == ' ' {
        lemma_spaces_end(items, at + 1);
    }
}

/// A word ends within the column, and no space is in it.
proof fn lemma_word_stop(items: Seq<SetGlyph>, at: int)
    requires
        0 <= at <= items.len(),
    ensures
        at <= word_stop(items, at) <= items.len(),
        forall|i: int| at <= i < word_stop(items, at) ==> (#[trigger] items[i]).ch != ' ',
        at < items.len() && items[at].ch != ' ' ==> at < word_stop(items, at),
    decreases items.len() - at,
{
    if at < items.len() && items[at].ch != ' ' {
        lemma_word_stop(items, at + 1);
    }
}

/// What comes next is sound.
proof fn lemma_from_here(m: WrapModel, at: int, started: bool)
    requires
        0 <= at <= m.items.len(),
        2 * m.items.len() < usize::MAX,
        0 <= m.line,
        m.line + 2 * (m.items.len() - at) <= 2 * m.items.len(),
    ensures
        wrap_sound(from_here(m, at, started).0),
{
    lemma_spaces_end(m.items, at);
    let index = if started {
        at
    } else {
        spaces_end(m.items, at)
    };
    lemma_word_stop(m.items, index);
}

/// Every step keeps a wrapping sound, and never changes the text.
pub proof fn law_wrapping_stays_sound(m: WrapModel, news: WrapNews)
    requires
        wrap_sound(m),
    ensures
        wrap_sound(wrap_next(m, news).0),
        wrap_next(m, news).0.items == m.items,
        wrap_next(m, news).0.line >= m.line,
{
    match (m.phase, news) {
        (WrapPhase::Placing, WrapNews::Placed { started }) => {
            if m.at + 1 < m.end {
                lemma_word_stop(m.items, m.at);
                assert(word_stop(m.items, m.at) == word_stop(m.items, m.at + 1));
            } else {
                lemma_from_here(m, m.end, started);
            }
        },
        (WrapPhase::Spacing, WrapNews::Placed { started }) => {
            lemma_from_here(m, m.end, started);
        },
        _ => {},
    }
}

/// The place up to which all has been placed or left out.
pub open spec fn placed_until(m: WrapModel) -> int {
    match m.phase {
        WrapPhase::Placing | WrapPhase::Spacing => m.at + 1,
        _ => m.at,
    }
}

/// Characters are placed in their order, and none is left out but spaces: a step goes over
/// nothing but spaces to what it places or measures next.
pub proof fn law_wrapping_leaves_out_only_spaces(m: WrapModel, news: WrapNews)
    requires
        wrap_sound(m),
    ensures
        ({
            let (n, action) = wrap_next(m, news);
            &&& placed_until(m) <= placed_until(n)
            &&& match action {
                WrapDo::Place { item, .. } => {
                    &&& placed_until(m) <= item
                    &&& placed_until(n) == item + 1
                    &&& forall|i: int|
                        placed_until(m) <= i < item ==> (#[trigger] m.items[i]).ch == ' '
                },
                _ => forall|i: int|
                    placed_until(m) <= i < placed_until(n) ==> (#[trigger] m.items[i]).ch == ' ',
            }
        }),
{
    lemma_spaces_end(m.items, m.end);
    lemma_word_stop(m.items, m.at);
    law_wrapping_stays_sound(m, news);
}

/// The word after the dots stays on their line as far as it fits: the wrapping never asks
/// whether to move it.
pub proof fn law_dots_keep_the_word_behind_them(m: WrapModel, news: WrapNews)
    requires
        wrap_sound(m),
    ensures
        wrap_next(m, news).1 matches WrapDo::MeasureWord { from, .. } ==> from != m.dots,
{
    lemma_spaces_end(m.items, m.end);
}

/// How many steps are left at most.
pub open spec fn steps_left(m: WrapModel) -> int {
    match m.phase {
        WrapPhase::Word => 3 * (m.items.len() - m.at),
        WrapPhase::Glyph => 3 * (m.items.len() - m.at) - 1,
        WrapPhase::Placing => 3 * (m.items.len() - m.at) - 2,
        WrapPhase::Spacing => 3 * (m.items.len() - m.at) - 2,
        WrapPhase::Done => 0,
    }
}

/// A wrapping comes to its end: every expected answer brings it nearer.
pub proof fn law_wrapping_ends(m: WrapModel, news: WrapNews)
    requires
        wrap_sound(m),
        !(wrap_next(m, news).1 is Unexpected),
    ensures
        0 <= steps_left(wrap_next(m, news).0) < steps_left(m),
{
    lemma_spaces_end(m.items, m.end);
    lemma_word_stop(m.items, m.at);
    law_wrapping_stays_sound(m, news);
}

/// Where answers lead, one after another, and what is placed on the way.
pub open spec fn wrapped_by(m: WrapModel, news: Seq<WrapNews>) -> (WrapModel, Seq<usize>)
    decreases news.len(),
{
    if news.len() == 0 {
        (m, Seq::empty())
    } else {
        let (before, placed) = wrapped_by(m, news.drop_last());
        let (after, action) = wrap_next(before, news.last());
        match action {
            WrapDo::Place { item, .. } => (after, placed.push(item)),
            _ => (after, placed),
        }
    }
}

/// Whatever is answered, every character but a space is placed once, in the order of the text,
/// as far as the wrapping has come; so at its end all of them are.
pub proof fn law_every_character_is_placed_once(m: WrapModel, news: Seq<WrapNews>)
    requires
        wrap_sound(m),
    ensures
        ({
            let (n, placed) = wrapped_by(m, news);
            &&& wrap_sound(n)
            &&& n.items == m.items
            &&& placed_until(m) <= placed_until(n)
            &&& n.phase == WrapPhase::Done ==> placed_until(n) == m.items.len()
            &&& forall|k: int|
                0 <= k < placed.len() ==> placed_until(m) <= (#[trigger] placed[k])
                    < placed_until(n)
            &&& forall|j: int, k: int|
                0 <= j < k < placed.len() ==> (#[trigger] placed[j]) < (#[trigger] placed[k])
            &&& forall|i: int|
                placed_until(m) <= i < placed_until(n) && (#[trigger] m.items[i]).ch != ' '
                    ==> placed.contains(i as usize)
        }),
    decreases news.len(),
{
    if news.len() > 0 {
        law_every_character_is_placed_once(m, news.drop_last());
        let (before, placed) = wrapped_by(m, news.drop_last());
        let (after, action) = wrap_next(before, news.last());
        law_wrapping_stays_sound(before, news.last());
        law_wrapping_leaves_out_only_spaces(before, news.last());
        let all = wrapped_by(m, news).1;
        assert forall|i: int|
            placed_until(m) <= i < placed_until(after) && (#[trigger] m.items[i]).ch
                != ' ' implies all.contains(i as usize) by {
            if i < placed_until(before) {
                let k = choose|k: int| 0 <= k < placed.len() && placed[k] == i as usize;
                assert(all[k] == i as usize);
            } else {
                assert(action is Place);
                assert(all.last() == i as usize);
            }
        }
    }
}

/// Prose that is being wrapped.
#[derive(Debug)]
pub struct Wrapping {
    items: Vec<SetGlyph>,
    dots: usize,
    index: usize,
    end: usize,
    at: usize,
    line: usize,
    phase: WrapPhase,
}

impl Wrapping {
    /// The wrapping, mathematically.
    pub closed spec fn model(self) -> WrapModel {
        WrapModel {
            items: self.items@,
            dots: self.dots as int,
            index: self.index as int,
            end: self.end as int,
            at: self.at as int,
            line: self.line as int,
            phase: self.phase,
        }
    }

    /// Begins with the pen at the start of the first line. `dots` of the characters stand in
    /// for what was dropped.
    pub fn new(items: Vec<SetGlyph>, dots: usize) -> (r: (Wrapping, WrapDo))
        requires
            2 * items@.len() < usize::MAX,
        ensures
            (r.0.model(), r.1) == from_here(
                WrapModel {
                    items: items@,
                    dots: dots as int,
                    index: 0,
                    end: 0,
                    at: 0,
                    line: 0,
                    phase: WrapPhase::Done,
                },
                0,
                false,
            ),
            wrap_sound(r.0.model()),
    {
        let mut wrapping = Wrapping {
            items,
            dots,
            index: 0,
            end: 0,
            at: 0,
            line: 0,
            phase: WrapPhase::Done,
        };
        proof {
            lemma_from_here(wrapping.model(), 0, false);
        }
        let action = wrapping.go_on(0, false);
        (wrapping, action)
    }

    /// The characters.
    pub fn items(&self) -> (r: &Vec<SetGlyph>)
        ensures
            r@ == self.model().items,
    {
        &self.items
    }

    /// Goes on at a place.
    fn go_on(&mut self, at: usize, started: bool) -> (r: WrapDo)
        requires
            at <= old(self).items@.len(),
            old(self).line < usize::MAX,
        ensures
            (final(self).model(), r) == from_here(old(self).model(), at as int, started),
    {
        let total: usize = self.items.len();
        let mut index: usize = at;
        if !started {
            while index < total && self.items[index].ch == ' '
                invariant
                    total == self.items@.len(),
                    at <= index <= total,
                    spaces_end(self.items@, at as int) == spaces_end(self.items@, index as int),
                ensures
                    at <= index <= total,
                    spaces_end(self.items@, at as int) == index,
                decreases total - index,
            {
                index = index + 1;
            }
        }
        self.index = index;
        self.at = index;
        if index >= total {
            self.end = index;
            self.phase = WrapPhase::Done;
            return WrapDo::Finish { lines: self.line + 1 };
        }
        if self.items[index].ch == ' ' {
            self.end = index + 1;
            self.phase = WrapPhase::Spacing;
            return WrapDo::Place { item: index, line: self.line, new_line: false };
        }
        let mut end: usize = index;
        while end < total && self.items[end].ch != ' '
            invariant
                total == self.items@.len(),
                index <= end <= total,
                word_stop(self.items@, index as int) == word_stop(self.items@, end as int),
            ensures
                index <= end <= total,
                word_stop(self.items@, index as int) == end,
            decreases total - end,
        {
            end = end + 1;
        }
        self.end = end;
        if started && index != self.dots {
            self.phase = WrapPhase::Word;
            WrapDo::MeasureWord { from: index, to: end }
        } else {
            self.phase = WrapPhase::Glyph;
            WrapDo::MeasureGlyph { item: index, new_line: false, kern: false }
        }
    }

    /// Takes what was measured or done, and says what to do next.
    pub fn next(&mut self, news: WrapNews) -> (r: WrapDo)
        requires
            wrap_sound(old(self).model()),
        ensures
            (final(self).model(), r) == wrap_next(old(self).model(), news),
            wrap_sound(final(self).model()),
            final(self).model().items == old(self).model().items,
    {
        proof {
            law_wrapping_stays_sound(self.model(), news);
        }
        match (self.phase, news) {
            (WrapPhase::Word, WrapNews::Word { over }) => {
                if over {
                    self.line = self.line + 1;
                }
                self.phase = WrapPhase::Glyph;
                WrapDo::MeasureGlyph { item: self.at, new_line: over, kern: false }
            },
            (WrapPhase::Glyph, WrapNews::Glyph { started, over }) => {
                let breaks = started && over;
                if breaks {
                    self.line = self.line + 1;
                }
                self.phase = WrapPhase::Placing;
                WrapDo::Place { item: self.at, line: self.line, new_line: breaks }
            },
            (WrapPhase::Placing, WrapNews::Placed { started }) => {
                if self.at + 1 < self.end {
                    let kern = self.items[self.at].face == self.items[self.at + 1].face;
                    self.at = self.at + 1;
                    self.phase = WrapPhase::Glyph;
                    WrapDo::MeasureGlyph { item: self.at, new_line: false, kern }
                } else {
                    let at: usize = self.end;
                    self.go_on(at, started)
                }
            },
            (WrapPhase::Spacing, WrapNews::Placed { started }) => {
                let at: usize = self.end;
                self.go_on(at, started)
            },
            _ => WrapDo::Unexpected,
        }
    }
}

} // verus!
