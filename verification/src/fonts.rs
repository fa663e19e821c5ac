//! The overlay's faces, when its store of drawn glyphs is emptied, and how a text is cut short.
use vstd::prelude::*;

use crate::text::{cat2, chars_of, end_trimmed, string_of, trim_end};

verus! {

/// One of the faces that the overlay is set in.
#[derive(Debug, Clone, Copy, PartialEq, Eq, Hash, Structural)]
pub enum Face {
    Roman,
    Italic,
    Mono,
}

/// The place of a face among all faces.
pub open spec fn face_place(face: Face) -> int {
    match face {
        Face::Roman => 0,
        Face::Italic => 1,
        Face::Mono => 2,
    }
}

impl Face {
    /// The place of the face among all faces.
    pub fn index(self) -> (r: usize)
        ensures
            r == face_place(self),
            r < 3,
    {
        match self {
            Face::Roman => 0,
            Face::Italic => 1,
            Face::Mono => 2,
        }
    }
}

/// Two faces with the same place are the same.
pub proof fn law_faces_have_their_own_places(a: Face, b: Face)
    requires
        face_place(a) == face_place(b),
    ensures
        a == b,
{
}

/// How many drawn glyphs are kept at most.
pub const GLYPH_CACHE_MAX: usize = 2_048;

/// Whether the store is emptied before one more glyph is kept.
pub fn cache_is_full(kept: usize) -> (r: bool)
    ensures
        r == (kept >= GLYPH_CACHE_MAX),
{
    kept >= GLYPH_CACHE_MAX
}

/// How many glyphs are kept after one more.
pub open spec fn kept_after(kept: int) -> int {
    if kept >= GLYPH_CACHE_MAX {
        1
    } else {
        kept + 1
    }
}

/// The store never holds more than its limit.
pub proof fn law_glyph_store_is_bounded(kept: int)
    requires
        0 <= kept <= GLYPH_CACHE_MAX,
    ensures
        0 <= kept_after(kept) <= GLYPH_CACHE_MAX,
{
}

/// Whether `n` is how many characters are kept: each of them has room, and the next has none.
pub open spec fn keeps<F: Fn(usize) -> bool>(len: int, has_room: F, n: usize) -> bool {
    &&& n <= len
    &&& forall|i: usize| i < n ==> #[trigger] has_room.ensures((i,), true)
    &&& n < len ==> has_room.ensures((n,), false)
}

/// A text cut short: so many of its characters, without white space at the end, and dots.
pub open spec fn cut_short(text: Seq<char>, n: int) -> Seq<char> {
    trim_end(text.take(n)) + "\u{2026}"@
}

/// A text as far as it fits: all of it, or as many characters as have room before the dots.
/// `has_room` tells, character by character, whether that one has room.
pub fn fit_with_ellipsis<F: Fn(usize) -> bool>(text: &str, fits: bool, has_room: &F) -> (r: String)
    requires
        forall|n: usize| has_room.requires((n,)),
    ensures
        fits ==> r@ == text@,
        !fits ==> exists|n: usize| #[trigger]
            keeps(text@.len() as int, *has_room, n) && r@ == cut_short(text@, n as int),
{
    if fits {
        return text.to_owned();
    }
    let chars = chars_of(text);
    let mut n: usize = 0;
    let mut open: bool = true;
    while open && n < chars.len()
        invariant
            n <= chars@.len(),
            forall|m: usize| has_room.requires((m,)),
            forall|i: usize| i < n ==> #[trigger] has_room.ensures((i,), true),
            !open ==> n < chars@.len() && has_room.ensures((n,), false),
        decreases chars@.len() - n,
                if open {
                    1int
                } else {
                    0
                },
    {
        if has_room(n) {
            n = n + 1;
        } else {
            open = false;
        }
    }
    let kept = string_of(&chars, 0, n);
    assert(kept@ =~= text@.take(n as int));
    assert(keeps(text@.len() as int, *has_room, n));
    cat2(end_trimmed(kept.as_str()).as_str(), "\u{2026}")
}

} // verus!
