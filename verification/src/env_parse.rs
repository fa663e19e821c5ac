//! Booleans as people write them in environment variables.
use vstd::prelude::*;

use crate::text::{lowered, same, to_lower, trim, trimmed};

verus! {

/// The boolean that a trimmed, lower-case word stands for.
pub open spec fn bool_word(word: Seq<char>) -> Option<bool> {
    if word == "1"@ || word == "true"@ || word == "yes"@ || word == "on"@ {
        Some(true)
    } else if word == "0"@ || word == "false"@ || word == "no"@ || word == "off"@ {
        Some(false)
    } else {
        None
    }
}

/// The boolean that `raw` stands for, white space around it and ASCII case aside.
pub open spec fn bool_override(raw: Seq<char>) -> Option<bool> {
    bool_word(lowered(trim(raw)))
}

/// Parses a boolean from common human-readable representations.
///
/// `Some(true)` for `1`, `true`, `yes`, `on` (case-insensitive), `Some(false)` for `0`,
/// `false`, `no`, `off`, and `None` for anything else.
pub fn parse_bool_override(raw: &str) -> (r: Option<bool>)
    ensures
        r == bool_override(raw@),
{
    let outer = trimmed(raw);
    let word = to_lower(outer.as_str());
    let w = word.as_str();
    if same(w, "1") || same(w, "true") || same(w, "yes") || same(w, "on") {
        Some(true)
    } else if same(w, "0") || same(w, "false") || same(w, "no") || same(w, "off") {
        Some(false)
    } else {
        None
    }
}

/// Surrounding white space never changes what an override means.
pub proof fn law_override_ignores_outer_white_space(raw: Seq<char>)
    ensures
        bool_override(trim(raw)) == bool_override(raw),
{
    crate::text::lemma_trim_idempotent(raw);
}

/// A word that says yes is read as yes, one that says no as no, and any other as neither.
pub proof fn law_words_are_read_as_they_are_meant(raw: Seq<char>)
    ensures
        ({
            let w = lowered(trim(raw));
            &&& bool_override(raw) == Some(true) <==> w == "1"@ || w == "true"@ || w == "yes"@ || w
                == "on"@
            &&& bool_override(raw) == Some(false) ==> w == "0"@ || w == "false"@ || w == "no"@ || w
                == "off"@
            &&& w == "0"@ || w == "false"@ || w == "no"@ || w == "off"@ ==> bool_override(raw)
                is Some
            &&& bool_override(raw) is None <==> !(w == "1"@ || w == "true"@ || w == "yes"@ || w
                == "on"@ || w == "0"@ || w == "false"@ || w == "no"@ || w == "off"@)
        }),
{
}

} // verus!
