use parakeet_ptt::fonts::Face;
use parakeet_ptt::prose::{Prose, SetGlyph};
use parakeet_ptt::wrap::{WrapDo, WrapNews, Wrapping};

fn glyphs(text: &str) -> Vec<SetGlyph> {
    text.chars()
        .map(|ch| SetGlyph {
            ch,
            face: Face::Roman,
            pencil: false,
            source: None,
        })
        .collect()
}

/// Lines of characters that are all one wide.
fn wrapped(items: Vec<SetGlyph>, dots: usize, measure: usize) -> Vec<String> {
    let chars: Vec<char> = items.iter().map(|item| item.ch).collect();
    let (mut wrapping, mut action) = Wrapping::new(items, dots);
    let mut lines: Vec<String> = vec![String::new()];
    let mut x = 0;
    loop {
        let news = match action {
            WrapDo::MeasureWord { from, to } => WrapNews::Word {
                over: x + (to - from) > measure,
            },
            WrapDo::MeasureGlyph { new_line, .. } => {
                if new_line {
                    x = 0;
                }
                WrapNews::Glyph {
                    started: x > 0,
                    over: x + 1 > measure,
                }
            }
            WrapDo::Place {
                item,
                line,
                new_line,
            } => {
                if new_line {
                    x = 0;
                }
                if line == lines.len() {
                    lines.push(String::new());
                }
                lines[line].push(chars[item]);
                x += 1;
                WrapNews::Placed { started: x > 0 }
            }
            WrapDo::Finish { lines: count } => {
                assert_eq!(count, lines.len());
                return lines;
            }
            WrapDo::Unexpected => panic!("every answer was asked for"),
        };
        action = wrapping.next(news);
    }
}

#[test]
fn words_move_to_the_next_line() {
    assert_eq!(
        wrapped(glyphs("one two three"), 0, 7),
        vec!["one two ", "three"]
    );
    assert_eq!(wrapped(glyphs("one two"), 0, 100), vec!["one two"]);
}

#[test]
fn wide_words_break_within() {
    assert_eq!(wrapped(glyphs("abcdefgh"), 0, 3), vec!["abc", "def", "gh"]);
}

#[test]
fn spaces_at_the_start_of_a_line_are_left_out() {
    assert_eq!(wrapped(glyphs("  a b"), 0, 10), vec!["a b"]);
    assert_eq!(wrapped(glyphs(""), 0, 10), vec![""]);
    assert_eq!(wrapped(glyphs("   "), 0, 10), vec![""]);
}

#[test]
fn word_after_the_dots_stays_with_them() {
    assert_eq!(
        wrapped(glyphs("\u{2026} abcdef gh"), 2, 6),
        vec!["\u{2026} abcd", "ef gh"]
    );
    // Without dots in front the word would move.
    assert_eq!(
        wrapped(glyphs("\u{2026} abcdef gh"), 0, 6),
        vec!["\u{2026} ", "abcdef ", "gh"]
    );
}

#[test]
fn columns_of_prose_can_be_wrapped() {
    let mut prose = Prose::new();
    prose.update("hello\nworld", 0);
    let column = prose.column(0, 1_000);
    assert_eq!(wrapped(column, 0, 6), vec!["hello ", "world"]);
}

#[test]
fn only_characters_of_one_face_are_kerned() {
    let mut items = glyphs("abc");
    items[2].face = Face::Italic;
    let (mut wrapping, action) = Wrapping::new(items, 0);
    assert_eq!(
        action,
        WrapDo::MeasureGlyph {
            item: 0,
            new_line: false,
            kern: false
        }
    );
    let fits = WrapNews::Glyph {
        started: true,
        over: false,
    };
    assert_eq!(
        wrapping.next(fits),
        WrapDo::Place {
            item: 0,
            line: 0,
            new_line: false
        }
    );
    // An answer to nothing changes nothing.
    assert_eq!(wrapping.next(WrapNews::Word { over: true }), WrapDo::Unexpected);
    assert_eq!(
        wrapping.next(WrapNews::Placed { started: true }),
        WrapDo::MeasureGlyph {
            item: 1,
            new_line: false,
            kern: true
        }
    );
    wrapping.next(fits);
    assert_eq!(
        wrapping.next(WrapNews::Placed { started: true }),
        WrapDo::MeasureGlyph {
            item: 2,
            new_line: false,
            kern: false
        }
    );
}
