use parakeet_ptt::fonts::fit_with_ellipsis;
use parakeet_ptt::prose::Prose;
use parakeet_ptt::wrap::{WrapDo, WrapNews, Wrapping};

/// Every character is this wide.
const ADVANCE: f32 = 8.0;

struct Placed {
    ch: char,
    x: f32,
}

struct Layout {
    placed: Vec<Placed>,
    lines: usize,
    widest: f32,
}

fn layout_once(prose: &Prose, measure: f32, now_ms: u64, skip: usize) -> Layout {
    let items = prose.column(skip, now_ms);
    let dots = items.iter().take_while(|item| item.source.is_none()).count();
    let chars: Vec<char> = items.iter().map(|item| item.ch).collect();
    let (mut wrapping, mut action) = Wrapping::new(items, dots);
    let mut layout = Layout {
        placed: Vec::new(),
        lines: 1,
        widest: 0.0,
    };
    let mut x: f32 = 0.0;
    let mut content_end: f32 = 0.0;
    loop {
        let news = match action {
            WrapDo::MeasureWord { from, to } => WrapNews::Word {
                over: x + (to - from) as f32 * ADVANCE > measure,
            },
            WrapDo::MeasureGlyph { new_line, .. } => {
                if new_line {
                    layout.widest = layout.widest.max(content_end);
                    x = 0.0;
                }
                WrapNews::Glyph {
                    started: x > 0.0,
                    over: x + ADVANCE > measure,
                }
            }
            WrapDo::Place { item, new_line, .. } => {
                if new_line {
                    layout.widest = layout.widest.max(content_end);
                    x = 0.0;
                }
                layout.placed.push(Placed { ch: chars[item], x });
                x += ADVANCE;
                if chars[item] != ' ' {
                    content_end = x;
                }
                WrapNews::Placed { started: x > 0.0 }
            }
            WrapDo::Finish { lines } => {
                layout.lines = lines;
                layout.widest = layout.widest.max(content_end);
                return layout;
            }
            WrapDo::Unexpected => panic!("every answer was asked for"),
        };
        action = wrapping.next(news);
    }
}

fn layout(prose: &mut Prose, measure: f32, max_lines: usize, now_ms: u64) -> Layout {
    let whole = layout_once(prose, measure, now_ms, 0);
    if whole.lines <= max_lines {
        return whole;
    }
    let dropped =
        prose.clamp_drop(&|skip: usize| layout_once(prose, measure, now_ms, skip).lines <= max_lines);
    prose.drop_leading(dropped);
    layout_once(prose, measure, now_ms, 0)
}

#[test]
fn wraps_at_the_measure_and_reports_widest_line() {
    let mut prose = Prose::new();
    prose.update("one two three four five six seven eight nine ten", 0);
    let layout = layout(&mut prose, 120.0, 10, 5_000);
    assert!(layout.lines >= 3, "expected wrapping, got {} lines", layout.lines);
    assert!(layout.widest <= 120.0);
    assert!(layout.placed.iter().all(|p| p.x + 1.0 <= 120.0));
    let line_starts: Vec<char> = layout
        .placed
        .iter()
        .filter(|p| p.x == 0.0)
        .map(|p| p.ch)
        .collect();
    assert!(
        !line_starts.contains(&' '),
        "wrapped lines do not start with a space"
    );
}

#[test]
fn clamp_drops_leading_words_behind_an_ellipsis() {
    let mut prose = Prose::new();
    prose.update("alpha beta gamma delta epsilon zeta eta theta iota kappa", 0);
    let layout = layout(&mut prose, 90.0, 2, 5_000);
    assert!(layout.lines <= 2);
    assert_eq!(layout.placed[0].ch, '…');
    let text: String = layout.placed.iter().map(|p| p.ch).collect();
    assert!(text.ends_with("kappa"), "newest words survive: {text}");
    assert!(!text.contains("alpha"));
}

#[test]
fn clamp_settles_a_huge_transcript_in_one_call() {
    let mut prose = Prose::new();
    let text = "alpha ".repeat(2_000);
    prose.update(text.trim_end(), 0);
    let first = layout(&mut prose, 300.0, 4, 5_000);
    assert!(first.lines <= 4, "lines: {}", first.lines);
    assert!(prose.dropped() > 10_000, "dropped: {}", prose.dropped());
    // A second call with the same text is stable.
    let again = layout(&mut prose, 300.0, 4, 5_000);
    assert_eq!(again.lines, first.lines);
}

#[test]
fn clamp_keeps_the_tail_of_an_oversized_word() {
    let mut prose = Prose::new();
    let word = "a".repeat(1_000);
    prose.update(&word, 0);
    let layout = layout(&mut prose, 200.0, 2, 5_000);
    assert!(layout.lines <= 2);
    let kept = layout.placed.iter().filter(|p| p.ch == 'a').count();
    assert!(kept > 20, "a useful suffix survives: {kept}");
}

#[test]
fn clamp_to_one_line_never_leaves_the_ellipsis_alone_on_a_line() {
    let word = "supercalifragilisticexpialidocious".repeat(3);
    let mut probe = Prose::new();
    probe.update(&word, 0);
    let word_width = layout(&mut probe, 1.0e6, 1, 5_000).widest;

    let mut prose = Prose::new();
    prose.update(&format!("alpha {word}"), 0);
    let layout = layout(&mut prose, word_width, 1, 5_000);
    assert_eq!(layout.lines, 1, "the ellipsis shares the line with the tail");
    let kept = layout
        .placed
        .iter()
        .filter(|p| p.ch != '…' && p.ch != ' ')
        .count();
    assert!(kept > 10, "a useful tail survives: {kept}");
}

#[test]
fn fit_with_ellipsis_respects_the_width() {
    let width_of = |text: &str| text.chars().count() as f32 * ADVANCE;
    let fit = |text: &str| {
        fit_with_ellipsis(text, width_of(text) <= 120.0, &|index: usize| {
            (index + 2) as f32 * ADVANCE <= 120.0
        })
    };
    let fitted = fit("what is the difference between a mutex and a semaphore");
    assert!(fitted.ends_with('…'));
    assert!(width_of(&fitted) <= 120.0);
    assert_eq!(fit("short"), "short");
}
