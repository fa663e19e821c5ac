use parakeet_ptt::fonts::{cache_is_full, fit_with_ellipsis, Face, GLYPH_CACHE_MAX};
use parakeet_ptt::prose::Prose;

fn faces(prose: &Prose, now: u64) -> Vec<(char, Face)> {
    (0..prose.len())
        .map(|i| (prose.glyph(i).ch, prose.look(i, now).0))
        .collect()
}

#[test]
fn new_burst_arrives_as_draft_and_previous_burst_sets() {
    let mut prose = Prose::new();
    prose.update("hello", 0);
    let first = faces(&prose, 1_000);
    assert!(first.iter().all(|(_, face)| *face == Face::Italic));

    prose.update("hello world", 2_000);
    let mid = faces(&prose, 2_600);
    assert!(
        mid[..5].iter().all(|(_, face)| *face == Face::Roman),
        "{mid:?}"
    );
    assert!(
        mid[6..].iter().all(|(_, face)| *face == Face::Italic),
        "{mid:?}"
    );
}

#[test]
fn rewrite_drops_the_changed_tail_and_keeps_the_prefix() {
    let mut prose = Prose::new();
    prose.update("send the invoice", 0);
    prose.update("send the invite", 500);
    let text: String = faces(&prose, 5_000).iter().map(|(ch, _)| *ch).collect();
    assert_eq!(text, "send the invite");
    prose.update("send the invite", 600);
    assert!(
        !prose.update("send the invite", 700),
        "unchanged text is a no-op"
    );
}

#[test]
fn commit_all_sets_every_draft_glyph() {
    let mut prose = Prose::new();
    prose.update("okay so", 0);
    prose.commit_all(1_000);
    let after = faces(&prose, 3_000);
    assert!(after.iter().all(|(_, face)| *face == Face::Roman));
}

#[test]
fn roman_only_prose_never_drafts() {
    let mut prose = Prose::new();
    prose.set_roman_only(true);
    prose.update("A mutex", 0);
    let placed = faces(&prose, 10);
    assert!(placed.iter().all(|(_, face)| *face == Face::Roman));
}

#[test]
fn dropped_words_do_not_come_back() {
    let mut prose = Prose::new();
    prose.update("alpha beta gamma", 0);
    // Two words fit.
    let n = prose.clamp_drop(&|dropped: usize| dropped >= 6);
    prose.drop_leading(n);
    assert_eq!(n, 6);
    assert_eq!(prose.dropped(), 6);
    let text: String = faces(&prose, 0).iter().map(|(ch, _)| *ch).collect();
    assert_eq!(text, "beta gamma");
    prose.update("alpha beta gamma delta", 100);
    let text: String = faces(&prose, 100).iter().map(|(ch, _)| *ch).collect();
    assert_eq!(text, "beta gamma delta");
}

#[test]
fn a_long_word_is_cut_in_its_middle() {
    let mut prose = Prose::new();
    prose.update(&"a".repeat(1_000), 0);
    let n = prose.clamp_drop(&|dropped: usize| dropped >= 900);
    assert!((900..1_000).contains(&n), "a useful suffix survives: {n}");
}

#[test]
fn prose_that_is_reset_is_empty() {
    let mut prose = Prose::new();
    prose.update("text", 0);
    assert!(!prose.is_empty());
    prose.reset();
    assert!(prose.is_empty());
    assert_eq!(prose.len(), 0);
    assert!(prose.update("text", 5));
    assert!(!prose.is_roman_only());
}

#[test]
fn faces_have_their_places_and_the_store_its_limit() {
    assert_eq!(
        [Face::Roman.index(), Face::Italic.index(), Face::Mono.index()],
        [0, 1, 2]
    );
    assert!(!cache_is_full(GLYPH_CACHE_MAX - 1));
    assert!(cache_is_full(GLYPH_CACHE_MAX));
}

#[test]
fn the_column_puts_dots_before_what_is_left() {
    let mut prose = Prose::new();
    prose.update("alpha\nbeta", 0);
    let whole: String = prose.column(0, 0).iter().map(|g| g.ch).collect();
    assert_eq!(whole, "alpha beta");
    let tail = prose.column(6, 0);
    let text: String = tail.iter().map(|g| g.ch).collect();
    assert_eq!(text, "\u{2026} beta");
    assert_eq!(tail[0].source, None);
    assert_eq!(tail[2].source, Some(6));
    assert_eq!(tail[2].face, Face::Italic);
    prose.drop_leading(6);
    let text: String = prose.column(0, 0).iter().map(|g| g.ch).collect();
    assert_eq!(text, "\u{2026} beta");
    assert_eq!(prose.column(100, 0).len(), 2);
}

#[test]
fn a_text_is_cut_where_its_room_ends() {
    assert_eq!(fit_with_ellipsis("short", true, &|_: usize| false), "short");
    assert_eq!(
        fit_with_ellipsis("what is a mutex", false, &|i: usize| i < 8),
        "what is\u{2026}"
    );
    assert_eq!(fit_with_ellipsis("what", false, &|_: usize| false), "\u{2026}");
    assert_eq!(fit_with_ellipsis("what", false, &|_: usize| true), "what\u{2026}");
}
