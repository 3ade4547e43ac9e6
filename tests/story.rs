use typing_tutor::story::{normalize, FileData, Progress, RETURN_GLYPH};
use typing_tutor::window::window;

fn chars(s: &str) -> Vec<char> {
    s.chars().collect()
}

fn text(v: &[char]) -> String {
    v.iter().collect()
}

#[test]
fn normalize_folds_breaks_and_punctuation() {
    let raw = chars("a\nb\u{2014}c\u{2019}d\u{201C}e\u{201D}");
    assert_eq!(text(&normalize(&raw)), "a\u{21A9}b-c'd\"e\"");
    assert_eq!(normalize(&chars("plain")), chars("plain"));
    assert_eq!(normalize(&vec![]), Vec::<char>::new());
}

#[test]
fn progress_defaults_to_zero() {
    assert_eq!(Progress::default().chars, 0);
}

#[test]
fn progress_next_and_advance() {
    let story = chars("ab");
    let mut p = Progress::default();
    assert_eq!(p.next(&story), Some('a'));
    p.advance(&story);
    assert_eq!(p.next(&story), Some('b'));
    p.advance(&story);
    assert_eq!(p.chars, 2);
    assert_eq!(p.next(&story), None);
}

#[test]
fn file_data_load_and_save() {
    let fd = FileData::load(&chars("Hi\n"), "s.progress.json".to_string(), Progress { chars: 1 });
    assert_eq!(fd.story, vec!['H', 'i', RETURN_GLYPH]);
    let (path, progress) = fd.save();
    assert_eq!(path, "s.progress.json");
    assert_eq!(progress, Progress { chars: 1 });
}

#[test]
fn window_at_start_gives_budget_to_suffix() {
    let story = chars("abcdefghij");
    let w = window(&story, 0, 9);
    assert_eq!(text(&w.prefix), "");
    assert_eq!(text(&w.current), "a");
    assert_eq!(text(&w.suffix), "bcdefg");
    let w = window(&story, 1, 9);
    assert_eq!(text(&w.prefix), "a");
    assert_eq!(text(&w.current), "b");
    assert_eq!(text(&w.suffix), "cdefg");
}

#[test]
fn window_in_middle_is_centered() {
    let story = chars("abcdefghij");
    let w = window(&story, 5, 9);
    assert_eq!(text(&w.prefix), "cde");
    assert_eq!(text(&w.current), "f");
    assert_eq!(text(&w.suffix), "ghi");
}

#[test]
fn window_at_and_past_end_is_clipped() {
    let story = chars("abcdefghij");
    let w = window(&story, 10, 9);
    assert_eq!(text(&w.prefix), "hij");
    assert_eq!(text(&w.current), "");
    assert_eq!(text(&w.suffix), "");
    let w = window(&story, 20, 9);
    assert!(w.prefix.is_empty() && w.current.is_empty() && w.suffix.is_empty());
    let w = window(&story, usize::MAX, usize::MAX);
    assert!(w.current.is_empty() && w.suffix.is_empty());
}

#[test]
fn window_of_zero_width_shows_only_the_current_char() {
    let story = chars("abc");
    let w = window(&story, 1, 0);
    assert_eq!(text(&w.prefix), "");
    assert_eq!(text(&w.current), "b");
    assert_eq!(text(&w.suffix), "");
}

#[test]
fn window_width_stays_within_bounds() {
    let story = chars("the quick brown fox jumps over the lazy dog");
    for width in 1usize..40 {
        for cursor in 0..=story.len() {
            let w = window(&story, cursor, width);
            let total = w.prefix.len() + w.current.len() + w.suffix.len();
            assert!(total <= width);
            let budget = 2 * (width / 3) - w.prefix.len();
            if cursor + 1 + budget <= story.len() {
                assert_eq!(total, 2 * (width / 3) + 1);
            }
            if cursor <= width / 3 {
                assert_eq!(w.prefix.len(), cursor);
            }
        }
    }
}

#[test]
fn saved_progress_reloads_to_the_same_count() {
    let raw = chars("abc");
    let mut fd = FileData::load(&raw, "a.progress.json".to_string(), Progress::default());
    fd.progress.advance(&fd.story);
    fd.progress.advance(&fd.story);
    let (path, saved) = fd.save();
    let again = FileData::load(&raw, path, saved);
    assert_eq!(again.progress.chars, 2);
    assert_eq!(again.progress_path, "a.progress.json");
}
