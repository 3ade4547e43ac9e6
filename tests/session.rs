use typing_tutor::session::{App, KeyInput};
use typing_tutor::keyboard::{odd_size, Key, Keyboard, Rgb, Theme};
use typing_tutor::layout::{Layout, LayoutKind, Modifier};
use typing_tutor::story::{FileData, Progress};

fn app_for(raw: &str, chars: usize) -> App {
    let raw: Vec<char> = raw.chars().collect();
    App::load(FileData::load(&raw, "story.progress.json".to_string(), Progress { chars }))
}

fn hinted_keys(k: &Keyboard) -> Vec<(usize, usize)> {
    let mut out = vec![];
    for (r, row) in k.keys().iter().enumerate() {
        for (c, key) in row.iter().enumerate() {
            if key.theme == Theme::Hint {
                out.push((r, c));
            }
        }
    }
    out
}

fn hinted_modifiers(k: &Keyboard) -> Vec<Modifier> {
    [Modifier::Sym, Modifier::Cur, Modifier::Shift]
        .into_iter()
        .filter(|m| k.modifier(*m) == Theme::Hint)
        .collect()
}

fn press(c: char) -> KeyInput {
    KeyInput::Char { c, control: false }
}

#[test]
fn typing_a_one_line_story() {
    let mut app = app_for("Hi\n", 0);
    assert_eq!(app.next(), Some('H'));
    app.handle_key_event(press('H'));
    assert_eq!(app.file_data().progress.chars, 1);
    app.handle_key_event(press('i'));
    assert_eq!(app.file_data().progress.chars, 2);
    assert_eq!(app.next(), Some('\u{21A9}'));
    app.handle_key_event(KeyInput::Enter);
    assert_eq!(app.file_data().progress.chars, 3);
    assert_eq!(app.next(), None);
    app.update_hints();
    assert!(hinted_keys(app.keyboard()).is_empty());
    assert!(hinted_modifiers(app.keyboard()).is_empty());
}

#[test]
fn wrong_key_does_not_advance() {
    let mut app = app_for("ab", 0);
    app.handle_key_event(press('b'));
    app.handle_key_event(KeyInput::Enter);
    app.handle_key_event(KeyInput::Other);
    assert_eq!(app.file_data().progress.chars, 0);
}

#[test]
fn tab_skips_but_not_past_the_end() {
    let mut app = app_for("ab", 0);
    app.handle_key_event(KeyInput::Tab);
    app.handle_key_event(KeyInput::Tab);
    assert_eq!(app.file_data().progress.chars, 2);
    app.handle_key_event(KeyInput::Tab);
    app.handle_key_event(press('b'));
    assert_eq!(app.file_data().progress.chars, 2);
}

#[test]
fn typing_every_char_counts_them_all() {
    let story = "Go to n, then h!\nEnd";
    let mut app = app_for(story, 0);
    let mut n = 0;
    while let Some(c) = app.next() {
        if c == '\u{21A9}' {
            app.handle_key_event(KeyInput::Enter);
        } else {
            app.handle_key_event(press(c));
        }
        n += 1;
        assert_eq!(app.file_data().progress.chars, n);
    }
    assert_eq!(n, story.chars().count());
}

#[test]
fn hotkeys_switch_layout_and_toggle_keyboard() {
    let mut app = app_for("nh", 0);
    assert_eq!(app.keyboard().layout().kind(), LayoutKind::Qwerty);
    app.handle_key_event(KeyInput::Char { c: 'n', control: true });
    assert_eq!(app.keyboard().layout().kind(), LayoutKind::Dvorak);
    assert!(app.keyboard().draw());
    app.handle_key_event(KeyInput::Char { c: 'h', control: true });
    assert!(!app.keyboard().draw());
    assert_eq!(app.file_data().progress.chars, 0);
    app.handle_key_event(press('n'));
    assert_eq!(app.file_data().progress.chars, 1);
}

#[test]
fn escape_ends_the_session() {
    let mut app = app_for("a", 0);
    assert!(!app.is_exiting());
    app.handle_key_event(KeyInput::Esc);
    assert!(app.is_exiting());
    assert_eq!(app.file_data().progress.chars, 0);
}

#[test]
fn hints_follow_the_expected_char() {
    let mut app = app_for("aQ", 0);
    app.update_hints();
    assert_eq!(hinted_keys(app.keyboard()), vec![(2, 1)]);
    assert!(hinted_modifiers(app.keyboard()).is_empty());
    app.handle_key_event(press('a'));
    app.update_hints();
    assert_eq!(hinted_keys(app.keyboard()), vec![(1, 1)]);
    assert_eq!(hinted_modifiers(app.keyboard()), vec![Modifier::Shift]);
}

#[test]
fn hidden_keyboard_keeps_its_hints() {
    let mut app = app_for("ab", 0);
    app.update_hints();
    app.handle_key_event(KeyInput::Char { c: 'h', control: true });
    app.handle_key_event(press('a'));
    app.update_hints();
    assert_eq!(hinted_keys(app.keyboard()), vec![(2, 1)]);
}

#[test]
fn keyboard_update_on_numeric_layer() {
    let mut k = Keyboard::from_layout(Layout::three_l());
    k.update('1');
    assert_eq!(hinted_keys(&k), vec![(0, 7)]);
    assert_eq!(hinted_modifiers(&k), vec![Modifier::Cur]);
    k.update('<');
    assert_eq!(hinted_keys(&k), vec![(0, 6)]);
    assert_eq!(hinted_modifiers(&k), vec![Modifier::Sym]);
    k.update('\u{21A9}');
    assert!(hinted_keys(&k).is_empty());
    assert!(hinted_modifiers(&k).is_empty());
}

#[test]
fn keyboard_labels_and_layout_cycle() {
    let mut k = Keyboard::default();
    assert_eq!(k.layout().kind(), LayoutKind::Qwerty);
    assert_eq!(k.keys()[1][1], Key { theme: Theme::Base, label: Some('q') });
    assert_eq!(k.keys()[1][0].label, None);
    k.update('q');
    k.next_layout();
    assert_eq!(k.layout().kind(), LayoutKind::Dvorak);
    assert!(hinted_keys(&k).is_empty());
    k.next_layout();
    assert_eq!(k.layout().kind(), LayoutKind::ThreeL);
    assert_eq!(k.keys().len(), 3);
    k.next_layout();
    assert_eq!(k.layout().kind(), LayoutKind::Qwerty);
    k.set_3l();
    assert_eq!(k.layout().kind(), LayoutKind::ThreeL);
    k.toggle_draw();
    assert!(!k.draw());
}

#[test]
fn theme_palettes() {
    let base = Theme::Base.palette();
    assert_eq!(base.background, Rgb { r: 48, g: 72, b: 144 });
    assert_eq!(base.text, Rgb { r: 16, g: 24, b: 48 });
    let hint = Theme::Hint.palette();
    assert_eq!(hint.highlight, Rgb { r: 64, g: 192, b: 64 });
    assert_eq!(hint.shadow, Rgb { r: 32, g: 96, b: 32 });
}

#[test]
fn odd_cell_sizes() {
    assert_eq!(odd_size(30, 4), 7);
    assert_eq!(odd_size(32, 4), 7);
    assert_eq!(odd_size(3, 4), 0);
    assert_eq!(odd_size(9, 3), 3);
    assert_eq!(odd_size(u16::MAX, 1), u16::MAX);
}

#[test]
fn story_window_follows_progress() {
    let app = app_for("abcdef", 3);
    let w = app.story_window(6);
    assert_eq!(w.prefix, vec!['b', 'c']);
    assert_eq!(w.current, vec!['d']);
    assert_eq!(w.suffix, vec!['e', 'f']);
}
