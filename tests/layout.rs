use typing_tutor::layout::{Layout, LayoutKind, Location, Modifier, EMPTY_CELL, NUMERIC_COLUMN_OFFSET};

fn loc(row: u8, col: u8, modifier: Option<Modifier>) -> Option<Location> {
    Some(Location { row, col, modifier })
}

fn all_layouts() -> Vec<Layout> {
    vec![Layout::qwerty(), Layout::dvorak(), Layout::three_l()]
}

fn cell_at(layout: &Layout, l: &Location) -> char {
    match l.modifier {
        Some(Modifier::Sym) => layout.sym()[l.row as usize][l.col as usize],
        Some(Modifier::Cur) => layout.cur()[l.row as usize][(l.col - NUMERIC_COLUMN_OFFSET) as usize],
        _ => layout.base()[l.row as usize][l.col as usize],
    }
}

#[test]
fn shift_uses_the_symbol_table() {
    assert_eq!(Layout::shift('1'), '!');
    assert_eq!(Layout::shift('`'), '~');
    assert_eq!(Layout::shift(';'), ':');
    assert_eq!(Layout::shift('\''), '"');
    assert_eq!(Layout::shift('\\'), '|');
    assert_eq!(Layout::shift('-'), '_');
}

#[test]
fn shift_uppercases_letters_only() {
    assert_eq!(Layout::shift('a'), 'A');
    assert_eq!(Layout::shift('z'), 'Z');
    assert_eq!(Layout::shift('Q'), 'Q');
    assert_eq!(Layout::shift('\u{e9}'), '\u{e9}');
    assert_eq!(Layout::shift(EMPTY_CELL), EMPTY_CELL);
}

#[test]
fn qwerty_base_letters_need_no_modifier() {
    let l = Layout::qwerty();
    assert_eq!(l.location('q'), loc(1, 1, None));
    assert_eq!(l.location('a'), loc(2, 1, None));
    assert_eq!(l.location('/'), loc(3, 10, None));
}

#[test]
fn qwerty_capitals_and_symbols_need_shift() {
    let l = Layout::qwerty();
    assert_eq!(l.location('Q'), loc(1, 1, Some(Modifier::Shift)));
    assert_eq!(l.location('!'), loc(0, 1, Some(Modifier::Shift)));
    assert_eq!(l.location(':'), loc(2, 10, Some(Modifier::Shift)));
}

#[test]
fn repeated_key_resolves_to_first_cell() {
    let l = Layout::qwerty();
    assert_eq!(l.location('['), loc(0, 11, None));
    assert_eq!(l.location('{'), loc(0, 11, Some(Modifier::Shift)));
}

#[test]
fn empty_marker_and_unknown_chars_are_not_found() {
    for l in all_layouts() {
        assert_eq!(l.location(EMPTY_CELL), None);
        assert_eq!(l.location('\u{21A9}'), None);
        assert_eq!(l.location('\t'), None);
        assert_eq!(l.location('\u{e9}'), None);
    }
}

#[test]
fn three_layer_digit_is_on_numeric_layer_with_offset() {
    let l = Layout::three_l();
    assert_eq!(l.location('1'), loc(0, 7, Some(Modifier::Cur)));
    assert_eq!(l.location('0'), loc(2, 6, Some(Modifier::Cur)));
    assert_eq!(l.location('9'), loc(2, 9, Some(Modifier::Cur)));
}

#[test]
fn three_layer_symbol_beats_shift() {
    let l = Layout::three_l();
    assert_eq!(l.location('<'), loc(0, 6, Some(Modifier::Sym)));
    assert_eq!(l.location(':'), loc(1, 9, Some(Modifier::Sym)));
    assert_eq!(l.location('"'), loc(0, 0, Some(Modifier::Sym)));
    assert_eq!(l.location(','), loc(2, 0, None));
    assert_eq!(l.location('Q'), loc(0, 0, Some(Modifier::Shift)));
}

#[test]
fn every_held_char_reindexes_to_itself() {
    for l in all_layouts() {
        for grid in [l.base(), l.sym(), l.cur()] {
            for row in grid.iter() {
                for &c in row.iter() {
                    if c == EMPTY_CELL {
                        continue;
                    }
                    let found = l.location(c).expect("held character is located");
                    assert_ne!(found.modifier, Some(Modifier::Shift));
                    assert_eq!(cell_at(&l, &found), c);
                }
            }
        }
    }
}

#[test]
fn shifted_base_char_is_on_the_same_key() {
    for l in [Layout::qwerty(), Layout::dvorak()] {
        for row in l.base().iter() {
            for &c in row.iter() {
                if c == EMPTY_CELL {
                    continue;
                }
                let plain = l.location(c).unwrap();
                let shifted = l.location(Layout::shift(c)).unwrap();
                assert_eq!(plain.modifier, None);
                assert_eq!(shifted.modifier, Some(Modifier::Shift));
                assert_eq!((plain.row, plain.col), (shifted.row, shifted.col));
            }
        }
    }
}

#[test]
fn located_cell_is_never_the_empty_marker() {
    for l in all_layouts() {
        for code in 0u32..0x3000 {
            if let Some(c) = char::from_u32(code) {
                if let Some(found) = l.location(c) {
                    assert_ne!(cell_at(&l, &found), EMPTY_CELL);
                }
            }
        }
    }
}

#[test]
fn layouts_cycle_in_order() {
    assert_eq!(LayoutKind::Qwerty.next(), LayoutKind::Dvorak);
    assert_eq!(LayoutKind::Dvorak.next(), LayoutKind::ThreeL);
    assert_eq!(LayoutKind::ThreeL.next(), LayoutKind::Qwerty);
}

#[test]
fn layouts_have_names_and_sizes() {
    let q = Layout::qwerty();
    assert_eq!(q.name(), "QWERTY");
    assert_eq!(q.kind(), LayoutKind::Qwerty);
    assert_eq!(q.rows(), 4);
    assert_eq!(q.max_columns(), 14);
    assert!(q.sym().is_empty() && q.cur().is_empty());
    assert_eq!(Layout::dvorak().name(), "Dvorak");
    let t = Layout::of(LayoutKind::ThreeL);
    assert_eq!(t.name(), "3l");
    assert_eq!(t.rows(), 3);
    assert_eq!(t.max_columns(), 10);
    assert_eq!(t.sym().len(), 3);
    assert_eq!(t.cur().len(), 3);
}
