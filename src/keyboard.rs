use vstd::prelude::*;
use crate::layout::{EMPTY_CELL, Layout, LayoutKind, LayoutView, Location, Modifier, builtin, grid_view};

verus! {

/// The look of a key: plain, or hinted as the one to press next.
#[derive(Clone, Copy, Debug, PartialEq, Eq, Structural)]
pub enum Theme {
    Base,
    Hint,
}

#[derive(Clone, Copy, Debug, PartialEq, Eq, Structural)]
pub struct Rgb {
    pub r: u8,
    pub g: u8,
    pub b: u8,
}

/// The colours a key is drawn with.
#[derive(Clone, Copy, Debug, PartialEq, Eq, Structural)]
pub struct Palette {
    pub text: Rgb,
    pub background: Rgb,
    pub highlight: Rgb,
    pub shadow: Rgb,
}

pub open spec fn rgb(r: u8, g: u8, b: u8) -> Rgb {
    Rgb { r, g, b }
}

impl Theme {
    pub open spec fn palette_spec(self) -> Palette {
        match self {
            Theme::Base => Palette {
                text: rgb(16, 24, 48),
                background: rgb(48, 72, 144),
                highlight: rgb(64, 96, 192),
                shadow: rgb(32, 48, 96),
            },
            Theme::Hint => Palette {
                text: rgb(16, 48, 16),
                background: rgb(48, 144, 48),
                highlight: rgb(64, 192, 64),
                shadow: rgb(32, 96, 32),
            },
        }
    }

    /// The colours of this theme: blues for a plain key, greens for a hinted one.
    pub fn palette(self) -> (r: Palette)
        ensures
            r == self.palette_spec(),
    {
        match self {
            Theme::Base => Palette {
                text: Rgb { r: 16, g: 24, b: 48 },
                background: Rgb { r: 48, g: 72, b: 144 },
                highlight: Rgb { r: 64, g: 96, b: 192 },
                shadow: Rgb { r: 32, g: 48, b: 96 },
            },
            Theme::Hint => Palette {
                text: Rgb { r: 16, g: 48, b: 16 },
                background: Rgb { r: 48, g: 144, b: 48 },
                highlight: Rgb { r: 64, g: 192, b: 64 },
                shadow: Rgb { r: 32, g: 96, b: 32 },
            },
        }
    }
}

/// One key of the on-screen grid: its look and its label (none on an empty cell).
#[derive(Clone, Copy, Debug, PartialEq, Eq, Structural)]
pub struct Key {
    pub theme: Theme,
    pub label: Option<char>,
}

pub open spec fn label_of(cell: char) -> Option<char> {
    if cell == EMPTY_CELL { None } else { Some(cell) }
}

/// The look of the key at (r, k) when `hint` is the location to press.
pub open spec fn key_theme(hint: Option<Location>, r: int, k: int) -> Theme {
    if hint matches Some(loc) && loc.row == r && loc.col == k { Theme::Hint } else { Theme::Base }
}

/// The look of a modifier indicator when `hint` is the location to press.
pub open spec fn modifier_theme(hint: Option<Location>, m: Modifier) -> Theme {
    if hint matches Some(loc) && loc.modifier == Some(m) { Theme::Hint } else { Theme::Base }
}

/// `n`, or the odd number just below it; 0 stays 0.
pub open spec fn odd_floor(n: int) -> int {
    if n % 2 == 1 || n == 0 { n } else { n - 1 }
}

/// The size of each of `count` equal cells in `available` units, made odd so
/// that a border fits in the gap.
pub fn odd_size(available: u16, count: usize) -> (r: u16)
    requires
        count > 0,
    ensures
        r as int == odd_floor(available as int / count as int),
{
    let n: usize = available as usize / count;
    if n % 2 == 0 && n > 0 {
        (n - 1) as u16
    } else {
        n as u16
    }
}

pub struct KeyboardView {
    pub layout: LayoutView,
    pub keys: Seq<Seq<Key>>,
    pub draw: bool,
    pub sym: Theme,
    pub cur: Theme,
    pub shift: Theme,
}

impl KeyboardView {
    /// One key per cell of the base grid, labelled with the cell.
    pub open spec fn wf(self) -> bool {
        &&& self.layout.wf()
        &&& self.keys.len() == self.layout.base.len()
        &&& forall|r: int| 0 <= r < self.keys.len() ==> #[trigger] self.keys[r].len() == self.layout.base[r].len()
        &&& forall|r: int, k: int| 0 <= r < self.keys.len() && 0 <= k < self.keys[r].len()
            ==> (#[trigger] self.keys[r][k]).label == label_of(self.layout.base[r][k])
    }

    /// Exactly the key and modifier at `hint` are hinted; all else is plain.
    pub open spec fn themed(self, hint: Option<Location>) -> bool {
        &&& forall|r: int, k: int| 0 <= r < self.keys.len() && 0 <= k < self.keys[r].len()
            ==> (#[trigger] self.keys[r][k]).theme == key_theme(hint, r, k)
        &&& self.sym == modifier_theme(hint, Modifier::Sym)
        &&& self.cur == modifier_theme(hint, Modifier::Cur)
        &&& self.shift == modifier_theme(hint, Modifier::Shift)
    }
}

/// The on-screen keyboard: the active layout, its keys with their looks, the
/// three modifier indicators, and whether it is shown.
pub struct Keyboard {
    layout: Layout,
    keys: Vec<Vec<Key>>,
    draw: bool,
    sym: Theme,
    cur: Theme,
    shift: Theme,
}

pub open spec fn keys_view(keys: &Vec<Vec<Key>>) -> Seq<Seq<Key>> {
    Seq::new(keys@.len(), |i: int| keys@[i]@)
}

impl View for Keyboard {
    type V = KeyboardView;

    closed spec fn view(&self) -> KeyboardView {
        KeyboardView {
            layout: self.layout@,
            keys: keys_view(&self.keys),
            draw: self.draw,
            sym: self.sym,
            cur: self.cur,
            shift: self.shift,
        }
    }
}

/// The keys of a layout's base grid, with exactly the key at `hint` hinted.
fn build_keys(layout: &Layout, hint: Option<Location>) -> (r: Vec<Vec<Key>>)
    requires
        layout@.wf(),
    ensures
        (KeyboardView {
            layout: layout@,
            keys: keys_view(&r),
            draw: true,
            sym: modifier_theme(hint, Modifier::Sym),
            cur: modifier_theme(hint, Modifier::Cur),
            shift: modifier_theme(hint, Modifier::Shift),
        }).wf(),
        forall|r2: int, k: int| 0 <= r2 < keys_view(&r).len() && 0 <= k < keys_view(&r)[r2].len()
            ==> (#[trigger] keys_view(&r)[r2][k]).theme == key_theme(hint, r2, k),
{
    let base = layout.base();
    let ghost g = grid_view(base);
    let mut keys: Vec<Vec<Key>> = Vec::new();
    let mut i: usize = 0;
    while i < base.len()
        invariant
            g == grid_view(base),
            g == layout@.base,
            0 <= i <= base.len(),
            keys@.len() == i,
            forall|r: int| 0 <= r < i ==> #[trigger] keys@[r]@.len() == g[r].len(),
            forall|r: int, k: int| 0 <= r < i && 0 <= k < g[r].len()
                ==> (#[trigger] keys@[r]@[k]).label == label_of(g[r][k])
                    && keys@[r]@[k].theme == key_theme(hint, r, k),
        decreases base.len() - i,
    {
        let row = &base[i];
        let mut row_keys: Vec<Key> = Vec::new();
        let mut j: usize = 0;
        while j < row.len()
            invariant
                g == grid_view(base),
                0 <= i < base.len(),
                row@ == g[i as int],
                0 <= j <= row.len(),
                row_keys@.len() == j,
                forall|k: int| 0 <= k < j
                    ==> (#[trigger] row_keys@[k]).label == label_of(g[i as int][k])
                        && row_keys@[k].theme == key_theme(hint, i as int, k),
            decreases row.len() - j,
        {
            let cell = row[j];
            let label = if cell == EMPTY_CELL { None } else { Some(cell) };
            let hinted = match hint {
                Some(loc) => loc.row as usize == i && loc.col as usize == j,
                None => false,
            };
            let theme = if hinted { Theme::Hint } else { Theme::Base };
            row_keys.push(Key { theme, label });
            j = j + 1;
        }
        keys.push(row_keys);
        i = i + 1;
    }
    keys
}

fn modifier_look(hint: Option<Location>, m: Modifier) -> (r: Theme)
    ensures
        r == modifier_theme(hint, m),
{
    match hint {
        Some(loc) => if loc.modifier == Some(m) { Theme::Hint } else { Theme::Base },
        None => Theme::Base,
    }
}

impl Default for Keyboard {
    fn default() -> (r: Keyboard)
        ensures
            r@.wf(),
            r@.layout == builtin(LayoutKind::Qwerty),
            r@.draw,
            r@.themed(None),
    {
        Keyboard::from_layout(Layout::qwerty())
    }
}

impl Keyboard {
    /// A shown keyboard for the layout, with nothing hinted.
    pub fn from_layout(layout: Layout) -> (r: Keyboard)
        requires
            layout@.wf(),
        ensures
            r@.wf(),
            r@.layout == layout@,
            r@.draw,
            r@.themed(None),
    {
        let keys = build_keys(&layout, None);
        Keyboard { layout, keys, draw: true, sym: Theme::Base, cur: Theme::Base, shift: Theme::Base }
    }

    /// Shows the keyboard if hidden, hides it if shown.
    pub fn toggle_draw(&mut self)
        ensures
            final(self)@ == (KeyboardView { draw: !old(self)@.draw, ..old(self)@ }),
    {
        self.draw = !self.draw;
    }

    pub fn set_qwerty(&mut self)
        ensures
            final(self)@.wf(),
            final(self)@.layout == builtin(LayoutKind::Qwerty),
            final(self)@.draw,
            final(self)@.themed(None),
    {
        *self = Keyboard::from_layout(Layout::qwerty());
    }

    pub fn set_dvorak(&mut self)
        ensures
            final(self)@.wf(),
            final(self)@.layout == builtin(LayoutKind::Dvorak),
            final(self)@.draw,
            final(self)@.themed(None),
    {
        *self = Keyboard::from_layout(Layout::dvorak());
    }

    pub fn set_3l(&mut self)
        ensures
            final(self)@.wf(),
            final(self)@.layout == builtin(LayoutKind::ThreeL),
            final(self)@.draw,
            final(self)@.themed(None),
    {
        *self = Keyboard::from_layout(Layout::three_l());
    }

    /// Switches to the next layout of the cycle, rebuilding the keyboard.
    pub fn next_layout(&mut self)
        ensures
            final(self)@.wf(),
            final(self)@.layout == builtin(old(self)@.layout.kind.next_spec()),
            final(self)@.draw,
            final(self)@.themed(None),
    {
        match self.layout.kind() {
            LayoutKind::Qwerty => self.set_dvorak(),
            LayoutKind::Dvorak => self.set_3l(),
            LayoutKind::ThreeL => self.set_qwerty(),
        }
    }

    /// Hints the key and modifier that produce `c`, and nothing else.
    pub fn update(&mut self, c: char)
        requires
            old(self)@.wf(),
        ensures
            final(self)@.wf(),
            final(self)@.layout == old(self)@.layout,
            final(self)@.draw == old(self)@.draw,
            final(self)@.themed(old(self)@.layout.locate(c)),
    {
        let hint = self.layout.location(c);
        self.set_hint(hint);
    }

    /// Hints nothing.
    pub fn clear_hints(&mut self)
        requires
            old(self)@.wf(),
        ensures
            final(self)@.wf(),
            final(self)@.layout == old(self)@.layout,
            final(self)@.draw == old(self)@.draw,
            final(self)@.themed(None),
    {
        self.set_hint(None);
    }

    fn set_hint(&mut self, hint: Option<Location>)
        requires
            old(self)@.wf(),
        ensures
            final(self)@.wf(),
            final(self)@.layout == old(self)@.layout,
            final(self)@.draw == old(self)@.draw,
            final(self)@.themed(hint),
    {
        self.keys = build_keys(&self.layout, hint);
        self.sym = modifier_look(hint, Modifier::Sym);
        self.cur = modifier_look(hint, Modifier::Cur);
        self.shift = modifier_look(hint, Modifier::Shift);
    }

    pub fn layout(&self) -> (r: &Layout)
        ensures
            r@ == self@.layout,
    {
        &self.layout
    }

    pub fn keys(&self) -> (r: &Vec<Vec<Key>>)
        ensures
            keys_view(r) == self@.keys,
    {
        &self.keys
    }

    pub fn draw(&self) -> (r: bool)
        ensures
            r == self@.draw,
    {
        self.draw
    }

    /// The look of the indicator of modifier `m`.
    pub fn modifier(&self, m: Modifier) -> (r: Theme)
        ensures
            r == match m {
                Modifier::Sym => self@.sym,
                Modifier::Cur => self@.cur,
                Modifier::Shift => self@.shift,
            },
    {
        match m {
            Modifier::Sym => self.sym,
            Modifier::Cur => self.cur,
            Modifier::Shift => self.shift,
        }
    }
}

} // verus!
