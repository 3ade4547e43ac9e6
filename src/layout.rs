use vstd::prelude::*;

verus! {

/// The placeholder that marks a grid cell holding no key.
pub const EMPTY_CELL: char = '\0';

/// Column offset of the numeric layer within the base layer's coordinates.
pub const NUMERIC_COLUMN_OFFSET: u8 = 6;

/// The modifier that must be held (or layer that must be active) to produce a character.
#[derive(Clone, Copy, Debug, PartialEq, Eq, Structural)]
pub enum Modifier {
    Shift,
    Sym,
    Cur,
}

/// Where a character is typed: a cell of the base grid and an optional modifier.
#[derive(Clone, Copy, Debug, PartialEq, Eq, Structural)]
pub struct Location {
    pub row: u8,
    pub col: u8,
    pub modifier: Option<Modifier>,
}

/// What the shifted base layer produces from an unshifted character.
pub open spec fn shift_of(c: char) -> char {
    if c == '`' { '~' }
    else if c == '1' { '!' }
    else if c == '2' { '@' }
    else if c == '3' { '#' }
    else if c == '4' { '$' }
    else if c == '5' { '%' }
    else if c == '6' { '^' }
    else if c == '7' { '&' }
    else if c == '8' { '*' }
    else if c == '9' { '(' }
    else if c == '0' { ')' }
    else if c == '[' { '{' }
    else if c == ']' { '}' }
    else if c == '\'' { '"' }
    else if c == ',' { '<' }
    else if c == '.' { '>' }
    else if c == '/' { '?' }
    else if c == '=' { '+' }
    else if c == '\\' { '|' }
    else if c == '-' { '_' }
    else if c == ';' { ':' }
    else if 'a' <= c && c <= 'z' { ((c as u32) - 32) as char }
    else { c }
}

/// Whether a cell yields `c`, read verbatim or through shift.
pub open spec fn cell_matches(cell: char, c: char, shifted: bool) -> bool {
    if shifted { shift_of(cell) == c } else { cell == c }
}

pub open spec fn in_grid(g: Seq<Seq<char>>, r: int, k: int) -> bool {
    0 <= r < g.len() && 0 <= k < g[r].len()
}

/// Some cell of the grid yields `c`.
pub open spec fn grid_has(g: Seq<Seq<char>>, c: char, shifted: bool) -> bool {
    exists|r: int, k: int| in_grid(g, r, k) && #[trigger] cell_matches(g[r][k], c, shifted)
}

/// Cell (r, k) yields `c` and no cell before it in row-major order does.
pub open spec fn is_first_match(g: Seq<Seq<char>>, c: char, shifted: bool, r: int, k: int) -> bool {
    &&& in_grid(g, r, k)
    &&& cell_matches(g[r][k], c, shifted)
    &&& forall|r2: int, k2: int|
        in_grid(g, r2, k2) && (r2 < r || (r2 == r && k2 < k))
            ==> !#[trigger] cell_matches(g[r2][k2], c, shifted)
}

/// The first cell, row-major, that yields `c` (meaningful when `grid_has`).
pub open spec fn first_cell(g: Seq<Seq<char>>, c: char, shifted: bool) -> (int, int) {
    choose|p: (int, int)| is_first_match(g, c, shifted, p.0, p.1)
}


/// Every first match of a grid is the same cell.
pub proof fn lemma_first_match_unique(g: Seq<Seq<char>>, c: char, shifted: bool, r: int, k: int)
    requires
        is_first_match(g, c, shifted, r, k),
    ensures
        first_cell(g, c, shifted) == (r, k),
{
    assert(is_first_match(g, c, shifted, (r, k).0, (r, k).1));
    let p = first_cell(g, c, shifted);
    assert(is_first_match(g, c, shifted, p.0, p.1));
    if p.0 < r || (p.0 == r && p.1 < k) {
        assert(cell_matches(g[p.0][p.1], c, shifted));
    } else if r < p.0 || (r == p.0 && k < p.1) {
        assert(cell_matches(g[r][k], c, shifted));
    }
}

proof fn lemma_first_in_row(row: Seq<char>, c: char, shifted: bool, k: int) -> (m: int)
    requires
        0 <= k < row.len(),
        cell_matches(row[k], c, shifted),
    ensures
        0 <= m <= k,
        cell_matches(row[m], c, shifted),
        forall|j: int| 0 <= j < m ==> !#[trigger] cell_matches(row[j], c, shifted),
    decreases k,
{
    if exists|j: int| 0 <= j < k && #[trigger] cell_matches(row[j], c, shifted) {
        let j = choose|j: int| 0 <= j < k && #[trigger] cell_matches(row[j], c, shifted);
        lemma_first_in_row(row, c, shifted, j)
    } else {
        k
    }
}

proof fn lemma_first_row(g: Seq<Seq<char>>, c: char, shifted: bool, r: int, k: int) -> (m: int)
    requires
        in_grid(g, r, k),
        cell_matches(g[r][k], c, shifted),
    ensures
        0 <= m <= r,
        exists|k2: int| 0 <= k2 < g[m].len() && #[trigger] cell_matches(g[m][k2], c, shifted),
        forall|r2: int, k2: int|
            0 <= r2 < m && in_grid(g, r2, k2) ==> !#[trigger] cell_matches(g[r2][k2], c, shifted),
    decreases r,
{
    if exists|r2: int, k2: int| 0 <= r2 < r && in_grid(g, r2, k2) && #[trigger] cell_matches(g[r2][k2], c, shifted) {
        let (r2, k2) = choose|r2: int, k2: int|
            0 <= r2 < r && in_grid(g, r2, k2) && #[trigger] cell_matches(g[r2][k2], c, shifted);
        lemma_first_row(g, c, shifted, r2, k2)
    } else {
        r
    }
}

/// A grid that yields `c` somewhere has a first cell that does.
pub proof fn lemma_first_match_exists(g: Seq<Seq<char>>, c: char, shifted: bool)
    requires
        grid_has(g, c, shifted),
    ensures
        is_first_match(g, c, shifted, first_cell(g, c, shifted).0, first_cell(g, c, shifted).1),
{
    let (r, k) = choose|r: int, k: int| in_grid(g, r, k) && #[trigger] cell_matches(g[r][k], c, shifted);
    let m = lemma_first_row(g, c, shifted, r, k);
    let k1 = choose|k2: int| 0 <= k2 < g[m].len() && #[trigger] cell_matches(g[m][k2], c, shifted);
    let j = lemma_first_in_row(g[m], c, shifted, k1);
    assert(is_first_match(g, c, shifted, m, j));
    lemma_first_match_unique(g, c, shifted, m, j);
}


pub open spec fn name_of(kind: LayoutKind) -> Seq<char> {
    match kind {
        LayoutKind::Qwerty => "QWERTY"@,
        LayoutKind::Dvorak => "Dvorak"@,
        LayoutKind::ThreeL => "3l"@,
    }
}

/// The three built-in layouts, in the order in which they are cycled.
#[derive(Clone, Copy, Debug, PartialEq, Eq, Structural)]
pub enum LayoutKind {
    Qwerty,
    Dvorak,
    ThreeL,
}

impl LayoutKind {
    pub open spec fn next_spec(self) -> LayoutKind {
        match self {
            LayoutKind::Qwerty => LayoutKind::Dvorak,
            LayoutKind::Dvorak => LayoutKind::ThreeL,
            LayoutKind::ThreeL => LayoutKind::Qwerty,
        }
    }

    /// The layout that follows this one in the cycle.
    pub fn next(self) -> (r: LayoutKind)
        ensures
            r == self.next_spec(),
    {
        match self {
            LayoutKind::Qwerty => LayoutKind::Dvorak,
            LayoutKind::Dvorak => LayoutKind::ThreeL,
            LayoutKind::ThreeL => LayoutKind::Qwerty,
        }
    }
}

/// The grids of a layout: base, symbol and numeric layers.
pub struct LayoutView {
    pub kind: LayoutKind,
    pub base: Seq<Seq<char>>,
    pub sym: Seq<Seq<char>>,
    pub cur: Seq<Seq<char>>,
}

/// A grid whose rows and columns (numeric offset included) fit in a byte.
pub open spec fn grid_fits(g: Seq<Seq<char>>) -> bool {
    &&& g.len() <= 255
    &&& forall|r: int| 0 <= r < g.len() ==> #[trigger] g[r].len() <= 249
}

pub open spec fn grid_view(g: &Vec<Vec<char>>) -> Seq<Seq<char>> {
    Seq::new(g@.len(), |i: int| g@[i]@)
}

/// A keyboard layout: a base grid plus optional symbol and numeric grids.
pub struct Layout {
    kind: LayoutKind,
    base: Vec<Vec<char>>,
    sym: Vec<Vec<char>>,
    cur: Vec<Vec<char>>,
}

impl View for Layout {
    type V = LayoutView;

    closed spec fn view(&self) -> LayoutView {
        LayoutView {
            kind: self.kind,
            base: grid_view(&self.base),
            sym: grid_view(&self.sym),
            cur: grid_view(&self.cur),
        }
    }
}

impl LayoutView {
    pub open spec fn wf(self) -> bool {
        grid_fits(self.base) && grid_fits(self.sym) && grid_fits(self.cur)
    }

    /// The cell that a location names, on the grid of its modifier.
    pub open spec fn cell_at(self, loc: Location) -> char {
        match loc.modifier {
            Some(Modifier::Sym) => self.sym[loc.row as int][loc.col as int],
            Some(Modifier::Cur) => self.cur[loc.row as int][loc.col - NUMERIC_COLUMN_OFFSET],
            _ => self.base[loc.row as int][loc.col as int],
        }
    }

    /// The location names a cell that exists on the grid of its modifier.
    pub open spec fn indexes(self, loc: Location) -> bool {
        match loc.modifier {
            Some(Modifier::Sym) => in_grid(self.sym, loc.row as int, loc.col as int),
            Some(Modifier::Cur) => in_grid(self.cur, loc.row as int, loc.col - NUMERIC_COLUMN_OFFSET),
            _ => in_grid(self.base, loc.row as int, loc.col as int),
        }
    }

    /// Where `c` is typed: base layer verbatim, then symbol layer, then
    /// numeric layer (shifted right), then the shifted base layer.
    pub open spec fn locate(self, c: char) -> Option<Location> {
        if c == EMPTY_CELL {
            None
        } else if grid_has(self.base, c, false) {
            let p = first_cell(self.base, c, false);
            Some(Location { row: p.0 as u8, col: p.1 as u8, modifier: None })
        } else if grid_has(self.sym, c, false) {
            let p = first_cell(self.sym, c, false);
            Some(Location { row: p.0 as u8, col: p.1 as u8, modifier: Some(Modifier::Sym) })
        } else if grid_has(self.cur, c, false) {
            let p = first_cell(self.cur, c, false);
            Some(Location { row: p.0 as u8, col: (p.1 + NUMERIC_COLUMN_OFFSET) as u8, modifier: Some(Modifier::Cur) })
        } else if grid_has(self.base, c, true) {
            let p = first_cell(self.base, c, true);
            Some(Location { row: p.0 as u8, col: p.1 as u8, modifier: Some(Modifier::Shift) })
        } else {
            None
        }
    }
}

/// Cell (r, k) comes before cell (r2, k2) in row-major order.
pub open spec fn before(r: int, k: int, r2: int, k2: int) -> bool {
    r < r2 || (r == r2 && k < k2)
}

/// Every location the locator returns names an existing cell that yields
/// the character: verbatim, or through shift for the shift modifier.
pub proof fn lemma_locate_sound(v: LayoutView, c: char)
    requires
        v.wf(),
    ensures
        v.locate(c) matches Some(loc) ==> {
            &&& v.indexes(loc)
            &&& if loc.modifier == Some(Modifier::Shift) {
                shift_of(v.cell_at(loc)) == c
            } else {
                v.cell_at(loc) == c
            }
        },
{
    if c == EMPTY_CELL {
    } else if grid_has(v.base, c, false) {
        lemma_first_match_exists(v.base, c, false);
        let p = first_cell(v.base, c, false);
        assert(v.base[p.0].len() <= 249);
    } else if grid_has(v.sym, c, false) {
        lemma_first_match_exists(v.sym, c, false);
        let p = first_cell(v.sym, c, false);
        assert(v.sym[p.0].len() <= 249);
    } else if grid_has(v.cur, c, false) {
        lemma_first_match_exists(v.cur, c, false);
        let p = first_cell(v.cur, c, false);
        assert(v.cur[p.0].len() <= 249);
    } else if grid_has(v.base, c, true) {
        lemma_first_match_exists(v.base, c, true);
        let p = first_cell(v.base, c, true);
        assert(v.base[p.0].len() <= 249);
    }
}

/// A character held verbatim by the base, symbol or numeric grid is located
/// on a cell of that kind of reading (no shift), and re-indexing the grid
/// of the returned modifier (less the numeric offset) gives the character back.
pub proof fn lemma_locate_finds_held(v: LayoutView, c: char)
    requires
        v.wf(),
        c != EMPTY_CELL,
        grid_has(v.base, c, false) || grid_has(v.sym, c, false) || grid_has(v.cur, c, false),
    ensures
        v.locate(c) matches Some(loc) && loc.modifier != Some(Modifier::Shift) && v.indexes(loc)
            && v.cell_at(loc) == c,
{
    lemma_locate_sound(v, c);
}

/// The locator never names a cell that holds the empty-cell marker.
pub proof fn lemma_locate_avoids_empty(v: LayoutView, c: char)
    requires
        v.wf(),
    ensures
        v.locate(c) matches Some(loc) ==> v.indexes(loc) && v.cell_at(loc) != EMPTY_CELL,
{
    lemma_locate_sound(v, c);
}

/// For a base character `c` whose shifted form is held verbatim by no grid,
/// and onto whose shifted form no base cell before `c` shifts, the shifted
/// form is located with shift on the very key where `c` is located.
pub proof fn lemma_shift_same_key(v: LayoutView, c: char)
    requires
        v.wf(),
        c != EMPTY_CELL,
        grid_has(v.base, c, false),
        !grid_has(v.base, shift_of(c), false),
        !grid_has(v.sym, shift_of(c), false),
        !grid_has(v.cur, shift_of(c), false),
        forall|r: int, k: int|
            in_grid(v.base, r, k) && before(r, k, first_cell(v.base, c, false).0, first_cell(v.base, c, false).1)
                ==> shift_of(#[trigger] v.base[r][k]) != shift_of(c),
    ensures
        v.locate(c) matches Some(a) && a.modifier is None,
        v.locate(shift_of(c)) matches Some(b) && b.modifier == Some(Modifier::Shift),
        v.locate(c)->0.row == v.locate(shift_of(c))->0.row,
        v.locate(c)->0.col == v.locate(shift_of(c))->0.col,
{
    lemma_first_match_exists(v.base, c, false);
    let p = first_cell(v.base, c, false);
    let sc = shift_of(c);
    assert forall|r2: int, k2: int|
        in_grid(v.base, r2, k2) && (r2 < p.0 || (r2 == p.0 && k2 < p.1))
            implies !#[trigger] cell_matches(v.base[r2][k2], sc, true) by {
        assert(before(r2, k2, p.0, p.1));
    }
    assert(is_first_match(v.base, sc, true, p.0, p.1));
    lemma_first_match_unique(v.base, sc, true, p.0, p.1);
    assert(grid_has(v.base, sc, true)) by {
        assert(cell_matches(v.base[p.0][p.1], sc, true));
    }
}

/// The QWERTY base grid.
pub open spec fn qwerty_base() -> Seq<Seq<char>> {
    seq![
        seq!['`', '1', '2', '3', '4', '5', '6', '7', '8', '9', '0', '[', ']', EMPTY_CELL],
        seq![EMPTY_CELL, 'q', 'w', 'e', 'r', 't', 'y', 'u', 'i', 'o', 'p', '[', ']', '\\'],
        seq![EMPTY_CELL, 'a', 's', 'd', 'f', 'g', 'h', 'j', 'k', 'l', ';', '\'', EMPTY_CELL, EMPTY_CELL],
        seq![EMPTY_CELL, 'z', 'x', 'c', 'v', 'b', 'n', 'm', ',', '.', '/', EMPTY_CELL, EMPTY_CELL, EMPTY_CELL],
    ]
}

/// The Dvorak base grid.
pub open spec fn dvorak_base() -> Seq<Seq<char>> {
    seq![
        seq!['`', '1', '2', '3', '4', '5', '6', '7', '8', '9', '0', '[', ']', EMPTY_CELL],
        seq![EMPTY_CELL, '\'', ',', '.', 'p', 'y', 'f', 'g', 'c', 'r', '/', '=', '\\', EMPTY_CELL],
        seq![EMPTY_CELL, 'a', 'o', 'e', 'u', 'i', 'd', 'h', 't', 'n', 's', '-', EMPTY_CELL, EMPTY_CELL],
        seq![EMPTY_CELL, ';', 'q', 'j', 'k', 'x', 'b', 'm', 'w', 'v', 'z', EMPTY_CELL, EMPTY_CELL, EMPTY_CELL],
    ]
}

/// The three-layer layout's base grid.
pub open spec fn three_l_base() -> Seq<Seq<char>> {
    seq![
        seq!['q', 'f', 'u', 'y', 'z', 'x', 'k', 'c', 'w', 'b'],
        seq!['o', 'h', 'e', 'a', 'i', 'd', 'r', 't', 'n', 's'],
        seq![',', 'm', '.', 'j', ';', 'g', 'l', 'p', 'v', EMPTY_CELL],
    ]
}

/// The three-layer layout's symbol grid.
pub open spec fn three_l_sym() -> Seq<Seq<char>> {
    seq![
        seq!['"', '_', '[', ']', '^', '!', '<', '>', '=', '&'],
        seq!['/', '-', '{', '}', '*', '?', '(', ')', '\'', ':'],
        seq!['#', '$', '|', '~', '`', '+', '%', '\\', '@'],
    ]
}

/// The three-layer layout's numeric grid.
pub open spec fn three_l_cur() -> Seq<Seq<char>> {
    seq![
        seq![EMPTY_CELL, '1', '2', '3'],
        seq![EMPTY_CELL, '4', '5', '6'],
        seq!['0', '7', '8', '9'],
    ]
}

/// The grids of the built-in layout of the given kind.
pub open spec fn builtin(kind: LayoutKind) -> LayoutView {
    match kind {
        LayoutKind::Qwerty => LayoutView { kind, base: qwerty_base(), sym: Seq::empty(), cur: Seq::empty() },
        LayoutKind::Dvorak => LayoutView { kind, base: dvorak_base(), sym: Seq::empty(), cur: Seq::empty() },
        LayoutKind::ThreeL => LayoutView { kind, base: three_l_base(), sym: three_l_sym(), cur: three_l_cur() },
    }
}

/// First cell of the grid, row-major, that yields `c`.
fn find_first(g: &Vec<Vec<char>>, c: char, shifted: bool) -> (r: Option<(usize, usize)>)
    ensures
        r is None <==> !grid_has(grid_view(g), c, shifted),
        r matches Some(p) ==> is_first_match(grid_view(g), c, shifted, p.0 as int, p.1 as int),
{
    let ghost gv = grid_view(g);
    let mut i: usize = 0;
    while i < g.len()
        invariant
            gv == grid_view(g),
            0 <= i <= g.len(),
            forall|r2: int, k2: int|
                0 <= r2 < i && in_grid(gv, r2, k2) ==> !#[trigger] cell_matches(gv[r2][k2], c, shifted),
        decreases g.len() - i,
    {
        let row = &g[i];
        let mut j: usize = 0;
        while j < row.len()
            invariant
                gv == grid_view(g),
                0 <= i < g.len(),
                row@ == gv[i as int],
                0 <= j <= row.len(),
                forall|r2: int, k2: int|
                    0 <= r2 < i && in_grid(gv, r2, k2) ==> !#[trigger] cell_matches(gv[r2][k2], c, shifted),
                forall|k2: int| 0 <= k2 < j ==> !#[trigger] cell_matches(gv[i as int][k2], c, shifted),
            decreases row.len() - j,
        {
            let cell = row[j];
            let hit = if shifted { Layout::shift(cell) == c } else { cell == c };
            if hit {
                proof {
                    assert(in_grid(gv, i as int, j as int));
                    assert(cell_matches(gv[i as int][j as int], c, shifted));
                }
                return Some((i, j));
            }
            j = j + 1;
        }
        i = i + 1;
    }
    None
}

impl Layout {
    fn from_grids(kind: LayoutKind, base: Vec<Vec<char>>, sym: Vec<Vec<char>>, cur: Vec<Vec<char>>) -> (r: Layout)
        ensures
            r@ == (LayoutView { kind, base: grid_view(&base), sym: grid_view(&sym), cur: grid_view(&cur) }),
    {
        Layout { kind, base, sym, cur }
    }

    /// The QWERTY layout: a base layer only.
    pub fn qwerty() -> (r: Layout)
        ensures
            r@.wf(),
            r@ == builtin(LayoutKind::Qwerty),
    {
        let base: Vec<Vec<char>> = vec![
            vec!['`', '1', '2', '3', '4', '5', '6', '7', '8', '9', '0', '[', ']', EMPTY_CELL],
            vec![EMPTY_CELL, 'q', 'w', 'e', 'r', 't', 'y', 'u', 'i', 'o', 'p', '[', ']', '\\'],
            vec![EMPTY_CELL, 'a', 's', 'd', 'f', 'g', 'h', 'j', 'k', 'l', ';', '\'', EMPTY_CELL, EMPTY_CELL],
            vec![EMPTY_CELL, 'z', 'x', 'c', 'v', 'b', 'n', 'm', ',', '.', '/', EMPTY_CELL, EMPTY_CELL, EMPTY_CELL],
        ];
        let r = Layout::from_grids(LayoutKind::Qwerty, base, vec![], vec![]);
        assert(r@.base =~~= qwerty_base());
        assert(r@.sym =~~= builtin(LayoutKind::Qwerty).sym);
        assert(r@.cur =~~= builtin(LayoutKind::Qwerty).cur);
        r
    }

    /// The Dvorak layout: a base layer only.
    pub fn dvorak() -> (r: Layout)
        ensures
            r@.wf(),
            r@ == builtin(LayoutKind::Dvorak),
    {
        let base: Vec<Vec<char>> = vec![
            vec!['`', '1', '2', '3', '4', '5', '6', '7', '8', '9', '0', '[', ']', EMPTY_CELL],
            vec![EMPTY_CELL, '\'', ',', '.', 'p', 'y', 'f', 'g', 'c', 'r', '/', '=', '\\', EMPTY_CELL],
            vec![EMPTY_CELL, 'a', 'o', 'e', 'u', 'i', 'd', 'h', 't', 'n', 's', '-', EMPTY_CELL, EMPTY_CELL],
            vec![EMPTY_CELL, ';', 'q', 'j', 'k', 'x', 'b', 'm', 'w', 'v', 'z', EMPTY_CELL, EMPTY_CELL, EMPTY_CELL],
        ];
        let r = Layout::from_grids(LayoutKind::Dvorak, base, vec![], vec![]);
        assert(r@.base =~~= dvorak_base());
        assert(r@.sym =~~= builtin(LayoutKind::Dvorak).sym);
        assert(r@.cur =~~= builtin(LayoutKind::Dvorak).cur);
        r
    }

    /// The three-layer layout: base, symbol and numeric layers.
    pub fn three_l() -> (r: Layout)
        ensures
            r@.wf(),
            r@ == builtin(LayoutKind::ThreeL),
    {
        let base: Vec<Vec<char>> = vec![
            vec!['q', 'f', 'u', 'y', 'z', 'x', 'k', 'c', 'w', 'b'],
            vec!['o', 'h', 'e', 'a', 'i', 'd', 'r', 't', 'n', 's'],
            vec![',', 'm', '.', 'j', ';', 'g', 'l', 'p', 'v', EMPTY_CELL],
        ];
        let sym: Vec<Vec<char>> = vec![
            vec!['"', '_', '[', ']', '^', '!', '<', '>', '=', '&'],
            vec!['/', '-', '{', '}', '*', '?', '(', ')', '\'', ':'],
            vec!['#', '$', '|', '~', '`', '+', '%', '\\', '@'],
        ];
        let cur: Vec<Vec<char>> = vec![
            vec![EMPTY_CELL, '1', '2', '3'],
            vec![EMPTY_CELL, '4', '5', '6'],
            vec!['0', '7', '8', '9'],
        ];
        let r = Layout::from_grids(LayoutKind::ThreeL, base, sym, cur);
        assert(r@.base =~~= three_l_base());
        assert(r@.sym =~~= three_l_sym());
        assert(r@.cur =~~= three_l_cur());
        r
    }

    /// The built-in layout of the given kind.
    pub fn of(kind: LayoutKind) -> (r: Layout)
        ensures
            r@.wf(),
            r@ == builtin(kind),
    {
        match kind {
            LayoutKind::Qwerty => Layout::qwerty(),
            LayoutKind::Dvorak => Layout::dvorak(),
            LayoutKind::ThreeL => Layout::three_l(),
        }
    }

    pub fn kind(&self) -> (r: LayoutKind)
        ensures
            r == self@.kind,
    {
        self.kind
    }

    /// The display name of the layout.
    pub fn name(&self) -> (r: &'static str)
        ensures
            r@ == name_of(self@.kind),
    {
        match self.kind {
            LayoutKind::Qwerty => "QWERTY",
            LayoutKind::Dvorak => "Dvorak",
            LayoutKind::ThreeL => "3l",
        }
    }

    /// The base grid.
    pub fn base(&self) -> (r: &Vec<Vec<char>>)
        ensures
            grid_view(r) == self@.base,
    {
        &self.base
    }

    /// The symbol grid (empty for a layout without one).
    pub fn sym(&self) -> (r: &Vec<Vec<char>>)
        ensures
            grid_view(r) == self@.sym,
    {
        &self.sym
    }

    /// The numeric grid (empty for a layout without one).
    pub fn cur(&self) -> (r: &Vec<Vec<char>>)
        ensures
            grid_view(r) == self@.cur,
    {
        &self.cur
    }

    /// The number of rows of the base grid.
    pub fn rows(&self) -> (r: usize)
        ensures
            r == self@.base.len(),
    {
        self.base.len()
    }

    /// The length of the longest row of the base grid (0 for no rows).
    pub fn max_columns(&self) -> (r: usize)
        ensures
            forall|i: int| 0 <= i < self@.base.len() ==> #[trigger] self@.base[i].len() <= r,
            self@.base.len() == 0 ==> r == 0,
            self@.base.len() > 0 ==> exists|i: int| 0 <= i < self@.base.len() && #[trigger] self@.base[i].len() == r,
    {
        let ghost g = self@.base;
        let mut m: usize = 0;
        let mut i: usize = 0;
        while i < self.base.len()
            invariant
                g == grid_view(&self.base),
                0 <= i <= self.base.len(),
                forall|j: int| 0 <= j < i ==> #[trigger] g[j].len() <= m,
                i == 0 ==> m == 0,
                i > 0 ==> exists|j: int| 0 <= j < i && #[trigger] g[j].len() == m,
            decreases self.base.len() - i,
        {
            let n = self.base[i].len();
            if n > m {
                m = n;
            }
            proof {
                assert(g[i as int].len() == n);
            }
            i = i + 1;
        }
        m
    }

    /// The character produced by a base-layer key held with shift.
    pub fn shift(c: char) -> (r: char)
        ensures
            r == shift_of(c),
    {
        match c {
            '`' => '~',
            '1' => '!',
            '2' => '@',
            '3' => '#',
            '4' => '$',
            '5' => '%',
            '6' => '^',
            '7' => '&',
            '8' => '*',
            '9' => '(',
            '0' => ')',
            '[' => '{',
            ']' => '}',
            '\'' => '"',
            ',' => '<',
            '.' => '>',
            '/' => '?',
            '=' => '+',
            '\\' => '|',
            '-' => '_',
            ';' => ':',
            c => if 'a' <= c && c <= 'z' {
                ((c as u32 - 32) as u8) as char
            } else {
                c
            },
        }
    }

    /// The key, and modifier, that produce `c`; `None` when no grid yields it.
    pub fn location(&self, c: char) -> (r: Option<Location>)
        requires
            self@.wf(),
        ensures
            r == self@.locate(c),
    {
        if c == EMPTY_CELL {
            return None;
        }
        proof {
            assert(self@.base == grid_view(&self.base));
        }
        if let Some((r, k)) = find_first(&self.base, c, false) {
            proof { lemma_first_match_unique(self@.base, c, false, r as int, k as int); }
            return Some(Location { row: r as u8, col: k as u8, modifier: None });
        }
        if let Some((r, k)) = find_first(&self.sym, c, false) {
            proof { lemma_first_match_unique(self@.sym, c, false, r as int, k as int); }
            return Some(Location { row: r as u8, col: k as u8, modifier: Some(Modifier::Sym) });
        }
        if let Some((r, k)) = find_first(&self.cur, c, false) {
            proof { lemma_first_match_unique(self@.cur, c, false, r as int, k as int); }
            return Some(Location { row: r as u8, col: k as u8 + NUMERIC_COLUMN_OFFSET, modifier: Some(Modifier::Cur) });
        }
        if let Some((r, k)) = find_first(&self.base, c, true) {
            proof { lemma_first_match_unique(self@.base, c, true, r as int, k as int); }
            return Some(Location { row: r as u8, col: k as u8, modifier: Some(Modifier::Shift) });
        }
        None
    }
}

} // verus!
