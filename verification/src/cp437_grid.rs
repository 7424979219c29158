//! The fixed 100 × 28 character-cell screen.
//!
//! Every cell holds a CP437 byte and two palette roles. Each cell is drawn from the
//! IBM VGA 8 × 16 face at twice its size, a 16 × 32 pixel cell, so the grid covers
//! exactly 1600 × 896 pixels.
use vstd::prelude::*;

use crate::cp437::{cp437_byte, to_cp437};
use crate::text::{char_count, chars_of};
use crate::theme::{Color, Theme};

verus! {

pub const GRID_COLS: usize = 100;
pub const GRID_ROWS: usize = 28;
/// Width of a source glyph, in pixels.
pub const GLYPH_W: usize = 8;
/// Height of a source glyph, in pixels.
pub const GLYPH_H: usize = 16;
/// Width of a screen cell, in pixels.
pub const CELL_W: i32 = 16;
/// Height of a screen cell, in pixels.
pub const CELL_H: i32 = 32;
pub const GRID_PIXEL_WIDTH: i32 = 1600;
pub const GRID_PIXEL_HEIGHT: i32 = 896;

/// The number of cells of the grid.
pub open spec fn grid_len() -> int {
    GRID_COLS * GRID_ROWS
}

#[derive(Clone, Copy, PartialEq, Eq, Debug, Structural)]
pub struct Cell {
    pub ch: u8,
    pub fg: Color,
    pub bg: Color,
}

pub open spec fn blank_spec(bg: Color) -> Cell {
    Cell { ch: 0x20, fg: Color::White, bg }
}

impl Cell {
    /// A space on `bg`.
    pub fn blank(bg: Color) -> (c: Self)
        ensures
            c == blank_spec(bg),
    {
        Cell { ch: 0x20, fg: Color::White, bg }
    }
}

/// Column of the cell at index `i`.
pub open spec fn col_of(i: int) -> int {
    i % (GRID_COLS as int)
}

/// Row of the cell at index `i`.
pub open spec fn row_of(i: int) -> int {
    i / (GRID_COLS as int)
}

/// Index of the cell at column `x`, row `y` (rows are stored one after another).
pub open spec fn index_of(x: int, y: int) -> int {
    y * (GRID_COLS as int) + x
}

pub open spec fn in_grid(x: int, y: int) -> bool {
    0 <= x < GRID_COLS && 0 <= y < GRID_ROWS
}

/// The value of a coordinate after the conversion to `i32` that drawing applies
/// (two's-complement wrap-around).
pub open spec fn wrap(v: int) -> int {
    (v as i32) as int
}

/// The background that an optional background stands for.
pub open spec fn resolve(bg: Option<Color>, default_bg: Color) -> Color {
    match bg {
        Some(c) => c,
        None => default_bg,
    }
}

/// `cells` with the cell at (`x`, `y`) replaced by `c`; unchanged off the grid.
pub open spec fn set_spec(cells: Seq<Cell>, x: int, y: int, c: Cell) -> Seq<Cell> {
    if in_grid(x, y) {
        cells.update(index_of(x, y), c)
    } else {
        cells
    }
}

/// `cells` after drawing character `ch` at (`x`, `y`), coordinates wrapped to `i32`.
pub open spec fn put_spec(cells: Seq<Cell>, x: int, y: int, ch: char, fg: Color, bg: Color) -> Seq<Cell> {
    set_spec(cells, wrap(x), wrap(y), Cell { ch: cp437_byte(ch), fg, bg })
}

/// Cells of rows `y..yy` within columns `x..x + w`, and of row `yy` within columns
/// `x..xx`, blanked on `bg`.
pub open spec fn fill_upto(cells: Seq<Cell>, x: int, w: int, y: int, yy: int, xx: int, bg: Color) -> Seq<Cell> {
    Seq::new(
        cells.len(),
        |i: int|
            if x <= col_of(i) && ((y <= row_of(i) < yy && col_of(i) < x + w) || (row_of(i) == yy
                && col_of(i) < xx)) {
                blank_spec(bg)
            } else {
                cells[i]
            },
    )
}

/// `cells` with the rectangle of `w` × `h` cells at (`x`, `y`) blanked on `bg`.
pub open spec fn fill_spec(cells: Seq<Cell>, x: int, y: int, w: int, h: int, bg: Color) -> Seq<Cell> {
    fill_upto(cells, x, w, y, y + h, x, bg)
}

/// Index and coordinates agree.
pub proof fn lemma_index_coords(x: int, y: int)
    requires
        0 <= x < GRID_COLS,
        0 <= y,
    ensures
        col_of(index_of(x, y)) == x,
        row_of(index_of(x, y)) == y,
{
    vstd::arithmetic::div_mod::lemma_fundamental_div_mod_converse(
        index_of(x, y),
        GRID_COLS as int,
        y,
        x,
    );
}

/// Every index of the grid is the index of its own column and row.
pub proof fn lemma_coords_index(i: int)
    requires
        0 <= i < grid_len(),
    ensures
        index_of(col_of(i), row_of(i)) == i,
        in_grid(col_of(i), row_of(i)),
{
}

/// `cells` after writing `chars` from column `x` of row `y` (the row wrapped to
/// `i32`); characters past the right edge are dropped.
pub open spec fn text_spec(cells: Seq<Cell>, x: int, y: int, chars: Seq<char>, fg: Color, bg: Color) -> Seq<Cell> {
    Seq::new(
        cells.len(),
        |i: int|
            if row_of(i) == wrap(y) && x <= col_of(i) < x + chars.len() {
                Cell { ch: cp437_byte(chars[col_of(i) - x]), fg, bg }
            } else {
                cells[i]
            },
    )
}

/// `cells` after drawing `strokes` in order, each a column, a row and a character,
/// all in `fg` on `bg`; a later stroke on the same cell wins.
pub open spec fn paint(cells: Seq<Cell>, strokes: Seq<(int, int, char)>, fg: Color, bg: Color) -> Seq<Cell>
    decreases strokes.len(),
{
    if strokes.len() == 0 {
        cells
    } else {
        let s = strokes.last();
        put_spec(paint(cells, strokes.drop_last(), fg, bg), s.0, s.1, s.2, fg, bg)
    }
}

pub proof fn lemma_paint_push(cells: Seq<Cell>, strokes: Seq<(int, int, char)>, s: (int, int, char), fg: Color, bg: Color)
    ensures
        paint(cells, strokes.push(s), fg, bg) == put_spec(paint(cells, strokes, fg, bg), s.0, s.1, s.2, fg, bg),
{
    assert(strokes.push(s).drop_last() =~= strokes);
}

/// The six characters of a box frame.
#[derive(Clone, Copy)]
pub struct BoxStyle {
    pub top_left: char,
    pub top_right: char,
    pub bottom_left: char,
    pub bottom_right: char,
    pub horizontal: char,
    pub vertical: char,
}

pub open spec fn double_style() -> BoxStyle {
    BoxStyle {
        top_left: '╔',
        top_right: '╗',
        bottom_left: '╚',
        bottom_right: '╝',
        horizontal: '═',
        vertical: '║',
    }
}

pub open spec fn single_style() -> BoxStyle {
    BoxStyle {
        top_left: '┌',
        top_right: '┐',
        bottom_left: '└',
        bottom_right: '┘',
        horizontal: '─',
        vertical: '│',
    }
}

/// The top and bottom edge strokes of the first `k` inner columns.
pub open spec fn frame_rows(x: int, y: int, h: int, c: char, k: nat) -> Seq<(int, int, char)>
    decreases k,
{
    if k == 0 {
        seq![]
    } else {
        frame_rows(x, y, h, c, (k - 1) as nat).push((x + k, y, c)).push((x + k, y + h - 1, c))
    }
}

/// The left and right edge strokes of the first `k` inner rows.
pub open spec fn frame_cols(x: int, y: int, w: int, c: char, k: nat) -> Seq<(int, int, char)>
    decreases k,
{
    if k == 0 {
        seq![]
    } else {
        frame_cols(x, y, w, c, (k - 1) as nat).push((x, y + k, c)).push((x + w - 1, y + k, c))
    }
}

pub open spec fn corner_strokes(x: int, y: int, w: int, h: int, style: BoxStyle) -> Seq<(int, int, char)> {
    seq![
        (x, y, style.top_left),
        (x + w - 1, y, style.top_right),
        (x, y + h - 1, style.bottom_left),
        (x + w - 1, y + h - 1, style.bottom_right),
    ]
}

/// The strokes of a `w` × `h` frame at (`x`, `y`): the four corners, then the top and
/// bottom edges column by column, then the left and right edges row by row.
pub open spec fn box_strokes(x: int, y: int, w: int, h: int, style: BoxStyle) -> Seq<(int, int, char)> {
    corner_strokes(x, y, w, h, style) + frame_rows(x, y, h, style.horizontal, (w - 2) as nat)
        + frame_cols(x, y, w, style.vertical, (h - 2) as nat)
}

/// `cells` after drawing a `w` × `h` frame at (`x`, `y`); frames smaller than 2 × 2
/// draw nothing.
pub open spec fn box_spec(cells: Seq<Cell>, x: int, y: int, w: int, h: int, style: BoxStyle, fg: Color, bg: Color) -> Seq<Cell> {
    if w < 2 || h < 2 {
        cells
    } else {
        paint(cells, box_strokes(x, y, w, h, style), fg, bg)
    }
}

/// The strokes of the first `k` cells of a status bar with `filled` full cells.
pub open spec fn bar_strokes(x: int, y: int, filled: int, k: nat) -> Seq<(int, int, char)>
    decreases k,
{
    if k == 0 {
        seq![]
    } else {
        bar_strokes(x, y, filled, (k - 1) as nat).push(
            (x + k - 1, y, if k - 1 < filled { '█' } else { '░' }),
        )
    }
}

/// A `w` cells wide status bar at (`x`, `y`): `min(filled, w)` full blocks, then
/// light shade.
pub open spec fn bar_spec(cells: Seq<Cell>, x: int, y: int, w: int, filled: int, fg: Color, bg: Color) -> Seq<Cell> {
    paint(cells, bar_strokes(x, y, if filled < w { filled } else { w }, w as nat), fg, bg)
}

/// `count` copies of `c`.
pub open spec fn repeat_char(c: char, count: nat) -> Seq<char> {
    Seq::new(count, |k: int| c)
}

/// The column where a text of `len` characters starts when centred on the screen.
pub open spec fn centered_x(len: int) -> int {
    (GRID_COLS - (if len < GRID_COLS { len } else { GRID_COLS as int })) / 2
}

/// The column where a text of `len` characters starts when centred in the `w`
/// columns from `x`.
pub open spec fn centered_at_x(x: int, w: int, len: int) -> int {
    x + (w - (if len < w { len } else { w })) / 2
}

/// The pointer and key written at the start of a selection row.
pub open spec fn selection_prefix(active: bool, key: Seq<char>) -> Seq<char> {
    seq![if active { '▶' } else { ' ' }, ' '] + key
}

/// A selection row: `w` cells from (`x`, `y`) blanked on the selection background,
/// then the pointer and key at `x`, then the label at `x + 5`. An active row is
/// drawn dark on the accent colour, an inactive one in text colour on the panel.
pub open spec fn selection_spec(cells: Seq<Cell>, x: int, y: int, w: int, active: bool, key: Seq<char>, label: Seq<char>, t: Theme) -> Seq<Cell> {
    let bg = if active { t.accent } else { t.panel };
    let fg = if active { t.background } else { t.text };
    text_spec(
        text_spec(fill_spec(cells, x, y, w, 1, bg), x, y, selection_prefix(active, key), fg, bg),
        x + 5,
        y,
        label,
        fg,
        bg,
    )
}

/// Pixel centre of the cell at column `x`, row `y`:
/// `(-800 + 16x + 8, 448 - 32y - 16 + 2)`. The 2 pixel shift leaves the four spare
/// pixels of the 900 pixel canvas below the grid.
pub open spec fn cell_center_spec(x: int, y: int) -> (int, int) {
    (
        -(GRID_PIXEL_WIDTH / 2) + x * CELL_W + CELL_W / 2,
        GRID_PIXEL_HEIGHT / 2 - y * CELL_H - CELL_H / 2 + 2,
    )
}

/// The pixel centre of the cell at column `x`, row `y`.
pub fn cell_center(x: usize, y: usize) -> (c: (i32, i32))
    requires
        x < GRID_COLS,
        y < GRID_ROWS,
    ensures
        (c.0 as int, c.1 as int) == cell_center_spec(x as int, y as int),
{
    let px = -(GRID_PIXEL_WIDTH / 2) + (x as i32) * CELL_W + CELL_W / 2;
    let py = GRID_PIXEL_HEIGHT / 2 - (y as i32) * CELL_H - CELL_H / 2 + 2;
    (px, py)
}

/// One sprite of the per-cell renderer.
#[derive(Clone, Copy, PartialEq, Eq, Debug, Structural)]
pub enum SpriteKind {
    /// A cell-sized rectangle in the given colour, drawn below the glyphs.
    Background(Color),
    /// The atlas glyph for the given CP437 byte, in the given colour.
    Glyph(u8, Color),
}

#[derive(Clone, Copy, PartialEq, Eq, Debug, Structural)]
pub struct CellSprite {
    pub x: usize,
    pub y: usize,
    pub kind: SpriteKind,
}

/// The sprites of the cell at index `i`: a background where it differs from the page
/// background, then a glyph unless it is a space.
pub open spec fn cell_sprites(cells: Seq<Cell>, i: int, page_bg: Color) -> Seq<CellSprite> {
    let c = cells[i];
    let x = col_of(i) as usize;
    let y = row_of(i) as usize;
    (if c.bg != page_bg { seq![CellSprite { x, y, kind: SpriteKind::Background(c.bg) }] } else { seq![] })
        + (if c.ch != 0x20 { seq![CellSprite { x, y, kind: SpriteKind::Glyph(c.ch, c.fg) }] } else { seq![] })
}

/// The sprites of the first `k` cells, row by row.
pub open spec fn sprites_upto(cells: Seq<Cell>, k: nat, page_bg: Color) -> Seq<CellSprite>
    decreases k,
{
    if k == 0 {
        seq![]
    } else {
        sprites_upto(cells, (k - 1) as nat, page_bg) + cell_sprites(cells, k - 1, page_bg)
    }
}

pub struct Grid {
    cells: Vec<Cell>,
    default_bg: Color,
}

impl View for Grid {
    type V = Seq<Cell>;

    closed spec fn view(&self) -> Seq<Cell> {
        self.cells@
    }
}

impl Grid {
    /// The background used where a drawing call gives none.
    pub closed spec fn default_bg(&self) -> Color {
        self.default_bg
    }

    /// A grid of blank cells on `bg`, which also becomes the default background.
    pub fn new(bg: Color) -> (g: Self)
        ensures
            g@.len() == grid_len(),
            forall|i: int| 0 <= i < grid_len() ==> #[trigger] g@[i] == blank_spec(bg),
            g.default_bg() == bg,
    {
        let cells = vec![Cell::blank(bg); GRID_COLS * GRID_ROWS];
        Grid { cells, default_bg: bg }
    }

    /// The index of the cell at column `x`, row `y`.
    pub fn index(x: usize, y: usize) -> (i: usize)
        requires
            y * GRID_COLS + x <= usize::MAX,
        ensures
            i == index_of(x as int, y as int),
    {
        y * GRID_COLS + x
    }

    /// Writes one cell; coordinates off the grid are ignored.
    pub fn set(&mut self, x: i32, y: i32, ch: u8, fg: Color, bg: Option<Color>)
        requires
            old(self)@.len() == grid_len(),
        ensures
            final(self)@.len() == grid_len(),
            final(self)@ == set_spec(
                old(self)@,
                x as int,
                y as int,
                Cell { ch, fg, bg: resolve(bg, old(self).default_bg()) },
            ),
            final(self).default_bg() == old(self).default_bg(),
    {
        if x < 0 || y < 0 || x as usize >= GRID_COLS || y as usize >= GRID_ROWS {
            return;
        }
        let background = match bg {
            Some(c) => c,
            None => self.default_bg,
        };
        let i = Self::index(x as usize, y as usize);
        self.cells.set(i, Cell { ch, fg, bg: background });
    }

    /// The cell at column `x`, row `y`.
    pub fn get(&self, x: usize, y: usize) -> (c: Cell)
        requires
            self@.len() == grid_len(),
            index_of(x as int, y as int) < grid_len(),
        ensures
            c == self@[index_of(x as int, y as int)],
    {
        self.cells[Self::index(x, y)]
    }

    /// Blanks the cells of the `w` × `h` rectangle at (`x`, `y`) that lie on the grid.
    pub fn fill(&mut self, x: usize, y: usize, w: usize, h: usize, bg: Color)
        requires
            old(self)@.len() == grid_len(),
            y + h <= usize::MAX,
            y < GRID_ROWS && h > 0 ==> x + w <= usize::MAX,
        ensures
            final(self)@.len() == grid_len(),
            final(self)@ == fill_spec(old(self)@, x as int, y as int, w as int, h as int, bg),
            final(self).default_bg() == old(self).default_bg(),
    {
        let ghost start = self@;
        let y_end = if y + h < GRID_ROWS { y + h } else { GRID_ROWS };
        let mut yy = y;
        proof {
            assert(fill_upto(start, x as int, w as int, y as int, y as int, x as int, bg) =~= start);
        }
        while yy < y_end
            invariant
                self@.len() == grid_len(),
                start.len() == grid_len(),
                self.default_bg() == old(self).default_bg(),
                y <= yy,
                yy <= y_end || yy == y,
                y_end <= GRID_ROWS,
                y_end == y + h || y_end == GRID_ROWS,
                y_end <= y + h,
                y < y_end ==> x + w <= usize::MAX,
                self@ == fill_upto(start, x as int, w as int, y as int, yy as int, x as int, bg),
            decreases y_end - yy,
        {
            let x_end = if x + w < GRID_COLS { x + w } else { GRID_COLS };
            let mut xx = x;
            while xx < x_end
                invariant
                    self@.len() == grid_len(),
                    start.len() == grid_len(),
                    self.default_bg() == old(self).default_bg(),
                    y <= yy < y_end,
                    y_end <= GRID_ROWS,
                    x <= xx,
                    xx <= x_end || xx == x,
                    x_end <= GRID_COLS,
                    x_end == x + w || x_end == GRID_COLS,
                    x_end <= x + w,
                    self@ == fill_upto(start, x as int, w as int, y as int, yy as int, xx as int, bg),
                decreases x_end - xx,
            {
                let ghost before = self@;
                self.set(xx as i32, yy as i32, 0x20, Color::White, Some(bg));
                proof {
                    lemma_index_coords(xx as int, yy as int);
                    assert forall|i: int| 0 <= i < grid_len() implies #[trigger] self@[i]
                        == fill_upto(start, x as int, w as int, y as int, yy as int, xx + 1, bg)[i] by {
                        lemma_coords_index(i);
                    }
                    assert(self@ =~= fill_upto(start, x as int, w as int, y as int, yy as int, xx + 1, bg));
                }
                xx = xx + 1;
            }
            proof {
                assert forall|i: int| 0 <= i < grid_len() implies #[trigger] self@[i]
                    == fill_upto(start, x as int, w as int, y as int, yy + 1, x as int, bg)[i] by {
                    lemma_coords_index(i);
                }
                assert(self@ =~= fill_upto(start, x as int, w as int, y as int, yy + 1, x as int, bg));
            }
            yy = yy + 1;
        }
        proof {
            assert forall|i: int| 0 <= i < grid_len() implies #[trigger] self@[i]
                == fill_spec(start, x as int, y as int, w as int, h as int, bg)[i] by {
                lemma_coords_index(i);
            }
            assert(self@ =~= fill_spec(start, x as int, y as int, w as int, h as int, bg));
        }
    }

    /// Writes `chars` from column `x` of row `y`, stopping at the right edge.
    pub fn write_chars(&mut self, x: usize, y: usize, chars: &Vec<char>, fg: Color, bg: Option<Color>)
        requires
            old(self)@.len() == grid_len(),
        ensures
            final(self)@.len() == grid_len(),
            final(self)@ == text_spec(
                old(self)@,
                x as int,
                y as int,
                chars@,
                fg,
                resolve(bg, old(self).default_bg()),
            ),
            final(self).default_bg() == old(self).default_bg(),
    {
        let ghost start = self@;
        let ghost background = resolve(bg, self.default_bg());
        let n = chars.len();
        let mut offset: usize = 0;
        proof {
            assert(text_spec(start, x as int, y as int, chars@.take(0), fg, background) =~= start);
        }
        while offset < n
            invariant_except_break
                offset > 0 ==> x + offset <= GRID_COLS,
            invariant
                self@.len() == grid_len(),
                start.len() == grid_len(),
                self.default_bg() == old(self).default_bg(),
                background == resolve(bg, old(self).default_bg()),
                n == chars@.len(),
                offset <= n,
                self@ == text_spec(start, x as int, y as int, chars@.take(offset as int), fg, background),
            ensures
                offset == n || x + offset >= GRID_COLS,
            decreases n - offset,
        {
            if x + offset >= GRID_COLS {
                break;
            }
            let byte = to_cp437(chars[offset]);
            self.set((x + offset) as i32, y as i32, byte, fg, bg);
            proof {
                if (y as i32) >= 0 {
                    lemma_index_coords((x + offset) as int, (y as i32) as int);
                }
                assert forall|i: int| 0 <= i < grid_len() implies #[trigger] self@[i]
                    == text_spec(start, x as int, y as int, chars@.take(offset + 1), fg, background)[i] by {
                    lemma_coords_index(i);
                }
                assert(self@ =~= text_spec(start, x as int, y as int, chars@.take(offset + 1), fg, background));
            }
            offset = offset + 1;
        }
        proof {
            assert forall|i: int| 0 <= i < grid_len() implies #[trigger] self@[i]
                == text_spec(start, x as int, y as int, chars@, fg, background)[i] by {
                lemma_coords_index(i);
            }
            assert(self@ =~= text_spec(start, x as int, y as int, chars@, fg, background));
        }
    }

    /// Writes `value` from column `x` of row `y` on the default background.
    pub fn text(&mut self, x: usize, y: usize, value: &str, fg: Color)
        requires
            old(self)@.len() == grid_len(),
        ensures
            final(self)@.len() == grid_len(),
            final(self)@ == text_spec(old(self)@, x as int, y as int, value@, fg, old(self).default_bg()),
            final(self).default_bg() == old(self).default_bg(),
    {
        self.text_bg(x, y, value, fg, None);
    }

    /// Writes `value` from column `x` of row `y`, stopping at the right edge.
    pub fn text_bg(&mut self, x: usize, y: usize, value: &str, fg: Color, bg: Option<Color>)
        requires
            old(self)@.len() == grid_len(),
        ensures
            final(self)@.len() == grid_len(),
            final(self)@ == text_spec(
                old(self)@,
                x as int,
                y as int,
                value@,
                fg,
                resolve(bg, old(self).default_bg()),
            ),
            final(self).default_bg() == old(self).default_bg(),
    {
        let chars = chars_of(value);
        self.write_chars(x, y, &chars, fg, bg);
    }

    /// Draws `ch` at column `x`, row `y`, coordinates converted to `i32` as they are.
    pub fn put(&mut self, x: usize, y: usize, ch: char, fg: Color, bg: Option<Color>)
        requires
            old(self)@.len() == grid_len(),
        ensures
            final(self)@.len() == grid_len(),
            final(self)@ == put_spec(old(self)@, x as int, y as int, ch, fg, resolve(bg, old(self).default_bg())),
            final(self).default_bg() == old(self).default_bg(),
    {
        let byte = to_cp437(ch);
        self.set(x as i32, y as i32, byte, fg, bg);
    }

    fn draw_box(&mut self, x: usize, y: usize, w: usize, h: usize, style: BoxStyle, fg: Color, bg: Color)
        requires
            old(self)@.len() == grid_len(),
            w >= 2 && h >= 2 ==> x + w <= usize::MAX && y + h <= usize::MAX,
        ensures
            final(self)@.len() == grid_len(),
            final(self)@ == box_spec(old(self)@, x as int, y as int, w as int, h as int, style, fg, bg),
            final(self).default_bg() == old(self).default_bg(),
    {
        if w < 2 || h < 2 {
            return;
        }
        let ghost start = self@;
        let ghost corners = corner_strokes(x as int, y as int, w as int, h as int, style);
        self.put(x, y, style.top_left, fg, Some(bg));
        self.put(x + w - 1, y, style.top_right, fg, Some(bg));
        self.put(x, y + h - 1, style.bottom_left, fg, Some(bg));
        self.put(x + w - 1, y + h - 1, style.bottom_right, fg, Some(bg));
        proof {
            reveal_with_fuel(paint, 5);
            assert(corners.drop_last() =~= seq![
                (x as int, y as int, style.top_left),
                (x + w - 1, y as int, style.top_right),
                (x as int, y + h - 1, style.bottom_left),
            ]);
            assert(corners.drop_last().drop_last() =~= seq![
                (x as int, y as int, style.top_left),
                (x + w - 1, y as int, style.top_right),
            ]);
            assert(corners.drop_last().drop_last().drop_last() =~= seq![(x as int, y as int, style.top_left)]);
            assert(corners.drop_last().drop_last().drop_last().drop_last() =~= Seq::<(int, int, char)>::empty());
            assert(self@ == paint(start, corners, fg, bg));
            assert(corners + frame_rows(x as int, y as int, h as int, style.horizontal, 0) =~= corners);
        }
        let mut xx = x + 1;
        while xx < x + w - 1
            invariant
                self@.len() == grid_len(),
                self.default_bg() == old(self).default_bg(),
                start.len() == grid_len(),
                w >= 2,
                h >= 2,
                x + w <= usize::MAX,
                y + h <= usize::MAX,
                x + 1 <= xx <= x + w - 1,
                corners == corner_strokes(x as int, y as int, w as int, h as int, style),
                self@ == paint(
                    start,
                    corners + frame_rows(x as int, y as int, h as int, style.horizontal, (xx - x - 1) as nat),
                    fg,
                    bg,
                ),
            decreases x + w - 1 - xx,
        {
            let ghost prefix = corners + frame_rows(
                x as int,
                y as int,
                h as int,
                style.horizontal,
                (xx - x - 1) as nat,
            );
            self.put(xx, y, style.horizontal, fg, Some(bg));
            self.put(xx, y + h - 1, style.horizontal, fg, Some(bg));
            proof {
                let a = (xx as int, y as int, style.horizontal);
                let b = (xx as int, y + h - 1, style.horizontal);
                lemma_paint_push(start, prefix, a, fg, bg);
                lemma_paint_push(start, prefix.push(a), b, fg, bg);
                assert(corners + frame_rows(x as int, y as int, h as int, style.horizontal, (xx - x) as nat)
                    =~= prefix.push(a).push(b));
            }
            xx = xx + 1;
        }
        proof {
            assert(corners + frame_rows(x as int, y as int, h as int, style.horizontal, (w - 2) as nat)
                + frame_cols(x as int, y as int, w as int, style.vertical, 0)
                =~= corners + frame_rows(x as int, y as int, h as int, style.horizontal, (w - 2) as nat));
        }
        let ghost rows = corners + frame_rows(x as int, y as int, h as int, style.horizontal, (w - 2) as nat);
        let mut yy = y + 1;
        while yy < y + h - 1
            invariant
                self@.len() == grid_len(),
                self.default_bg() == old(self).default_bg(),
                start.len() == grid_len(),
                w >= 2,
                h >= 2,
                x + w <= usize::MAX,
                y + h <= usize::MAX,
                y + 1 <= yy <= y + h - 1,
                rows == corners + frame_rows(x as int, y as int, h as int, style.horizontal, (w - 2) as nat),
                self@ == paint(
                    start,
                    rows + frame_cols(x as int, y as int, w as int, style.vertical, (yy - y - 1) as nat),
                    fg,
                    bg,
                ),
            decreases y + h - 1 - yy,
        {
            let ghost prefix = rows + frame_cols(x as int, y as int, w as int, style.vertical, (yy - y - 1) as nat);
            self.put(x, yy, style.vertical, fg, Some(bg));
            self.put(x + w - 1, yy, style.vertical, fg, Some(bg));
            proof {
                let a = (x as int, yy as int, style.vertical);
                let b = (x + w - 1, yy as int, style.vertical);
                lemma_paint_push(start, prefix, a, fg, bg);
                lemma_paint_push(start, prefix.push(a), b, fg, bg);
                assert(rows + frame_cols(x as int, y as int, w as int, style.vertical, (yy - y) as nat)
                    =~= prefix.push(a).push(b));
            }
            yy = yy + 1;
        }
        proof {
            assert(box_strokes(x as int, y as int, w as int, h as int, style) =~= rows + frame_cols(
                x as int,
                y as int,
                w as int,
                style.vertical,
                (h - 2) as nat,
            ));
        }
    }

    /// Draws a double-line frame of `w` × `h` cells at (`x`, `y`).
    pub fn box_double(&mut self, x: usize, y: usize, w: usize, h: usize, fg: Color, bg: Color)
        requires
            old(self)@.len() == grid_len(),
            w >= 2 && h >= 2 ==> x + w <= usize::MAX && y + h <= usize::MAX,
        ensures
            final(self)@.len() == grid_len(),
            final(self)@ == box_spec(old(self)@, x as int, y as int, w as int, h as int, double_style(), fg, bg),
            final(self).default_bg() == old(self).default_bg(),
    {
        let style = BoxStyle {
            top_left: '╔',
            top_right: '╗',
            bottom_left: '╚',
            bottom_right: '╝',
            horizontal: '═',
            vertical: '║',
        };
        self.draw_box(x, y, w, h, style, fg, bg);
    }

    /// Draws a single-line frame of `w` × `h` cells at (`x`, `y`).
    pub fn box_single(&mut self, x: usize, y: usize, w: usize, h: usize, fg: Color, bg: Color)
        requires
            old(self)@.len() == grid_len(),
            w >= 2 && h >= 2 ==> x + w <= usize::MAX && y + h <= usize::MAX,
        ensures
            final(self)@.len() == grid_len(),
            final(self)@ == box_spec(old(self)@, x as int, y as int, w as int, h as int, single_style(), fg, bg),
            final(self).default_bg() == old(self).default_bg(),
    {
        let style = BoxStyle {
            top_left: '┌',
            top_right: '┐',
            bottom_left: '└',
            bottom_right: '┘',
            horizontal: '─',
            vertical: '│',
        };
        self.draw_box(x, y, w, h, style, fg, bg);
    }

    /// Writes `value` centred on row `y` of the screen.
    pub fn centered(&mut self, y: usize, value: &str, fg: Color)
        requires
            old(self)@.len() == grid_len(),
        ensures
            final(self)@.len() == grid_len(),
            final(self)@ == text_spec(old(self)@, centered_x(value@.len() as int), y as int, value@, fg, old(self).default_bg()),
            final(self).default_bg() == old(self).default_bg(),
    {
        let count = char_count(value);
        let width = if count < GRID_COLS { count } else { GRID_COLS };
        let x = (GRID_COLS - width) / 2;
        self.text(x, y, value, fg);
    }

    /// Writes `value` on row `y`, centred in the `w` columns from `x`.
    pub fn centered_at(&mut self, y: usize, x: usize, w: usize, value: &str, fg: Color)
        requires
            old(self)@.len() == grid_len(),
            centered_at_x(x as int, w as int, value@.len() as int) <= usize::MAX,
        ensures
            final(self)@.len() == grid_len(),
            final(self)@ == text_spec(
                old(self)@,
                centered_at_x(x as int, w as int, value@.len() as int),
                y as int,
                value@,
                fg,
                old(self).default_bg(),
            ),
            final(self).default_bg() == old(self).default_bg(),
    {
        let count = char_count(value);
        let width = if count < w { count } else { w };
        let start = x + (w - width) / 2;
        self.text(start, y, value, fg);
    }

    /// Draws a selection row: blanks `w` cells from (`x`, `y`) on the selection
    /// background, then writes the pointer (`▶` when active) and `key` at `x` and
    /// `label` at `x + 5`.
    pub fn selection(&mut self, x: usize, y: usize, w: usize, active: bool, key: &str, label: &str, t: &Theme)
        requires
            old(self)@.len() == grid_len(),
            y < usize::MAX,
            y < GRID_ROWS ==> x + w <= usize::MAX,
            x + 5 <= usize::MAX,
        ensures
            final(self)@.len() == grid_len(),
            final(self)@ == selection_spec(old(self)@, x as int, y as int, w as int, active, key@, label@, *t),
            final(self).default_bg() == old(self).default_bg(),
    {
        let bg = if active { t.accent } else { t.panel };
        let fg = if active { t.background } else { t.text };
        self.fill(x, y, w, 1, bg);
        let mut prefix: Vec<char> = Vec::new();
        prefix.push(if active { '▶' } else { ' ' });
        prefix.push(' ');
        let key_chars = chars_of(key);
        let mut i: usize = 0;
        while i < key_chars.len()
            invariant
                i <= key_chars@.len(),
                key_chars@ == key@,
                prefix@ == seq![if active { '▶' } else { ' ' }, ' '] + key@.take(i as int),
            decreases key_chars.len() - i,
        {
            prefix.push(key_chars[i]);
            proof {
                assert(key@.take(i + 1) =~= key@.take(i as int).push(key@[i as int]));
            }
            i = i + 1;
        }
        proof {
            assert(key@.take(key@.len() as int) =~= key@);
        }
        self.write_chars(x, y, &prefix, fg, Some(bg));
        self.text_bg(x + 5, y, label, fg, Some(bg));
    }

    /// Draws a horizontal line of `w` cells from (`x`, `y`), stopping at the right edge.
    pub fn hline(&mut self, x: usize, y: usize, w: usize, fg: Color)
        requires
            old(self)@.len() == grid_len(),
            x + w <= usize::MAX,
        ensures
            final(self)@.len() == grid_len(),
            final(self)@ == text_spec(old(self)@, x as int, y as int, repeat_char('─', w as nat), fg, old(self).default_bg()),
            final(self).default_bg() == old(self).default_bg(),
    {
        let ghost start = self@;
        let ghost bg = self.default_bg();
        let x_end = if x + w < GRID_COLS { x + w } else { GRID_COLS };
        let mut xx = x;
        proof {
            assert(text_spec(start, x as int, y as int, repeat_char('─', 0), fg, bg) =~= start);
        }
        while xx < x_end
            invariant
                self@.len() == grid_len(),
                start.len() == grid_len(),
                self.default_bg() == old(self).default_bg(),
                bg == old(self).default_bg(),
                x <= xx,
                xx <= x_end || xx == x,
                x_end <= GRID_COLS,
                x_end == x + w || x_end == GRID_COLS,
                self@ == text_spec(start, x as int, y as int, repeat_char('─', (xx - x) as nat), fg, bg),
            decreases x_end - xx,
        {
            self.put(xx, y, '─', fg, None);
            proof {
                if (y as i32) >= 0 {
                    lemma_index_coords(xx as int, (y as i32) as int);
                }
                assert forall|i: int| 0 <= i < grid_len() implies #[trigger] self@[i]
                    == text_spec(start, x as int, y as int, repeat_char('─', (xx + 1 - x) as nat), fg, bg)[i] by {
                    lemma_coords_index(i);
                }
                assert(self@ =~= text_spec(start, x as int, y as int, repeat_char('─', (xx + 1 - x) as nat), fg, bg));
            }
            xx = xx + 1;
        }
        proof {
            assert forall|i: int| 0 <= i < grid_len() implies #[trigger] self@[i]
                == text_spec(start, x as int, y as int, repeat_char('─', w as nat), fg, bg)[i] by {
                lemma_coords_index(i);
            }
            assert(self@ =~= text_spec(start, x as int, y as int, repeat_char('─', w as nat), fg, bg));
        }
    }

    /// Draws a status bar of `w` cells from (`x`, `y`): `min(filled, w)` full blocks
    /// followed by light shade.
    pub fn bar(&mut self, x: usize, y: usize, w: usize, filled: usize, fg: Color, bg: Color)
        requires
            old(self)@.len() == grid_len(),
            w > 0 ==> x + (w - 1) <= usize::MAX,
        ensures
            final(self)@.len() == grid_len(),
            final(self)@ == bar_spec(old(self)@, x as int, y as int, w as int, filled as int, fg, bg),
            final(self).default_bg() == old(self).default_bg(),
    {
        let ghost start = self@;
        let filled = if filled < w { filled } else { w };
        let mut xx: usize = 0;
        while xx < w
            invariant
                self@.len() == grid_len(),
                start.len() == grid_len(),
                self.default_bg() == old(self).default_bg(),
                xx <= w,
                filled <= w,
                w > 0 ==> x + (w - 1) <= usize::MAX,
                self@ == paint(start, bar_strokes(x as int, y as int, filled as int, xx as nat), fg, bg),
            decreases w - xx,
        {
            self.put(x + xx, y, if xx < filled { '█' } else { '░' }, fg, Some(bg));
            proof {
                lemma_paint_push(
                    start,
                    bar_strokes(x as int, y as int, filled as int, xx as nat),
                    (x + xx, y as int, if xx < filled { '█' } else { '░' }),
                    fg,
                    bg,
                );
            }
            xx = xx + 1;
        }
    }

    /// The sprites that draw this grid over a page of colour `page_bg`: per cell, row
    /// by row, a background where the cell's differs from the page, and a glyph
    /// unless the cell is a space.
    pub fn sprites(&self, page_bg: Color) -> (sprites: Vec<CellSprite>)
        requires
            self@.len() == grid_len(),
        ensures
            sprites@ == sprites_upto(self@, grid_len() as nat, page_bg),
    {
        let mut sprites: Vec<CellSprite> = Vec::new();
        let mut y: usize = 0;
        while y < GRID_ROWS
            invariant
                self@.len() == grid_len(),
                y <= GRID_ROWS,
                sprites@ == sprites_upto(self@, (y * GRID_COLS) as nat, page_bg),
            decreases GRID_ROWS - y,
        {
            let mut x: usize = 0;
            while x < GRID_COLS
                invariant
                    self@.len() == grid_len(),
                    y < GRID_ROWS,
                    x <= GRID_COLS,
                    sprites@ == sprites_upto(self@, (y * GRID_COLS + x) as nat, page_bg),
                decreases GRID_COLS - x,
            {
                let cell = self.get(x, y);
                let ghost before = sprites@;
                if cell.bg != page_bg {
                    sprites.push(CellSprite { x, y, kind: SpriteKind::Background(cell.bg) });
                }
                if cell.ch != 0x20 {
                    sprites.push(CellSprite { x, y, kind: SpriteKind::Glyph(cell.ch, cell.fg) });
                }
                proof {
                    lemma_index_coords(x as int, y as int);
                    assert(sprites@ =~= before + cell_sprites(self@, index_of(x as int, y as int), page_bg));
                }
                x = x + 1;
            }
            y = y + 1;
        }
        sprites
    }

    /// All cells, row by row.
    pub fn cells(&self) -> (cells: &[Cell])
        ensures
            cells@ == self@,
    {
        self.cells.as_slice()
    }
}

} // verus!
