//! What drawing on the grid does, cell by cell.
use vstd::prelude::*;

use crate::cp437::cp437_byte;
use crate::cp437_grid::{
    box_spec, box_strokes, corner_strokes, frame_cols, frame_rows, grid_len, in_grid, index_of,
    lemma_index_coords, paint, selection_spec, set_spec, text_spec, wrap, BoxStyle, Cell,
    GRID_COLS, GRID_ROWS,
};
use crate::theme::{Color, Theme};

verus! {

/// Whether a stroke at column `s.0`, row `s.1` lands on the cell with index `i`.
pub open spec fn hits(s: (int, int, char), i: int) -> bool {
    in_grid(wrap(s.0), wrap(s.1)) && index_of(wrap(s.0), wrap(s.1)) == i
}

/// A write at (`x`, `y`) changes only the cell there, which then reads back as
/// written; a write off the grid changes nothing.
pub proof fn lemma_set_then_get(cells: Seq<Cell>, x: int, y: int, c: Cell, i: int)
    requires
        cells.len() == grid_len(),
        0 <= i < grid_len(),
    ensures
        set_spec(cells, x, y, c).len() == cells.len(),
        set_spec(cells, x, y, c)[i] == if in_grid(x, y) && index_of(x, y) == i { c } else { cells[i] },
{
}

/// Painting keeps the number of cells.
pub proof fn lemma_paint_len(cells: Seq<Cell>, strokes: Seq<(int, int, char)>, fg: Color, bg: Color)
    requires
        cells.len() == grid_len(),
    ensures
        paint(cells, strokes, fg, bg).len() == cells.len(),
    decreases strokes.len(),
{
    if strokes.len() > 0 {
        lemma_paint_len(cells, strokes.drop_last(), fg, bg);
    }
}

/// A cell that no stroke lands on keeps its content.
pub proof fn lemma_paint_untouched(cells: Seq<Cell>, strokes: Seq<(int, int, char)>, fg: Color, bg: Color, i: int)
    requires
        cells.len() == grid_len(),
        0 <= i < grid_len(),
        forall|k: int| 0 <= k < strokes.len() ==> !hits(#[trigger] strokes[k], i),
    ensures
        paint(cells, strokes, fg, bg)[i] == cells[i],
    decreases strokes.len(),
{
    if strokes.len() > 0 {
        let rest = strokes.drop_last();
        assert forall|k: int| 0 <= k < rest.len() implies !hits(#[trigger] rest[k], i) by {
            assert(rest[k] == strokes[k]);
        }
        lemma_paint_untouched(cells, rest, fg, bg, i);
        lemma_paint_len(cells, rest, fg, bg);
        assert(!hits(strokes[strokes.len() - 1], i));
    }
}

/// A cell shows the character of the last stroke that lands on it.
pub proof fn lemma_paint_last(cells: Seq<Cell>, strokes: Seq<(int, int, char)>, fg: Color, bg: Color, i: int, k: int)
    requires
        cells.len() == grid_len(),
        0 <= i < grid_len(),
        0 <= k < strokes.len(),
        hits(strokes[k], i),
        forall|j: int| k < j < strokes.len() ==> !hits(#[trigger] strokes[j], i),
    ensures
        paint(cells, strokes, fg, bg)[i] == (Cell { ch: cp437_byte(strokes[k].2), fg, bg }),
    decreases strokes.len(),
{
    let rest = strokes.drop_last();
    lemma_paint_len(cells, rest, fg, bg);
    if k < strokes.len() - 1 {
        assert(rest[k] == strokes[k]);
        assert forall|j: int| k < j < rest.len() implies !hits(#[trigger] rest[j], i) by {
            assert(rest[j] == strokes[j]);
        }
        lemma_paint_last(cells, rest, fg, bg, i, k);
        assert(!hits(strokes[strokes.len() - 1], i));
    }
}

proof fn lemma_frame_rows(x: int, y: int, h: int, c: char, k: nat)
    ensures
        frame_rows(x, y, h, c, k).len() == 2 * k,
        forall|j: int|
            0 <= j < 2 * k ==> #[trigger] frame_rows(x, y, h, c, k)[j] == (
                x + 1 + j / 2,
                if j % 2 == 0 { y } else { y + h - 1 },
                c,
            ),
    decreases k,
{
    if k > 0 {
        lemma_frame_rows(x, y, h, c, (k - 1) as nat);
    }
}

proof fn lemma_frame_cols(x: int, y: int, w: int, c: char, k: nat)
    ensures
        frame_cols(x, y, w, c, k).len() == 2 * k,
        forall|j: int|
            0 <= j < 2 * k ==> #[trigger] frame_cols(x, y, w, c, k)[j] == (
                if j % 2 == 0 { x } else { x + w - 1 },
                y + 1 + j / 2,
                c,
            ),
    decreases k,
{
    if k > 0 {
        lemma_frame_cols(x, y, w, c, (k - 1) as nat);
    }
}

/// The stroke at position `j` of a frame.
pub open spec fn box_stroke_at(x: int, y: int, w: int, h: int, style: BoxStyle, j: int) -> (int, int, char) {
    if j == 0 {
        (x, y, style.top_left)
    } else if j == 1 {
        (x + w - 1, y, style.top_right)
    } else if j == 2 {
        (x, y + h - 1, style.bottom_left)
    } else if j == 3 {
        (x + w - 1, y + h - 1, style.bottom_right)
    } else if j < 4 + 2 * (w - 2) {
        let r = j - 4;
        (x + 1 + r / 2, if r % 2 == 0 { y } else { y + h - 1 }, style.horizontal)
    } else {
        let q = j - 4 - 2 * (w - 2);
        (if q % 2 == 0 { x } else { x + w - 1 }, y + 1 + q / 2, style.vertical)
    }
}

proof fn lemma_box_strokes(x: int, y: int, w: int, h: int, style: BoxStyle)
    requires
        w >= 2,
        h >= 2,
    ensures
        box_strokes(x, y, w, h, style).len() == 4 + 2 * (w - 2) + 2 * (h - 2),
        forall|j: int|
            0 <= j < box_strokes(x, y, w, h, style).len() ==> #[trigger] box_strokes(x, y, w, h, style)[j]
                == box_stroke_at(x, y, w, h, style, j),
{
    lemma_frame_rows(x, y, h, style.horizontal, (w - 2) as nat);
    lemma_frame_cols(x, y, w, style.vertical, (h - 2) as nat);
    let c = corner_strokes(x, y, w, h, style);
    let r = frame_rows(x, y, h, style.horizontal, (w - 2) as nat);
    let v = frame_cols(x, y, w, style.vertical, (h - 2) as nat);
    assert forall|j: int| 0 <= j < box_strokes(x, y, w, h, style).len() implies #[trigger] box_strokes(
        x,
        y,
        w,
        h,
        style,
    )[j] == box_stroke_at(x, y, w, h, style, j) by {
        if j < 4 {
            assert((c + r)[j] == c[j]);
        } else if j < 4 + 2 * (w - 2) {
            assert((c + r)[j] == r[j - 4]);
        } else {
            assert(box_strokes(x, y, w, h, style)[j] == v[j - 4 - 2 * (w - 2)]);
        }
    }
}

/// Two grid positions with the same index are the same position.
pub proof fn lemma_index_injective(a: int, b: int, c: int, d: int)
    requires
        in_grid(a, b),
        in_grid(c, d),
        index_of(a, b) == index_of(c, d),
    ensures
        a == c,
        b == d,
{
    lemma_index_coords(a, b);
    lemma_index_coords(c, d);
}

/// The glyph of a frame at column `cx`, row `cy`, or `None` off the frame's border.
pub open spec fn frame_glyph(x: int, y: int, w: int, h: int, style: BoxStyle, cx: int, cy: int) -> Option<char> {
    if cx == x && cy == y {
        Some(style.top_left)
    } else if cx == x + w - 1 && cy == y {
        Some(style.top_right)
    } else if cx == x && cy == y + h - 1 {
        Some(style.bottom_left)
    } else if cx == x + w - 1 && cy == y + h - 1 {
        Some(style.bottom_right)
    } else if (cy == y || cy == y + h - 1) && x < cx < x + w - 1 {
        Some(style.horizontal)
    } else if (cx == x || cx == x + w - 1) && y < cy < y + h - 1 {
        Some(style.vertical)
    } else {
        None
    }
}

/// A frame that fits on the screen is a rectangle of cells: its border cells hold
/// the corner and edge glyphs in the frame's colours, and every other cell keeps
/// its content.
pub proof fn lemma_box_cells(
    cells: Seq<Cell>,
    x: int,
    y: int,
    w: int,
    h: int,
    style: BoxStyle,
    fg: Color,
    bg: Color,
    cx: int,
    cy: int,
)
    requires
        cells.len() == grid_len(),
        w >= 2,
        h >= 2,
        0 <= x,
        0 <= y,
        x + w <= GRID_COLS,
        y + h <= GRID_ROWS,
        in_grid(cx, cy),
    ensures
        box_spec(cells, x, y, w, h, style, fg, bg)[index_of(cx, cy)] == match frame_glyph(x, y, w, h, style, cx, cy) {
            Some(ch) => Cell { ch: cp437_byte(ch), fg, bg },
            None => cells[index_of(cx, cy)],
        },
{
    let strokes = box_strokes(x, y, w, h, style);
    let i = index_of(cx, cy);
    lemma_box_strokes(x, y, w, h, style);
    lemma_index_coords(cx, cy);
    assert forall|j: int| 0 <= j < strokes.len() implies (#[trigger] hits(strokes[j], i) <==> (
    strokes[j].0 == cx && strokes[j].1 == cy)) by {
        let s = box_stroke_at(x, y, w, h, style, j);
        assert(0 <= s.0 < GRID_COLS && 0 <= s.1 < GRID_ROWS);
        assert(wrap(s.0) == s.0);
        assert(wrap(s.1) == s.1);
        if hits(strokes[j], i) {
            lemma_index_injective(s.0, s.1, cx, cy);
        }
    }
    let last = strokes.len() - 1;
    match frame_glyph(x, y, w, h, style, cx, cy) {
        Some(ch) => {
            let k = if cx == x && cy == y {
                0
            } else if cx == x + w - 1 && cy == y {
                1
            } else if cx == x && cy == y + h - 1 {
                2
            } else if cx == x + w - 1 && cy == y + h - 1 {
                3
            } else if (cy == y || cy == y + h - 1) && x < cx < x + w - 1 {
                4 + 2 * (cx - x - 1) + if cy == y { 0int } else { 1 }
            } else {
                4 + 2 * (w - 2) + 2 * (cy - y - 1) + if cx == x { 0int } else { 1 }
            };
            assert(strokes[k] == box_stroke_at(x, y, w, h, style, k));
            assert forall|j: int| k < j < strokes.len() implies !hits(#[trigger] strokes[j], i) by {
                assert(strokes[j] == box_stroke_at(x, y, w, h, style, j));
            }
            lemma_paint_last(cells, strokes, fg, bg, i, k);
        },
        None => {
            assert forall|k: int| 0 <= k < strokes.len() implies !hits(#[trigger] strokes[k], i) by {
                assert(strokes[k] == box_stroke_at(x, y, w, h, style, k));
            }
            lemma_paint_untouched(cells, strokes, fg, bg, i);
        },
    }
}

/// A selection row is one cell high: it changes no other row, every cell of its
/// width gets the selection background (accent when active, panel otherwise), and
/// its first cell shows the pointer, `▶` when active and a space otherwise.
pub proof fn lemma_selection_row(
    cells: Seq<Cell>,
    x: int,
    y: int,
    w: int,
    active: bool,
    key: Seq<char>,
    label: Seq<char>,
    t: Theme,
    cx: int,
    cy: int,
)
    requires
        cells.len() == grid_len(),
        0 <= x,
        0 <= y < GRID_ROWS,
        in_grid(cx, cy),
    ensures
        cy != y ==> selection_spec(cells, x, y, w, active, key, label, t)[index_of(cx, cy)]
            == cells[index_of(cx, cy)],
        cy == y && x <= cx < x + w ==> selection_spec(cells, x, y, w, active, key, label, t)[index_of(
            cx,
            cy,
        )].bg == (if active { t.accent } else { t.panel }),
        cy == y && cx == x ==> selection_spec(cells, x, y, w, active, key, label, t)[index_of(cx, cy)].ch
            == cp437_byte(if active { '▶' } else { ' ' }),
{
    lemma_index_coords(cx, cy);
    assert(wrap(y) == y);
}

/// Text stays on its row: cells on other rows, left of the start column or past the
/// text keep their content, and the cell `k` columns from the start shows the byte
/// of the `k`-th character.
pub proof fn lemma_text_cells(
    cells: Seq<Cell>,
    x: int,
    y: int,
    chars: Seq<char>,
    fg: Color,
    bg: Color,
    cx: int,
    cy: int,
)
    requires
        cells.len() == grid_len(),
        in_grid(cx, cy),
    ensures
        !(cy == wrap(y) && x <= cx < x + chars.len()) ==> text_spec(cells, x, y, chars, fg, bg)[index_of(cx, cy)]
            == cells[index_of(cx, cy)],
        cy == wrap(y) && x <= cx < x + chars.len() ==> text_spec(cells, x, y, chars, fg, bg)[index_of(cx, cy)]
            == (Cell { ch: cp437_byte(chars[cx - x]), fg, bg }),
{
    lemma_index_coords(cx, cy);
}

} // verus!
