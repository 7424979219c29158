use dsh_frontend::cp437::{fallback_cp437, to_cp437};
use dsh_frontend::cp437_grid::{cell_center, Cell, CellSprite, Grid, SpriteKind, GRID_COLS, GRID_ROWS};
use dsh_frontend::theme::{Color, Theme};

fn at(g: &Grid, x: usize, y: usize) -> Cell {
    g.get(x, y)
}

#[test]
fn cp437_mapping_and_fallbacks() {
    assert_eq!(to_cp437('A'), 0x41);
    assert_eq!(to_cp437(' '), 0x20);
    assert_eq!(to_cp437('╔'), 0xC9);
    assert_eq!(to_cp437('░'), 0xB0);
    assert_eq!(to_cp437('♥'), 0x03);
    assert_eq!(to_cp437('⌂'), 0x7F);
    assert_eq!(to_cp437('⚔'), b'+');
    assert_eq!(to_cp437('★'), b'*');
    assert_eq!(to_cp437('●'), 0x07);
    assert_eq!(to_cp437('✓'), b'v');
    assert_eq!(to_cp437('漢'), b'?');
    assert_eq!(fallback_cp437('✘'), b'x');
    assert_eq!(fallback_cp437('◇'), 0x04);
    assert_eq!(fallback_cp437('x'), b'?');
}

#[test]
fn new_grid_is_blank() {
    let g = Grid::new(Color::Panel);
    assert_eq!(g.cells().len(), GRID_COLS * GRID_ROWS);
    assert_eq!(at(&g, 99, 27), Cell { ch: b' ', fg: Color::White, bg: Color::Panel });
    assert_eq!(Grid::index(3, 2), 203);
    assert_eq!(Cell::blank(Color::Dim), Cell { ch: 0x20, fg: Color::White, bg: Color::Dim });
}

#[test]
fn set_reads_back_and_ignores_off_grid() {
    let mut g = Grid::new(Color::Background);
    g.set(5, 7, b'#', Color::Accent, None);
    assert_eq!(at(&g, 5, 7), Cell { ch: b'#', fg: Color::Accent, bg: Color::Background });
    g.set(6, 7, b'#', Color::Accent, Some(Color::Danger));
    assert_eq!(at(&g, 6, 7).bg, Color::Danger);
    let before: Vec<Cell> = g.cells().to_vec();
    g.set(-1, 0, b'x', Color::Text, None);
    g.set(100, 0, b'x', Color::Text, None);
    g.set(0, 28, b'x', Color::Text, None);
    assert_eq!(g.cells(), &before[..]);
}

#[test]
fn fill_blanks_the_rectangle_on_grid() {
    let mut g = Grid::new(Color::Background);
    g.text(0, 1, "abcdef", Color::Text);
    g.fill(2, 1, 3, 2, Color::Panel);
    assert_eq!(at(&g, 1, 1).ch, b'b');
    assert_eq!(at(&g, 2, 1), Cell { ch: b' ', fg: Color::White, bg: Color::Panel });
    assert_eq!(at(&g, 4, 2).bg, Color::Panel);
    assert_eq!(at(&g, 5, 1).ch, b'f');
    assert_eq!(at(&g, 2, 3).bg, Color::Background);
    g.fill(98, 26, 10, 10, Color::Dim);
    assert_eq!(at(&g, 99, 27).bg, Color::Dim);
    assert_eq!(at(&g, 97, 27).bg, Color::Background);
}

#[test]
fn text_stops_at_right_edge() {
    let mut g = Grid::new(Color::Background);
    g.text(97, 0, "HELLO", Color::Text);
    assert_eq!(at(&g, 97, 0).ch, b'H');
    assert_eq!(at(&g, 99, 0).ch, b'L');
    assert_eq!(at(&g, 0, 1).ch, b' ');
    g.text_bg(0, 3, "╔═★", Color::Accent, Some(Color::Panel));
    assert_eq!(at(&g, 0, 3), Cell { ch: 0xC9, fg: Color::Accent, bg: Color::Panel });
    assert_eq!(at(&g, 1, 3).ch, 0xCD);
    assert_eq!(at(&g, 2, 3).ch, b'*');
}

#[test]
fn centered_text_positions() {
    let mut g = Grid::new(Color::Background);
    g.centered(0, "ABCD", Color::Text);
    assert_eq!(at(&g, 48, 0).ch, b'A');
    assert_eq!(at(&g, 51, 0).ch, b'D');
    g.centered_at(1, 10, 10, "XYZ", Color::Text);
    assert_eq!(at(&g, 13, 1).ch, b'X');
    assert_eq!(at(&g, 12, 1).ch, b' ');
}

#[test]
fn double_box_draws_its_border_only() {
    let mut g = Grid::new(Color::Background);
    g.text(2, 2, "in", Color::Text);
    g.box_double(1, 1, 5, 4, Color::Border, Color::Panel);
    assert_eq!(at(&g, 1, 1), Cell { ch: 0xC9, fg: Color::Border, bg: Color::Panel });
    assert_eq!(at(&g, 5, 1).ch, 0xBB);
    assert_eq!(at(&g, 1, 4).ch, 0xC8);
    assert_eq!(at(&g, 5, 4).ch, 0xBC);
    assert_eq!(at(&g, 3, 1).ch, 0xCD);
    assert_eq!(at(&g, 3, 4).ch, 0xCD);
    assert_eq!(at(&g, 1, 2).ch, 0xBA);
    assert_eq!(at(&g, 5, 3).ch, 0xBA);
    assert_eq!(at(&g, 2, 2).ch, b'i');
    assert_eq!(at(&g, 6, 1).ch, b' ');
}

#[test]
fn single_box_and_degenerate_boxes() {
    let mut g = Grid::new(Color::Background);
    g.box_single(0, 0, 2, 2, Color::Border, Color::Panel);
    assert_eq!(at(&g, 0, 0).ch, 0xDA);
    assert_eq!(at(&g, 1, 0).ch, 0xBF);
    assert_eq!(at(&g, 0, 1).ch, 0xC0);
    assert_eq!(at(&g, 1, 1).ch, 0xD9);
    let before: Vec<Cell> = g.cells().to_vec();
    g.box_single(10, 10, 1, 5, Color::Border, Color::Panel);
    g.box_double(10, 10, 5, 1, Color::Border, Color::Panel);
    assert_eq!(g.cells(), &before[..]);
    g.box_single(98, 26, 5, 5, Color::Border, Color::Panel);
    assert_eq!(at(&g, 98, 26).ch, 0xDA);
    assert_eq!(at(&g, 99, 26).ch, 0xC4);
    assert_eq!(at(&g, 98, 27).ch, 0xB3);
}

#[test]
fn hline_and_bar() {
    let mut g = Grid::new(Color::Background);
    g.hline(95, 4, 10, Color::Border);
    assert_eq!(at(&g, 95, 4), Cell { ch: 0xC4, fg: Color::Border, bg: Color::Background });
    assert_eq!(at(&g, 99, 4).ch, 0xC4);
    assert_eq!(at(&g, 94, 4).ch, b' ');
    g.bar(10, 5, 5, 2, Color::Success, Color::Panel);
    assert_eq!(at(&g, 10, 5), Cell { ch: 0xDB, fg: Color::Success, bg: Color::Panel });
    assert_eq!(at(&g, 11, 5).ch, 0xDB);
    assert_eq!(at(&g, 12, 5).ch, 0xB0);
    assert_eq!(at(&g, 14, 5).ch, 0xB0);
    assert_eq!(at(&g, 15, 5).ch, b' ');
    g.bar(0, 6, 3, 9, Color::Success, Color::Panel);
    assert_eq!(at(&g, 2, 6).ch, 0xDB);
}

#[test]
fn selection_row_is_one_cell_high() {
    let t = Theme::default();
    let mut g = Grid::new(t.background);
    g.selection(4, 6, 20, true, "1", "New Adventure", &t);
    assert_eq!(at(&g, 4, 6), Cell { ch: b'?', fg: Color::Background, bg: Color::Accent });
    assert_eq!(at(&g, 6, 6).ch, b'1');
    assert_eq!(at(&g, 9, 6).ch, b'N');
    assert_eq!(at(&g, 23, 6).bg, Color::Accent);
    assert_eq!(at(&g, 24, 6).bg, Color::Background);
    assert_eq!(at(&g, 4, 5).bg, Color::Background);
    assert_eq!(at(&g, 4, 7).bg, Color::Background);
    g.selection(4, 8, 20, false, "2", "Continue", &t);
    assert_eq!(at(&g, 4, 8), Cell { ch: b' ', fg: Color::Text, bg: Color::Panel });
    assert_eq!(at(&g, 9, 8), Cell { ch: b'C', fg: Color::Text, bg: Color::Panel });
}

#[test]
fn cell_centres() {
    assert_eq!(cell_center(0, 0), (-792, 434));
    assert_eq!(cell_center(99, 27), (792, -430));
}

#[test]
fn sprites_skip_page_background_and_spaces() {
    let mut g = Grid::new(Color::Background);
    g.text(1, 0, "A", Color::Text);
    g.fill(3, 0, 1, 1, Color::Panel);
    let sprites = g.sprites(Color::Background);
    assert_eq!(
        sprites,
        vec![
            CellSprite { x: 1, y: 0, kind: SpriteKind::Glyph(b'A', Color::Text) },
            CellSprite { x: 3, y: 0, kind: SpriteKind::Background(Color::Panel) },
        ]
    );
    assert_eq!(g.sprites(Color::Panel).len(), 2800 - 1 + 1);
}
