use dsh_frontend::atlas::{atlas_pixels, atlas_rgba, ATLAS_H, ATLAS_W};
use dsh_frontend::batched_renderer::{background_vertex_roles, cell_rect, glyph_tile, mesh_indices, push_quad_indices};
use dsh_frontend::cp437_grid::{cell_center, Grid};
use dsh_frontend::theme::Color;

#[test]
fn cell_rectangles() {
    assert_eq!(cell_rect(0, 0), (-800, -784, 418, 450));
    assert_eq!(cell_rect(99, 27), (784, 800, -446, -414));
    assert_eq!(cell_rect(1, 0).0, cell_rect(0, 0).1);
}

#[test]
fn glyph_tiles() {
    assert_eq!(glyph_tile(0), (0, 0));
    assert_eq!(glyph_tile(0xC9), (9, 6));
    assert_eq!(glyph_tile(255), (31, 7));
}

#[test]
fn quad_indices() {
    let mut v = vec![7u32];
    push_quad_indices(&mut v, 8);
    assert_eq!(v, vec![7, 8, 9, 10, 8, 10, 11]);
}

#[test]
fn mesh_index_buffers() {
    let mut g = Grid::new(Color::Background);
    g.text(2, 0, "AB", Color::Text);
    g.text(0, 1, "C", Color::Text);
    let m = mesh_indices(&g);
    assert_eq!(m.background.len(), 2800 * 6);
    assert_eq!(&m.background[6..12], &[4, 5, 6, 4, 6, 7]);
    assert_eq!(*m.background.iter().max().unwrap(), 4 * 2800 - 1);
    assert_eq!(m.glyph_cells, vec![2, 3, 100]);
    assert_eq!(m.glyphs, vec![0, 1, 2, 0, 2, 3, 4, 5, 6, 4, 6, 7, 8, 9, 10, 8, 10, 11]);
}

#[test]
fn atlas_from_custom_glyphs() {
    let mut glyphs = vec![[0u8; 16]; 256];
    glyphs[33][2] = 0b1000_0001;
    let data = atlas_pixels(&glyphs);
    assert_eq!(data.len(), ATLAS_W * ATLAS_H * 4);
    // glyph 33 sits at tile column 1, row 1: pixels x 8..16, y 16..32.
    let alpha = |px: usize, py: usize| data[(py * ATLAS_W + px) * 4 + 3];
    assert_eq!(alpha(8, 18), 255);
    assert_eq!(alpha(15, 18), 255);
    assert_eq!(alpha(9, 18), 0);
    assert_eq!(alpha(8, 17), 0);
    assert_eq!(data[0], 255);
    assert_eq!(data[3], 0);
}

#[test]
fn atlas_of_vga_face() {
    let data = atlas_rgba();
    assert_eq!(data.len(), 256 * 128 * 4);
    // 'A' (0x41) is tile column 1, row 2; its row 7 is the crossbar ##...## lit.
    let alpha = |px: usize, py: usize| data[(py * ATLAS_W + px) * 4 + 3];
    let row = 2 * 16 + 7;
    let lit: Vec<u8> = (0..8).map(|c| alpha(8 + c, row)).collect();
    assert_eq!(lit, vec![255, 255, 255, 255, 255, 255, 255, 0]);
    // The space glyph is empty.
    for py in 16..32 {
        for px in 0..8 {
            assert_eq!(alpha(px, py), 0);
        }
    }
}

#[test]
fn cell_rectangles_centre_on_sprite_positions() {
    for y in 0..28 {
        for x in 0..100 {
            let (l, r, b, t) = cell_rect(x, y);
            assert_eq!(((l + r) / 2, (b + t) / 2), cell_center(x, y));
            assert_eq!((r - l, t - b), (16, 32));
        }
    }
    assert_eq!(cell_center(0, 0), (-792, 434));
}

#[test]
fn background_vertices_carry_cell_backgrounds() {
    let mut g = Grid::new(Color::Background);
    g.fill(1, 0, 2, 1, Color::Panel);
    g.fill(0, 1, 1, 1, Color::Accent);
    let roles = background_vertex_roles(&g);
    assert_eq!(roles.len(), 2800 * 4);
    assert_eq!(&roles[0..4], &[Color::Background; 4]);
    assert_eq!(&roles[4..12], &[Color::Panel; 8]);
    assert_eq!(roles[12], Color::Background);
    assert_eq!(&roles[400..404], &[Color::Accent; 4]);
    assert_eq!(roles[404], Color::Background);
}
