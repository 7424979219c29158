//! The RGBA pixels of the 256-glyph atlas: the IBM VGA 8 × 16 face laid out as 32
//! columns × 8 rows of glyphs, glyph `b` at column `b % 32`, row `b / 32`.
use vstd::prelude::*;

use crate::cp437::{glyph, vga_glyph};

verus! {

/// Width of the atlas, in pixels.
pub const ATLAS_W: usize = 256;
/// Height of the atlas, in pixels.
pub const ATLAS_H: usize = 128;

/// Whether pixel `col` (0 leftmost) of a glyph row is lit: bit `7 - col` is set.
pub open spec fn pixel_on(row_bits: u8, col: int) -> bool {
    row_bits & (0x80u8 >> (col as u8)) != 0
}

/// Alpha of atlas pixel (`px`, `py`): opaque where the glyph covering it has its
/// pixel lit, transparent elsewhere.
pub open spec fn atlas_alpha(glyphs: Seq<Seq<u8>>, px: int, py: int) -> u8 {
    let g = (py / 16) * 32 + px / 8;
    if pixel_on(glyphs[g][py % 16], px % 8) {
        255
    } else {
        0
    }
}

/// RGBA bytes of an atlas built from `glyphs`, row by row: every pixel is white,
/// with the alpha of `atlas_alpha`.
pub open spec fn atlas_bytes_ok(data: Seq<u8>, glyphs: Seq<Seq<u8>>) -> bool {
    &&& data.len() == ATLAS_W * ATLAS_H * 4
    &&& forall|p: int|
        0 <= p < ATLAS_W * ATLAS_H ==> {
            &&& #[trigger] data[4 * p] == 255
            &&& data[4 * p + 1] == 255
            &&& data[4 * p + 2] == 255
            &&& data[4 * p + 3] == atlas_alpha(glyphs, p % (ATLAS_W as int), p / (ATLAS_W as int))
        }
}

pub open spec fn glyph_rows(glyphs: Seq<[u8; 16]>) -> Seq<Seq<u8>> {
    glyphs.map_values(|g: [u8; 16]| g@)
}

/// The RGBA atlas bytes for the 256 glyphs `glyphs`, glyph `b` being `glyphs[b]`.
pub fn atlas_pixels(glyphs: &Vec<[u8; 16]>) -> (data: Vec<u8>)
    requires
        glyphs@.len() == 256,
    ensures
        atlas_bytes_ok(data@, glyph_rows(glyphs@)),
{
    let ghost rows = glyph_rows(glyphs@);
    let mut data: Vec<u8> = Vec::new();
    let mut py: usize = 0;
    while py < ATLAS_H
        invariant
            glyphs@.len() == 256,
            rows == glyph_rows(glyphs@),
            py <= ATLAS_H,
            data@.len() == 4 * (py * ATLAS_W),
            forall|p: int|
                0 <= p < py * ATLAS_W ==> {
                    &&& #[trigger] data@[4 * p] == 255
                    &&& data@[4 * p + 1] == 255
                    &&& data@[4 * p + 2] == 255
                    &&& data@[4 * p + 3] == atlas_alpha(rows, p % (ATLAS_W as int), p / (ATLAS_W as int))
                },
        decreases ATLAS_H - py,
    {
        let mut px: usize = 0;
        while px < ATLAS_W
            invariant
                glyphs@.len() == 256,
                rows == glyph_rows(glyphs@),
                py < ATLAS_H,
                px <= ATLAS_W,
                data@.len() == 4 * (py * ATLAS_W + px),
                forall|p: int|
                    0 <= p < py * ATLAS_W + px ==> {
                        &&& #[trigger] data@[4 * p] == 255
                        &&& data@[4 * p + 1] == 255
                        &&& data@[4 * p + 2] == 255
                        &&& data@[4 * p + 3] == atlas_alpha(rows, p % (ATLAS_W as int), p / (ATLAS_W as int))
                    },
            decreases ATLAS_W - px,
        {
            let g = (py / 16) * 32 + px / 8;
            let row = py % 16;
            let col = (px % 8) as u8;
            let on = (glyphs[g][row] & (0x80u8 >> col)) != 0;
            let ghost before = data@;
            data.push(255);
            data.push(255);
            data.push(255);
            data.push(if on { 255 } else { 0 });
            proof {
                let p = py * ATLAS_W + px;
                vstd::arithmetic::div_mod::lemma_fundamental_div_mod_converse(
                    p as int,
                    ATLAS_W as int,
                    py as int,
                    px as int,
                );
                assert(rows[g as int] == glyphs@[g as int]@);
                assert forall|q: int| 0 <= q < p + 1 implies {
                    &&& #[trigger] data@[4 * q] == 255
                    &&& data@[4 * q + 1] == 255
                    &&& data@[4 * q + 2] == 255
                    &&& data@[4 * q + 3] == atlas_alpha(rows, q % (ATLAS_W as int), q / (ATLAS_W as int))
                } by {
                    if q < p {
                        assert(data@[4 * q] == before[4 * q]);
                        assert(data@[4 * q + 1] == before[4 * q + 1]);
                        assert(data@[4 * q + 2] == before[4 * q + 2]);
                        assert(data@[4 * q + 3] == before[4 * q + 3]);
                    }
                }
            }
            px = px + 1;
        }
        py = py + 1;
    }
    data
}

/// The glyph rows of all 256 CP437 bytes, from the VGA face.
pub fn vga_glyphs() -> (glyphs: Vec<[u8; 16]>)
    ensures
        glyphs@.len() == 256,
        forall|b: int| 0 <= b < 256 ==> (#[trigger] glyphs@[b])@ == vga_glyph(b as u8),
{
    let mut glyphs: Vec<[u8; 16]> = Vec::new();
    let mut b: usize = 0;
    while b < 256
        invariant
            b <= 256,
            glyphs@.len() == b,
            forall|c: int| 0 <= c < b ==> (#[trigger] glyphs@[c])@ == vga_glyph(c as u8),
        decreases 256 - b,
    {
        glyphs.push(glyph(b as u8));
        b = b + 1;
    }
    glyphs
}

/// The glyph rows of the VGA face, indexed by CP437 byte.
pub open spec fn vga_table() -> Seq<Seq<u8>> {
    Seq::new(256, |b: int| vga_glyph(b as u8))
}

/// The RGBA bytes of the CP437 atlas drawn from the VGA face.
pub fn atlas_rgba() -> (data: Vec<u8>)
    ensures
        atlas_bytes_ok(data@, vga_table()),
{
    let glyphs = vga_glyphs();
    let data = atlas_pixels(&glyphs);
    assert(glyph_rows(glyphs@) =~= vga_table());
    data
}

/// Glyph `b` occupies the 8 × 16 tile at column `b % 32`, row `b / 32` of the atlas:
/// pixel (`col`, `row`) of that tile is opaque exactly where the glyph's pixel is lit.
pub proof fn lemma_atlas_tile(glyphs: Seq<Seq<u8>>, b: int, row: int, col: int)
    requires
        0 <= b < 256,
        0 <= row < 16,
        0 <= col < 8,
    ensures
        atlas_alpha(glyphs, (b % 32) * 8 + col, (b / 32) * 16 + row) == (if pixel_on(glyphs[b][row], col) {
            255u8
        } else {
            0u8
        }),
{
    let px = (b % 32) * 8 + col;
    let py = (b / 32) * 16 + row;
    vstd::arithmetic::div_mod::lemma_fundamental_div_mod_converse(px, 8, b % 32, col);
    vstd::arithmetic::div_mod::lemma_fundamental_div_mod_converse(py, 16, b / 32, row);
    vstd::arithmetic::div_mod::lemma_fundamental_div_mod(b, 32);
}

} // verus!
