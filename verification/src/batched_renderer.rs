//! Layout of the two-draw-call renderer of the 100 × 28 grid: one quad per cell for
//! the background layer and one textured quad per non-space cell for the glyph
//! layer. This module computes cell rectangles, atlas tiles and index buffers; the
//! caller turns them into meshes.
use vstd::prelude::*;

use crate::theme::Color;
use crate::cp437_grid::{
    cell_center_spec, grid_len, Cell, Grid, CELL_H, CELL_W, GRID_COLS, GRID_PIXEL_HEIGHT,
    GRID_PIXEL_WIDTH, GRID_ROWS,
};

verus! {

/// Left, right, bottom and top pixel edges of the cell at column `x`, row `y`, with
/// the origin at the centre of the 1600 × 900 window and y growing upwards. The
/// 896-pixel grid sits 2 pixels above the window's centre line, which leaves the
/// 4 pixels of slack below it.
pub open spec fn cell_rect_spec(x: int, y: int) -> (int, int, int, int) {
    let left = -(GRID_PIXEL_WIDTH / 2) + x * CELL_W;
    let top = GRID_PIXEL_HEIGHT / 2 - y * CELL_H + 2;
    (left, left + CELL_W, top - CELL_H, top)
}

/// The pixel rectangle of the cell at column `x`, row `y`.
pub fn cell_rect(x: usize, y: usize) -> (r: (i32, i32, i32, i32))
    requires
        x < GRID_COLS,
        y < GRID_ROWS,
    ensures
        (r.0 as int, r.1 as int, r.2 as int, r.3 as int) == cell_rect_spec(x as int, y as int),
{
    let left = -(GRID_PIXEL_WIDTH / 2) + (x as i32) * CELL_W;
    let right = left + CELL_W;
    let top = GRID_PIXEL_HEIGHT / 2 - (y as i32) * CELL_H + 2;
    let bottom = top - CELL_H;
    (left, right, bottom, top)
}

/// Column and row of CP437 byte `ch` in the 32 × 8 glyph atlas.
pub fn glyph_tile(ch: u8) -> (tile: (u32, u32))
    ensures
        tile.0 == ch as int % 32,
        tile.1 == ch as int / 32,
        tile.0 < 32,
        tile.1 < 8,
{
    ((ch % 32) as u32, (ch / 32) as u32)
}

/// The six indices of the two triangles of the quad whose four vertices start at `base`.
pub open spec fn quad_spec(base: int) -> Seq<int> {
    seq![base, base + 1, base + 2, base, base + 2, base + 3]
}

/// Index buffer of `n` quads laid out one after another, four vertices each.
pub open spec fn quads_spec(n: nat) -> Seq<int>
    decreases n,
{
    if n == 0 {
        seq![]
    } else {
        quads_spec((n - 1) as nat) + quad_spec(4 * (n - 1))
    }
}

/// Appends the indices of the quad whose vertices start at `base`.
pub fn push_quad_indices(indices: &mut Vec<u32>, base: u32)
    requires
        base + 3 <= u32::MAX,
    ensures
        final(indices)@.map_values(|i: u32| i as int) == old(indices)@.map_values(|i: u32| i as int)
            + quad_spec(base as int),
{
    indices.push(base);
    indices.push(base + 1);
    indices.push(base + 2);
    indices.push(base);
    indices.push(base + 2);
    indices.push(base + 3);
    proof {
        assert(indices@.map_values(|i: u32| i as int) =~= old(indices)@.map_values(|i: u32| i as int)
            + quad_spec(base as int));
    }
}

/// Indices of the cells drawn on the glyph layer among the first `k`: those that
/// are not a space, in order.
pub open spec fn glyph_cells_spec(cells: Seq<Cell>, k: nat) -> Seq<int>
    decreases k,
{
    if k == 0 {
        seq![]
    } else if cells[k - 1].ch != 0x20 {
        glyph_cells_spec(cells, (k - 1) as nat).push(k - 1)
    } else {
        glyph_cells_spec(cells, (k - 1) as nat)
    }
}

/// What the two meshes are made of.
pub struct MeshIndices {
    /// Index buffer of the background layer: one quad per cell, row by row.
    pub background: Vec<u32>,
    /// Indices of the cells that get a glyph quad, in order.
    pub glyph_cells: Vec<usize>,
    /// Index buffer of the glyph layer: one quad per entry of `glyph_cells`.
    pub glyphs: Vec<u32>,
}

pub proof fn lemma_glyph_cells_len(cells: Seq<Cell>, k: nat)
    ensures
        glyph_cells_spec(cells, k).len() <= k,
    decreases k,
{
    if k > 0 {
        lemma_glyph_cells_len(cells, (k - 1) as nat);
    }
}

/// The index buffers of both layers and the cells of the glyph layer.
pub fn mesh_indices(grid: &Grid) -> (m: MeshIndices)
    requires
        grid@.len() == grid_len(),
    ensures
        m.background@.map_values(|i: u32| i as int) == quads_spec(grid_len() as nat),
        m.glyph_cells@.map_values(|i: usize| i as int) == glyph_cells_spec(grid@, grid_len() as nat),
        m.glyphs@.map_values(|i: u32| i as int) == quads_spec(m.glyph_cells@.len()),
{
    let cells = grid.cells();
    let n = GRID_COLS * GRID_ROWS;
    let mut background: Vec<u32> = Vec::new();
    let mut glyph_cells: Vec<usize> = Vec::new();
    let mut glyphs: Vec<u32> = Vec::new();
    let mut k: usize = 0;
    proof {
        assert(background@.map_values(|i: u32| i as int) =~= quads_spec(0));
        assert(glyph_cells@.map_values(|i: usize| i as int) =~= glyph_cells_spec(grid@, 0));
        assert(glyphs@.map_values(|i: u32| i as int) =~= quads_spec(0));
    }
    while k < n
        invariant
            n == grid_len(),
            cells@ == grid@,
            grid@.len() == grid_len(),
            k <= n,
            background@.map_values(|i: u32| i as int) == quads_spec(k as nat),
            glyph_cells@.map_values(|i: usize| i as int) == glyph_cells_spec(grid@, k as nat),
            glyphs@.map_values(|i: u32| i as int) == quads_spec(glyph_cells@.len()),
            glyph_cells@.len() <= k,
        decreases n - k,
    {
        let base = (4 * k) as u32;
        push_quad_indices(&mut background, base);
        if cells[k].ch != 0x20 {
            let glyph_base = (4 * glyph_cells.len()) as u32;
            push_quad_indices(&mut glyphs, glyph_base);
            glyph_cells.push(k);
            proof {
                assert(glyph_cells@.map_values(|i: usize| i as int) =~= glyph_cells_spec(grid@, k as nat).push(
                    k as int,
                ));
            }
        }
        k = k + 1;
    }
    MeshIndices { background, glyph_cells, glyphs }
}

/// Colour role of every vertex of the background layer: the four vertices of cell
/// `i` (vertices `4i` to `4i + 3`) carry that cell's background.
pub open spec fn background_roles_spec(cells: Seq<Cell>) -> Seq<Color> {
    Seq::new(4 * cells.len(), |v: int| cells[v / 4].bg)
}

/// The background role of each vertex of the background layer, four per cell, in
/// the order of the background index buffer.
pub fn background_vertex_roles(grid: &Grid) -> (roles: Vec<Color>)
    requires
        grid@.len() == grid_len(),
    ensures
        roles@ == background_roles_spec(grid@),
{
    let cells = grid.cells();
    let n = GRID_COLS * GRID_ROWS;
    let mut roles: Vec<Color> = Vec::new();
    let mut k: usize = 0;
    while k < n
        invariant
            n == grid_len(),
            cells@ == grid@,
            grid@.len() == grid_len(),
            k <= n,
            roles@.len() == 4 * k,
            forall|v: int| 0 <= v < 4 * k ==> #[trigger] roles@[v] == grid@[v / 4].bg,
        decreases n - k,
    {
        let bg = cells[k].bg;
        let ghost before = roles@;
        roles.push(bg);
        roles.push(bg);
        roles.push(bg);
        roles.push(bg);
        proof {
            assert forall|v: int| 0 <= v < 4 * (k + 1) implies #[trigger] roles@[v] == grid@[v / 4].bg by {
                if v < 4 * k {
                    assert(roles@[v] == before[v]);
                } else {
                    assert(v / 4 == k as int);
                }
            }
        }
        k = k + 1;
    }
    assert(roles@ =~= background_roles_spec(grid@));
    roles
}

/// Index `j % 6` of a quad's six indices, relative to its first vertex.
pub open spec fn quad_offset(j: int) -> int {
    if j == 0 || j == 3 {
        0
    } else if j == 1 {
        1
    } else if j == 2 || j == 4 {
        2
    } else {
        3
    }
}

/// An index buffer of `n` quads has six indices per quad, each naming one of that
/// quad's four vertices; so every index names an existing vertex (below `4n`).
pub proof fn lemma_quads_in_range(n: nat)
    ensures
        quads_spec(n).len() == 6 * n,
        forall|j: int|
            0 <= j < 6 * n ==> #[trigger] quads_spec(n)[j] == 4 * (j / 6) + quad_offset(j % 6)
                && 0 <= quads_spec(n)[j] < 4 * n,
    decreases n,
{
    if n > 0 {
        lemma_quads_in_range((n - 1) as nat);
        let prev = quads_spec((n - 1) as nat);
        let q = quad_spec(4 * (n - 1));
        assert forall|j: int| 0 <= j < 6 * n implies #[trigger] quads_spec(n)[j] == 4 * (j / 6) + quad_offset(
            j % 6,
        ) && 0 <= quads_spec(n)[j] < 4 * n by {
            if j < 6 * (n - 1) {
                assert(quads_spec(n)[j] == prev[j]);
            } else {
                assert(quads_spec(n)[j] == q[j - 6 * (n - 1)]);
            }
        }
    }
}

/// The glyph layer holds exactly the cells that are not a space, each once, in
/// increasing order.
pub proof fn lemma_glyph_cells(cells: Seq<Cell>, k: nat)
    requires
        k <= cells.len(),
    ensures
        forall|a: int, b: int|
            0 <= a < b < glyph_cells_spec(cells, k).len() ==> #[trigger] glyph_cells_spec(cells, k)[a]
                < #[trigger] glyph_cells_spec(cells, k)[b],
        forall|a: int|
            0 <= a < glyph_cells_spec(cells, k).len() ==> 0 <= #[trigger] glyph_cells_spec(cells, k)[a] < k
                && cells[glyph_cells_spec(cells, k)[a]].ch != 0x20,
        forall|i: int|
            0 <= i < k && cells[i].ch != 0x20 ==> #[trigger] glyph_cells_spec(cells, k).contains(i),
    decreases k,
{
    if k > 0 {
        lemma_glyph_cells(cells, (k - 1) as nat);
        let prev = glyph_cells_spec(cells, (k - 1) as nat);
        if cells[k - 1].ch != 0x20 {
            let cur = prev.push(k - 1);
            assert forall|i: int| 0 <= i < k && cells[i].ch != 0x20 implies #[trigger] cur.contains(i) by {
                if i < k - 1 {
                    assert(prev.contains(i));
                    let a = choose|a: int| 0 <= a < prev.len() && prev[a] == i;
                    assert(cur[a] == i);
                } else {
                    assert(cur[prev.len() as int] == i);
                }
            }
        }
    }
}

/// The cell rectangles tile the grid without gaps: neighbouring cells share an
/// edge, and together they span `[-800, 800] × [-446, 450]`.
pub proof fn lemma_cells_tile_grid(x: int, y: int)
    requires
        0 <= x < GRID_COLS,
        0 <= y < GRID_ROWS,
    ensures
        cell_rect_spec(x, y).1 - cell_rect_spec(x, y).0 == CELL_W,
        cell_rect_spec(x, y).3 - cell_rect_spec(x, y).2 == CELL_H,
        x + 1 < GRID_COLS ==> cell_rect_spec(x + 1, y).0 == cell_rect_spec(x, y).1,
        y + 1 < GRID_ROWS ==> cell_rect_spec(x, y + 1).3 == cell_rect_spec(x, y).2,
        cell_rect_spec(0, y).0 == -800,
        cell_rect_spec(GRID_COLS - 1, y).1 == 800,
        cell_rect_spec(x, 0).3 == 450,
        cell_rect_spec(x, GRID_ROWS - 1).2 == -446,
{
}

/// Both renderers put a cell in the same place: the centre of the batched cell
/// rectangle is the centre that the per-cell renderer draws the sprite at.
pub proof fn lemma_center_in_cell(x: int, y: int)
    ensures
        (cell_rect_spec(x, y).0 + cell_rect_spec(x, y).1) / 2 == cell_center_spec(x, y).0,
        (cell_rect_spec(x, y).2 + cell_rect_spec(x, y).3) / 2 == cell_center_spec(x, y).1,
{
}

} // verus!
