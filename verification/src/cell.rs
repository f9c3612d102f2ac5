//! Cell occupants: simulation entities with mass, energy and a color. Only
//! the color reaches the vertex records; mass and energy are simulation
//! state that rendering ignores.

use vstd::prelude::*;
use crate::layout::{
    GridPos, Layout, MAX_GRID_SIDE, SIZE_RENDER_CELL_GRID, coord_x_of, coord_y_of, count_occ,
    idx_to_pos, lemma_count_occ_zero_all_none, lemma_index_roundtrip,
};

verus! {

/// A cell occupant. The color is one byte per RGB channel; the rendering
/// front end maps each channel to the device's unit-interval float at
/// upload.
#[derive(Debug, Clone, Copy)]
pub struct Cell {
    mass: u32,
    energy: u32,
    pub color: [u8; 3],
}

impl Cell {
    /// The cell's mass.
    pub closed spec fn spec_mass(&self) -> u32 {
        self.mass
    }

    /// The cell's stored energy.
    pub closed spec fn spec_energy(&self) -> u32 {
        self.energy
    }

    /// The cell's color, one byte per RGB channel.
    pub closed spec fn spec_color(&self) -> [u8; 3] {
        self.color
    }

    /// The cell's mass.
    pub fn mass(&self) -> (m: u32)
        ensures
            m == self.spec_mass(),
    {
        self.mass
    }

    /// The cell's stored energy.
    pub fn energy(&self) -> (e: u32)
        ensures
            e == self.spec_energy(),
    {
        self.energy
    }
}

impl Default for Cell {
    /// A fresh cell: mass 16, energy 256, mid-gray color.
    fn default() -> (c: Cell)
        ensures
            c.spec_mass() == 16,
            c.spec_energy() == 256,
            c.spec_color()[0] == 128,
            c.spec_color()[1] == 128,
            c.spec_color()[2] == 128,
    {
        Cell { mass: 16, energy: 256, color: [128, 128, 128] }
    }
}

/// One interleaved cell vertex: 2D position, UV corner, RGB color, as seven
/// scalars.
pub open spec fn cell_vertex(c: Cell, px: int, py: int, u: int, v: int) -> Seq<u32> {
    seq![
        px as u32,
        py as u32,
        u as u32,
        v as u32,
        c.spec_color()[0] as u32,
        c.spec_color()[1] as u32,
        c.spec_color()[2] as u32,
    ]
}

/// The six-vertex quad record of a cell at grid coordinate `(x, y)`: the two
/// triangles (top-left, top-right, bottom-left) and (bottom-left,
/// bottom-right, top-right), each vertex carrying the UV of its corner and
/// the cell's color. 42 scalars: six vertices of stride seven.
pub open spec fn cell_record(c: Cell, x: int, y: int) -> Seq<u32> {
    let s = SIZE_RENDER_CELL_GRID as int;
    let x0 = x * s;
    let y0 = y * s;
    let x1 = x * s + s;
    let y1 = y * s + s;
    cell_vertex(c, x0, y0, 0, 0) + cell_vertex(c, x1, y0, 1, 0) + cell_vertex(c, x0, y1, 0, 1)
        + cell_vertex(c, x0, y1, 0, 1) + cell_vertex(c, x1, y1, 1, 1) + cell_vertex(c, x1, y0, 1, 0)
}

/// The flat vertex buffer of one rebuild of a cell layout: the records of
/// every occupied slot among the first `n`, in increasing linear index
/// order.
pub open spec fn cells_buffer(s: Seq<Option<Cell>>, w: int, n: int) -> Seq<u32>
    decreases n,
{
    if n <= 0 {
        Seq::empty()
    } else {
        cells_buffer(s, w, n - 1) + match s[n - 1] {
            Some(c) => cell_record(c, coord_x_of(w, n - 1), coord_y_of(w, n - 1)),
            None => Seq::empty(),
        }
    }
}

/// The assembled buffer holds exactly 42 scalars per occupied slot.
pub proof fn lemma_cells_buffer_len(s: Seq<Option<Cell>>, w: int, n: int)
    requires
        0 <= n <= s.len(),
    ensures
        cells_buffer(s, w, n).len() == 42 * count_occ(s.take(n)),
    decreases n,
{
    if n > 0 {
        lemma_cells_buffer_len(s, w, n - 1);
        assert(s.take(n).drop_last() =~= s.take(n - 1));
        assert(s.take(n).last() == s[n - 1]);
    }
}

/// An all-empty prefix assembles to the empty buffer.
pub proof fn lemma_cells_buffer_all_none(s: Seq<Option<Cell>>, w: int, n: int)
    requires
        0 <= n <= s.len(),
        forall|i: int| 0 <= i < s.len() ==> s[i] is None,
    ensures
        cells_buffer(s, w, n) == Seq::<u32>::empty(),
    decreases n,
{
    if n > 0 {
        lemma_cells_buffer_all_none(s, w, n - 1);
        assert(cells_buffer(s, w, n) =~= Seq::<u32>::empty());
    }
}

/// Rebuilding without mutation in between is idempotent: the assembled
/// buffer is a function of the layout contents alone, so two buffers built
/// from the same layout are identical bit for bit.
pub proof fn lemma_cell_assembly_idempotent(cells: &Layout<Cell>, buf1: Seq<u32>, buf2: Seq<u32>)
    requires
        buf1 == cells_buffer(cells@, cells.spec_width(), cells@.len() as int),
        buf2 == cells_buffer(cells@, cells.spec_width(), cells@.len() as int),
    ensures
        buf1 == buf2,
{
}

impl Cell {
    /// Append one interleaved vertex to the buffer.
    fn push_vertex(buf: &mut Vec<u32>, c: &Cell, px: u32, py: u32, u: u32, v: u32)
        ensures
            final(buf)@ == old(buf)@ + cell_vertex(*c, px as int, py as int, u as int, v as int),
    {
        buf.push(px);
        buf.push(py);
        buf.push(u);
        buf.push(v);
        buf.push(c.color[0] as u32);
        buf.push(c.color[1] as u32);
        buf.push(c.color[2] as u32);
        proof {
            assert(buf@ =~= old(buf)@ + cell_vertex(*c, px as int, py as int, u as int, v as int));
        }
    }

    /// The six-vertex quad record of this cell at grid coordinate `pos`.
    /// Always exactly 42 scalars, whatever the position and color.
    pub fn create_render_data(&self, pos: GridPos) -> (buf: Vec<u32>)
        requires
            pos.x < MAX_GRID_SIDE,
            pos.y < MAX_GRID_SIDE,
        ensures
            buf@ == cell_record(*self, pos.x as int, pos.y as int),
            buf@.len() == 42,
    {
        let x0 = (pos.x as u32) * SIZE_RENDER_CELL_GRID;
        let y0 = (pos.y as u32) * SIZE_RENDER_CELL_GRID;
        let x1 = x0 + SIZE_RENDER_CELL_GRID;
        let y1 = y0 + SIZE_RENDER_CELL_GRID;
        let mut buf: Vec<u32> = Vec::new();
        Self::push_vertex(&mut buf, self, x0, y0, 0, 0);
        Self::push_vertex(&mut buf, self, x1, y0, 1, 0);
        Self::push_vertex(&mut buf, self, x0, y1, 0, 1);
        Self::push_vertex(&mut buf, self, x0, y1, 0, 1);
        Self::push_vertex(&mut buf, self, x1, y1, 1, 1);
        Self::push_vertex(&mut buf, self, x1, y0, 1, 0);
        buf
    }

    /// Walk the layout in increasing linear index order and concatenate the
    /// record of every occupied slot. An empty layout yields the empty
    /// buffer, so the caller can see from the vertex count alone that there
    /// is nothing to draw.
    pub fn init_render_cells(layout_cells: &Layout<Cell>) -> (buf: Vec<u32>)
        requires
            layout_cells.wf(),
        ensures
            buf@ == cells_buffer(layout_cells@, layout_cells.spec_width(), layout_cells@.len() as int),
            buf@.len() == 42 * count_occ(layout_cells@),
    {
        let ghost w = layout_cells.spec_width();
        let ghost h = layout_cells.spec_height();
        let mut buf: Vec<u32> = Vec::new();
        let n = layout_cells.len();
        proof {
            lemma_cells_buffer_len(layout_cells@, w, n as int);
            assert(layout_cells@.take(n as int) =~= layout_cells@);
        }

        if !layout_cells.is_need_render() {
            proof {
                lemma_count_occ_zero_all_none(layout_cells@);
                lemma_cells_buffer_all_none(layout_cells@, w, n as int);
            }
            return buf;
        }

        let mut i: usize = 0;
        while i < n
            invariant
                layout_cells.wf(),
                w == layout_cells.spec_width(),
                h == layout_cells.spec_height(),
                n == layout_cells@.len(),
                i <= n,
                buf@ == cells_buffer(layout_cells@, w, i as int),
            decreases n - i,
        {
            proof {
                lemma_index_roundtrip(w, h, i as int);
            }
            if let Some(c) = layout_cells.get_by_idx(i) {
                let pos = idx_to_pos(layout_cells.width(), i);
                let mut rec = c.create_render_data(pos);
                buf.append(&mut rec);
            } else {
                proof {
                    assert(cells_buffer(layout_cells@, w, (i + 1) as int) =~= cells_buffer(
                        layout_cells@,
                        w,
                        i as int,
                    ));
                }
            }
            i += 1;
        }
        buf
    }
}

} // verus!
