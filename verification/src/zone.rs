//! Zone occupants: colored tiles whose rendering suppresses interior seams
//! between touching neighbors via a 4-bit adjacency mask.

use vstd::prelude::*;
use vstd::arithmetic::div_mod::lemma_fundamental_div_mod_converse;
use crate::layout::{
    GridPos, Layout, MAX_GRID_SIDE, SIZE_RENDER_CELL_GRID, coord_x_of, coord_y_of, count_occ,
    idx_to_pos, index_of, lemma_count_occ_zero_all_none, lemma_index_roundtrip,
};

verus! {

/// A zone occupant: an RGB color, one byte per channel. The rendering front
/// end maps each channel to the device's unit-interval float at upload.
#[derive(Debug, Clone, Copy, PartialEq)]
pub struct Zone {
    pub color: [u8; 3],
}

impl Default for Zone {
    /// A black zone.
    fn default() -> (z: Zone)
        ensures
            z.color[0] == 0,
            z.color[1] == 0,
            z.color[2] == 0,
    {
        Zone { color: [0, 0, 0] }
    }
}

/// True when the slot at coordinate `(x, y)` of a `w`-wide stored sequence
/// holds an occupant.
pub open spec fn occupied_at<T>(s: Seq<Option<T>>, w: int, x: int, y: int) -> bool {
    s[index_of(w, x, y)] is Some
}

/// The 4-bit adjacency mask of the tile at `(x, y)`: bit 0 is set when the
/// west neighbor `(x-1, y)` is occupied, bit 1 for north `(x, y+1)`, bit 2
/// for east `(x+1, y)`, bit 3 for south `(x, y-1)`. A direction that would
/// leave the grid never sets its bit.
pub open spec fn border_mask<T>(s: Seq<Option<T>>, w: int, h: int, x: int, y: int) -> u32 {
    ((if x > 0 && occupied_at(s, w, x - 1, y) {
        1int
    } else {
        0int
    }) + (if y + 1 < h && occupied_at(s, w, x, y + 1) {
        2int
    } else {
        0int
    }) + (if x + 1 < w && occupied_at(s, w, x + 1, y) {
        4int
    } else {
        0int
    }) + (if y > 0 && occupied_at(s, w, x, y - 1) {
        8int
    } else {
        0int
    })) as u32
}

/// Bit 0 of an adjacency mask: the west neighbor is an occupied zone.
pub open spec fn mask_west(m: u32) -> bool {
    (m as int) % 2 == 1
}

/// Bit 1 of an adjacency mask: the north neighbor is an occupied zone.
pub open spec fn mask_north(m: u32) -> bool {
    ((m as int) / 2) % 2 == 1
}

/// Bit 2 of an adjacency mask: the east neighbor is an occupied zone.
pub open spec fn mask_east(m: u32) -> bool {
    ((m as int) / 4) % 2 == 1
}

/// Bit 3 of an adjacency mask: the south neighbor is an occupied zone.
pub open spec fn mask_south(m: u32) -> bool {
    ((m as int) / 8) % 2 == 1
}

/// Each bit of the adjacency mask reads back exactly as the occupancy of the
/// neighbor in its direction, and the mask is a 4-bit value.
pub proof fn lemma_mask_bits<T>(s: Seq<Option<T>>, w: int, h: int, x: int, y: int)
    ensures
        mask_west(border_mask(s, w, h, x, y)) == (x > 0 && occupied_at(s, w, x - 1, y)),
        mask_north(border_mask(s, w, h, x, y)) == (y + 1 < h && occupied_at(s, w, x, y + 1)),
        mask_east(border_mask(s, w, h, x, y)) == (x + 1 < w && occupied_at(s, w, x + 1, y)),
        mask_south(border_mask(s, w, h, x, y)) == (y > 0 && occupied_at(s, w, x, y - 1)),
        border_mask(s, w, h, x, y) <= 15,
{
    let a: int = if x > 0 && occupied_at(s, w, x - 1, y) { 1 } else { 0 };
    let b: int = if y + 1 < h && occupied_at(s, w, x, y + 1) { 1 } else { 0 };
    let c: int = if x + 1 < w && occupied_at(s, w, x + 1, y) { 1 } else { 0 };
    let d: int = if y > 0 && occupied_at(s, w, x, y - 1) { 1 } else { 0 };
    let m = a + 2 * b + 4 * c + 8 * d;
    assert(border_mask(s, w, h, x, y) == m as u32);
    lemma_fundamental_div_mod_converse(m, 2, b + 2 * c + 4 * d, a);
    lemma_fundamental_div_mod_converse(b + 2 * c + 4 * d, 2, c + 2 * d, b);
    lemma_fundamental_div_mod_converse(c + 2 * d, 2, d, c);
    lemma_fundamental_div_mod_converse(m, 8, d, a + 2 * b + 4 * c);
    assert((m / 4) % 2 == c) by {
        lemma_fundamental_div_mod_converse(m, 4, c + 2 * d, a + 2 * b);
        lemma_fundamental_div_mod_converse(c + 2 * d, 2, d, c);
    }
}

/// A mask never claims a neighbor beyond the grid edge: at the western
/// column the west bit is clear, and likewise for the other three borders,
/// whatever the stored sequence holds.
pub proof fn lemma_border_mask_respects_bounds<T>(s: Seq<Option<T>>, w: int, h: int, x: int, y: int)
    ensures
        x <= 0 ==> !mask_west(border_mask(s, w, h, x, y)),
        y + 1 >= h ==> !mask_north(border_mask(s, w, h, x, y)),
        x + 1 >= w ==> !mask_east(border_mask(s, w, h, x, y)),
        y <= 0 ==> !mask_south(border_mask(s, w, h, x, y)),
{
    lemma_mask_bits(s, w, h, x, y);
}

/// Adjacency is symmetric. For two occupied tiles side by side, the western
/// one sets its east bit and the eastern one sets its west bit; for two
/// stacked tiles, the lower one sets its north bit and the upper one its
/// south bit.
pub proof fn lemma_border_symmetry<T>(s: Seq<Option<T>>, w: int, h: int, x: int, y: int)
    requires
        0 <= x,
        0 <= y,
    ensures
        x + 1 < w && occupied_at(s, w, x + 1, y) ==> mask_east(border_mask(s, w, h, x, y)),
        x + 1 < w && occupied_at(s, w, x, y) ==> mask_west(border_mask(s, w, h, x + 1, y)),
        y + 1 < h && occupied_at(s, w, x, y + 1) ==> mask_north(border_mask(s, w, h, x, y)),
        y + 1 < h && occupied_at(s, w, x, y) ==> mask_south(border_mask(s, w, h, x, y + 1)),
{
    lemma_mask_bits(s, w, h, x, y);
    lemma_mask_bits(s, w, h, x + 1, y);
    lemma_mask_bits(s, w, h, x, y + 1);
}

/// One interleaved zone vertex: 2D position, UV corner, RGB color, border
/// mask, as eight scalars.
pub open spec fn zone_vertex(z: Zone, px: int, py: int, u: int, v: int, mask: u32) -> Seq<u32> {
    seq![
        px as u32,
        py as u32,
        u as u32,
        v as u32,
        z.color[0] as u32,
        z.color[1] as u32,
        z.color[2] as u32,
        mask,
    ]
}

/// The six-vertex quad record of a zone at grid coordinate `(x, y)`: the two
/// triangles (top-left, top-right, bottom-left) and (bottom-left,
/// bottom-right, top-right), each vertex carrying the UV of its corner and
/// the tile's color and mask. 48 scalars: six vertices of stride eight.
pub open spec fn zone_record(z: Zone, x: int, y: int, mask: u32) -> Seq<u32> {
    let s = SIZE_RENDER_CELL_GRID as int;
    let x0 = x * s;
    let y0 = y * s;
    let x1 = x * s + s;
    let y1 = y * s + s;
    zone_vertex(z, x0, y0, 0, 0, mask) + zone_vertex(z, x1, y0, 1, 0, mask) + zone_vertex(
        z,
        x0,
        y1,
        0,
        1,
        mask,
    ) + zone_vertex(z, x0, y1, 0, 1, mask) + zone_vertex(z, x1, y1, 1, 1, mask) + zone_vertex(
        z,
        x1,
        y0,
        1,
        0,
        mask,
    )
}

/// The flat vertex buffer of one rebuild of a zone layout: the records of
/// every occupied slot among the first `n`, in increasing linear index
/// order, each with the adjacency mask of its coordinate.
pub open spec fn zones_buffer(s: Seq<Option<Zone>>, w: int, h: int, n: int) -> Seq<u32>
    decreases n,
{
    if n <= 0 {
        Seq::empty()
    } else {
        zones_buffer(s, w, h, n - 1) + match s[n - 1] {
            Some(z) => zone_record(
                z,
                coord_x_of(w, n - 1),
                coord_y_of(w, n - 1),
                border_mask(s, w, h, coord_x_of(w, n - 1), coord_y_of(w, n - 1)),
            ),
            None => Seq::empty(),
        }
    }
}

/// The assembled buffer holds exactly 48 scalars per occupied slot.
pub proof fn lemma_zones_buffer_len(s: Seq<Option<Zone>>, w: int, h: int, n: int)
    requires
        0 <= n <= s.len(),
    ensures
        zones_buffer(s, w, h, n).len() == 48 * count_occ(s.take(n)),
    decreases n,
{
    if n > 0 {
        lemma_zones_buffer_len(s, w, h, n - 1);
        assert(s.take(n).drop_last() =~= s.take(n - 1));
        assert(s.take(n).last() == s[n - 1]);
    }
}

/// An all-empty prefix assembles to the empty buffer.
pub proof fn lemma_zones_buffer_all_none(s: Seq<Option<Zone>>, w: int, h: int, n: int)
    requires
        0 <= n <= s.len(),
        forall|i: int| 0 <= i < s.len() ==> s[i] is None,
    ensures
        zones_buffer(s, w, h, n) == Seq::<u32>::empty(),
    decreases n,
{
    if n > 0 {
        lemma_zones_buffer_all_none(s, w, h, n - 1);
        assert(zones_buffer(s, w, h, n) =~= Seq::<u32>::empty());
    }
}

/// Rebuilding without mutation in between is idempotent: the assembled
/// buffer is a function of the layout contents alone, so two buffers built
/// from the same layout are identical bit for bit.
pub proof fn lemma_assembly_idempotent(
    zones: &Layout<Zone>,
    buf1: Seq<u32>,
    buf2: Seq<u32>,
)
    requires
        buf1 == zones_buffer(zones@, zones.spec_width(), zones.spec_height(), zones@.len() as int),
        buf2 == zones_buffer(zones@, zones.spec_width(), zones.spec_height(), zones@.len() as int),
    ensures
        buf1 == buf2,
{
}

impl Zone {
    /// The adjacency mask of the tile at `pos`: for each of the four axis
    /// neighbors that exists on the grid (edges never wrap), the direction's
    /// bit is set iff that neighbor slot is occupied.
    pub fn checking_neighbors(pos: GridPos, zones: &Layout<Zone>) -> (m: u32)
        requires
            zones.wf(),
            zones.pos_in_range(pos),
        ensures
            m == border_mask(
                zones@,
                zones.spec_width(),
                zones.spec_height(),
                pos.x as int,
                pos.y as int,
            ),
            m <= 15,
    {
        let mut borders: u32 = 0;

        if pos.x > 0 {
            if zones.get_by_pos(GridPos { x: pos.x - 1, y: pos.y }).is_some() {
                borders += 1;
            }
        }

        if pos.y + 1 < zones.height() {
            if zones.get_by_pos(GridPos { x: pos.x, y: pos.y + 1 }).is_some() {
                borders += 2;
            }
        }

        if pos.x + 1 < zones.width() {
            if zones.get_by_pos(GridPos { x: pos.x + 1, y: pos.y }).is_some() {
                borders += 4;
            }
        }

        if pos.y > 0 {
            if zones.get_by_pos(GridPos { x: pos.x, y: pos.y - 1 }).is_some() {
                borders += 8;
            }
        }

        borders
    }

    /// Append one interleaved vertex to the buffer.
    fn push_vertex(buf: &mut Vec<u32>, z: &Zone, px: u32, py: u32, u: u32, v: u32, mask: u32)
        ensures
            final(buf)@ == old(buf)@ + zone_vertex(*z, px as int, py as int, u as int, v as int, mask),
    {
        buf.push(px);
        buf.push(py);
        buf.push(u);
        buf.push(v);
        buf.push(z.color[0] as u32);
        buf.push(z.color[1] as u32);
        buf.push(z.color[2] as u32);
        buf.push(mask);
        proof {
            assert(buf@ =~= old(buf)@ + zone_vertex(
                *z,
                px as int,
                py as int,
                u as int,
                v as int,
                mask,
            ));
        }
    }

    /// The six-vertex quad record of this zone at grid coordinate `pos`,
    /// with the given adjacency mask broadcast to every vertex. Always
    /// exactly 48 scalars, whatever the position, color and mask.
    pub fn create_render_data(&self, pos: GridPos, borders: u32) -> (buf: Vec<u32>)
        requires
            pos.x < MAX_GRID_SIDE,
            pos.y < MAX_GRID_SIDE,
        ensures
            buf@ == zone_record(*self, pos.x as int, pos.y as int, borders),
            buf@.len() == 48,
    {
        let x0 = (pos.x as u32) * SIZE_RENDER_CELL_GRID;
        let y0 = (pos.y as u32) * SIZE_RENDER_CELL_GRID;
        let x1 = x0 + SIZE_RENDER_CELL_GRID;
        let y1 = y0 + SIZE_RENDER_CELL_GRID;
        let mut buf: Vec<u32> = Vec::new();
        Self::push_vertex(&mut buf, self, x0, y0, 0, 0, borders);
        Self::push_vertex(&mut buf, self, x1, y0, 1, 0, borders);
        Self::push_vertex(&mut buf, self, x0, y1, 0, 1, borders);
        Self::push_vertex(&mut buf, self, x0, y1, 0, 1, borders);
        Self::push_vertex(&mut buf, self, x1, y1, 1, 1, borders);
        Self::push_vertex(&mut buf, self, x1, y0, 1, 0, borders);
        buf
    }

    /// Walk the layout in increasing linear index order and concatenate the
    /// record of every occupied slot, computing each tile's adjacency mask
    /// fresh. An empty layout yields the empty buffer, so the caller can see
    /// from the vertex count alone that there is nothing to draw.
    pub fn init_render_zones(zones: &Layout<Zone>) -> (buf: Vec<u32>)
        requires
            zones.wf(),
        ensures
            buf@ == zones_buffer(
                zones@,
                zones.spec_width(),
                zones.spec_height(),
                zones@.len() as int,
            ),
            buf@.len() == 48 * count_occ(zones@),
    {
        let ghost w = zones.spec_width();
        let ghost h = zones.spec_height();
        let mut buf: Vec<u32> = Vec::new();
        let n = zones.len();
        proof {
            lemma_zones_buffer_len(zones@, w, h, n as int);
            assert(zones@.take(n as int) =~= zones@);
        }

        if !zones.is_need_render() {
            proof {
                lemma_count_occ_zero_all_none(zones@);
                lemma_zones_buffer_all_none(zones@, w, h, n as int);
            }
            return buf;
        }

        let mut i: usize = 0;
        while i < n
            invariant
                zones.wf(),
                w == zones.spec_width(),
                h == zones.spec_height(),
                n == zones@.len(),
                i <= n,
                buf@ == zones_buffer(zones@, w, h, i as int),
            decreases n - i,
        {
            proof {
                lemma_index_roundtrip(w, h, i as int);
            }
            if let Some(z) = zones.get_by_idx(i) {
                let pos = idx_to_pos(zones.width(), i);
                let mask = Zone::checking_neighbors(pos, zones);
                let mut rec = z.create_render_data(pos, mask);
                buf.append(&mut rec);
            } else {
                proof {
                    assert(zones_buffer(zones@, w, h, (i + 1) as int) =~= zones_buffer(
                        zones@,
                        w,
                        h,
                        i as int,
                    ));
                }
            }
            i += 1;
        }
        buf
    }
}

} // verus!
