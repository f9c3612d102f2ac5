//! Dense 2D grid container with O(1) coordinate/index mapping and
//! incremental occupancy tracking.

use vstd::prelude::*;
use vstd::arithmetic::div_mod::{lemma_fundamental_div_mod, lemma_fundamental_div_mod_converse};

verus! {

/// Grid extent used by the editor's world, in cells.
pub const SIZE_GRID_W: usize = 32;
pub const SIZE_GRID_H: usize = 32;

/// Side length of one cell in render units. Every vertex position produced by
/// the mesh builders is a multiple of this value.
pub const SIZE_RENDER_CELL_GRID: u32 = 8;

/// Upper bound on either grid side, so that every derived quantity (linear
/// index, vertex position, total buffer length) fits its machine integer.
pub const MAX_GRID_SIDE: usize = 4096;

/// A grid coordinate: `0 <= x < width`, `0 <= y < height` when in range.
#[derive(Clone, Copy, Debug, PartialEq, Eq, Structural)]
pub struct GridPos {
    pub x: usize,
    pub y: usize,
}

/// Linear storage index of coordinate `(x, y)` on a grid `w` cells wide.
pub open spec fn index_of(w: int, x: int, y: int) -> int {
    y * w + x
}

/// The x coordinate stored at linear index `i` on a grid `w` cells wide.
pub open spec fn coord_x_of(w: int, i: int) -> int {
    i % w
}

/// The y coordinate stored at linear index `i` on a grid `w` cells wide.
pub open spec fn coord_y_of(w: int, i: int) -> int {
    i / w
}

/// Coordinate-to-index mapping: `index = y * width + x`.
pub fn pos_to_idx(width: usize, pos: GridPos) -> (i: usize)
    requires
        0 < width,
        pos.x < width,
        index_of(width as int, pos.x as int, pos.y as int) <= usize::MAX,
    ensures
        i == index_of(width as int, pos.x as int, pos.y as int),
{
    pos.y * width + pos.x
}

/// Index-to-coordinate mapping: `(index % width, index / width)`.
pub fn idx_to_pos(width: usize, index: usize) -> (pos: GridPos)
    requires
        0 < width,
    ensures
        pos.x == coord_x_of(width as int, index as int),
        pos.y == coord_y_of(width as int, index as int),
{
    GridPos { x: index % width, y: index / width }
}

/// Number of occupied (`Some`) slots in a stored sequence.
pub open spec fn count_occ<T>(s: Seq<Option<T>>) -> nat
    decreases s.len(),
{
    if s.len() == 0 {
        0
    } else {
        count_occ(s.drop_last()) + (if s.last() is Some {
            1nat
        } else {
            0nat
        })
    }
}

/// There are never more occupied slots than slots.
pub proof fn lemma_count_occ_le_len<T>(s: Seq<Option<T>>)
    ensures
        count_occ(s) <= s.len(),
    decreases s.len(),
{
    if s.len() > 0 {
        lemma_count_occ_le_len(s.drop_last());
    }
}

/// Overwriting one slot changes the occupancy count by exactly the
/// difference between the new and the old entry.
pub proof fn lemma_count_occ_update<T>(s: Seq<Option<T>>, i: int, v: Option<T>)
    requires
        0 <= i < s.len(),
    ensures
        count_occ(s.update(i, v)) == count_occ(s) - (if s[i] is Some {
            1int
        } else {
            0int
        }) + (if v is Some {
            1int
        } else {
            0int
        }),
    decreases s.len(),
{
    let t = s.update(i, v);
    if i == s.len() - 1 {
        assert(t.drop_last() =~= s.drop_last());
    } else {
        assert(t.drop_last() =~= s.drop_last().update(i, v));
        lemma_count_occ_update(s.drop_last(), i, v);
    }
}

/// A layout without occupants is empty in every slot.
pub proof fn lemma_count_occ_zero_all_none<T>(s: Seq<Option<T>>)
    requires
        count_occ(s) == 0,
    ensures
        forall|i: int| 0 <= i < s.len() ==> s[i] is None,
    decreases s.len(),
{
    if s.len() > 0 {
        lemma_count_occ_zero_all_none(s.drop_last());
        assert(s.last() is None);
        assert forall|i: int| 0 <= i < s.len() implies s[i] is None by {
            if i < s.len() - 1 {
                assert(s.drop_last()[i] is None);
            } else {
                assert(s[i] == s.last());
            }
        }
    }
}

/// A sequence with an occupied slot has at least one occupant.
pub proof fn lemma_count_occ_pos<T>(s: Seq<Option<T>>, i: int)
    requires
        0 <= i < s.len(),
        s[i] is Some,
    ensures
        count_occ(s) >= 1,
    decreases s.len(),
{
    if i < s.len() - 1 {
        assert(s.drop_last()[i] == s[i]);
        lemma_count_occ_pos(s.drop_last(), i);
    }
}

/// A sequence with at least one occupant has an occupied slot.
pub proof fn lemma_count_occ_nonzero_some<T>(s: Seq<Option<T>>)
    requires
        count_occ(s) > 0,
    ensures
        exists|i: int| 0 <= i < s.len() && s[i] is Some,
    decreases s.len(),
{
    if s.last() is Some {
        assert(s[s.len() - 1] is Some);
    } else {
        lemma_count_occ_nonzero_some(s.drop_last());
        let i = choose|i: int| 0 <= i < s.drop_last().len() && s.drop_last()[i] is Some;
        assert(s[i] is Some);
    }
}

/// Mapping a linear index to its coordinate and back returns the index, and
/// the coordinate is in range on a `w` by `h` grid whenever the index is.
pub proof fn lemma_index_roundtrip(w: int, h: int, i: int)
    requires
        0 < w,
        0 < h,
        0 <= i < w * h,
    ensures
        index_of(w, coord_x_of(w, i), coord_y_of(w, i)) == i,
        0 <= coord_x_of(w, i) < w,
        0 <= coord_y_of(w, i) < h,
{
    lemma_fundamental_div_mod(i, w);
    assert((i / w) * w == w * (i / w)) by (nonlinear_arith);
    assert(0 <= i % w < w) by (nonlinear_arith)
        requires 0 < w, 0 <= i;
    assert(0 <= i / w < h) by (nonlinear_arith)
        requires 0 < w, 0 < h, 0 <= i < w * h, i == w * (i / w) + i % w, 0 <= i % w < w;
}

/// Mapping an in-range coordinate to its linear index and back returns the
/// coordinate, and the index is in range on a `w` by `h` grid.
pub proof fn lemma_coord_roundtrip(w: int, h: int, x: int, y: int)
    requires
        0 < w,
        0 < h,
        0 <= x < w,
        0 <= y < h,
    ensures
        coord_x_of(w, index_of(w, x, y)) == x,
        coord_y_of(w, index_of(w, x, y)) == y,
        0 <= index_of(w, x, y) < w * h,
{
    lemma_fundamental_div_mod_converse(y * w + x, w, y, x);
    assert(0 <= y * w + x < w * h) by (nonlinear_arith)
        requires 0 < w, 0 <= x < w, 0 <= y < h;
}

/// On a grid within the supported extent, every linear index fits a `usize`.
pub proof fn lemma_index_fits(w: int, h: int, x: int, y: int)
    requires
        0 < w <= MAX_GRID_SIDE as int,
        0 < h <= MAX_GRID_SIDE as int,
        0 <= x < w,
        0 <= y < h,
    ensures
        0 <= index_of(w, x, y) < w * h,
        index_of(w, x, y) <= usize::MAX,
{
    lemma_coord_roundtrip(w, h, x, y);
    assert(w * h <= MAX_GRID_SIDE * MAX_GRID_SIDE) by (nonlinear_arith)
        requires 0 < w <= MAX_GRID_SIDE as int, 0 < h <= MAX_GRID_SIDE as int;
}

/// The dirty flag never lies: however the layout was built up by placements
/// and removals, a well-formed layout reports that a rebuild is needed
/// exactly when an occupied slot exists, and its tracked occupant count is
/// the number of occupied slots.
pub proof fn lemma_dirty_flag_tracks_occupancy<T>(l: &Layout<T>)
    requires
        l.wf(),
    ensures
        l.spec_count() == count_occ(l@),
        l.spec_need_render() == (l.spec_count() != 0),
        l.spec_need_render() == (exists|i: int| 0 <= i < l@.len() && l@[i] is Some),
{
    if count_occ(l@) == 0 {
        lemma_count_occ_zero_all_none(l@);
    } else {
        lemma_count_occ_nonzero_some(l@);
    }
}

/// Dense grid container: one `Option<T>` slot per grid cell, stored row-major
/// (slot of `(x, y)` is at linear index `y * width + x`), with an occupancy
/// count maintained incrementally and a coarse dirty flag telling the
/// renderer that a rebuild of its vertex buffer is needed.
pub struct Layout<T> {
    need_render: bool,
    count_occupants: usize,
    width: usize,
    height: usize,
    inner: Vec<Option<T>>,
}

impl<T> View for Layout<T> {
    type V = Seq<Option<T>>;

    closed spec fn view(&self) -> Seq<Option<T>> {
        self.inner@
    }
}

impl<T> Layout<T> {
    /// Grid width in cells.
    pub closed spec fn spec_width(&self) -> int {
        self.width as int
    }

    /// Grid height in cells.
    pub closed spec fn spec_height(&self) -> int {
        self.height as int
    }

    /// Number of occupied slots, as tracked incrementally.
    pub closed spec fn spec_count(&self) -> int {
        self.count_occupants as int
    }

    /// The dirty flag: true iff at least one slot is occupied; the sole
    /// signal consumers use to decide whether the render buffer must be
    /// rebuilt.
    pub closed spec fn spec_need_render(&self) -> bool {
        self.need_render
    }

    /// Structural invariant: the slot sequence covers the whole extent, the
    /// tracked count matches the stored entries, and the dirty flag is set
    /// exactly when an occupant exists.
    pub open spec fn wf(&self) -> bool {
        &&& 0 < self.spec_width() <= MAX_GRID_SIDE as int
        &&& 0 < self.spec_height() <= MAX_GRID_SIDE as int
        &&& self@.len() == self.spec_width() * self.spec_height()
        &&& self.spec_count() == count_occ(self@)
        &&& self.spec_need_render() == (count_occ(self@) != 0)
    }

    /// A coordinate addresses a slot of this layout.
    pub open spec fn pos_in_range(&self, pos: GridPos) -> bool {
        pos.x < self.spec_width() && pos.y < self.spec_height()
    }

    /// An all-empty layout of the given extent.
    pub fn with_extent(width: usize, height: usize) -> (l: Layout<T>)
        requires
            0 < width <= MAX_GRID_SIDE,
            0 < height <= MAX_GRID_SIDE,
        ensures
            l.wf(),
            l.spec_width() == width as int,
            l.spec_height() == height as int,
            l@.len() == width * height,
            forall|i: int| 0 <= i < l@.len() ==> l@[i] is None,
            l.spec_count() == 0,
            !l.spec_need_render(),
    {
        proof {
            assert(width * height <= MAX_GRID_SIDE * MAX_GRID_SIDE) by (nonlinear_arith)
                requires 0 < width <= MAX_GRID_SIDE, 0 < height <= MAX_GRID_SIDE;
        }
        let n = width * height;
        let mut inner: Vec<Option<T>> = Vec::new();
        while inner.len() < n
            invariant
                inner@.len() <= n,
                count_occ(inner@) == 0,
                forall|i: int| 0 <= i < inner@.len() ==> inner@[i] is None,
            decreases n - inner.len(),
        {
            let ghost prev = inner@;
            inner.push(None);
            proof {
                assert(inner@.drop_last() =~= prev);
            }
        }
        Layout { need_render: false, count_occupants: 0, width, height, inner }
    }

    /// An all-empty layout of the editor's world extent.
    pub fn new() -> (l: Layout<T>)
        ensures
            l.wf(),
            l.spec_width() == SIZE_GRID_W as int,
            l.spec_height() == SIZE_GRID_H as int,
            l@.len() == SIZE_GRID_W * SIZE_GRID_H,
            forall|i: int| 0 <= i < l@.len() ==> l@[i] is None,
            l.spec_count() == 0,
            !l.spec_need_render(),
    {
        Self::with_extent(SIZE_GRID_W, SIZE_GRID_H)
    }

    /// Total number of slots; always `width * height`.
    pub fn len(&self) -> (n: usize)
        ensures
            n == self@.len(),
    {
        self.inner.len()
    }

    /// Grid width in cells.
    pub fn width(&self) -> (w: usize)
        ensures
            w == self.spec_width(),
    {
        self.width
    }

    /// Grid height in cells.
    pub fn height(&self) -> (h: usize)
        ensures
            h == self.spec_height(),
    {
        self.height
    }

    /// Number of occupied slots.
    pub fn occupant_count(&self) -> (c: usize)
        ensures
            c == self.spec_count(),
    {
        self.count_occupants
    }

    /// The dirty flag: true iff at least one slot is occupied.
    pub fn is_need_render(&self) -> (d: bool)
        ensures
            d == self.spec_need_render(),
    {
        self.need_render
    }

    /// Read-only lookup of the slot at a linear index.
    pub fn get_by_idx(&self, index: usize) -> (r: &Option<T>)
        requires
            index < self@.len(),
        ensures
            *r == self@[index as int],
    {
        &self.inner[index]
    }

    /// Read-only lookup of the slot at a coordinate.
    pub fn get_by_pos(&self, pos: GridPos) -> (r: &Option<T>)
        requires
            self.wf(),
            self.pos_in_range(pos),
        ensures
            *r == self@[index_of(self.spec_width(), pos.x as int, pos.y as int)],
    {
        proof {
            lemma_coord_roundtrip(self.spec_width(), self.spec_height(), pos.x as int, pos.y as int);
            lemma_index_fits(self.spec_width(), self.spec_height(), pos.x as int, pos.y as int);
        }
        let index = pos_to_idx(self.width, pos);
        &self.inner[index]
    }

    /// Place an occupant at a linear index, overwriting any existing one.
    /// Replacement is not a new occupant: the count grows only when the slot
    /// was empty. After a set, the layout is occupied, so the dirty flag is
    /// set.
    pub fn set_by_idx(&mut self, index: usize, value: T)
        requires
            old(self).wf(),
            index < old(self)@.len(),
        ensures
            final(self).wf(),
            final(self)@ == old(self)@.update(index as int, Some(value)),
            final(self).spec_width() == old(self).spec_width(),
            final(self).spec_height() == old(self).spec_height(),
            final(self).spec_count() == old(self).spec_count() + (if old(self)@[index as int] is Some {
                0int
            } else {
                1int
            }),
            final(self).spec_need_render(),
    {
        proof {
            lemma_count_occ_update(self@, index as int, Some(value));
            lemma_count_occ_le_len(self@.update(index as int, Some(value)));
            assert(self.inner.len() == self@.len());
            if self@[index as int] is Some {
                lemma_count_occ_pos(self@, index as int);
            }
        }
        if self.inner[index].is_none() {
            self.count_occupants += 1;
        }
        self.inner[index] = Some(value);
        self.need_render = self.count_occupants != 0;
    }

    /// Place an occupant at a coordinate, overwriting any existing one.
    pub fn set_by_pos(&mut self, pos: GridPos, value: T)
        requires
            old(self).wf(),
            old(self).pos_in_range(pos),
        ensures
            final(self).wf(),
            final(self)@ == old(self)@.update(
                index_of(old(self).spec_width(), pos.x as int, pos.y as int),
                Some(value),
            ),
            final(self).spec_width() == old(self).spec_width(),
            final(self).spec_height() == old(self).spec_height(),
            final(self).spec_count() == old(self).spec_count() + (if old(self)@[index_of(
                old(self).spec_width(),
                pos.x as int,
                pos.y as int,
            )] is Some {
                0int
            } else {
                1int
            }),
            final(self).spec_need_render(),
    {
        proof {
            lemma_coord_roundtrip(self.spec_width(), self.spec_height(), pos.x as int, pos.y as int);
            lemma_index_fits(self.spec_width(), self.spec_height(), pos.x as int, pos.y as int);
        }
        let index = pos_to_idx(self.width, pos);
        self.set_by_idx(index, value);
    }

    /// Clear the slot at a linear index. Clearing an already-empty slot is a
    /// no-op: the count never goes below the number of occupants.
    pub fn del_by_idx(&mut self, index: usize)
        requires
            old(self).wf(),
            index < old(self)@.len(),
        ensures
            final(self).wf(),
            final(self)@ == old(self)@.update(index as int, None),
            final(self).spec_width() == old(self).spec_width(),
            final(self).spec_height() == old(self).spec_height(),
            final(self).spec_count() == old(self).spec_count() - (if old(self)@[index as int] is Some {
                1int
            } else {
                0int
            }),
            final(self).spec_need_render() == (final(self).spec_count() != 0),
    {
        proof {
            lemma_count_occ_update(self@, index as int, None::<T>);
        }
        if self.inner[index].is_some() {
            self.count_occupants -= 1;
        }
        self.inner[index] = None;
        self.need_render = self.count_occupants != 0;
    }

    /// Clear the slot at a coordinate.
    pub fn del_by_pos(&mut self, pos: GridPos)
        requires
            old(self).wf(),
            old(self).pos_in_range(pos),
        ensures
            final(self).wf(),
            final(self)@ == old(self)@.update(
                index_of(old(self).spec_width(), pos.x as int, pos.y as int),
                None,
            ),
            final(self).spec_width() == old(self).spec_width(),
            final(self).spec_height() == old(self).spec_height(),
            final(self).spec_count() == old(self).spec_count() - (if old(self)@[index_of(
                old(self).spec_width(),
                pos.x as int,
                pos.y as int,
            )] is Some {
                1int
            } else {
                0int
            }),
            final(self).spec_need_render() == (final(self).spec_count() != 0),
    {
        proof {
            lemma_coord_roundtrip(self.spec_width(), self.spec_height(), pos.x as int, pos.y as int);
            lemma_index_fits(self.spec_width(), self.spec_height(), pos.x as int, pos.y as int);
        }
        let index = pos_to_idx(self.width, pos);
        self.del_by_idx(index);
    }
}

} // verus!
