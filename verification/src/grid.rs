//! The editor's world: one layout of zones and one of cells over the same
//! extent, plus the outline quad that frames the whole grid.

use vstd::prelude::*;
use crate::cell::Cell;
use crate::layout::{
    GridPos, Layout, SIZE_GRID_H, SIZE_GRID_W, SIZE_RENDER_CELL_GRID, index_of,
};
use crate::tools::{SelectTools, Tools};
use crate::zone::Zone;

verus! {

/// The world state: a layout of zone occupants and one of cell occupants,
/// both over the same grid extent.
pub struct Grid {
    pub layout_zones: Layout<Zone>,
    pub layout_cells: Layout<Cell>,
}

/// The outline of a `w` by `h` grid in render units: its four corners in
/// line-loop order, two scalars each.
pub open spec fn grid_outline(w: int, h: int) -> Seq<u32> {
    let s = SIZE_RENDER_CELL_GRID as int;
    seq![
        0u32,
        0u32,
        (w * s) as u32,
        0u32,
        (w * s) as u32,
        (h * s) as u32,
        0u32,
        (h * s) as u32,
    ]
}

impl Grid {
    /// Both layouts are well-formed and share one extent.
    pub open spec fn wf(&self) -> bool {
        &&& self.layout_zones.wf()
        &&& self.layout_cells.wf()
        &&& self.layout_zones.spec_width() == self.layout_cells.spec_width()
        &&& self.layout_zones.spec_height() == self.layout_cells.spec_height()
    }

    /// A coordinate addresses a slot of this world.
    pub open spec fn pos_in_range(&self, pos: GridPos) -> bool {
        self.layout_zones.pos_in_range(pos)
    }

    /// An all-empty world of the editor's grid extent.
    pub fn new() -> (g: Grid)
        ensures
            g.wf(),
            g.layout_zones.spec_width() == SIZE_GRID_W as int,
            g.layout_zones.spec_height() == SIZE_GRID_H as int,
            forall|i: int| 0 <= i < g.layout_zones@.len() ==> g.layout_zones@[i] is None,
            forall|i: int| 0 <= i < g.layout_cells@.len() ==> g.layout_cells@[i] is None,
            g.layout_zones.spec_count() == 0,
            g.layout_cells.spec_count() == 0,
            !g.layout_zones.spec_need_render(),
            !g.layout_cells.spec_need_render(),
    {
        Grid { layout_zones: Layout::new(), layout_cells: Layout::new() }
    }

    /// The four corner positions framing the whole grid, in line-loop order.
    /// Always eight scalars.
    pub fn outline_vertices(&self) -> (buf: Vec<u32>)
        requires
            self.wf(),
        ensures
            buf@ == grid_outline(
                self.layout_zones.spec_width(),
                self.layout_zones.spec_height(),
            ),
            buf@.len() == 8,
    {
        let wpx = (self.layout_zones.width() as u32) * SIZE_RENDER_CELL_GRID;
        let hpx = (self.layout_zones.height() as u32) * SIZE_RENDER_CELL_GRID;
        let mut buf: Vec<u32> = Vec::new();
        buf.push(0);
        buf.push(0);
        buf.push(wpx);
        buf.push(0);
        buf.push(wpx);
        buf.push(hpx);
        buf.push(0);
        buf.push(hpx);
        proof {
            assert(buf@ =~= grid_outline(
                self.layout_zones.spec_width(),
                self.layout_zones.spec_height(),
            ));
        }
        buf
    }

    /// Apply the active tool at a grid coordinate: place a copy of the
    /// prototype zone or cell into the matching layout, or do nothing when
    /// no tool is selected.
    pub fn apply_tool(&mut self, tools: &Tools, pos: GridPos)
        requires
            old(self).wf(),
            old(self).pos_in_range(pos),
        ensures
            final(self).wf(),
            final(self).layout_zones.spec_width() == old(self).layout_zones.spec_width(),
            final(self).layout_zones.spec_height() == old(self).layout_zones.spec_height(),
            tools.select_tools is NoTool ==> *final(self) == *old(self),
            tools.select_tools is AddNewZone ==> {
                &&& final(self).layout_zones@ == old(self).layout_zones@.update(
                    index_of(old(self).layout_zones.spec_width(), pos.x as int, pos.y as int),
                    Some(tools.zone),
                )
                &&& final(self).layout_cells == old(self).layout_cells
            },
            tools.select_tools is AddNewCell ==> {
                &&& final(self).layout_cells@ == old(self).layout_cells@.update(
                    index_of(old(self).layout_cells.spec_width(), pos.x as int, pos.y as int),
                    Some(tools.cell),
                )
                &&& final(self).layout_zones == old(self).layout_zones
            },
    {
        match tools.select_tools {
            SelectTools::NoTool => {},
            SelectTools::AddNewZone => {
                self.layout_zones.set_by_pos(pos, tools.zone);
            },
            SelectTools::AddNewCell => {
                self.layout_cells.set_by_pos(pos, tools.cell);
            },
        }
    }
}

} // verus!
