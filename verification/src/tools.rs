//! Editor tools: which occupant kind a click places, and the prototype
//! occupant (color and all) that the placement copies into the grid.

use vstd::prelude::*;
use crate::cell::{Cell, cell_record};
use crate::layout::{GridPos, MAX_GRID_SIDE};
use crate::zone::{Zone, zone_record};

verus! {

/// The active editor tool.
#[derive(Debug, Clone, Copy, PartialEq, Eq, Structural)]
pub enum SelectTools {
    NoTool,
    AddNewZone,
    AddNewCell,
}

/// The tool state: the selected tool and the prototype zone and cell that a
/// placement copies into the grid.
pub struct Tools {
    pub select_tools: SelectTools,
    pub zone: Zone,
    pub cell: Cell,
}

impl Default for Tools {
    /// No tool selected; default prototypes.
    fn default() -> (t: Tools)
        ensures
            t.select_tools is NoTool,
            t.zone.color[0] == 0 && t.zone.color[1] == 0 && t.zone.color[2] == 0,
            t.cell.spec_mass() == 16 && t.cell.spec_energy() == 256,
            t.cell.spec_color()[0] == 128 && t.cell.spec_color()[1] == 128
                && t.cell.spec_color()[2] == 128,
    {
        Tools { select_tools: SelectTools::NoTool, zone: Zone::default(), cell: Cell::default() }
    }
}

impl Tools {
    /// Vertex data for the placement cursor when the zone tool is active:
    /// the prototype zone's quad at the hovered grid coordinate, drawn with
    /// an empty border mask. `None` when another tool is active.
    pub fn zone_preview(&self, pos: GridPos) -> (r: Option<Vec<u32>>)
        requires
            pos.x < MAX_GRID_SIDE,
            pos.y < MAX_GRID_SIDE,
        ensures
            match r {
                Some(buf) => self.select_tools is AddNewZone && buf@ == zone_record(
                    self.zone,
                    pos.x as int,
                    pos.y as int,
                    0,
                ),
                None => !(self.select_tools is AddNewZone),
            },
    {
        if let SelectTools::AddNewZone = self.select_tools {
            Some(self.zone.create_render_data(pos, 0))
        } else {
            None
        }
    }

    /// Vertex data for the placement cursor when the cell tool is active:
    /// the prototype cell's quad at the hovered grid coordinate. `None` when
    /// another tool is active.
    pub fn cell_preview(&self, pos: GridPos) -> (r: Option<Vec<u32>>)
        requires
            pos.x < MAX_GRID_SIDE,
            pos.y < MAX_GRID_SIDE,
        ensures
            match r {
                Some(buf) => self.select_tools is AddNewCell && buf@ == cell_record(
                    self.cell,
                    pos.x as int,
                    pos.y as int,
                ),
                None => !(self.select_tools is AddNewCell),
            },
    {
        if let SelectTools::AddNewCell = self.select_tools {
            Some(self.cell.create_render_data(pos))
        } else {
            None
        }
    }
}

} // verus!
