use celleyor::grid::Grid;
use celleyor::layout::{GridPos, Layout, SIZE_GRID_H, SIZE_GRID_W, idx_to_pos, pos_to_idx};
use celleyor::tools::{SelectTools, Tools};
use celleyor::zone::Zone;

#[test]
fn to_index_examples_on_4_by_4() {
    assert_eq!(pos_to_idx(4, GridPos { x: 0, y: 0 }), 0);
    assert_eq!(pos_to_idx(4, GridPos { x: 3, y: 0 }), 3);
    assert_eq!(pos_to_idx(4, GridPos { x: 0, y: 1 }), 4);
    assert_eq!(pos_to_idx(4, GridPos { x: 3, y: 3 }), 15);
}

#[test]
fn coordinate_mapping_roundtrips_on_4_by_4() {
    for i in 0..16 {
        let pos = idx_to_pos(4, i);
        assert!(pos.x < 4 && pos.y < 4);
        assert_eq!(pos_to_idx(4, pos), i);
    }
    for x in 0..4 {
        for y in 0..4 {
            let pos = GridPos { x, y };
            assert_eq!(idx_to_pos(4, pos_to_idx(4, pos)), pos);
        }
    }
}

#[test]
fn new_layout_is_empty_and_clean() {
    let l: Layout<Zone> = Layout::new();
    assert_eq!(l.len(), SIZE_GRID_W * SIZE_GRID_H);
    assert_eq!(l.occupant_count(), 0);
    assert!(!l.is_need_render());
    for i in 0..l.len() {
        assert!(l.get_by_idx(i).is_none());
    }
}

#[test]
fn set_on_distinct_slots_counts_them_and_marks_dirty() {
    let mut l: Layout<Zone> = Layout::with_extent(4, 4);
    let z = Zone { color: [9, 9, 9] };
    let slots = [2usize, 7, 11];
    for (n, &i) in slots.iter().enumerate() {
        l.set_by_idx(i, z);
        assert_eq!(l.occupant_count(), n + 1);
        assert!(l.is_need_render());
    }
    for (n, &i) in slots.iter().enumerate() {
        l.del_by_idx(i);
        assert_eq!(l.occupant_count(), slots.len() - n - 1);
    }
    assert_eq!(l.occupant_count(), 0);
    assert!(!l.is_need_render());
}

#[test]
fn replacement_is_not_a_new_occupant() {
    let mut l: Layout<Zone> = Layout::with_extent(4, 4);
    l.set_by_idx(5, Zone { color: [1, 1, 1] });
    l.set_by_idx(5, Zone { color: [2, 2, 2] });
    assert_eq!(l.occupant_count(), 1);
    assert_eq!(l.get_by_idx(5), &Some(Zone { color: [2, 2, 2] }));
}

#[test]
fn removing_an_empty_slot_is_a_no_op() {
    let mut l: Layout<Zone> = Layout::with_extent(4, 4);
    l.set_by_idx(3, Zone { color: [1, 1, 1] });
    l.del_by_idx(9);
    assert_eq!(l.occupant_count(), 1);
    assert!(l.is_need_render());
    l.del_by_idx(3);
    l.del_by_idx(3);
    assert_eq!(l.occupant_count(), 0);
    assert!(!l.is_need_render());
}

#[test]
fn set_and_del_by_pos_address_the_row_major_slot() {
    let mut l: Layout<Zone> = Layout::with_extent(4, 4);
    let z = Zone { color: [5, 6, 7] };
    l.set_by_pos(GridPos { x: 2, y: 3 }, z);
    assert_eq!(l.get_by_idx(14), &Some(z));
    assert_eq!(l.get_by_pos(GridPos { x: 2, y: 3 }), &Some(z));
    l.del_by_pos(GridPos { x: 2, y: 3 });
    assert!(l.get_by_idx(14).is_none());
}

#[test]
fn grid_outline_frames_the_whole_world() {
    let g = Grid::new();
    let w = (SIZE_GRID_W as u32) * 8;
    let h = (SIZE_GRID_H as u32) * 8;
    assert_eq!(g.outline_vertices(), vec![0, 0, w, 0, w, h, 0, h]);
}

#[test]
fn apply_tool_without_a_selection_changes_nothing() {
    let mut g = Grid::new();
    let tools = Tools::default();
    g.apply_tool(&tools, GridPos { x: 1, y: 1 });
    assert_eq!(g.layout_zones.occupant_count(), 0);
    assert_eq!(g.layout_cells.occupant_count(), 0);
}

#[test]
fn apply_tool_places_the_prototype_occupant() {
    let mut g = Grid::new();
    let mut tools = Tools::default();
    tools.select_tools = SelectTools::AddNewZone;
    tools.zone = Zone { color: [3, 4, 5] };
    g.apply_tool(&tools, GridPos { x: 2, y: 0 });
    assert_eq!(g.layout_zones.occupant_count(), 1);
    assert_eq!(g.layout_cells.occupant_count(), 0);
    assert_eq!(g.layout_zones.get_by_pos(GridPos { x: 2, y: 0 }), &Some(Zone { color: [3, 4, 5] }));

    tools.select_tools = SelectTools::AddNewCell;
    g.apply_tool(&tools, GridPos { x: 2, y: 0 });
    assert_eq!(g.layout_cells.occupant_count(), 1);
    let placed = g.layout_cells.get_by_pos(GridPos { x: 2, y: 0 }).as_ref().unwrap();
    assert_eq!(placed.color, [128, 128, 128]);
    assert_eq!(placed.mass(), 16);
    assert_eq!(placed.energy(), 256);
}

#[test]
fn previews_follow_the_selected_tool() {
    let mut tools = Tools::default();
    let pos = GridPos { x: 0, y: 0 };
    assert!(tools.zone_preview(pos).is_none());
    assert!(tools.cell_preview(pos).is_none());

    tools.select_tools = SelectTools::AddNewZone;
    let buf = tools.zone_preview(pos).unwrap();
    assert_eq!(buf.len(), 48);
    // the placement cursor is drawn with an empty border mask
    assert_eq!(buf[7], 0);
    assert!(tools.cell_preview(pos).is_none());

    tools.select_tools = SelectTools::AddNewCell;
    assert_eq!(tools.cell_preview(pos).unwrap().len(), 42);
    assert!(tools.zone_preview(pos).is_none());
}
