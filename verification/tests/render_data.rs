use celleyor::cell::Cell;
use celleyor::layout::{GridPos, Layout};
use celleyor::zone::Zone;

#[test]
fn zone_record_is_the_exact_interleaved_quad() {
    let z = Zone { color: [10, 20, 30] };
    let buf = z.create_render_data(GridPos { x: 2, y: 1 }, 5);
    let expected: Vec<u32> = vec![
        16, 8, 0, 0, 10, 20, 30, 5, // top-left
        24, 8, 1, 0, 10, 20, 30, 5, // top-right
        16, 16, 0, 1, 10, 20, 30, 5, // bottom-left
        16, 16, 0, 1, 10, 20, 30, 5, // bottom-left
        24, 16, 1, 1, 10, 20, 30, 5, // bottom-right
        24, 8, 1, 0, 10, 20, 30, 5, // top-right
    ];
    assert_eq!(buf, expected);
}

#[test]
fn cell_record_is_the_exact_interleaved_quad() {
    let c = Cell::default();
    let buf = c.create_render_data(GridPos { x: 0, y: 0 });
    let expected: Vec<u32> = vec![
        0, 0, 0, 0, 128, 128, 128, // top-left
        8, 0, 1, 0, 128, 128, 128, // top-right
        0, 8, 0, 1, 128, 128, 128, // bottom-left
        0, 8, 0, 1, 128, 128, 128, // bottom-left
        8, 8, 1, 1, 128, 128, 128, // bottom-right
        8, 0, 1, 0, 128, 128, 128, // top-right
    ];
    assert_eq!(buf, expected);
}

#[test]
fn record_length_is_six_times_the_stride_for_any_input() {
    for (x, y, color, mask) in [
        (0usize, 0usize, [0u8, 0, 0], 0u32),
        (3, 2, [255, 255, 255], 15),
        (4095, 4095, [1, 2, 3], 9),
    ] {
        let z = Zone { color };
        assert_eq!(z.create_render_data(GridPos { x, y }, mask).len(), 48);
        let c = Cell::default();
        assert_eq!(c.create_render_data(GridPos { x, y }).len(), 42);
    }
}

#[test]
fn assembling_an_empty_layout_yields_no_vertices() {
    let zones: Layout<Zone> = Layout::with_extent(4, 4);
    let buf = Zone::init_render_zones(&zones);
    assert_eq!(buf.len(), 0);
    assert!(buf.first().is_none());

    let cells: Layout<Cell> = Layout::with_extent(4, 4);
    let buf = Cell::init_render_cells(&cells);
    assert_eq!(buf.len(), 0);
    assert!(buf.first().is_none());
}

#[test]
fn lone_zone_has_an_empty_border_mask() {
    let mut zones: Layout<Zone> = Layout::with_extent(4, 4);
    zones.set_by_pos(GridPos { x: 1, y: 1 }, Zone { color: [7, 7, 7] });
    let buf = Zone::init_render_zones(&zones);
    assert_eq!(buf.len(), 48);
    // every vertex of the single record carries mask 0
    for v in 0..6 {
        assert_eq!(buf[v * 8 + 7], 0);
    }
}

#[test]
fn adjacent_zones_see_each_other_symmetrically() {
    let mut zones: Layout<Zone> = Layout::with_extent(4, 4);
    zones.set_by_pos(GridPos { x: 1, y: 1 }, Zone { color: [7, 7, 7] });
    zones.set_by_pos(GridPos { x: 0, y: 1 }, Zone { color: [8, 8, 8] });
    let buf = Zone::init_render_zones(&zones);
    assert_eq!(buf.len(), 96);
    // records come in increasing linear index order: (0,1) first, (1,1) second
    assert_eq!(buf[0], 0); // x position of the (0,1) record
    assert_eq!(buf[7], 0b0100); // (0,1) sees its east neighbor
    assert_eq!(buf[48], 8); // x position of the (1,1) record
    assert_eq!(buf[48 + 7], 0b0001); // (1,1) sees its west neighbor
}

#[test]
fn vertical_neighbors_set_north_and_south_bits() {
    let mut zones: Layout<Zone> = Layout::with_extent(4, 4);
    zones.set_by_pos(GridPos { x: 2, y: 1 }, Zone { color: [1, 1, 1] });
    zones.set_by_pos(GridPos { x: 2, y: 2 }, Zone { color: [2, 2, 2] });
    let buf = Zone::init_render_zones(&zones);
    assert_eq!(buf.len(), 96);
    assert_eq!(buf[7], 0b0010); // (2,1) sees its north neighbor (y+1)
    assert_eq!(buf[48 + 7], 0b1000); // (2,2) sees its south neighbor (y-1)
}

#[test]
fn border_bits_never_point_off_the_grid() {
    let mut zones: Layout<Zone> = Layout::with_extent(4, 4);
    // a corner tile, plus occupants on the far edges of its row and column:
    // without clamping, a wrapping lookup would find them
    zones.set_by_pos(GridPos { x: 0, y: 0 }, Zone { color: [1, 1, 1] });
    zones.set_by_pos(GridPos { x: 3, y: 0 }, Zone { color: [2, 2, 2] });
    zones.set_by_pos(GridPos { x: 0, y: 3 }, Zone { color: [3, 3, 3] });
    let mask = Zone::checking_neighbors(GridPos { x: 0, y: 0 }, &zones);
    assert_eq!(mask, 0);
    // the opposite corner likewise only sees real neighbors
    let mask = Zone::checking_neighbors(GridPos { x: 3, y: 3 }, &zones);
    assert_eq!(mask, 0);
}

#[test]
fn surrounded_zone_sets_all_four_bits() {
    let mut zones: Layout<Zone> = Layout::with_extent(4, 4);
    let z = Zone { color: [1, 1, 1] };
    zones.set_by_pos(GridPos { x: 1, y: 1 }, z);
    zones.set_by_pos(GridPos { x: 0, y: 1 }, z);
    zones.set_by_pos(GridPos { x: 2, y: 1 }, z);
    zones.set_by_pos(GridPos { x: 1, y: 0 }, z);
    zones.set_by_pos(GridPos { x: 1, y: 2 }, z);
    assert_eq!(Zone::checking_neighbors(GridPos { x: 1, y: 1 }, &zones), 15);
}

#[test]
fn reassembly_without_mutation_is_bit_identical() {
    let mut zones: Layout<Zone> = Layout::with_extent(4, 4);
    zones.set_by_pos(GridPos { x: 1, y: 2 }, Zone { color: [4, 5, 6] });
    zones.set_by_pos(GridPos { x: 3, y: 3 }, Zone { color: [9, 9, 9] });
    let first = Zone::init_render_zones(&zones);
    let second = Zone::init_render_zones(&zones);
    assert_eq!(first, second);

    let mut cells: Layout<Cell> = Layout::with_extent(4, 4);
    cells.set_by_pos(GridPos { x: 0, y: 2 }, Cell::default());
    let first = Cell::init_render_cells(&cells);
    let second = Cell::init_render_cells(&cells);
    assert_eq!(first, second);
}

#[test]
fn assembly_skips_empty_slots_and_scales_with_occupants() {
    let mut cells: Layout<Cell> = Layout::with_extent(4, 4);
    for i in [0usize, 5, 10, 15] {
        cells.set_by_idx(i, Cell::default());
    }
    let buf = Cell::init_render_cells(&cells);
    assert_eq!(buf.len(), 4 * 42);
    // first record belongs to slot 0 at position (0, 0)
    assert_eq!(&buf[0..4], &[0, 0, 0, 0]);
    // second record belongs to slot 5 at position (1, 1)
    assert_eq!(&buf[42..46], &[8, 8, 0, 0]);
}
