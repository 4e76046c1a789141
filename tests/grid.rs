use rust_raytracer::grid::{grid_cells, GRID_HALF_EXTENT, GRID_SIDE};

#[test]
fn grid_covers_every_cell_once_row_by_row() {
    let cells = grid_cells();
    assert_eq!(GRID_SIDE, 22);
    assert_eq!(GRID_HALF_EXTENT, 11);
    assert_eq!(cells.len(), 484);
    assert_eq!(cells[0], (-11, -11));
    assert_eq!(cells[1], (-11, -10));
    assert_eq!(cells[21], (-11, 10));
    assert_eq!(cells[22], (-10, -11));
    assert_eq!(cells[483], (10, 10));
    let mut expected = Vec::new();
    for a in -11..11 {
        for b in -11..11 {
            expected.push((a, b));
        }
    }
    assert_eq!(cells, expected);
}
