use platformer::int_grid::{handle_int_grid, IntGridCell, IntGridCellKind};
use platformer::layer::LayerInfo;

fn layer() -> LayerInfo {
    LayerInfo { grid_width: 3, grid_height: 2, grid_cell_size: 8, z_index: 49 }
}

#[test]
fn int_grid_cells_in_row_major_order() {
    let cells = handle_int_grid(&layer(), &vec![0, 1, 2, 1, 0], 3);
    assert_eq!(
        cells,
        vec![
            IntGridCell { x: 0, y: 0, z: 49, grid_size: 8, kind: IntGridCellKind::Colored { material: 0 } },
            IntGridCell { x: 8, y: 0, z: 49, grid_size: 8, kind: IntGridCellKind::Collider },
            IntGridCell { x: 16, y: 0, z: 49, grid_size: 8, kind: IntGridCellKind::Colored { material: 2 } },
            IntGridCell { x: 0, y: 8, z: 49, grid_size: 8, kind: IntGridCellKind::Collider },
            IntGridCell { x: 8, y: 8, z: 49, grid_size: 8, kind: IntGridCellKind::Colored { material: 0 } },
        ]
    );
}

#[test]
fn int_grid_only_value_one_collides() {
    let cells = handle_int_grid(&layer(), &vec![1, 1, 0, 2, 1, 0], 3);
    let colliders: Vec<usize> = cells
        .iter()
        .enumerate()
        .filter(|(_, c)| c.kind == IntGridCellKind::Collider)
        .map(|(i, _)| i)
        .collect();
    assert_eq!(colliders, vec![0, 1, 4]);
}

#[test]
fn int_grid_positions_are_distinct() {
    let tiles: Vec<i64> = vec![0; 12];
    let l = LayerInfo { grid_width: 4, grid_height: 3, grid_cell_size: 16, z_index: 50 };
    let cells = handle_int_grid(&l, &tiles, 1);
    for i in 0..cells.len() {
        assert!(cells[i].x >= 0 && cells[i].x < 64);
        for j in 0..cells.len() {
            if i != j {
                assert!((cells[i].x, cells[i].y) != (cells[j].x, cells[j].y));
            }
        }
    }
    assert_eq!((cells[11].x, cells[11].y), (48, 32));
}

#[test]
fn int_grid_empty_layer() {
    assert!(handle_int_grid(&layer(), &Vec::new(), 0).is_empty());
}

#[test]
fn int_grid_zero_cell_size_puts_everything_at_origin() {
    let l = LayerInfo { grid_width: 2, grid_height: 2, grid_cell_size: 0, z_index: 50 };
    let cells = handle_int_grid(&l, &vec![1, 1, 1], 0);
    assert!(cells.iter().all(|c| c.x == 0 && c.y == 0));
}

#[test]
fn int_grid_empty_layer_without_columns() {
    let l = LayerInfo { grid_width: 0, grid_height: 0, grid_cell_size: 16, z_index: 50 };
    assert!(handle_int_grid(&l, &Vec::new(), 0).is_empty());
}

#[test]
fn int_grid_wide_column_offset_saturates() {
    // column 2 of a 3-wide grid with cells of 2^30 pixels: 2^31 saturates to i32::MAX
    let l = LayerInfo { grid_width: 3, grid_height: 1, grid_cell_size: 1 << 30, z_index: 50 };
    let cells = handle_int_grid(&l, &vec![1, 1, 1], 0);
    assert_eq!(cells[1].x, 1 << 30);
    assert_eq!(cells[2].x, i32::MAX);
    assert_eq!(cells[2].y, 0);
}

#[test]
fn int_grid_zero_width_with_cells() {
    // no row width: the first cell stays in row 0, later cells go to row i32::MAX
    let l = LayerInfo { grid_width: 0, grid_height: 1, grid_cell_size: 1, z_index: 50 };
    let cells = handle_int_grid(&l, &vec![1, 1, 1], 0);
    assert_eq!((cells[0].x, cells[0].y), (0, 0));
    assert_eq!((cells[1].x, cells[1].y), (0, i32::MAX));
    assert_eq!((cells[2].x, cells[2].y), (0, i32::MAX));
    let flat = LayerInfo { grid_width: 0, grid_height: 1, grid_cell_size: 0, z_index: 50 };
    assert!(handle_int_grid(&flat, &vec![1, 1], 0).iter().all(|c| c.x == 0 && c.y == 0));
}

#[test]
fn int_grid_negative_width_rounds_toward_zero() {
    // 5 % -2 == 1 and 5 / -2 == -2 in Rust
    let l = LayerInfo { grid_width: -2, grid_height: 1, grid_cell_size: 8, z_index: 50 };
    let cells = handle_int_grid(&l, &vec![0, 0, 0, 0, 0, 0], 1);
    assert_eq!((cells[5].x, cells[5].y), (8, -16));
    assert_eq!((cells[2].x, cells[2].y), (0, -8));
}
