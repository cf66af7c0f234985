//! Int-grid layers: which cells collide with the player, which are only
//! coloured, and where each cell goes.

use vstd::prelude::*;
use crate::arith::{abs, lemma_trunc_rem_is_signed_mod, trunc_div, trunc_rem};
use crate::layer::LayerInfo;

verus! {

/// What an int-grid cell becomes: a wall the player collides with (value 1),
/// or a coloured cell drawn with the material at index `material`.
#[derive(Clone, Copy, Debug, PartialEq, Eq, Structural)]
pub enum IntGridCellKind {
    Collider,
    Colored { material: usize },
}

/// One cell of an int-grid layer: its pixel position in the layer (from the
/// top left), the layer's depth and cell size, and what the cell is.
#[derive(Clone, Copy, Debug, PartialEq, Eq, Structural)]
pub struct IntGridCell {
    pub x: i32,
    pub y: i32,
    pub z: i32,
    pub grid_size: i32,
    pub kind: IntGridCellKind,
}

/// The value that marks a wall.
pub open spec fn is_collider_value(tile: i64) -> bool {
    tile == 1
}

/// A value converted to `i32` the way a float-to-integer `as` converts it:
/// values beyond the range become its nearest end.
pub open spec fn saturate_i32(v: int) -> i32 {
    if v > i32::MAX {
        i32::MAX
    } else if v < i32::MIN {
        i32::MIN
    } else {
        v as i32
    }
}

/// The column offset, in pixels, of the cell at position `index`: the column
/// (Rust's `%` of the position by the row width) times the cell size,
/// saturated to `i32`. A row width of 0 puts every cell in column offset 0.
pub open spec fn column_offset(layer: LayerInfo, index: int) -> i32 {
    if layer.grid_width == 0 {
        0i32
    } else {
        saturate_i32(trunc_rem(index, layer.grid_width as int) * layer.grid_cell_size)
    }
}

/// The row number of the cell at position `index`: Rust's `/` of the position
/// by the row width, saturated to `i32`. A row width of 0 puts the first cell
/// in row 0 and every later cell in row `i32::MAX`.
pub open spec fn row_number(layer: LayerInfo, index: int) -> i32 {
    if layer.grid_width == 0 {
        if index == 0 {
            0i32
        } else {
            i32::MAX
        }
    } else {
        saturate_i32(trunc_div(index, layer.grid_width as int))
    }
}

/// The cell at position `index` of the layer's row-major value list, holding
/// `tile`: its column offset, its row number times the cell size, the layer's
/// depth and cell size, and what the cell is.
pub open spec fn int_grid_cell_spec(layer: LayerInfo, index: int, tile: i64) -> IntGridCell {
    IntGridCell {
        x: column_offset(layer, index),
        y: (row_number(layer, index) * layer.grid_cell_size) as i32,
        z: layer.z_index,
        grid_size: layer.grid_cell_size,
        kind: if is_collider_value(tile) {
            IntGridCellKind::Collider
        } else {
            IntGridCellKind::Colored { material: #[verifier::truncate] (tile as usize) }
        },
    }
}

/// The row offset of the cell at position `index` fits in an `i32`.
pub open spec fn row_offset_fits(layer: LayerInfo, index: int) -> bool {
    i32::MIN <= row_number(layer, index) * layer.grid_cell_size <= i32::MAX
}

/// The inputs that `handle_int_grid` draws: every cell's row offset within
/// `i32`, and a material for every value that is not a wall.
pub open spec fn int_grid_drawable(layer: LayerInfo, int_tiles: Seq<i64>, material_count: nat) -> bool {
    &&& forall|i: int| 0 <= i < int_tiles.len() ==> #[trigger] row_offset_fits(layer, i)
    &&& forall|i: int|
        0 <= i < int_tiles.len() && !is_collider_value(#[trigger] int_tiles[i]) ==> 0 <= int_tiles[i]
            < material_count
}

/// Lays out the cells of an int-grid layer, one per value, in the layer's order.
///
/// The layer's `grid_width` is taken as the number of cells in a row. A layer
/// whose info is built from an LDtk layer has as many cells per row as its
/// pixel width divided by its scaled cell size, so the two agree there; a
/// `LayerInfo` made by hand with some other width gets rows of `grid_width` cells.
pub fn handle_int_grid(layer_info: &LayerInfo, int_tiles: &Vec<i64>, material_count: usize) -> (cells: Vec<IntGridCell>)
    requires
        int_grid_drawable(*layer_info, int_tiles@, material_count as nat),
    ensures
        cells@.len() == int_tiles@.len(),
        forall|i: int| 0 <= i < int_tiles@.len() ==>
            #[trigger] cells@[i] == int_grid_cell_spec(*layer_info, i, int_tiles@[i]),
{
    let cell: i32 = layer_info.grid_cell_size;
    let w: i32 = layer_info.grid_width;
    let mut cells: Vec<IntGridCell> = Vec::new();
    for index in 0..int_tiles.len()
        invariant
            cell == layer_info.grid_cell_size,
            w == layer_info.grid_width,
            int_grid_drawable(*layer_info, int_tiles@, material_count as nat),
            cells@.len() == index,
            forall|j: int| 0 <= j < index ==>
                #[trigger] cells@[j] == int_grid_cell_spec(*layer_info, j, int_tiles@[j]),
    {
        let tile: i64 = int_tiles[index];
        proof {
            assert(row_offset_fits(*layer_info, index as int));
        }
        let (x, row): (i32, i32) = if w == 0 {
            (0i32, if index == 0 { 0i32 } else { i32::MAX })
        } else {
            let aw: usize = if w > 0 { w as usize } else { (0i64 - (w as i64)) as usize };
            let col: usize = index % aw;
            let q: usize = index / aw;
            proof {
                let c = cell as int;
                assert(aw as int == abs(w as int));
                lemma_trunc_rem_is_signed_mod(index as int, w as int);
                assert(trunc_rem(index as int, w as int) == col as int);
                assert(col < aw);
                assert(-0x8000_0000_0000_0000 < (col as int) * c < 0x8000_0000_0000_0000) by (nonlinear_arith)
                    requires 0 <= col < 0x8000_0001, -0x8000_0000 <= c < 0x8000_0000;
            }
            let offset: i64 = (col as i64) * (cell as i64);
            let x: i32 = if offset > i32::MAX as i64 {
                i32::MAX
            } else if offset < i32::MIN as i64 {
                i32::MIN
            } else {
                offset as i32
            };
            let row: i32 = if w > 0 {
                if q > i32::MAX as usize { i32::MAX } else { q as i32 }
            } else {
                if q > 0x8000_0000usize { i32::MIN } else { (0i64 - (q as i64)) as i32 }
            };
            proof {
                assert(trunc_div(index as int, w as int) == if w > 0 { q as int } else { -(q as int) });
            }
            (x, row)
        };
        let y: i32 = row * cell;
        let kind = if tile == 1 {
            IntGridCellKind::Collider
        } else {
            IntGridCellKind::Colored { material: tile as usize }
        };
        let new_cell = IntGridCell { x, y, z: layer_info.z_index, grid_size: cell, kind };
        assert(new_cell == int_grid_cell_spec(*layer_info, index as int, tile));
        cells.push(new_cell);
    }
    cells
}

/// Every value of an int-grid layer gets a cell of its own: two different
/// positions in the value list never land on the same pixel position, and
/// every cell lies inside the layer's width (for layers whose width and
/// number of values keep the offsets within `i32`).
pub proof fn lemma_int_grid_cells_distinct(layer: LayerInfo, int_tiles: Seq<i64>, material_count: nat, i: int, j: int)
    requires
        int_grid_drawable(layer, int_tiles, material_count),
        layer.grid_width > 0,
        layer.grid_cell_size > 0,
        layer.grid_width * layer.grid_cell_size <= i32::MAX,
        int_tiles.len() <= i32::MAX,
        0 <= i < int_tiles.len(),
        0 <= j < int_tiles.len(),
        i != j,
    ensures
        int_grid_cell_spec(layer, i, int_tiles[i]).x != int_grid_cell_spec(layer, j, int_tiles[j]).x
            || int_grid_cell_spec(layer, i, int_tiles[i]).y != int_grid_cell_spec(layer, j, int_tiles[j]).y,
        0 <= int_grid_cell_spec(layer, i, int_tiles[i]).x < layer.grid_width * layer.grid_cell_size,
        0 <= int_grid_cell_spec(layer, i, int_tiles[i]).y,
{
    let w = layer.grid_width as int;
    let c = layer.grid_cell_size as int;
    assert(row_offset_fits(layer, i));
    assert(row_offset_fits(layer, j));
    lemma_trunc_rem_is_signed_mod(i, w);
    lemma_trunc_rem_is_signed_mod(j, w);
    assert(trunc_div(i, w) == i / w && trunc_div(j, w) == j / w);
    assert(trunc_rem(i, w) == i % w && trunc_rem(j, w) == j % w);
    assert(i / w <= i && j / w <= j) by (nonlinear_arith)
        requires w > 0, i >= 0, j >= 0;
    assert(0 <= (i % w) * c && 0 <= (i / w) * c) by (nonlinear_arith)
        requires w > 0, c > 0, 0 <= i;
    assert(0 <= (j % w) * c && 0 <= (j / w) * c) by (nonlinear_arith)
        requires w > 0, c > 0, 0 <= j;
    assert((i % w) * c < w * c && (j % w) * c < w * c) by (nonlinear_arith)
        requires w > 0, c > 0;
    assert(((i % w) * c != (j % w) * c) || ((i / w) * c != (j / w) * c)) by (nonlinear_arith)
        requires w > 0, c > 0, i != j, i >= 0, j >= 0;
}

/// A cell collides with the player exactly when its value is 1; every other
/// value is drawn with the material of that index.
pub proof fn lemma_int_grid_kinds(layer: LayerInfo, index: int, tile: i64)
    ensures
        int_grid_cell_spec(layer, index, tile).kind == IntGridCellKind::Collider <==> tile == 1,
        tile != 1 ==> int_grid_cell_spec(layer, index, tile).kind
            == (IntGridCellKind::Colored { material: #[verifier::truncate] (tile as usize) }),
{
}

/// For a positive row width, the cell at position `index` sits in column
/// `index % width` and row `index / width`, scaled by the cell size, at the
/// layer's depth and cell size, whenever those offsets fit in an `i32`.
pub proof fn lemma_int_grid_position_law(layer: LayerInfo, index: int, tile: i64)
    requires
        layer.grid_width > 0,
        index >= 0,
        i32::MIN <= (index % (layer.grid_width as int)) * layer.grid_cell_size <= i32::MAX,
        index / (layer.grid_width as int) <= i32::MAX,
        i32::MIN <= (index / (layer.grid_width as int)) * layer.grid_cell_size <= i32::MAX,
    ensures
        int_grid_cell_spec(layer, index, tile).x == (index % (layer.grid_width as int)) * layer.grid_cell_size,
        int_grid_cell_spec(layer, index, tile).y == (index / (layer.grid_width as int)) * layer.grid_cell_size,
        int_grid_cell_spec(layer, index, tile).z == layer.z_index,
        int_grid_cell_spec(layer, index, tile).grid_size == layer.grid_cell_size,
{
    crate::arith::lemma_trunc_division_law(index, layer.grid_width as int);
    let w = layer.grid_width as int;
    assert(index / w >= 0) by (nonlinear_arith)
        requires index >= 0, w > 0;
}

/// Whatever the row width: with a width of 0 every cell is in column offset 0,
/// the first in row 0 and every later one in row `i32::MAX`; with any other
/// width the column offset is Rust's `%` of the position by the width times the
/// cell size, clamped to the `i32` range, and the row is Rust's `/`, clamped
/// to the `i32` range, times the cell size.
pub proof fn lemma_int_grid_offsets_law(layer: LayerInfo, index: int, tile: i64)
    requires
        index >= 0,
        row_offset_fits(layer, index),
    ensures
        layer.grid_width == 0 ==> int_grid_cell_spec(layer, index, tile).x == 0,
        layer.grid_width == 0 && index == 0 ==> int_grid_cell_spec(layer, index, tile).y == 0,
        layer.grid_width == 0 && index > 0 ==> int_grid_cell_spec(layer, index, tile).y
            == i32::MAX * layer.grid_cell_size,
        layer.grid_width != 0 ==> ({
            let v = trunc_rem(index, layer.grid_width as int) * layer.grid_cell_size;
            int_grid_cell_spec(layer, index, tile).x == if v > i32::MAX {
                i32::MAX as int
            } else if v < i32::MIN {
                i32::MIN as int
            } else {
                v
            }
        }),
        layer.grid_width != 0 ==> ({
            let q = trunc_div(index, layer.grid_width as int);
            int_grid_cell_spec(layer, index, tile).y == (if q > i32::MAX {
                i32::MAX as int
            } else if q < i32::MIN {
                i32::MIN as int
            } else {
                q
            }) * layer.grid_cell_size
        }),
{
}

} // verus!
