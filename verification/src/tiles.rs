//! Tiles of a tile layer: flipping, and where each tile goes.

use vstd::prelude::*;
use crate::arith::{abs, div_rem_i64, lemma_trunc_bounds, trunc_div, trunc_rem};
use crate::layer::LayerInfo;

verus! {

/// A tile of a tile layer: its pixel position in the layer, its flip bits
/// and its id in the tileset.
#[derive(Clone, Copy, Debug, PartialEq, Eq, Structural)]
pub struct TileInstance {
    pub px_x: i32,
    pub px_y: i32,
    pub f: i64,
    pub t: i64,
}

/// Whether a tile is mirrored along the x axis, the y axis, or both.
#[derive(Clone, Copy, Debug, PartialEq, Eq, Structural)]
pub struct TileFlip {
    pub flip_x: bool,
    pub flip_y: bool,
}

/// Where and how one tile is drawn.
#[derive(Clone, Copy, Debug, PartialEq, Eq, Structural)]
pub struct TilePlacement {
    /// Pixel position in the layer, counted from the top left.
    pub x: i32,
    pub y: i32,
    /// Depth of the layer.
    pub z: i32,
    /// Cell size of the layer, in pixels.
    pub grid_size: i32,
    pub flip: TileFlip,
    /// The tile's index in the sprite sheet.
    pub tile_index: i64,
}

/// The flips that the flip bits `f` ask for: 1 mirrors x, 2 mirrors y, 3 both;
/// any other value draws the tile as it is.
pub open spec fn tile_flip_spec(f: i64) -> TileFlip {
    TileFlip { flip_x: f == 1 || f == 3, flip_y: f == 2 || f == 3 }
}

/// Where a tile of the layer described by `layer` goes.
pub open spec fn tile_placement_spec(layer: LayerInfo, tile: TileInstance) -> TilePlacement {
    TilePlacement {
        x: tile.px_x,
        y: tile.px_y,
        z: layer.z_index,
        grid_size: layer.grid_cell_size,
        flip: tile_flip_spec(tile.f),
        tile_index: tile.t,
    }
}

/// For the flip values LDtk writes (0 to 3), bit 0 mirrors x and bit 1 mirrors y.
pub proof fn lemma_flip_bits(f: i64)
    requires
        0 <= f <= 3,
    ensures
        tile_flip_spec(f).flip_x == (f % 2 == 1),
        tile_flip_spec(f).flip_y == (f / 2 == 1),
{
}

/// Decodes a tile's flip bits.
pub fn tile_flip(f: i64) -> (flip: TileFlip)
    ensures
        flip == tile_flip_spec(f),
{
    let mut flip_x = false;
    let mut flip_y = false;
    match f {
        1 => flip_x = true,
        2 => flip_y = true,
        3 => {
            flip_x = true;
            flip_y = true;
        },
        _ => {},
    }
    TileFlip { flip_x, flip_y }
}

/// Where one tile goes, and whether it is mirrored.
pub fn display_tile(layer_info: &LayerInfo, tile: &TileInstance) -> (p: TilePlacement)
    ensures
        p == tile_placement_spec(*layer_info, *tile),
{
    TilePlacement {
        x: tile.px_x,
        y: tile.px_y,
        z: layer_info.z_index,
        grid_size: layer_info.grid_cell_size,
        flip: tile_flip(tile.f),
        tile_index: tile.t,
    }
}

/// Where each tile of a tile layer goes, in the layer's order.
pub fn display_tiles(layer_info: &LayerInfo, tiles: &Vec<TileInstance>) -> (placements: Vec<TilePlacement>)
    ensures
        placements@.len() == tiles@.len(),
        forall|i: int| 0 <= i < tiles@.len() ==>
            #[trigger] placements@[i] == tile_placement_spec(*layer_info, tiles@[i]),
{
    let mut placements: Vec<TilePlacement> = Vec::new();
    for i in 0..tiles.len()
        invariant
            placements@.len() == i,
            forall|j: int| 0 <= j < i ==>
                #[trigger] placements@[j] == tile_placement_spec(*layer_info, tiles@[j]),
    {
        placements.push(display_tile(layer_info, &tiles[i]));
    }
    placements
}

/// A flat-coloured cell drawn for an int-grid value: its pixel position, depth and size.
#[derive(Clone, Copy, Debug, PartialEq, Eq, Structural)]
pub struct ColorCell {
    pub x: i32,
    pub y: i32,
    pub z: i32,
    pub grid_size: i32,
}

/// Where the coloured cell for the int-grid value `tile` goes: the value,
/// read as a cell number, is split into a column and a row of the layer's grid.
pub open spec fn color_cell_spec(layer: LayerInfo, tile: i64) -> ColorCell {
    let t = #[verifier::truncate] (tile as i32);
    ColorCell {
        x: (trunc_rem(t as int, layer.grid_width as int) * layer.grid_cell_size) as i32,
        y: (trunc_div(t as int, layer.grid_width as int) * layer.grid_cell_size) as i32,
        z: layer.z_index,
        grid_size: layer.grid_cell_size,
    }
}

/// Where the coloured cell for an int-grid value goes.
pub fn display_color(layer_info: &LayerInfo, tile: i64) -> (cell: ColorCell)
    requires
        layer_info.grid_width != 0,
        !(#[verifier::truncate] (tile as i32) == i32::MIN && layer_info.grid_width == -1),
        i32::MIN <= trunc_rem(#[verifier::truncate] (tile as i32) as int, layer_info.grid_width as int)
            * layer_info.grid_cell_size <= i32::MAX,
        i32::MIN <= trunc_div(#[verifier::truncate] (tile as i32) as int, layer_info.grid_width as int)
            * layer_info.grid_cell_size <= i32::MAX,
    ensures
        cell == color_cell_spec(*layer_info, tile),
{
    let t: i32 = #[verifier::truncate] (tile as i32);
    let (q, r) = div_rem_i64(t as i64, layer_info.grid_width as i64);
    proof {
        // the remainder is smaller than the divisor; the quotient is no larger than
        // the dividend, and reaches 2^31 only for i32::MIN / -1, which is excluded
        lemma_trunc_bounds(t as int, layer_info.grid_width as int);
        let w = layer_info.grid_width as int;
        if abs(w) >= 2 {
            assert(abs(t as int) / abs(w) <= abs(t as int) / 2) by (nonlinear_arith)
                requires abs(w) >= 2, abs(t as int) >= 0;
        }
    }
    let col: i32 = r as i32;
    let row: i32 = q as i32;
    ColorCell {
        x: col * layer_info.grid_cell_size,
        y: row * layer_info.grid_cell_size,
        z: layer_info.z_index,
        grid_size: layer_info.grid_cell_size,
    }
}

/// A tile is drawn at its own pixel position, with its own tile id, at the
/// layer's depth and cell size, mirrored along x for flip values 1 and 3 and
/// along y for flip values 2 and 3.
pub proof fn lemma_tile_placement_law(layer: LayerInfo, tile: TileInstance)
    ensures
        tile_placement_spec(layer, tile).x == tile.px_x,
        tile_placement_spec(layer, tile).y == tile.px_y,
        tile_placement_spec(layer, tile).z == layer.z_index,
        tile_placement_spec(layer, tile).grid_size == layer.grid_cell_size,
        tile_placement_spec(layer, tile).tile_index == tile.t,
        tile_placement_spec(layer, tile).flip.flip_x == (tile.f == 1 || tile.f == 3),
        tile_placement_spec(layer, tile).flip.flip_y == (tile.f == 2 || tile.f == 3),
{
}

/// For a non-negative value and a positive grid width, the coloured cell sits
/// in column `tile % width` and row `tile / width`, scaled by the cell size.
pub proof fn lemma_color_cell_law(layer: LayerInfo, tile: i64)
    requires
        0 <= tile <= i32::MAX,
        layer.grid_width > 0,
        i32::MIN <= ((tile as int) % (layer.grid_width as int)) * layer.grid_cell_size <= i32::MAX,
        i32::MIN <= ((tile as int) / (layer.grid_width as int)) * layer.grid_cell_size <= i32::MAX,
    ensures
        color_cell_spec(layer, tile).x == ((tile as int) % (layer.grid_width as int)) * layer.grid_cell_size,
        color_cell_spec(layer, tile).y == ((tile as int) / (layer.grid_width as int)) * layer.grid_cell_size,
        color_cell_spec(layer, tile).z == layer.z_index,
        color_cell_spec(layer, tile).grid_size == layer.grid_cell_size,
{
    crate::arith::lemma_trunc_division_law(tile as int, layer.grid_width as int);
    assert((#[verifier::truncate] (tile as i32)) as int == tile as int);
}

/// For any value, the coloured cell sits in the column given by Rust's `%` of
/// the value (converted with `as i32`) by the grid width, and in the row given
/// by Rust's `/`, each scaled by the cell size.
pub proof fn lemma_color_cell_signed_law(layer: LayerInfo, tile: i64)
    requires
        layer.grid_width != 0,
        i32::MIN <= trunc_rem(#[verifier::truncate] (tile as i32) as int, layer.grid_width as int)
            * layer.grid_cell_size <= i32::MAX,
        i32::MIN <= trunc_div(#[verifier::truncate] (tile as i32) as int, layer.grid_width as int)
            * layer.grid_cell_size <= i32::MAX,
    ensures
        color_cell_spec(layer, tile).x == trunc_rem(#[verifier::truncate] (tile as i32) as int, layer.grid_width as int)
            * layer.grid_cell_size,
        color_cell_spec(layer, tile).y == trunc_div(#[verifier::truncate] (tile as i32) as int, layer.grid_width as int)
            * layer.grid_cell_size,
{
}

} // verus!
