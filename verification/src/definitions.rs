//! The project-wide definitions that entities and tile layers refer to, and
//! the sprite-sheet layout each tileset definition asks for.

use vstd::prelude::*;
use crate::arith::{div_rem_i64, trunc_div};
use crate::entities::{entity_placement_spec, EntityInstance, EntitySprite, ExtraEntDefs};
use crate::layer::{tileset_key_spec, LayerInfo};

verus! {

/// The fields of an entity definition that decide how its instances are drawn.
#[derive(Clone, Copy, Debug, PartialEq, Eq, Structural)]
pub struct EntityDefinition {
    pub uid: i64,
    pub width: i64,
    pub height: i64,
    /// Whether the definition is rendered as a tile (rather than as a shape).
    pub renders_tile: bool,
    pub tile_id: Option<i64>,
    pub tileset_id: Option<i64>,
}

/// The fields of a tileset definition that the drawing code reads.
#[derive(Clone, Copy, Debug, PartialEq, Eq, Structural)]
pub struct TilesetDefinition {
    pub uid: i64,
    /// Size of one tile, in pixels.
    pub tile_grid_size: i64,
    /// Size of the tileset image, in pixels.
    pub px_wid: i64,
    pub px_hei: i64,
}

/// The entity and tileset definitions of a project.
pub struct Definitions {
    pub entities: Vec<EntityDefinition>,
    pub tilesets: Vec<TilesetDefinition>,
}

/// How a tileset image is cut into a sprite sheet: the key it is stored
/// under, the size of one tile, and the number of columns and rows.
#[derive(Clone, Copy, Debug, PartialEq, Eq, Structural)]
pub struct TilesetAtlas {
    pub key: i32,
    pub tile_size: i64,
    pub columns: usize,
    pub rows: usize,
}

/// The sprite sheet of a tileset: as many whole tiles across and down as the
/// image holds (Rust's division, then a conversion to `usize`).
pub open spec fn tileset_atlas_spec(ts: TilesetDefinition) -> TilesetAtlas {
    TilesetAtlas {
        key: #[verifier::truncate] (ts.uid as i32),
        tile_size: ts.tile_grid_size,
        columns: #[verifier::truncate] (trunc_div(ts.px_wid as int, ts.tile_grid_size as int) as usize),
        rows: #[verifier::truncate] (trunc_div(ts.px_hei as int, ts.tile_grid_size as int) as usize),
    }
}

/// Cuts a tileset image into its sprite sheet.
pub fn tileset_atlas(ts: &TilesetDefinition) -> (atlas: TilesetAtlas)
    requires
        ts.tile_grid_size != 0,
        !(ts.tile_grid_size == -1 && (ts.px_wid == i64::MIN || ts.px_hei == i64::MIN)),
    ensures
        atlas == tileset_atlas_spec(*ts),
{
    let (cols, _) = div_rem_i64(ts.px_wid, ts.tile_grid_size);
    let (rows, _) = div_rem_i64(ts.px_hei, ts.tile_grid_size);
    TilesetAtlas {
        key: #[verifier::truncate] (ts.uid as i32),
        tile_size: ts.tile_grid_size,
        columns: #[verifier::truncate] (cols as usize),
        rows: #[verifier::truncate] (rows as usize),
    }
}

/// A sprite sheet holds only whole tiles: as many columns and rows as fit in
/// the image, and no more.
pub proof fn lemma_atlas_whole_tiles(ts: TilesetDefinition)
    requires
        ts.tile_grid_size > 0,
        0 <= ts.px_wid <= usize::MAX,
        0 <= ts.px_hei <= usize::MAX,
    ensures
        tileset_atlas_spec(ts).columns * ts.tile_grid_size <= ts.px_wid,
        ts.px_wid < (tileset_atlas_spec(ts).columns + 1) * ts.tile_grid_size,
        tileset_atlas_spec(ts).rows * ts.tile_grid_size <= ts.px_hei,
        ts.px_hei < (tileset_atlas_spec(ts).rows + 1) * ts.tile_grid_size,
{
    let g = ts.tile_grid_size as int;
    let w = ts.px_wid as int;
    let h = ts.px_hei as int;
    assert(trunc_div(w, g) == w / g);
    assert(trunc_div(h, g) == h / g);
    assert((w / g) * g <= w < (w / g + 1) * g && 0 <= w / g <= w) by (nonlinear_arith)
        requires g > 0, w >= 0;
    assert((h / g) * g <= h < (h / g + 1) * g && 0 <= h / g <= h) by (nonlinear_arith)
        requires g > 0, h >= 0;
    assert(tileset_atlas_spec(ts).columns == w / g);
    assert(tileset_atlas_spec(ts).rows == h / g);
}

/// A tileset's sprite sheet is stored under the tileset's uid (converted with
/// `as i32`, so a uid within `i32` is the key itself), which is the key a
/// layer drawing from that tileset and an entity showing a tile of it look it
/// up by; one tile is the tileset's tile size.
pub proof fn lemma_atlas_key_law(ts: TilesetDefinition)
    ensures
        tileset_atlas_spec(ts).key == #[verifier::truncate] (ts.uid as i32),
        i32::MIN <= ts.uid <= i32::MAX ==> tileset_atlas_spec(ts).key == ts.uid,
        tileset_atlas_spec(ts).key == tileset_key_spec(Some(ts.uid)),
        tileset_atlas_spec(ts).tile_size == ts.tile_grid_size,
        forall|e: EntityInstance, extra: ExtraEntDefs, layer: LayerInfo|
            e.tile_tileset_uid == Some(ts.uid) ==> (#[trigger] entity_placement_spec(e, extra, layer)).sprite
                == (EntitySprite::Tile { tileset_key: tileset_atlas_spec(ts).key, tile_index: extra.tile_id, scale: extra.scale }),
{
}

} // verus!
