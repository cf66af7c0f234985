//! Entities of an entity layer: the extra facts each one needs from the
//! project's definitions, and where and how it is drawn.

use vstd::prelude::*;
use crate::definitions::{Definitions, EntityDefinition, TilesetDefinition};
use crate::layer::LayerInfo;

verus! {

/// A scale factor kept as a fraction `numerator / denominator`, as the
/// definitions give it (an entity's width over a tileset's tile size).
#[derive(Clone, Copy, Debug, PartialEq, Eq, Structural)]
pub struct ScaleRatio {
    pub numerator: i64,
    pub denominator: i64,
}

/// What drawing an entity needs from the definitions section, beyond what
/// the entity instance itself holds.
#[derive(Clone, Copy, Debug, PartialEq, Eq, Structural)]
pub struct ExtraEntDefs {
    pub tile_id: i32,
    pub width: i32,
    pub height: i32,
    pub scale: ScaleRatio,
}

/// An entity placed in an entity layer: the definition it instantiates, its
/// cell in the layer's grid, and the tileset of its tile, if it shows one.
#[derive(Clone, Copy, Debug, PartialEq, Eq, Structural)]
pub struct EntityInstance {
    pub def_uid: i64,
    pub grid_x: i32,
    pub grid_y: i32,
    pub tile_tileset_uid: Option<i64>,
}

/// How an entity is drawn: a tile of a sprite sheet, or a plain shape.
#[derive(Clone, Copy, Debug, PartialEq, Eq, Structural)]
pub enum EntitySprite {
    Tile { tileset_key: i32, tile_index: i32, scale: ScaleRatio },
    Shape { material_key: i32, width: i32, height: i32 },
}

/// Where and how one entity is drawn. `x` and `y` are pixel positions in the
/// layer, from the top left; `grid_size` is the size the position is centred on.
#[derive(Clone, Copy, Debug, PartialEq, Eq, Structural)]
pub struct EntityPlacement {
    pub x: i32,
    pub y: i32,
    pub z: i32,
    pub grid_size: i32,
    pub sprite: EntitySprite,
}

/// The scale of an entity with no tile-rendered definition: one.
pub open spec fn unit_scale() -> ScaleRatio {
    ScaleRatio { numerator: 1, denominator: 1 }
}

/// The extra facts of an entity before any definition is looked at.
pub open spec fn default_extra_ent_defs() -> ExtraEntDefs {
    ExtraEntDefs { tile_id: 0, width: 0, height: 0, scale: unit_scale() }
}

/// The value inside an optional id, or 0.
pub open spec fn id_or_zero(id: Option<i64>) -> i64 {
    match id {
        Some(v) => v,
        None => 0,
    }
}

/// The last of the first `n` entity definitions that has uid `uid`.
pub open spec fn last_def_with_uid(defs: Seq<EntityDefinition>, uid: i64, n: int) -> Option<int>
    decreases n,
{
    if n <= 0 {
        None
    } else if defs[n - 1].uid == uid {
        Some(n - 1)
    } else {
        last_def_with_uid(defs, uid, n - 1)
    }
}

/// The last of the first `m` tileset definitions that has uid `uid`.
pub open spec fn last_tileset_with_uid(ts: Seq<TilesetDefinition>, uid: i64, m: int) -> Option<int>
    decreases m,
{
    if m <= 0 {
        None
    } else if ts[m - 1].uid == uid {
        Some(m - 1)
    } else {
        last_tileset_with_uid(ts, uid, m - 1)
    }
}

/// The scale a tile-rendered definition gives: its width over the tile size
/// of the last tileset definition with its tileset's uid, or one when no
/// tileset definition has that uid.
pub open spec fn scale_of(d: EntityDefinition, ts: Seq<TilesetDefinition>) -> ScaleRatio {
    match last_tileset_with_uid(ts, id_or_zero(d.tileset_id), ts.len() as int) {
        Some(k) => ScaleRatio { numerator: d.width, denominator: ts[k].tile_grid_size },
        None => unit_scale(),
    }
}

/// The extra facts a definition gives the entities that instantiate it: its
/// size; when it is rendered as a tile, its tile and its scale; otherwise tile
/// 0 at a scale of one.
pub open spec fn extra_ent_defs_of(d: EntityDefinition, ts: Seq<TilesetDefinition>) -> ExtraEntDefs {
    ExtraEntDefs {
        tile_id: if d.renders_tile {
            #[verifier::truncate] (id_or_zero(d.tile_id) as i32)
        } else {
            0i32
        },
        width: #[verifier::truncate] (d.width as i32),
        height: #[verifier::truncate] (d.height as i32),
        scale: if d.renders_tile {
            scale_of(d, ts)
        } else {
            unit_scale()
        },
    }
}

/// The extra facts for an entity with definition uid `uid`, after the first
/// `n` entity definitions have been looked at, in order: those of the last
/// definition with that uid, or the defaults when there is none.
pub open spec fn extra_ent_defs_upto(
    defs: Seq<EntityDefinition>,
    ts: Seq<TilesetDefinition>,
    uid: i64,
    n: int,
) -> ExtraEntDefs {
    match last_def_with_uid(defs, uid, n) {
        Some(j) => extra_ent_defs_of(defs[j], ts),
        None => default_extra_ent_defs(),
    }
}

/// The extra facts for an entity with definition uid `uid`, from all definitions.
pub open spec fn extra_ent_defs_spec(defs: Seq<EntityDefinition>, ts: Seq<TilesetDefinition>, uid: i64) -> ExtraEntDefs {
    extra_ent_defs_upto(defs, ts, uid, defs.len() as int)
}

/// Every tile-rendered definition with uid `uid` names its tile, and also its
/// tileset when there are tileset definitions to look it up in.
pub open spec fn tile_definitions_complete(defs: Seq<EntityDefinition>, ts: Seq<TilesetDefinition>, uid: i64) -> bool {
    forall|j: int| 0 <= j < defs.len() && (#[trigger] defs[j]).uid == uid && defs[j].renders_tile ==>
        defs[j].tile_id is Some && (ts.len() > 0 ==> defs[j].tileset_id is Some)
}

impl ExtraEntDefs {
    /// No tile, no size, and a scale of one.
    pub fn new() -> (e: ExtraEntDefs)
        ensures
            e == default_extra_ent_defs(),
    {
        ExtraEntDefs { tile_id: 0, width: 0, height: 0, scale: ScaleRatio { numerator: 1, denominator: 1 } }
    }
}

/// Looks up, in the definitions section, the extra facts that drawing an
/// entity with definition uid `def_uid` needs: they come from the entity's
/// own definition (the last one, if the uid occurs more than once).
pub fn resolve_extra_ent_defs(definitions: &Definitions, def_uid: i64) -> (extra: ExtraEntDefs)
    requires
        tile_definitions_complete(definitions.entities@, definitions.tilesets@, def_uid),
    ensures
        extra == extra_ent_defs_spec(definitions.entities@, definitions.tilesets@, def_uid),
{
    let ghost defs = definitions.entities@;
    let ghost ts = definitions.tilesets@;
    let mut extra = ExtraEntDefs::new();
    for j in 0..definitions.entities.len()
        invariant
            defs == definitions.entities@,
            ts == definitions.tilesets@,
            tile_definitions_complete(defs, ts, def_uid),
            extra == extra_ent_defs_upto(defs, ts, def_uid, j as int),
    {
        let ent = definitions.entities[j];
        if ent.uid == def_uid {
            assert(defs[j as int].uid == def_uid);
            extra.tile_id = 0;
            extra.width = #[verifier::truncate] (ent.width as i32);
            extra.height = #[verifier::truncate] (ent.height as i32);
            extra.scale = ScaleRatio { numerator: 1, denominator: 1 };
            if ent.renders_tile {
                extra.tile_id = #[verifier::truncate] (ent.tile_id.unwrap() as i32);
                let ghost mid = extra;
                for k in 0..definitions.tilesets.len()
                    invariant
                        ts == definitions.tilesets@,
                        ts.len() > 0 ==> ent.tileset_id is Some,
                        extra.tile_id == mid.tile_id,
                        extra.width == mid.width,
                        extra.height == mid.height,
                        extra.scale == match last_tileset_with_uid(ts, id_or_zero(ent.tileset_id), k as int) {
                            Some(kk) => ScaleRatio { numerator: ent.width, denominator: ts[kk].tile_grid_size },
                            None => unit_scale(),
                        },
                {
                    let tileset_id = ent.tileset_id.unwrap();
                    if definitions.tilesets[k].uid == tileset_id {
                        extra.scale = ScaleRatio {
                            numerator: ent.width,
                            denominator: definitions.tilesets[k].tile_grid_size,
                        };
                    }
                }
            }
        }
        assert(extra == extra_ent_defs_upto(defs, ts, def_uid, j + 1));
    }
    extra
}

/// Where and how an entity is drawn, given its extra facts.
pub open spec fn entity_placement_spec(entity: EntityInstance, extra: ExtraEntDefs, layer: LayerInfo) -> EntityPlacement {
    EntityPlacement {
        x: (entity.grid_x * layer.grid_cell_size) as i32,
        y: (entity.grid_y * layer.grid_cell_size) as i32,
        z: layer.z_index,
        grid_size: extra.height,
        sprite: match entity.tile_tileset_uid {
            Some(tileset_uid) => EntitySprite::Tile {
                tileset_key: #[verifier::truncate] (tileset_uid as i32),
                tile_index: extra.tile_id,
                scale: extra.scale,
            },
            None => EntitySprite::Shape {
                material_key: #[verifier::truncate] (entity.def_uid as i32),
                width: extra.width,
                height: extra.height,
            },
        },
    }
}

/// The entity's cell, scaled to pixels, fits in an `i32`.
pub open spec fn entity_position_fits(entity: EntityInstance, layer: LayerInfo) -> bool {
    &&& i32::MIN <= entity.grid_x * layer.grid_cell_size <= i32::MAX
    &&& i32::MIN <= entity.grid_y * layer.grid_cell_size <= i32::MAX
}

/// Where and how one entity is drawn: an entity that shows a tile is drawn as
/// that tile of its tileset's sprite sheet; any other as a shape of its
/// definition's size.
pub fn display_entity(entity: &EntityInstance, extra_ent_defs: &ExtraEntDefs, layer_info: &LayerInfo) -> (p: EntityPlacement)
    requires
        entity_position_fits(*entity, *layer_info),
    ensures
        p == entity_placement_spec(*entity, *extra_ent_defs, *layer_info),
{
    let sprite = match entity.tile_tileset_uid {
        Some(tileset_uid) => EntitySprite::Tile {
            tileset_key: #[verifier::truncate] (tileset_uid as i32),
            tile_index: extra_ent_defs.tile_id,
            scale: extra_ent_defs.scale,
        },
        None => EntitySprite::Shape {
            material_key: #[verifier::truncate] (entity.def_uid as i32),
            width: extra_ent_defs.width,
            height: extra_ent_defs.height,
        },
    };
    EntityPlacement {
        x: entity.grid_x * layer_info.grid_cell_size,
        y: entity.grid_y * layer_info.grid_cell_size,
        z: layer_info.z_index,
        grid_size: extra_ent_defs.height,
        sprite,
    }
}

/// Where and how each entity of an entity layer is drawn, in the layer's order.
pub fn display_entities(entities: &Vec<EntityInstance>, definitions: &Definitions, layer_info: &LayerInfo) -> (placements: Vec<EntityPlacement>)
    requires
        forall|i: int| 0 <= i < entities@.len() ==> tile_definitions_complete(
            definitions.entities@,
            definitions.tilesets@,
            #[trigger] entities@[i].def_uid,
        ),
        forall|i: int| 0 <= i < entities@.len() ==> entity_position_fits(#[trigger] entities@[i], *layer_info),
    ensures
        placements@.len() == entities@.len(),
        forall|i: int| 0 <= i < entities@.len() ==>
            #[trigger] placements@[i] == entity_placement_spec(
                entities@[i],
                extra_ent_defs_spec(definitions.entities@, definitions.tilesets@, entities@[i].def_uid),
                *layer_info,
            ),
{
    let mut placements: Vec<EntityPlacement> = Vec::new();
    for i in 0..entities.len()
        invariant
            forall|k: int| 0 <= k < entities@.len() ==> tile_definitions_complete(
                definitions.entities@,
                definitions.tilesets@,
                #[trigger] entities@[k].def_uid,
            ),
            forall|k: int| 0 <= k < entities@.len() ==> entity_position_fits(#[trigger] entities@[k], *layer_info),
            placements@.len() == i,
            forall|k: int| 0 <= k < i ==>
                #[trigger] placements@[k] == entity_placement_spec(
                    entities@[k],
                    extra_ent_defs_spec(definitions.entities@, definitions.tilesets@, entities@[k].def_uid),
                    *layer_info,
                ),
    {
        let entity = &entities[i];
        let extra = resolve_extra_ent_defs(definitions, entity.def_uid);
        placements.push(display_entity(entity, &extra, layer_info));
    }
    placements
}


/// `last_def_with_uid` finds the last definition with the uid among the first `n`.
pub proof fn lemma_last_def_with_uid(defs: Seq<EntityDefinition>, uid: i64, n: int)
    requires
        0 <= n <= defs.len(),
    ensures
        match last_def_with_uid(defs, uid, n) {
            Some(j) => 0 <= j < n && defs[j].uid == uid && forall|k: int| j < k < n ==> defs[k].uid != uid,
            None => forall|k: int| 0 <= k < n ==> defs[k].uid != uid,
        },
    decreases n,
{
    if n > 0 {
        lemma_last_def_with_uid(defs, uid, n - 1);
    }
}

/// An entity whose definition is missing from the definitions section keeps
/// the defaults: no size, tile 0, and a scale of one.
pub proof fn lemma_missing_definition_gives_defaults(defs: Seq<EntityDefinition>, ts: Seq<TilesetDefinition>, uid: i64)
    requires
        forall|k: int| 0 <= k < defs.len() ==> (#[trigger] defs[k]).uid != uid,
    ensures
        extra_ent_defs_spec(defs, ts, uid) == default_extra_ent_defs(),
{
    lemma_last_def_with_uid(defs, uid, defs.len() as int);
}

/// An entity whose uid belongs to exactly one definition takes its size, its
/// tile and its scale from that definition.
pub proof fn lemma_unique_definition_gives_facts(
    defs: Seq<EntityDefinition>,
    ts: Seq<TilesetDefinition>,
    uid: i64,
    j: int,
)
    requires
        0 <= j < defs.len(),
        defs[j].uid == uid,
        forall|k: int| 0 <= k < defs.len() && k != j ==> (#[trigger] defs[k]).uid != uid,
    ensures
        extra_ent_defs_spec(defs, ts, uid) == extra_ent_defs_of(defs[j], ts),
{
    lemma_last_def_with_uid(defs, uid, defs.len() as int);
}

/// Definitions of other entities do not change an entity's extra facts.
pub proof fn lemma_other_definitions_irrelevant(
    defs: Seq<EntityDefinition>,
    ts: Seq<TilesetDefinition>,
    uid: i64,
    d: EntityDefinition,
)
    requires
        d.uid != uid,
    ensures
        extra_ent_defs_spec(defs.push(d), ts, uid) == extra_ent_defs_spec(defs, ts, uid),
{
    let n = defs.len() as int;
    let longer = defs.push(d);
    assert(longer[n] == d);
    assert(last_def_with_uid(longer, uid, n + 1) == last_def_with_uid(longer, uid, n));
    lemma_last_def_with_uid_prefix(defs, d, uid, n);
    lemma_last_def_with_uid(defs, uid, n);
    if let Some(j) = last_def_with_uid(defs, uid, n) {
        assert(longer[j] == defs[j]);
    }
}

/// Looking at a prefix of a longer sequence finds the same definition.
proof fn lemma_last_def_with_uid_prefix(defs: Seq<EntityDefinition>, d: EntityDefinition, uid: i64, n: int)
    requires
        0 <= n <= defs.len(),
    ensures
        last_def_with_uid(defs.push(d), uid, n) == last_def_with_uid(defs, uid, n),
    decreases n,
{
    if n > 0 {
        assert(defs.push(d)[n - 1] == defs[n - 1]);
        lemma_last_def_with_uid_prefix(defs, d, uid, n - 1);
    }
}

/// Before any definition is looked at, an entity has no tile, no size, and a
/// scale of one.
pub proof fn lemma_default_extra_law()
    ensures
        default_extra_ent_defs().tile_id == 0,
        default_extra_ent_defs().width == 0,
        default_extra_ent_defs().height == 0,
        default_extra_ent_defs().scale.numerator == 1,
        default_extra_ent_defs().scale.denominator == 1,
{
}

/// An entity's extra facts are those of its own definition, the last one with
/// its uid: that definition's width and height; when it is rendered as a tile,
/// its tile id, and a scale of its width over the tile size of the last tileset
/// definition with its tileset's uid, or one when there is none; otherwise tile
/// 0 at a scale of one.
pub proof fn lemma_own_definition_law(defs: Seq<EntityDefinition>, ts: Seq<TilesetDefinition>, uid: i64, j: int)
    requires
        0 <= j < defs.len(),
        defs[j].uid == uid,
        forall|k: int| j < k < defs.len() ==> (#[trigger] defs[k]).uid != uid,
    ensures
        extra_ent_defs_spec(defs, ts, uid).width == #[verifier::truncate] (defs[j].width as i32),
        extra_ent_defs_spec(defs, ts, uid).height == #[verifier::truncate] (defs[j].height as i32),
        !defs[j].renders_tile ==> extra_ent_defs_spec(defs, ts, uid).tile_id == 0,
        !defs[j].renders_tile ==> extra_ent_defs_spec(defs, ts, uid).scale == (ScaleRatio { numerator: 1, denominator: 1 }),
        forall|t: i64| defs[j].renders_tile && defs[j].tile_id == Some(t) ==>
            extra_ent_defs_spec(defs, ts, uid).tile_id == #[verifier::truncate] (t as i32),
        forall|k: int|
            defs[j].renders_tile && 0 <= k < ts.len() && defs[j].tileset_id == Some((#[trigger] ts[k]).uid)
                && (forall|m: int| k < m < ts.len() ==> (#[trigger] ts[m]).uid != ts[k].uid) ==>
            extra_ent_defs_spec(defs, ts, uid).scale == (ScaleRatio {
                numerator: defs[j].width,
                denominator: ts[k].tile_grid_size,
            }),
        defs[j].renders_tile && defs[j].tileset_id is Some && (forall|m: int|
            0 <= m < ts.len() ==> Some((#[trigger] ts[m]).uid) != defs[j].tileset_id) ==>
            extra_ent_defs_spec(defs, ts, uid).scale == (ScaleRatio { numerator: 1, denominator: 1 }),
{
    lemma_last_def_with_uid(defs, uid, defs.len() as int);
    assert(last_def_with_uid(defs, uid, defs.len() as int) == Some(j));
    let d = defs[j];
    if d.renders_tile {
        if let Some(s) = d.tileset_id {
            lemma_last_tileset_with_uid(ts, s, ts.len() as int);
            assert forall|k: int|
                0 <= k < ts.len() && (#[trigger] ts[k]).uid == s && (forall|m: int| k < m < ts.len() ==> (#[trigger] ts[m]).uid != ts[k].uid)
                implies last_tileset_with_uid(ts, s, ts.len() as int) == Some(k) by {
                lemma_last_tileset_with_uid(ts, s, ts.len() as int);
                if let Some(kk) = last_tileset_with_uid(ts, s, ts.len() as int) {
                    if kk < k {
                        assert(ts[k].uid != s);
                    } else if kk > k {
                        assert(ts[kk].uid != s);
                    }
                }
            }
        }
    }
}

/// `last_tileset_with_uid` finds the last tileset definition with the uid among the first `m`.
pub proof fn lemma_last_tileset_with_uid(ts: Seq<TilesetDefinition>, uid: i64, m: int)
    requires
        0 <= m <= ts.len(),
    ensures
        match last_tileset_with_uid(ts, uid, m) {
            Some(k) => 0 <= k < m && ts[k].uid == uid && forall|q: int| k < q < m ==> ts[q].uid != uid,
            None => forall|q: int| 0 <= q < m ==> ts[q].uid != uid,
        },
    decreases m,
{
    if m > 0 {
        lemma_last_tileset_with_uid(ts, uid, m - 1);
    }
}

/// An entity that shows a tile is drawn as that tile of the sprite sheet stored
/// under its tileset's uid (converted with `as i32`), with its tile id and scale,
/// whatever the tile id; an entity without a tile is drawn as a shape of its
/// definition's size, coloured by the material of its definition's uid. Either
/// way it sits at its grid cell scaled by the layer's cell size, at the
/// layer's depth, centred on its height.
pub proof fn lemma_entity_placement_law(entity: EntityInstance, extra: ExtraEntDefs, layer: LayerInfo)
    requires
        entity_position_fits(entity, layer),
    ensures
        entity_placement_spec(entity, extra, layer).x == entity.grid_x * layer.grid_cell_size,
        entity_placement_spec(entity, extra, layer).y == entity.grid_y * layer.grid_cell_size,
        entity_placement_spec(entity, extra, layer).z == layer.z_index,
        entity_placement_spec(entity, extra, layer).grid_size == extra.height,
        forall|u: i64| entity.tile_tileset_uid == Some(u) ==> entity_placement_spec(entity, extra, layer).sprite
            == (EntitySprite::Tile {
                tileset_key: #[verifier::truncate] (u as i32),
                tile_index: extra.tile_id,
                scale: extra.scale,
            }),
        entity.tile_tileset_uid is None ==> entity_placement_spec(entity, extra, layer).sprite
            == (EntitySprite::Shape {
                material_key: #[verifier::truncate] (entity.def_uid as i32),
                width: extra.width,
                height: extra.height,
            }),
{
}

} // verus!
