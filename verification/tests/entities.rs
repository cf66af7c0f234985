use platformer::definitions::{tileset_atlas, Definitions, EntityDefinition, TilesetAtlas, TilesetDefinition};
use platformer::entities::{
    display_entities, display_entity, resolve_extra_ent_defs, EntityInstance, EntityPlacement, EntitySprite,
    ExtraEntDefs, ScaleRatio,
};
use platformer::layer::LayerInfo;

fn shape_def(uid: i64, width: i64, height: i64) -> EntityDefinition {
    EntityDefinition { uid, width, height, renders_tile: false, tile_id: None, tileset_id: None }
}

fn tile_def(uid: i64, width: i64, height: i64, tile_id: i64, tileset_id: i64) -> EntityDefinition {
    EntityDefinition { uid, width, height, renders_tile: true, tile_id: Some(tile_id), tileset_id: Some(tileset_id) }
}

fn tileset(uid: i64, tile_grid_size: i64) -> TilesetDefinition {
    TilesetDefinition { uid, tile_grid_size, px_wid: 256, px_hei: 128 }
}

fn layer() -> LayerInfo {
    LayerInfo { grid_width: 20, grid_height: 10, grid_cell_size: 16, z_index: 49 }
}

#[test]
fn extra_ent_defs_new_defaults() {
    let e = ExtraEntDefs::new();
    assert_eq!(e, ExtraEntDefs { tile_id: 0, width: 0, height: 0, scale: ScaleRatio { numerator: 1, denominator: 1 } });
}

#[test]
fn resolve_size_from_own_definition() {
    let d = Definitions { entities: vec![shape_def(1, 16, 24), shape_def(2, 32, 8)], tilesets: vec![] };
    let e = resolve_extra_ent_defs(&d, 2);
    assert_eq!((e.width, e.height), (32, 8));
    assert_eq!(e.tile_id, 0);
    assert_eq!(e.scale, ScaleRatio { numerator: 1, denominator: 1 });
}

#[test]
fn resolve_missing_definition_keeps_defaults() {
    let d = Definitions { entities: vec![shape_def(1, 16, 24)], tilesets: vec![tileset(7, 16)] };
    assert_eq!(resolve_extra_ent_defs(&d, 99), ExtraEntDefs::new());
}

#[test]
fn resolve_tile_definition_gives_tile_and_scale() {
    let d = Definitions { entities: vec![tile_def(3, 32, 32, 5, 7)], tilesets: vec![tileset(6, 8), tileset(7, 16)] };
    let e = resolve_extra_ent_defs(&d, 3);
    assert_eq!(e, ExtraEntDefs { tile_id: 5, width: 32, height: 32, scale: ScaleRatio { numerator: 32, denominator: 16 } });
}

#[test]
fn resolve_other_tile_definitions_do_not_matter() {
    let d = Definitions { entities: vec![shape_def(1, 16, 24), tile_def(2, 32, 32, 5, 7)], tilesets: vec![tileset(7, 16)] };
    let e = resolve_extra_ent_defs(&d, 1);
    assert_eq!(e, ExtraEntDefs { tile_id: 0, width: 16, height: 24, scale: ScaleRatio { numerator: 1, denominator: 1 } });
}

#[test]
fn resolve_own_tile_definition_among_others() {
    let d = Definitions {
        entities: vec![tile_def(1, 16, 16, 5, 7), tile_def(2, 32, 32, 9, 8)],
        tilesets: vec![tileset(7, 16), tileset(8, 8)],
    };
    let e = resolve_extra_ent_defs(&d, 1);
    assert_eq!(e, ExtraEntDefs { tile_id: 5, width: 16, height: 16, scale: ScaleRatio { numerator: 16, denominator: 16 } });
    let e2 = resolve_extra_ent_defs(&d, 2);
    assert_eq!(e2, ExtraEntDefs { tile_id: 9, width: 32, height: 32, scale: ScaleRatio { numerator: 32, denominator: 8 } });
}

#[test]
fn resolve_last_definition_with_uid_wins() {
    let d = Definitions { entities: vec![tile_def(1, 32, 32, 5, 7), shape_def(1, 16, 24)], tilesets: vec![tileset(7, 16)] };
    let e = resolve_extra_ent_defs(&d, 1);
    assert_eq!(e, ExtraEntDefs { tile_id: 0, width: 16, height: 24, scale: ScaleRatio { numerator: 1, denominator: 1 } });
}

#[test]
fn resolve_tile_definition_without_tileset_when_no_tilesets() {
    let def = EntityDefinition { uid: 4, width: 8, height: 8, renders_tile: true, tile_id: Some(3), tileset_id: None };
    let d = Definitions { entities: vec![def], tilesets: vec![] };
    assert_eq!(
        resolve_extra_ent_defs(&d, 4),
        ExtraEntDefs { tile_id: 3, width: 8, height: 8, scale: ScaleRatio { numerator: 1, denominator: 1 } }
    );
}

#[test]
fn resolve_unknown_tileset_leaves_scale() {
    let d = Definitions { entities: vec![tile_def(3, 32, 32, 5, 9)], tilesets: vec![tileset(7, 16)] };
    let e = resolve_extra_ent_defs(&d, 3);
    assert_eq!(e.tile_id, 5);
    assert_eq!(e.scale, ScaleRatio { numerator: 1, denominator: 1 });
}

#[test]
fn resolve_last_matching_tileset_wins() {
    let d = Definitions { entities: vec![tile_def(3, 48, 32, 5, 7)], tilesets: vec![tileset(7, 16), tileset(7, 24)] };
    assert_eq!(resolve_extra_ent_defs(&d, 3).scale, ScaleRatio { numerator: 48, denominator: 24 });
}

#[test]
fn display_entity_with_tile() {
    let ent = EntityInstance { def_uid: 3, grid_x: 2, grid_y: 5, tile_tileset_uid: Some(7) };
    let extra = ExtraEntDefs { tile_id: 5, width: 32, height: 24, scale: ScaleRatio { numerator: 32, denominator: 16 } };
    assert_eq!(
        display_entity(&ent, &extra, &layer()),
        EntityPlacement {
            x: 32,
            y: 80,
            z: 49,
            grid_size: 24,
            sprite: EntitySprite::Tile { tileset_key: 7, tile_index: 5, scale: ScaleRatio { numerator: 32, denominator: 16 } },
        }
    );
}

#[test]
fn display_entity_without_tile_is_a_shape() {
    let ent = EntityInstance { def_uid: 4, grid_x: 0, grid_y: 1, tile_tileset_uid: None };
    let extra = ExtraEntDefs { tile_id: 0, width: 10, height: 12, scale: ScaleRatio { numerator: 1, denominator: 1 } };
    assert_eq!(
        display_entity(&ent, &extra, &layer()),
        EntityPlacement { x: 0, y: 16, z: 49, grid_size: 12, sprite: EntitySprite::Shape { material_key: 4, width: 10, height: 12 } }
    );
}

#[test]
fn display_entities_resolves_each_entity() {
    let d = Definitions { entities: vec![shape_def(1, 16, 24), shape_def(2, 8, 8)], tilesets: vec![] };
    let ents = vec![
        EntityInstance { def_uid: 2, grid_x: 1, grid_y: 1, tile_tileset_uid: None },
        EntityInstance { def_uid: 1, grid_x: 3, grid_y: 0, tile_tileset_uid: None },
    ];
    let p = display_entities(&ents, &d, &layer());
    assert_eq!(p.len(), 2);
    assert_eq!(p[0].sprite, EntitySprite::Shape { material_key: 2, width: 8, height: 8 });
    assert_eq!((p[1].x, p[1].y, p[1].grid_size), (48, 0, 24));
}

#[test]
fn tileset_atlas_counts_whole_tiles() {
    let ts = TilesetDefinition { uid: 7, tile_grid_size: 16, px_wid: 256, px_hei: 128 };
    assert_eq!(tileset_atlas(&ts), TilesetAtlas { key: 7, tile_size: 16, columns: 16, rows: 8 });
    let odd = TilesetDefinition { uid: 8, tile_grid_size: 16, px_wid: 100, px_hei: 15 };
    assert_eq!(tileset_atlas(&odd), TilesetAtlas { key: 8, tile_size: 16, columns: 6, rows: 0 });
}
