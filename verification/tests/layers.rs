use platformer::arith::div_rem_i64;
use platformer::layer::{layer_draw_order, layer_kind, plan_layer, LayerInfo, LayerKind, LayerSource, MapState};

fn source(kind: &str, tileset: Option<i64>) -> LayerSource {
    LayerSource { c_wid: 40, c_hei: 22, grid_size: 16, tileset_def_uid: tileset, layer_type: kind.to_string() }
}

#[test]
fn layer_kind_by_name() {
    assert_eq!(layer_kind(&"Tiles".to_string()), LayerKind::Tiles);
    assert_eq!(layer_kind(&"Entities".to_string()), LayerKind::Entities);
    assert_eq!(layer_kind(&"IntGrid".to_string()), LayerKind::NotImplemented);
    assert_eq!(layer_kind(&"AutoLayer".to_string()), LayerKind::NotImplemented);
    assert_eq!(layer_kind(&"tiles".to_string()), LayerKind::NotImplemented);
}

#[test]
fn plan_layer_geometry_and_depth() {
    let p = plan_layer(2, &source("Tiles", Some(5)));
    assert_eq!(p.info, LayerInfo { grid_width: 40, grid_height: 22, grid_cell_size: 16, z_index: 48 });
    assert_eq!(p.tileset_key, 5);
    assert_eq!(p.kind, LayerKind::Tiles);
}

#[test]
fn plan_layer_without_tileset() {
    let p = plan_layer(0, &source("Entities", None));
    assert_eq!(p.tileset_key, -1);
    assert_eq!(p.info.z_index, 50);
    assert_eq!(p.kind, LayerKind::Entities);
}

#[test]
fn layers_drawn_last_first_and_rising() {
    let order = layer_draw_order(3);
    assert_eq!(order, vec![2, 1, 0]);
    let zs: Vec<i32> = order.iter().map(|&i| plan_layer(i, &source("Tiles", None)).info.z_index).collect();
    assert_eq!(zs, vec![48, 49, 50]);
    assert!(layer_draw_order(0).is_empty());
}

#[test]
fn map_is_drawn_once() {
    let mut m = MapState::new();
    assert_eq!(m, MapState { redraw: true, current_level: 0 });
    assert_eq!(m.update(), Some(0));
    assert_eq!(m.update(), None);
    assert_eq!(m.update(), None);
    assert_eq!(m.current_level, 0);
}

#[test]
fn map_update_keeps_level() {
    let mut m = MapState { redraw: true, current_level: 3 };
    assert_eq!(m.update(), Some(3));
    assert_eq!(m, MapState { redraw: false, current_level: 3 });
}

#[test]
fn div_rem_rounds_toward_zero() {
    assert_eq!(div_rem_i64(7, 2), (3, 1));
    assert_eq!(div_rem_i64(-7, 2), (-3, -1));
    assert_eq!(div_rem_i64(7, -2), (-3, 1));
    assert_eq!(div_rem_i64(-7, -2), (3, -1));
    assert_eq!(div_rem_i64(i64::MIN, 1), (i64::MIN, 0));
    assert_eq!(div_rem_i64(i64::MIN, 2), (i64::MIN / 2, 0));
    assert_eq!(div_rem_i64(i64::MAX, i64::MIN), (0, i64::MAX));
    assert_eq!(div_rem_i64(i64::MIN, i64::MIN), (1, 0));
}

#[test]
fn plan_layer_depth_converts_position_like_as_i32() {
    // 3_000_000_000 as i32 == -1_294_967_296
    let p = plan_layer(3_000_000_000usize, &source("Tiles", None));
    assert_eq!(p.info.z_index, 1_294_967_346);
}
