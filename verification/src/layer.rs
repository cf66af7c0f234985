//! Layers of a level: their geometry, the order in which they are drawn, what
//! kind of layer each one is, and when the level is (re)drawn at all.

use vstd::prelude::*;

verus! {

/// Storage for what the drawing code needs to know about one layer: its size
/// in grid cells, the size of one cell in pixels, and its depth.
#[derive(Clone, Copy, Debug, PartialEq, Eq, Structural)]
pub struct LayerInfo {
    pub grid_width: i32,
    pub grid_height: i32,
    pub grid_cell_size: i32,
    pub z_index: i32,
}

/// The kinds of layer the level drawer knows how to draw.
#[derive(Clone, Copy, Debug, PartialEq, Eq, Structural)]
pub enum LayerKind {
    Tiles,
    Entities,
    NotImplemented,
}

/// The fields of a level's layer instance that decide how it is drawn.
pub struct LayerSource {
    /// Width of the layer in cells.
    pub c_wid: i64,
    /// Height of the layer in cells.
    pub c_hei: i64,
    /// Size of one cell in pixels.
    pub grid_size: i64,
    /// The tileset the layer draws from, if any.
    pub tileset_def_uid: Option<i64>,
    /// The layer's type name, such as `"Tiles"` or `"Entities"`.
    pub layer_type: String,
}

/// What the drawer does with one layer.
pub struct LayerPlan {
    pub info: LayerInfo,
    /// Key of the tileset's sprite sheet; `-1` when the layer has no tileset.
    pub tileset_key: i32,
    pub kind: LayerKind,
}

/// The depth of the layer at position `idx` of the level's layer list: 50
/// minus the position (converted to `i32`), so the first layer is on top.
pub open spec fn layer_z(idx: usize) -> int {
    50 - (#[verifier::truncate] (idx as i32))
}

/// The layer info of the layer at position `idx`.
pub open spec fn layer_info_spec(idx: usize, src: LayerSource) -> LayerInfo {
    LayerInfo {
        grid_width: #[verifier::truncate] (src.c_wid as i32),
        grid_height: #[verifier::truncate] (src.c_hei as i32),
        grid_cell_size: #[verifier::truncate] (src.grid_size as i32),
        z_index: layer_z(idx) as i32,
    }
}

/// The kind of a layer, decided by its type name.
pub open spec fn layer_kind_spec(name: Seq<char>) -> LayerKind {
    if name == "Tiles"@ {
        LayerKind::Tiles
    } else if name == "Entities"@ {
        LayerKind::Entities
    } else {
        LayerKind::NotImplemented
    }
}

/// The sprite-sheet key of a layer's tileset; `-1` stands for "no tileset".
pub open spec fn tileset_key_spec(uid: Option<i64>) -> i32 {
    match uid {
        Some(u) => #[verifier::truncate] (u as i32),
        None => -1i32,
    }
}

/// Decides the kind of a layer from its type name.
pub fn layer_kind(layer_type: &String) -> (kind: LayerKind)
    ensures
        kind == layer_kind_spec(layer_type@),
{
    let tiles = "Tiles".to_owned();
    let entities = "Entities".to_owned();
    if *layer_type == tiles {
        LayerKind::Tiles
    } else if *layer_type == entities {
        LayerKind::Entities
    } else {
        LayerKind::NotImplemented
    }
}

/// The plan for drawing the layer at position `idx` of the level's layer list.
pub fn plan_layer(idx: usize, src: &LayerSource) -> (plan: LayerPlan)
    requires
        layer_z(idx) <= i32::MAX,
    ensures
        plan.info == layer_info_spec(idx, *src),
        plan.tileset_key == tileset_key_spec(src.tileset_def_uid),
        plan.kind == layer_kind_spec(src.layer_type@),
{
    let tileset_key: i32 = match src.tileset_def_uid {
        Some(u) => #[verifier::truncate] (u as i32),
        None => -1i32,
    };
    let z: i32 = 50i32 - #[verifier::truncate] (idx as i32);
    LayerPlan {
        info: LayerInfo {
            grid_width: #[verifier::truncate] (src.c_wid as i32),
            grid_height: #[verifier::truncate] (src.c_hei as i32),
            grid_cell_size: #[verifier::truncate] (src.grid_size as i32),
            z_index: z,
        },
        tileset_key,
        kind: layer_kind(&src.layer_type),
    }
}

/// The order in which the `n` layers of a level are drawn: last layer first,
/// so that each layer is drawn over the ones listed after it.
pub open spec fn draw_order_spec(n: nat) -> Seq<usize> {
    Seq::new(n, |k: int| (n - 1 - k) as usize)
}

/// The positions of a level's `n` layers, in the order in which they are drawn.
pub fn layer_draw_order(n: usize) -> (order: Vec<usize>)
    ensures
        order@ == draw_order_spec(n as nat),
{
    let mut order: Vec<usize> = Vec::new();
    let mut k: usize = 0;
    while k < n
        invariant
            k <= n,
            order@ == draw_order_spec(n as nat).take(k as int),
        decreases n - k,
    {
        order.push(n - 1 - k);
        k = k + 1;
        assert(order@ =~= draw_order_spec(n as nat).take(k as int));
    }
    assert(order@ =~= draw_order_spec(n as nat));
    order
}

/// Every layer is drawn exactly once, and each layer drawn later lies above
/// the ones drawn before it.
pub proof fn lemma_draw_order_layers_rise(n: nat, j: int, k: int)
    requires
        n <= i32::MAX,
        0 <= j < k < n,
    ensures
        draw_order_spec(n)[j] != draw_order_spec(n)[k],
        draw_order_spec(n)[j] < n,
        layer_z(draw_order_spec(n)[j]) < layer_z(draw_order_spec(n)[k]),
        layer_z(draw_order_spec(n)[k]) <= 50,
{
}

/// Every layer position appears in the draw order.
pub proof fn lemma_draw_order_covers(n: nat, idx: int)
    requires
        0 <= idx < n,
        n <= usize::MAX,
    ensures
        draw_order_spec(n).contains(idx as usize),
{
    assert(draw_order_spec(n)[n - 1 - idx] == idx as usize);
}

/// Whether the level must be drawn, and which level that is.
#[derive(Clone, Copy, Debug, PartialEq, Eq, Structural)]
pub struct MapState {
    pub redraw: bool,
    pub current_level: usize,
}

/// One frame of the level drawer: the state after it, and the level drawn in it, if any.
pub open spec fn map_update_spec(s: MapState) -> (MapState, Option<usize>) {
    if s.redraw {
        (MapState { redraw: false, current_level: s.current_level }, Some(s.current_level))
    } else {
        (s, None)
    }
}

impl MapState {
    /// A map that shows its first level and has not been drawn yet.
    pub fn new() -> (s: MapState)
        ensures
            s.redraw,
            s.current_level == 0,
    {
        MapState { redraw: true, current_level: 0 }
    }

    /// Called once per frame: returns the level to draw now, if the map has
    /// not been drawn yet, and remembers that it has been.
    pub fn update(&mut self) -> (level: Option<usize>)
        ensures
            (*final(self), level) == map_update_spec(*old(self)),
    {
        if !self.redraw {
            return None;
        }
        self.redraw = false;
        Some(self.current_level)
    }
}

/// The level is drawn once: the frame after one that drew it draws nothing,
/// and the level shown does not change.
pub proof fn lemma_map_drawn_once(s: MapState)
    ensures
        map_update_spec(map_update_spec(s).0).1 is None,
        map_update_spec(s).0.current_level == s.current_level,
        s.redraw ==> map_update_spec(s).1 == Some(s.current_level),
{
}

/// The layer at position `idx` keeps its grid size and cell size (converted
/// with `as i32`); a position within `i32` puts it at depth `50 - idx`; a layer
/// with tileset uid `u` looks its sprite sheet up under `u as i32`, and one
/// without a tileset under -1.
pub proof fn lemma_plan_layer_law(idx: usize, src: LayerSource)
    ensures
        layer_info_spec(idx, src).grid_width == #[verifier::truncate] (src.c_wid as i32),
        layer_info_spec(idx, src).grid_height == #[verifier::truncate] (src.c_hei as i32),
        layer_info_spec(idx, src).grid_cell_size == #[verifier::truncate] (src.grid_size as i32),
        idx <= i32::MAX ==> layer_info_spec(idx, src).z_index == 50 - idx,
        forall|u: i64| src.tileset_def_uid == Some(u) ==> tileset_key_spec(src.tileset_def_uid)
            == #[verifier::truncate] (u as i32),
        src.tileset_def_uid is None ==> tileset_key_spec(src.tileset_def_uid) == -1,
{
}

/// A layer named "Tiles" is a tile layer, one named "Entities" an entity
/// layer, and any other layer is not drawn.
pub proof fn lemma_layer_kind_law(name: Seq<char>)
    ensures
        name == "Tiles"@ ==> layer_kind_spec(name) == LayerKind::Tiles,
        name == "Entities"@ ==> layer_kind_spec(name) == LayerKind::Entities,
        name != "Tiles"@ && name != "Entities"@ ==> layer_kind_spec(name) == LayerKind::NotImplemented,
{
    reveal_strlit("Tiles");
    reveal_strlit("Entities");
    assert("Tiles"@.len() != "Entities"@.len());
}

/// The `k`-th layer drawn is the one at position `n - 1 - k`.
pub proof fn lemma_draw_order_law(n: nat, k: int)
    requires
        0 <= k < n,
        n <= usize::MAX + 1,
    ensures
        draw_order_spec(n).len() == n,
        draw_order_spec(n)[k] == n - 1 - k,
{
}

/// A frame that has nothing to draw leaves the map as it is; a frame that
/// draws returns the current level and clears the redraw flag.
pub proof fn lemma_map_update_law(s: MapState)
    ensures
        !s.redraw ==> map_update_spec(s).0 == s && map_update_spec(s).1 is None,
        s.redraw ==> map_update_spec(s).1 == Some(s.current_level) && !map_update_spec(s).0.redraw
            && map_update_spec(s).0.current_level == s.current_level,
{
}

} // verus!
