//! The static level: which world cells are solid, sampled at a body's corners.
use vstd::prelude::*;
use vstd::string::*;
use crate::geometry::{floor_div, Rect, Vec2, SUBUNITS_PER_UNIT, in_coord_range};

verus! {

/// Number of pixels of level art along one side of a tile.
pub const TILE_SIZE_PX: i64 = 16;

/// Category of a level cell. A body's mask names the category that blocks it.
#[derive(Clone, Copy, Debug, PartialEq, Eq, Structural)]
pub enum LevelTile {
    Solid,
}

/// One integer-grid layer of a level: `c_wid` cells per row, row by row.
pub struct IntGridLayer {
    pub identifier: String,
    pub c_wid: i64,
    pub int_grid_csv: Vec<i64>,
}

/// An entity placed in a level: its definition's uid and its pixel position in the level.
pub struct EntityInstance {
    pub def_uid: i64,
    pub px: (i64, i64),
}

/// An entity definition of the project.
pub struct EntityDef {
    pub identifier: String,
    pub uid: i64,
}

/// One level of the project, placed in the world in pixels (y grows downward).
pub struct LevelData {
    pub world_x: i64,
    pub world_y: i64,
    pub px_wid: i64,
    pub px_hei: i64,
    pub layers: Vec<IntGridLayer>,
    pub entities: Vec<EntityInstance>,
}

/// The loaded level project: what collision queries and spawning read of it.
pub struct LdtkProject {
    pub levels: Vec<LevelData>,
    pub entity_defs: Vec<EntityDef>,
}

/// Name of the layer whose non-zero cells are solid.
pub open spec fn collision_layer_name() -> Seq<char> {
    "Collision"@
}

/// First cell of the level on the world grid (floor of the pixel position).
pub open spec fn level_origin(l: LevelData) -> (int, int) {
    (l.world_x as int / TILE_SIZE_PX as int, l.world_y as int / TILE_SIZE_PX as int)
}

/// Whether the level's grid holds cell `(x, y)`: half-open on both axes.
pub open spec fn level_holds(l: LevelData, x: int, y: int) -> bool {
    let (ox, oy) = level_origin(l);
    ox <= x < ox + l.px_wid as int / TILE_SIZE_PX as int && oy <= y < oy + l.px_hei as int
        / TILE_SIZE_PX as int
}

/// Index of the first layer from `i` on that is named like the collision layer.
pub open spec fn collision_layer_from(layers: Seq<IntGridLayer>, i: int) -> Option<int>
    decreases layers.len() - i,
{
    if i < 0 || i >= layers.len() {
        None
    } else if layers[i].identifier@ == collision_layer_name() {
        Some(i)
    } else {
        collision_layer_from(layers, i + 1)
    }
}

/// What a layer holds at local cell `(lx, ly)`: solid for a non-zero value, nothing
/// for zero or for a cell outside the stored grid.
pub open spec fn layer_tile(layer: IntGridLayer, lx: int, ly: int) -> Option<LevelTile> {
    let idx = lx + ly * layer.c_wid;
    if 0 <= lx < layer.c_wid && 0 <= idx < layer.int_grid_csv@.len()
        && layer.int_grid_csv@[idx] != 0 {
        Some(LevelTile::Solid)
    } else {
        None
    }
}

/// What a level holds at world cell `(x, y)`, read from its collision layer.
pub open spec fn level_tile(l: LevelData, x: int, y: int) -> Option<LevelTile> {
    let (ox, oy) = level_origin(l);
    match collision_layer_from(l.layers@, 0) {
        Some(k) => layer_tile(l.layers@[k], x - ox, y - oy),
        None => None,
    }
}

/// The tile at world cell `(x, y)`, from the first level from index `i` on that holds it.
pub open spec fn tile_from(levels: Seq<LevelData>, i: int, x: int, y: int) -> Option<LevelTile>
    decreases levels.len() - i,
{
    if i < 0 || i >= levels.len() {
        None
    } else if level_holds(levels[i], x, y) {
        level_tile(levels[i], x, y)
    } else {
        tile_from(levels, i + 1, x, y)
    }
}

/// Whether a tile blocks a body with the given mask.
pub open spec fn mask_blocks(mask: LevelTile, tile: Option<LevelTile>) -> bool {
    tile == Some(mask)
}

/// Grid column of a point's x coordinate: the floor of `x / unit - 1/2`.
pub open spec fn cell_x_of(x: int) -> int {
    (x - SUBUNITS_PER_UNIT / 2) / SUBUNITS_PER_UNIT as int
}

/// Grid row of a point's y coordinate: `y / unit` rounded half away from zero.
pub open spec fn cell_y_of(y: int) -> int {
    if y >= 0 {
        (y + SUBUNITS_PER_UNIT / 2) / SUBUNITS_PER_UNIT as int
    } else {
        -((-y + SUBUNITS_PER_UNIT / 2) / SUBUNITS_PER_UNIT as int)
    }
}

/// Whether the cell sampled at point `(px, py)` blocks a body with the given mask.
pub open spec fn corner_blocked(p: LdtkProject, mask: LevelTile, px: int, py: int) -> bool {
    mask_blocks(mask, tile_from(p.levels@, 0, cell_x_of(px), cell_y_of(py)))
}

/// The rectangle overlaps blocking level geometry, judged at its four corners only.
pub open spec fn spec_colliding_with_world(rect: Rect, p: LdtkProject, mask: LevelTile) -> bool {
    corner_blocked(p, mask, rect.min.x as int, rect.min.y as int) || corner_blocked(
        p,
        mask,
        rect.max.x as int,
        rect.min.y as int,
    ) || corner_blocked(p, mask, rect.min.x as int, rect.max.y as int) || corner_blocked(
        p,
        mask,
        rect.max.x as int,
        rect.max.y as int,
    )
}

/// Rectangles whose corners lie in the supported coordinate range.
pub open spec fn rect_in_range(r: Rect) -> bool {
    r.min.in_range() && r.max.in_range()
}

/// Grid column sampled for an x coordinate.
pub fn cell_x(x: i64) -> (r: i64)
    requires
        in_coord_range(x as int),
    ensures
        r == cell_x_of(x as int),
{
    floor_div((x - SUBUNITS_PER_UNIT / 2) as i128, SUBUNITS_PER_UNIT as i128) as i64
}

/// Grid row sampled for a y coordinate.
pub fn cell_y(y: i64) -> (r: i64)
    requires
        in_coord_range(y as int),
    ensures
        r == cell_y_of(y as int),
{
    if y >= 0 {
        (y + SUBUNITS_PER_UNIT / 2) / SUBUNITS_PER_UNIT
    } else {
        -((-y + SUBUNITS_PER_UNIT / 2) / SUBUNITS_PER_UNIT)
    }
}

impl LevelData {
    /// Index of the level's collision layer, if it has one.
    pub fn collision_layer(&self) -> (r: Option<usize>)
        ensures
            match r {
                Some(k) => k < self.layers@.len() && collision_layer_from(self.layers@, 0) == Some(
                    k as int,
                ),
                None => collision_layer_from(self.layers@, 0) is None,
            },
    {
        let name = String::from_str("Collision");
        let mut i: usize = 0;
        while i < self.layers.len()
            invariant
                i <= self.layers@.len(),
                name@ == collision_layer_name(),
                collision_layer_from(self.layers@, 0) == collision_layer_from(self.layers@, i as int),
            decreases self.layers@.len() - i,
        {
            if self.layers[i].identifier == name {
                return Some(i);
            }
            i = i + 1;
        }
        None
    }

    /// Whether the level's grid holds world cell `(x, y)`.
    pub fn holds(&self, x: i64, y: i64) -> (r: bool)
        ensures
            r == level_holds(*self, x as int, y as int),
    {
        let ox = floor_div_px(self.world_x);
        let oy = floor_div_px(self.world_y);
        let w = floor_div_px(self.px_wid);
        let h = floor_div_px(self.px_hei);
        (ox as i128) <= (x as i128) && (x as i128) < (ox as i128) + (w as i128) && (oy as i128)
            <= (y as i128) && (y as i128) < (oy as i128) + (h as i128)
    }

    /// The tile at world cell `(x, y)`, read from the collision layer.
    pub fn tile_at(&self, x: i64, y: i64) -> (r: Option<LevelTile>)
        ensures
            r == level_tile(*self, x as int, y as int),
    {
        match self.collision_layer() {
            None => None,
            Some(k) => {
                let layer = &self.layers[k];
                let lx = (x as i128) - (floor_div_px(self.world_x) as i128);
                let ly = (y as i128) - (floor_div_px(self.world_y) as i128);
                let c_wid = layer.c_wid as i128;
                let len = layer.int_grid_csv.len() as i128;
                if lx < 0 || lx >= c_wid || ly < 0 || ly > len {
                    proof {
                        if 0 <= lx < c_wid && ly > len {
                            assert(lx + ly * c_wid >= ly) by (nonlinear_arith)
                                requires
                                    0 <= lx < c_wid,
                                    ly > 0,
                            ;
                        }
                        if 0 <= lx < c_wid && ly < 0 {
                            assert(lx + ly * c_wid < 0) by (nonlinear_arith)
                                requires
                                    0 <= lx < c_wid,
                                    ly < 0,
                            ;
                        }
                    }
                    return None;
                }
                assert(0 <= ly * c_wid <= len * c_wid) by (nonlinear_arith)
                    requires
                        0 <= ly <= len,
                        c_wid >= 0,
                ;
                assert(len * c_wid <= 0xffff_ffff_ffff_ffff * 0x7fff_ffff_ffff_ffff)
                    by (nonlinear_arith)
                    requires
                        0 <= len <= 0xffff_ffff_ffff_ffff,
                        0 <= c_wid <= 0x7fff_ffff_ffff_ffff,
                ;
                let idx = lx + ly * c_wid;
                if idx < 0 || idx >= layer.int_grid_csv.len() as i128 {
                    None
                } else if layer.int_grid_csv[idx as usize] != 0 {
                    Some(LevelTile::Solid)
                } else {
                    None
                }
            },
        }
    }
}

/// Floor of a pixel coordinate divided by the tile size.
fn floor_div_px(a: i64) -> (r: i64)
    ensures
        r == a as int / TILE_SIZE_PX as int,
{
    floor_div(a as i128, TILE_SIZE_PX as i128) as i64
}

impl LdtkProject {
    /// The tile at world cell `(x, y)`: the first level whose grid holds the cell decides.
    pub fn get_tile(&self, x: i64, y: i64) -> (r: Option<LevelTile>)
        ensures
            r == tile_from(self.levels@, 0, x as int, y as int),
    {
        let mut i: usize = 0;
        while i < self.levels.len()
            invariant
                i <= self.levels@.len(),
                tile_from(self.levels@, 0, x as int, y as int) == tile_from(
                    self.levels@,
                    i as int,
                    x as int,
                    y as int,
                ),
            decreases self.levels@.len() - i,
        {
            if self.levels[i].holds(x, y) {
                return self.levels[i].tile_at(x, y);
            }
            i = i + 1;
        }
        None
    }

    /// Whether the cell sampled at point `(px, py)` blocks a body with the given mask.
    fn is_corner_blocked(&self, mask: LevelTile, px: i64, py: i64) -> (r: bool)
        requires
            in_coord_range(px as int),
            in_coord_range(py as int),
        ensures
            r == corner_blocked(*self, mask, px as int, py as int),
    {
        match self.get_tile(cell_x(px), cell_y(py)) {
            Some(t) => t == mask,
            None => false,
        }
    }
}

/// Whether a rectangle overlaps blocking level geometry, sampled at its four corners.
pub fn is_colliding_with_world(rect: Rect, project: &LdtkProject, mask: LevelTile) -> (r: bool)
    requires
        rect_in_range(rect),
    ensures
        r == spec_colliding_with_world(rect, *project, mask),
{
    project.is_corner_blocked(mask, rect.min.x, rect.min.y) || project.is_corner_blocked(
        mask,
        rect.max.x,
        rect.min.y,
    ) || project.is_corner_blocked(mask, rect.min.x, rect.max.y) || project.is_corner_blocked(
        mask,
        rect.max.x,
        rect.max.y,
    )
}

/// Name of the entity that marks where the player starts.
pub open spec fn start_point_name() -> Seq<char> {
    "Start_Point"@
}

/// Sub-units in one pixel of level art.
pub const SUBUNITS_PER_PIXEL: i64 = 1000;

/// The uid of the first entity definition from index `i` on named like the start point.
pub open spec fn start_def_from(defs: Seq<EntityDef>, i: int) -> Option<i64>
    decreases defs.len() - i,
{
    if i < 0 || i >= defs.len() {
        None
    } else if defs[i].identifier@ == start_point_name() {
        Some(defs[i].uid)
    } else {
        start_def_from(defs, i + 1)
    }
}

/// The first entity from index `j` on whose definition is `uid`.
pub open spec fn entity_from(es: Seq<EntityInstance>, j: int, uid: i64) -> Option<EntityInstance>
    decreases es.len() - j,
{
    if j < 0 || j >= es.len() {
        None
    } else if es[j].def_uid == uid {
        Some(es[j])
    } else {
        entity_from(es, j + 1, uid)
    }
}

/// The first level from index `i` on holding an entity of definition `uid`, with that
/// entity.
pub open spec fn placed_from(levels: Seq<LevelData>, i: int, uid: i64) -> Option<(LevelData, EntityInstance)>
    decreases levels.len() - i,
{
    if i < 0 || i >= levels.len() {
        None
    } else {
        match entity_from(levels[i].entities@, 0, uid) {
            Some(e) => Some((levels[i], e)),
            None => placed_from(levels, i + 1, uid),
        }
    }
}

/// World position, in sub-units with y up, of a pixel position inside a level.
pub open spec fn world_position(l: LevelData, e: EntityInstance) -> (int, int) {
    ((e.px.0 + l.world_x) * SUBUNITS_PER_PIXEL, -((e.px.1 + l.world_y) * SUBUNITS_PER_PIXEL))
}

/// Why the start point could not be found.
#[derive(Clone, Copy, Debug, PartialEq, Eq, Structural)]
pub enum SpawnError {
    /// No entity definition is named `Start_Point`.
    NoStartPointDefinition,
    /// No level holds an entity of that definition.
    NoStartPoint,
}

/// Pixel coordinates that a world position can be computed from.
pub open spec fn pixel_in_range(v: int) -> bool {
    -1_000_000_000 <= v <= 1_000_000_000
}

impl LdtkProject {
    fn start_point_def(&self) -> (r: Option<i64>)
        ensures
            r == start_def_from(self.entity_defs@, 0),
    {
        let name = String::from_str("Start_Point");
        let mut i: usize = 0;
        while i < self.entity_defs.len()
            invariant
                i <= self.entity_defs@.len(),
                name@ == start_point_name(),
                start_def_from(self.entity_defs@, 0) == start_def_from(self.entity_defs@, i as int),
            decreases self.entity_defs@.len() - i,
        {
            if self.entity_defs[i].identifier == name {
                return Some(self.entity_defs[i].uid);
            }
            i = i + 1;
        }
        None
    }

    /// Where the player starts: the first entity, in the first level holding one, whose
    /// definition is the first one named `Start_Point`; placed in the world with y up.
    /// A start point farther than 10^9 pixels from the origin on either axis lies outside
    /// the simulated world and is reported as `NoStartPoint`.
    pub fn start_point(&self) -> (r: Result<Vec2, SpawnError>)
        ensures
            match start_def_from(self.entity_defs@, 0) {
                None => r == Err::<Vec2, SpawnError>(SpawnError::NoStartPointDefinition),
                Some(uid) => match placed_from(self.levels@, 0, uid) {
                    None => r == Err::<Vec2, SpawnError>(SpawnError::NoStartPoint),
                    Some((l, e)) => {
                        let (x, y) = world_position(l, e);
                        if pixel_in_range(e.px.0 + l.world_x) && pixel_in_range(e.px.1 + l.world_y) {
                            r matches Ok(p) && p.x == x && p.y == y
                        } else {
                            r == Err::<Vec2, SpawnError>(SpawnError::NoStartPoint)
                        }
                    },
                },
            },
    {
        let uid = match self.start_point_def() {
            Some(u) => u,
            None => return Err(SpawnError::NoStartPointDefinition),
        };
        let mut i: usize = 0;
        while i < self.levels.len()
            invariant
                i <= self.levels@.len(),
                placed_from(self.levels@, 0, uid) == placed_from(self.levels@, i as int, uid),
                start_def_from(self.entity_defs@, 0) == Some(uid),
            decreases self.levels@.len() - i,
        {
            let level = &self.levels[i];
            let mut j: usize = 0;
            while j < level.entities.len()
                invariant
                    j <= level.entities@.len(),
                    entity_from(level.entities@, 0, uid) == entity_from(level.entities@, j as int, uid),
                    i < self.levels@.len(),
                    *level == self.levels@[i as int],
                    placed_from(self.levels@, 0, uid) == placed_from(self.levels@, i as int, uid),
                    start_def_from(self.entity_defs@, 0) == Some(uid),
                decreases level.entities@.len() - j,
            {
                let e = &level.entities[j];
                if e.def_uid == uid {
                    let px = e.px.0 as i128 + level.world_x as i128;
                    let py = e.px.1 as i128 + level.world_y as i128;
                    if -1_000_000_000 <= px && px <= 1_000_000_000 && -1_000_000_000 <= py && py
                        <= 1_000_000_000 {
                        let x = (px as i64) * SUBUNITS_PER_PIXEL;
                        let y = -((py as i64) * SUBUNITS_PER_PIXEL);
                        return Ok(Vec2 { x, y });
                    } else {
                        return Err(SpawnError::NoStartPoint);
                    }
                }
                j = j + 1;
            }
            i = i + 1;
        }
        Err(SpawnError::NoStartPoint)
    }
}

} // verus!
