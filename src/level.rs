//! A fixed-size tile level stored row by row.
use vstd::prelude::*;
use crate::geometry::Vec2;
use crate::world::LevelTile;

verus! {

/// A level of `width * height` tiles, row by row, and where the player starts.
pub struct Level {
    pub tiles: Vec<Option<LevelTile>>,
    pub width: u32,
    pub height: u32,
    pub spawn_point: Vec2,
}

impl Level {
    /// One stored tile per cell.
    pub open spec fn wf(self) -> bool {
        self.tiles@.len() == self.width * self.height
    }

    /// The tile at cell `(x, y)`; nothing outside the level.
    pub open spec fn spec_tile(self, x: int, y: int) -> Option<LevelTile> {
        if 0 <= x < self.width && 0 <= y < self.height {
            self.tiles@[x + y * self.width]
        } else {
            None
        }
    }

    /// A level from its tiles, row by row.
    pub fn new(tiles: Vec<Option<LevelTile>>, width: u32, height: u32, spawn_point: Vec2) -> (r: Level)
        requires
            tiles@.len() == width * height,
        ensures
            r.wf(),
            r.tiles@ == tiles@,
            r.width == width,
            r.height == height,
            r.spawn_point == spawn_point,
    {
        Level { tiles, width, height, spawn_point }
    }

    pub fn get_tile(&self, x: i32, y: i32) -> (r: Option<LevelTile>)
        requires
            self.wf(),
        ensures
            r == self.spec_tile(x as int, y as int),
    {
        if x >= 0 && (x as u32) < self.width && y >= 0 && (y as u32) < self.height {
            // The stored tiles bound the index below.
            let stored = self.tiles.len();
            proof {
                assert(stored == self.width * self.height);
                assert(0 <= y * self.width <= x + y * self.width < self.width * self.height) by (nonlinear_arith)
                    requires
                        0 <= x < self.width,
                        0 <= y < self.height,
                ;
            }
            let idx = (x as usize) + (y as usize) * (self.width as usize);
            self.tiles[idx]
        } else {
            None
        }
    }

    pub fn width(&self) -> (r: u32)
        ensures
            r == self.width,
    {
        self.width
    }

    pub fn height(&self) -> (r: u32)
        ensures
            r == self.height,
    {
        self.height
    }
}

} // verus!
