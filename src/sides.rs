//! The set of sides on which a body's motion was blocked.
use vstd::prelude::*;

verus! {

/// One of the four cardinal sides of a body.
#[derive(Clone, Copy, Debug, PartialEq, Eq, Structural)]
pub enum Side {
    Up,
    Down,
    Left,
    Right,
}

/// A set of sides, one flag per side.
#[derive(Clone, Copy, Debug, PartialEq, Eq, Structural)]
pub struct CollisionSide {
    pub up: bool,
    pub down: bool,
    pub left: bool,
    pub right: bool,
}

impl CollisionSide {
    pub open spec fn has(self, side: Side) -> bool {
        match side {
            Side::Up => self.up,
            Side::Down => self.down,
            Side::Left => self.left,
            Side::Right => self.right,
        }
    }

    pub open spec fn spec_is_empty(self) -> bool {
        !self.up && !self.down && !self.left && !self.right
    }

    pub open spec fn spec_empty() -> CollisionSide {
        CollisionSide { up: false, down: false, left: false, right: false }
    }

    /// The set with `side` added.
    pub open spec fn with(self, side: Side) -> CollisionSide {
        match side {
            Side::Up => CollisionSide { up: true, ..self },
            Side::Down => CollisionSide { down: true, ..self },
            Side::Left => CollisionSide { left: true, ..self },
            Side::Right => CollisionSide { right: true, ..self },
        }
    }

    pub fn empty() -> (r: CollisionSide)
        ensures
            r == Self::spec_empty(),
            r.spec_is_empty(),
    {
        CollisionSide { up: false, down: false, left: false, right: false }
    }

    pub fn is_empty(&self) -> (r: bool)
        ensures
            r == self.spec_is_empty(),
    {
        !self.up && !self.down && !self.left && !self.right
    }

    pub fn contains(&self, side: Side) -> (r: bool)
        ensures
            r == self.has(side),
    {
        match side {
            Side::Up => self.up,
            Side::Down => self.down,
            Side::Left => self.left,
            Side::Right => self.right,
        }
    }

    pub fn insert(&mut self, side: Side)
        ensures
            *final(self) == old(self).with(side),
    {
        match side {
            Side::Up => self.up = true,
            Side::Down => self.down = true,
            Side::Left => self.left = true,
            Side::Right => self.right = true,
        }
    }

    /// The flags packed as bits: up 1, down 2, left 4, right 8.
    pub fn bits(&self) -> (r: u8)
        ensures
            r == (if self.up { 1u8 } else { 0u8 }) + (if self.down { 2u8 } else { 0u8 }) + (
            if self.left { 4u8 } else { 0u8 }) + (if self.right { 8u8 } else { 0u8 }),
    {
        let mut r: u8 = 0;
        if self.up {
            r = r + 1;
        }
        if self.down {
            r = r + 2;
        }
        if self.left {
            r = r + 4;
        }
        if self.right {
            r = r + 8;
        }
        r
    }
}

} // verus!
