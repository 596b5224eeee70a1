//! The entity records of the game: a tagged sprite with a position, a
//! velocity, hit points and a bounding box. Coordinates are whole game
//! units; moving an entity saturates at the ends of the `i64` range
//! instead of wrapping or failing.

use vstd::prelude::*;

verus! {

/// The role a record in the entity list plays.
#[derive(Clone, Copy, Debug, PartialEq, Eq, Structural)]
pub enum EntityType {
    Player,
    Enemy,
    Boss,
    Bullet,
}

/// `v` clamped into the range of `i64`.
pub open spec fn sat64(v: int) -> int {
    if v > i64::MAX {
        i64::MAX as int
    } else if v < i64::MIN {
        i64::MIN as int
    } else {
        v
    }
}

/// One record of the flat entity list.
#[derive(Clone, Copy, Debug, PartialEq, Eq, Structural)]
pub struct Entity {
    pub entity_type: EntityType,
    /// Index into the caller's sprite table.
    pub sprite: usize,
    pub x: i64,
    pub y: i64,
    pub hp: u32,
    /// Speed in game units per frame.
    pub vel: u32,
    /// Width of the bounding box, in game units.
    pub bounds_w: u32,
    /// Height of the bounding box, in game units.
    pub bounds_h: u32,
}

/// `e` moved by `(dx, dy)`, each coordinate clamped into `i64`.
pub open spec fn translated(e: Entity, dx: int, dy: int) -> Entity {
    Entity { x: sat64(e.x + dx) as i64, y: sat64(e.y + dy) as i64, ..e }
}

/// `a + b`, clamped into `i64` instead of overflowing.
pub fn sat_add_i64(a: i64, b: i64) -> (r: i64)
    ensures
        r == sat64(a + b),
{
    match a.checked_add(b) {
        Some(v) => v,
        None => if b >= 0 {
            i64::MAX
        } else {
            i64::MIN
        },
    }
}

impl Entity {
    /// Move the entity by the given offsets; everything but the
    /// position is kept.
    pub fn translate(&mut self, dx: i64, dy: i64)
        ensures
            *final(self) == translated(*old(self), dx as int, dy as int),
    {
        self.x = sat_add_i64(self.x, dx);
        self.y = sat_add_i64(self.y, dy);
    }
}

} // verus!
