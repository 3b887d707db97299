//! The data model: the objects a frame snapshot holds and the events the
//! detector produces.

use vstd::prelude::*;

verus! {

/// A 2D coordinate, in fixed-point world units.
#[derive(Clone, Copy, PartialEq, Eq, Structural, Debug)]
pub struct Point {
    pub x: i32,
    pub y: i32,
}

/// An identified circle: a caller-assigned id, a center, and a radius.
///
/// The radius is expected to be non-negative but is not validated: a negative
/// radius only ever appears summed with another radius and squared, so it
/// silently shrinks (or empties) the set of objects the circle overlaps.
#[derive(Clone, Copy, PartialEq, Eq, Structural, Debug)]
pub struct GameObject {
    pub id: u32,
    pub position: Point,
    pub radius: i32,
}

/// One frame's snapshot: exactly one player and four ordered sequences of
/// objects. Sequence order is preserved in the order events are reported.
pub struct GameState {
    pub player: GameObject,
    pub enemies: Vec<GameObject>,
    pub projectiles: Vec<GameObject>,
    pub orbs: Vec<GameObject>,
    pub chests: Vec<GameObject>,
}

/// The closed set of object categories. Used purely as a tag.
#[derive(Clone, Copy, PartialEq, Eq, Hash, Structural, Debug)]
pub enum CollidableType {
    Player,
    Enemy,
    Projectile,
    ExperienceOrb,
    TreasureChest,
}

/// One detected overlap. `type_a`/`id_a` identify the first object of the
/// category pair as enumerated by the detector, `type_b`/`id_b` the second;
/// the representation is directional though the overlap relation is
/// symmetric, and no reverse event is emitted.
#[derive(Clone, Copy, PartialEq, Eq, Structural, Debug)]
pub struct CollisionEvent {
    pub type_a: CollidableType,
    pub id_a: u32,
    pub type_b: CollidableType,
    pub id_b: u32,
}

} // verus!
