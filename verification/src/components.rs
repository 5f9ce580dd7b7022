//! The per-entity data the simulation pipeline reads and writes.

use vstd::prelude::*;
use crate::math::Vec2;

verus! {

/// An entity's position in the game world. It is written only by the physics
/// step, from the body's resolved pose; gameplay code never writes it
/// directly.
#[derive(Clone, Copy, Debug, PartialEq, Eq, Structural)]
pub struct Position(pub Vec2);

/// An RGBA color; each channel is a fixed-point fraction, `0` to `SCALE`.
#[derive(Clone, Copy, Debug, PartialEq, Eq, Structural)]
pub struct Color {
    pub r: i64,
    pub g: i64,
    pub b: i64,
    pub a: i64,
}

/// An entity drawn as a colored quad; width and height are world units in
/// fixed-point ticks.
#[derive(Clone, Copy, Debug, PartialEq, Eq, Structural)]
pub struct Renderable {
    pub color: Color,
    pub width: i64,
    pub height: i64,
}

/// Handles tying an entity to its rigid body and collider in the external
/// physics engine's storage. The handles stay valid for the entity's whole
/// lifetime; a dangling handle is a programming error, not a runtime case.
#[derive(Clone, Copy, Debug, PartialEq, Eq, Structural)]
pub struct PhysicsBody {
    pub rigid_body_handle: u64,
    pub collider_handle: u64,
}

/// Marker identifying the player entity.
#[derive(Clone, Copy, Debug, Default)]
pub struct Player;

/// Marker present on an entity only during the tick(s) right after its
/// vertical sweep was blocked by a downward-facing surface; added or removed
/// every tick by the control step.
#[derive(Clone, Copy, Debug, Default)]
pub struct Grounded;

/// Per-player persistent state: the velocity (world units per second, in
/// fixed-point ticks) that survives across ticks. It is recomputed every tick
/// from the displacement collision resolution actually allowed, so it never
/// drifts independently of collision outcomes. The kinematic sweep solver
/// itself lives with the external physics engine and has no settable state
/// beyond configuration.
#[derive(Clone, Copy, Debug, PartialEq, Eq, Structural)]
pub struct CharacterController {
    pub velocity: Vec2,
}

impl CharacterController {
    /// A controller at rest.
    pub fn new() -> (c: CharacterController)
        ensures
            c.velocity.x == 0,
            c.velocity.y == 0,
    {
        CharacterController { velocity: Vec2 { x: 0, y: 0 } }
    }
}

/// The store of [`Grounded`] markers: an index-stable flag array keyed by
/// entity id, toggled every tick by the control step without allocation
/// churn. An id beyond the array simply carries no marker.
pub struct GroundedFlags {
    pub flags: Vec<bool>,
}

impl GroundedFlags {
    /// Whether `entity` carries the marker.
    pub open spec fn spec_contains(self, entity: int) -> bool {
        0 <= entity < self.flags@.len() && self.flags@[entity]
    }

    /// No entity marked.
    pub fn new() -> (g: GroundedFlags)
        ensures
            forall|e: int| !g.spec_contains(e),
    {
        GroundedFlags { flags: Vec::new() }
    }

    /// Whether `entity` carries the marker.
    pub fn contains(&self, entity: usize) -> (present: bool)
        ensures
            present == self.spec_contains(entity as int),
    {
        entity < self.flags.len() && self.flags[entity]
    }

    /// Mark `entity`, growing the array if this id has never been marked;
    /// every other entity's marker is untouched.
    pub fn insert(&mut self, entity: usize)
        requires
            entity < usize::MAX,
        ensures
            final(self).spec_contains(entity as int),
            forall|e: int|
                e != entity ==> final(self).spec_contains(e) == old(self).spec_contains(e),
    {
        if entity >= self.flags.len() {
            self.flags.resize(entity + 1, false);
        }
        self.flags[entity] = true;
    }

    /// Unmark `entity`; every other entity's marker is untouched.
    pub fn remove(&mut self, entity: usize)
        ensures
            !final(self).spec_contains(entity as int),
            forall|e: int|
                e != entity ==> final(self).spec_contains(e) == old(self).spec_contains(e),
    {
        if entity < self.flags.len() {
            self.flags[entity] = false;
        }
    }
}

} // verus!
