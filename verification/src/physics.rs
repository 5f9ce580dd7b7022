//! The physics resource's configuration, and the position sync that runs
//! after the engine's step.
//!
//! The rigid-body and collider sets, the solver pipelines and the event
//! queues live with the external physics engine; what the control and sync
//! stages read from the resource — gravity and the fixed timestep — is here.

use vstd::prelude::*;
use crate::components::{PhysicsBody, Position};
use crate::math::{Timestep, Vec2, SCALE};

verus! {

/// The simulation-owned half of the physics world: the gravity vector and
/// the fixed integration timestep. Mutated only by configuration, never by
/// gameplay.
#[derive(Clone, Copy, Debug, PartialEq, Eq, Structural)]
pub struct PhysicsWorld {
    pub gravity: Vec2,
    pub dt: Timestep,
}

impl PhysicsWorld {
    /// The configuration is usable: gravity in working range, timestep
    /// positive-denominator and bounded.
    pub open spec fn wf(self) -> bool {
        self.gravity.ok() && self.dt.wf()
    }
}

impl Default for PhysicsWorld {
    /// Gravity pulling straight down at 2000 world units per second squared,
    /// sixty ticks per second.
    fn default() -> (w: Self)
        ensures
            w.gravity.x == 0,
            w.gravity.y == -2000 * SCALE,
            w.dt == (Timestep { num: 1, den: 60 }),
            w.wf(),
    {
        PhysicsWorld {
            gravity: Vec2 { x: 0, y: -2000 * SCALE },
            dt: Timestep { num: 1, den: 60 },
        }
    }
}

/// The per-tick physics stage: the external engine advances the rigid-body
/// simulation by one `dt` (after the control step, so the committed
/// kinematic target is respected), and then every entity's `Position` is
/// synchronized from its body's resulting pose.
pub struct PhysicsSystem;

impl PhysicsSystem {
    /// Copy each body's post-step translation into its entity's `Position`.
    /// `poses` holds the engine's resulting translation per body handle; an
    /// entity whose handle is not backed by a pose (an absent body) is
    /// skipped for this tick and keeps its old position.
    pub fn sync_positions(
        positions: &mut Vec<Position>,
        bodies: &Vec<PhysicsBody>,
        poses: &Vec<Vec2>,
    )
        requires
            old(positions).len() == bodies.len(),
        ensures
            final(positions).len() == old(positions).len(),
            forall|i: int|
                0 <= i < bodies.len() ==> final(positions)@[i] == if bodies@[i].rigid_body_handle
                    < poses.len() {
                    Position(poses@[bodies@[i].rigid_body_handle as int])
                } else {
                    old(positions)@[i]
                },
    {
        let n: usize = positions.len();
        let mut i: usize = 0;
        while i < n
            invariant
                n == bodies.len(),
                positions.len() == n,
                i <= n,
                forall|j: int|
                    0 <= j < i ==> positions@[j] == if bodies@[j].rigid_body_handle
                        < poses.len() {
                        Position(poses@[bodies@[j].rigid_body_handle as int])
                    } else {
                        old(positions)@[j]
                    },
                forall|j: int| i <= j < n ==> positions@[j] == old(positions)@[j],
            decreases n - i,
        {
            let handle: u64 = bodies[i].rigid_body_handle;
            if handle < poses.len() as u64 {
                positions[i] = Position(poses[handle as usize]);
            }
            i = i + 1;
        }
    }
}

} // verus!
