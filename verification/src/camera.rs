//! The follow camera: an exponential lerp of the camera's world position
//! toward the player each tick. The orthographic projection it feeds is
//! built by the presentation layer; only the world-space position is
//! simulation state.

use vstd::prelude::*;
use crate::math::{div_trunc, Vec2};

verus! {

/// The camera closes one tenth of the gap to its target each tick (an
/// exponential lerp with factor 0.1).
pub const CAMERA_LERP_DIVISOR: i64 = 10;

/// One lerp step of a camera coordinate toward its target, rounding toward
/// zero.
pub open spec fn spec_camera_lerp(cam: int, target: int) -> int {
    cam + div_trunc(target - cam, CAMERA_LERP_DIVISOR as int)
}

/// The camera's world-space position.
#[derive(Clone, Copy, Debug, PartialEq, Eq, Structural)]
pub struct Camera {
    pub position: Vec2,
}

impl Default for Camera {
    /// A camera at the origin; the first tick snaps it toward the player.
    fn default() -> (c: Self)
        ensures
            c.position.x == 0,
            c.position.y == 0,
    {
        Camera { position: Vec2 { x: 0, y: 0 } }
    }
}

/// The per-tick camera stage: ease the camera toward the player's position.
pub struct CameraSystem;

impl CameraSystem {
    /// Move the camera one lerp step toward `target` (the player's
    /// position).
    pub fn run(camera: &mut Camera, target: Vec2)
        requires
            old(camera).position.ok(),
            target.ok(),
        ensures
            final(camera).position.x == spec_camera_lerp(
                old(camera).position.x as int,
                target.x as int,
            ),
            final(camera).position.y == spec_camera_lerp(
                old(camera).position.y as int,
                target.y as int,
            ),
    {
        let dx: i64 = crate::math::div_trunc_i64(
            target.x - camera.position.x,
            CAMERA_LERP_DIVISOR,
        );
        let dy: i64 = crate::math::div_trunc_i64(
            target.y - camera.position.y,
            CAMERA_LERP_DIVISOR,
        );
        camera.position = Vec2 { x: camera.position.x + dx, y: camera.position.y + dy };
    }
}

} // verus!
