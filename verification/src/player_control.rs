//! The character-controller tick: velocity integration, jump handling,
//! axis-separated collision sweeps, ground detection, and velocity
//! reconciliation.
//!
//! Each fixed tick, for the player entity, the control step
//! 1. integrates gravity into the persistent velocity, clamping the fall
//!    speed while grounded,
//! 2. smooths the horizontal velocity toward the speed the held keys ask for,
//! 3. overrides the velocity with a straight-up launch if grounded and a
//!    jump was requested this tick,
//! 4. sweeps the collider horizontally by `velocity.x * dt`, then — from the
//!    already-moved pose — vertically by `velocity.y * dt`,
//! 5. takes the grounded flag straight from the vertical sweep,
//! 6. recomputes the velocity from the displacement the sweeps actually
//!    allowed, and
//! 7. commits the resolved pose as the body's next kinematic target.
//!
//! Ground detection uses one canonical strategy: the grounded flag embedded
//! in the kinematic sweep's report. (Inspecting contact manifolds or casting
//! a separate predictive downward shape are interchangeable policy
//! alternatives, not additional requirements.)
//!
//! The sweeps themselves are queries against the external physics engine, so
//! the tick is split around them: [`PlayerControlSystem::update_velocity`]
//! and [`PlayerControlSystem::desired_displacement`] compute what the body
//! tries to do, the caller runs the two sweeps, and
//! [`PlayerControlSystem::resolve_tick`] turns whatever they allowed into the
//! new pose, velocity and grounded flag.

use vstd::prelude::*;
use crate::components::CharacterController;
use crate::input::{spec_input_reset, spec_key_pressed, InputState, Key};
use crate::math::{div_trunc, fx_ok, Timestep, Vec2, SCALE};

verus! {

use vstd::math::abs;

/// Horizontal speed (fixed-point world units per second) the player moves at
/// while a direction key is held.
pub const MOVE_SPEED: i64 = 400 * SCALE;

/// Vertical speed a jump launches at.
pub const JUMP_SPEED: i64 = 700 * SCALE;

/// While grounded, the integrated fall speed is clamped to this floor
/// (−1 world unit per second) so gravity cannot build up against the ground
/// and cause a sink-then-snap artifact when the ground is lost.
pub const GROUNDED_MIN_FALL: i64 = -SCALE;

/// The horizontal velocity closes one fifth of the gap to the desired speed
/// each tick (an exponential approach with factor 0.2): deliberate inertia,
/// not instantaneous snapping.
pub const SMOOTHING_DIVISOR: i64 = 5;

/// Horizontal displacements at most this large (10⁻⁶ world units) skip the
/// horizontal sweep entirely — an optimization with no behavioral
/// difference.
pub const HORIZONTAL_SWEEP_EPSILON: i64 = 1;

/// What one kinematic shape-sweep against the world reports: the
/// displacement actually permitted (possibly shortened or deflected), and
/// whether the motion was blocked by a downward-facing surface. The flag is
/// consulted only for the vertical sweep.
#[derive(Clone, Copy, Debug, PartialEq, Eq, Structural)]
pub struct SweepResult {
    pub allowed: Vec2,
    pub grounded: bool,
}

/// The outcome of one control tick: the resolved pose to commit as the
/// body's next kinematic target, the reconciled velocity, and the new
/// grounded flag.
#[derive(Clone, Copy, Debug, PartialEq, Eq, Structural)]
pub struct TickResolution {
    pub position: Vec2,
    pub velocity: Vec2,
    pub grounded: bool,
}

/// The horizontal speed the held keys ask for: left wins over right, and no
/// key means a full stop.
pub open spec fn spec_desired_x(left_held: bool, right_held: bool) -> int {
    if left_held {
        -MOVE_SPEED as int
    } else if right_held {
        MOVE_SPEED as int
    } else {
        0
    }
}

/// One smoothing step of the horizontal velocity: close a fifth of the gap
/// to the desired speed, rounding toward zero.
pub open spec fn spec_smoothed_x(vx: int, desired: int) -> int {
    vx + div_trunc(desired - vx, SMOOTHING_DIVISOR as int)
}

/// The velocity after gravity integration and the grounded fall clamp.
pub open spec fn spec_integrated(v: Vec2, grounded: bool, gravity: Vec2, dt: Timestep) -> (
    int,
    int,
) {
    let vx = v.x + dt.spec_scale(gravity.x as int);
    let vy = v.y + dt.spec_scale(gravity.y as int);
    let clamped_vy = if grounded && vy < GROUNDED_MIN_FALL {
        GROUNDED_MIN_FALL as int
    } else {
        vy
    };
    (vx, clamped_vy)
}

/// The velocity a tick works with, before any sweep: gravity integration and
/// the grounded clamp, then horizontal smoothing toward the desired speed,
/// then — if grounded and a jump was requested this tick — the jump
/// override, which launches straight up at `JUMP_SPEED` with the horizontal
/// velocity zeroed for this one tick so a wall next to the player cannot
/// interfere with the launch.
pub open spec fn spec_update_velocity(
    v: Vec2,
    grounded: bool,
    input: InputState,
    gravity: Vec2,
    dt: Timestep,
) -> (int, int) {
    let (vx, vy) = spec_integrated(v, grounded, gravity, dt);
    let smoothed_vx = spec_smoothed_x(vx, spec_desired_x(input.left_held, input.right_held));
    if grounded && input.jump_pressed {
        (0, JUMP_SPEED as int)
    } else {
        (smoothed_vx, vy)
    }
}

/// The pose after both sweeps: the starting pose moved by whatever each
/// sweep allowed, the horizontal one first.
pub open spec fn spec_resolved_position(start: Vec2, h: SweepResult, v: SweepResult) -> (
    int,
    int,
) {
    (
        start.x + h.allowed.x + v.allowed.x,
        start.y + h.allowed.y + v.allowed.y,
    )
}

/// The reconciled velocity: the displacement the sweeps actually allowed,
/// divided by the timestep — so a body stopped by a wall carries no leftover
/// speed into the next tick. A zero timestep skips the division and keeps
/// the incoming velocity.
pub open spec fn spec_reconciled_velocity(
    velocity: (int, int),
    h: SweepResult,
    v: SweepResult,
    dt: Timestep,
) -> (int, int) {
    if dt.is_zero() {
        velocity
    } else {
        (
            dt.spec_unscale(h.allowed.x + v.allowed.x),
            dt.spec_unscale(h.allowed.y + v.allowed.y),
        )
    }
}

/// The per-tick player-control step.
pub struct PlayerControlSystem;

impl PlayerControlSystem {
    /// Steps 1–3 of the tick: integrate gravity (clamping the fall speed
    /// while grounded), smooth the horizontal velocity toward what the held
    /// keys ask for, and apply the jump override if grounded and a jump was
    /// requested.
    pub fn update_velocity(
        controller: &CharacterController,
        grounded: bool,
        input: &InputState,
        gravity: Vec2,
        dt: &Timestep,
    ) -> (v: Vec2)
        requires
            dt.wf(),
            controller.velocity.ok(),
            gravity.ok(),
        ensures
            (v.x as int, v.y as int) == spec_update_velocity(
                controller.velocity,
                grounded,
                *input,
                gravity,
                *dt,
            ),
    {
        let mut vx: i64 = controller.velocity.x + dt.scale(gravity.x);
        let mut vy: i64 = controller.velocity.y + dt.scale(gravity.y);
        if grounded {
            vy = crate::math::max_i64(vy, GROUNDED_MIN_FALL);
        }
        let desired: i64 = if input.left_held {
            -MOVE_SPEED
        } else if input.right_held {
            MOVE_SPEED
        } else {
            0
        };
        vx = vx + crate::math::div_trunc_i64(desired - vx, SMOOTHING_DIVISOR);
        if grounded && input.jump_pressed {
            Vec2 { x: 0, y: JUMP_SPEED }
        } else {
            Vec2 { x: vx, y: vy }
        }
    }

    /// Step 4's question to the collision engine: how far the body intends
    /// to move this tick, per axis.
    pub fn desired_displacement(velocity: Vec2, dt: &Timestep) -> (d: Vec2)
        requires
            dt.wf(),
            velocity.ok(),
        ensures
            d.x == dt.spec_scale(velocity.x as int),
            d.y == dt.spec_scale(velocity.y as int),
    {
        Vec2 { x: dt.scale(velocity.x), y: dt.scale(velocity.y) }
    }

    /// Whether the horizontal sweep is worth running: displacements at most
    /// `HORIZONTAL_SWEEP_EPSILON` skip it, and the caller treats the
    /// horizontal sweep as having allowed no movement.
    pub fn horizontal_sweep_needed(dx: i64) -> (needed: bool)
        requires
            dx != i64::MIN,
        ensures
            needed == (abs(dx as int) > HORIZONTAL_SWEEP_EPSILON),
    {
        dx > HORIZONTAL_SWEEP_EPSILON || dx < -HORIZONTAL_SWEEP_EPSILON
    }

    /// Steps 5–7 of the tick, once the caller has run the sweeps: move the
    /// pose by what each sweep allowed, take the grounded flag straight from
    /// the vertical sweep, and reconcile the velocity with the displacement
    /// that was actually achieved (skipping the division on a degenerate
    /// zero timestep).
    pub fn resolve_tick(
        start: Vec2,
        velocity: Vec2,
        horizontal: &SweepResult,
        vertical: &SweepResult,
        dt: &Timestep,
    ) -> (r: TickResolution)
        requires
            dt.wf(),
            start.ok(),
            fx_ok(horizontal.allowed.x + vertical.allowed.x),
            fx_ok(horizontal.allowed.y + vertical.allowed.y),
        ensures
            (r.position.x as int, r.position.y as int) == spec_resolved_position(
                start,
                *horizontal,
                *vertical,
            ),
            (r.velocity.x as int, r.velocity.y as int) == spec_reconciled_velocity(
                (velocity.x as int, velocity.y as int),
                *horizontal,
                *vertical,
                *dt,
            ),
            r.grounded == vertical.grounded,
    {
        let dx: i64 = horizontal.allowed.x + vertical.allowed.x;
        let dy: i64 = horizontal.allowed.y + vertical.allowed.y;
        let position = Vec2 { x: start.x + dx, y: start.y + dy };
        let new_velocity = if dt.num > 0 {
            Vec2 { x: dt.unscale(dx), y: dt.unscale(dy) }
        } else {
            velocity
        };
        TickResolution { position, velocity: new_velocity, grounded: vertical.grounded }
    }
}

/// Everything one control tick computes, given the prior state and what the
/// caller's two sweeps allowed: the resolved pose, the reconciled velocity,
/// and the new grounded flag.
pub open spec fn spec_tick(
    start: Vec2,
    velocity: Vec2,
    grounded: bool,
    input: InputState,
    gravity: Vec2,
    dt: Timestep,
    h: SweepResult,
    v: SweepResult,
) -> ((int, int), (int, int), bool) {
    (
        spec_resolved_position(start, h, v),
        spec_reconciled_velocity(
            spec_update_velocity(velocity, grounded, input, gravity, dt),
            h,
            v,
            dt,
        ),
        v.grounded,
    )
}

/// While airborne, gravity integration moves the vertical velocity by
/// exactly `gravity.y * dt` (truncated toward zero), and strictly downward
/// whenever the pull amounts to at least one fixed-point tick per timestep —
/// no clamp and no jump interferes when the body is not grounded.
pub proof fn lemma_airborne_gravity_integration(
    v: Vec2,
    input: InputState,
    gravity: Vec2,
    dt: Timestep,
)
    requires
        dt.wf(),
    ensures
        spec_update_velocity(v, false, input, gravity, dt).1 == v.y + dt.spec_scale(
            gravity.y as int,
        ),
        gravity.y * dt.num <= -(dt.den as int) ==> spec_update_velocity(
            v,
            false,
            input,
            gravity,
            dt,
        ).1 < v.y,
{
    let pull = gravity.y * dt.num;
    if pull <= -(dt.den as int) {
        vstd::arithmetic::div_mod::lemma_div_non_zero(-pull, dt.den as int);
    }
}

/// While grounded, the post-clamp vertical velocity never falls below
/// `GROUNDED_MIN_FALL`: either the clamp holds the floor, or a jump raises
/// the velocity far above it.
pub proof fn lemma_grounded_fall_clamp(v: Vec2, input: InputState, gravity: Vec2, dt: Timestep)
    ensures
        spec_update_velocity(v, true, input, gravity, dt).1 >= GROUNDED_MIN_FALL,
{
}

/// Each smoothing step moves the horizontal velocity toward the desired
/// value without ever overshooting it: the gap keeps its sign, never grows,
/// and strictly shrinks whenever it is at least `SMOOTHING_DIVISOR` — so
/// repeated ticks with unchanged input converge monotonically. (A gap
/// smaller than `SMOOTHING_DIVISOR` fixed-point ticks — under five
/// millionths of a world unit per second — rounds to a zero step and stays.)
pub proof fn lemma_horizontal_convergence(vx: int, desired: int)
    ensures
        abs(desired - spec_smoothed_x(vx, desired)) <= abs(desired - vx),
        (desired - vx) * (desired - spec_smoothed_x(vx, desired)) >= 0,
        abs(desired - vx) >= SMOOTHING_DIVISOR ==> abs(desired - spec_smoothed_x(vx, desired))
            < abs(desired - vx),
{
    let gap = desired - vx;
    let step = div_trunc(gap, SMOOTHING_DIVISOR as int);
    if gap >= 0 {
        vstd::arithmetic::div_mod::lemma_div_pos_is_pos(gap, SMOOTHING_DIVISOR as int);
        vstd::arithmetic::div_mod::lemma_div_nonincreasing(gap, SMOOTHING_DIVISOR as int);
        if gap >= SMOOTHING_DIVISOR {
            vstd::arithmetic::div_mod::lemma_div_non_zero(gap, SMOOTHING_DIVISOR as int);
        }
        vstd::arithmetic::mul::lemma_mul_nonnegative(gap, gap - step);
    } else {
        vstd::arithmetic::div_mod::lemma_div_pos_is_pos(-gap, SMOOTHING_DIVISOR as int);
        vstd::arithmetic::div_mod::lemma_div_nonincreasing(-gap, SMOOTHING_DIVISOR as int);
        if -gap >= SMOOTHING_DIVISOR {
            vstd::arithmetic::div_mod::lemma_div_non_zero(-gap, SMOOTHING_DIVISOR as int);
        }
        vstd::arithmetic::mul::lemma_mul_nonnegative(-gap, -(gap - step));
        assert((-gap) * (-(gap - step)) == gap * (gap - step)) by (nonlinear_arith);
    }
}

/// The horizontal velocity after `n` smoothing steps toward the same desired
/// value.
pub open spec fn spec_smoothed_iter(vx: int, desired: int, n: nat) -> int
    decreases n,
{
    if n == 0 {
        vx
    } else {
        spec_smoothed_x(spec_smoothed_iter(vx, desired, (n - 1) as nat), desired)
    }
}

/// Convergence holds across any number of ticks with unchanged input: after
/// `n` smoothing steps the gap to the desired speed still has its original
/// sign (the velocity never passes the target) and is no larger than it
/// started.
pub proof fn lemma_horizontal_convergence_over_ticks(vx: int, desired: int, n: nat)
    ensures
        abs(desired - spec_smoothed_iter(vx, desired, n)) <= abs(desired - vx),
        (desired - vx) * (desired - spec_smoothed_iter(vx, desired, n)) >= 0,
    decreases n,
{
    if n > 0 {
        let prev = spec_smoothed_iter(vx, desired, (n - 1) as nat);
        lemma_horizontal_convergence_over_ticks(vx, desired, (n - 1) as nat);
        lemma_horizontal_convergence(prev, desired);
        let g0 = desired - vx;
        let gp = desired - prev;
        let gn = desired - spec_smoothed_iter(vx, desired, n);
        if gp == 0 {
            assert(gn == 0);
            assert(g0 * gn == 0) by (nonlinear_arith)
                requires
                    gn == 0,
            ;
        } else if gp > 0 {
            assert(gn >= 0 && g0 >= 0) by (nonlinear_arith)
                requires
                    gp > 0,
                    gp * gn >= 0,
                    g0 * gp >= 0,
            ;
            vstd::arithmetic::mul::lemma_mul_nonnegative(g0, gn);
        } else {
            assert(gn <= 0 && g0 <= 0) by (nonlinear_arith)
                requires
                    gp < 0,
                    gp * gn >= 0,
                    g0 * gp >= 0,
            ;
            vstd::arithmetic::mul::lemma_mul_nonnegative(-g0, -gn);
            assert((-g0) * (-gn) == g0 * gn) by (nonlinear_arith);
        }
    } else {
        assert((desired - vx) * (desired - vx) >= 0) by (nonlinear_arith);
    }
}

/// A grounded tick with the jump flag set launches straight up: the velocity
/// becomes exactly `(0, JUMP_SPEED)`, whatever the prior velocity, the held
/// movement keys, gravity, or the timestep.
pub proof fn lemma_jump_launches_straight_up(
    v: Vec2,
    input: InputState,
    gravity: Vec2,
    dt: Timestep,
)
    requires
        input.jump_pressed,
    ensures
        spec_update_velocity(v, true, input, gravity, dt) == (0int, JUMP_SPEED as int),
{
}

/// While airborne, a pending jump request changes nothing: the velocity a
/// tick computes is the same whether or not the jump flag is set, as long as
/// the held movement keys agree — there is no double or air jump.
pub proof fn lemma_airborne_jump_is_ignored(
    v: Vec2,
    a: InputState,
    b: InputState,
    gravity: Vec2,
    dt: Timestep,
)
    requires
        a.left_held == b.left_held,
        a.right_held == b.right_held,
    ensures
        spec_update_velocity(v, false, a, gravity, dt) == spec_update_velocity(
            v,
            false,
            b,
            gravity,
            dt,
        ),
{
}

/// The two sweeps act on their own axes: outcomes that agree on the vertical
/// components (say, a horizontal wall block versus free passage) leave the
/// resolved vertical position and velocity — and the grounded verdict —
/// untouched, and outcomes that agree on the horizontal components leave the
/// horizontal resolution untouched.
pub proof fn lemma_axis_separation(
    start: Vec2,
    velocity: (int, int),
    h1: SweepResult,
    h2: SweepResult,
    v1: SweepResult,
    v2: SweepResult,
    dt: Timestep,
)
    requires
        h1.allowed.y == h2.allowed.y,
        v1.allowed.x == v2.allowed.x,
    ensures
        spec_resolved_position(start, h1, v1).1 == spec_resolved_position(start, h2, v1).1,
        spec_reconciled_velocity(velocity, h1, v1, dt).1 == spec_reconciled_velocity(
            velocity,
            h2,
            v1,
            dt,
        ).1,
        spec_resolved_position(start, h1, v1).0 == spec_resolved_position(start, h1, v2).0,
        spec_reconciled_velocity(velocity, h1, v1, dt).0 == spec_reconciled_velocity(
            velocity,
            h1,
            v2,
            dt,
        ).0,
{
}

/// The grounded marker after a tick is exactly what the vertical sweep
/// reported: set when it found a downward block, clear when it did not, with
/// no memory of the previous tick's marker (which enters the tick only
/// through the velocity clamp) and no influence from the horizontal sweep.
pub proof fn lemma_grounded_tracks_vertical_sweep(
    start: Vec2,
    velocity: Vec2,
    g1: bool,
    g2: bool,
    input: InputState,
    gravity: Vec2,
    dt: Timestep,
    h1: SweepResult,
    h2: SweepResult,
    v: SweepResult,
)
    ensures
        spec_tick(start, velocity, g1, input, gravity, dt, h1, v).2 == v.grounded,
        spec_tick(start, velocity, g1, input, gravity, dt, h1, v).2 == spec_tick(
            start,
            velocity,
            g2,
            input,
            gravity,
            dt,
            h2,
            v,
        ).2,
{
}

/// Stable rest: a full tick with zero input, zero initial velocity, vertical
/// gravity, and a floor that blocks the vertical sweep (and nothing for the
/// horizontal sweep to do) leaves the pose exactly where it started, the
/// velocity at exactly zero, and the body grounded. The intended horizontal
/// displacement is exactly zero, so skipping the horizontal sweep is
/// legitimate.
pub proof fn lemma_rest_is_stable(
    start: Vec2,
    input: InputState,
    gravity: Vec2,
    dt: Timestep,
    h: SweepResult,
    v: SweepResult,
)
    requires
        dt.wf(),
        !dt.is_zero(),
        !input.left_held,
        !input.right_held,
        !input.jump_pressed,
        gravity.x == 0,
        h.allowed.x == 0,
        h.allowed.y == 0,
        v.allowed.x == 0,
        v.allowed.y == 0,
        v.grounded,
    ensures
        spec_update_velocity(Vec2 { x: 0, y: 0 }, true, input, gravity, dt).0 == 0,
        dt.spec_scale(0) == 0,
        spec_tick(start, Vec2 { x: 0, y: 0 }, true, input, gravity, dt, h, v).0 == (
            start.x as int,
            start.y as int,
        ),
        spec_tick(start, Vec2 { x: 0, y: 0 }, true, input, gravity, dt, h, v).1 == (0int, 0int),
        spec_tick(start, Vec2 { x: 0, y: 0 }, true, input, gravity, dt, h, v).2,
{
    vstd::arithmetic::div_mod::lemma_div_of0(dt.den as int);
    vstd::arithmetic::div_mod::lemma_div_of0(dt.num as int);
    vstd::arithmetic::div_mod::lemma_div_of0(SMOOTHING_DIVISOR as int);
}

/// A jump request is consumed after exactly one tick: a fresh press arms the
/// edge flag, the grounded tick it covers launches at `JUMP_SPEED`, and once
/// the end-of-tick reset has run, holding the key down (which repeats the
/// press event while the key is already held) does not re-arm the flag, so
/// no later tick re-launches.
pub proof fn lemma_jump_edge_consumed(s0: InputState, v: Vec2, gravity: Vec2, dt: Timestep)
    requires
        !s0.jump_held,
    ensures
        spec_key_pressed(s0, Key::Jump).jump_pressed,
        spec_update_velocity(v, true, spec_key_pressed(s0, Key::Jump), gravity, dt).1
            == JUMP_SPEED as int,
        !spec_key_pressed(spec_input_reset(spec_key_pressed(s0, Key::Jump)), Key::Jump)
            .jump_pressed,
{
}

} // verus!
