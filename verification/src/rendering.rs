//! The presentation stage's geometry: every entity with a position and a
//! renderable becomes two screen-space triangles (six vertices) forming a
//! colored quad.
//!
//! World coordinates are mapped to clip space the way the original pipeline
//! expects them: a screen of `w × h` world units spans clip coordinates
//! −1 to 1 on each axis, so a center lands at `2 · pos / w` and a box of
//! width `bw` extends `bw / w` to each side. Clip coordinates come out in
//! fixed-point ticks; the GPU layer divides by `SCALE` on upload.

use vstd::prelude::*;
use crate::components::{Color, Position, Renderable};
use crate::math::{fx_ok, spec_fx_div, Vec2};

verus! {

/// One vertex handed to the GPU layer: a clip-space position (fixed-point)
/// and a color.
#[derive(Clone, Copy, Debug, PartialEq, Eq, Structural)]
pub struct Vertex {
    pub position: Vec2,
    pub color: Color,
}

/// The vertex data rebuilt each frame for upload.
pub struct RenderData(pub Vec<Vertex>);

impl RenderData {
    /// An empty vertex buffer.
    pub fn new() -> (d: RenderData)
        ensures
            d.0@.len() == 0,
    {
        RenderData(Vec::new())
    }
}

/// The window's current size in world units (fixed-point).
#[derive(Clone, Copy, Debug, PartialEq, Eq, Structural)]
pub struct ScreenDimensions {
    pub width: i64,
    pub height: i64,
}

impl ScreenDimensions {
    /// A drawable screen: both extents positive (resizes to zero are
    /// ignored upstream).
    pub open spec fn wf(self) -> bool {
        self.width > 0 && self.height > 0
    }
}

/// The clip-space bounds of an entity's quad:
/// `(x_min, x_max, y_min, y_max)`.
pub open spec fn spec_quad_bounds(pos: Vec2, shape: Renderable, screen: ScreenDimensions) -> (
    int,
    int,
    int,
    int,
) {
    let half_w = spec_fx_div(shape.width as int, screen.width as int);
    let half_h = spec_fx_div(shape.height as int, screen.height as int);
    let center_x = 2 * spec_fx_div(pos.x as int, screen.width as int);
    let center_y = 2 * spec_fx_div(pos.y as int, screen.height as int);
    (center_x - half_w, center_x + half_w, center_y - half_h, center_y + half_h)
}

/// The six vertices starting at `base` in `data` are the two
/// counter-clockwise triangles of the quad for `pos` and `shape`, all in the
/// entity's color.
pub open spec fn spec_quad_at(
    data: Seq<Vertex>,
    base: int,
    pos: Vec2,
    shape: Renderable,
    screen: ScreenDimensions,
) -> bool {
    let (x_min, x_max, y_min, y_max) = spec_quad_bounds(pos, shape, screen);
    &&& data[base + 0].position.x == x_min && data[base + 0].position.y == y_min
    &&& data[base + 1].position.x == x_max && data[base + 1].position.y == y_min
    &&& data[base + 2].position.x == x_max && data[base + 2].position.y == y_max
    &&& data[base + 3].position.x == x_min && data[base + 3].position.y == y_min
    &&& data[base + 4].position.x == x_max && data[base + 4].position.y == y_max
    &&& data[base + 5].position.x == x_min && data[base + 5].position.y == y_max
    &&& forall|k: int| base <= k < base + 6 ==> data[k].color == shape.color
}

/// The per-frame presentation stage.
pub struct RenderingSystem;

impl RenderingSystem {
    /// Rebuild the frame's vertex data: six vertices per entity, in entity
    /// order, each quad placed by `spec_quad_bounds`. Entities are given as
    /// parallel position/renderable slices (the joined component set).
    pub fn run(
        render_data: &mut RenderData,
        screen: &ScreenDimensions,
        positions: &Vec<Position>,
        renderables: &Vec<Renderable>,
    )
        requires
            positions.len() == renderables.len(),
            screen.wf(),
            forall|i: int|
                0 <= i < positions.len() ==> (#[trigger] positions@[i]).0.ok() && fx_ok(
                    renderables@[i].width as int,
                ) && fx_ok(renderables@[i].height as int),
        ensures
            final(render_data).0@.len() == 6 * positions.len(),
            forall|i: int|
                0 <= i < positions.len() ==> spec_quad_at(
                    final(render_data).0@,
                    6 * i,
                    positions@[i].0,
                    #[trigger] renderables@[i],
                    *screen,
                ),
    {
        render_data.0.clear();
        let n: usize = positions.len();
        let mut i: usize = 0;
        while i < n
            invariant
                n == positions.len(),
                n == renderables.len(),
                screen.wf(),
                forall|j: int|
                    0 <= j < n ==> (#[trigger] positions@[j]).0.ok() && fx_ok(
                        renderables@[j].width as int,
                    ) && fx_ok(renderables@[j].height as int),
                i <= n,
                render_data.0@.len() == 6 * i,
                forall|j: int|
                    0 <= j < i ==> spec_quad_at(
                        render_data.0@,
                        6 * j,
                        positions@[j].0,
                        #[trigger] renderables@[j],
                        *screen,
                    ),
            decreases n - i,
        {
            let ghost before = render_data.0@;
            let pos: Vec2 = positions[i].0;
            let shape: Renderable = renderables[i];
            let half_w: i64 = crate::math::fx_div(shape.width, screen.width);
            let half_h: i64 = crate::math::fx_div(shape.height, screen.height);
            let center_x: i64 = 2 * crate::math::fx_div(pos.x, screen.width);
            let center_y: i64 = 2 * crate::math::fx_div(pos.y, screen.height);
            let x_min: i64 = center_x - half_w;
            let x_max: i64 = center_x + half_w;
            let y_min: i64 = center_y - half_h;
            let y_max: i64 = center_y + half_h;
            render_data.0.push(
                Vertex { position: Vec2 { x: x_min, y: y_min }, color: shape.color },
            );
            render_data.0.push(
                Vertex { position: Vec2 { x: x_max, y: y_min }, color: shape.color },
            );
            render_data.0.push(
                Vertex { position: Vec2 { x: x_max, y: y_max }, color: shape.color },
            );
            render_data.0.push(
                Vertex { position: Vec2 { x: x_min, y: y_min }, color: shape.color },
            );
            render_data.0.push(
                Vertex { position: Vec2 { x: x_max, y: y_max }, color: shape.color },
            );
            render_data.0.push(
                Vertex { position: Vec2 { x: x_min, y: y_max }, color: shape.color },
            );
            proof {
                assert forall|j: int| 0 <= j < i implies spec_quad_at(
                    render_data.0@,
                    6 * j,
                    positions@[j].0,
                    #[trigger] renderables@[j],
                    *screen,
                ) by {
                    assert(spec_quad_at(before, 6 * j, positions@[j].0, renderables@[j], *screen));
                    assert(forall|k: int|
                        0 <= k < before.len() ==> render_data.0@[k] == before[k]);
                }
                assert(spec_quad_at(
                    render_data.0@,
                    6 * i as int,
                    positions@[i as int].0,
                    renderables@[i as int],
                    *screen,
                ));
            }
            i = i + 1;
        }
    }
}

} // verus!
