//! The rasterizer: draws a primitive's triangles into a colour buffer and a
//! depth buffer.

use vstd::prelude::*;
use vstd::slice::slice_subrange;
use crate::buffers::{in_grid, ColorBuffer, DepthBuffer, RenderTextures, Rgba8};
use crate::math::{floor_div, Vec2, Vec3, Vec4};
use crate::primitives::{indices_in_range, yields_mesh, PartPrimitive, Vertex};
use crate::shader::{
    apply_vertex_shader, color_to_rgba8, color_to_rgba8_spec, fragment_shaded, vertex_shaded,
    ShaderState, VertexOutput,
};
use crate::triangle::{
    blend, cross, grid_high, grid_low, lemma_blend_bounds, lemma_covered_pixel_in_box, max3, min3,
    pixel_center, Triangle,
};

verus! {

/// The size of the viewport in pixels.
#[derive(Clone, Copy, Debug, PartialEq, Eq, Structural)]
pub struct Size {
    pub width: u32,
    pub height: u32,
}

/// Which fragments the depth test lets through.
#[derive(Clone, Copy, Debug, PartialEq, Eq, Structural)]
pub enum DepthTest {
    /// A fragment passes unless its depth is less than the stored one:
    /// equal and greater depths replace what is there.
    NotLess,
    /// A fragment passes unless its depth is greater than the stored one:
    /// equal and lesser depths replace what is there.
    NotGreater,
}

impl DepthTest {
    pub open spec fn passes_spec(self, depth: i32, stored: i32) -> bool {
        match self {
            DepthTest::NotLess => depth >= stored,
            DepthTest::NotGreater => depth <= stored,
        }
    }

    #[verifier::when_used_as_spec(passes_spec)]
    pub fn passes(self, depth: i32, stored: i32) -> (pass: bool)
        ensures
            pass == self.passes_spec(depth, stored),
    {
        match self {
            DepthTest::NotLess => depth >= stored,
            DepthTest::NotGreater => depth <= stored,
        }
    }
}

impl RenderTextures {
    /// Both buffers have the same size, and the depth buffer holds one
    /// depth per pixel.
    pub open spec fn wf(&self) -> bool {
        &&& self.depth_buffer.wf()
        &&& self.depth_buffer.width() == self.output.width()
        &&& self.depth_buffer.height() == self.output.height()
    }

    pub open spec fn width(&self) -> nat {
        self.output.width()
    }

    pub open spec fn height(&self) -> nat {
        self.output.height()
    }
}

/// Pixel `(x, y)` holds in `after` the colour and the depth it held in
/// `before`.
pub open spec fn pixel_unchanged(before: RenderTextures, after: RenderTextures, x: int, y: int) -> bool {
    &&& after.output.at(x, y) == before.output.at(x, y)
    &&& after.depth_buffer.at(x, y) == before.depth_buffer.at(x, y)
}

/// What drawing `triangle` does to pixel `(x, y)`. Where the triangle covers
/// the pixel's centre and its depth there passes the test against the stored
/// depth, the pixel takes that depth and a colour that the fragment stage
/// yields for the blended attributes. Every other pixel stays as it was.
pub open spec fn pixel_drawn<S: ShaderState>(
    state: &S,
    test: DepthTest,
    triangle: Triangle,
    before: RenderTextures,
    after: RenderTextures,
    x: int,
    y: int,
) -> bool {
    if triangle.covers_pixel(x, y) && test.passes_spec(
        triangle.depth_at(x, y),
        before.depth_buffer.at(x, y),
    ) {
        &&& after.depth_buffer.at(x, y) == triangle.depth_at(x, y)
        &&& exists|color: Vec4|
            fragment_shaded(state, triangle.fragment_at(x, y), color) && after.output.at(x, y)
                == color_to_rgba8_spec(color)
    } else {
        pixel_unchanged(before, after, x, y)
    }
}

/// `after` is `before` with `triangle` drawn into it.
pub open spec fn triangle_drawn<S: ShaderState>(
    state: &S,
    test: DepthTest,
    triangle: Triangle,
    before: RenderTextures,
    after: RenderTextures,
) -> bool {
    &&& after.width() == before.width()
    &&& after.height() == before.height()
    &&& forall|x: int, y: int|
        in_grid(before.width(), before.height(), x, y) ==> #[trigger] pixel_drawn(
            state,
            test,
            triangle,
            before,
            after,
            x,
            y,
        )
}

/// `after` is `before` with the triangle drawn that `indices` names among
/// `vertices`. The three vertices pass the vertex stage in reverse order.
pub open spec fn indexed_triangle_drawn<S: ShaderState>(
    state: &S,
    test: DepthTest,
    vertices: Seq<Vertex>,
    indices: Seq<u16>,
    before: RenderTextures,
    after: RenderTextures,
) -> bool
    recommends
        indices.len() == 3,
{
    exists|a: VertexOutput, b: VertexOutput, c: VertexOutput|
        {
            &&& vertex_shaded(state, vertices[indices[2] as int], a)
            &&& vertex_shaded(state, vertices[indices[1] as int], b)
            &&& vertex_shaded(state, vertices[indices[0] as int], c)
            &&& #[trigger] triangle_drawn(state, test, Triangle { a, b, c }, before, after)
        }
}

/// `steps` holds the buffers before the first triangle and after each one
/// of the whole groups of three in `indices`, drawn in order.
pub open spec fn drawn_in_steps<S: ShaderState>(
    state: &S,
    test: DepthTest,
    vertices: Seq<Vertex>,
    indices: Seq<u16>,
    steps: Seq<RenderTextures>,
) -> bool {
    &&& steps.len() == indices.len() / 3 + 1
    &&& forall|k: int|
        0 <= k < indices.len() / 3 ==> #[trigger] indexed_triangle_drawn(
            state,
            test,
            vertices,
            indices.subrange(3 * k, 3 * k + 3),
            steps[k],
            steps[k + 1],
        )
}

/// `after` is `before` with every whole group of three in `indices` drawn
/// as a triangle, one after the other.
pub open spec fn primitives_drawn<S: ShaderState>(
    state: &S,
    test: DepthTest,
    vertices: Seq<Vertex>,
    indices: Seq<u16>,
    before: RenderTextures,
    after: RenderTextures,
) -> bool {
    exists|steps: Seq<RenderTextures>|
        {
            &&& #[trigger] drawn_in_steps(state, test, vertices, indices, steps)
            &&& steps.first() == before
            &&& steps.last() == after
        }
}

/// One primitive with the buffers it is drawn into.
pub struct RenderEntry<P: PartPrimitive> {
    pub primitive: P,
    pub size: Size,
    pub textures: RenderTextures,
    pub depth_test: DepthTest,
}

fn cross_exec(ux: i64, uy: i64, vx: i64, vy: i64) -> (r: i128)
    requires
        -0x1000_0000_0000 <= ux <= 0x1000_0000_0000,
        -0x1000_0000_0000 <= uy <= 0x1000_0000_0000,
        -0x1000_0000_0000 <= vx <= 0x1000_0000_0000,
        -0x1000_0000_0000 <= vy <= 0x1000_0000_0000,
    ensures
        r == cross(ux as int, uy as int, vx as int, vy as int),
        -0x200_0000_0000_0000_0000_0000 <= r <= 0x200_0000_0000_0000_0000_0000,
{
    proof {
        lemma_product_bound(ux as int, vy as int, 0x1000_0000_0000);
        lemma_product_bound(uy as int, vx as int, 0x1000_0000_0000);
    }
    (ux as i128) * (vy as i128) - (uy as i128) * (vx as i128)
}

proof fn lemma_product_bound(x: int, y: int, bound: int)
    requires
        -bound <= x <= bound,
        -bound <= y <= bound,
    ensures
        -(bound * bound) <= x * y <= bound * bound,
{
    assert(-(bound * bound) <= x * y <= bound * bound) by (nonlinear_arith)
        requires
            -bound <= x <= bound,
            -bound <= y <= bound,
    ;
}

fn min3_exec(a: i32, b: i32, c: i32) -> (m: i32)
    ensures
        m == min3(a as int, b as int, c as int),
{
    if a <= b && a <= c {
        a
    } else if b <= c {
        b
    } else {
        c
    }
}

fn max3_exec(a: i32, b: i32, c: i32) -> (m: i32)
    ensures
        m == max3(a as int, b as int, c as int),
{
    if a >= b && a >= c {
        a
    } else if b >= c {
        b
    } else {
        c
    }
}

fn clamp_exec(value: i128, limit: u32) -> (r: u32)
    ensures
        r == crate::triangle::clamp_to(value as int, limit as int),
{
    if value < 0 {
        0
    } else if value > limit as i128 {
        limit
    } else {
        value as u32
    }
}

fn grid_low_exec(low: i32, limit: u32) -> (r: u32)
    ensures
        r == grid_low(low as int, limit as int),
{
    clamp_exec(floor_div(low as i128, 1000), limit)
}

fn grid_high_exec(high: i32, limit: u32) -> (r: u32)
    ensures
        r == grid_high(high as int, limit as int),
{
    clamp_exec(floor_div(high as i128 + 999, 1000), limit)
}

fn blend_exec(na: i128, nb: i128, nc: i128, total: i128, fa: i32, fb: i32, fc: i32) -> (r: i32)
    requires
        na >= 0,
        nb >= 0,
        nc >= 0,
        total == na + nb + nc,
        0 < total <= 0x200_0000_0000_0000_0000_0000,
    ensures
        r == blend(na as int, nb as int, nc as int, total as int, fa as int, fb as int, fc as int),
{
    proof {
        crate::triangle::lemma_scaled_bounds(na as int, fa as int, -0x8000_0000, 0x8000_0000);
        crate::triangle::lemma_scaled_bounds(nb as int, fb as int, -0x8000_0000, 0x8000_0000);
        crate::triangle::lemma_scaled_bounds(nc as int, fc as int, -0x8000_0000, 0x8000_0000);
        lemma_blend_bounds(
            na as int,
            nb as int,
            nc as int,
            total as int,
            fa as int,
            fb as int,
            fc as int,
            min3(fa as int, fb as int, fc as int),
            max3(fa as int, fb as int, fc as int),
        );
    }
    let sum: i128 = na * (fa as i128) + nb * (fb as i128) + nc * (fc as i128);
    floor_div(sum, total) as i32
}

fn blend_vertex(
    na: i128,
    nb: i128,
    nc: i128,
    total: i128,
    a: &VertexOutput,
    b: &VertexOutput,
    c: &VertexOutput,
) -> (r: VertexOutput)
    requires
        na >= 0,
        nb >= 0,
        nc >= 0,
        total == na + nb + nc,
        0 < total <= 0x200_0000_0000_0000_0000_0000,
    ensures
        r == (VertexOutput {
            position: Vec4 {
                x: blend(
                    na as int,
                    nb as int,
                    nc as int,
                    total as int,
                    a.position.x as int,
                    b.position.x as int,
                    c.position.x as int,
                ) as i32,
                y: blend(
                    na as int,
                    nb as int,
                    nc as int,
                    total as int,
                    a.position.y as int,
                    b.position.y as int,
                    c.position.y as int,
                ) as i32,
                z: blend(
                    na as int,
                    nb as int,
                    nc as int,
                    total as int,
                    a.position.z as int,
                    b.position.z as int,
                    c.position.z as int,
                ) as i32,
                w: blend(
                    na as int,
                    nb as int,
                    nc as int,
                    total as int,
                    a.position.w as int,
                    b.position.w as int,
                    c.position.w as int,
                ) as i32,
            },
            tex_coord: Vec2 {
                x: blend(
                    na as int,
                    nb as int,
                    nc as int,
                    total as int,
                    a.tex_coord.x as int,
                    b.tex_coord.x as int,
                    c.tex_coord.x as int,
                ) as i32,
                y: blend(
                    na as int,
                    nb as int,
                    nc as int,
                    total as int,
                    a.tex_coord.y as int,
                    b.tex_coord.y as int,
                    c.tex_coord.y as int,
                ) as i32,
            },
            normal: Vec3 {
                x: blend(
                    na as int,
                    nb as int,
                    nc as int,
                    total as int,
                    a.normal.x as int,
                    b.normal.x as int,
                    c.normal.x as int,
                ) as i32,
                y: blend(
                    na as int,
                    nb as int,
                    nc as int,
                    total as int,
                    a.normal.y as int,
                    b.normal.y as int,
                    c.normal.y as int,
                ) as i32,
                z: blend(
                    na as int,
                    nb as int,
                    nc as int,
                    total as int,
                    a.normal.z as int,
                    b.normal.z as int,
                    c.normal.z as int,
                ) as i32,
            },
        }),
{
    VertexOutput {
        position: Vec4 {
            x: blend_exec(na, nb, nc, total, a.position.x, b.position.x, c.position.x),
            y: blend_exec(na, nb, nc, total, a.position.y, b.position.y, c.position.y),
            z: blend_exec(na, nb, nc, total, a.position.z, b.position.z, c.position.z),
            w: blend_exec(na, nb, nc, total, a.position.w, b.position.w, c.position.w),
        },
        tex_coord: Vec2 {
            x: blend_exec(na, nb, nc, total, a.tex_coord.x, b.tex_coord.x, c.tex_coord.x),
            y: blend_exec(na, nb, nc, total, a.tex_coord.y, b.tex_coord.y, c.tex_coord.y),
        },
        normal: Vec3 {
            x: blend_exec(na, nb, nc, total, a.normal.x, b.normal.x, c.normal.x),
            y: blend_exec(na, nb, nc, total, a.normal.y, b.normal.y, c.normal.y),
            z: blend_exec(na, nb, nc, total, a.normal.z, b.normal.z, c.normal.z),
        },
    }
}

/// What the triangle hands to the fragment stage at pixel `(x, y)`, or
/// `None` where it does not cover the pixel's centre.
pub fn fragment_for_pixel(triangle: &Triangle, x: u32, y: u32) -> (fragment: Option<VertexOutput>)
    ensures
        fragment == if triangle.covers_pixel(x as int, y as int) {
            Some(triangle.fragment_at(x as int, y as int))
        } else {
            None
        },
{
    let ax: i64 = triangle.a.position.x as i64;
    let ay: i64 = triangle.a.position.y as i64;
    let ux: i64 = triangle.b.position.x as i64 - ax;
    let uy: i64 = triangle.b.position.y as i64 - ay;
    let vx: i64 = triangle.c.position.x as i64 - ax;
    let vy: i64 = triangle.c.position.y as i64 - ay;
    let qx: i64 = (x as i64) * 1000 + 500 - ax;
    let qy: i64 = (y as i64) * 1000 + 500 - ay;
    let area: i128 = cross_exec(ux, uy, vx, vy);
    let wb: i128 = cross_exec(qx, qy, vx, vy);
    let wc: i128 = cross_exec(ux, uy, qx, qy);
    let wa: i128 = area - wb - wc;
    assert(area == triangle.area2());
    assert(wb == triangle.weight_b(pixel_center(x as int), pixel_center(y as int)));
    assert(wc == triangle.weight_c(pixel_center(x as int), pixel_center(y as int)));
    if area > 0 && wa >= 0 && wb >= 0 && wc >= 0 {
        Some(blend_vertex(wa, wb, wc, area, &triangle.a, &triangle.b, &triangle.c))
    } else if area < 0 && wa <= 0 && wb <= 0 && wc <= 0 {
        Some(blend_vertex(-wa, -wb, -wc, -area, &triangle.a, &triangle.b, &triangle.c))
    } else {
        None
    }
}

/// Pixel `(x, y)` while the bounding box is walked row by row: drawn once
/// the walk has passed it, as in `before` until it has. The walk stands at
/// column `at_x` of row `at_y`; rows start at column `low_x` and end before
/// `high_x`, and the first row is `low_y`.
pub open spec fn pixel_in_progress<S: ShaderState>(
    state: &S,
    test: DepthTest,
    triangle: Triangle,
    before: RenderTextures,
    now: RenderTextures,
    x: int,
    y: int,
    low_x: int,
    high_x: int,
    low_y: int,
    at_x: int,
    at_y: int,
) -> bool {
    if low_x <= x < high_x && (low_y <= y < at_y || (y == at_y && x < at_x)) {
        pixel_drawn(state, test, triangle, before, now, x, y)
    } else {
        pixel_unchanged(before, now, x, y)
    }
}

impl<P: PartPrimitive> RenderEntry<P> {
    /// The buffers are well formed and as large as the viewport.
    pub open spec fn wf(&self) -> bool {
        &&& self.textures.wf()
        &&& self.textures.width() == self.size.width
        &&& self.textures.height() == self.size.height
    }

    /// An entry with fresh buffers of the given size: every pixel fully
    /// transparent black, every depth `depth`. `None` where the buffers
    /// would not fit in memory.
    pub fn new(primitive: P, size: Size, depth: i32, depth_test: DepthTest) -> (entry: Option<
        RenderEntry<P>,
    >)
        ensures
            entry is Some <==> 4 * (size.width * size.height) <= isize::MAX,
            entry matches Some(e) ==> {
                &&& e.wf()
                &&& e.primitive == primitive
                &&& e.size == size
                &&& e.depth_test == depth_test
                &&& forall|x: int, y: int|
                    in_grid(size.width as nat, size.height as nat, x, y) ==> {
                        &&& #[trigger] e.textures.output.at(x, y) == (Rgba8 {
                            r: 0,
                            g: 0,
                            b: 0,
                            a: 0,
                        })
                        &&& e.textures.depth_buffer.at(x, y) == depth
                    }
            },
    {
        match ColorBuffer::new(size.width, size.height) {
            Some(output) => match DepthBuffer::new(size.width, size.height, depth) {
                Some(depth_buffer) => Some(
                    RenderEntry {
                        primitive,
                        size,
                        textures: RenderTextures { output, depth_buffer },
                        depth_test,
                    },
                ),
                None => None,
            },
            None => None,
        }
    }

    /// Draws one triangle whose corners have passed the vertex stage.
    ///
    /// A pixel changes only where the triangle covers its centre and the
    /// depth test lets the fragment through; a degenerate triangle covers
    /// no pixel.
    pub fn rasterize_triangle<S: ShaderState>(&mut self, triangle: Triangle, state: &S)
        requires
            old(self).wf(),
        ensures
            final(self).wf(),
            final(self).size == old(self).size,
            final(self).depth_test == old(self).depth_test,
            final(self).primitive == old(self).primitive,
            triangle_drawn(
                state,
                old(self).depth_test,
                triangle,
                old(self).textures,
                final(self).textures,
            ),
            triangle.is_degenerate() ==> forall|x: int, y: int|
                in_grid(old(self).textures.width(), old(self).textures.height(), x, y)
                    ==> #[trigger] pixel_unchanged(old(self).textures, final(self).textures, x, y),
    {
        let ghost before = self.textures;
        let test = self.depth_test;
        let width = self.size.width;
        let height = self.size.height;
        let low_x = grid_low_exec(
            min3_exec(triangle.a.position.x, triangle.b.position.x, triangle.c.position.x),
            width,
        );
        let high_x = grid_high_exec(
            max3_exec(triangle.a.position.x, triangle.b.position.x, triangle.c.position.x),
            width,
        );
        let low_y = grid_low_exec(
            min3_exec(triangle.a.position.y, triangle.b.position.y, triangle.c.position.y),
            height,
        );
        let high_y = grid_high_exec(
            max3_exec(triangle.a.position.y, triangle.b.position.y, triangle.c.position.y),
            height,
        );
        let mut y = low_y;
        while y < high_y
            invariant
                self.wf(),
                self.size == old(self).size,
                self.depth_test == old(self).depth_test,
                self.primitive == old(self).primitive,
                test == self.depth_test,
                before == old(self).textures,
                width == self.size.width,
                height == self.size.height,
                self.textures.width() == before.width(),
                self.textures.height() == before.height(),
                low_x <= width,
                high_x <= width,
                high_y <= height,
                low_y <= y,
                forall|i: int, j: int|
                    in_grid(width as nat, height as nat, i, j) ==> #[trigger] pixel_in_progress(
                        state,
                        test,
                        triangle,
                        before,
                        self.textures,
                        i,
                        j,
                        low_x as int,
                        high_x as int,
                        low_y as int,
                        low_x as int,
                        y as int,
                    ),
            decreases high_y - y,
        {
            let mut x = low_x;
            while x < high_x
                invariant
                    self.wf(),
                    self.size == old(self).size,
                    self.depth_test == old(self).depth_test,
                    self.primitive == old(self).primitive,
                    test == self.depth_test,
                    before == old(self).textures,
                    width == self.size.width,
                    height == self.size.height,
                    self.textures.width() == before.width(),
                    self.textures.height() == before.height(),
                    low_x <= x,
                    low_x <= width,
                    high_x <= width,
                    low_y <= y < high_y <= height,
                    forall|i: int, j: int|
                        in_grid(width as nat, height as nat, i, j) ==> #[trigger] pixel_in_progress(
                            state,
                            test,
                            triangle,
                            before,
                            self.textures,
                            i,
                            j,
                            low_x as int,
                            high_x as int,
                            low_y as int,
                            x as int,
                            y as int,
                        ),
                decreases high_x - x,
            {
                let ghost earlier = self.textures;
                assert(pixel_in_progress(
                    state,
                    test,
                    triangle,
                    before,
                    earlier,
                    x as int,
                    y as int,
                    low_x as int,
                    high_x as int,
                    low_y as int,
                    x as int,
                    y as int,
                ));
                if let Some(fragment) = fragment_for_pixel(&triangle, x, y) {
                    let depth = fragment.position.z;
                    if let Some(stored) = self.textures.depth_buffer.get(x, y) {
                        if test.passes(depth, stored) {
                            let color = state.fragment_shader(fragment);
                            self.textures.output.put_pixel(x, y, color_to_rgba8(color));
                            self.textures.depth_buffer.put(x, y, depth);
                            assert(fragment_shaded(
                                state,
                                triangle.fragment_at(x as int, y as int),
                                color,
                            ));
                        }
                    }
                }
                assert forall|i: int, j: int|
                    in_grid(width as nat, height as nat, i, j) implies #[trigger] pixel_in_progress(
                    state,
                    test,
                    triangle,
                    before,
                    self.textures,
                    i,
                    j,
                    low_x as int,
                    high_x as int,
                    low_y as int,
                    x as int + 1,
                    y as int,
                ) by {
                    assert(pixel_in_progress(
                        state,
                        test,
                        triangle,
                        before,
                        earlier,
                        i,
                        j,
                        low_x as int,
                        high_x as int,
                        low_y as int,
                        x as int,
                        y as int,
                    ));
                    if (i, j) != (x as int, y as int) {
                        assert(pixel_unchanged(earlier, self.textures, i, j));
                    }
                }
                x = x + 1;
            }
            assert forall|i: int, j: int|
                in_grid(width as nat, height as nat, i, j) implies #[trigger] pixel_in_progress(
                state,
                test,
                triangle,
                before,
                self.textures,
                i,
                j,
                low_x as int,
                high_x as int,
                low_y as int,
                low_x as int,
                y as int + 1,
            ) by {
                assert(pixel_in_progress(
                    state,
                    test,
                    triangle,
                    before,
                    self.textures,
                    i,
                    j,
                    low_x as int,
                    high_x as int,
                    low_y as int,
                    x as int,
                    y as int,
                ));
            }
            y = y + 1;
        }
        assert forall|i: int, j: int|
            in_grid(before.width(), before.height(), i, j) implies #[trigger] pixel_drawn(
            state,
            test,
            triangle,
            before,
            self.textures,
            i,
            j,
        ) by {
            assert(pixel_in_progress(
                state,
                test,
                triangle,
                before,
                self.textures,
                i,
                j,
                low_x as int,
                high_x as int,
                low_y as int,
                low_x as int,
                y as int,
            ));
            if triangle.covers_pixel(i, j) {
                lemma_covered_pixel_in_box(triangle, i, j, width as int, height as int);
            }
        }
        assert forall|i: int, j: int|
            triangle.is_degenerate() && in_grid(
                before.width(),
                before.height(),
                i,
                j,
            ) implies #[trigger] pixel_unchanged(before, self.textures, i, j) by {
            assert(pixel_drawn(state, test, triangle, before, self.textures, i, j));
        }
    }

    /// Draws the triangle that `indices` names among `vertices`. The three
    /// vertices pass the vertex stage in reverse order, which keeps the
    /// triangle clockwise on the screen. Anything but three indices draws
    /// nothing.
    pub fn draw_triangle<S: ShaderState>(
        &mut self,
        indices: &[u16],
        vertices: &[Vertex],
        state: &S,
    )
        requires
            old(self).wf(),
            indices@.len() == 3 ==> forall|i: int|
                0 <= i < 3 ==> (#[trigger] indices@[i]) < vertices@.len(),
        ensures
            final(self).wf(),
            final(self).size == old(self).size,
            final(self).depth_test == old(self).depth_test,
            final(self).primitive == old(self).primitive,
            indices@.len() != 3 ==> final(self).textures == old(self).textures,
            indices@.len() == 3 ==> indexed_triangle_drawn(
                state,
                old(self).depth_test,
                vertices@,
                indices@,
                old(self).textures,
                final(self).textures,
            ),
    {
        if indices.len() != 3 {
            return ;
        }
        let a = apply_vertex_shader(vertices[indices[2] as usize], state);
        let b = apply_vertex_shader(vertices[indices[1] as usize], state);
        let c = apply_vertex_shader(vertices[indices[0] as usize], state);
        let triangle = Triangle { a, b, c };
        self.rasterize_triangle(triangle, state);
        assert(triangle_drawn(
            state,
            old(self).depth_test,
            Triangle { a, b, c },
            old(self).textures,
            self.textures,
        ));
    }

    /// Draws the primitive: every whole group of three indices as one
    /// triangle, in the order of the index buffer.
    pub fn draw_primitives<S: ShaderState>(&mut self, state: &S)
        requires
            old(self).wf(),
            forall|vertices: Vec<Vertex>, indices: Vec<u16>|
                #[trigger] yields_mesh(&old(self).primitive, vertices, indices)
                    ==> indices_in_range(vertices@.len(), indices@),
        ensures
            final(self).wf(),
            final(self).size == old(self).size,
            final(self).depth_test == old(self).depth_test,
            final(self).primitive == old(self).primitive,
            exists|vertices: Vec<Vertex>, indices: Vec<u16>|
                {
                    &&& yields_mesh(&old(self).primitive, vertices, indices)
                    &&& #[trigger] primitives_drawn(
                        state,
                        old(self).depth_test,
                        vertices@,
                        indices@,
                        old(self).textures,
                        final(self).textures,
                    )
                },
    {
        let vertices = self.primitive.get_vertices();
        let indices = self.primitive.get_indices();
        assert(yields_mesh(&old(self).primitive, vertices, indices));
        let count: usize = indices.len() / 3;
        let ghost test = self.depth_test;
        let ghost mut steps: Seq<RenderTextures> = seq![self.textures];
        let mut k: usize = 0;
        while k < count
            invariant
                self.wf(),
                self.size == old(self).size,
                self.depth_test == old(self).depth_test,
                self.primitive == old(self).primitive,
                test == self.depth_test,
                count == indices@.len() / 3,
                indices@.len() <= usize::MAX,
                k <= count,
                forall|i: int| 0 <= i < indices@.len() ==> (#[trigger] indices@[i]) < vertices@.len(),
                steps.len() == k + 1,
                steps.first() == old(self).textures,
                steps.last() == self.textures,
                forall|j: int|
                    0 <= j < k ==> #[trigger] indexed_triangle_drawn(
                        state,
                        test,
                        vertices@,
                        indices@.subrange(3 * j, 3 * j + 3),
                        steps[j],
                        steps[j + 1],
                    ),
            decreases count - k,
        {
            assert(3 * k + 3 <= indices@.len());
            let group = slice_subrange(indices.as_slice(), 3 * k, 3 * k + 3);
            assert forall|i: int| 0 <= i < 3 implies (#[trigger] group@[i]) < vertices@.len() by {
                assert(group@[i] == indices@[3 * k + i]);
            }
            let ghost previous = steps;
            self.draw_triangle(group, vertices.as_slice(), state);
            proof {
                steps = steps.push(self.textures);
                assert forall|j: int| 0 <= j < k + 1 implies #[trigger] indexed_triangle_drawn(
                    state,
                    test,
                    vertices@,
                    indices@.subrange(3 * j, 3 * j + 3),
                    steps[j],
                    steps[j + 1],
                ) by {
                    if j < k {
                        assert(indexed_triangle_drawn(
                            state,
                            test,
                            vertices@,
                            indices@.subrange(3 * j, 3 * j + 3),
                            previous[j],
                            previous[j + 1],
                        ));
                    }
                }
            }
            k = k + 1;
        }
        assert(drawn_in_steps(state, test, vertices@, indices@, steps));
        assert(primitives_drawn(
            state,
            test,
            vertices@,
            indices@,
            old(self).textures,
            self.textures,
        ));
    }
}

} // verus!
