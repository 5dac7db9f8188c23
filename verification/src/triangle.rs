//! A triangle in screen space: which pixels it covers and what it hands to
//! the fragment stage at each of them.
//!
//! Barycentric weights are kept as exact integers. For a sample point `p`
//! and the corners `a`, `b`, `c`, the weight of a corner is twice the signed
//! area of the triangle that `p` spans with the other two corners; the three
//! weights add up to twice the signed area of the triangle itself, and the
//! barycentric coordinate of a corner is its weight over that sum.

use vstd::prelude::*;
use vstd::arithmetic::div_mod::{lemma_div_is_ordered, lemma_div_multiples_vanish};
use crate::math::{Vec2, Vec3, Vec4, UNIT};
use crate::shader::VertexOutput;

verus! {

/// The three corners of a triangle as the vertex stage yielded them.
#[derive(Clone, Copy, Debug, PartialEq, Eq, Structural)]
pub struct Triangle {
    pub a: VertexOutput,
    pub b: VertexOutput,
    pub c: VertexOutput,
}

/// The cross product of the plane vectors `(ux, uy)` and `(vx, vy)`.
pub open spec fn cross(ux: int, uy: int, vx: int, vy: int) -> int {
    ux * vy - uy * vx
}

/// The screen coordinate of the centre of the pixel column or row `index`.
pub open spec fn pixel_center(index: int) -> int {
    index * UNIT + UNIT / 2
}

/// The least of three numbers.
pub open spec fn min3(a: int, b: int, c: int) -> int {
    if a <= b && a <= c {
        a
    } else if b <= c {
        b
    } else {
        c
    }
}

/// The greatest of three numbers.
pub open spec fn max3(a: int, b: int, c: int) -> int {
    if a >= b && a >= c {
        a
    } else if b >= c {
        b
    } else {
        c
    }
}

/// `value` held within `0` and `limit`.
pub open spec fn clamp_to(value: int, limit: int) -> int {
    if value < 0 {
        0
    } else if value > limit {
        limit
    } else {
        value
    }
}

/// The first pixel column (or row) of a bounding box that starts at the
/// screen coordinate `low`: its floor, held within the grid.
pub open spec fn grid_low(low: int, limit: int) -> int {
    clamp_to(low / (UNIT as int), limit)
}

/// One past the last pixel column (or row) of a bounding box that ends at
/// the screen coordinate `high`: its ceiling, held within the grid.
pub open spec fn grid_high(high: int, limit: int) -> int {
    clamp_to((high + UNIT - 1) / (UNIT as int), limit)
}

/// The value that the weights `na`, `nb`, `nc`, which add up to `total`,
/// blend from `fa`, `fb`, `fc`, rounded down.
pub open spec fn blend(na: int, nb: int, nc: int, total: int, fa: int, fb: int, fc: int) -> int {
    (na * fa + nb * fb + nc * fc) / total
}

impl Triangle {
    /// Twice the signed area of the triangle on the screen.
    pub open spec fn area2(&self) -> int {
        cross(
            self.b.position.x - self.a.position.x,
            self.b.position.y - self.a.position.y,
            self.c.position.x - self.a.position.x,
            self.c.position.y - self.a.position.y,
        )
    }

    /// The weight of corner `b` at the point `(px, py)`.
    pub open spec fn weight_b(&self, px: int, py: int) -> int {
        cross(
            px - self.a.position.x,
            py - self.a.position.y,
            self.c.position.x - self.a.position.x,
            self.c.position.y - self.a.position.y,
        )
    }

    /// The weight of corner `c` at the point `(px, py)`.
    pub open spec fn weight_c(&self, px: int, py: int) -> int {
        cross(
            self.b.position.x - self.a.position.x,
            self.b.position.y - self.a.position.y,
            px - self.a.position.x,
            py - self.a.position.y,
        )
    }

    /// The weight of corner `a` at the point `(px, py)`.
    pub open spec fn weight_a(&self, px: int, py: int) -> int {
        self.area2() - self.weight_b(px, py) - self.weight_c(px, py)
    }

    /// The three corners are collinear or coincide.
    pub open spec fn is_degenerate(&self) -> bool {
        self.area2() == 0
    }

    /// All three barycentric coordinates of `(px, py)` exist and none is
    /// negative.
    pub open spec fn covers(&self, px: int, py: int) -> bool {
        ||| {
            &&& self.area2() > 0
            &&& self.weight_a(px, py) >= 0
            &&& self.weight_b(px, py) >= 0
            &&& self.weight_c(px, py) >= 0
        }
        ||| {
            &&& self.area2() < 0
            &&& self.weight_a(px, py) <= 0
            &&& self.weight_b(px, py) <= 0
            &&& self.weight_c(px, py) <= 0
        }
    }

    /// The triangle covers the centre of pixel `(x, y)`.
    pub open spec fn covers_pixel(&self, x: int, y: int) -> bool {
        self.covers(pixel_center(x), pixel_center(y))
    }

    /// The value blended from `fa`, `fb`, `fc` at the centre of pixel
    /// `(x, y)`, with the weights brought to a positive sum.
    pub open spec fn blend_at(&self, x: int, y: int, fa: int, fb: int, fc: int) -> int {
        let px = pixel_center(x);
        let py = pixel_center(y);
        if self.area2() > 0 {
            blend(
                self.weight_a(px, py),
                self.weight_b(px, py),
                self.weight_c(px, py),
                self.area2(),
                fa,
                fb,
                fc,
            )
        } else {
            blend(
                -self.weight_a(px, py),
                -self.weight_b(px, py),
                -self.weight_c(px, py),
                -self.area2(),
                fa,
                fb,
                fc,
            )
        }
    }

    /// What the fragment stage receives at pixel `(x, y)`: position, texture
    /// coordinate and normal, each component blended across the corners.
    pub open spec fn fragment_at(&self, x: int, y: int) -> VertexOutput {
        VertexOutput {
            position: Vec4 {
                x: self.blend_at(
                    x,
                    y,
                    self.a.position.x as int,
                    self.b.position.x as int,
                    self.c.position.x as int,
                ) as i32,
                y: self.blend_at(
                    x,
                    y,
                    self.a.position.y as int,
                    self.b.position.y as int,
                    self.c.position.y as int,
                ) as i32,
                z: self.blend_at(
                    x,
                    y,
                    self.a.position.z as int,
                    self.b.position.z as int,
                    self.c.position.z as int,
                ) as i32,
                w: self.blend_at(
                    x,
                    y,
                    self.a.position.w as int,
                    self.b.position.w as int,
                    self.c.position.w as int,
                ) as i32,
            },
            tex_coord: Vec2 {
                x: self.blend_at(
                    x,
                    y,
                    self.a.tex_coord.x as int,
                    self.b.tex_coord.x as int,
                    self.c.tex_coord.x as int,
                ) as i32,
                y: self.blend_at(
                    x,
                    y,
                    self.a.tex_coord.y as int,
                    self.b.tex_coord.y as int,
                    self.c.tex_coord.y as int,
                ) as i32,
            },
            normal: Vec3 {
                x: self.blend_at(
                    x,
                    y,
                    self.a.normal.x as int,
                    self.b.normal.x as int,
                    self.c.normal.x as int,
                ) as i32,
                y: self.blend_at(
                    x,
                    y,
                    self.a.normal.y as int,
                    self.b.normal.y as int,
                    self.c.normal.y as int,
                ) as i32,
                z: self.blend_at(
                    x,
                    y,
                    self.a.normal.z as int,
                    self.b.normal.z as int,
                    self.c.normal.z as int,
                ) as i32,
            },
        }
    }

    /// The depth of the triangle at pixel `(x, y)`.
    pub open spec fn depth_at(&self, x: int, y: int) -> i32 {
        self.fragment_at(x, y).position.z
    }
}

/// A value between two bounds, scaled by a weight that is not negative,
/// lies between the scaled bounds.
pub proof fn lemma_scaled_bounds(n: int, f: int, low: int, high: int)
    requires
        n >= 0,
        low <= f <= high,
    ensures
        n * low <= n * f <= n * high,
{
    assert(n * low <= n * f) by (nonlinear_arith)
        requires
            n >= 0,
            low <= f,
    ;
    assert(n * f <= n * high) by (nonlinear_arith)
        requires
            n >= 0,
            f <= high,
    ;
}

/// A blend lies between the least and the greatest of the blended values.
pub proof fn lemma_blend_bounds(
    na: int,
    nb: int,
    nc: int,
    total: int,
    fa: int,
    fb: int,
    fc: int,
    low: int,
    high: int,
)
    requires
        na >= 0,
        nb >= 0,
        nc >= 0,
        total == na + nb + nc,
        total > 0,
        low <= fa <= high,
        low <= fb <= high,
        low <= fc <= high,
    ensures
        low <= blend(na, nb, nc, total, fa, fb, fc) <= high,
        total * low <= na * fa + nb * fb + nc * fc <= total * high,
{
    let sum = na * fa + nb * fb + nc * fc;
    lemma_scaled_bounds(na, fa, low, high);
    lemma_scaled_bounds(nb, fb, low, high);
    lemma_scaled_bounds(nc, fc, low, high);
    assert(total * low == na * low + nb * low + nc * low) by (nonlinear_arith)
        requires
            total == na + nb + nc,
    ;
    assert(total * high == na * high + nb * high + nc * high) by (nonlinear_arith)
        requires
            total == na + nb + nc,
    ;
    lemma_div_is_ordered(total * low, sum, total);
    lemma_div_is_ordered(sum, total * high, total);
    lemma_div_multiples_vanish(low, total);
    lemma_div_multiples_vanish(high, total);
    assert(total * low == low * total) by (nonlinear_arith);
    assert(total * high == high * total) by (nonlinear_arith);
}

/// The weights reproduce the sample point: the point times the doubled
/// area is the sum of the corners, each times its weight.
pub proof fn lemma_weights_reproduce_point(t: Triangle, px: int, py: int)
    ensures
        t.area2() * px == t.weight_a(px, py) * t.a.position.x + t.weight_b(px, py)
            * t.b.position.x + t.weight_c(px, py) * t.c.position.x,
        t.area2() * py == t.weight_a(px, py) * t.a.position.y + t.weight_b(px, py)
            * t.b.position.y + t.weight_c(px, py) * t.c.position.y,
{
    let ax = t.a.position.x as int;
    let ay = t.a.position.y as int;
    let ux = t.b.position.x - ax;
    let uy = t.b.position.y - ay;
    let vx = t.c.position.x - ax;
    let vy = t.c.position.y - ay;
    let qx = px - ax;
    let qy = py - ay;
    let d = ux * vy - uy * vx;
    let wb = qx * vy - qy * vx;
    let wc = ux * qy - uy * qx;
    assert(d * qx == wb * ux + wc * vx) by (nonlinear_arith)
        requires
            d == ux * vy - uy * vx,
            wb == qx * vy - qy * vx,
            wc == ux * qy - uy * qx,
    ;
    assert(d * qy == wb * uy + wc * vy) by (nonlinear_arith)
        requires
            d == ux * vy - uy * vx,
            wb == qx * vy - qy * vx,
            wc == ux * qy - uy * qx,
    ;
    assert(d * px == (d - wb - wc) * ax + wb * (ux + ax) + wc * (vx + ax)) by (nonlinear_arith)
        requires
            d * qx == wb * ux + wc * vx,
            qx == px - ax,
    ;
    assert(d * py == (d - wb - wc) * ay + wb * (uy + ay) + wc * (vy + ay)) by (nonlinear_arith)
        requires
            d * qy == wb * uy + wc * vy,
            qy == py - ay,
    ;
}

/// A covered point lies within the bounding box of the corners.
pub proof fn lemma_covered_point_in_bounds(t: Triangle, px: int, py: int)
    requires
        t.covers(px, py),
    ensures
        min3(t.a.position.x as int, t.b.position.x as int, t.c.position.x as int) <= px <= max3(
            t.a.position.x as int,
            t.b.position.x as int,
            t.c.position.x as int,
        ),
        min3(t.a.position.y as int, t.b.position.y as int, t.c.position.y as int) <= py <= max3(
            t.a.position.y as int,
            t.b.position.y as int,
            t.c.position.y as int,
        ),
{
    lemma_weights_reproduce_point(t, px, py);
    let d = t.area2();
    let wa = t.weight_a(px, py);
    let wb = t.weight_b(px, py);
    let wc = t.weight_c(px, py);
    let (na, nb, nc, total) = if d > 0 {
        (wa, wb, wc, d)
    } else {
        (-wa, -wb, -wc, -d)
    };
    let ax = t.a.position.x as int;
    let bx = t.b.position.x as int;
    let cx = t.c.position.x as int;
    let ay = t.a.position.y as int;
    let by = t.b.position.y as int;
    let cy = t.c.position.y as int;
    assert(total * px == na * ax + nb * bx + nc * cx) by (nonlinear_arith)
        requires
            d * px == wa * ax + wb * bx + wc * cx,
            (na == wa && nb == wb && nc == wc && total == d) || (na == -wa && nb == -wb && nc
                == -wc && total == -d),
    ;
    assert(total * py == na * ay + nb * by + nc * cy) by (nonlinear_arith)
        requires
            d * py == wa * ay + wb * by + wc * cy,
            (na == wa && nb == wb && nc == wc && total == d) || (na == -wa && nb == -wb && nc
                == -wc && total == -d),
    ;
    lemma_blend_bounds(na, nb, nc, total, ax, bx, cx, min3(ax, bx, cx), max3(ax, bx, cx));
    lemma_blend_bounds(na, nb, nc, total, ay, by, cy, min3(ay, by, cy), max3(ay, by, cy));
    let lx = min3(ax, bx, cx);
    let hx = max3(ax, bx, cx);
    let ly = min3(ay, by, cy);
    let hy = max3(ay, by, cy);
    assert(lx <= px <= hx) by (nonlinear_arith)
        requires
            total > 0,
            total * lx <= total * px <= total * hx,
    ;
    assert(ly <= py <= hy) by (nonlinear_arith)
        requires
            total > 0,
            total * ly <= total * py <= total * hy,
    ;
}

/// A covered pixel lies within the pixel bounding box of the corners.
pub proof fn lemma_covered_pixel_in_box(t: Triangle, x: int, y: int, width: int, height: int)
    requires
        t.covers_pixel(x, y),
        0 <= x < width,
        0 <= y < height,
    ensures
        grid_low(min3(t.a.position.x as int, t.b.position.x as int, t.c.position.x as int), width)
            <= x < grid_high(
            max3(t.a.position.x as int, t.b.position.x as int, t.c.position.x as int),
            width,
        ),
        grid_low(min3(t.a.position.y as int, t.b.position.y as int, t.c.position.y as int), height)
            <= y < grid_high(
            max3(t.a.position.y as int, t.b.position.y as int, t.c.position.y as int),
            height,
        ),
{
    lemma_covered_point_in_bounds(t, pixel_center(x), pixel_center(y));
    lemma_center_in_box(
        x,
        min3(t.a.position.x as int, t.b.position.x as int, t.c.position.x as int),
        max3(t.a.position.x as int, t.b.position.x as int, t.c.position.x as int),
        width,
    );
    lemma_center_in_box(
        y,
        min3(t.a.position.y as int, t.b.position.y as int, t.c.position.y as int),
        max3(t.a.position.y as int, t.b.position.y as int, t.c.position.y as int),
        height,
    );
}

/// A pixel whose centre lies between `low` and `high` lies between the
/// floor of `low` and the ceiling of `high`.
pub proof fn lemma_center_in_box(index: int, low: int, high: int, limit: int)
    requires
        0 <= index < limit,
        low <= pixel_center(index) <= high,
    ensures
        grid_low(low, limit) <= index < grid_high(high, limit),
{
    let unit = UNIT as int;
    let center = pixel_center(index);
    lemma_div_is_ordered(low, center, unit);
    lemma_div_is_ordered(center + unit - 1, high + unit - 1, unit);
    assert(center / unit == index) by {
        vstd::arithmetic::div_mod::lemma_fundamental_div_mod_converse(center, unit, index, unit / 2);
    }
    assert((center + unit - 1) / unit == index + 1) by {
        vstd::arithmetic::div_mod::lemma_fundamental_div_mod_converse(
            center + unit - 1,
            unit,
            index + 1,
            unit / 2 - 1,
        );
    }
}

/// The triangle with the screen corners `a`, `b`, `c`, at depth zero and
/// with no other attributes.
pub open spec fn plane_triangle(a: (i32, i32), b: (i32, i32), c: (i32, i32)) -> Triangle {
    Triangle {
        a: plane_vertex(a),
        b: plane_vertex(b),
        c: plane_vertex(c),
    }
}

/// The vertex at the screen point `p`, at depth zero and with no other
/// attributes.
pub open spec fn plane_vertex(p: (i32, i32)) -> VertexOutput {
    VertexOutput {
        position: Vec4 { x: p.0, y: p.1, z: 0, w: 0 },
        tex_coord: Vec2 { x: 0, y: 0 },
        normal: Vec3 { x: 0, y: 0, z: 0 },
    }
}

/// The two triangles of a quad tile its rectangle.
///
/// The corners of the rectangle are top-left `(x0, y0)`, top-right
/// `(x1, y0)`, bottom-left `(x0, y1)` and bottom-right `(x1, y1)`, with `y`
/// growing downwards as on the screen. The index buffer of a quad names the
/// triangles bottom-left, top-left, bottom-right and top-left, top-right,
/// bottom-right. Both run clockwise: their doubled areas are positive, and
/// each is the area of the rectangle. A point lies in the rectangle exactly
/// if one of the triangles covers it, and both cover it only on the diagonal
/// that they share.
pub proof fn lemma_quad_triangles_tile_rectangle(
    x0: i32,
    y0: i32,
    x1: i32,
    y1: i32,
    px: int,
    py: int,
)
    requires
        x0 < x1,
        y0 < y1,
    ensures
        plane_triangle((x0, y1), (x0, y0), (x1, y1)).area2() == (x1 - x0) * (y1 - y0),
        plane_triangle((x0, y0), (x1, y0), (x1, y1)).area2() == (x1 - x0) * (y1 - y0),
        (x1 - x0) * (y1 - y0) > 0,
        (x0 <= px <= x1 && y0 <= py <= y1) <==> (plane_triangle(
            (x0, y1),
            (x0, y0),
            (x1, y1),
        ).covers(px, py) || plane_triangle((x0, y0), (x1, y0), (x1, y1)).covers(px, py)),
        plane_triangle((x0, y1), (x0, y0), (x1, y1)).covers(px, py) && plane_triangle(
            (x0, y0),
            (x1, y0),
            (x1, y1),
        ).covers(px, py) ==> (px - x0) * (y1 - y0) == (py - y0) * (x1 - x0),
{
    let w = x1 - x0;
    let h = y1 - y0;
    let dx = px - x0;
    let dy = py - y0;
    let lower = plane_triangle((x0, y1), (x0, y0), (x1, y1));
    let upper = plane_triangle((x0, y0), (x1, y0), (x1, y1));
    assert(w * h > 0) by (nonlinear_arith)
        requires
            w > 0,
            h > 0,
    ;
    // The lower triangle: corners bottom-left, top-left, bottom-right.
    assert(lower.area2() == w * h) by (nonlinear_arith)
        requires
            lower.area2() == (x0 - x0) * (y1 - y1) - (y0 - y1) * (x1 - x0),
            w == x1 - x0,
            h == y1 - y0,
    ;
    assert(lower.weight_b(px, py) == (h - dy) * w) by (nonlinear_arith)
        requires
            lower.weight_b(px, py) == (px - x0) * (y1 - y1) - (py - y1) * (x1 - x0),
            w == x1 - x0,
            h == y1 - y0,
            dy == py - y0,
    ;
    assert(lower.weight_c(px, py) == dx * h) by (nonlinear_arith)
        requires
            lower.weight_c(px, py) == (x0 - x0) * (py - y1) - (y0 - y1) * (px - x0),
            h == y1 - y0,
            dx == px - x0,
    ;
    // The upper triangle: corners top-left, top-right, bottom-right.
    assert(upper.area2() == w * h) by (nonlinear_arith)
        requires
            upper.area2() == (x1 - x0) * (y1 - y0) - (y0 - y0) * (x1 - x0),
            w == x1 - x0,
            h == y1 - y0,
    ;
    assert(upper.weight_b(px, py) == dx * h - dy * w) by (nonlinear_arith)
        requires
            upper.weight_b(px, py) == (px - x0) * (y1 - y0) - (py - y0) * (x1 - x0),
            w == x1 - x0,
            h == y1 - y0,
            dx == px - x0,
            dy == py - y0,
    ;
    assert(upper.weight_c(px, py) == w * dy) by (nonlinear_arith)
        requires
            upper.weight_c(px, py) == (x1 - x0) * (py - y0) - (y0 - y0) * (px - x0),
            w == x1 - x0,
            dy == py - y0,
    ;
    // In the lower triangle the weights are: of the bottom-left corner
    // dy * w - dx * h, of the top-left corner (h - dy) * w, of the
    // bottom-right corner dx * h. In the upper triangle: of the top-left
    // corner (w - dx) * h, of the top-right corner dx * h - dy * w, of the
    // bottom-right corner dy * w.
    let lb = lower.weight_b(px, py);
    let lc = lower.weight_c(px, py);
    let la = lower.weight_a(px, py);
    assert((h - dy) * w == h * w - dy * w) by (nonlinear_arith);
    assert((w - dx) * h == w * h - dx * h) by (nonlinear_arith);
    assert(h * w == w * h) by (nonlinear_arith);
    assert(w * dy == dy * w) by (nonlinear_arith);
    assert(la == dy * w - dx * h);
    let ub = upper.weight_b(px, py);
    let uc = upper.weight_c(px, py);
    let ua = upper.weight_a(px, py);
    assert(ua == (w - dx) * h);
    lemma_sign_of_product(h - dy, w);
    lemma_sign_of_product(dx, h);
    lemma_sign_of_product(w - dx, h);
    lemma_sign_of_product(dy, w);
}

/// A product with a positive factor has the sign of the other factor.
pub proof fn lemma_sign_of_product(a: int, positive: int)
    requires
        positive > 0,
    ensures
        (a * positive >= 0) <==> a >= 0,
        (positive * a >= 0) <==> a >= 0,
{
    assert((a * positive >= 0) <==> a >= 0) by (nonlinear_arith)
        requires
            positive > 0,
    ;
    assert(positive * a == a * positive) by (nonlinear_arith);
}

} // verus!
