//! Fixed-point scalars and small vectors.

use vstd::prelude::*;
use vstd::arithmetic::div_mod::{lemma_fundamental_div_mod, lemma_fundamental_div_mod_converse};

verus! {

/// The fixed-point scale: a stored value `v` stands for the number `v / UNIT`.
pub const UNIT: i32 = 1000;

/// The largest whole number whose fixed-point form fits in an `i32`.
pub const MAX_WHOLE: i32 = 2_147_483;

/// A 2-component fixed-point vector.
#[derive(Clone, Copy, Debug, PartialEq, Eq, Structural)]
pub struct Vec2 {
    pub x: i32,
    pub y: i32,
}

/// A 3-component fixed-point vector, used alike for positions, sizes and
/// rotations (in degrees). +X is east, +Y is up, +Z is south.
#[derive(Clone, Copy, Debug, PartialEq, Eq, Structural)]
pub struct Vec3 {
    pub x: i32,
    pub y: i32,
    pub z: i32,
}

/// A 4-component fixed-point vector.
#[derive(Clone, Copy, Debug, PartialEq, Eq, Structural)]
pub struct Vec4 {
    pub x: i32,
    pub y: i32,
    pub z: i32,
    pub w: i32,
}

/// Whether `v` is the value of an `i32`.
pub open spec fn fits_i32(v: int) -> bool {
    i32::MIN <= v <= i32::MAX
}

/// Floor division by a positive divisor.
pub fn floor_div(n: i128, d: i128) -> (q: i128)
    requires
        d > 0,
    ensures
        q == n / d,
{
    if n >= 0 {
        n / d
    } else {
        let m: i128 = -(n + 1);
        let t: i128 = m / d;
        proof {
            // m = t * d + r with 0 <= r < d, so n = (-t - 1) * d + (d - 1 - r).
            let r = m as int % d as int;
            lemma_fundamental_div_mod(m as int, d as int);
            assert(m as int == d * t + r);
            assert(0 <= r < d) by {
                vstd::arithmetic::div_mod::lemma_mod_bound(m as int, d as int);
            }
            assert(0 <= t <= m) by {
                vstd::arithmetic::div_mod::lemma_div_pos_is_pos(m as int, d as int);
                vstd::arithmetic::div_mod::lemma_div_is_ordered_by_denominator(m as int, 1, d as int);
                vstd::arithmetic::div_mod::lemma_div_basics(m as int);
            }
            let q = -t - 1;
            let r2 = d - 1 - r;
            assert(n as int == q * d + r2) by (nonlinear_arith)
                requires
                    m as int == d * t + r,
                    m == -(n + 1),
                    q == -t - 1,
                    r2 == d - 1 - r,
            ;
            lemma_fundamental_div_mod_converse(n as int, d as int, q, r2);
        }
        -t - 1
    }
}

/// Whether `root` is the square root of `n`, rounded down.
pub open spec fn is_isqrt(n: int, root: int) -> bool {
    0 <= root && root * root <= n < (root + 1) * (root + 1)
}

/// The square root of `n`, rounded down.
pub open spec fn isqrt_spec(n: int) -> int {
    choose|root: int| is_isqrt(n, root)
}

/// A number has one rounded-down square root at most.
pub proof fn lemma_isqrt_unique(n: int, r1: int, r2: int)
    requires
        is_isqrt(n, r1),
        is_isqrt(n, r2),
    ensures
        r1 == r2,
{
    if r1 < r2 {
        lemma_square_monotonic(r1 + 1, r2);
    } else if r2 < r1 {
        lemma_square_monotonic(r2 + 1, r1);
    }
}

/// Squaring keeps the order of numbers that are not negative.
pub proof fn lemma_square_monotonic(a: int, b: int)
    requires
        0 <= a <= b,
    ensures
        a * a <= b * b,
{
    assert(a * a <= b * b) by (nonlinear_arith)
        requires
            0 <= a <= b,
    ;
}

/// Computes the square root of `n`, rounded down.
pub fn isqrt(n: u128) -> (root: u128)
    ensures
        is_isqrt(n as int, root as int),
        root == isqrt_spec(n as int),
        root <= 0xffff_ffff_ffff_ffff,
{
    let mut low: u128 = 0;
    let mut high: u128 = 0x1_0000_0000_0000_0000;
    proof {
        assert(0x1_0000_0000_0000_0000int * 0x1_0000_0000_0000_0000int
            == 0x1_0000_0000_0000_0000_0000_0000_0000_0000int) by (nonlinear_arith);
    }
    while high - low > 1
        invariant
            low < high <= 0x1_0000_0000_0000_0000,
            low * low <= n < high * high,
        decreases high - low,
    {
        let mid: u128 = low + (high - low) / 2;
        proof {
            lemma_square_monotonic(mid as int, 0xffff_ffff_ffff_ffff);
            assert(0xffff_ffff_ffff_ffffint * 0xffff_ffff_ffff_ffffint
                < 0x1_0000_0000_0000_0000_0000_0000_0000_0000int) by (nonlinear_arith);
        }
        if mid * mid <= n {
            low = mid;
        } else {
            high = mid;
        }
    }
    proof {
        let witness = low as int;
        assert(is_isqrt(n as int, witness));
        lemma_isqrt_unique(n as int, witness, isqrt_spec(n as int));
    }
    low
}

/// A part of a whole as a fixed-point number, rounded towards zero: `part`
/// times `UNIT` over `whole`, and zero where `whole` is zero.
pub open spec fn unit_fraction(part: int, whole: int) -> int {
    if whole == 0 {
        0
    } else if part >= 0 {
        part * UNIT / whole
    } else {
        -((-part) * UNIT / whole)
    }
}

/// The vector of length one in the direction of `(cx, cy, cz)`: each
/// component over the length, rounded towards zero. The length is itself
/// rounded down, and the vector without a length has the zero vector for it.
pub open spec fn unit_vector(cx: int, cy: int, cz: int) -> Vec3 {
    let length = isqrt_spec(cx * cx + cy * cy + cz * cz);
    Vec3 {
        x: unit_fraction(cx, length) as i32,
        y: unit_fraction(cy, length) as i32,
        z: unit_fraction(cz, length) as i32,
    }
}

/// A vector along one axis has the unit vector of that axis, or its
/// opposite, for its direction.
pub proof fn lemma_unit_vector_along_axis(c: int)
    requires
        c != 0,
    ensures
        unit_vector(c, 0, 0) == (Vec3 { x: if c > 0 { UNIT } else { -UNIT as i32 }, y: 0, z: 0 }),
        unit_vector(0, c, 0) == (Vec3 { x: 0, y: if c > 0 { UNIT } else { -UNIT as i32 }, z: 0 }),
        unit_vector(0, 0, c) == (Vec3 { x: 0, y: 0, z: if c > 0 { UNIT } else { -UNIT as i32 } }),
{
    let length = if c > 0 {
        c
    } else {
        -c
    };
    assert(length * length == c * c) by (nonlinear_arith)
        requires
            length == c || length == -c,
    ;
    assert(c * c < (length + 1) * (length + 1)) by (nonlinear_arith)
        requires
            length * length == c * c,
            length >= 0,
    ;
    assert(is_isqrt(c * c, length));
    lemma_isqrt_unique(c * c, length, isqrt_spec(c * c));
    assert(c * c + 0 * 0 + 0 * 0 == c * c);
    assert(0 * 0 + c * c + 0 * 0 == c * c);
    assert(0 * 0 + 0 * 0 + c * c == c * c);
    vstd::arithmetic::div_mod::lemma_div_multiples_vanish(UNIT as int, length);
    assert(length * UNIT == UNIT * length) by (nonlinear_arith);
    assert(0 * UNIT / length == 0) by {
        vstd::arithmetic::div_mod::lemma_div_basics(length);
    }
    assert(unit_fraction(0, length) == 0);
    assert(unit_fraction(c, length) == if c > 0 {
        UNIT as int
    } else {
        -UNIT
    });
}

/// The cross product of `(ux, uy, uz)` and `(vx, vy, vz)`.
pub open spec fn cross3(u: (int, int, int), v: (int, int, int)) -> (int, int, int) {
    (u.1 * v.2 - u.2 * v.1, u.2 * v.0 - u.0 * v.2, u.0 * v.1 - u.1 * v.0)
}

proof fn lemma_square_bound(c: int, bound: int)
    requires
        -bound <= c <= bound,
    ensures
        0 <= c * c <= bound * bound,
{
    assert(0 <= c * c <= bound * bound) by (nonlinear_arith)
        requires
            -bound <= c <= bound,
    ;
}

/// A component is no longer than the whole vector.
proof fn lemma_component_within_length(c: int, rest: int, length: int)
    requires
        rest >= 0,
        is_isqrt(c * c + rest, length),
    ensures
        -length <= c <= length,
{
    if c > length {
        lemma_square_monotonic(length + 1, c);
    } else if -c > length {
        lemma_square_monotonic(length + 1, -c);
        assert((-c) * (-c) == c * c) by (nonlinear_arith);
    }
}

fn magnitude(c: i128) -> (m: u128)
    requires
        -0x8000_0000_0000_0000 <= c <= 0x8000_0000_0000_0000,
    ensures
        m == if c >= 0 {
            c as int
        } else {
            -c as int
        },
{
    if c >= 0 {
        c as u128
    } else {
        (-c) as u128
    }
}

fn unit_fraction_exec(part: i128, whole: u128) -> (r: i32)
    requires
        -(whole as int) <= part <= whole,
        whole <= 0xffff_ffff_ffff_ffff,
    ensures
        r == unit_fraction(part as int, whole as int),
        -UNIT <= r <= UNIT,
{
    if whole == 0 {
        return 0;
    }
    let m: u128 = if part >= 0 {
        part as u128
    } else {
        (-part) as u128
    };
    let q: u128 = m * 1000 / whole;
    proof {
        vstd::arithmetic::div_mod::lemma_div_is_ordered(m * 1000, whole * 1000, whole as int);
        vstd::arithmetic::div_mod::lemma_div_multiples_vanish(1000, whole as int);
        assert(1000 * whole == whole * 1000) by (nonlinear_arith);
        vstd::arithmetic::div_mod::lemma_div_pos_is_pos(m * 1000, whole as int);
    }
    if part >= 0 {
        q as i32
    } else {
        -(q as i32)
    }
}

/// Computes the vector of length one in the direction of `(cx, cy, cz)`.
pub fn normalize(cx: i128, cy: i128, cz: i128) -> (unit: Vec3)
    requires
        -0x8000_0000_0000_0000 <= cx <= 0x8000_0000_0000_0000,
        -0x8000_0000_0000_0000 <= cy <= 0x8000_0000_0000_0000,
        -0x8000_0000_0000_0000 <= cz <= 0x8000_0000_0000_0000,
    ensures
        unit == unit_vector(cx as int, cy as int, cz as int),
{
    let mx = magnitude(cx);
    let my = magnitude(cy);
    let mz = magnitude(cz);
    proof {
        lemma_square_bound(cx as int, 0x8000_0000_0000_0000);
        lemma_square_bound(cy as int, 0x8000_0000_0000_0000);
        lemma_square_bound(cz as int, 0x8000_0000_0000_0000);
        assert(0x8000_0000_0000_0000int * 0x8000_0000_0000_0000int
            == 0x4000_0000_0000_0000_0000_0000_0000_0000int) by (nonlinear_arith);
        assert(mx * mx == cx * cx) by (nonlinear_arith)
            requires
                mx == cx || mx == -cx,
        ;
        assert(my * my == cy * cy) by (nonlinear_arith)
            requires
                my == cy || my == -cy,
        ;
        assert(mz * mz == cz * cz) by (nonlinear_arith)
            requires
                mz == cz || mz == -cz,
        ;
    }
    let sum: u128 = mx * mx + my * my + mz * mz;
    let length = isqrt(sum);
    proof {
        lemma_component_within_length(cx as int, cy * cy + cz * cz, length as int);
        lemma_component_within_length(cy as int, cx * cx + cz * cz, length as int);
        lemma_component_within_length(cz as int, cx * cx + cy * cy, length as int);
    }
    Vec3 {
        x: unit_fraction_exec(cx, length),
        y: unit_fraction_exec(cy, length),
        z: unit_fraction_exec(cz, length),
    }
}

impl Vec2 {
    pub fn new(x: i32, y: i32) -> (v: Vec2)
        ensures
            v == (Vec2 { x, y }),
    {
        Vec2 { x, y }
    }
}

impl Vec3 {
    pub open spec fn zero() -> Vec3 {
        Vec3 { x: 0, y: 0, z: 0 }
    }

    /// The vector of the whole numbers `x`, `y`, `z`.
    pub open spec fn whole(x: int, y: int, z: int) -> Vec3
        recommends
            fits_i32(x * UNIT),
            fits_i32(y * UNIT),
            fits_i32(z * UNIT),
    {
        Vec3 { x: (x * UNIT) as i32, y: (y * UNIT) as i32, z: (z * UNIT) as i32 }
    }

    pub fn new(x: i32, y: i32, z: i32) -> (v: Vec3)
        ensures
            v == (Vec3 { x, y, z }),
    {
        Vec3 { x, y, z }
    }

    /// The vector of the whole numbers `x`, `y`, `z`.
    pub fn from_whole(x: i32, y: i32, z: i32) -> (v: Vec3)
        requires
            -MAX_WHOLE <= x <= MAX_WHOLE,
            -MAX_WHOLE <= y <= MAX_WHOLE,
            -MAX_WHOLE <= z <= MAX_WHOLE,
        ensures
            v == Vec3::whole(x as int, y as int, z as int),
    {
        Vec3 { x: x * UNIT, y: y * UNIT, z: z * UNIT }
    }

    /// Each component times a whole factor of its own.
    pub open spec fn scaled(self, fx: int, fy: int, fz: int) -> Vec3
        recommends
            fits_i32(self.x * fx),
            fits_i32(self.y * fy),
            fits_i32(self.z * fz),
    {
        Vec3 { x: (self.x * fx) as i32, y: (self.y * fy) as i32, z: (self.z * fz) as i32 }
    }

    /// Multiplies each component by a whole factor of its own.
    pub fn scale(self, fx: i32, fy: i32, fz: i32) -> (v: Vec3)
        requires
            fits_i32(self.x * fx),
            fits_i32(self.y * fy),
            fits_i32(self.z * fz),
        ensures
            v == self.scaled(fx as int, fy as int, fz as int),
    {
        Vec3 { x: self.x * fx, y: self.y * fy, z: self.z * fz }
    }

    /// The vector whose three components all equal `v`.
    pub fn splat(v: i32) -> (r: Vec3)
        ensures
            r == (Vec3 { x: v, y: v, z: v }),
    {
        Vec3 { x: v, y: v, z: v }
    }

    /// Appends `w` as the fourth component.
    pub fn extend(self, w: i32) -> (r: Vec4)
        ensures
            r == (Vec4 { x: self.x, y: self.y, z: self.z, w }),
    {
        Vec4 { x: self.x, y: self.y, z: self.z, w }
    }
}

impl Vec4 {
    pub fn new(x: i32, y: i32, z: i32, w: i32) -> (v: Vec4)
        ensures
            v == (Vec4 { x, y, z, w }),
    {
        Vec4 { x, y, z, w }
    }
}

} // verus!
