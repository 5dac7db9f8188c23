//! Drawable geometry: vertices, the flat quad, and the capability shared by
//! every primitive that yields a mesh.

use vstd::prelude::*;
use crate::math::{cross3, normalize, unit_vector, Vec2, Vec3, UNIT};
use crate::part::Part;
use crate::uv::{CubeFaceUvs, FaceUv, FaceUvPoint};

verus! {

/// One corner of a primitive's face.
#[derive(Clone, Copy, Debug, PartialEq, Eq, Structural)]
pub struct Vertex {
    pub position: Vec3,
    pub uv: Vec2,
    pub normal: Vec3,
}

impl Vertex {
    pub fn new(position: Vec3, uv: Vec2, normal: Vec3) -> (v: Vertex)
        ensures
            v == (Vertex { position, uv, normal }),
    {
        Vertex { position, uv, normal }
    }
}

/// Whether every index names one of the first `vertex_count` vertices.
pub open spec fn indices_in_range(vertex_count: nat, indices: Seq<u16>) -> bool {
    forall|i: int| 0 <= i < indices.len() ==> (#[trigger] indices[i]) < vertex_count
}

/// Whether `indices` groups into whole triangles that only name vertices
/// among the first `vertex_count`.
pub open spec fn mesh_valid(vertex_count: nat, indices: Seq<u16>) -> bool {
    &&& indices.len() % 3 == 0
    &&& indices_in_range(vertex_count, indices)
}

/// The index buffer of every quad: the triangle bottom-left, top-left,
/// bottom-right, and the triangle top-left, top-right, bottom-right.
pub open spec fn quad_indices() -> Seq<u16> {
    seq![2u16, 0u16, 3u16, 0u16, 1u16, 3u16]
}

/// A primitive that yields a vertex buffer and a triangle index buffer.
pub trait PartPrimitive {
    fn get_vertices(&self) -> Vec<Vertex>;

    fn get_indices(&self) -> Vec<u16>;
}

/// Whether `primitive` may yield `vertices` and `indices` as its buffers.
pub open spec fn yields_mesh<P: PartPrimitive>(
    primitive: &P,
    vertices: Vec<Vertex>,
    indices: Vec<u16>,
) -> bool {
    &&& call_ensures(P::get_vertices, (primitive,), vertices)
    &&& call_ensures(P::get_indices, (primitive,), indices)
}

/// The largest coordinate of a corner from which a normal is computed.
pub const MAX_CORNER: i32 = 0x3fff_ffff;

/// Whether the coordinates of `corner` are small enough for a normal to be
/// computed from it.
pub open spec fn corner_in_range(corner: Vec3) -> bool {
    &&& -MAX_CORNER <= corner.x <= MAX_CORNER
    &&& -MAX_CORNER <= corner.y <= MAX_CORNER
    &&& -MAX_CORNER <= corner.z <= MAX_CORNER
}

/// The normal of a quad: the cross product of the edges from the top-left
/// corner to the top-right and to the bottom-left one, brought to length one.
pub open spec fn quad_normal(top_left: Vec3, top_right: Vec3, bottom_left: Vec3) -> Vec3 {
    let c = cross3(
        (top_right.x - top_left.x, top_right.y - top_left.y, top_right.z - top_left.z),
        (bottom_left.x - top_left.x, bottom_left.y - top_left.y, bottom_left.z - top_left.z),
    );
    unit_vector(c.0, c.1, c.2)
}

proof fn lemma_edge_products(a: int, b: int, c: int, d: int)
    requires
        -0x7fff_fffe <= a <= 0x7fff_fffe,
        -0x7fff_fffe <= b <= 0x7fff_fffe,
        -0x7fff_fffe <= c <= 0x7fff_fffe,
        -0x7fff_fffe <= d <= 0x7fff_fffe,
    ensures
        -0x4000_0000_0000_0000 <= a * b <= 0x4000_0000_0000_0000,
        -0x4000_0000_0000_0000 <= c * d <= 0x4000_0000_0000_0000,
        -0x8000_0000_0000_0000 <= a * b - c * d <= 0x8000_0000_0000_0000,
{
    assert(-0x4000_0000_0000_0000 <= a * b <= 0x4000_0000_0000_0000) by (nonlinear_arith)
        requires
            -0x7fff_fffe <= a <= 0x7fff_fffe,
            -0x7fff_fffe <= b <= 0x7fff_fffe,
    ;
    assert(-0x4000_0000_0000_0000 <= c * d <= 0x4000_0000_0000_0000) by (nonlinear_arith)
        requires
            -0x7fff_fffe <= c <= 0x7fff_fffe,
            -0x7fff_fffe <= d <= 0x7fff_fffe,
    ;
}

/// A flat quad given by its four corners.
pub struct Quad {
    top_left: Vertex,
    top_right: Vertex,
    bottom_left: Vertex,
    bottom_right: Vertex,
}

impl Quad {
    pub closed spec fn top_left(&self) -> Vertex {
        self.top_left
    }

    pub closed spec fn top_right(&self) -> Vertex {
        self.top_right
    }

    pub closed spec fn bottom_left(&self) -> Vertex {
        self.bottom_left
    }

    pub closed spec fn bottom_right(&self) -> Vertex {
        self.bottom_right
    }

    /// The vertex buffer: top-left, top-right, bottom-left, bottom-right.
    pub open spec fn vertices(&self) -> Seq<Vertex> {
        seq![self.top_left(), self.top_right(), self.bottom_left(), self.bottom_right()]
    }

    /// The quad with the given four vertices.
    pub closed spec fn of(
        top_left: Vertex,
        top_right: Vertex,
        bottom_left: Vertex,
        bottom_right: Vertex,
    ) -> Quad {
        Quad { top_left, top_right, bottom_left, bottom_right }
    }

    /// The quad with the given corner positions, the texture rectangle
    /// between `top_left_uv` and `bottom_right_uv` mixed onto its corners,
    /// and one normal for all four vertices.
    pub open spec fn textured(
        top_left: Vec3,
        top_right: Vec3,
        bottom_left: Vec3,
        bottom_right: Vec3,
        top_left_uv: Vec2,
        bottom_right_uv: Vec2,
        normal: Vec3,
    ) -> Quad {
        Quad::of(
            Vertex { position: top_left, uv: top_left_uv, normal },
            Vertex {
                position: top_right,
                uv: Vec2 { x: bottom_right_uv.x, y: top_left_uv.y },
                normal,
            },
            Vertex {
                position: bottom_left,
                uv: Vec2 { x: top_left_uv.x, y: bottom_right_uv.y },
                normal,
            },
            Vertex { position: bottom_right, uv: bottom_right_uv, normal },
        )
    }

    /// A quad is made of its four vertices and of nothing else.
    pub proof fn lemma_of(
        top_left: Vertex,
        top_right: Vertex,
        bottom_left: Vertex,
        bottom_right: Vertex,
    )
        ensures
            Quad::of(top_left, top_right, bottom_left, bottom_right).top_left() == top_left,
            Quad::of(top_left, top_right, bottom_left, bottom_right).top_right() == top_right,
            Quad::of(top_left, top_right, bottom_left, bottom_right).bottom_left() == bottom_left,
            Quad::of(top_left, top_right, bottom_left, bottom_right).bottom_right()
                == bottom_right,
    {
    }


    /// The primitive of a quad part, before its rotation: the upper face of
    /// the part's box. `None` for a cube part and for a quad whose corners
    /// are out of range.
    pub fn from_part(part: &Part) -> (quad: Option<Quad>)
        ensures
            quad is Some <==> part is Quad && cube_in_range(part.position(), part.size()),
            quad matches Some(q) ==> q == upper_face(
                part.position(),
                part.size(),
                part->Quad_face_uv,
            ),
    {
        match part {
            Part::Quad { position, size, face_uv, .. } => {
                if box_in_range(*position, *size) {
                    let x0: i32 = position.x;
                    let z0: i32 = position.z;
                    let x1: i32 = position.x + size.x;
                    let y1: i32 = position.y + size.y;
                    let z1: i32 = position.z + size.z;
                    Some(
                        face(
                            Vec3::new(x0, y1, z1),
                            Vec3::new(x1, y1, z1),
                            Vec3::new(x0, y1, z0),
                            Vec3::new(x1, y1, z0),
                            *face_uv,
                        ),
                    )
                } else {
                    None
                }
            },
            Part::Cube { .. } => None,
        }
    }

    /// Creates a quad from its four vertices.
    pub fn new_from_vec(
        top_left: Vertex,
        top_right: Vertex,
        bottom_left: Vertex,
        bottom_right: Vertex,
    ) -> (q: Quad)
        ensures
            q == Quad::of(top_left, top_right, bottom_left, bottom_right),
            q.top_left() == top_left,
            q.top_right() == top_right,
            q.bottom_left() == bottom_left,
            q.bottom_right() == bottom_right,
    {
        Quad { top_left, top_right, bottom_left, bottom_right }
    }

    /// Creates a quad from its corner positions and the two opposite corners
    /// of its texture rectangle. Its normal is the cross product of the edges
    /// from the top-left corner to the top-right and to the bottom-left one,
    /// brought to length one.
    pub fn new(
        top_left: Vec3,
        top_right: Vec3,
        bottom_left: Vec3,
        bottom_right: Vec3,
        top_left_uv: Vec2,
        bottom_right_uv: Vec2,
    ) -> (q: Quad)
        requires
            corner_in_range(top_left),
            corner_in_range(top_right),
            corner_in_range(bottom_left),
        ensures
            q == Quad::textured(
                top_left,
                top_right,
                bottom_left,
                bottom_right,
                top_left_uv,
                bottom_right_uv,
                quad_normal(top_left, top_right, bottom_left),
            ),
    {
        let ux: i64 = top_right.x as i64 - top_left.x as i64;
        let uy: i64 = top_right.y as i64 - top_left.y as i64;
        let uz: i64 = top_right.z as i64 - top_left.z as i64;
        let vx: i64 = bottom_left.x as i64 - top_left.x as i64;
        let vy: i64 = bottom_left.y as i64 - top_left.y as i64;
        let vz: i64 = bottom_left.z as i64 - top_left.z as i64;
        proof {
            lemma_edge_products(uy as int, vz as int, uz as int, vy as int);
            lemma_edge_products(uz as int, vx as int, ux as int, vz as int);
            lemma_edge_products(ux as int, vy as int, uy as int, vx as int);
        }
        let cx: i128 = (uy as i128) * (vz as i128) - (uz as i128) * (vy as i128);
        let cy: i128 = (uz as i128) * (vx as i128) - (ux as i128) * (vz as i128);
        let cz: i128 = (ux as i128) * (vy as i128) - (uy as i128) * (vx as i128);
        let normal = normalize(cx, cy, cz);
        Quad::new_with_normal(
            top_left,
            top_right,
            bottom_left,
            bottom_right,
            top_left_uv,
            bottom_right_uv,
            normal,
        )
    }

    /// Creates a quad from its corner positions, the two opposite corners of
    /// its texture rectangle, and one normal shared by all four vertices.
    /// Each corner mixes the rectangle's two `x` and two `y` values.
    pub fn new_with_normal(
        top_left: Vec3,
        top_right: Vec3,
        bottom_left: Vec3,
        bottom_right: Vec3,
        top_left_uv: Vec2,
        bottom_right_uv: Vec2,
        normal: Vec3,
    ) -> (q: Quad)
        ensures
            q == Quad::textured(
                top_left,
                top_right,
                bottom_left,
                bottom_right,
                top_left_uv,
                bottom_right_uv,
                normal,
            ),
    {
        Quad {
            top_left: Vertex::new(top_left, top_left_uv, normal),
            top_right: Vertex::new(top_right, Vec2::new(bottom_right_uv.x, top_left_uv.y), normal),
            bottom_left: Vertex::new(
                bottom_left,
                Vec2::new(top_left_uv.x, bottom_right_uv.y),
                normal,
            ),
            bottom_right: Vertex::new(bottom_right, bottom_right_uv, normal),
        }
    }
}

impl PartPrimitive for Quad {
    fn get_vertices(&self) -> (vertices: Vec<Vertex>)
        ensures
            vertices@ == self.vertices(),
    {
        let mut vertices: Vec<Vertex> = Vec::new();
        vertices.push(self.top_left);
        vertices.push(self.top_right);
        vertices.push(self.bottom_left);
        vertices.push(self.bottom_right);
        assert(vertices@ =~= self.vertices());
        vertices
    }

    fn get_indices(&self) -> (indices: Vec<u16>)
        ensures
            indices@ == quad_indices(),
            mesh_valid(self.vertices().len(), indices@),
    {
        let mut indices: Vec<u16> = Vec::new();
        indices.push(2);
        indices.push(0);
        indices.push(3);
        indices.push(0);
        indices.push(1);
        indices.push(3);
        assert(indices@ =~= quad_indices());
        indices
    }
}

/// A point of the texture sheet as a texture coordinate.
pub open spec fn texel(point: FaceUvPoint) -> Vec2 {
    Vec2 { x: (point.x * UNIT) as i32, y: (point.y * UNIT) as i32 }
}

/// The quad of a face: the corners given, the face's texture rectangle, and
/// the normal that follows from the corners.
pub open spec fn face_quad(
    top_left: Vec3,
    top_right: Vec3,
    bottom_left: Vec3,
    bottom_right: Vec3,
    uv: FaceUv,
) -> Quad {
    Quad::textured(
        top_left,
        top_right,
        bottom_left,
        bottom_right,
        texel(uv.top_left),
        texel(uv.bottom_right),
        quad_normal(top_left, top_right, bottom_left),
    )
}

fn face(top_left: Vec3, top_right: Vec3, bottom_left: Vec3, bottom_right: Vec3, uv: FaceUv) -> (quad:
    Quad)
    requires
        corner_in_range(top_left),
        corner_in_range(top_right),
        corner_in_range(bottom_left),
    ensures
        quad == face_quad(top_left, top_right, bottom_left, bottom_right, uv),
{
    Quad::new(
        top_left,
        top_right,
        bottom_left,
        bottom_right,
        Vec2::new(uv.top_left.x as i32 * UNIT, uv.top_left.y as i32 * UNIT),
        Vec2::new(uv.bottom_right.x as i32 * UNIT, uv.bottom_right.y as i32 * UNIT),
    )
}

/// Whether the cuboid that starts at `position` and is `size` large has
/// all its corners in the range from which normals are computed.
pub open spec fn cube_in_range(position: Vec3, size: Vec3) -> bool {
    &&& corner_in_range(position)
    &&& -MAX_CORNER <= position.x + size.x <= MAX_CORNER
    &&& -MAX_CORNER <= position.y + size.y <= MAX_CORNER
    &&& -MAX_CORNER <= position.z + size.z <= MAX_CORNER
}

/// The upper face of the cuboid that starts at `position` and is `size`
/// large.
pub open spec fn upper_face(position: Vec3, size: Vec3, uv: FaceUv) -> Quad {
    let x0 = position.x;
    let z0 = position.z;
    let x1 = (position.x + size.x) as i32;
    let y1 = (position.y + size.y) as i32;
    let z1 = (position.z + size.z) as i32;
    face_quad(
        Vec3 { x: x0, y: y1, z: z1 },
        Vec3 { x: x1, y: y1, z: z1 },
        Vec3 { x: x0, y: y1, z: z0 },
        Vec3 { x: x1, y: y1, z: z0 },
        uv,
    )
}

fn box_in_range(position: Vec3, size: Vec3) -> (r: bool)
    ensures
        r == cube_in_range(position, size),
{
    let low: i64 = -(MAX_CORNER as i64);
    let high: i64 = MAX_CORNER as i64;
    let x1: i64 = position.x as i64 + size.x as i64;
    let y1: i64 = position.y as i64 + size.y as i64;
    let z1: i64 = position.z as i64 + size.z as i64;
    low <= position.x as i64 && position.x as i64 <= high && low <= position.y as i64
        && position.y as i64 <= high && low <= position.z as i64 && position.z as i64 <= high
        && low <= x1 && x1 <= high && low <= y1 && y1 <= high && low <= z1 && z1 <= high
}

/// The six faces of the cuboid that starts at `position` and is `size`
/// large, in the order north, south, east, west, up, down.
///
/// The sides have +Y at their top, the upper and the lower face have +X at
/// their right. The corners of each face are named so that its normal
/// points out of the cuboid: north faces -Z, south +Z, east +X, west -X,
/// up +Y and down -Y.
pub open spec fn cube_faces(position: Vec3, size: Vec3, face_uvs: CubeFaceUvs) -> Seq<Quad> {
    let x0 = position.x;
    let y0 = position.y;
    let z0 = position.z;
    let x1 = (position.x + size.x) as i32;
    let y1 = (position.y + size.y) as i32;
    let z1 = (position.z + size.z) as i32;
    seq![
        face_quad(
            Vec3 { x: x0, y: y1, z: z0 },
            Vec3 { x: x1, y: y1, z: z0 },
            Vec3 { x: x0, y: y0, z: z0 },
            Vec3 { x: x1, y: y0, z: z0 },
            face_uvs.north,
        ),
        face_quad(
            Vec3 { x: x1, y: y1, z: z1 },
            Vec3 { x: x0, y: y1, z: z1 },
            Vec3 { x: x1, y: y0, z: z1 },
            Vec3 { x: x0, y: y0, z: z1 },
            face_uvs.south,
        ),
        face_quad(
            Vec3 { x: x1, y: y1, z: z0 },
            Vec3 { x: x1, y: y1, z: z1 },
            Vec3 { x: x1, y: y0, z: z0 },
            Vec3 { x: x1, y: y0, z: z1 },
            face_uvs.east,
        ),
        face_quad(
            Vec3 { x: x0, y: y1, z: z1 },
            Vec3 { x: x0, y: y1, z: z0 },
            Vec3 { x: x0, y: y0, z: z1 },
            Vec3 { x: x0, y: y0, z: z0 },
            face_uvs.west,
        ),
        face_quad(
            Vec3 { x: x0, y: y1, z: z1 },
            Vec3 { x: x1, y: y1, z: z1 },
            Vec3 { x: x0, y: y1, z: z0 },
            Vec3 { x: x1, y: y1, z: z0 },
            face_uvs.up,
        ),
        face_quad(
            Vec3 { x: x0, y: y0, z: z0 },
            Vec3 { x: x1, y: y0, z: z0 },
            Vec3 { x: x0, y: y0, z: z1 },
            Vec3 { x: x1, y: y0, z: z1 },
            face_uvs.down,
        ),
    ]
}

/// The faces of a cuboid with a positive size look out of it: the normal
/// of each face is the unit vector of its axis, away from the cuboid.
pub proof fn lemma_cube_normals_point_outwards(position: Vec3, size: Vec3, face_uvs: CubeFaceUvs)
    requires
        cube_in_range(position, size),
        size.x > 0,
        size.y > 0,
        size.z > 0,
    ensures
        cube_faces(position, size, face_uvs)[0].top_left().normal == (Vec3 {
            x: 0,
            y: 0,
            z: -UNIT as i32,
        }),
        cube_faces(position, size, face_uvs)[1].top_left().normal == (Vec3 { x: 0, y: 0, z: UNIT }),
        cube_faces(position, size, face_uvs)[2].top_left().normal == (Vec3 { x: UNIT, y: 0, z: 0 }),
        cube_faces(position, size, face_uvs)[3].top_left().normal == (Vec3 {
            x: -UNIT as i32,
            y: 0,
            z: 0,
        }),
        cube_faces(position, size, face_uvs)[4].top_left().normal == (Vec3 { x: 0, y: UNIT, z: 0 }),
        cube_faces(position, size, face_uvs)[5].top_left().normal == (Vec3 {
            x: 0,
            y: -UNIT as i32,
            z: 0,
        }),
{
    let w = size.x as int;
    let h = size.y as int;
    let d = size.z as int;
    assert(w * h > 0 && w * d > 0 && h * d > 0) by (nonlinear_arith)
        requires
            w > 0,
            h > 0,
            d > 0,
    ;
    crate::math::lemma_unit_vector_along_axis(w * h);
    crate::math::lemma_unit_vector_along_axis(-(w * h));
    crate::math::lemma_unit_vector_along_axis(h * d);
    crate::math::lemma_unit_vector_along_axis(-(h * d));
    crate::math::lemma_unit_vector_along_axis(w * d);
    crate::math::lemma_unit_vector_along_axis(-(w * d));
    // North: the edges run along +X and -Y.
    assert(cross3((w, 0, 0), (0, -h, 0)) == (0int, 0int, -(w * h))) by (nonlinear_arith);
    // South: the edges run along -X and -Y.
    assert(cross3((-w, 0, 0), (0, -h, 0)) == (0int, 0int, w * h)) by (nonlinear_arith);
    // East: the edges run along +Z and -Y.
    assert(cross3((0, 0, d), (0, -h, 0)) == (h * d, 0int, 0int)) by (nonlinear_arith);
    // West: the edges run along -Z and -Y.
    assert(cross3((0, 0, -d), (0, -h, 0)) == (-(h * d), 0int, 0int)) by (nonlinear_arith);
    // Up: the edges run along +X and -Z.
    assert(cross3((w, 0, 0), (0, 0, -d)) == (0int, w * d, 0int)) by (nonlinear_arith);
    // Down: the edges run along +X and +Z.
    assert(cross3((w, 0, 0), (0, 0, d)) == (0int, -(w * d), 0int)) by (nonlinear_arith);
}

/// A cuboid as its six faces, one quad each.
pub struct Cube {
    north: Quad,
    south: Quad,
    east: Quad,
    west: Quad,
    up: Quad,
    down: Quad,
}

/// The index buffer of every cube: for each of the six faces in turn the
/// index buffer of a quad, moved on to the four vertices of that face.
pub open spec fn cube_indices() -> Seq<u16> {
    Seq::new(36, |i: int| (quad_indices()[i % 6] + 4 * (i / 6)) as u16)
}

impl Cube {
    /// The faces in the order north, south, east, west, up, down.
    pub closed spec fn faces(&self) -> Seq<Quad> {
        seq![self.north, self.south, self.east, self.west, self.up, self.down]
    }

    /// The vertex buffer: the four vertices of each face, face by face.
    pub open spec fn vertices(&self) -> Seq<Vertex> {
        Seq::new(24, |i: int| self.faces()[i / 4].vertices()[i % 4])
    }

    /// Creates the cube that starts at `position` and is `size` large, its
    /// edges along the axes. A rotation is left to the vertex stage.
    pub fn new(position: Vec3, size: Vec3, face_uvs: CubeFaceUvs) -> (cube: Cube)
        requires
            cube_in_range(position, size),
        ensures
            cube.faces() == cube_faces(position, size, face_uvs),
    {
        let x0: i32 = position.x;
        let y0: i32 = position.y;
        let z0: i32 = position.z;
        let x1: i32 = position.x + size.x;
        let y1: i32 = position.y + size.y;
        let z1: i32 = position.z + size.z;
        Cube {
            north: face(
                Vec3::new(x0, y1, z0),
                Vec3::new(x1, y1, z0),
                Vec3::new(x0, y0, z0),
                Vec3::new(x1, y0, z0),
                face_uvs.north,
            ),
            south: face(
                Vec3::new(x1, y1, z1),
                Vec3::new(x0, y1, z1),
                Vec3::new(x1, y0, z1),
                Vec3::new(x0, y0, z1),
                face_uvs.south,
            ),
            east: face(
                Vec3::new(x1, y1, z0),
                Vec3::new(x1, y1, z1),
                Vec3::new(x1, y0, z0),
                Vec3::new(x1, y0, z1),
                face_uvs.east,
            ),
            west: face(
                Vec3::new(x0, y1, z1),
                Vec3::new(x0, y1, z0),
                Vec3::new(x0, y0, z1),
                Vec3::new(x0, y0, z0),
                face_uvs.west,
            ),
            up: face(
                Vec3::new(x0, y1, z1),
                Vec3::new(x1, y1, z1),
                Vec3::new(x0, y1, z0),
                Vec3::new(x1, y1, z0),
                face_uvs.up,
            ),
            down: face(
                Vec3::new(x0, y0, z0),
                Vec3::new(x1, y0, z0),
                Vec3::new(x0, y0, z1),
                Vec3::new(x1, y0, z1),
                face_uvs.down,
            ),
        }
    }

    /// The primitive of a cube part, before its rotation: `None` for a quad
    /// part and for a cube whose corners are out of range.
    pub fn from_part(part: &Part) -> (cube: Option<Cube>)
        ensures
            cube is Some <==> part is Cube && cube_in_range(part.position(), part.size()),
            cube matches Some(c) ==> c.faces() == cube_faces(
                part.position(),
                part.size(),
                part->Cube_face_uvs,
            ),
    {
        match part {
            Part::Cube { position, size, face_uvs, .. } => {
                if box_in_range(*position, *size) {
                    Some(Cube::new(*position, *size, *face_uvs))
                } else {
                    None
                }
            },
            Part::Quad { .. } => None,
        }
    }

    /// Creates a cube from its six faces.
    pub fn new_from_faces(
        north: Quad,
        south: Quad,
        east: Quad,
        west: Quad,
        up: Quad,
        down: Quad,
    ) -> (cube: Cube)
        ensures
            cube.faces() == seq![north, south, east, west, up, down],
    {
        Cube { north, south, east, west, up, down }
    }

    fn face(&self, index: usize) -> (quad: &Quad)
        requires
            index < 6,
        ensures
            *quad == self.faces()[index as int],
    {
        if index == 0 {
            &self.north
        } else if index == 1 {
            &self.south
        } else if index == 2 {
            &self.east
        } else if index == 3 {
            &self.west
        } else if index == 4 {
            &self.up
        } else {
            &self.down
        }
    }
}

impl PartPrimitive for Cube {
    fn get_vertices(&self) -> (vertices: Vec<Vertex>)
        ensures
            vertices@ == self.vertices(),
    {
        let mut vertices: Vec<Vertex> = Vec::new();
        let mut face: usize = 0;
        while face < 6
            invariant
                face <= 6,
                vertices@.len() == 4 * face,
                forall|i: int|
                    0 <= i < 4 * face ==> vertices@[i] == self.faces()[i / 4].vertices()[i % 4],
            decreases 6 - face,
        {
            let quad = self.face(face);
            let corners = quad.get_vertices();
            let ghost before = vertices@;
            vertices.push(corners[0]);
            vertices.push(corners[1]);
            vertices.push(corners[2]);
            vertices.push(corners[3]);
            assert forall|i: int| 0 <= i < 4 * (face + 1) implies vertices@[i] == self.faces()[i
                / 4].vertices()[i % 4] by {
                if i < 4 * face {
                    assert(vertices@[i] == before[i]);
                } else {
                    assert(i / 4 == face);
                    assert(vertices@[i] == corners@[i - 4 * face]);
                    assert(i % 4 == i - 4 * face);
                }
            }
            face = face + 1;
        }
        assert(vertices@ =~= self.vertices());
        vertices
    }

    fn get_indices(&self) -> (indices: Vec<u16>)
        ensures
            indices@ == cube_indices(),
            mesh_valid(self.vertices().len(), indices@),
    {
        let pattern: [u16; 6] = [2, 0, 3, 0, 1, 3];
        assert(pattern@ =~= quad_indices());
        let mut indices: Vec<u16> = Vec::new();
        let mut face: u16 = 0;
        while face < 6
            invariant
                face <= 6,
                pattern@ == quad_indices(),
                indices@.len() == 6 * face,
                forall|i: int|
                    0 <= i < 6 * face ==> indices@[i] == quad_indices()[i % 6] + 4 * (i / 6),
            decreases 6 - face,
        {
            let ghost before = indices@;
            let mut corner: usize = 0;
            while corner < 6
                invariant
                    face < 6,
                    corner <= 6,
                    pattern@ == quad_indices(),
                    before.len() == 6 * face,
                    indices@.len() == 6 * face + corner,
                    forall|i: int| 0 <= i < 6 * face ==> indices@[i] == before[i],
                    forall|i: int|
                        6 * face <= i < 6 * face + corner ==> indices@[i] == quad_indices()[i
                            - 6 * face] + 4 * face,
                decreases 6 - corner,
            {
                indices.push(pattern[corner] + 4 * face);
                corner = corner + 1;
            }
            assert forall|i: int| 0 <= i < 6 * (face + 1) implies indices@[i] == quad_indices()[i
                % 6] + 4 * (i / 6) by {
                if i < 6 * face {
                    assert(indices@[i] == before[i]);
                } else {
                    assert(i / 6 == face);
                    assert(i % 6 == i - 6 * face);
                }
            }
            face = face + 1;
        }
        assert(indices@ =~= cube_indices());
        assert forall|i: int| 0 <= i < indices@.len() implies (#[trigger] indices@[i]) < 24 by {
            assert(indices@[i] == quad_indices()[i % 6] + 4 * (i / 6));
            assert(0 <= i / 6 < 6);
            assert(quad_indices()[i % 6] <= 3);
        }
        indices
    }
}

} // verus!
