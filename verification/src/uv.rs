//! Texture rectangles of faces and the box-UV net of a cuboid.

use vstd::prelude::*;

verus! {

/// A point on the texture sheet, in texels.
#[derive(Clone, Copy, Debug, PartialEq, Eq, Structural)]
pub struct FaceUvPoint {
    pub x: u16,
    pub y: u16,
}

/// The texture rectangle of one face with its orientation.
///
/// `top_left` and `bottom_right` are the texels that the face's top-left and
/// bottom-right corners sample. The other two corners follow from them: the
/// face is upright after an even number of quarter turns and lies on its side
/// after an odd number.
#[derive(Clone, Copy, Debug, PartialEq, Eq, Structural)]
pub struct FaceUv {
    pub top_left: FaceUvPoint,
    pub bottom_right: FaceUvPoint,
    pub flipped_horizontally: bool,
    pub flipped_vertically: bool,
    pub cw_rotation_count: u8,
}

/// The six texture rectangles of a cuboid.
#[derive(Clone, Copy, Debug, PartialEq, Eq, Structural)]
pub struct CubeFaceUvs {
    pub north: FaceUv,
    pub south: FaceUv,
    pub east: FaceUv,
    pub west: FaceUv,
    pub up: FaceUv,
    pub down: FaceUv,
}

/// The texels `(u, v)` with `x0 <= u < x1` and `y0 <= v < y1`.
pub open spec fn texel_rect(x0: int, y0: int, x1: int, y1: int) -> Set<(int, int)> {
    Set::new(|t: (int, int)| x0 <= t.0 < x1 && y0 <= t.1 < y1)
}

/// One row of texels holds as many texels as it is wide.
pub proof fn lemma_texel_row_len(x0: int, x1: int, y: int)
    requires
        x0 <= x1,
    ensures
        texel_rect(x0, y, x1, y + 1).finite(),
        texel_rect(x0, y, x1, y + 1).len() == x1 - x0,
    decreases x1 - x0,
{
    if x0 == x1 {
        assert(texel_rect(x0, y, x1, y + 1) =~= Set::empty());
    } else {
        lemma_texel_row_len(x0, x1 - 1, y);
        assert(texel_rect(x0, y, x1 - 1, y + 1).insert((x1 - 1, y)) =~= texel_rect(
            x0,
            y,
            x1,
            y + 1,
        ));
    }
}

/// A rectangle holds as many texels as its width times its height.
pub proof fn lemma_texel_rect_len(x0: int, y0: int, x1: int, y1: int)
    requires
        x0 <= x1,
        y0 <= y1,
    ensures
        texel_rect(x0, y0, x1, y1).finite(),
        texel_rect(x0, y0, x1, y1).len() == (x1 - x0) * (y1 - y0),
    decreases y1 - y0,
{
    if y0 == y1 {
        assert(texel_rect(x0, y0, x1, y1) =~= Set::empty());
        assert((x1 - x0) * (y1 - y0) == 0) by (nonlinear_arith)
            requires
                y0 == y1,
        ;
    } else {
        let above = texel_rect(x0, y0, x1, y1 - 1);
        let row = texel_rect(x0, y1 - 1, x1, y1);
        lemma_texel_rect_len(x0, y0, x1, y1 - 1);
        lemma_texel_row_len(x0, x1, y1 - 1);
        assert(above + row =~= texel_rect(x0, y0, x1, y1));
        assert(above.disjoint(row));
        vstd::set_lib::lemma_set_disjoint_lens(above, row);
        assert((x1 - x0) * (y1 - y0) == (x1 - x0) * (y1 - 1 - y0) + (x1 - x0))
            by (nonlinear_arith);
    }
}

impl FaceUv {
    /// The rotation count is a number of quarter turns below four.
    pub open spec fn wf(&self) -> bool {
        self.cw_rotation_count < 4
    }

    /// The texel that the face's top-right corner samples.
    pub open spec fn top_right(&self) -> FaceUvPoint {
        if self.cw_rotation_count % 2 == 0 {
            FaceUvPoint { x: self.bottom_right.x, y: self.top_left.y }
        } else {
            FaceUvPoint { x: self.top_left.x, y: self.bottom_right.y }
        }
    }

    /// The texel that the face's bottom-left corner samples.
    pub open spec fn bottom_left(&self) -> FaceUvPoint {
        if self.cw_rotation_count % 2 == 0 {
            FaceUvPoint { x: self.top_left.x, y: self.bottom_right.y }
        } else {
            FaceUvPoint { x: self.bottom_right.x, y: self.top_left.y }
        }
    }

    /// The face mirrored left to right: each corner takes the texel of the
    /// corner across.
    pub open spec fn flipped_horizontally_spec(&self) -> FaceUv {
        FaceUv {
            top_left: self.top_right(),
            bottom_right: self.bottom_left(),
            flipped_horizontally: !self.flipped_horizontally,
            flipped_vertically: self.flipped_vertically,
            cw_rotation_count: self.cw_rotation_count,
        }
    }

    /// The face mirrored top to bottom: each corner takes the texel of the
    /// corner below or above.
    pub open spec fn flipped_vertically_spec(&self) -> FaceUv {
        FaceUv {
            top_left: self.bottom_left(),
            bottom_right: self.top_right(),
            flipped_horizontally: self.flipped_horizontally,
            flipped_vertically: !self.flipped_vertically,
            cw_rotation_count: self.cw_rotation_count,
        }
    }

    /// The face after one clockwise quarter turn: each corner takes the texel
    /// of the corner that comes before it clockwise.
    pub open spec fn rotated_cw(&self) -> FaceUv {
        FaceUv {
            top_left: self.bottom_left(),
            bottom_right: self.top_right(),
            flipped_horizontally: self.flipped_horizontally,
            flipped_vertically: self.flipped_vertically,
            cw_rotation_count: ((self.cw_rotation_count % 4 + 1) % 4) as u8,
        }
    }

    /// The face after `turns` clockwise quarter turns.
    pub open spec fn rotated_cw_times(&self, turns: nat) -> FaceUv
        decreases turns,
    {
        if turns == 0 {
            *self
        } else {
            self.rotated_cw_times((turns - 1) as nat).rotated_cw()
        }
    }

    /// The width times the height of the rectangle.
    pub open spec fn area(&self) -> int {
        (self.bottom_right.x - self.top_left.x) * (self.bottom_right.y - self.top_left.y)
    }

    /// The texels of the rectangle.
    pub open spec fn texels(&self) -> Set<(int, int)> {
        texel_rect(
            self.top_left.x as int,
            self.top_left.y as int,
            self.bottom_right.x as int,
            self.bottom_right.y as int,
        )
    }

    pub fn new(
        top_left_x: u16,
        top_left_y: u16,
        bottom_right_x: u16,
        bottom_right_y: u16,
        flipped_horizontally: bool,
        flipped_vertically: bool,
        cw_rotation_count: u8,
    ) -> (uv: FaceUv)
        ensures
            uv == (FaceUv {
                top_left: FaceUvPoint { x: top_left_x, y: top_left_y },
                bottom_right: FaceUvPoint { x: bottom_right_x, y: bottom_right_y },
                flipped_horizontally,
                flipped_vertically,
                cw_rotation_count,
            }),
    {
        FaceUv {
            top_left: FaceUvPoint { x: top_left_x, y: top_left_y },
            bottom_right: FaceUvPoint { x: bottom_right_x, y: bottom_right_y },
            flipped_horizontally,
            flipped_vertically,
            cw_rotation_count,
        }
    }

    fn corners(self) -> (r: (FaceUvPoint, FaceUvPoint))
        ensures
            r.0 == self.top_right(),
            r.1 == self.bottom_left(),
    {
        if self.cw_rotation_count % 2 == 0 {
            (
                FaceUvPoint { x: self.bottom_right.x, y: self.top_left.y },
                FaceUvPoint { x: self.top_left.x, y: self.bottom_right.y },
            )
        } else {
            (
                FaceUvPoint { x: self.top_left.x, y: self.bottom_right.y },
                FaceUvPoint { x: self.bottom_right.x, y: self.top_left.y },
            )
        }
    }

    pub fn flip_horizontally(self) -> (uv: FaceUv)
        ensures
            uv == self.flipped_horizontally_spec(),
    {
        let (top_right, bottom_left) = self.corners();
        FaceUv {
            top_left: top_right,
            bottom_right: bottom_left,
            flipped_horizontally: !self.flipped_horizontally,
            flipped_vertically: self.flipped_vertically,
            cw_rotation_count: self.cw_rotation_count,
        }
    }

    pub fn flip_vertically(self) -> (uv: FaceUv)
        ensures
            uv == self.flipped_vertically_spec(),
    {
        let (top_right, bottom_left) = self.corners();
        FaceUv {
            top_left: bottom_left,
            bottom_right: top_right,
            flipped_horizontally: self.flipped_horizontally,
            flipped_vertically: !self.flipped_vertically,
            cw_rotation_count: self.cw_rotation_count,
        }
    }

    pub fn rotate_cw(self) -> (uv: FaceUv)
        ensures
            uv == self.rotated_cw(),
            uv.wf(),
    {
        let (top_right, bottom_left) = self.corners();
        FaceUv {
            top_left: bottom_left,
            bottom_right: top_right,
            flipped_horizontally: self.flipped_horizontally,
            flipped_vertically: self.flipped_vertically,
            cw_rotation_count: (self.cw_rotation_count % 4 + 1) % 4,
        }
    }
}

/// Four clockwise quarter turns bring a face back to where it was.
pub proof fn lemma_four_turns_are_none(uv: FaceUv)
    requires
        uv.wf(),
    ensures
        uv.rotated_cw().rotated_cw().rotated_cw().rotated_cw() == uv,
{
}

/// Mirroring a face twice the same way brings it back to where it was.
pub proof fn lemma_flip_twice_is_none(uv: FaceUv)
    ensures
        uv.flipped_horizontally_spec().flipped_horizontally_spec() == uv,
        uv.flipped_vertically_spec().flipped_vertically_spec() == uv,
{
}

/// The upright rectangle that starts at `(x, y)` and is `width` by `height`
/// texels large.
pub open spec fn uv_rect(x: int, y: int, width: int, height: int) -> FaceUv {
    FaceUv {
        top_left: FaceUvPoint { x: x as u16, y: y as u16 },
        bottom_right: FaceUvPoint { x: (x + width) as u16, y: (y + height) as u16 },
        flipped_horizontally: false,
        flipped_vertically: false,
        cw_rotation_count: 0,
    }
}

pub fn uv_from_pos_and_size(x: u16, y: u16, size_x: u16, size_y: u16) -> (uv: FaceUv)
    requires
        x + size_x <= u16::MAX,
        y + size_y <= u16::MAX,
    ensures
        uv == uv_rect(x as int, y as int, size_x as int, size_y as int),
{
    FaceUv::new(x, y, x + size_x, y + size_y, false, false, 0)
}

/// Whether the net of a `w` by `h` by `d` cuboid whose front face starts at
/// `(x, y)` lies on the texture sheet: the faces beside and above the front
/// face start no lower than texel 0 and the last face ends within the range
/// of a texel coordinate.
pub open spec fn box_uv_fits(x: int, y: int, w: int, h: int, d: int) -> bool {
    &&& d <= x
    &&& d <= y
    &&& x + 2 * w + d <= u16::MAX
    &&& y + h <= u16::MAX
}

/// The box-UV net of a `w` by `h` by `d` cuboid whose front face starts at
/// `(x, y)`. The upper row holds the top and the bottom face, the lower row
/// the right, front, left and back face, each row from left to right; faces
/// that are neighbours on the sheet share an edge.
pub open spec fn box_uv_spec(x: int, y: int, w: int, h: int, d: int) -> CubeFaceUvs {
    CubeFaceUvs {
        north: uv_rect(x, y, w, h),
        south: uv_rect(x + w + d, y, w, h),
        east: uv_rect(x - d, y, d, h),
        west: uv_rect(x + w, y, d, h),
        up: uv_rect(x, y - d, w, d),
        down: uv_rect(x + w, y - d, w, d),
    }
}

/// Computes the six texture rectangles of a cuboid of the given size
/// (width, height, depth) whose front face starts at `(x, y)`.
pub fn box_uv(x: u16, y: u16, size: [u16; 3]) -> (uvs: CubeFaceUvs)
    requires
        box_uv_fits(x as int, y as int, size[0] as int, size[1] as int, size[2] as int),
    ensures
        uvs == box_uv_spec(x as int, y as int, size[0] as int, size[1] as int, size[2] as int),
{
    let w: u16 = size[0];
    let h: u16 = size[1];
    let d: u16 = size[2];
    CubeFaceUvs {
        north: uv_from_pos_and_size(x, y, w, h),
        south: uv_from_pos_and_size(x + w + d, y, w, h),
        east: uv_from_pos_and_size(x - d, y, d, h),
        west: uv_from_pos_and_size(x + w, y, d, h),
        up: uv_from_pos_and_size(x, y - d, w, d),
        down: uv_from_pos_and_size(x + w, y - d, w, d),
    }
}

/// The upright rectangle that `rect` gives as left, top, right, bottom.
pub open spec fn rect_uv(rect: [u16; 4]) -> FaceUv {
    FaceUv {
        top_left: FaceUvPoint { x: rect[0], y: rect[1] },
        bottom_right: FaceUvPoint { x: rect[2], y: rect[3] },
        flipped_horizontally: false,
        flipped_vertically: false,
        cw_rotation_count: 0,
    }
}

impl From<[u16; 4]> for FaceUv {
    /// The upright rectangle given as left, top, right, bottom.
    fn from(rect: [u16; 4]) -> (uv: FaceUv) {
        FaceUv::new(rect[0], rect[1], rect[2], rect[3], false, false, 0)
    }
}

impl vstd::std_specs::convert::FromSpecImpl<[u16; 4]> for FaceUv {
    open spec fn obeys_from_spec() -> bool {
        true
    }

    open spec fn from_spec(rect: [u16; 4]) -> FaceUv {
        rect_uv(rect)
    }
}

impl From<[[u16; 4]; 6]> for CubeFaceUvs {
    /// The six upright rectangles given in the order north, south, east,
    /// west, up, down.
    fn from(rects: [[u16; 4]; 6]) -> (uvs: CubeFaceUvs) {
        CubeFaceUvs {
            north: FaceUv::new(rects[0][0], rects[0][1], rects[0][2], rects[0][3], false, false, 0),
            south: FaceUv::new(rects[1][0], rects[1][1], rects[1][2], rects[1][3], false, false, 0),
            east: FaceUv::new(rects[2][0], rects[2][1], rects[2][2], rects[2][3], false, false, 0),
            west: FaceUv::new(rects[3][0], rects[3][1], rects[3][2], rects[3][3], false, false, 0),
            up: FaceUv::new(rects[4][0], rects[4][1], rects[4][2], rects[4][3], false, false, 0),
            down: FaceUv::new(rects[5][0], rects[5][1], rects[5][2], rects[5][3], false, false, 0),
        }
    }
}

impl vstd::std_specs::convert::FromSpecImpl<[[u16; 4]; 6]> for CubeFaceUvs {
    open spec fn obeys_from_spec() -> bool {
        true
    }

    open spec fn from_spec(rects: [[u16; 4]; 6]) -> CubeFaceUvs {
        CubeFaceUvs {
            north: rect_uv(rects[0]),
            south: rect_uv(rects[1]),
            east: rect_uv(rects[2]),
            west: rect_uv(rects[3]),
            up: rect_uv(rects[4]),
            down: rect_uv(rects[5]),
        }
    }
}

impl CubeFaceUvs {
    /// The sum of the areas of the six rectangles.
    pub open spec fn total_area(&self) -> int {
        self.north.area() + self.south.area() + self.east.area() + self.west.area()
            + self.up.area() + self.down.area()
    }

    /// No texel lies in two of the six rectangles.
    pub open spec fn faces_disjoint(&self) -> bool {
        &&& self.north.texels().disjoint(self.south.texels())
        &&& self.north.texels().disjoint(self.east.texels())
        &&& self.north.texels().disjoint(self.west.texels())
        &&& self.north.texels().disjoint(self.up.texels())
        &&& self.north.texels().disjoint(self.down.texels())
        &&& self.south.texels().disjoint(self.east.texels())
        &&& self.south.texels().disjoint(self.west.texels())
        &&& self.south.texels().disjoint(self.up.texels())
        &&& self.south.texels().disjoint(self.down.texels())
        &&& self.east.texels().disjoint(self.west.texels())
        &&& self.east.texels().disjoint(self.up.texels())
        &&& self.east.texels().disjoint(self.down.texels())
        &&& self.west.texels().disjoint(self.up.texels())
        &&& self.west.texels().disjoint(self.down.texels())
        &&& self.up.texels().disjoint(self.down.texels())
    }

    /// The texels of all six rectangles.
    pub open spec fn texels(&self) -> Set<(int, int)> {
        self.north.texels().union(self.south.texels()).union(self.east.texels()).union(
            self.west.texels(),
        ).union(self.up.texels()).union(self.down.texels())
    }
}

/// The six rectangles of a net have the surface of the cuboid as their
/// total area, no two of them overlap, and together they hold as many texels
/// as that area.
pub proof fn lemma_box_uv_net(x: int, y: int, w: int, h: int, d: int)
    requires
        0 <= x,
        0 <= y,
        0 <= w,
        0 <= h,
        0 <= d,
        box_uv_fits(x, y, w, h, d),
    ensures
        box_uv_spec(x, y, w, h, d).total_area() == 2 * (w * h + w * d + h * d),
        box_uv_spec(x, y, w, h, d).faces_disjoint(),
        box_uv_spec(x, y, w, h, d).texels().finite(),
        box_uv_spec(x, y, w, h, d).texels().len() == 2 * (w * h + w * d + h * d),
{
    let net = box_uv_spec(x, y, w, h, d);
    lemma_texel_rect_len(x, y, x + w, y + h);
    lemma_texel_rect_len(x + w + d, y, x + w + d + w, y + h);
    lemma_texel_rect_len(x - d, y, x, y + h);
    lemma_texel_rect_len(x + w, y, x + w + d, y + h);
    lemma_texel_rect_len(x, y - d, x + w, y);
    lemma_texel_rect_len(x + w, y - d, x + w + w, y);
    let n = net.north.texels();
    let s = net.south.texels();
    let e = net.east.texels();
    let ws = net.west.texels();
    let u = net.up.texels();
    let dn = net.down.texels();
    assert(n.len() == net.north.area());
    assert(s.len() == net.south.area());
    assert(e.len() == net.east.area());
    assert(ws.len() == net.west.area());
    assert(u.len() == net.up.area());
    assert(dn.len() == net.down.area());
    vstd::set_lib::lemma_set_disjoint_lens(n, s);
    assert((n + s).disjoint(e));
    vstd::set_lib::lemma_set_disjoint_lens(n + s, e);
    assert((n + s + e).disjoint(ws));
    vstd::set_lib::lemma_set_disjoint_lens(n + s + e, ws);
    assert((n + s + e + ws).disjoint(u));
    vstd::set_lib::lemma_set_disjoint_lens(n + s + e + ws, u);
    assert((n + s + e + ws + u).disjoint(dn));
    vstd::set_lib::lemma_set_disjoint_lens(n + s + e + ws + u, dn);
    assert(net.texels() == n + s + e + ws + u + dn);
    assert(net.north.area() == w * h);
    assert(net.south.area() == w * h);
    assert(net.east.area() == d * h);
    assert(net.west.area() == d * h);
    assert(net.up.area() == w * d);
    assert(net.down.area() == w * d);
    assert(d * h == h * d) by (nonlinear_arith);
    assert(2 * (w * h + w * d + h * d) == w * h + w * h + h * d + h * d + w * d + w * d)
        by (nonlinear_arith);
}

} // verus!
