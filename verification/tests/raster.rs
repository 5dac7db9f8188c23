use nmsr::buffers::{ColorBuffer, DepthBuffer, RenderTextures, Rgba8};
use nmsr::math::{Vec2, Vec3, Vec4};
use nmsr::primitives::{PartPrimitive, Quad, Vertex};
use nmsr::raster::{fragment_for_pixel, DepthTest, RenderEntry, Size};
use nmsr::shader::{apply_vertex_shader, color_to_rgba8, ShaderState, VertexInput, VertexOutput};
use nmsr::triangle::Triangle;

/// Keeps positions as they are and paints every fragment in one colour.
struct Flat {
    color: Vec4,
}

impl ShaderState for Flat {
    fn vertex_shader(&self, vertex: VertexInput) -> VertexOutput {
        VertexOutput {
            position: vertex.position,
            tex_coord: vertex.tex_coord,
            normal: vertex.normal,
        }
    }

    fn fragment_shader(&self, _fragment: VertexOutput) -> Vec4 {
        self.color
    }
}

/// Moves every vertex by a whole number of pixels and paints a fragment
/// with its texture coordinate.
struct Shifted {
    dx: i32,
    dy: i32,
}

impl ShaderState for Shifted {
    fn vertex_shader(&self, vertex: VertexInput) -> VertexOutput {
        VertexOutput {
            position: Vec4::new(
                vertex.position.x + self.dx * 1000,
                vertex.position.y + self.dy * 1000,
                vertex.position.z,
                vertex.position.w,
            ),
            tex_coord: vertex.tex_coord,
            normal: vertex.normal,
        }
    }

    fn fragment_shader(&self, fragment: VertexOutput) -> Vec4 {
        Vec4::new(fragment.tex_coord.x, fragment.tex_coord.y, 0, 1000)
    }
}

fn corner(x: i32, y: i32, z: i32) -> Vertex {
    Vertex::new(Vec3::new(x, y, z), Vec2::new(0, 0), Vec3::new(0, 0, 1000))
}

fn out(x: i32, y: i32, z: i32) -> VertexOutput {
    VertexOutput {
        position: Vec4::new(x, y, z, 1000),
        tex_coord: Vec2::new(0, 0),
        normal: Vec3::new(0, 0, 1000),
    }
}

fn quad() -> Quad {
    Quad::new_from_vec(
        corner(0, 0, 500),
        corner(4000, 0, 500),
        corner(0, 4000, 500),
        corner(4000, 4000, 500),
    )
}

fn entry(width: u32, height: u32, depth: i32, test: DepthTest) -> RenderEntry<Quad> {
    RenderEntry::new(quad(), Size { width, height }, depth, test).unwrap()
}

const RED: Rgba8 = Rgba8 { r: 255, g: 0, b: 0, a: 255 };
const CLEAR: Rgba8 = Rgba8 { r: 0, g: 0, b: 0, a: 0 };

fn red() -> Flat {
    Flat { color: Vec4::new(1000, 0, 0, 1000) }
}

fn snapshot(e: &RenderEntry<Quad>) -> (Vec<u8>, Vec<Option<i32>>) {
    let mut depths = Vec::new();
    for y in 0..e.size.height {
        for x in 0..e.size.width {
            depths.push(e.textures.depth_buffer.get(x, y));
        }
    }
    (e.textures.output.to_rgba_bytes(), depths)
}

#[test]
fn triangle_paints_exactly_the_covered_centres() {
    let mut e = entry(6, 6, 0, DepthTest::NotLess);
    // Corners (0,0), (4,0), (0,4) in pixels: the centre (x + 0.5, y + 0.5)
    // is inside where x + y + 1 <= 4.
    let t = Triangle { a: out(0, 0, 500), b: out(4000, 0, 500), c: out(0, 4000, 500) };
    e.rasterize_triangle(t, &red());
    for y in 0..6u32 {
        for x in 0..6u32 {
            let inside = x + y + 1 <= 4;
            let expected = if inside { RED } else { CLEAR };
            assert_eq!(e.textures.output.get_pixel(x, y), Some(expected));
            let depth = if inside { 500 } else { 0 };
            assert_eq!(e.textures.depth_buffer.get(x, y), Some(depth));
        }
    }
}

#[test]
fn triangle_orientation_does_not_matter() {
    let mut e = entry(6, 6, 0, DepthTest::NotLess);
    let t = Triangle { a: out(0, 0, 500), b: out(0, 4000, 500), c: out(4000, 0, 500) };
    e.rasterize_triangle(t, &red());
    for y in 0..6u32 {
        for x in 0..6u32 {
            let expected = if x + y + 1 <= 4 { RED } else { CLEAR };
            assert_eq!(e.textures.output.get_pixel(x, y), Some(expected));
        }
    }
}

#[test]
fn pixel_on_an_edge_is_covered() {
    // The edge from (1, 0) to (0, 1) passes through the centre of pixel
    // (0, 0): its barycentric coordinate there is zero, which is inside.
    let t = Triangle { a: out(0, 0, 0), b: out(1000, 0, 0), c: out(0, 1000, 0) };
    assert!(fragment_for_pixel(&t, 0, 0).is_some());
    assert!(fragment_for_pixel(&t, 1, 0).is_none());
    assert!(fragment_for_pixel(&t, 0, 1).is_none());
}

#[test]
fn degenerate_triangles_change_nothing() {
    let mut e = entry(5, 4, 123, DepthTest::NotLess);
    e.textures.output.put_pixel(2, 1, Rgba8 { r: 1, g: 2, b: 3, a: 4 });
    let before = snapshot(&e);
    // Three points on one line.
    let line = Triangle { a: out(0, 0, 900), b: out(2000, 2000, 900), c: out(4000, 4000, 900) };
    e.rasterize_triangle(line, &red());
    assert_eq!(snapshot(&e), before);
    // Three times the same point.
    let point = Triangle { a: out(1500, 1500, 900), b: out(1500, 1500, 900), c: out(1500, 1500, 900) };
    e.rasterize_triangle(point, &red());
    assert_eq!(snapshot(&e), before);
    // Two corners alike.
    let two = Triangle { a: out(500, 500, 900), b: out(500, 500, 900), c: out(3500, 2500, 900) };
    e.rasterize_triangle(two, &red());
    assert_eq!(snapshot(&e), before);
    assert!(fragment_for_pixel(&line, 1, 1).is_none());
}

#[test]
fn depth_test_lets_equal_and_greater_depths_through() {
    let t = Triangle { a: out(0, 0, 500), b: out(4000, 0, 500), c: out(0, 4000, 500) };
    // A lesser depth than the stored one is rejected.
    let mut nearer = entry(4, 4, 700, DepthTest::NotLess);
    let before = snapshot(&nearer);
    nearer.rasterize_triangle(t, &red());
    assert_eq!(snapshot(&nearer), before);
    // An equal depth passes.
    let mut equal = entry(4, 4, 500, DepthTest::NotLess);
    equal.rasterize_triangle(t, &red());
    assert_eq!(equal.textures.output.get_pixel(0, 0), Some(RED));
    assert_eq!(equal.textures.depth_buffer.get(0, 0), Some(500));
    // A greater depth passes and replaces the stored one.
    let mut farther = entry(4, 4, 200, DepthTest::NotLess);
    farther.rasterize_triangle(t, &red());
    assert_eq!(farther.textures.output.get_pixel(0, 0), Some(RED));
    assert_eq!(farther.textures.depth_buffer.get(0, 0), Some(500));
    assert_eq!(farther.textures.depth_buffer.get(3, 3), Some(200));
}

#[test]
fn depth_test_the_other_way_round() {
    let t = Triangle { a: out(0, 0, 500), b: out(4000, 0, 500), c: out(0, 4000, 500) };
    let mut nearer = entry(4, 4, 700, DepthTest::NotGreater);
    nearer.rasterize_triangle(t, &red());
    assert_eq!(nearer.textures.output.get_pixel(0, 0), Some(RED));
    assert_eq!(nearer.textures.depth_buffer.get(0, 0), Some(500));
    let mut farther = entry(4, 4, 200, DepthTest::NotGreater);
    let before = snapshot(&farther);
    farther.rasterize_triangle(t, &red());
    assert_eq!(snapshot(&farther), before);
    assert!(DepthTest::NotLess.passes(5, 5));
    assert!(DepthTest::NotLess.passes(6, 5));
    assert!(!DepthTest::NotLess.passes(4, 5));
    assert!(DepthTest::NotGreater.passes(5, 5));
    assert!(DepthTest::NotGreater.passes(4, 5));
    assert!(!DepthTest::NotGreater.passes(6, 5));
}

#[test]
fn later_triangles_are_tested_against_earlier_ones() {
    let mut e = entry(4, 4, 0, DepthTest::NotLess);
    let far = Triangle { a: out(0, 0, 800), b: out(4000, 0, 800), c: out(0, 4000, 800) };
    let near = Triangle { a: out(0, 0, 300), b: out(4000, 0, 300), c: out(0, 4000, 300) };
    e.rasterize_triangle(far, &red());
    e.rasterize_triangle(near, &Flat { color: Vec4::new(0, 1000, 0, 1000) });
    assert_eq!(e.textures.output.get_pixel(0, 0), Some(RED));
    assert_eq!(e.textures.depth_buffer.get(0, 0), Some(800));
}

#[test]
fn triangle_beyond_the_viewport_is_clamped() {
    let mut e = entry(3, 2, 0, DepthTest::NotLess);
    let t = Triangle {
        a: out(-50_000, -50_000, 10),
        b: out(90_000, -50_000, 10),
        c: out(-50_000, 90_000, 10),
    };
    e.rasterize_triangle(t, &red());
    for y in 0..2u32 {
        for x in 0..3u32 {
            assert_eq!(e.textures.output.get_pixel(x, y), Some(RED));
        }
    }
    // The largest triangle there is; the viewport lies just inside its
    // longest edge.
    let huge = Triangle {
        a: out(i32::MAX, i32::MAX, i32::MIN),
        b: out(i32::MAX, i32::MIN, i32::MAX),
        c: out(i32::MIN, i32::MAX, 0),
    };
    e.rasterize_triangle(huge, &Flat { color: Vec4::new(0, 0, 1000, 1000) });
    assert_eq!(e.textures.output.get_pixel(0, 0).map(|p| p.b), Some(255));
    let away = Triangle { a: out(10_000, 10_000, 99), b: out(14_000, 10_000, 99), c: out(10_000, 14_000, 99) };
    let before = snapshot(&e);
    e.rasterize_triangle(away, &red());
    assert_eq!(snapshot(&e), before);
}

#[test]
fn attributes_are_blended_with_the_barycentric_weights() {
    let a = VertexOutput {
        position: Vec4::new(0, 0, 0, 1000),
        tex_coord: Vec2::new(0, 0),
        normal: Vec3::new(1000, 0, 0),
    };
    let b = VertexOutput {
        position: Vec4::new(4000, 0, 400, 1000),
        tex_coord: Vec2::new(8000, 0),
        normal: Vec3::new(0, 1000, 0),
    };
    let c = VertexOutput {
        position: Vec4::new(0, 4000, 800, 1000),
        tex_coord: Vec2::new(0, 16000),
        normal: Vec3::new(0, 0, 1000),
    };
    let t = Triangle { a, b, c };
    // At the centre (1.5, 0.5) the weights are 4/8 for a, 3/8 for b and
    // 1/8 for c.
    let f = fragment_for_pixel(&t, 1, 0).unwrap();
    assert_eq!(f.position, Vec4::new(1500, 500, 250, 1000));
    assert_eq!(f.tex_coord, Vec2::new(3000, 2000));
    assert_eq!(f.normal, Vec3::new(500, 375, 125));
    // Blends are rounded down, below zero too.
    let down = Triangle {
        a: VertexOutput { tex_coord: Vec2::new(-1, 1), ..a },
        b: VertexOutput { tex_coord: Vec2::new(0, 0), ..b },
        c: VertexOutput { tex_coord: Vec2::new(0, 0), ..c },
    };
    let g = fragment_for_pixel(&down, 1, 0).unwrap();
    assert_eq!(g.tex_coord, Vec2::new(-1, 0));
    assert_eq!(fragment_for_pixel(&t, 3, 3), None);
}

#[test]
fn quad_is_drawn_whole() {
    let mut e = entry(6, 6, 0, DepthTest::NotLess);
    e.draw_primitives(&red());
    for y in 0..6u32 {
        for x in 0..6u32 {
            let inside = x < 4 && y < 4;
            let expected = if inside { RED } else { CLEAR };
            assert_eq!(e.textures.output.get_pixel(x, y), Some(expected));
            let depth = if inside { 500 } else { 0 };
            assert_eq!(e.textures.depth_buffer.get(x, y), Some(depth));
        }
    }
    assert_eq!(e.primitive.get_indices(), vec![2, 0, 3, 0, 1, 3]);
}

#[test]
fn quad_triangles_tile_the_rectangle() {
    let q = quad();
    let vertices = q.get_vertices();
    let indices = q.get_indices();
    let corner = |i: usize| {
        let p = vertices[indices[i] as usize].position;
        out(p.x, p.y, p.z)
    };
    let first = Triangle { a: corner(0), b: corner(1), c: corner(2) };
    let second = Triangle { a: corner(3), b: corner(4), c: corner(5) };
    // Both triangles run the same way round: their doubled areas have one
    // sign and add up to twice the area of the rectangle.
    let area2 = |t: &Triangle| {
        let (a, b, c) = (t.a.position, t.b.position, t.c.position);
        (b.x - a.x) as i64 * (c.y - a.y) as i64 - (b.y - a.y) as i64 * (c.x - a.x) as i64
    };
    assert_eq!(area2(&first), 4000 * 4000);
    assert_eq!(area2(&second), 4000 * 4000);
    // Every centre within the rectangle lies in one of the two, and in
    // both only on the diagonal that they share.
    for y in 0..6u32 {
        for x in 0..6u32 {
            let hits = fragment_for_pixel(&first, x, y).is_some() as u32
                + fragment_for_pixel(&second, x, y).is_some() as u32;
            let expected = if x >= 4 || y >= 4 {
                0
            } else if x == y {
                2
            } else {
                1
            };
            assert_eq!(hits, expected, "at {x}, {y}");
        }
    }
}

#[test]
fn vertex_stage_runs_before_rasterizing() {
    let quad = Quad::new_with_normal(
        Vec3::new(0, 0, 0),
        Vec3::new(2000, 0, 0),
        Vec3::new(0, 2000, 0),
        Vec3::new(2000, 2000, 0),
        Vec2::new(0, 0),
        Vec2::new(1000, 1000),
        Vec3::new(0, 0, 1000),
    );
    let mut e = RenderEntry::new(quad, Size { width: 4, height: 4 }, 0, DepthTest::NotLess).unwrap();
    e.draw_primitives(&Shifted { dx: 1, dy: 2 });
    for y in 0..4u32 {
        for x in 0..4u32 {
            let inside = (1..3).contains(&x) && (2..4).contains(&y);
            let pixel = e.textures.output.get_pixel(x, y).unwrap();
            assert_eq!(pixel.a, if inside { 255 } else { 0 });
        }
    }
    // The centre of pixel (1, 2) lies a quarter into the quad both ways.
    assert_eq!(e.textures.output.get_pixel(1, 2), Some(Rgba8 { r: 63, g: 63, b: 0, a: 255 }));
    assert_eq!(e.textures.output.get_pixel(2, 3), Some(Rgba8 { r: 191, g: 191, b: 0, a: 255 }));
    let v = Vertex::new(Vec3::new(1, 2, 3), Vec2::new(4, 5), Vec3::new(6, 7, 8));
    let shaded = apply_vertex_shader(v, &Shifted { dx: 1, dy: 2 });
    assert_eq!(shaded.position, Vec4::new(1001, 2002, 3, 1000));
    assert_eq!(shaded.tex_coord, Vec2::new(4, 5));
    assert_eq!(shaded.normal, Vec3::new(6, 7, 8));
}

#[test]
fn draw_triangle_wants_three_indices() {
    let mut e = entry(4, 4, 0, DepthTest::NotLess);
    let vertices = e.primitive.get_vertices();
    let before = snapshot(&e);
    e.draw_triangle(&[0, 1], &vertices, &red());
    assert_eq!(snapshot(&e), before);
    e.draw_triangle(&[0, 1, 3, 2], &vertices, &red());
    assert_eq!(snapshot(&e), before);
    e.draw_triangle(&[], &vertices, &red());
    assert_eq!(snapshot(&e), before);
    e.draw_triangle(&[0, 1, 3], &vertices, &red());
    assert_eq!(e.textures.output.get_pixel(3, 0), Some(RED));
    assert_eq!(e.textures.output.get_pixel(0, 3), Some(CLEAR));
}

#[test]
fn colours_are_converted_to_eight_bits() {
    assert_eq!(color_to_rgba8(Vec4::new(1000, 0, 500, 250)), Rgba8 { r: 255, g: 0, b: 127, a: 63 });
    assert_eq!(color_to_rgba8(Vec4::new(-1, 1, 3, 4)), Rgba8 { r: 0, g: 0, b: 0, a: 1 });
    assert_eq!(
        color_to_rgba8(Vec4::new(999, 1001, 1003, 1004)),
        Rgba8 { r: 254, g: 255, b: 255, a: 255 }
    );
    assert_eq!(
        color_to_rgba8(Vec4::new(i32::MAX, i32::MIN, 2000, 996)),
        Rgba8 { r: 255, g: 0, b: 255, a: 253 }
    );
}

#[test]
fn colour_buffer_keeps_what_is_put() {
    let mut buffer = ColorBuffer::new(3, 2).unwrap();
    assert_eq!(buffer.get_width(), 3);
    assert_eq!(buffer.get_height(), 2);
    for y in 0..2 {
        for x in 0..3 {
            assert_eq!(buffer.get_pixel(x, y), Some(CLEAR));
        }
    }
    let p = Rgba8 { r: 10, g: 20, b: 30, a: 40 };
    buffer.put_pixel(2, 1, p);
    assert_eq!(buffer.get_pixel(2, 1), Some(p));
    assert_eq!(buffer.get_pixel(1, 1), Some(CLEAR));
    assert_eq!(buffer.get_pixel(2, 0), Some(CLEAR));
    assert_eq!(buffer.get_pixel(3, 0), None);
    assert_eq!(buffer.get_pixel(0, 2), None);
    let bytes = buffer.to_rgba_bytes();
    assert_eq!(bytes.len(), 24);
    assert_eq!(&bytes[20..24], &[10, 20, 30, 40]);
    assert!(bytes[..20].iter().all(|b| *b == 0));
    assert!(ColorBuffer::new(0, 7).is_some());
    assert!(ColorBuffer::new(u32::MAX, u32::MAX).is_none());
}

#[test]
fn depth_buffer_keeps_what_is_put() {
    let mut buffer = DepthBuffer::new(3, 2, -5).unwrap();
    assert_eq!(buffer.get_width(), 3);
    assert_eq!(buffer.get_height(), 2);
    buffer.put(0, 1, 77);
    for y in 0..2 {
        for x in 0..3 {
            let expected = if (x, y) == (0, 1) { 77 } else { -5 };
            assert_eq!(buffer.get(x, y), Some(expected));
        }
    }
    assert_eq!(buffer.get(3, 1), None);
    assert_eq!(buffer.get(0, 2), None);
    assert!(DepthBuffer::new(0, 9, 0).is_some());
    assert!(DepthBuffer::new(u32::MAX, u32::MAX, 0).is_none());
}

#[test]
fn entry_buffers_are_as_large_as_the_viewport() {
    let e = entry(7, 3, 9, DepthTest::NotGreater);
    assert_eq!(e.size, Size { width: 7, height: 3 });
    assert_eq!(e.textures.output.get_width(), 7);
    assert_eq!(e.textures.output.get_height(), 3);
    assert_eq!(e.textures.depth_buffer.get_width(), 7);
    assert_eq!(e.textures.depth_buffer.get_height(), 3);
    assert_eq!(e.textures.depth_buffer.get(6, 2), Some(9));
    assert_eq!(e.depth_test, DepthTest::NotGreater);
    let textures = RenderTextures {
        output: ColorBuffer::new(1, 1).unwrap(),
        depth_buffer: DepthBuffer::new(1, 1, 0).unwrap(),
    };
    assert_eq!(textures.output.get_pixel(0, 0), Some(CLEAR));
    assert!(RenderEntry::new(quad(), Size { width: u32::MAX, height: u32::MAX }, 0, DepthTest::NotLess)
        .is_none());
}
