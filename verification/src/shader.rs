//! The two programmable stages of a draw call and the values they exchange.

use vstd::prelude::*;
use crate::buffers::Rgba8;
use crate::math::{Vec2, Vec3, Vec4, UNIT};
use crate::primitives::Vertex;

verus! {

/// What the vertex stage receives for one vertex.
#[derive(Clone, Copy, Debug, PartialEq, Eq, Structural)]
pub struct VertexInput {
    pub position: Vec4,
    pub normal: Vec3,
    pub tex_coord: Vec2,
}

/// What the vertex stage yields for one vertex, and what the fragment stage
/// receives for one pixel. `position.x` and `position.y` are screen
/// coordinates in pixels, `position.z` is the depth.
#[derive(Clone, Copy, Debug, PartialEq, Eq, Structural)]
pub struct VertexOutput {
    pub position: Vec4,
    pub tex_coord: Vec2,
    pub normal: Vec3,
}

/// The shading state of a draw call. It is handed to every stage call and
/// decides alone what the stages compute: the transform to screen space and
/// the colour of a fragment, an RGBA value whose channels run from 0 to
/// `UNIT`.
pub trait ShaderState {
    fn vertex_shader(&self, vertex: VertexInput) -> VertexOutput;

    fn fragment_shader(&self, fragment: VertexOutput) -> Vec4;
}

/// The vertex stage's input for a mesh vertex: its position with a fourth
/// component of one.
pub open spec fn vertex_input(vertex: Vertex) -> VertexInput {
    VertexInput {
        position: Vec4 {
            x: vertex.position.x,
            y: vertex.position.y,
            z: vertex.position.z,
            w: UNIT,
        },
        normal: vertex.normal,
        tex_coord: vertex.uv,
    }
}

/// Whether `out` is a value that the vertex stage of `state` may yield for
/// `vertex`.
pub open spec fn vertex_shaded<S: ShaderState>(state: &S, vertex: Vertex, out: VertexOutput) -> bool {
    call_ensures(S::vertex_shader, (state, vertex_input(vertex)), out)
}

/// Whether `color` is a value that the fragment stage of `state` may yield
/// for `fragment`.
pub open spec fn fragment_shaded<S: ShaderState>(
    state: &S,
    fragment: VertexOutput,
    color: Vec4,
) -> bool {
    call_ensures(S::fragment_shader, (state, fragment), color)
}

/// Runs the vertex stage on one mesh vertex.
pub fn apply_vertex_shader<S: ShaderState>(vertex: Vertex, state: &S) -> (out: VertexOutput)
    ensures
        vertex_shaded(state, vertex, out),
{
    state.vertex_shader(
        VertexInput {
            position: vertex.position.extend(UNIT),
            normal: vertex.normal,
            tex_coord: vertex.uv,
        },
    )
}

/// A colour channel as 8 bits: `channel * 255 / UNIT`, rounded towards
/// zero and held within 0 and 255.
pub open spec fn channel_to_u8(channel: int) -> u8 {
    if channel <= 0 {
        0u8
    } else if channel * 255 / (UNIT as int) >= 255 {
        255u8
    } else {
        (channel * 255 / (UNIT as int)) as u8
    }
}

/// A shaded colour as 8 bits per channel.
pub open spec fn color_to_rgba8_spec(color: Vec4) -> Rgba8 {
    Rgba8 {
        r: channel_to_u8(color.x as int),
        g: channel_to_u8(color.y as int),
        b: channel_to_u8(color.z as int),
        a: channel_to_u8(color.w as int),
    }
}

fn convert_channel(channel: i32) -> (byte: u8)
    ensures
        byte == channel_to_u8(channel as int),
{
    if channel <= 0 {
        0
    } else {
        let scaled: i64 = (channel as i64) * 255 / 1000;
        if scaled >= 255 {
            255
        } else {
            scaled as u8
        }
    }
}

/// Converts a shaded colour to 8 bits per channel.
#[verifier::when_used_as_spec(color_to_rgba8_spec)]
pub fn color_to_rgba8(color: Vec4) -> (pixel: Rgba8)
    ensures
        pixel == color_to_rgba8_spec(color),
{
    Rgba8 {
        r: convert_channel(color.x),
        g: convert_channel(color.y),
        b: convert_channel(color.z),
        a: convert_channel(color.w),
    }
}

} // verus!
