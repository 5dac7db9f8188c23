//! The parts a player model is assembled from: cubes and flat quads.

use vstd::prelude::*;
use crate::math::{fits_i32, Vec3, MAX_WHOLE};
use crate::types::PlayerPartTextureType;
use crate::uv::{CubeFaceUvs, FaceUv};

verus! {

/// A position in model space: +X is east, +Y is up, +Z is south.
pub type MinecraftPosition = Vec3;

/// The pivot about which a part's rotation is applied, in the part's own
/// coordinates before the rotation. A part without one turns about its
/// origin.
#[derive(Clone, Copy, Debug, PartialEq, Eq, Structural)]
pub struct PartAnchorInfo {
    pub anchor: MinecraftPosition,
}

impl PartAnchorInfo {
    pub fn new_rotation_anchor_position(anchor: MinecraftPosition) -> (info: PartAnchorInfo)
        ensures
            info == (PartAnchorInfo { anchor }),
    {
        PartAnchorInfo { anchor }
    }
}

/// A part of a player model.
#[derive(Clone, Copy, Debug)]
pub enum Part {
    /// A cuboid with one texture rectangle per face.
    Cube {
        position: MinecraftPosition,
        size: MinecraftPosition,
        rotation: MinecraftPosition,
        face_uvs: CubeFaceUvs,
        texture: PlayerPartTextureType,
        anchor: Option<PartAnchorInfo>,
    },
    /// A flat quad with one texture rectangle.
    Quad {
        position: MinecraftPosition,
        size: MinecraftPosition,
        rotation: MinecraftPosition,
        face_uv: FaceUv,
        texture: PlayerPartTextureType,
        anchor: Option<PartAnchorInfo>,
    },
}

impl Part {
    pub open spec fn position(&self) -> MinecraftPosition {
        match *self {
            Part::Cube { position, .. } => position,
            Part::Quad { position, .. } => position,
        }
    }

    pub open spec fn size(&self) -> MinecraftPosition {
        match *self {
            Part::Cube { size, .. } => size,
            Part::Quad { size, .. } => size,
        }
    }

    pub open spec fn rotation(&self) -> MinecraftPosition {
        match *self {
            Part::Cube { rotation, .. } => rotation,
            Part::Quad { rotation, .. } => rotation,
        }
    }

    pub open spec fn texture(&self) -> PlayerPartTextureType {
        match *self {
            Part::Cube { texture, .. } => texture,
            Part::Quad { texture, .. } => texture,
        }
    }

    pub open spec fn anchor(&self) -> Option<PartAnchorInfo> {
        match *self {
            Part::Cube { anchor, .. } => anchor,
            Part::Quad { anchor, .. } => anchor,
        }
    }

    /// The part with another position and size, all else alike.
    pub open spec fn with_box(&self, new_position: MinecraftPosition, new_size: MinecraftPosition) -> Part {
        match *self {
            Part::Cube { rotation, face_uvs, texture, anchor, .. } => Part::Cube {
                position: new_position,
                size: new_size,
                rotation,
                face_uvs,
                texture,
                anchor,
            },
            Part::Quad { rotation, face_uv, texture, anchor, .. } => Part::Quad {
                position: new_position,
                size: new_size,
                rotation,
                face_uv,
                texture,
                anchor,
            },
        }
    }

    /// The part with another rotation, all else alike.
    pub open spec fn with_rotation(&self, new_rotation: MinecraftPosition) -> Part {
        match *self {
            Part::Cube { position, size, face_uvs, texture, anchor, .. } => Part::Cube {
                position,
                size,
                rotation: new_rotation,
                face_uvs,
                texture,
                anchor,
            },
            Part::Quad { position, size, face_uv, texture, anchor, .. } => Part::Quad {
                position,
                size,
                rotation: new_rotation,
                face_uv,
                texture,
                anchor,
            },
        }
    }

    /// The part with another anchor, all else alike.
    pub open spec fn with_anchor(&self, new_anchor: Option<PartAnchorInfo>) -> Part {
        match *self {
            Part::Cube { position, size, rotation, face_uvs, texture, .. } => Part::Cube {
                position,
                size,
                rotation,
                face_uvs,
                texture,
                anchor: new_anchor,
            },
            Part::Quad { position, size, rotation, face_uv, texture, .. } => Part::Quad {
                position,
                size,
                rotation,
                face_uv,
                texture,
                anchor: new_anchor,
            },
        }
    }

    /// The part with another texture, all else alike.
    pub open spec fn with_texture(&self, new_texture: PlayerPartTextureType) -> Part {
        match *self {
            Part::Cube { position, size, rotation, face_uvs, anchor, .. } => Part::Cube {
                position,
                size,
                rotation,
                face_uvs,
                texture: new_texture,
                anchor,
            },
            Part::Quad { position, size, rotation, face_uv, anchor, .. } => Part::Quad {
                position,
                size,
                rotation,
                face_uv,
                texture: new_texture,
                anchor,
            },
        }
    }

    /// A cube with other texture rectangles, all else alike; a quad as it
    /// is.
    pub open spec fn with_face_uvs(&self, new_face_uvs: CubeFaceUvs) -> Part {
        match *self {
            Part::Cube { position, size, rotation, texture, anchor, .. } => Part::Cube {
                position,
                size,
                rotation,
                face_uvs: new_face_uvs,
                texture,
                anchor,
            },
            Part::Quad { .. } => *self,
        }
    }

    /// The cube with whole-numbered position and size, no rotation and no
    /// anchor.
    pub open spec fn cube(
        texture: PlayerPartTextureType,
        pos: (int, int, int),
        size: (int, int, int),
        face_uvs: CubeFaceUvs,
    ) -> Part {
        Part::Cube {
            position: Vec3::whole(pos.0, pos.1, pos.2),
            size: Vec3::whole(size.0, size.1, size.2),
            rotation: Vec3::zero(),
            face_uvs,
            texture,
            anchor: None,
        }
    }

    /// Creates a cube. `pos` and `size` are whole numbers, each as x, y, z.
    pub fn new_cube(
        texture: PlayerPartTextureType,
        pos: [i32; 3],
        size: [u32; 3],
        uvs: CubeFaceUvs,
    ) -> (part: Part)
        requires
            forall|i: int| 0 <= i < 3 ==> -MAX_WHOLE <= #[trigger] pos[i] <= MAX_WHOLE,
            forall|i: int| 0 <= i < 3 ==> #[trigger] size[i] <= MAX_WHOLE,
        ensures
            part == Part::cube(
                texture,
                (pos[0] as int, pos[1] as int, pos[2] as int),
                (size[0] as int, size[1] as int, size[2] as int),
                uvs,
            ),
    {
        Part::Cube {
            position: Vec3::from_whole(pos[0], pos[1], pos[2]),
            size: Vec3::from_whole(size[0] as i32, size[1] as i32, size[2] as i32),
            rotation: Vec3::new(0, 0, 0),
            face_uvs: uvs,
            texture,
            anchor: None,
        }
    }

    /// Creates a quad at `pos`. `size` is in whole numbers.
    pub fn new_quad(
        texture: PlayerPartTextureType,
        pos: MinecraftPosition,
        size: [u32; 3],
        uv: FaceUv,
    ) -> (part: Part)
        requires
            forall|i: int| 0 <= i < 3 ==> #[trigger] size[i] <= MAX_WHOLE,
        ensures
            part == (Part::Quad {
                position: pos,
                size: Vec3::whole(size[0] as int, size[1] as int, size[2] as int),
                rotation: Vec3::zero(),
                face_uv: uv,
                texture,
                anchor: None,
            }),
    {
        Part::Quad {
            position: pos,
            size: Vec3::from_whole(size[0] as i32, size[1] as i32, size[2] as i32),
            rotation: Vec3::new(0, 0, 0),
            face_uv: uv,
            texture,
            anchor: None,
        }
    }

    /// Whether the part expanded by `amount` still has its position and
    /// its size in the range of the coordinates.
    pub open spec fn can_expand(&self, amount: Vec3) -> bool {
        &&& fits_i32(self.size().x + 2 * amount.x)
        &&& fits_i32(self.size().y + 2 * amount.y)
        &&& fits_i32(self.size().z + 2 * amount.z)
        &&& self is Cube ==> {
            &&& fits_i32(self.position().x - amount.x)
            &&& fits_i32(self.position().y - amount.y)
            &&& fits_i32(self.position().z - amount.z)
        }
    }

    /// The part expanded by `amount` on every side. The size grows by
    /// twice the amount along each axis. A cube moves back by the amount, so
    /// that it stays centred where it was; a quad stays where it is.
    pub open spec fn expanded(&self, amount: Vec3) -> Part {
        let size = Vec3 {
            x: (self.size().x + 2 * amount.x) as i32,
            y: (self.size().y + 2 * amount.y) as i32,
            z: (self.size().z + 2 * amount.z) as i32,
        };
        match *self {
            Part::Cube { position, .. } => self.with_box(
                Vec3 {
                    x: (position.x - amount.x) as i32,
                    y: (position.y - amount.y) as i32,
                    z: (position.z - amount.z) as i32,
                },
                size,
            ),
            Part::Quad { position, .. } => self.with_box(position, size),
        }
    }

    /// Expands the part by `amount` on every side. A negative amount
    /// shrinks it, and may leave a size below zero.
    pub fn expand(&self, amount: Vec3) -> (part: Part)
        requires
            self.can_expand(amount),
        ensures
            part == self.expanded(amount),
    {
        match *self {
            Part::Cube { position, size, rotation, face_uvs, texture, anchor } => Part::Cube {
                position: Vec3::new(
                    (position.x as i64 - amount.x as i64) as i32,
                    (position.y as i64 - amount.y as i64) as i32,
                    (position.z as i64 - amount.z as i64) as i32,
                ),
                size: Vec3::new(
                    (size.x as i64 + 2 * (amount.x as i64)) as i32,
                    (size.y as i64 + 2 * (amount.y as i64)) as i32,
                    (size.z as i64 + 2 * (amount.z as i64)) as i32,
                ),
                rotation,
                face_uvs,
                texture,
                anchor,
            },
            Part::Quad { position, size, rotation, face_uv, texture, anchor } => Part::Quad {
                position,
                size: Vec3::new(
                    (size.x as i64 + 2 * (amount.x as i64)) as i32,
                    (size.y as i64 + 2 * (amount.y as i64)) as i32,
                    (size.z as i64 + 2 * (amount.z as i64)) as i32,
                ),
                rotation,
                face_uv,
                texture,
                anchor,
            },
        }
    }

    /// Expands the part by the same `amount` along all three axes.
    pub fn expand_splat(&self, amount: i32) -> (part: Part)
        requires
            self.can_expand(Vec3 { x: amount, y: amount, z: amount }),
        ensures
            part == self.expanded(Vec3 { x: amount, y: amount, z: amount }),
    {
        self.expand(Vec3::splat(amount))
    }

    pub fn get_anchor(&self) -> (anchor: Option<PartAnchorInfo>)
        ensures
            anchor == self.anchor(),
    {
        match self {
            Part::Cube { anchor, .. } => *anchor,
            Part::Quad { anchor, .. } => *anchor,
        }
    }

    pub fn set_anchor(&mut self, anchor: Option<PartAnchorInfo>)
        ensures
            *final(self) == old(self).with_anchor(anchor),
    {
        *self = match *self {
            Part::Cube { position, size, rotation, face_uvs, texture, .. } => Part::Cube {
                position,
                size,
                rotation,
                face_uvs,
                texture,
                anchor,
            },
            Part::Quad { position, size, rotation, face_uv, texture, .. } => Part::Quad {
                position,
                size,
                rotation,
                face_uv,
                texture,
                anchor,
            },
        };
    }

    pub fn get_rotation(&self) -> (rotation: MinecraftPosition)
        ensures
            rotation == self.rotation(),
    {
        match self {
            Part::Cube { rotation, .. } => *rotation,
            Part::Quad { rotation, .. } => *rotation,
        }
    }

    /// The rotation, to be changed in place.
    pub fn rotation_mut(&mut self) -> (rotation: &mut MinecraftPosition)
        ensures
            *rotation == old(self).rotation(),
            *final(self) == old(self).with_rotation(*final(rotation)),
    {
        match self {
            Part::Cube { rotation, .. } => rotation,
            Part::Quad { rotation, .. } => rotation,
        }
    }

    pub fn set_rotation(&mut self, rotation: MinecraftPosition)
        ensures
            *final(self) == old(self).with_rotation(rotation),
    {
        *self = match *self {
            Part::Cube { position, size, face_uvs, texture, anchor, .. } => Part::Cube {
                position,
                size,
                rotation,
                face_uvs,
                texture,
                anchor,
            },
            Part::Quad { position, size, face_uv, texture, anchor, .. } => Part::Quad {
                position,
                size,
                rotation,
                face_uv,
                texture,
                anchor,
            },
        };
    }

    pub fn get_size(&self) -> (size: MinecraftPosition)
        ensures
            size == self.size(),
    {
        match self {
            Part::Cube { size, .. } => *size,
            Part::Quad { size, .. } => *size,
        }
    }

    pub fn get_position(&self) -> (position: MinecraftPosition)
        ensures
            position == self.position(),
    {
        match self {
            Part::Cube { position, .. } => *position,
            Part::Quad { position, .. } => *position,
        }
    }

    pub fn get_texture(&self) -> (texture: PlayerPartTextureType)
        ensures
            texture == self.texture(),
    {
        match self {
            Part::Cube { texture, .. } => *texture,
            Part::Quad { texture, .. } => *texture,
        }
    }

    pub fn set_texture(&mut self, texture: PlayerPartTextureType)
        ensures
            *final(self) == old(self).with_texture(texture),
    {
        *self = match *self {
            Part::Cube { position, size, rotation, face_uvs, anchor, .. } => Part::Cube {
                position,
                size,
                rotation,
                face_uvs,
                texture,
                anchor,
            },
            Part::Quad { position, size, rotation, face_uv, anchor, .. } => Part::Quad {
                position,
                size,
                rotation,
                face_uv,
                texture,
                anchor,
            },
        };
    }
}

/// Expanding a cube grows its size by twice the amount along each axis,
/// moves its position back by the amount, and so keeps its centre: twice
/// the position plus the size stays what it was.
pub proof fn lemma_expand_cube(part: Part, amount: Vec3)
    requires
        part is Cube,
        part.can_expand(amount),
    ensures
        part.expanded(amount) is Cube,
        part.expanded(amount).size().x == part.size().x + 2 * amount.x,
        part.expanded(amount).size().y == part.size().y + 2 * amount.y,
        part.expanded(amount).size().z == part.size().z + 2 * amount.z,
        part.expanded(amount).position().x == part.position().x - amount.x,
        part.expanded(amount).position().y == part.position().y - amount.y,
        part.expanded(amount).position().z == part.position().z - amount.z,
        2 * part.expanded(amount).position().x + part.expanded(amount).size().x == 2
            * part.position().x + part.size().x,
        2 * part.expanded(amount).position().y + part.expanded(amount).size().y == 2
            * part.position().y + part.size().y,
        2 * part.expanded(amount).position().z + part.expanded(amount).size().z == 2
            * part.position().z + part.size().z,
        part.expanded(amount).rotation() == part.rotation(),
        part.expanded(amount).texture() == part.texture(),
        part.expanded(amount).anchor() == part.anchor(),
{
}

/// Expanding a quad grows its size by twice the amount along each axis and
/// leaves its position where it was.
pub proof fn lemma_expand_quad(part: Part, amount: Vec3)
    requires
        part is Quad,
        part.can_expand(amount),
    ensures
        part.expanded(amount) is Quad,
        part.expanded(amount).size().x == part.size().x + 2 * amount.x,
        part.expanded(amount).size().y == part.size().y + 2 * amount.y,
        part.expanded(amount).size().z == part.size().z + 2 * amount.z,
        part.expanded(amount).position() == part.position(),
        part.expanded(amount).rotation() == part.rotation(),
        part.expanded(amount).texture() == part.texture(),
        part.expanded(amount).anchor() == part.anchor(),
{
}

} // verus!
