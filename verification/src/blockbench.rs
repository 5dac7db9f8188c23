//! The records of a model project as a modeling tool reads them.

use vstd::prelude::*;
use vstd::string::StringExecFns;
use crate::ids::{uuid_bytes, uuid_from_bytes};
use crate::math::Vec3;
use crate::uv::{CubeFaceUvs, FaceUv};

verus! {

/// The header of a project.
#[derive(Clone, Copy, Debug)]
pub struct ProjectMeta {
    pub format_version: &'static str,
    pub model_format: &'static str,
    pub box_uv: bool,
}

impl Default for ProjectMeta {
    fn default() -> (meta: Self)
        ensures
            meta.format_version@ == "4.5"@,
            meta.model_format@ == "free"@,
            !meta.box_uv,
    {
        ProjectMeta { format_version: "4.5", model_format: "free", box_uv: false }
    }
}

/// One face of an element: its texture, the turn of its texture in
/// degrees, and its texture rectangle as left, top, right, bottom.
#[derive(Clone, Copy, Debug)]
pub struct RawProjectElementFace {
    pub texture: u32,
    pub rotation: u32,
    pub uv: [u16; 4],
}

/// The turn in degrees that a face with `count` clockwise quarter turns is
/// written with: none for an upright face, else the quarter turns plus a
/// half turn.
pub open spec fn face_rotation(count: u8) -> u32 {
    if count > 0 {
        (((count + 2) % 4) * 90) as u32
    } else {
        0
    }
}

/// The rectangle that a face is written with. A turned face is first
/// turned on until its quarter turns make a full turn. Then the face's
/// flips are applied: the vertical one, then the horizontal one, which on
/// a face that was turned is a vertical one too.
pub open spec fn face_rect(uv: FaceUv) -> FaceUv
    recommends
        uv.wf(),
{
    let turned = if uv.cw_rotation_count > 0 {
        uv.rotated_cw_times((4 - uv.cw_rotation_count) as nat)
    } else {
        uv
    };
    let flipped = if uv.flipped_vertically {
        turned.flipped_vertically_spec()
    } else {
        turned
    };
    if uv.flipped_horizontally {
        if uv.cw_rotation_count > 0 {
            flipped.flipped_vertically_spec()
        } else {
            flipped.flipped_horizontally_spec()
        }
    } else {
        flipped
    }
}

/// Turning a face on until its quarter turns make a full turn leaves it
/// with no quarter turn.
pub proof fn lemma_full_turn_is_upright(uv: FaceUv)
    requires
        uv.wf(),
    ensures
        uv.rotated_cw_times((4 - uv.cw_rotation_count) as nat).cw_rotation_count == 0,
{
    reveal_with_fuel(FaceUv::rotated_cw_times, 5);
}

impl RawProjectElementFace {
    pub fn new(texture: u32, uv: FaceUv, horizontal: bool) -> (face: RawProjectElementFace)
        requires
            uv.wf(),
        ensures
            face.texture == texture,
            face.rotation == face_rotation(uv.cw_rotation_count),
            face.uv@ == seq![
                face_rect(uv).top_left.x,
                face_rect(uv).top_left.y,
                face_rect(uv).bottom_right.x,
                face_rect(uv).bottom_right.y,
            ],
    {
        let given = uv;
        let mut uv = uv;
        let mut rotation: u32 = (uv.cw_rotation_count as u32) * 90;
        if given.cw_rotation_count > 0 {
            rotation = ((given.cw_rotation_count as u32 + 2) % 4) * 90;
            let current_rotation: u8 = 4 - uv.cw_rotation_count;
            let mut turn: u8 = 0;
            while turn < current_rotation
                invariant
                    turn <= current_rotation,
                    uv == given.rotated_cw_times(turn as nat),
                decreases current_rotation - turn,
            {
                uv = uv.rotate_cw();
                turn = turn + 1;
            }
        }
        if given.flipped_vertically {
            uv = uv.flip_vertically();
        }
        if given.flipped_horizontally {
            uv = if given.cw_rotation_count > 0 {
                uv.flip_vertically()
            } else {
                uv.flip_horizontally()
            }
        }
        let rect: [u16; 4] = [uv.top_left.x, uv.top_left.y, uv.bottom_right.x, uv.bottom_right.y];
        assert(rect@ =~= seq![
            face_rect(given).top_left.x,
            face_rect(given).top_left.y,
            face_rect(given).bottom_right.x,
            face_rect(given).bottom_right.y,
        ]);
        RawProjectElementFace { texture, uv: rect, rotation }
    }
}

/// The six faces of an element.
#[derive(Clone, Copy, Debug)]
pub struct RawProjectElementFaces {
    pub north: RawProjectElementFace,
    pub south: RawProjectElementFace,
    pub east: RawProjectElementFace,
    pub west: RawProjectElementFace,
    pub up: RawProjectElementFace,
    pub down: RawProjectElementFace,
}

impl CubeFaceUvs {
    /// Every face has a rotation count below four.
    pub open spec fn wf(&self) -> bool {
        &&& self.north.wf()
        &&& self.south.wf()
        &&& self.east.wf()
        &&& self.west.wf()
        &&& self.up.wf()
        &&& self.down.wf()
    }
}

/// Whether `face` is what `texture` and `uv` are written as.
pub open spec fn face_written(face: RawProjectElementFace, texture: u32, uv: FaceUv) -> bool {
    &&& face.texture == texture
    &&& face.rotation == face_rotation(uv.cw_rotation_count)
    &&& face.uv@ == seq![
        face_rect(uv).top_left.x,
        face_rect(uv).top_left.y,
        face_rect(uv).bottom_right.x,
        face_rect(uv).bottom_right.y,
    ]
}

impl RawProjectElementFaces {
    pub fn new(texture: u32, faces: CubeFaceUvs) -> (written: RawProjectElementFaces)
        requires
            faces.wf(),
        ensures
            face_written(written.north, texture, faces.north),
            face_written(written.south, texture, faces.south),
            face_written(written.east, texture, faces.east),
            face_written(written.west, texture, faces.west),
            face_written(written.up, texture, faces.up),
            face_written(written.down, texture, faces.down),
    {
        RawProjectElementFaces {
            north: RawProjectElementFace::new(texture, faces.north, false),
            south: RawProjectElementFace::new(texture, faces.south, false),
            east: RawProjectElementFace::new(texture, faces.east, false),
            west: RawProjectElementFace::new(texture, faces.west, false),
            up: RawProjectElementFace::new(texture, faces.up, true),
            down: RawProjectElementFace::new(texture, faces.down, true),
        }
    }
}

/// The size of the texture sheet of a project.
#[derive(Clone, Copy, Debug)]
pub struct ProjectTextureResolution {
    pub width: u32,
    pub height: u32,
}

impl ProjectTextureResolution {
    pub fn new(width: u32, height: u32) -> (resolution: ProjectTextureResolution)
        ensures
            resolution.width == width,
            resolution.height == height,
    {
        ProjectTextureResolution { width, height }
    }
}

/// What `xxhash_rust::xxh3::xxh3_128` returns for `input`.
pub uninterp spec fn xxh3_128_hash(input: Seq<u8>) -> u128;

/// What the standard alphabet of `base64`, with padding, encodes `input` as.
pub uninterp spec fn base64_standard(input: Seq<u8>) -> Seq<char>;

/// `xxhash_rust::xxh3::xxh3_128`: the 128-bit hash of `input` with the
/// default seed and secret, a function of the bytes alone.
#[verifier::external_body]
fn xxh3_128_of(input: &[u8]) -> (hash: u128)
    ensures
        hash == xxh3_128_hash(input@),
{
    xxhash_rust::xxh3::xxh3_128(input)
}

/// `u128::to_be_bytes`: the sixteen bytes of `value`, the most significant
/// first.
#[verifier::external_body]
fn u128_to_be_bytes(value: u128) -> (bytes: [u8; 16])
    ensures
        bytes@ == be_bytes(value),
{
    value.to_be_bytes()
}

/// `base64::Engine::encode` of the engine `STANDARD`: the text that the
/// standard alphabet, with padding, encodes `input` as.
#[verifier::external_body]
fn base64_encode(input: &[u8]) -> (text: String)
    ensures
        text@ == base64_standard(input@),
{
    base64::Engine::encode(&base64::engine::general_purpose::STANDARD, input)
}

/// The sixteen bytes of `value`, the most significant first.
pub open spec fn be_bytes(value: u128) -> Seq<u8> {
    Seq::new(16, |i: int| ((value >> ((8 * (15 - i)) as u128)) & 0xff) as u8)
}

/// `bytes` marked as a version 4 identifier: the upper half of the seventh
/// byte is 4.
pub open spec fn with_version_4(bytes: Seq<u8>) -> Seq<u8>
    recommends
        bytes.len() == 16,
{
    bytes.update(6, (bytes[6] & 0x0f) | 0x40)
}

/// The bytes of the identifier that stands for the name `name`: the hash
/// of its UTF-8 bytes, marked as version 4.
pub open spec fn name_uuid_bytes(name: Seq<char>) -> Seq<u8> {
    with_version_4(be_bytes(xxh3_128_hash(vstd::utf8::encode_utf8(name))))
}

/// The identifier that stands for a name. The same name always has the
/// same identifier.
pub fn str_to_uuid(s: &str) -> (id: uuid::Uuid)
    ensures
        uuid_bytes(id) == name_uuid_bytes(s@),
{
    let mut bytes = u128_to_be_bytes(xxh3_128_of(s.as_bytes()));
    let marked: u8 = (bytes[6] & 0x0f) | 0x40;
    bytes[6] = marked;
    uuid_from_bytes(bytes)
}

/// One cuboid of a project.
#[derive(Debug)]
pub struct RawProjectElement {
    pub name: String,
    pub box_uv: bool,
    pub element_type: &'static str,
    pub uuid: uuid::Uuid,
    pub from: Vec3,
    pub to: Vec3,
    pub origin: Vec3,
    pub rotation: Vec3,
    pub faces: RawProjectElementFaces,
}

impl RawProjectElement {
    pub fn new(
        name: String,
        box_uv: bool,
        from: Vec3,
        to: Vec3,
        origin: Vec3,
        rotation: Vec3,
        faces: RawProjectElementFaces,
    ) -> (element: RawProjectElement)
        ensures
            element.name == name,
            element.box_uv == box_uv,
            element.element_type@ == "cube"@,
            uuid_bytes(element.uuid) == name_uuid_bytes(name@),
            element.from == from,
            element.to == to,
            element.origin == origin,
            element.rotation == rotation,
            element.faces == faces,
    {
        RawProjectElement {
            uuid: str_to_uuid(name.as_str()),
            name,
            box_uv,
            element_type: "cube",
            from,
            to,
            origin,
            rotation,
            faces,
        }
    }
}

/// One texture of a project, its image held as a data address.
#[derive(Debug)]
pub struct RawProjectTexture {
    pub name: String,
    pub id: u32,
    pub path: &'static str,
    pub mode: &'static str,
    pub visible: bool,
    pub saved: bool,
    pub uuid: uuid::Uuid,
    pub source: String,
}

impl RawProjectTexture {
    /// The texture `name` with the image file `source`.
    pub fn new(name: String, id: u32, source: &[u8]) -> (texture: RawProjectTexture)
        ensures
            texture.name == name,
            texture.id == id,
            texture.path@ == ""@,
            texture.mode@ == "bitmap"@,
            texture.visible,
            !texture.saved,
            uuid_bytes(texture.uuid) == name_uuid_bytes(name@),
            texture.source@ == "data:image/png;base64,"@ + base64_standard(source@),
    {
        let encoded = base64_encode(source);
        let address = "data:image/png;base64,".to_owned().concat(encoded.as_str());
        RawProjectTexture {
            path: "",
            uuid: str_to_uuid(name.as_str()),
            name,
            id,
            mode: "bitmap",
            visible: true,
            saved: false,
            source: address,
        }
    }
}

/// A whole project.
#[derive(Debug)]
pub struct RawProject {
    pub meta: ProjectMeta,
    pub resolution: ProjectTextureResolution,
    pub elements: Vec<RawProjectElement>,
    pub textures: Vec<RawProjectTexture>,
}

impl RawProject {
    pub fn new(
        resolution: ProjectTextureResolution,
        elements: Vec<RawProjectElement>,
        textures: Vec<RawProjectTexture>,
    ) -> (project: RawProject)
        ensures
            project.meta.format_version@ == "4.5"@,
            project.meta.model_format@ == "free"@,
            !project.meta.box_uv,
            project.resolution == resolution,
            project.elements == elements,
            project.textures == textures,
    {
        RawProject { meta: ProjectMeta::default(), elements, textures, resolution }
    }
}

} // verus!
