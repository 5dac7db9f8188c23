//! The assembler: the parts that draw each region of the body.

use vstd::prelude::*;
use core::marker::PhantomData;
use crate::math::{Vec3, UNIT};
use crate::part::{Part, PartAnchorInfo};
use crate::types::{
    armor_slots_for_part, ArmorMaterial, PlayerArmorSlot, PlayerArmorSlots, PlayerBodyPartType,
    PlayerModel, PlayerPartTextureType,
};
use crate::uv::{box_uv, box_uv_fits, box_uv_spec, uv_from_pos_and_size, uv_rect};

verus! {

/// The pose and the features that a model is assembled for.
pub struct PlayerPartProviderContext<M: ArmorMaterial> {
    pub model: PlayerModel,
    pub has_hat_layer: bool,
    pub has_layers: bool,
    pub has_cape: bool,
    /// The arm swing in degrees.
    pub arm_rotation: i32,
    /// The height at which the shadow lies, if one is drawn.
    pub shadow_y_pos: Option<i32>,
    pub armor_slots: Option<PlayerArmorSlots<M>>,
}

/// A source of the parts that draw a region. The arm swing of the context
/// must have an opposite, as one arm swings against the other.
pub trait PartsProvider<M: ArmorMaterial> {
    fn get_parts(
        &self,
        context: &PlayerPartProviderContext<M>,
        body_part: PlayerBodyPartType,
    ) -> Vec<Part>
        requires
            context.arm_rotation > i32::MIN,
    ;
}

/// The parts of the classic player model.
pub struct MinecraftPlayerPartsProvider<M>(PhantomData<[M; 4]>);

impl<M> Default for MinecraftPlayerPartsProvider<M> {
    fn default() -> (provider: Self) {
        MinecraftPlayerPartsProvider(PhantomData)
    }
}

/// The cube at the whole-numbered `pos` of the whole-numbered `size` whose
/// texture net has its front face at `uv`.
pub open spec fn body_part_spec(
    texture: PlayerPartTextureType,
    pos: (int, int, int),
    size: (int, int, int),
    uv: (int, int),
) -> Part {
    Part::cube(texture, pos, size, box_uv_spec(uv.0, uv.1, size.0, size.1, size.2))
}

/// The cube of a region, before any pose is applied.
pub open spec fn base_part(part_type: PlayerBodyPartType, is_slim_arms: bool) -> Part
    recommends
        part_type.is_base(),
{
    let skin = PlayerPartTextureType::Skin;
    match part_type {
        PlayerBodyPartType::Head => body_part_spec(skin, (-4, 24, -4), (8, 8, 8), (8, 8)),
        PlayerBodyPartType::Body => body_part_spec(skin, (-4, 12, -2), (8, 12, 4), (20, 20)),
        PlayerBodyPartType::LeftArm => if is_slim_arms {
            body_part_spec(skin, (-7, 12, -2), (3, 12, 4), (36, 52))
        } else {
            body_part_spec(skin, (-8, 12, -2), (4, 12, 4), (36, 52))
        },
        PlayerBodyPartType::RightArm => if is_slim_arms {
            body_part_spec(skin, (4, 12, -2), (3, 12, 4), (44, 20))
        } else {
            body_part_spec(skin, (4, 12, -2), (4, 12, 4), (44, 20))
        },
        PlayerBodyPartType::LeftLeg => body_part_spec(skin, (-4, 0, -2), (4, 12, 4), (20, 52)),
        _ => body_part_spec(skin, (0, 0, -2), (4, 12, 4), (4, 20)),
    }
}

/// `part` posed as an arm of the region `part_type`: anchored at the size
/// of the region's cube times (-1, 2, 0) for the left arm and (1, 2, 0) for
/// the right arm, and turned about the Z axis by the swing angle, negated
/// for the left arm. Any other region is left as it is.
pub open spec fn arm_rotated(
    part: Part,
    part_type: PlayerBodyPartType,
    is_slim_arms: bool,
    angle: i32,
) -> Part {
    let size = base_part(part_type, is_slim_arms).size();
    if part_type == PlayerBodyPartType::LeftArm {
        let anchored = part.with_anchor(Some(PartAnchorInfo { anchor: size.scaled(-1, 2, 0) }));
        anchored.with_rotation(
            Vec3 { x: anchored.rotation().x, y: anchored.rotation().y, z: (-angle) as i32 },
        )
    } else if part_type == PlayerBodyPartType::RightArm {
        let anchored = part.with_anchor(Some(PartAnchorInfo { anchor: size.scaled(1, 2, 0) }));
        anchored.with_rotation(
            Vec3 { x: anchored.rotation().x, y: anchored.rotation().y, z: angle },
        )
    } else {
        part
    }
}

/// By how much the overlay of a region stands off it on every side.
pub open spec fn layer_expand_offset(part_type: PlayerBodyPartType) -> i32 {
    if part_type == PlayerBodyPartType::Head {
        500
    } else {
        250
    }
}

/// By how many texels the net of a region's overlay lies off the net of
/// the region on the texture sheet.
pub open spec fn layer_uv_offset(part_type: PlayerBodyPartType) -> (i32, i32)
    recommends
        part_type.is_base(),
{
    match part_type {
        PlayerBodyPartType::Head => (32, 0),
        PlayerBodyPartType::Body => (0, 16),
        PlayerBodyPartType::LeftArm => (16, 0),
        PlayerBodyPartType::RightArm => (0, 16),
        PlayerBodyPartType::LeftLeg => (-16i32, 0),
        _ => (0, 16),
    }
}

/// A length in whole texels: rounded towards zero and held within the range
/// of a texel coordinate.
pub open spec fn whole_texels(length: int) -> int {
    if length <= 0 {
        0
    } else if length / (UNIT as int) > u16::MAX {
        u16::MAX as int
    } else {
        length / (UNIT as int)
    }
}

/// The net that the overlay of the cube `part` samples: the net of a cuboid
/// of the part's size whose front face starts `uv_offset` off the part's own.
pub open spec fn layer_net_start(part: Part, uv_offset: (i32, i32)) -> (int, int)
    recommends
        part is Cube,
{
    (
        part->Cube_face_uvs.north.top_left.x + uv_offset.0,
        part->Cube_face_uvs.north.top_left.y + uv_offset.1,
    )
}

/// Whether the overlay of the cube `part` can be built: the expanded cube is
/// within the range of the coordinates and the overlay's net lies on the
/// texture sheet.
pub open spec fn can_expand_body_part(part: Part, expand_offset: i32, uv_offset: (i32, i32)) -> bool {
    &&& part is Cube
    &&& part.can_expand(Vec3 { x: expand_offset, y: expand_offset, z: expand_offset })
    &&& 0 <= layer_net_start(part, uv_offset).0
    &&& 0 <= layer_net_start(part, uv_offset).1
    &&& box_uv_fits(
        layer_net_start(part, uv_offset).0,
        layer_net_start(part, uv_offset).1,
        whole_texels(part.size().x as int),
        whole_texels(part.size().y as int),
        whole_texels(part.size().z as int),
    )
}

/// The overlay of the cube `part`: the part expanded by `expand_offset` on
/// every side, sampling the net that `layer_net_start` gives.
pub open spec fn expanded_body_part(part: Part, expand_offset: i32, uv_offset: (i32, i32)) -> Part {
    part.expanded(Vec3 { x: expand_offset, y: expand_offset, z: expand_offset }).with_face_uvs(
        box_uv_spec(
            layer_net_start(part, uv_offset).0,
            layer_net_start(part, uv_offset).1,
            whole_texels(part.size().x as int),
            whole_texels(part.size().y as int),
            whole_texels(part.size().z as int),
        ),
    )
}

/// The cape: a thin cube behind the torso, hung from an anchor at the
/// shoulders and turned to fall down the back.
pub open spec fn cape_part() -> Part {
    body_part_spec(PlayerPartTextureType::Cape, (-5, 8, 1), (10, 16, 1), (1, 1)).with_anchor(
        Some(PartAnchorInfo { anchor: Vec3::whole(0, 24, 2) }),
    ).with_rotation(Vec3::whole(5, 180, 0))
}

/// The shadow: a flat quad of 16 by 16 units under the model at the height
/// `y`, sampling a square of 128 texels.
pub open spec fn shadow_part(y: i32) -> Part {
    Part::Quad {
        position: Vec3 { x: -8000i32, y, z: -8000i32 },
        size: Vec3::whole(16, 0, 16),
        rotation: Vec3::zero(),
        face_uv: uv_rect(0, 0, 128, 128),
        texture: PlayerPartTextureType::Shadow,
        anchor: None,
    }
}

/// The piece of armor that covers the region `part_type` in `slot`: the
/// region's wide cube expanded by the slot's offset, a chestplate on a limb
/// by a twentieth more along Z, posed as the region is and sampling
/// `texture`.
pub open spec fn armor_part_spec(
    part_type: PlayerBodyPartType,
    slot: PlayerArmorSlot,
    texture: PlayerPartTextureType,
    angle: i32,
) -> Part {
    let offset = slot.offset();
    let worn = base_part(part_type, false).expanded(Vec3 { x: offset, y: offset, z: offset });
    let fitted = if slot == PlayerArmorSlot::Chestplate && part_type != PlayerBodyPartType::Body {
        worn.expanded(Vec3 { x: 0, y: 0, z: 50 })
    } else {
        worn
    };
    arm_rotated(fitted, part_type, false, angle).with_texture(texture)
}

/// The pieces of armor on the region `part_type`, one for each of the
/// region's first `textures.len()` slots that has a texture in `textures`.
pub open spec fn armor_parts(
    part_type: PlayerBodyPartType,
    textures: Seq<Option<PlayerPartTextureType>>,
    angle: i32,
) -> Seq<Part>
    decreases textures.len(),
{
    if textures.len() == 0 {
        Seq::empty()
    } else {
        let before = armor_parts(part_type, textures.drop_last(), angle);
        match textures.last() {
            Some(texture) => before.push(
                armor_part_spec(
                    part_type,
                    armor_slots_for_part(part_type)[textures.len() - 1],
                    texture,
                    angle,
                ),
            ),
            None => before,
        }
    }
}

/// Where no slot has a texture, there are no pieces of armor.
pub proof fn lemma_no_textures_no_armor(
    part_type: PlayerBodyPartType,
    textures: Seq<Option<PlayerPartTextureType>>,
    angle: i32,
)
    requires
        forall|i: int| 0 <= i < textures.len() ==> (#[trigger] textures[i]) is None,
    ensures
        armor_parts(part_type, textures, angle) == Seq::<Part>::empty(),
    decreases textures.len(),
{
    if textures.len() > 0 {
        lemma_no_textures_no_armor(part_type, textures.drop_last(), angle);
    }
}

/// Whether `textures` holds, for each slot of the region, the texture of
/// the piece drawn there: one that the material names for the slot where
/// something is worn in it, none where nothing is worn.
pub open spec fn armor_textures_chosen<M: ArmorMaterial>(
    worn: Option<PlayerArmorSlots<M>>,
    part_type: PlayerBodyPartType,
    textures: Seq<Option<PlayerPartTextureType>>,
) -> bool {
    &&& textures.len() == armor_slots_for_part(part_type).len()
    &&& forall|i: int|
        0 <= i < textures.len() ==> if worn is Some && worn->Some_0.armor_slot(
            armor_slots_for_part(part_type)[i],
        ) is Some {
            call_ensures(
                M::get_texture_type,
                (armor_slots_for_part(part_type)[i],),
                #[trigger] textures[i],
            )
        } else {
            textures[i] is None
        }
}

/// The region's cube as the pose leaves it.
pub open spec fn posed_part<M: ArmorMaterial>(
    context: &PlayerPartProviderContext<M>,
    part_type: PlayerBodyPartType,
) -> Part {
    arm_rotated(
        base_part(part_type, context.model.is_slim_arms_spec()),
        part_type,
        context.model.is_slim_arms_spec(),
        context.arm_rotation,
    )
}

/// Whether the context switches the overlay `body_part` off.
pub open spec fn layer_disabled<M: ArmorMaterial>(
    context: &PlayerPartProviderContext<M>,
    body_part: PlayerBodyPartType,
) -> bool {
    body_part.is_layer_spec() && !context.has_layers || body_part.is_hat_layer_spec()
        && !context.has_hat_layer
}

/// The parts of a region without its armor: the posed cube, the cape
/// behind the torso where one is worn, the shadow under the head where one
/// is drawn.
pub open spec fn region_parts<M: ArmorMaterial>(
    context: &PlayerPartProviderContext<M>,
    body_part: PlayerBodyPartType,
) -> Seq<Part>
    recommends
        body_part.is_base(),
{
    let posed = seq![posed_part(context, body_part)];
    let caped = if body_part == PlayerBodyPartType::Body && context.has_cape {
        posed.push(cape_part())
    } else {
        posed
    };
    if body_part == PlayerBodyPartType::Head && context.shadow_y_pos is Some {
        caped.push(shadow_part(context.shadow_y_pos->Some_0))
    } else {
        caped
    }
}

/// The size of `part` is not negative along any axis.
pub open spec fn size_not_negative(part: Part) -> bool {
    part.size().x >= 0 && part.size().y >= 0 && part.size().z >= 0
}

/// A piece of armor has a size that is not negative.
pub proof fn lemma_armor_part_size(
    part_type: PlayerBodyPartType,
    slot: PlayerArmorSlot,
    texture: PlayerPartTextureType,
    angle: i32,
)
    requires
        part_type.is_base(),
    ensures
        size_not_negative(armor_part_spec(part_type, slot, texture, angle)),
{
}

/// All pieces of armor on a region have sizes that are not negative.
pub proof fn lemma_armor_parts_sizes(
    part_type: PlayerBodyPartType,
    textures: Seq<Option<PlayerPartTextureType>>,
    angle: i32,
)
    requires
        part_type.is_base(),
    ensures
        forall|i: int|
            0 <= i < armor_parts(part_type, textures, angle).len() ==> size_not_negative(
                #[trigger] armor_parts(part_type, textures, angle)[i],
            ),
    decreases textures.len(),
{
    if textures.len() > 0 {
        let before = armor_parts(part_type, textures.drop_last(), angle);
        let parts = armor_parts(part_type, textures, angle);
        lemma_armor_parts_sizes(part_type, textures.drop_last(), angle);
        if let Some(texture) = textures.last() {
            lemma_armor_part_size(
                part_type,
                armor_slots_for_part(part_type)[textures.len() - 1],
                texture,
                angle,
            );
        }
        assert forall|i: int| 0 <= i < parts.len() implies size_not_negative(
            #[trigger] parts[i],
        ) by {
            if i < before.len() {
                assert(parts[i] == before[i]);
            }
        }
    }
}

/// Every part that the assembler yields has a size that is not negative
/// along any axis: the parts of a region with any armor on it, and the
/// overlay of a region.
pub proof fn lemma_assembled_sizes_not_negative<M: ArmorMaterial>(
    context: &PlayerPartProviderContext<M>,
    body_part: PlayerBodyPartType,
    textures: Seq<Option<PlayerPartTextureType>>,
)
    ensures
        body_part.is_base() ==> forall|i: int|
            0 <= i < (region_parts(context, body_part) + armor_parts(
                body_part,
                textures,
                context.arm_rotation,
            )).len() ==> size_not_negative(
                #[trigger] (region_parts(context, body_part) + armor_parts(
                    body_part,
                    textures,
                    context.arm_rotation,
                ))[i],
            ),
        !body_part.is_base() ==> size_not_negative(
            expanded_body_part(
                posed_part(context, body_part.non_layer_part()),
                layer_expand_offset(body_part.non_layer_part()),
                layer_uv_offset(body_part.non_layer_part()),
            ),
        ),
{
    if body_part.is_base() {
        lemma_armor_parts_sizes(body_part, textures, context.arm_rotation);
        let region = region_parts(context, body_part);
        assert forall|i: int| 0 <= i < region.len() implies size_not_negative(
            #[trigger] region[i],
        ) by {
            assert(size_not_negative(posed_part(context, body_part)));
            assert(size_not_negative(cape_part()));
            if context.shadow_y_pos is Some {
                assert(size_not_negative(shadow_part(context.shadow_y_pos->Some_0)));
            }
        }
    }
}

fn body_part(
    texture: PlayerPartTextureType,
    pos: [i32; 3],
    size: [u16; 3],
    uv_x: u16,
    uv_y: u16,
) -> (part: Part)
    requires
        forall|i: int| 0 <= i < 3 ==> -crate::math::MAX_WHOLE <= #[trigger] pos[i]
            <= crate::math::MAX_WHOLE,
        box_uv_fits(uv_x as int, uv_y as int, size[0] as int, size[1] as int, size[2] as int),
    ensures
        part == body_part_spec(
            texture,
            (pos[0] as int, pos[1] as int, pos[2] as int),
            (size[0] as int, size[1] as int, size[2] as int),
            (uv_x as int, uv_y as int),
        ),
{
    let wide: [u32; 3] = [size[0] as u32, size[1] as u32, size[2] as u32];
    Part::new_cube(texture, pos, wide, box_uv(uv_x, uv_y, size))
}

/// The cube of a region, before any pose is applied. Arms are a unit
/// narrower in the slim variant.
pub fn compute_base_part(non_layer_body_part_type: PlayerBodyPartType, is_slim_arms: bool) -> (part:
    Part)
    requires
        non_layer_body_part_type.is_base(),
    ensures
        part == base_part(non_layer_body_part_type, is_slim_arms),
{
    let skin = PlayerPartTextureType::Skin;
    match non_layer_body_part_type {
        PlayerBodyPartType::Head => body_part(skin, [-4, 24, -4], [8, 8, 8], 8, 8),
        PlayerBodyPartType::Body => body_part(skin, [-4, 12, -2], [8, 12, 4], 20, 20),
        PlayerBodyPartType::LeftArm => {
            if is_slim_arms {
                body_part(skin, [-7, 12, -2], [3, 12, 4], 36, 52)
            } else {
                body_part(skin, [-8, 12, -2], [4, 12, 4], 36, 52)
            }
        },
        PlayerBodyPartType::RightArm => {
            if is_slim_arms {
                body_part(skin, [4, 12, -2], [3, 12, 4], 44, 20)
            } else {
                body_part(skin, [4, 12, -2], [4, 12, 4], 44, 20)
            }
        },
        PlayerBodyPartType::LeftLeg => body_part(skin, [-4, 0, -2], [4, 12, 4], 20, 52),
        _ => body_part(skin, [0, 0, -2], [4, 12, 4], 4, 20),
    }
}

/// Poses `part` as an arm of the region; see `arm_rotated`.
pub fn perform_arm_part_rotation(
    non_layer_body_part_type: PlayerBodyPartType,
    part: &mut Part,
    is_slim_arms: bool,
    arm_rotation_angle: i32,
)
    requires
        non_layer_body_part_type.is_base(),
        arm_rotation_angle > i32::MIN,
    ensures
        *final(part) == arm_rotated(
            *old(part),
            non_layer_body_part_type,
            is_slim_arms,
            arm_rotation_angle,
        ),
{
    let normal_part_size = compute_base_part(non_layer_body_part_type, is_slim_arms).get_size();
    if non_layer_body_part_type == PlayerBodyPartType::LeftArm {
        let anchor = normal_part_size.scale(-1, 2, 0);
        part.set_anchor(Some(PartAnchorInfo::new_rotation_anchor_position(anchor)));
        part.rotation_mut().z = -arm_rotation_angle;
    } else if non_layer_body_part_type == PlayerBodyPartType::RightArm {
        let anchor = normal_part_size.scale(1, 2, 0);
        part.set_anchor(Some(PartAnchorInfo::new_rotation_anchor_position(anchor)));
        part.rotation_mut().z = arm_rotation_angle;
    }
}

fn append_cape_part(result: &mut Vec<Part>)
    ensures
        final(result)@ == old(result)@.push(cape_part()),
{
    let mut cape = body_part(PlayerPartTextureType::Cape, [-5, 8, 1], [10, 16, 1], 1, 1);
    cape.set_anchor(
        Some(PartAnchorInfo::new_rotation_anchor_position(Vec3::from_whole(0, 24, 2))),
    );
    cape.set_rotation(Vec3::from_whole(5, 180, 0));
    result.push(cape);
}

fn whole_texels_exec(length: i32) -> (texels: u16)
    ensures
        texels == whole_texels(length as int),
{
    if length <= 0 {
        0
    } else if length / 1000 > 65535 {
        65535
    } else {
        (length / 1000) as u16
    }
}

/// Builds the overlay of the cube `part`; see `expanded_body_part`.
pub fn expand_player_body_part(
    non_layer_body_part_type: PlayerBodyPartType,
    part: Part,
    expand_offset: i32,
    box_uv_offset: (i32, i32),
) -> (new_part: Part)
    requires
        can_expand_body_part(part, expand_offset, box_uv_offset),
    ensures
        new_part == expanded_body_part(part, expand_offset, box_uv_offset),
{
    let expanded = part.expand_splat(expand_offset);
    match (part, expanded) {
        (
            Part::Cube { face_uvs: current, size: part_size, .. },
            Part::Cube { position, size, rotation, texture, anchor, .. },
        ) => {
            let uv_x: i32 = current.north.top_left.x as i32 + box_uv_offset.0;
            let uv_y: i32 = current.north.top_left.y as i32 + box_uv_offset.1;
            let face_uvs = box_uv(
                uv_x as u16,
                uv_y as u16,
                [
                    whole_texels_exec(part_size.x),
                    whole_texels_exec(part_size.y),
                    whole_texels_exec(part_size.z),
                ],
            );
            Part::Cube { position, size, rotation, face_uvs, texture, anchor }
        },
        _ => expanded,
    }
}

/// By how many texels the net of a region's overlay lies off the net of
/// the region on the texture sheet.
pub fn get_body_part_layer_uv_offset(non_layer_body_part_type: PlayerBodyPartType) -> (offset: (
    i32,
    i32,
))
    requires
        non_layer_body_part_type.is_base(),
    ensures
        offset == layer_uv_offset(non_layer_body_part_type),
{
    match non_layer_body_part_type {
        PlayerBodyPartType::Head => (32, 0),
        PlayerBodyPartType::Body => (0, 16),
        PlayerBodyPartType::LeftArm => (16, 0),
        PlayerBodyPartType::RightArm => (0, 16),
        PlayerBodyPartType::LeftLeg => (-16, 0),
        _ => (0, 16),
    }
}

/// By how much the overlay of a region stands off it on every side: half
/// a unit around the head, a quarter around the rest.
pub fn get_layer_expand_offset(body_part: PlayerBodyPartType) -> (offset: i32)
    ensures
        offset == layer_expand_offset(body_part),
{
    match body_part {
        PlayerBodyPartType::Head => 500,
        _ => 250,
    }
}

/// Builds the piece of armor that covers a region in `slot` and samples
/// `texture`; see `armor_part_spec`.
pub fn armor_part(
    non_layer_body_part_type: PlayerBodyPartType,
    slot: PlayerArmorSlot,
    texture: PlayerPartTextureType,
    arm_rotation_angle: i32,
) -> (part: Part)
    requires
        non_layer_body_part_type.is_base(),
        arm_rotation_angle > i32::MIN,
    ensures
        part == armor_part_spec(non_layer_body_part_type, slot, texture, arm_rotation_angle),
{
    let amount = slot.get_offset();
    let mut armor_part = compute_base_part(non_layer_body_part_type, false).expand_splat(amount);
    if slot == PlayerArmorSlot::Chestplate && non_layer_body_part_type
        != PlayerBodyPartType::Body {
        armor_part = armor_part.expand(Vec3::new(0, 0, 50));
    }
    perform_arm_part_rotation(non_layer_body_part_type, &mut armor_part, false, arm_rotation_angle);
    armor_part.set_texture(texture);
    armor_part
}

impl<M: ArmorMaterial> PartsProvider<M> for MinecraftPlayerPartsProvider<M> {
    /// The parts that draw `body_part`, in drawing order.
    ///
    /// An overlay that the context switches off has no parts. Any other
    /// overlay is one cube: the posed cube of its region, expanded and
    /// sampling the overlay's net. A region is its posed cube, its cape or
    /// shadow where it has one, and a piece of armor for each of its slots
    /// in which something is worn and for which the material names a
    /// texture.
    fn get_parts(
        &self,
        context: &PlayerPartProviderContext<M>,
        body_part: PlayerBodyPartType,
    ) -> (parts: Vec<Part>)
        ensures
            layer_disabled(context, body_part) ==> parts@ == Seq::<Part>::empty(),
            !layer_disabled(context, body_part) && !body_part.is_base() ==> parts@ == seq![
                expanded_body_part(
                    posed_part(context, body_part.non_layer_part()),
                    layer_expand_offset(body_part.non_layer_part()),
                    layer_uv_offset(body_part.non_layer_part()),
                ),
            ],
            body_part.is_base() ==> exists|textures: Seq<Option<PlayerPartTextureType>>|
                {
                    &&& #[trigger] armor_textures_chosen(context.armor_slots, body_part, textures)
                    &&& parts@ == region_parts(context, body_part) + armor_parts(
                        body_part,
                        textures,
                        context.arm_rotation,
                    )
                },
    {
        if body_part.is_layer() && !context.has_layers || body_part.is_hat_layer()
            && !context.has_hat_layer {
            return Vec::new();
        }
        let non_layer_body_part_type = body_part.get_non_layer_part();
        let mut part = compute_base_part(non_layer_body_part_type, context.model.is_slim_arms());
        perform_arm_part_rotation(
            non_layer_body_part_type,
            &mut part,
            context.model.is_slim_arms(),
            context.arm_rotation,
        );
        if body_part.is_layer() || body_part.is_hat_layer() {
            let expand_offset = get_layer_expand_offset(non_layer_body_part_type);
            let box_uv_offset = get_body_part_layer_uv_offset(non_layer_body_part_type);
            let mut layer: Vec<Part> = Vec::new();
            layer.push(
                expand_player_body_part(
                    non_layer_body_part_type,
                    part,
                    expand_offset,
                    box_uv_offset,
                ),
            );
            assert(layer@ =~= seq![
                expanded_body_part(
                    posed_part(context, body_part.non_layer_part()),
                    layer_expand_offset(body_part.non_layer_part()),
                    layer_uv_offset(body_part.non_layer_part()),
                ),
            ]);
            return layer;
        }
        let mut result: Vec<Part> = Vec::new();
        result.push(part);
        if body_part == PlayerBodyPartType::Body && context.has_cape {
            append_cape_part(&mut result);
        }
        if body_part == PlayerBodyPartType::Head {
            if let Some(shadow_y_pos) = context.shadow_y_pos {
                let shadow = Part::new_quad(
                    PlayerPartTextureType::Shadow,
                    Vec3::new(-8000, shadow_y_pos, -8000),
                    [16, 0, 16],
                    uv_from_pos_and_size(0, 0, 128, 128),
                );
                result.push(shadow);
            }
        }
        assert(result@ =~= region_parts(context, body_part));
        let part_slots = PlayerArmorSlots::<M>::get_armor_slots_for_part(&non_layer_body_part_type);
        let ghost mut textures: Seq<Option<PlayerPartTextureType>> = Seq::empty();
        let mut i: usize = 0;
        while i < part_slots.len()
            invariant
                body_part.is_base(),
                non_layer_body_part_type == body_part,
                context.arm_rotation > i32::MIN,
                part_slots@ == armor_slots_for_part(body_part),
                i <= part_slots.len(),
                textures.len() == i,
                forall|k: int|
                    0 <= k < i ==> if context.armor_slots is Some
                        && context.armor_slots->Some_0.armor_slot(part_slots@[k]) is Some {
                        call_ensures(M::get_texture_type, (part_slots@[k],), #[trigger] textures[k])
                    } else {
                        textures[k] is None
                    },
                result@ == region_parts(context, body_part) + armor_parts(
                    body_part,
                    textures,
                    context.arm_rotation,
                ),
            decreases part_slots.len() - i,
        {
            let slot = part_slots[i];
            let ghost before = textures;
            let mut drawn: Option<PlayerPartTextureType> = None;
            if let Some(armor_slots) = &context.armor_slots {
                if armor_slots.get_armor_slot(slot).is_some() {
                    drawn = M::get_texture_type(slot);
                    if let Some(texture) = drawn {
                        result.push(
                            armor_part(non_layer_body_part_type, slot, texture, context.arm_rotation),
                        );
                    }
                }
            }
            proof {
                textures = textures.push(drawn);
                assert(textures.drop_last() =~= before);
                assert(textures.last() == drawn);
                assert(result@ =~= region_parts(context, body_part) + armor_parts(
                    body_part,
                    textures,
                    context.arm_rotation,
                ));
            }
            i = i + 1;
        }
        assert(armor_textures_chosen(context.armor_slots, body_part, textures));
        result
    }
}

} // verus!
