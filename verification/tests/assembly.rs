use nmsr::math::Vec3;
use nmsr::part::{Part, PartAnchorInfo};
use nmsr::provider::{
    armor_part, compute_base_part, expand_player_body_part, get_body_part_layer_uv_offset,
    get_layer_expand_offset, perform_arm_part_rotation, MinecraftPlayerPartsProvider,
    PartsProvider, PlayerPartProviderContext,
};
use nmsr::types::{
    ArmorMaterial, PlayerArmorSlot, PlayerArmorSlots, PlayerBodyPartType, PlayerModel,
    PlayerPartTextureType,
};
use nmsr::uv::{box_uv, uv_from_pos_and_size, CubeFaceUvs, FaceUvPoint};

/// Armor with a piece for every slot but the boots.
#[derive(Clone, Copy, Debug, PartialEq)]
struct Iron;

const IRON_OUTER: PlayerPartTextureType =
    PlayerPartTextureType::Custom { key: "iron_layer_1", size: (64, 32) };
const IRON_INNER: PlayerPartTextureType =
    PlayerPartTextureType::Custom { key: "iron_layer_2", size: (64, 32) };

impl ArmorMaterial for Iron {
    fn get_texture_type(slot: PlayerArmorSlot) -> Option<PlayerPartTextureType> {
        match slot {
            PlayerArmorSlot::Helmet | PlayerArmorSlot::Chestplate => Some(IRON_OUTER),
            PlayerArmorSlot::Leggings => Some(IRON_INNER),
            PlayerArmorSlot::Boots => None,
        }
    }
}

fn provider() -> MinecraftPlayerPartsProvider<Iron> {
    MinecraftPlayerPartsProvider::default()
}

fn context() -> PlayerPartProviderContext<Iron> {
    PlayerPartProviderContext {
        model: PlayerModel::Steve,
        has_hat_layer: false,
        has_layers: false,
        has_cape: false,
        arm_rotation: 0,
        shadow_y_pos: None,
        armor_slots: None,
    }
}

fn face_uvs(part: &Part) -> CubeFaceUvs {
    match part {
        Part::Cube { face_uvs, .. } => *face_uvs,
        Part::Quad { .. } => panic!("a cube was asked for"),
    }
}

const BASE: [PlayerBodyPartType; 6] = [
    PlayerBodyPartType::Head,
    PlayerBodyPartType::Body,
    PlayerBodyPartType::LeftArm,
    PlayerBodyPartType::RightArm,
    PlayerBodyPartType::LeftLeg,
    PlayerBodyPartType::RightLeg,
];

const LAYERS: [PlayerBodyPartType; 6] = [
    PlayerBodyPartType::HeadLayer,
    PlayerBodyPartType::BodyLayer,
    PlayerBodyPartType::LeftArmLayer,
    PlayerBodyPartType::RightArmLayer,
    PlayerBodyPartType::LeftLegLayer,
    PlayerBodyPartType::RightLegLayer,
];

#[test]
fn head_without_layers_is_one_cube() {
    let parts = provider().get_parts(&context(), PlayerBodyPartType::Head);
    assert_eq!(parts.len(), 1);
    assert!(matches!(parts[0], Part::Cube { .. }));
    assert_eq!(parts[0].get_position(), Vec3::new(-4000, 24000, -4000));
    assert_eq!(parts[0].get_size(), Vec3::new(8000, 8000, 8000));
    assert_eq!(face_uvs(&parts[0]).north.top_left, FaceUvPoint { x: 8, y: 8 });
    assert_eq!(face_uvs(&parts[0]), box_uv(8, 8, [8, 8, 8]));
    assert_eq!(parts[0].get_rotation(), Vec3::new(0, 0, 0));
    assert_eq!(parts[0].get_anchor(), None);
    assert_eq!(parts[0].get_texture(), PlayerPartTextureType::Skin);
}

#[test]
fn left_arm_swings_about_its_anchor() {
    let mut c = context();
    c.arm_rotation = 30000;
    let parts = provider().get_parts(&c, PlayerBodyPartType::LeftArm);
    assert_eq!(parts.len(), 1);
    let size = parts[0].get_size();
    assert_eq!(size, Vec3::new(4000, 12000, 4000));
    assert_eq!(
        parts[0].get_anchor(),
        Some(PartAnchorInfo { anchor: Vec3::new(-size.x, 2 * size.y, 0) })
    );
    assert_eq!(parts[0].get_rotation(), Vec3::new(0, 0, -30000));
    assert_eq!(parts[0].get_position(), Vec3::new(-8000, 12000, -2000));
    let right = provider().get_parts(&c, PlayerBodyPartType::RightArm);
    assert_eq!(right[0].get_anchor(), Some(PartAnchorInfo { anchor: Vec3::new(4000, 24000, 0) }));
    assert_eq!(right[0].get_rotation(), Vec3::new(0, 0, 30000));
}

#[test]
fn head_layer_is_the_head_expanded() {
    let mut c = context();
    c.has_hat_layer = true;
    let parts = provider().get_parts(&c, PlayerBodyPartType::HeadLayer);
    assert_eq!(parts.len(), 1);
    assert!(matches!(parts[0], Part::Cube { .. }));
    assert_eq!(parts[0].get_size(), Vec3::new(9000, 9000, 9000));
    assert_eq!(parts[0].get_position(), Vec3::new(-4500, 23500, -4500));
    assert_eq!(face_uvs(&parts[0]).north.top_left, FaceUvPoint { x: 40, y: 8 });
    assert_eq!(face_uvs(&parts[0]), box_uv(40, 8, [8, 8, 8]));
    assert_eq!(parts[0].get_texture(), PlayerPartTextureType::Skin);
}

#[test]
fn layers_that_are_switched_off_have_no_parts() {
    let mut c = context();
    for layer in LAYERS {
        assert_eq!(provider().get_parts(&c, layer).len(), 0);
    }
    c.has_layers = true;
    assert_eq!(provider().get_parts(&c, PlayerBodyPartType::HeadLayer).len(), 0);
    assert_eq!(provider().get_parts(&c, PlayerBodyPartType::BodyLayer).len(), 1);
    c.has_layers = false;
    c.has_hat_layer = true;
    assert_eq!(provider().get_parts(&c, PlayerBodyPartType::HeadLayer).len(), 1);
    assert_eq!(provider().get_parts(&c, PlayerBodyPartType::LeftLegLayer).len(), 0);
}

#[test]
fn base_parts_follow_the_skin_layout() {
    let expected: [([i32; 3], [i32; 3], (u16, u16)); 6] = [
        ([-4, 24, -4], [8, 8, 8], (8, 8)),
        ([-4, 12, -2], [8, 12, 4], (20, 20)),
        ([-8, 12, -2], [4, 12, 4], (36, 52)),
        ([4, 12, -2], [4, 12, 4], (44, 20)),
        ([-4, 0, -2], [4, 12, 4], (20, 52)),
        ([0, 0, -2], [4, 12, 4], (4, 20)),
    ];
    for (region, (pos, size, uv)) in BASE.into_iter().zip(expected) {
        let part = compute_base_part(region, false);
        assert_eq!(part.get_position(), Vec3::from_whole(pos[0], pos[1], pos[2]));
        assert_eq!(part.get_size(), Vec3::from_whole(size[0], size[1], size[2]));
        let texels = [size[0] as u16, size[1] as u16, size[2] as u16];
        assert_eq!(face_uvs(&part), box_uv(uv.0, uv.1, texels));
        assert_eq!(part.get_texture(), PlayerPartTextureType::Skin);
        assert_eq!(part.get_anchor(), None);
        assert_eq!(part.get_rotation(), Vec3::new(0, 0, 0));
    }
}

#[test]
fn slim_arms_are_a_unit_narrower() {
    let left = compute_base_part(PlayerBodyPartType::LeftArm, true);
    assert_eq!(left.get_position(), Vec3::new(-7000, 12000, -2000));
    assert_eq!(left.get_size(), Vec3::new(3000, 12000, 4000));
    assert_eq!(face_uvs(&left), box_uv(36, 52, [3, 12, 4]));
    let right = compute_base_part(PlayerBodyPartType::RightArm, true);
    assert_eq!(right.get_position(), Vec3::new(4000, 12000, -2000));
    assert_eq!(right.get_size(), Vec3::new(3000, 12000, 4000));
    assert_eq!(face_uvs(&right), box_uv(44, 20, [3, 12, 4]));
    for region in [PlayerBodyPartType::Head, PlayerBodyPartType::Body, PlayerBodyPartType::LeftLeg] {
        assert_eq!(
            compute_base_part(region, true).get_size(),
            compute_base_part(region, false).get_size()
        );
    }
    let mut c = context();
    c.model = PlayerModel::Alex;
    c.arm_rotation = 10000;
    let parts = provider().get_parts(&c, PlayerBodyPartType::LeftArm);
    assert_eq!(parts[0].get_size(), Vec3::new(3000, 12000, 4000));
    assert_eq!(parts[0].get_anchor(), Some(PartAnchorInfo { anchor: Vec3::new(-3000, 24000, 0) }));
    assert_eq!(parts[0].get_rotation(), Vec3::new(0, 0, -10000));
}

#[test]
fn layers_sample_the_overlay_region() {
    let offsets: [(i32, i32); 6] = [(32, 0), (0, 16), (16, 0), (0, 16), (-16, 0), (0, 16)];
    let starts: [(u16, u16); 6] = [(40, 8), (20, 36), (52, 52), (44, 36), (4, 52), (4, 36)];
    let mut c = context();
    c.has_layers = true;
    c.has_hat_layer = true;
    c.arm_rotation = 20000;
    for i in 0..6 {
        assert_eq!(get_body_part_layer_uv_offset(BASE[i]), offsets[i]);
        let margin = if i == 0 { 500 } else { 250 };
        assert_eq!(get_layer_expand_offset(BASE[i]), margin);
        let base = compute_base_part(BASE[i], false);
        let parts = provider().get_parts(&c, LAYERS[i]);
        assert_eq!(parts.len(), 1);
        let (p, s) = (base.get_position(), base.get_size());
        assert_eq!(parts[0].get_position(), Vec3::new(p.x - margin, p.y - margin, p.z - margin));
        assert_eq!(
            parts[0].get_size(),
            Vec3::new(s.x + 2 * margin, s.y + 2 * margin, s.z + 2 * margin)
        );
        let texels = [(s.x / 1000) as u16, (s.y / 1000) as u16, (s.z / 1000) as u16];
        assert_eq!(face_uvs(&parts[0]), box_uv(starts[i].0, starts[i].1, texels));
        let posed = provider().get_parts(&c, BASE[i]);
        assert_eq!(parts[0].get_anchor(), posed[0].get_anchor());
        assert_eq!(parts[0].get_rotation(), posed[0].get_rotation());
    }
    assert_eq!(get_layer_expand_offset(PlayerBodyPartType::HeadLayer), 250);
}

#[test]
fn overlay_of_a_cube_keeps_the_size_of_its_net() {
    let base = compute_base_part(PlayerBodyPartType::Body, false);
    let layer = expand_player_body_part(PlayerBodyPartType::Body, base, 250, (0, 16));
    assert_eq!(layer.get_size(), Vec3::new(8500, 12500, 4500));
    assert_eq!(layer.get_position(), Vec3::new(-4250, 11750, -2250));
    assert_eq!(face_uvs(&layer), box_uv(20, 36, [8, 12, 4]));
    // Sizes are cut to whole texels.
    let fine = expand_player_body_part(PlayerBodyPartType::Body, layer, 0, (0, 0));
    assert_eq!(face_uvs(&fine), box_uv(20, 36, [8, 12, 4]));
    assert_eq!(fine.get_size(), layer.get_size());
}

#[test]
fn cape_hangs_behind_the_body() {
    let mut c = context();
    c.has_cape = true;
    let parts = provider().get_parts(&c, PlayerBodyPartType::Body);
    assert_eq!(parts.len(), 2);
    assert_eq!(parts[0].get_position(), Vec3::new(-4000, 12000, -2000));
    let cape = parts[1];
    assert!(matches!(cape, Part::Cube { .. }));
    assert_eq!(cape.get_position(), Vec3::new(-5000, 8000, 1000));
    assert_eq!(cape.get_size(), Vec3::new(10000, 16000, 1000));
    assert_eq!(face_uvs(&cape), box_uv(1, 1, [10, 16, 1]));
    assert_eq!(cape.get_texture(), PlayerPartTextureType::Cape);
    assert_eq!(cape.get_anchor(), Some(PartAnchorInfo { anchor: Vec3::new(0, 24000, 2000) }));
    assert_eq!(cape.get_rotation(), Vec3::new(5000, 180000, 0));
    // Only the body wears it.
    assert_eq!(provider().get_parts(&c, PlayerBodyPartType::Head).len(), 1);
    c.has_cape = false;
    assert_eq!(provider().get_parts(&c, PlayerBodyPartType::Body).len(), 1);
}

#[test]
fn shadow_lies_under_the_head() {
    let mut c = context();
    c.shadow_y_pos = Some(24000);
    let parts = provider().get_parts(&c, PlayerBodyPartType::Head);
    assert_eq!(parts.len(), 2);
    match parts[1] {
        Part::Quad { position, size, rotation, face_uv, texture, anchor } => {
            assert_eq!(position, Vec3::new(-8000, 24000, -8000));
            assert_eq!(size, Vec3::new(16000, 0, 16000));
            assert_eq!(rotation, Vec3::new(0, 0, 0));
            assert_eq!(face_uv, uv_from_pos_and_size(0, 0, 128, 128));
            assert_eq!(texture, PlayerPartTextureType::Shadow);
            assert_eq!(anchor, None);
        }
        Part::Cube { .. } => panic!("the shadow is a quad"),
    }
    assert_eq!(provider().get_parts(&c, PlayerBodyPartType::Body).len(), 1);
    c.shadow_y_pos = Some(-125);
    assert_eq!(
        provider().get_parts(&c, PlayerBodyPartType::Head)[1].get_position(),
        Vec3::new(-8000, -125, -8000)
    );
}

fn wearing(helmet: bool, chestplate: bool, leggings: bool, boots: bool) -> PlayerArmorSlots<Iron> {
    let piece = |worn: bool| if worn { Some(Iron) } else { None };
    PlayerArmorSlots {
        helmet: piece(helmet),
        chestplate: piece(chestplate),
        leggings: piece(leggings),
        boots: piece(boots),
    }
}

#[test]
fn armor_is_drawn_over_the_region() {
    let mut c = context();
    c.arm_rotation = 15000;
    c.armor_slots = Some(wearing(true, true, true, true));
    let head = provider().get_parts(&c, PlayerBodyPartType::Head);
    assert_eq!(head.len(), 2);
    assert_eq!(head[1].get_size(), Vec3::new(10000, 10000, 10000));
    assert_eq!(head[1].get_position(), Vec3::new(-5000, 23000, -5000));
    assert_eq!(head[1].get_texture(), IRON_OUTER);
    assert_eq!(face_uvs(&head[1]), box_uv(8, 8, [8, 8, 8]));
    // The body is covered by the chestplate and by the leggings.
    let body = provider().get_parts(&c, PlayerBodyPartType::Body);
    assert_eq!(body.len(), 3);
    assert_eq!(body[1].get_size(), Vec3::new(10000, 14000, 6000));
    assert_eq!(body[1].get_texture(), IRON_OUTER);
    assert_eq!(body[2].get_size(), Vec3::new(9000, 13000, 5000));
    assert_eq!(body[2].get_position(), Vec3::new(-4500, 11500, -2500));
    assert_eq!(body[2].get_texture(), IRON_INNER);
    // A chestplate on an arm is a twentieth thicker along Z, and swings
    // with the arm.
    let arm = provider().get_parts(&c, PlayerBodyPartType::LeftArm);
    assert_eq!(arm.len(), 2);
    assert_eq!(arm[1].get_size(), Vec3::new(6000, 14000, 6100));
    assert_eq!(arm[1].get_position(), Vec3::new(-9000, 11000, -3050));
    assert_eq!(arm[1].get_anchor(), Some(PartAnchorInfo { anchor: Vec3::new(-4000, 24000, 0) }));
    assert_eq!(arm[1].get_rotation(), Vec3::new(0, 0, -15000));
    // The material has no boots: the legs wear the leggings alone.
    let leg = provider().get_parts(&c, PlayerBodyPartType::RightLeg);
    assert_eq!(leg.len(), 2);
    assert_eq!(leg[1].get_size(), Vec3::new(5000, 13000, 5000));
    assert_eq!(leg[1].get_texture(), IRON_INNER);
}

#[test]
fn armor_is_drawn_where_it_is_worn() {
    let mut c = context();
    c.armor_slots = Some(wearing(false, false, true, true));
    assert_eq!(provider().get_parts(&c, PlayerBodyPartType::Head).len(), 1);
    assert_eq!(provider().get_parts(&c, PlayerBodyPartType::LeftArm).len(), 1);
    let body = provider().get_parts(&c, PlayerBodyPartType::Body);
    assert_eq!(body.len(), 2);
    assert_eq!(body[1].get_texture(), IRON_INNER);
    c.armor_slots = Some(wearing(false, false, false, true));
    assert_eq!(provider().get_parts(&c, PlayerBodyPartType::LeftLeg).len(), 1);
    // Layers never wear armor; slim arms wear the wide pieces.
    c.armor_slots = Some(wearing(true, true, true, true));
    c.has_layers = true;
    c.model = PlayerModel::Alex;
    assert_eq!(provider().get_parts(&c, PlayerBodyPartType::BodyLayer).len(), 1);
    let arm = provider().get_parts(&c, PlayerBodyPartType::RightArm);
    assert_eq!(arm[0].get_size(), Vec3::new(3000, 12000, 4000));
    assert_eq!(arm[1].get_size(), Vec3::new(6000, 14000, 6100));
    assert_eq!(arm[1].get_anchor(), Some(PartAnchorInfo { anchor: Vec3::new(4000, 24000, 0) }));
    assert_eq!(arm[0].get_anchor(), Some(PartAnchorInfo { anchor: Vec3::new(3000, 24000, 0) }));
}

#[test]
fn armor_pieces_are_built_from_the_wide_cube() {
    let boots = armor_part(PlayerBodyPartType::LeftLeg, PlayerArmorSlot::Boots, IRON_OUTER, 0);
    assert_eq!(boots.get_size(), Vec3::new(6000, 14000, 6000));
    assert_eq!(boots.get_position(), Vec3::new(-5000, -1000, -3000));
    assert_eq!(boots.get_texture(), IRON_OUTER);
    assert_eq!(boots.get_anchor(), None);
    let chest = armor_part(PlayerBodyPartType::Body, PlayerArmorSlot::Chestplate, IRON_INNER, 0);
    assert_eq!(chest.get_size(), Vec3::new(10000, 14000, 6000));
    assert_eq!(PlayerArmorSlot::Helmet.get_offset(), 1000);
    assert_eq!(PlayerArmorSlot::Chestplate.get_offset(), 1000);
    assert_eq!(PlayerArmorSlot::Leggings.get_offset(), 500);
    assert_eq!(PlayerArmorSlot::Boots.get_offset(), 1000);
}

#[test]
fn regions_know_their_slots_and_layers() {
    type Slots = PlayerArmorSlots<Iron>;
    assert_eq!(Slots::get_armor_slots_for_part(&PlayerBodyPartType::Head), vec![PlayerArmorSlot::Helmet]);
    assert_eq!(
        Slots::get_armor_slots_for_part(&PlayerBodyPartType::Body),
        vec![PlayerArmorSlot::Chestplate, PlayerArmorSlot::Leggings]
    );
    assert_eq!(
        Slots::get_armor_slots_for_part(&PlayerBodyPartType::RightArm),
        vec![PlayerArmorSlot::Chestplate]
    );
    assert_eq!(
        Slots::get_armor_slots_for_part(&PlayerBodyPartType::LeftLeg),
        vec![PlayerArmorSlot::Leggings, PlayerArmorSlot::Boots]
    );
    assert_eq!(Slots::get_armor_slots_for_part(&PlayerBodyPartType::HeadLayer), vec![]);
    let worn = wearing(true, false, false, true);
    assert_eq!(worn.get_armor_slot(PlayerArmorSlot::Helmet), Some(&Iron));
    assert_eq!(worn.get_armor_slot(PlayerArmorSlot::Chestplate), None);
    assert_eq!(worn.get_armor_slot(PlayerArmorSlot::Leggings), None);
    assert_eq!(worn.get_armor_slot(PlayerArmorSlot::Boots), Some(&Iron));
    for i in 0..6 {
        assert!(!BASE[i].is_layer() && !BASE[i].is_hat_layer());
        assert_eq!(BASE[i].get_non_layer_part(), BASE[i]);
        assert_eq!(LAYERS[i].get_non_layer_part(), BASE[i]);
        assert_eq!(LAYERS[i].is_hat_layer(), i == 0);
        assert_eq!(LAYERS[i].is_layer(), i != 0);
    }
    assert!(PlayerModel::Alex.is_slim_arms());
    assert!(!PlayerModel::Steve.is_slim_arms());
}

#[test]
fn only_arms_are_posed() {
    for region in BASE {
        let mut part = compute_base_part(region, false);
        perform_arm_part_rotation(region, &mut part, false, 45000);
        let is_arm = region == PlayerBodyPartType::LeftArm || region == PlayerBodyPartType::RightArm;
        assert_eq!(part.get_anchor().is_some(), is_arm);
        assert_eq!(part.get_rotation() != Vec3::new(0, 0, 0), is_arm);
    }
    // The rotation about the other axes stays.
    let mut arm = compute_base_part(PlayerBodyPartType::RightArm, false);
    arm.set_rotation(Vec3::new(1, 2, 3));
    perform_arm_part_rotation(PlayerBodyPartType::RightArm, &mut arm, true, -45000);
    assert_eq!(arm.get_rotation(), Vec3::new(1, 2, -45000));
    assert_eq!(arm.get_anchor(), Some(PartAnchorInfo { anchor: Vec3::new(3000, 24000, 0) }));
}
