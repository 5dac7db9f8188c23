//! The closed sets a player model is described with: body regions,
//! textures, the arm variant and the armor slots.

use vstd::prelude::*;

verus! {

/// A region of the body, or the overlay drawn around one.
#[derive(Clone, Copy, Debug, PartialEq, Eq, Hash, Structural)]
pub enum PlayerBodyPartType {
    Head,
    Body,
    LeftArm,
    RightArm,
    LeftLeg,
    RightLeg,
    HeadLayer,
    BodyLayer,
    LeftArmLayer,
    RightArmLayer,
    LeftLegLayer,
    RightLegLayer,
}

impl PlayerBodyPartType {
    /// An overlay of the body, the arms or the legs.
    pub open spec fn is_layer_spec(self) -> bool {
        self == PlayerBodyPartType::BodyLayer || self == PlayerBodyPartType::LeftArmLayer || self
            == PlayerBodyPartType::RightArmLayer || self == PlayerBodyPartType::LeftLegLayer
            || self == PlayerBodyPartType::RightLegLayer
    }

    /// The overlay of the head.
    pub open spec fn is_hat_layer_spec(self) -> bool {
        self == PlayerBodyPartType::HeadLayer
    }

    /// A region itself, no overlay.
    pub open spec fn is_base(self) -> bool {
        !self.is_layer_spec() && !self.is_hat_layer_spec()
    }

    /// The region that an overlay lies around; a region is its own.
    pub open spec fn non_layer_part(self) -> PlayerBodyPartType {
        match self {
            PlayerBodyPartType::HeadLayer => PlayerBodyPartType::Head,
            PlayerBodyPartType::BodyLayer => PlayerBodyPartType::Body,
            PlayerBodyPartType::LeftArmLayer => PlayerBodyPartType::LeftArm,
            PlayerBodyPartType::RightArmLayer => PlayerBodyPartType::RightArm,
            PlayerBodyPartType::LeftLegLayer => PlayerBodyPartType::LeftLeg,
            PlayerBodyPartType::RightLegLayer => PlayerBodyPartType::RightLeg,
            other => other,
        }
    }

    #[verifier::when_used_as_spec(is_layer_spec)]
    pub fn is_layer(self) -> (r: bool)
        ensures
            r == self.is_layer_spec(),
    {
        match self {
            PlayerBodyPartType::BodyLayer
            | PlayerBodyPartType::LeftArmLayer
            | PlayerBodyPartType::RightArmLayer
            | PlayerBodyPartType::LeftLegLayer
            | PlayerBodyPartType::RightLegLayer => true,
            _ => false,
        }
    }

    #[verifier::when_used_as_spec(is_hat_layer_spec)]
    pub fn is_hat_layer(self) -> (r: bool)
        ensures
            r == self.is_hat_layer_spec(),
    {
        match self {
            PlayerBodyPartType::HeadLayer => true,
            _ => false,
        }
    }

    #[verifier::when_used_as_spec(non_layer_part)]
    pub fn get_non_layer_part(self) -> (r: PlayerBodyPartType)
        ensures
            r == self.non_layer_part(),
            r.is_base(),
    {
        match self {
            PlayerBodyPartType::HeadLayer => PlayerBodyPartType::Head,
            PlayerBodyPartType::BodyLayer => PlayerBodyPartType::Body,
            PlayerBodyPartType::LeftArmLayer => PlayerBodyPartType::LeftArm,
            PlayerBodyPartType::RightArmLayer => PlayerBodyPartType::RightArm,
            PlayerBodyPartType::LeftLegLayer => PlayerBodyPartType::LeftLeg,
            PlayerBodyPartType::RightLegLayer => PlayerBodyPartType::RightLeg,
            other => other,
        }
    }
}

/// The texture a part samples.
#[derive(Clone, Copy, Debug, PartialEq, Eq, Hash)]
pub enum PlayerPartTextureType {
    Shadow,
    Cape,
    Skin,
    Custom { key: &'static str, size: (u32, u32) },
}

/// The two variants of the model: wide arms or slim arms.
#[derive(Clone, Copy, Debug, PartialEq, Eq, Hash, Structural)]
pub enum PlayerModel {
    Steve,
    Alex,
}

impl PlayerModel {
    pub open spec fn is_slim_arms_spec(self) -> bool {
        self == PlayerModel::Alex
    }

    #[verifier::when_used_as_spec(is_slim_arms_spec)]
    pub fn is_slim_arms(self) -> (r: bool)
        ensures
            r == self.is_slim_arms_spec(),
    {
        match self {
            PlayerModel::Alex => true,
            PlayerModel::Steve => false,
        }
    }
}

/// A piece of equipment's place on the body.
#[derive(Clone, Copy, Debug, PartialEq, Eq, Hash, Structural)]
pub enum PlayerArmorSlot {
    Helmet,
    Chestplate,
    Leggings,
    Boots,
}

impl PlayerArmorSlot {
    /// By how much a piece in this slot stands off the body on every side:
    /// half a unit for leggings, which lie under the other pieces, and a
    /// whole unit for the others.
    pub open spec fn offset(self) -> i32 {
        match self {
            PlayerArmorSlot::Leggings => 500,
            _ => 1000,
        }
    }

    #[verifier::when_used_as_spec(offset)]
    pub fn get_offset(self) -> (r: i32)
        ensures
            r == self.offset(),
    {
        match self {
            PlayerArmorSlot::Leggings => 500,
            _ => 1000,
        }
    }
}

/// The slots whose pieces cover a region, in drawing order. Overlays are
/// covered by none.
pub open spec fn armor_slots_for_part(part: PlayerBodyPartType) -> Seq<PlayerArmorSlot> {
    match part {
        PlayerBodyPartType::Head => seq![PlayerArmorSlot::Helmet],
        PlayerBodyPartType::Body => seq![PlayerArmorSlot::Chestplate, PlayerArmorSlot::Leggings],
        PlayerBodyPartType::LeftArm | PlayerBodyPartType::RightArm => seq![
            PlayerArmorSlot::Chestplate,
        ],
        PlayerBodyPartType::LeftLeg | PlayerBodyPartType::RightLeg => seq![
            PlayerArmorSlot::Leggings,
            PlayerArmorSlot::Boots,
        ],
        _ => Seq::empty(),
    }
}

/// A kind of armor. It tells which texture a piece in a slot samples, if the
/// kind has a piece for that slot at all.
pub trait ArmorMaterial: Sized {
    fn get_texture_type(slot: PlayerArmorSlot) -> Option<PlayerPartTextureType>;
}

/// What a player wears in each slot.
pub struct PlayerArmorSlots<M> {
    pub helmet: Option<M>,
    pub chestplate: Option<M>,
    pub leggings: Option<M>,
    pub boots: Option<M>,
}

impl<M> PlayerArmorSlots<M> {
    /// What is worn in `slot`.
    pub open spec fn armor_slot(&self, slot: PlayerArmorSlot) -> Option<M> {
        match slot {
            PlayerArmorSlot::Helmet => self.helmet,
            PlayerArmorSlot::Chestplate => self.chestplate,
            PlayerArmorSlot::Leggings => self.leggings,
            PlayerArmorSlot::Boots => self.boots,
        }
    }

    pub fn get_armor_slot(&self, slot: PlayerArmorSlot) -> (r: Option<&M>)
        ensures
            r.is_some() == self.armor_slot(slot).is_some(),
            r matches Some(m) ==> self.armor_slot(slot) == Some(*m),
    {
        match slot {
            PlayerArmorSlot::Helmet => self.helmet.as_ref(),
            PlayerArmorSlot::Chestplate => self.chestplate.as_ref(),
            PlayerArmorSlot::Leggings => self.leggings.as_ref(),
            PlayerArmorSlot::Boots => self.boots.as_ref(),
        }
    }

    pub fn get_armor_slots_for_part(part: &PlayerBodyPartType) -> (slots: Vec<PlayerArmorSlot>)
        ensures
            slots@ == armor_slots_for_part(*part),
    {
        let mut slots: Vec<PlayerArmorSlot> = Vec::new();
        match part {
            PlayerBodyPartType::Head => {
                slots.push(PlayerArmorSlot::Helmet);
            },
            PlayerBodyPartType::Body => {
                slots.push(PlayerArmorSlot::Chestplate);
                slots.push(PlayerArmorSlot::Leggings);
            },
            PlayerBodyPartType::LeftArm | PlayerBodyPartType::RightArm => {
                slots.push(PlayerArmorSlot::Chestplate);
            },
            PlayerBodyPartType::LeftLeg | PlayerBodyPartType::RightLeg => {
                slots.push(PlayerArmorSlot::Leggings);
                slots.push(PlayerArmorSlot::Boots);
            },
            _ => {},
        }
        assert(slots@ =~= armor_slots_for_part(*part));
        slots
    }
}

} // verus!
