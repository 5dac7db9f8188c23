//! What a render request names: whose model to draw, which variant of it,
//! and which features to draw it with.

use vstd::prelude::*;
use core::time::Duration;
use crate::ids::{bytes_equal, uuid_bytes, uuid_equal};

verus! {

/// The variant of a player's model.
#[derive(Clone, Copy, Debug, PartialEq, Eq, Hash, Structural)]
pub enum RenderRequestEntryModel {
    Steve,
    Alex,
}

impl RenderRequestEntryModel {
    /// The number of variants.
    pub const COUNT: usize = 2;

    /// The number a variant is stored as.
    pub open spec fn repr_spec(self) -> u8 {
        match self {
            RenderRequestEntryModel::Steve => 0,
            RenderRequestEntryModel::Alex => 1,
        }
    }

    /// The variant that is stored as `discriminant`, if there is one.
    pub open spec fn from_repr_spec(discriminant: usize) -> Option<RenderRequestEntryModel> {
        if discriminant == 0 {
            Some(RenderRequestEntryModel::Steve)
        } else if discriminant == 1 {
            Some(RenderRequestEntryModel::Alex)
        } else {
            None
        }
    }

    /// The model of a skin: the slim one for a skin made for slim arms,
    /// else the wide one.
    pub fn from_slim(is_slim: bool) -> (model: RenderRequestEntryModel)
        ensures
            model == if is_slim {
                RenderRequestEntryModel::Alex
            } else {
                RenderRequestEntryModel::Steve
            },
    {
        if is_slim {
            RenderRequestEntryModel::Alex
        } else {
            RenderRequestEntryModel::Steve
        }
    }

    #[verifier::when_used_as_spec(repr_spec)]
    pub fn repr(self) -> (r: u8)
        ensures
            r == self.repr_spec(),
            r < RenderRequestEntryModel::COUNT,
    {
        match self {
            RenderRequestEntryModel::Steve => 0,
            RenderRequestEntryModel::Alex => 1,
        }
    }

    #[verifier::when_used_as_spec(from_repr_spec)]
    pub fn from_repr(discriminant: usize) -> (model: Option<RenderRequestEntryModel>)
        ensures
            model == RenderRequestEntryModel::from_repr_spec(discriminant),
    {
        if discriminant == 0 {
            Some(RenderRequestEntryModel::Steve)
        } else if discriminant == 1 {
            Some(RenderRequestEntryModel::Alex)
        } else {
            None
        }
    }
}

impl Default for RenderRequestEntryModel {
    fn default() -> (model: Self)
        ensures
            model == RenderRequestEntryModel::Steve,
    {
        RenderRequestEntryModel::Steve
    }
}

/// A variant is stored as a number that names it again.
pub proof fn lemma_model_repr_round_trip(model: RenderRequestEntryModel)
    ensures
        RenderRequestEntryModel::from_repr_spec(model.repr_spec() as usize) == Some(model),
        model.repr_spec() < RenderRequestEntryModel::COUNT,
{
}

/// Whose model a request asks for.
#[derive(Debug)]
pub enum RenderRequestEntry {
    MojangPlayerUuid(uuid::Uuid),
    GeyserPlayerUuid(uuid::Uuid),
    TextureHash(String),
    PlayerSkin(Vec<u8>),
}

impl RenderRequestEntry {
    /// Both entries are of the same kind and name the same player, the same
    /// texture or the same skin.
    pub open spec fn same_entry(&self, other: &RenderRequestEntry) -> bool {
        match (*self, *other) {
            (
                RenderRequestEntry::MojangPlayerUuid(a),
                RenderRequestEntry::MojangPlayerUuid(b),
            ) => uuid_bytes(a) == uuid_bytes(b),
            (
                RenderRequestEntry::GeyserPlayerUuid(a),
                RenderRequestEntry::GeyserPlayerUuid(b),
            ) => uuid_bytes(a) == uuid_bytes(b),
            (RenderRequestEntry::TextureHash(a), RenderRequestEntry::TextureHash(b)) => a@ == b@,
            (RenderRequestEntry::PlayerSkin(a), RenderRequestEntry::PlayerSkin(b)) => a@ == b@,
            _ => false,
        }
    }

    pub fn is_same_entry(&self, other: &RenderRequestEntry) -> (same: bool)
        ensures
            same == self.same_entry(other),
    {
        match (self, other) {
            (
                RenderRequestEntry::MojangPlayerUuid(a),
                RenderRequestEntry::MojangPlayerUuid(b),
            ) => uuid_equal(*a, *b),
            (
                RenderRequestEntry::GeyserPlayerUuid(a),
                RenderRequestEntry::GeyserPlayerUuid(b),
            ) => uuid_equal(*a, *b),
            (RenderRequestEntry::TextureHash(a), RenderRequestEntry::TextureHash(b)) => a.eq(b),
            (RenderRequestEntry::PlayerSkin(a), RenderRequestEntry::PlayerSkin(b)) => bytes_equal(
                a.as_slice(),
                b.as_slice(),
            ),
            _ => false,
        }
    }
}

/// For how long an entry stays in the cache, where that differs from the
/// rule.
#[derive(Debug)]
pub enum CacheBias {
    KeepCachedFor(Duration),
    CacheIndefinitely,
}

/// A feature a model can be drawn with.
#[derive(Clone, Copy, Debug, PartialEq, Eq, Hash, Structural)]
pub enum RenderRequestFeatures {
    BodyLayers,
    HatLayer,
    Shadow,
    Shading,
    Cape,
    UnProcessedSkin,
    Ears,
}

impl RenderRequestFeatures {
    /// The place of the feature in a feature set.
    pub open spec fn bit(self) -> u8 {
        match self {
            RenderRequestFeatures::BodyLayers => 0x01,
            RenderRequestFeatures::HatLayer => 0x02,
            RenderRequestFeatures::Shadow => 0x04,
            RenderRequestFeatures::Shading => 0x08,
            RenderRequestFeatures::Cape => 0x10,
            RenderRequestFeatures::UnProcessedSkin => 0x20,
            RenderRequestFeatures::Ears => 0x40,
        }
    }

    fn bit_exec(self) -> (b: u8)
        ensures
            b == self.bit(),
    {
        match self {
            RenderRequestFeatures::BodyLayers => 0x01,
            RenderRequestFeatures::HatLayer => 0x02,
            RenderRequestFeatures::Shadow => 0x04,
            RenderRequestFeatures::Shading => 0x08,
            RenderRequestFeatures::Cape => 0x10,
            RenderRequestFeatures::UnProcessedSkin => 0x20,
            RenderRequestFeatures::Ears => 0x40,
        }
    }
}

/// A set of features.
#[derive(Clone, Copy, Debug, PartialEq, Eq, Structural)]
pub struct RenderRequestFeatureSet {
    bits: u8,
}

impl RenderRequestFeatureSet {
    /// Whether `feature` is in the set.
    pub closed spec fn has(&self, feature: RenderRequestFeatures) -> bool {
        self.bits & feature.bit() != 0
    }

    /// The set without any feature.
    pub fn empty() -> (set: RenderRequestFeatureSet)
        ensures
            forall|feature: RenderRequestFeatures| !set.has(feature),
    {
        let set = RenderRequestFeatureSet { bits: 0 };
        assert forall|feature: RenderRequestFeatures| !set.has(feature) by {
            let b = feature.bit();
            assert(0u8 & b == 0) by (bit_vector);
        }
        set
    }

    /// The set of every feature.
    pub fn all() -> (set: RenderRequestFeatureSet)
        ensures
            forall|feature: RenderRequestFeatures| set.has(feature),
    {
        let set = RenderRequestFeatureSet { bits: 0x7f };
        assert forall|feature: RenderRequestFeatures| set.has(feature) by {
            let b = feature.bit();
            assert(b == 0x01 || b == 0x02 || b == 0x04 || b == 0x08 || b == 0x10 || b == 0x20 || b
                == 0x40);
            assert(0x7fu8 & b != 0) by (bit_vector)
                requires
                    b == 0x01 || b == 0x02 || b == 0x04 || b == 0x08 || b == 0x10 || b == 0x20 || b
                        == 0x40,
            ;
        }
        set
    }

    /// The set with `feature` added.
    pub fn with(self, feature: RenderRequestFeatures) -> (set: RenderRequestFeatureSet)
        ensures
            forall|f: RenderRequestFeatures| set.has(f) == (self.has(f) || f == feature),
    {
        let added = feature.bit_exec();
        let bits = self.bits;
        let set = RenderRequestFeatureSet { bits: bits | added };
        assert forall|f: RenderRequestFeatures| set.has(f) == (self.has(f) || f == feature) by {
            let b = f.bit();
            assert(((bits | added) & b != 0) == ((bits & b != 0) || (added & b != 0)))
                by (bit_vector);
            assert((added & b != 0) == (added == b)) by (bit_vector)
                requires
                    b == 0x01 || b == 0x02 || b == 0x04 || b == 0x08 || b == 0x10 || b == 0x20 || b
                        == 0x40,
                    added == 0x01 || added == 0x02 || added == 0x04 || added == 0x08 || added
                        == 0x10 || added == 0x20 || added == 0x40,
            ;
        }
        set
    }

    /// The features of this set that are not in `other`.
    pub fn difference(self, other: RenderRequestFeatureSet) -> (set: RenderRequestFeatureSet)
        ensures
            forall|f: RenderRequestFeatures| set.has(f) == (self.has(f) && !other.has(f)),
    {
        let a = self.bits;
        let o = other.bits;
        let set = RenderRequestFeatureSet { bits: a & !o };
        assert forall|f: RenderRequestFeatures| set.has(f) == (self.has(f) && !other.has(f)) by {
            let b = f.bit();
            assert(((a & !o) & b != 0) == ((a & b != 0) && !(o & b != 0))) by (bit_vector)
                requires
                    b == 0x01 || b == 0x02 || b == 0x04 || b == 0x08 || b == 0x10 || b == 0x20 || b
                        == 0x40,
            ;
        }
        set
    }

    pub fn contains(&self, feature: RenderRequestFeatures) -> (r: bool)
        ensures
            r == self.has(feature),
    {
        self.bits & feature.bit_exec() != 0
    }

    /// Every feature but the excluded ones.
    pub fn new_from_excluded_features(excluded_features: RenderRequestFeatureSet) -> (set:
        RenderRequestFeatureSet)
        ensures
            forall|f: RenderRequestFeatures| set.has(f) == !excluded_features.has(f),
    {
        RenderRequestFeatureSet::all().difference(excluded_features)
    }
}

/// The height at which the shadow of a request lies: none where no shadow
/// is drawn, 24 units where the head alone is drawn, else the ground.
pub fn get_shadow_y_pos(features: &RenderRequestFeatureSet, is_head_mode: bool) -> (y: Option<i32>)
    ensures
        y == if !features.has(RenderRequestFeatures::Shadow) {
            None
        } else if is_head_mode {
            Some(24000i32)
        } else {
            Some(0i32)
        },
{
    if features.contains(RenderRequestFeatures::Shadow) {
        if is_head_mode {
            Some(24000)
        } else {
            Some(0)
        }
    } else {
        None
    }
}

/// The arm swing of a request: the one asked for, else the one of its mode.
pub fn get_arm_rotation(requested: Option<i32>, mode_arm_rotation: i32) -> (rotation: i32)
    ensures
        rotation == match requested {
            Some(rotation) => rotation,
            None => mode_arm_rotation,
        },
{
    if let Some(rotation) = requested {
        return rotation;
    }
    mode_arm_rotation
}

} // verus!
