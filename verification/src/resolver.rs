//! The textures a request resolves to.

use vstd::prelude::*;
use crate::request::RenderRequestEntryModel;
use crate::types::PlayerPartTextureType;

verus! {

/// A texture that the ears extension carries within a skin.
#[derive(Clone, Copy, Debug, PartialEq, Eq, Hash, Structural)]
pub enum ResolvedRenderEntryEarsTextureType {
    Cape,
    Wings,
    Emissive,
}

impl ResolvedRenderEntryEarsTextureType {
    pub open spec fn size_spec(&self) -> (u32, u32) {
        match self {
            ResolvedRenderEntryEarsTextureType::Emissive => (64, 64),
            _ => (20, 16),
        }
    }

    /// The size of the texture in texels.
    #[verifier::when_used_as_spec(size_spec)]
    pub fn size(&self) -> (size: (u32, u32))
        ensures
            size == self.size_spec(),
    {
        match self {
            ResolvedRenderEntryEarsTextureType::Cape
            | ResolvedRenderEntryEarsTextureType::Wings => (20, 16),
            ResolvedRenderEntryEarsTextureType::Emissive => (64, 64),
        }
    }

    pub open spec fn key_spec(&self) -> &'static str {
        match self {
            ResolvedRenderEntryEarsTextureType::Cape => "ears_cape",
            ResolvedRenderEntryEarsTextureType::Wings => "ears_wings",
            ResolvedRenderEntryEarsTextureType::Emissive => "ears_emissive",
        }
    }

    /// The name the texture goes by.
    #[verifier::when_used_as_spec(key_spec)]
    pub fn key(&self) -> (key: &'static str)
        ensures
            key == self.key_spec(),
    {
        match self {
            ResolvedRenderEntryEarsTextureType::Cape => "ears_cape",
            ResolvedRenderEntryEarsTextureType::Wings => "ears_wings",
            ResolvedRenderEntryEarsTextureType::Emissive => "ears_emissive",
        }
    }
}

/// A texture that a request resolves to.
#[derive(Clone, Copy, Debug, PartialEq, Eq, Hash, Structural)]
pub enum ResolvedRenderEntryTextureType {
    Cape,
    Skin,
    Ears(ResolvedRenderEntryEarsTextureType),
}

impl ResolvedRenderEntryTextureType {
    pub open spec fn name_spec(self) -> &'static str {
        match self {
            ResolvedRenderEntryTextureType::Cape => "Cape",
            ResolvedRenderEntryTextureType::Skin => "Skin",
            ResolvedRenderEntryTextureType::Ears(ears) => ears.key_spec(),
        }
    }

    /// The name the texture goes by.
    #[verifier::when_used_as_spec(name_spec)]
    pub fn name(self) -> (name: &'static str)
        ensures
            name == self.name_spec(),
    {
        match self {
            ResolvedRenderEntryTextureType::Cape => "Cape",
            ResolvedRenderEntryTextureType::Skin => "Skin",
            ResolvedRenderEntryTextureType::Ears(ears) => ears.key(),
        }
    }

    /// The texture that parts sample for this one: the skin and the cape
    /// as such, the cape of the ears extension as the cape, any other
    /// texture of the extension under its own name and size.
    pub open spec fn part_texture(self) -> PlayerPartTextureType {
        match self {
            ResolvedRenderEntryTextureType::Skin => PlayerPartTextureType::Skin,
            ResolvedRenderEntryTextureType::Cape => PlayerPartTextureType::Cape,
            ResolvedRenderEntryTextureType::Ears(
                ResolvedRenderEntryEarsTextureType::Cape,
            ) => PlayerPartTextureType::Cape,
            ResolvedRenderEntryTextureType::Ears(ears) => PlayerPartTextureType::Custom {
                key: ears.key_spec(),
                size: ears.size_spec(),
            },
        }
    }
}

impl From<ResolvedRenderEntryTextureType> for PlayerPartTextureType {
    fn from(value: ResolvedRenderEntryTextureType) -> (texture: PlayerPartTextureType) {
        match value {
            ResolvedRenderEntryTextureType::Skin => PlayerPartTextureType::Skin,
            ResolvedRenderEntryTextureType::Cape
            | ResolvedRenderEntryTextureType::Ears(
                ResolvedRenderEntryEarsTextureType::Cape,
            ) => PlayerPartTextureType::Cape,
            ResolvedRenderEntryTextureType::Ears(ears) => PlayerPartTextureType::Custom {
                key: ears.key(),
                size: ears.size(),
            },
        }
    }
}

impl vstd::std_specs::convert::FromSpecImpl<ResolvedRenderEntryTextureType> for PlayerPartTextureType {
    open spec fn obeys_from_spec() -> bool {
        true
    }

    open spec fn from_spec(value: ResolvedRenderEntryTextureType) -> PlayerPartTextureType {
        value.part_texture()
    }
}

/// A texture as it was fetched: its bytes, and its hash where it has one.
pub struct MojangTexture {
    hash: Option<String>,
    data: Vec<u8>,
}

impl MojangTexture {
    pub closed spec fn hash_spec(&self) -> Option<String> {
        self.hash
    }

    pub closed spec fn data_spec(&self) -> Seq<u8> {
        self.data@
    }

    pub fn new_named(hash: String, data: Vec<u8>) -> (texture: MojangTexture)
        ensures
            texture.hash_spec() == Some(hash),
            texture.data_spec() == data@,
    {
        MojangTexture { hash: Some(hash), data }
    }

    pub fn new_unnamed(data: Vec<u8>) -> (texture: MojangTexture)
        ensures
            texture.hash_spec() is None,
            texture.data_spec() == data@,
    {
        MojangTexture { hash: None, data }
    }

    pub fn hash(&self) -> (hash: Option<&String>)
        ensures
            hash.is_some() == self.hash_spec().is_some(),
            hash matches Some(h) ==> self.hash_spec() == Some(*h),
    {
        self.hash.as_ref()
    }

    pub fn data(&self) -> (data: &[u8])
        ensures
            data@ == self.data_spec(),
    {
        self.data.as_slice()
    }

    /// Hands out the bytes.
    pub fn into_data(self) -> (data: Vec<u8>)
        ensures
            data@ == self.data_spec(),
    {
        self.data
    }
}

/// A map from the textures of a request to values.
pub struct TextureMap<V> {
    cape: Option<V>,
    skin: Option<V>,
    ears_cape: Option<V>,
    ears_wings: Option<V>,
    ears_emissive: Option<V>,
}

impl<V> TextureMap<V> {
    /// The value under `key`.
    pub closed spec fn value(&self, key: ResolvedRenderEntryTextureType) -> Option<V> {
        match key {
            ResolvedRenderEntryTextureType::Cape => self.cape,
            ResolvedRenderEntryTextureType::Skin => self.skin,
            ResolvedRenderEntryTextureType::Ears(
                ResolvedRenderEntryEarsTextureType::Cape,
            ) => self.ears_cape,
            ResolvedRenderEntryTextureType::Ears(
                ResolvedRenderEntryEarsTextureType::Wings,
            ) => self.ears_wings,
            ResolvedRenderEntryTextureType::Ears(
                ResolvedRenderEntryEarsTextureType::Emissive,
            ) => self.ears_emissive,
        }
    }

    /// The map without any value.
    pub fn new() -> (map: TextureMap<V>)
        ensures
            forall|key: ResolvedRenderEntryTextureType| map.value(key) is None,
    {
        TextureMap { cape: None, skin: None, ears_cape: None, ears_wings: None, ears_emissive: None }
    }

    /// Puts `value` under `key` and hands out what was there.
    pub fn insert(&mut self, key: ResolvedRenderEntryTextureType, value: V) -> (previous: Option<V>)
        ensures
            previous == old(self).value(key),
            final(self).value(key) == Some(value),
            forall|other: ResolvedRenderEntryTextureType|
                other != key ==> final(self).value(other) == old(self).value(other),
    {
        let slot = match key {
            ResolvedRenderEntryTextureType::Cape => &mut self.cape,
            ResolvedRenderEntryTextureType::Skin => &mut self.skin,
            ResolvedRenderEntryTextureType::Ears(
                ResolvedRenderEntryEarsTextureType::Cape,
            ) => &mut self.ears_cape,
            ResolvedRenderEntryTextureType::Ears(
                ResolvedRenderEntryEarsTextureType::Wings,
            ) => &mut self.ears_wings,
            ResolvedRenderEntryTextureType::Ears(
                ResolvedRenderEntryEarsTextureType::Emissive,
            ) => &mut self.ears_emissive,
        };
        let previous = slot.take();
        *slot = Some(value);
        previous
    }

    /// The value under `key`.
    pub fn get(&self, key: ResolvedRenderEntryTextureType) -> (value: Option<&V>)
        ensures
            value.is_some() == self.value(key).is_some(),
            value matches Some(v) ==> self.value(key) == Some(*v),
    {
        match key {
            ResolvedRenderEntryTextureType::Cape => self.cape.as_ref(),
            ResolvedRenderEntryTextureType::Skin => self.skin.as_ref(),
            ResolvedRenderEntryTextureType::Ears(
                ResolvedRenderEntryEarsTextureType::Cape,
            ) => self.ears_cape.as_ref(),
            ResolvedRenderEntryTextureType::Ears(
                ResolvedRenderEntryEarsTextureType::Wings,
            ) => self.ears_wings.as_ref(),
            ResolvedRenderEntryTextureType::Ears(
                ResolvedRenderEntryEarsTextureType::Emissive,
            ) => self.ears_emissive.as_ref(),
        }
    }
}

/// The textures and the model that an entry resolved to.
pub struct ResolvedRenderEntryTextures {
    pub model: Option<RenderRequestEntryModel>,
    pub textures: TextureMap<MojangTexture>,
}

/// What is stored beside cached textures: the model as a number.
pub struct ResolvedRenderEntryTexturesMarker {
    pub model: u8,
}

/// The number that a model, or the lack of one, is stored as: the model's
/// own number, or the count of models where there is none.
pub open spec fn model_marker(model: Option<RenderRequestEntryModel>) -> u8 {
    match model {
        Some(model) => model.repr_spec(),
        None => RenderRequestEntryModel::COUNT as u8,
    }
}

impl ResolvedRenderEntryTextures {
    pub fn new(textures: TextureMap<MojangTexture>, model: Option<RenderRequestEntryModel>) -> (resolved:
        ResolvedRenderEntryTextures)
        ensures
            resolved.textures == textures,
            resolved.model == model,
    {
        ResolvedRenderEntryTextures { textures, model }
    }

    /// The textures with the model that the first byte of `marker` names.
    pub fn new_from_marker_slice(textures: TextureMap<MojangTexture>, marker: &[u8]) -> (resolved:
        ResolvedRenderEntryTextures)
        requires
            marker@.len() > 0,
        ensures
            resolved.textures == textures,
            resolved.model == RenderRequestEntryModel::from_repr_spec(marker@[0] as usize),
    {
        let model = RenderRequestEntryModel::from_repr(marker[0] as usize);
        ResolvedRenderEntryTextures { textures, model }
    }

    pub fn to_marker_slice(&self) -> (marker: [u8; 1])
        ensures
            marker@ == seq![model_marker(self.model)],
    {
        let model: u8 = match self.model {
            Some(m) => m.repr(),
            None => RenderRequestEntryModel::COUNT as u8,
        };
        let marker: [u8; 1] = [model];
        assert(marker@ =~= seq![model_marker(self.model)]);
        marker
    }

    /// The textures of a player as they were fetched: the cape where the
    /// player has one, the skin where there is one.
    pub fn from_fetched(
        model: Option<RenderRequestEntryModel>,
        skin_texture: Option<MojangTexture>,
        cape_texture: Option<MojangTexture>,
    ) -> (resolved: ResolvedRenderEntryTextures)
        ensures
            resolved.model == model,
            resolved.textures.value(ResolvedRenderEntryTextureType::Skin) == skin_texture,
            resolved.textures.value(ResolvedRenderEntryTextureType::Cape) == cape_texture,
            forall|ears: ResolvedRenderEntryEarsTextureType|
                resolved.textures.value(ResolvedRenderEntryTextureType::Ears(ears)) is None,
    {
        let mut textures: TextureMap<MojangTexture> = TextureMap::new();
        if let Some(cape_texture) = cape_texture {
            textures.insert(ResolvedRenderEntryTextureType::Cape, cape_texture);
        }
        if let Some(skin_texture) = skin_texture {
            textures.insert(ResolvedRenderEntryTextureType::Skin, skin_texture);
        }
        ResolvedRenderEntryTextures::new(textures, model)
    }
}

/// Reading a marker that was written names the model that was written.
pub proof fn lemma_marker_round_trip(model: Option<RenderRequestEntryModel>)
    ensures
        RenderRequestEntryModel::from_repr_spec(model_marker(model) as usize) == model,
{
}

impl From<ResolvedRenderEntryTextures> for ResolvedRenderEntryTexturesMarker {
    fn from(value: ResolvedRenderEntryTextures) -> (marker: ResolvedRenderEntryTexturesMarker) {
        let model: u8 = match value.model {
            Some(m) => m.repr(),
            None => RenderRequestEntryModel::COUNT as u8,
        };
        ResolvedRenderEntryTexturesMarker { model }
    }
}

impl vstd::std_specs::convert::FromSpecImpl<ResolvedRenderEntryTextures> for ResolvedRenderEntryTexturesMarker {
    open spec fn obeys_from_spec() -> bool {
        true
    }

    open spec fn from_spec(value: ResolvedRenderEntryTextures) -> ResolvedRenderEntryTexturesMarker {
        ResolvedRenderEntryTexturesMarker { model: model_marker(value.model) }
    }
}

/// A request with everything it resolved to: the model to draw and the
/// bytes of each texture.
pub struct ResolvedRenderRequest {
    pub model: RenderRequestEntryModel,
    pub textures: TextureMap<Vec<u8>>,
}

/// The bytes of a texture, where there is one.
pub open spec fn texture_bytes(texture: Option<MojangTexture>) -> Option<Seq<u8>> {
    match texture {
        Some(texture) => Some(texture.data_spec()),
        None => None,
    }
}

/// The bytes that were kept, where some were.
pub open spec fn vec_bytes(bytes: Option<Vec<u8>>) -> Option<Seq<u8>> {
    match bytes {
        Some(bytes) => Some(bytes@),
        None => None,
    }
}

/// The model that a request is drawn with: the one asked for, else the one
/// that the entry resolved to, else the wide one.
pub open spec fn final_model(
    requested: Option<RenderRequestEntryModel>,
    resolved: Option<RenderRequestEntryModel>,
) -> RenderRequestEntryModel {
    match requested {
        Some(model) => model,
        None => match resolved {
            Some(model) => model,
            None => RenderRequestEntryModel::Steve,
        },
    }
}

fn take_bytes(texture: Option<MojangTexture>) -> (bytes: Option<Vec<u8>>)
    ensures
        vec_bytes(bytes) == texture_bytes(texture),
{
    match texture {
        Some(texture) => Some(texture.into_data()),
        None => None,
    }
}

impl ResolvedRenderRequest {
    /// Settles the model and keeps the bytes of every resolved texture.
    pub fn from_resolved(
        requested_model: Option<RenderRequestEntryModel>,
        resolved_textures: ResolvedRenderEntryTextures,
    ) -> (request: ResolvedRenderRequest)
        ensures
            request.model == final_model(requested_model, resolved_textures.model),
            forall|key: ResolvedRenderEntryTextureType|
                vec_bytes(#[trigger] request.textures.value(key)) == texture_bytes(
                    resolved_textures.textures.value(key),
                ),
    {
        let model = match requested_model {
            Some(model) => model,
            None => match resolved_textures.model {
                Some(model) => model,
                None => RenderRequestEntryModel::default(),
            },
        };
        let TextureMap { cape, skin, ears_cape, ears_wings, ears_emissive } =
            resolved_textures.textures;
        let textures = TextureMap {
            cape: take_bytes(cape),
            skin: take_bytes(skin),
            ears_cape: take_bytes(ears_cape),
            ears_wings: take_bytes(ears_wings),
            ears_emissive: take_bytes(ears_emissive),
        };
        ResolvedRenderRequest { model, textures }
    }
}

} // verus!
