use std::time::Duration;

use nmsr::blockbench::{
    str_to_uuid, ProjectMeta, ProjectTextureResolution, RawProject, RawProjectElement,
    RawProjectElementFace, RawProjectElementFaces, RawProjectTexture,
};
use nmsr::config::{
    default_geyser_api_server, default_service_name, default_session_server,
    default_session_server_rate_limit, default_textures_server, ModelCacheConfiguration,
};
use nmsr::geyser::GeyserSkinResponse;
use nmsr::ids::{bytes_equal, uuid_equal, xuid_from_uuid};
use nmsr::math::Vec3;
use nmsr::request::{
    CacheBias, RenderRequestEntry, RenderRequestEntryModel, RenderRequestFeatureSet,
    RenderRequestFeatures,
};
use nmsr::resolver::{
    MojangTexture, ResolvedRenderEntryEarsTextureType, ResolvedRenderEntryTextureType,
    ResolvedRenderEntryTextures, ResolvedRenderEntryTexturesMarker, ResolvedRenderRequest,
    TextureMap,
};
use nmsr::types::PlayerPartTextureType;
use nmsr::uv::{box_uv, FaceUv};
use uuid::Uuid;

#[test]
fn upright_faces_are_written_as_they_are() {
    let face = RawProjectElementFace::new(3, FaceUv::new(8, 8, 16, 16, false, false, 0), false);
    assert_eq!(face.texture, 3);
    assert_eq!(face.rotation, 0);
    assert_eq!(face.uv, [8, 8, 16, 16]);
    let same = RawProjectElementFace::new(3, FaceUv::new(8, 8, 16, 16, false, false, 0), true);
    assert_eq!(same.uv, [8, 8, 16, 16]);
}

#[test]
fn turned_faces_are_turned_on_to_a_full_turn() {
    // One quarter turn is written as three, and the rectangle is turned on
    // by three more quarter turns.
    let once = RawProjectElementFace::new(0, FaceUv::new(1, 9, 5, 2, false, false, 1), false);
    assert_eq!(once.rotation, 270);
    assert_eq!(once.uv, [1, 2, 5, 9]);
    let twice = RawProjectElementFace::new(0, FaceUv::new(5, 9, 1, 2, false, false, 2), false);
    assert_eq!(twice.rotation, 0);
    assert_eq!(twice.uv, [1, 2, 5, 9]);
    let thrice = RawProjectElementFace::new(0, FaceUv::new(5, 2, 1, 9, false, false, 3), false);
    assert_eq!(thrice.rotation, 90);
    assert_eq!(thrice.uv, [1, 2, 5, 9]);
    // What rotate_cw yields is written as the face it was made from.
    let base = FaceUv::new(1, 2, 5, 9, false, false, 0);
    let turned = RawProjectElementFace::new(0, base.rotate_cw().rotate_cw().rotate_cw(), false);
    assert_eq!(turned.uv, [1, 2, 5, 9]);
}

#[test]
fn flips_are_applied_when_a_face_is_written() {
    let v = RawProjectElementFace::new(0, FaceUv::new(1, 2, 5, 9, false, true, 0), false);
    assert_eq!(v.uv, [1, 9, 5, 2]);
    let h = RawProjectElementFace::new(0, FaceUv::new(1, 2, 5, 9, true, false, 0), false);
    assert_eq!(h.uv, [5, 2, 1, 9]);
    let both = RawProjectElementFace::new(0, FaceUv::new(1, 2, 5, 9, true, true, 0), false);
    assert_eq!(both.uv, [5, 9, 1, 2]);
    // On a face that was turned the horizontal flip is a vertical one.
    let turned_h = RawProjectElementFace::new(0, FaceUv::new(1, 9, 5, 2, true, false, 1), false);
    assert_eq!(turned_h.uv, [1, 9, 5, 2]);
    assert_eq!(turned_h.rotation, 270);
    let turned_both = RawProjectElementFace::new(0, FaceUv::new(1, 9, 5, 2, true, true, 1), false);
    assert_eq!(turned_both.uv, [1, 2, 5, 9]);
}

#[test]
fn all_six_faces_are_written() {
    let faces = RawProjectElementFaces::new(7, box_uv(8, 8, [8, 8, 8]));
    assert_eq!(faces.north.uv, [8, 8, 16, 16]);
    assert_eq!(faces.south.uv, [24, 8, 32, 16]);
    assert_eq!(faces.east.uv, [0, 8, 8, 16]);
    assert_eq!(faces.west.uv, [16, 8, 24, 16]);
    assert_eq!(faces.up.uv, [8, 0, 16, 8]);
    assert_eq!(faces.down.uv, [16, 0, 24, 8]);
    for face in [faces.north, faces.south, faces.east, faces.west, faces.up, faces.down] {
        assert_eq!(face.texture, 7);
        assert_eq!(face.rotation, 0);
    }
}

fn expected_uuid(name: &str) -> Uuid {
    let mut bytes = xxhash_rust::xxh3::xxh3_128(name.as_bytes()).to_be_bytes();
    bytes[6] = (bytes[6] & 0x0f) | 0x40;
    Uuid::from_bytes(bytes)
}

#[test]
fn names_have_stable_identifiers() {
    for name in ["", "Head", "Head Layer", "Left Arm", "caf\u{e9}"] {
        let id = str_to_uuid(name);
        assert_eq!(id, expected_uuid(name));
        assert_eq!(id.get_version_num(), 4);
        assert_eq!(id, str_to_uuid(name));
    }
    assert_ne!(str_to_uuid("Head"), str_to_uuid("Body"));
    // The hash of the empty input is a known constant.
    let hash = u128::from_be_bytes(*str_to_uuid("").as_bytes());
    let mask = !(0xf0u128 << 72);
    assert_eq!(hash & mask, 0x99aa06d3014798d86001c324468d497f & mask);
}

#[test]
fn elements_and_textures_are_named_records() {
    let faces = RawProjectElementFaces::new(0, box_uv(8, 8, [8, 8, 8]));
    let element = RawProjectElement::new(
        "Head".to_string(),
        false,
        Vec3::new(-4000, 24000, -4000),
        Vec3::new(4000, 32000, 4000),
        Vec3::new(0, 24000, 0),
        Vec3::new(0, 0, 30000),
        faces,
    );
    assert_eq!(element.name, "Head");
    assert!(!element.box_uv);
    assert_eq!(element.element_type, "cube");
    assert_eq!(element.uuid, expected_uuid("Head"));
    assert_eq!(element.from, Vec3::new(-4000, 24000, -4000));
    assert_eq!(element.to, Vec3::new(4000, 32000, 4000));
    assert_eq!(element.origin, Vec3::new(0, 24000, 0));
    assert_eq!(element.rotation, Vec3::new(0, 0, 30000));
    assert_eq!(element.faces.south.uv, [24, 8, 32, 16]);

    let texture = RawProjectTexture::new("skin".to_string(), 2, b"hello");
    assert_eq!(texture.name, "skin");
    assert_eq!(texture.id, 2);
    assert_eq!(texture.path, "");
    assert_eq!(texture.mode, "bitmap");
    assert!(texture.visible);
    assert!(!texture.saved);
    assert_eq!(texture.uuid, expected_uuid("skin"));
    assert_eq!(texture.source, "data:image/png;base64,aGVsbG8=");
    assert_eq!(RawProjectTexture::new("e".to_string(), 0, b"").source, "data:image/png;base64,");
    assert_eq!(
        RawProjectTexture::new("e".to_string(), 0, &[0xfb, 0xff]).source,
        "data:image/png;base64,+/8="
    );

    let resolution = ProjectTextureResolution::new(64, 32);
    assert_eq!((resolution.width, resolution.height), (64, 32));
    let project = RawProject::new(resolution, vec![element], vec![texture]);
    assert_eq!(project.meta.format_version, "4.5");
    assert_eq!(project.meta.model_format, "free");
    assert!(!project.meta.box_uv);
    assert_eq!(project.resolution.width, 64);
    assert_eq!(project.elements.len(), 1);
    assert_eq!(project.textures.len(), 1);
    let meta = ProjectMeta::default();
    assert_eq!((meta.format_version, meta.model_format, meta.box_uv), ("4.5", "free", false));
}

#[test]
fn identifiers_that_fit_in_64_bits_are_account_numbers() {
    assert_eq!(xuid_from_uuid(Uuid::from_u128(0)), Some(0));
    assert_eq!(xuid_from_uuid(Uuid::from_u128(5)), Some(5));
    assert_eq!(xuid_from_uuid(Uuid::from_u128(0x0009_0000_0123_4567)), Some(0x0009_0000_0123_4567));
    assert_eq!(xuid_from_uuid(Uuid::from_u128(0x0102_0304_0506_0708)), Some(0x0102_0304_0506_0708));
    assert_eq!(xuid_from_uuid(Uuid::from_u128(u64::MAX as u128)), Some(u64::MAX));
    assert_eq!(xuid_from_uuid(Uuid::from_u128(u64::MAX as u128 + 1)), None);
    assert_eq!(xuid_from_uuid(Uuid::from_u128(1 << 127)), None);
    assert_eq!(xuid_from_uuid(Uuid::from_u128(u128::MAX)), None);
    let id = Uuid::from_u128(0xad4569f3_7576_4376_a7c7_8e8cfcd9b832);
    let parsed = u64::from_str_radix(&id.simple().to_string(), 16).ok();
    assert_eq!(xuid_from_uuid(id), parsed);
    let small = Uuid::from_u128(0x2535_4233_1234);
    assert_eq!(xuid_from_uuid(small), u64::from_str_radix(&small.simple().to_string(), 16).ok());
}

#[test]
fn identifiers_and_bytes_are_compared_by_content() {
    let a = Uuid::from_u128(1);
    let b = Uuid::from_u128(1 << 120);
    assert!(uuid_equal(a, a));
    assert!(uuid_equal(b, Uuid::from_u128(1 << 120)));
    assert!(!uuid_equal(a, b));
    assert!(!uuid_equal(a, Uuid::from_u128(0)));
    assert!(bytes_equal(&[], &[]));
    assert!(bytes_equal(&[1, 2, 3], &[1, 2, 3]));
    assert!(!bytes_equal(&[1, 2, 3], &[1, 2, 4]));
    assert!(!bytes_equal(&[1, 2, 3], &[1, 2]));
    assert!(!bytes_equal(&[], &[0]));
}

#[test]
fn models_are_stored_as_numbers() {
    assert_eq!(RenderRequestEntryModel::COUNT, 2);
    assert_eq!(RenderRequestEntryModel::Steve.repr(), 0);
    assert_eq!(RenderRequestEntryModel::Alex.repr(), 1);
    assert_eq!(RenderRequestEntryModel::from_repr(0), Some(RenderRequestEntryModel::Steve));
    assert_eq!(RenderRequestEntryModel::from_repr(1), Some(RenderRequestEntryModel::Alex));
    assert_eq!(RenderRequestEntryModel::from_repr(2), None);
    assert_eq!(RenderRequestEntryModel::from_repr(usize::MAX), None);
    assert_eq!(RenderRequestEntryModel::default(), RenderRequestEntryModel::Steve);
    assert_eq!(RenderRequestEntryModel::from_slim(true), RenderRequestEntryModel::Alex);
    assert_eq!(RenderRequestEntryModel::from_slim(false), RenderRequestEntryModel::Steve);
}

#[test]
fn markers_name_the_model_again() {
    for model in [None, Some(RenderRequestEntryModel::Steve), Some(RenderRequestEntryModel::Alex)] {
        let resolved = ResolvedRenderEntryTextures::new(TextureMap::new(), model);
        let marker = resolved.to_marker_slice();
        let expected = match model {
            None => 2,
            Some(RenderRequestEntryModel::Steve) => 0,
            Some(RenderRequestEntryModel::Alex) => 1,
        };
        assert_eq!(marker, [expected]);
        let read = ResolvedRenderEntryTextures::new_from_marker_slice(TextureMap::new(), &marker);
        assert_eq!(read.model, model);
        assert_eq!(ResolvedRenderEntryTexturesMarker::from(resolved).model, expected);
    }
    let odd = ResolvedRenderEntryTextures::new_from_marker_slice(TextureMap::new(), &[200, 0, 1]);
    assert_eq!(odd.model, None);
    let first = ResolvedRenderEntryTextures::new_from_marker_slice(TextureMap::new(), &[1, 0]);
    assert_eq!(first.model, Some(RenderRequestEntryModel::Alex));
}

const KEYS: [ResolvedRenderEntryTextureType; 5] = [
    ResolvedRenderEntryTextureType::Cape,
    ResolvedRenderEntryTextureType::Skin,
    ResolvedRenderEntryTextureType::Ears(ResolvedRenderEntryEarsTextureType::Cape),
    ResolvedRenderEntryTextureType::Ears(ResolvedRenderEntryEarsTextureType::Wings),
    ResolvedRenderEntryTextureType::Ears(ResolvedRenderEntryEarsTextureType::Emissive),
];

#[test]
fn texture_map_keeps_one_value_per_texture() {
    let mut map: TextureMap<u32> = TextureMap::new();
    for key in KEYS {
        assert_eq!(map.get(key), None);
    }
    for (i, key) in KEYS.into_iter().enumerate() {
        assert_eq!(map.insert(key, i as u32), None);
        for (j, other) in KEYS.into_iter().enumerate() {
            assert_eq!(map.get(other).copied(), if j <= i { Some(j as u32) } else { None });
        }
    }
    assert_eq!(map.insert(KEYS[3], 99), Some(3));
    assert_eq!(map.get(KEYS[3]), Some(&99));
    assert_eq!(map.get(KEYS[2]), Some(&2));
    assert_eq!(map.get(KEYS[4]), Some(&4));
}

#[test]
fn textures_know_their_names_and_sizes() {
    let names = ["Cape", "Skin", "ears_cape", "ears_wings", "ears_emissive"];
    for (key, name) in KEYS.into_iter().zip(names) {
        assert_eq!(key.name(), name);
    }
    assert_eq!(ResolvedRenderEntryEarsTextureType::Cape.size(), (20, 16));
    assert_eq!(ResolvedRenderEntryEarsTextureType::Wings.size(), (20, 16));
    assert_eq!(ResolvedRenderEntryEarsTextureType::Emissive.size(), (64, 64));
    assert_eq!(ResolvedRenderEntryEarsTextureType::Wings.key(), "ears_wings");
    assert_eq!(PlayerPartTextureType::from(KEYS[0]), PlayerPartTextureType::Cape);
    assert_eq!(PlayerPartTextureType::from(KEYS[1]), PlayerPartTextureType::Skin);
    assert_eq!(PlayerPartTextureType::from(KEYS[2]), PlayerPartTextureType::Cape);
    assert_eq!(
        PlayerPartTextureType::from(KEYS[3]),
        PlayerPartTextureType::Custom { key: "ears_wings", size: (20, 16) }
    );
    assert_eq!(
        PlayerPartTextureType::from(KEYS[4]),
        PlayerPartTextureType::Custom { key: "ears_emissive", size: (64, 64) }
    );
}

#[test]
fn fetched_textures_keep_their_bytes() {
    let named = MojangTexture::new_named("abc".to_string(), vec![1, 2, 3]);
    assert_eq!(named.hash(), Some(&"abc".to_string()));
    assert_eq!(named.data(), &[1, 2, 3]);
    let unnamed = MojangTexture::new_unnamed(vec![9]);
    assert_eq!(unnamed.hash(), None);
    assert_eq!(unnamed.data(), &[9]);
    assert_eq!(unnamed.into_data(), vec![9]);

    let resolved = ResolvedRenderEntryTextures::from_fetched(
        Some(RenderRequestEntryModel::Alex),
        Some(named),
        Some(MojangTexture::new_unnamed(vec![7, 7])),
    );
    assert_eq!(resolved.model, Some(RenderRequestEntryModel::Alex));
    assert_eq!(resolved.textures.get(KEYS[1]).map(|t| t.data().to_vec()), Some(vec![1, 2, 3]));
    assert_eq!(resolved.textures.get(KEYS[0]).map(|t| t.data().to_vec()), Some(vec![7, 7]));
    for key in &KEYS[2..] {
        assert!(resolved.textures.get(*key).is_none());
    }
    let request = ResolvedRenderRequest::from_resolved(None, resolved);
    assert_eq!(request.model, RenderRequestEntryModel::Alex);
    assert_eq!(request.textures.get(KEYS[1]), Some(&vec![1, 2, 3]));
    assert_eq!(request.textures.get(KEYS[0]), Some(&vec![7, 7]));
    assert_eq!(request.textures.get(KEYS[3]), None);

    let bare = ResolvedRenderEntryTextures::from_fetched(None, None, None);
    for key in KEYS {
        assert!(bare.textures.get(key).is_none());
    }
}

#[test]
fn the_requested_model_comes_first() {
    let steve = Some(RenderRequestEntryModel::Steve);
    let alex = Some(RenderRequestEntryModel::Alex);
    let cases = [
        (None, None, RenderRequestEntryModel::Steve),
        (None, alex, RenderRequestEntryModel::Alex),
        (steve, alex, RenderRequestEntryModel::Steve),
        (alex, steve, RenderRequestEntryModel::Alex),
        (alex, None, RenderRequestEntryModel::Alex),
    ];
    for (requested, resolved, expected) in cases {
        let textures = ResolvedRenderEntryTextures::new(TextureMap::new(), resolved);
        assert_eq!(ResolvedRenderRequest::from_resolved(requested, textures).model, expected);
    }
}

#[test]
fn bridge_answers_name_a_model() {
    let wide = GeyserSkinResponse { is_steve: true, texture_id: "t1".to_string() };
    assert_eq!(wide.into_texture_and_model(), ("t1".to_string(), RenderRequestEntryModel::Steve));
    let slim = GeyserSkinResponse { is_steve: false, texture_id: "t2".to_string() };
    assert_eq!(slim.into_texture_and_model(), ("t2".to_string(), RenderRequestEntryModel::Alex));
}

const FEATURES: [RenderRequestFeatures; 7] = [
    RenderRequestFeatures::BodyLayers,
    RenderRequestFeatures::HatLayer,
    RenderRequestFeatures::Shadow,
    RenderRequestFeatures::Shading,
    RenderRequestFeatures::Cape,
    RenderRequestFeatures::UnProcessedSkin,
    RenderRequestFeatures::Ears,
];

#[test]
fn feature_sets_behave_as_sets() {
    let none = RenderRequestFeatureSet::empty();
    let all = RenderRequestFeatureSet::all();
    for f in FEATURES {
        assert!(!none.contains(f));
        assert!(all.contains(f));
        let one = none.with(f);
        for g in FEATURES {
            assert_eq!(one.contains(g), f == g);
            assert_eq!(all.difference(one).contains(g), f != g);
        }
        assert_eq!(one.with(f), one);
        assert_eq!(one.difference(one), none);
    }
    let excluded = none.with(RenderRequestFeatures::Shadow).with(RenderRequestFeatures::Cape);
    let features = RenderRequestFeatureSet::new_from_excluded_features(excluded);
    for f in FEATURES {
        let out = f == RenderRequestFeatures::Shadow || f == RenderRequestFeatures::Cape;
        assert_eq!(features.contains(f), !out);
    }
    assert_eq!(RenderRequestFeatureSet::new_from_excluded_features(none), all);
    assert_eq!(RenderRequestFeatureSet::new_from_excluded_features(all), none);
}

fn entries() -> Vec<RenderRequestEntry> {
    vec![
        RenderRequestEntry::MojangPlayerUuid(Uuid::from_u128(1)),
        RenderRequestEntry::MojangPlayerUuid(Uuid::from_u128(2)),
        RenderRequestEntry::GeyserPlayerUuid(Uuid::from_u128(1)),
        RenderRequestEntry::TextureHash("abc".to_string()),
        RenderRequestEntry::TextureHash("abd".to_string()),
        RenderRequestEntry::PlayerSkin(vec![1, 2]),
        RenderRequestEntry::PlayerSkin(vec![]),
    ]
}

#[test]
fn entries_are_the_same_when_they_name_the_same() {
    let (a, b) = (entries(), entries());
    for i in 0..a.len() {
        for j in 0..b.len() {
            assert_eq!(a[i].is_same_entry(&b[j]), i == j);
        }
    }
}

fn caching() -> ModelCacheConfiguration {
    ModelCacheConfiguration {
        cleanup_interval: Duration::from_secs(3600),
        resolve_cache_duration: Duration::from_secs(900),
        texture_cache_duration: Duration::from_secs(172_800),
        cache_biases: vec![
            (
                RenderRequestEntry::MojangPlayerUuid(Uuid::from_u128(1)),
                CacheBias::KeepCachedFor(Duration::from_secs(60)),
            ),
            (RenderRequestEntry::TextureHash("abc".to_string()), CacheBias::CacheIndefinitely),
            (
                RenderRequestEntry::MojangPlayerUuid(Uuid::from_u128(1)),
                CacheBias::KeepCachedFor(Duration::from_secs(61)),
            ),
        ],
    }
}

#[test]
fn biased_entries_are_kept_for_their_own_time() {
    let config = caching();
    let all = entries();
    assert_eq!(config.get_cache_duration(&all[0]), &Duration::from_secs(60));
    assert_eq!(config.get_cache_duration(&all[1]), &Duration::from_secs(900));
    assert_eq!(config.get_cache_duration(&all[2]), &Duration::from_secs(900));
    assert_eq!(config.get_cache_duration(&all[3]), &Duration::MAX);
    assert_eq!(config.get_cache_duration(&all[4]), &Duration::from_secs(900));
    let default = Duration::from_millis(1500);
    assert_eq!(config.get_cache_duration_with_default(&all[0], &default), &Duration::from_secs(60));
    assert_eq!(config.get_cache_duration_with_default(&all[3], &default), &Duration::MAX);
    assert_eq!(config.get_cache_duration_with_default(&all[5], &default), &default);
    let plain = ModelCacheConfiguration { cache_biases: vec![], ..caching() };
    assert_eq!(plain.get_cache_duration(&all[0]), &Duration::from_secs(900));
}

#[test]
fn kept_entries_expire_after_their_time() {
    let config = caching();
    let all = entries();
    let modified = Duration::from_secs(1_000_000);
    let at = |secs: u64, nanos: u32| Duration::new(1_000_000 + secs, nanos);
    // Kept for 60 seconds: out of date once that time has passed.
    assert!(!config.is_expired_at(&all[0], &modified, &at(59, 0)));
    assert!(!config.is_expired_at(&all[0], &modified, &at(60, 0)));
    assert!(config.is_expired_at(&all[0], &modified, &at(60, 1)));
    // Kept for the rule's 900 seconds.
    assert!(!config.is_expired_at(&all[1], &modified, &at(900, 0)));
    assert!(config.is_expired_at(&all[1], &modified, &at(901, 0)));
    // Kept for good.
    assert!(!config.is_expired_at(&all[3], &modified, &Duration::MAX));
    assert!(!config.is_expired_at(&all[3], &Duration::ZERO, &Duration::MAX));
    // Modified after now: not out of date.
    assert!(!config.is_expired_at(&all[0], &modified, &Duration::from_secs(5)));
    let short = Duration::from_nanos(10);
    assert!(!config.is_expired_at_with_default(&all[5], &modified, &at(0, 10), &short));
    assert!(config.is_expired_at_with_default(&all[5], &modified, &at(0, 11), &short));
    assert!(config.is_expired_at_with_default(&all[0], &modified, &at(61, 0), &short));
    assert!(!config.is_expired_at_with_default(&all[5], &modified, &Duration::MAX, &Duration::MAX));
    assert!(!config.is_expired_at_with_default(&all[5], &Duration::MAX, &Duration::MAX, &short));
}

#[test]
fn settings_have_their_defaults() {
    assert_eq!(default_session_server_rate_limit(), 10);
    assert_eq!(default_service_name(), "nmsr-aas");
    assert_eq!(default_session_server(), "https://sessionserver.mojang.com/");
    assert_eq!(default_textures_server(), "https://textures.minecraft.net");
    assert_eq!(default_geyser_api_server(), "https://api.geysermc.org/");
}
