use material_animation::BlendMethod;
use material_animation::Material;
use material_animation::MaterialChannel;
use material_animation::MaterialPrimitive;
use material_animation::MaterialProperty;
use material_animation::MaterialTextureSet;
use material_animation::TextureHandle;
use material_animation::TextureOffset;

const TEXTURE_CHANNELS: [MaterialChannel; 7] = [
    MaterialChannel::AlbedoTexture,
    MaterialChannel::EmissionTexture,
    MaterialChannel::NormalTexture,
    MaterialChannel::MetallicTexture,
    MaterialChannel::RoughnessTexture,
    MaterialChannel::AmbientOcclusionTexture,
    MaterialChannel::CaveatTexture,
];

const OFFSET_CHANNELS: [MaterialChannel; 7] = [
    MaterialChannel::AlbedoOffset,
    MaterialChannel::EmissionOffset,
    MaterialChannel::NormalOffset,
    MaterialChannel::MetallicOffset,
    MaterialChannel::RoughnessOffset,
    MaterialChannel::AmbientOcclusionOffset,
    MaterialChannel::CaveatOffset,
];

fn pair(a: f32, b: f32) -> (u32, u32) {
    (a.to_bits(), b.to_bits())
}

fn unit_offset() -> TextureOffset {
    TextureOffset { u: pair(0.0, 1.0), v: pair(0.0, 1.0) }
}

fn material() -> Material {
    Material {
        albedo: TextureHandle { id: 101 },
        albedo_offset: unit_offset(),
        emission: TextureHandle { id: 102 },
        emission_offset: unit_offset(),
        normal: TextureHandle { id: 103 },
        normal_offset: unit_offset(),
        metallic: TextureHandle { id: 104 },
        metallic_offset: unit_offset(),
        roughness: TextureHandle { id: 105 },
        roughness_offset: unit_offset(),
        ambient_occlusion: TextureHandle { id: 106 },
        ambient_occlusion_offset: unit_offset(),
        caveat: TextureHandle { id: 107 },
        caveat_offset: unit_offset(),
    }
}

fn texture_field(material: &Material, channel: MaterialChannel) -> TextureHandle {
    match channel {
        MaterialChannel::AlbedoTexture => material.albedo,
        MaterialChannel::EmissionTexture => material.emission,
        MaterialChannel::NormalTexture => material.normal,
        MaterialChannel::MetallicTexture => material.metallic,
        MaterialChannel::RoughnessTexture => material.roughness,
        MaterialChannel::AmbientOcclusionTexture => material.ambient_occlusion,
        MaterialChannel::CaveatTexture => material.caveat,
        _ => unreachable!(),
    }
}

fn offset_field(material: &Material, channel: MaterialChannel) -> TextureOffset {
    match channel {
        MaterialChannel::AlbedoOffset => material.albedo_offset,
        MaterialChannel::EmissionOffset => material.emission_offset,
        MaterialChannel::NormalOffset => material.normal_offset,
        MaterialChannel::MetallicOffset => material.metallic_offset,
        MaterialChannel::RoughnessOffset => material.roughness_offset,
        MaterialChannel::AmbientOcclusionOffset => material.ambient_occlusion_offset,
        MaterialChannel::CaveatOffset => material.caveat_offset,
        _ => unreachable!(),
    }
}

#[test]
fn unregistered_index_leaves_albedo_unchanged() {
    let set = MaterialTextureSet::new();
    let mut target = material();
    target.apply_sample(&MaterialChannel::AlbedoTexture, &MaterialPrimitive::Texture(5), &set);
    assert_eq!(target.albedo, TextureHandle { id: 101 });
    assert_eq!(target, material());
}

#[test]
fn registered_index_sets_albedo_and_samples_back() {
    let mut set = MaterialTextureSet::new();
    let r = TextureHandle { id: 900 };
    set.insert(5, r);
    let mut target = material();
    target.apply_sample(&MaterialChannel::AlbedoTexture, &MaterialPrimitive::Texture(5), &set);
    assert_eq!(target.albedo, r);
    assert_eq!(
        target.current_sample(&MaterialChannel::AlbedoTexture, &set),
        MaterialPrimitive::Texture(5)
    );
    let mut expected = material();
    expected.albedo = r;
    assert_eq!(target, expected);
}

#[test]
fn texture_round_trip_on_every_texture_channel() {
    let mut set = MaterialTextureSet::new();
    for k in 0..TEXTURE_CHANNELS.len() {
        set.insert(10 + k, TextureHandle { id: 500 + k as u32 });
    }
    for (k, channel) in TEXTURE_CHANNELS.iter().enumerate() {
        let mut target = material();
        target.apply_sample(channel, &MaterialPrimitive::Texture(10 + k), &set);
        assert_eq!(texture_field(&target, *channel), TextureHandle { id: 500 + k as u32 });
        assert_eq!(target.current_sample(channel, &set), MaterialPrimitive::Texture(10 + k));
        assert_eq!(
            target.try_current_sample(channel, &set),
            Some(MaterialPrimitive::Texture(10 + k))
        );
        for other in TEXTURE_CHANNELS.iter() {
            if other != channel {
                assert_eq!(texture_field(&target, *other), texture_field(&material(), *other));
            }
        }
        for other in OFFSET_CHANNELS.iter() {
            assert_eq!(offset_field(&target, *other), unit_offset());
        }
    }
}

#[test]
fn unregistered_index_is_ignored_on_every_texture_channel() {
    let mut set = MaterialTextureSet::new();
    set.insert(1, TextureHandle { id: 500 });
    for channel in TEXTURE_CHANNELS.iter() {
        let mut target = material();
        target.apply_sample(channel, &MaterialPrimitive::Texture(2), &set);
        assert_eq!(target, material());
    }
}

#[test]
fn offset_round_trip_is_exact() {
    let set = MaterialTextureSet::new();
    let data = MaterialPrimitive::Offset(pair(1.0, 2.0), pair(3.0, 4.0));
    for channel in OFFSET_CHANNELS.iter() {
        let mut target = material();
        target.apply_sample(channel, &data, &set);
        assert_eq!(target.current_sample(channel, &set), data);
        assert_eq!(target.try_current_sample(channel, &set), Some(data));
        let held = offset_field(&target, *channel);
        assert_eq!(f32::from_bits(held.u.0), 1.0);
        assert_eq!(f32::from_bits(held.u.1), 2.0);
        assert_eq!(f32::from_bits(held.v.0), 3.0);
        assert_eq!(f32::from_bits(held.v.1), 4.0);
        for other in OFFSET_CHANNELS.iter() {
            if other != channel {
                assert_eq!(offset_field(&target, *other), unit_offset());
            }
        }
        for other in TEXTURE_CHANNELS.iter() {
            assert_eq!(texture_field(&target, *other), texture_field(&material(), *other));
        }
    }
}

#[test]
fn offset_keeps_bit_patterns_of_unusual_values() {
    let set = MaterialTextureSet::new();
    let data = MaterialPrimitive::Offset(pair(f32::NAN, -0.0), pair(f32::INFINITY, f32::MIN_POSITIVE));
    let mut target = material();
    target.apply_sample(&MaterialChannel::NormalOffset, &data, &set);
    assert_eq!(target.current_sample(&MaterialChannel::NormalOffset, &set), data);
    assert_eq!(target.normal_offset.u.1, 0x8000_0000);
    assert_eq!(target.normal_offset.v.0, 0x7f80_0000);
}

#[test]
fn offset_sample_reads_the_field() {
    let set = MaterialTextureSet::new();
    let mut target = material();
    target.metallic_offset = TextureOffset { u: pair(0.25, 0.5), v: pair(0.75, 1.5) };
    assert_eq!(
        target.current_sample(&MaterialChannel::MetallicOffset, &set),
        MaterialPrimitive::Offset(pair(0.25, 0.5), pair(0.75, 1.5))
    );
    assert_eq!(
        target.current_sample(&MaterialChannel::RoughnessOffset, &set),
        MaterialPrimitive::Offset(pair(0.0, 1.0), pair(0.0, 1.0))
    );
}

#[test]
fn texture_sample_reads_the_inverse_table() {
    let mut set = MaterialTextureSet::new();
    set.insert(8, TextureHandle { id: 103 });
    let target = material();
    assert_eq!(
        target.current_sample(&MaterialChannel::NormalTexture, &set),
        MaterialPrimitive::Texture(8)
    );
}

#[test]
fn texture_sample_of_unregistered_handle_is_none() {
    let mut set = MaterialTextureSet::new();
    set.insert(8, TextureHandle { id: 103 });
    let target = material();
    for channel in TEXTURE_CHANNELS.iter() {
        let expected = if *channel == MaterialChannel::NormalTexture {
            Some(MaterialPrimitive::Texture(8))
        } else {
            None
        };
        assert_eq!(target.try_current_sample(channel, &set), expected);
    }
}

#[test]
fn texture_sample_after_reuse_gives_latest_index() {
    let mut set = MaterialTextureSet::new();
    let r = TextureHandle { id: 900 };
    set.insert(5, r);
    set.insert(6, r);
    let mut target = material();
    target.apply_sample(&MaterialChannel::CaveatTexture, &MaterialPrimitive::Texture(5), &set);
    assert_eq!(target.caveat, r);
    assert_eq!(
        target.current_sample(&MaterialChannel::CaveatTexture, &set),
        MaterialPrimitive::Texture(6)
    );
}

#[test]
fn sampling_does_not_change_the_material() {
    let mut set = MaterialTextureSet::new();
    set.insert(1, TextureHandle { id: 101 });
    let target = material();
    let _ = target.current_sample(&MaterialChannel::AlbedoTexture, &set);
    let _ = target.current_sample(&MaterialChannel::AlbedoOffset, &set);
    assert_eq!(target, material());
    assert_eq!(set.handle(1), Some(TextureHandle { id: 101 }));
}

#[test]
fn blend_method_is_none_on_every_channel() {
    let target = material();
    for channel in TEXTURE_CHANNELS.iter().chain(OFFSET_CHANNELS.iter()) {
        let method: Option<BlendMethod> = target.blend_method(channel);
        assert_eq!(method, None);
    }
}

#[test]
fn texture_channels_accept_indices_only() {
    let index = MaterialPrimitive::Texture(0);
    let offset = MaterialPrimitive::Offset(pair(1.0, 2.0), pair(3.0, 4.0));
    for channel in TEXTURE_CHANNELS.iter() {
        assert!(channel.is_texture());
        assert!(channel.accepts(&index));
        assert!(!channel.accepts(&offset));
    }
}

#[test]
fn offset_channels_accept_offsets_only() {
    let index = MaterialPrimitive::Texture(0);
    let offset = MaterialPrimitive::Offset(pair(1.0, 2.0), pair(3.0, 4.0));
    for channel in OFFSET_CHANNELS.iter() {
        assert!(!channel.is_texture());
        assert!(channel.accepts(&offset));
        assert!(!channel.accepts(&index));
    }
    assert!(!MaterialChannel::AlbedoOffset.accepts(&MaterialPrimitive::Texture(5)));
}

#[test]
fn channels_name_their_property() {
    let properties = [
        MaterialProperty::Albedo,
        MaterialProperty::Emission,
        MaterialProperty::Normal,
        MaterialProperty::Metallic,
        MaterialProperty::Roughness,
        MaterialProperty::AmbientOcclusion,
        MaterialProperty::Caveat,
    ];
    for k in 0..7 {
        assert_eq!(TEXTURE_CHANNELS[k].property(), properties[k]);
        assert_eq!(OFFSET_CHANNELS[k].property(), properties[k]);
    }
}

#[test]
fn channels_are_distinct_keys() {
    let mut seen = std::collections::HashSet::new();
    for channel in TEXTURE_CHANNELS.iter().chain(OFFSET_CHANNELS.iter()) {
        assert!(seen.insert(*channel));
    }
    assert_eq!(seen.len(), 14);
    assert!(!seen.insert(MaterialChannel::CaveatOffset));
}
