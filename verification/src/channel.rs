//! The channels through which a material is animated, and the values that
//! travel on them.

use vstd::prelude::*;

verus! {

/// How concurrent animations of one channel are mixed.
#[derive(Debug, Clone, Copy, PartialEq, Eq, Structural, Hash)]
pub enum BlendMethod {
    Linear,
}

/// The seven properties of a material. Each has a texture and an offset.
#[derive(Debug, Clone, Copy, PartialEq, Eq, Structural, Hash)]
pub enum MaterialProperty {
    Albedo,
    Emission,
    Normal,
    Metallic,
    Roughness,
    AmbientOcclusion,
    Caveat,
}

/// A value sampled from, or applied to, one channel of a material.
///
/// `Texture` names a texture by its index in the texture set. `Offset` holds
/// the two coordinate pairs of a texture offset, each coordinate as the bit
/// pattern of its single-precision value.
#[derive(Debug, Clone, Copy, PartialEq, Eq, Hash)]
pub enum MaterialPrimitive {
    Texture(usize),
    Offset((u32, u32), (u32, u32)),
}

/// Channels that are animatable on a material.
#[derive(Debug, Clone, Copy, PartialEq, Eq, Structural, Hash)]
pub enum MaterialChannel {
    AlbedoTexture,
    AlbedoOffset,
    EmissionTexture,
    EmissionOffset,
    NormalTexture,
    NormalOffset,
    MetallicTexture,
    MetallicOffset,
    RoughnessTexture,
    RoughnessOffset,
    AmbientOcclusionTexture,
    AmbientOcclusionOffset,
    CaveatTexture,
    CaveatOffset,
}

impl MaterialChannel {
    /// The property that the channel belongs to.
    pub open spec fn spec_property(self) -> MaterialProperty {
        match self {
            MaterialChannel::AlbedoTexture | MaterialChannel::AlbedoOffset => MaterialProperty::Albedo,
            MaterialChannel::EmissionTexture | MaterialChannel::EmissionOffset => MaterialProperty::Emission,
            MaterialChannel::NormalTexture | MaterialChannel::NormalOffset => MaterialProperty::Normal,
            MaterialChannel::MetallicTexture | MaterialChannel::MetallicOffset => MaterialProperty::Metallic,
            MaterialChannel::RoughnessTexture | MaterialChannel::RoughnessOffset => MaterialProperty::Roughness,
            MaterialChannel::AmbientOcclusionTexture | MaterialChannel::AmbientOcclusionOffset => MaterialProperty::AmbientOcclusion,
            MaterialChannel::CaveatTexture | MaterialChannel::CaveatOffset => MaterialProperty::Caveat,
        }
    }

    /// Whether the channel drives the texture of its property; otherwise it
    /// drives the offset.
    pub open spec fn spec_is_texture(self) -> bool {
        match self {
            MaterialChannel::AlbedoTexture
            | MaterialChannel::EmissionTexture
            | MaterialChannel::NormalTexture
            | MaterialChannel::MetallicTexture
            | MaterialChannel::RoughnessTexture
            | MaterialChannel::AmbientOcclusionTexture
            | MaterialChannel::CaveatTexture => true,
            _ => false,
        }
    }

    /// Whether `data` has the shape that the channel takes: an index on a
    /// texture channel, coordinate pairs on an offset channel.
    pub open spec fn spec_accepts(self, data: MaterialPrimitive) -> bool {
        self.spec_is_texture() <==> data is Texture
    }

    /// The channel of `property` that drives its texture.
    pub open spec fn texture_of(property: MaterialProperty) -> MaterialChannel {
        match property {
            MaterialProperty::Albedo => MaterialChannel::AlbedoTexture,
            MaterialProperty::Emission => MaterialChannel::EmissionTexture,
            MaterialProperty::Normal => MaterialChannel::NormalTexture,
            MaterialProperty::Metallic => MaterialChannel::MetallicTexture,
            MaterialProperty::Roughness => MaterialChannel::RoughnessTexture,
            MaterialProperty::AmbientOcclusion => MaterialChannel::AmbientOcclusionTexture,
            MaterialProperty::Caveat => MaterialChannel::CaveatTexture,
        }
    }

    /// The channel of `property` that drives its offset.
    pub open spec fn offset_of(property: MaterialProperty) -> MaterialChannel {
        match property {
            MaterialProperty::Albedo => MaterialChannel::AlbedoOffset,
            MaterialProperty::Emission => MaterialChannel::EmissionOffset,
            MaterialProperty::Normal => MaterialChannel::NormalOffset,
            MaterialProperty::Metallic => MaterialChannel::MetallicOffset,
            MaterialProperty::Roughness => MaterialChannel::RoughnessOffset,
            MaterialProperty::AmbientOcclusion => MaterialChannel::AmbientOcclusionOffset,
            MaterialProperty::Caveat => MaterialChannel::CaveatOffset,
        }
    }

    /// The property that the channel belongs to.
    pub fn property(&self) -> (property: MaterialProperty)
        ensures
            property == self.spec_property(),
    {
        match *self {
            MaterialChannel::AlbedoTexture | MaterialChannel::AlbedoOffset => MaterialProperty::Albedo,
            MaterialChannel::EmissionTexture | MaterialChannel::EmissionOffset => MaterialProperty::Emission,
            MaterialChannel::NormalTexture | MaterialChannel::NormalOffset => MaterialProperty::Normal,
            MaterialChannel::MetallicTexture | MaterialChannel::MetallicOffset => MaterialProperty::Metallic,
            MaterialChannel::RoughnessTexture | MaterialChannel::RoughnessOffset => MaterialProperty::Roughness,
            MaterialChannel::AmbientOcclusionTexture | MaterialChannel::AmbientOcclusionOffset => MaterialProperty::AmbientOcclusion,
            MaterialChannel::CaveatTexture | MaterialChannel::CaveatOffset => MaterialProperty::Caveat,
        }
    }

    /// Whether the channel drives a texture.
    pub fn is_texture(&self) -> (texture: bool)
        ensures
            texture == self.spec_is_texture(),
    {
        match *self {
            MaterialChannel::AlbedoTexture
            | MaterialChannel::EmissionTexture
            | MaterialChannel::NormalTexture
            | MaterialChannel::MetallicTexture
            | MaterialChannel::RoughnessTexture
            | MaterialChannel::AmbientOcclusionTexture
            | MaterialChannel::CaveatTexture => true,
            _ => false,
        }
    }

    /// Whether `data` has the shape that the channel takes.
    pub fn accepts(&self, data: &MaterialPrimitive) -> (accepted: bool)
        ensures
            accepted == self.spec_accepts(*data),
    {
        match *data {
            MaterialPrimitive::Texture(_) => self.is_texture(),
            MaterialPrimitive::Offset(_, _) => !self.is_texture(),
        }
    }
}

/// A channel is told apart by its property and by whether it drives the
/// texture: the fourteen channels are the seven properties taken twice.
pub proof fn lemma_channel_is_property_and_shape(channel: MaterialChannel)
    ensures
        channel.spec_is_texture() ==> channel == MaterialChannel::texture_of(channel.spec_property()),
        !channel.spec_is_texture() ==> channel == MaterialChannel::offset_of(channel.spec_property()),
{
}

/// Every index is accepted on every texture channel and on no offset
/// channel; every offset on every offset channel and on no texture channel.
pub proof fn lemma_accepts_by_shape(property: MaterialProperty, data: MaterialPrimitive)
    ensures
        MaterialChannel::texture_of(property).spec_accepts(data) <==> data is Texture,
        MaterialChannel::offset_of(property).spec_accepts(data) <==> data is Offset,
{
}

} // verus!
