//! Reading and writing one channel of a material.

use crate::channel::BlendMethod;
use crate::channel::MaterialChannel;
use crate::channel::MaterialPrimitive;
use crate::channel::MaterialProperty;
use crate::texture_set::MaterialTextureSet;
use crate::texture_set::TextureHandle;
use crate::texture_set::TextureSetView;
use vstd::pervasive::unreached;
use vstd::prelude::*;

verus! {

/// Where a texture is laid on a surface: two coordinate pairs, each
/// coordinate as the bit pattern of its single-precision value.
#[derive(Debug, Clone, Copy, PartialEq, Eq, Hash)]
pub struct TextureOffset {
    pub u: (u32, u32),
    pub v: (u32, u32),
}

/// The animatable part of a surface description: for each property a
/// texture and the offset of that texture.
#[derive(Debug, Clone, Copy, PartialEq, Eq, Hash)]
pub struct Material {
    pub albedo: TextureHandle,
    pub albedo_offset: TextureOffset,
    pub emission: TextureHandle,
    pub emission_offset: TextureOffset,
    pub normal: TextureHandle,
    pub normal_offset: TextureOffset,
    pub metallic: TextureHandle,
    pub metallic_offset: TextureOffset,
    pub roughness: TextureHandle,
    pub roughness_offset: TextureOffset,
    pub ambient_occlusion: TextureHandle,
    pub ambient_occlusion_offset: TextureOffset,
    pub caveat: TextureHandle,
    pub caveat_offset: TextureOffset,
}

/// The primitive that carries the two pairs of `held`.
fn offset(held: &TextureOffset) -> (data: MaterialPrimitive)
    ensures
        data == MaterialPrimitive::Offset(held.u, held.v),
{
    MaterialPrimitive::Offset(held.u, held.v)
}

/// The offset made of the two pairs.
fn texture_offset(u: (u32, u32), v: (u32, u32)) -> (made: TextureOffset)
    ensures
        made == (TextureOffset { u, v }),
{
    TextureOffset { u, v }
}

impl Material {
    /// The texture of `property`.
    pub open spec fn texture(self, property: MaterialProperty) -> TextureHandle {
        match property {
            MaterialProperty::Albedo => self.albedo,
            MaterialProperty::Emission => self.emission,
            MaterialProperty::Normal => self.normal,
            MaterialProperty::Metallic => self.metallic,
            MaterialProperty::Roughness => self.roughness,
            MaterialProperty::AmbientOcclusion => self.ambient_occlusion,
            MaterialProperty::Caveat => self.caveat,
        }
    }

    /// The texture offset of `property`.
    pub open spec fn offset(self, property: MaterialProperty) -> TextureOffset {
        match property {
            MaterialProperty::Albedo => self.albedo_offset,
            MaterialProperty::Emission => self.emission_offset,
            MaterialProperty::Normal => self.normal_offset,
            MaterialProperty::Metallic => self.metallic_offset,
            MaterialProperty::Roughness => self.roughness_offset,
            MaterialProperty::AmbientOcclusion => self.ambient_occlusion_offset,
            MaterialProperty::Caveat => self.caveat_offset,
        }
    }

    /// This material with the texture of `property` replaced by `handle`.
    pub open spec fn with_texture(self, property: MaterialProperty, handle: TextureHandle) -> Material {
        match property {
            MaterialProperty::Albedo => Material { albedo: handle, ..self },
            MaterialProperty::Emission => Material { emission: handle, ..self },
            MaterialProperty::Normal => Material { normal: handle, ..self },
            MaterialProperty::Metallic => Material { metallic: handle, ..self },
            MaterialProperty::Roughness => Material { roughness: handle, ..self },
            MaterialProperty::AmbientOcclusion => Material { ambient_occlusion: handle, ..self },
            MaterialProperty::Caveat => Material { caveat: handle, ..self },
        }
    }

    /// This material with the texture offset of `property` replaced by
    /// `offset`.
    pub open spec fn with_offset(self, property: MaterialProperty, offset: TextureOffset) -> Material {
        match property {
            MaterialProperty::Albedo => Material { albedo_offset: offset, ..self },
            MaterialProperty::Emission => Material { emission_offset: offset, ..self },
            MaterialProperty::Normal => Material { normal_offset: offset, ..self },
            MaterialProperty::Metallic => Material { metallic_offset: offset, ..self },
            MaterialProperty::Roughness => Material { roughness_offset: offset, ..self },
            MaterialProperty::AmbientOcclusion => Material { ambient_occlusion_offset: offset, ..self },
            MaterialProperty::Caveat => Material { caveat_offset: offset, ..self },
        }
    }

    /// The material that results from applying `data` on `channel`.
    ///
    /// An index that `set` resolves replaces the texture of the channel's
    /// property with the handle it resolves to; one that `set` does not
    /// resolve changes nothing. Coordinate pairs replace the offset of the
    /// channel's property.
    pub open spec fn applied(
        self,
        channel: MaterialChannel,
        data: MaterialPrimitive,
        set: TextureSetView,
    ) -> Material
        recommends
            channel.spec_accepts(data),
    {
        match data {
            MaterialPrimitive::Texture(index) => match set.handle(index) {
                Some(handle) => self.with_texture(channel.spec_property(), handle),
                None => self,
            },
            MaterialPrimitive::Offset(u, v) => self.with_offset(
                channel.spec_property(),
                TextureOffset { u, v },
            ),
        }
    }

    /// Whether `channel` can be sampled: an offset channel always can, a
    /// texture channel when `set` has an index for the texture held.
    pub open spec fn samplable(self, channel: MaterialChannel, set: TextureSetView) -> bool {
        channel.spec_is_texture() ==> set.index(self.texture(channel.spec_property())).is_some()
    }

    /// What `channel` holds: on a texture channel the index that `set` has
    /// for the texture, on an offset channel the offset's two pairs.
    pub open spec fn sampled(self, channel: MaterialChannel, set: TextureSetView) -> MaterialPrimitive
        recommends
            self.samplable(channel, set),
    {
        if channel.spec_is_texture() {
            MaterialPrimitive::Texture(set.index(self.texture(channel.spec_property())).unwrap())
        } else {
            let offset = self.offset(channel.spec_property());
            MaterialPrimitive::Offset(offset.u, offset.v)
        }
    }

    /// Sets `channel` to `data`, with texture indices resolved by `extra`.
    ///
    /// Only the field that `channel` names can change. A texture index that
    /// `extra` does not hold leaves the material as it is.
    pub fn apply_sample(
        &mut self,
        channel: &MaterialChannel,
        data: &MaterialPrimitive,
        extra: &MaterialTextureSet,
    )
        requires
            channel.spec_accepts(*data),
        ensures
            *final(self) == old(self).applied(*channel, *data, extra@),
    {
        match (*channel, *data) {
            (MaterialChannel::AlbedoTexture, MaterialPrimitive::Texture(i)) => {
                if let Some(handle) = extra.handle(i) {
                    self.albedo = handle;
                }
            },
            (MaterialChannel::EmissionTexture, MaterialPrimitive::Texture(i)) => {
                if let Some(handle) = extra.handle(i) {
                    self.emission = handle;
                }
            },
            (MaterialChannel::NormalTexture, MaterialPrimitive::Texture(i)) => {
                if let Some(handle) = extra.handle(i) {
                    self.normal = handle;
                }
            },
            (MaterialChannel::MetallicTexture, MaterialPrimitive::Texture(i)) => {
                if let Some(handle) = extra.handle(i) {
                    self.metallic = handle;
                }
            },
            (MaterialChannel::RoughnessTexture, MaterialPrimitive::Texture(i)) => {
                if let Some(handle) = extra.handle(i) {
                    self.roughness = handle;
                }
            },
            (MaterialChannel::AmbientOcclusionTexture, MaterialPrimitive::Texture(i)) => {
                if let Some(handle) = extra.handle(i) {
                    self.ambient_occlusion = handle;
                }
            },
            (MaterialChannel::CaveatTexture, MaterialPrimitive::Texture(i)) => {
                if let Some(handle) = extra.handle(i) {
                    self.caveat = handle;
                }
            },
            (MaterialChannel::AlbedoOffset, MaterialPrimitive::Offset(u, v)) => {
                self.albedo_offset = texture_offset(u, v)
            },
            (MaterialChannel::EmissionOffset, MaterialPrimitive::Offset(u, v)) => {
                self.emission_offset = texture_offset(u, v)
            },
            (MaterialChannel::NormalOffset, MaterialPrimitive::Offset(u, v)) => {
                self.normal_offset = texture_offset(u, v)
            },
            (MaterialChannel::MetallicOffset, MaterialPrimitive::Offset(u, v)) => {
                self.metallic_offset = texture_offset(u, v)
            },
            (MaterialChannel::RoughnessOffset, MaterialPrimitive::Offset(u, v)) => {
                self.roughness_offset = texture_offset(u, v)
            },
            (MaterialChannel::AmbientOcclusionOffset, MaterialPrimitive::Offset(u, v)) => {
                self.ambient_occlusion_offset = texture_offset(u, v)
            },
            (MaterialChannel::CaveatOffset, MaterialPrimitive::Offset(u, v)) => {
                self.caveat_offset = texture_offset(u, v)
            },
            _ => unreached(),
        }
    }

    /// The value that `channel` holds, if it can be sampled: `None` exactly
    /// when `channel` is a texture channel and `extra` has no index for the
    /// texture held.
    pub fn try_current_sample(
        &self,
        channel: &MaterialChannel,
        extra: &MaterialTextureSet,
    ) -> (data: Option<MaterialPrimitive>)
        ensures
            data == (if self.samplable(*channel, extra@) {
                Some(self.sampled(*channel, extra@))
            } else {
                None
            }),
    {
        match *channel {
            MaterialChannel::AlbedoTexture => texture_index(extra.index(&self.albedo)),
            MaterialChannel::EmissionTexture => texture_index(extra.index(&self.emission)),
            MaterialChannel::NormalTexture => texture_index(extra.index(&self.normal)),
            MaterialChannel::MetallicTexture => texture_index(extra.index(&self.metallic)),
            MaterialChannel::RoughnessTexture => texture_index(extra.index(&self.roughness)),
            MaterialChannel::AmbientOcclusionTexture => texture_index(
                extra.index(&self.ambient_occlusion),
            ),
            MaterialChannel::CaveatTexture => texture_index(extra.index(&self.caveat)),
            MaterialChannel::AlbedoOffset => Some(offset(&self.albedo_offset)),
            MaterialChannel::EmissionOffset => Some(offset(&self.emission_offset)),
            MaterialChannel::NormalOffset => Some(offset(&self.normal_offset)),
            MaterialChannel::MetallicOffset => Some(offset(&self.metallic_offset)),
            MaterialChannel::RoughnessOffset => Some(offset(&self.roughness_offset)),
            MaterialChannel::AmbientOcclusionOffset => Some(offset(&self.ambient_occlusion_offset)),
            MaterialChannel::CaveatOffset => Some(offset(&self.caveat_offset)),
        }
    }

    /// The value that `channel` holds. On a texture channel, `extra` must
    /// have an index for the texture held.
    pub fn current_sample(&self, channel: &MaterialChannel, extra: &MaterialTextureSet) -> (data:
        MaterialPrimitive)
        requires
            self.samplable(*channel, extra@),
        ensures
            data == self.sampled(*channel, extra@),
    {
        match self.try_current_sample(channel, extra) {
            Some(data) => data,
            None => unreached(),
        }
    }

    /// How animations of `channel` are blended: not at all, on any channel.
    pub fn blend_method(&self, channel: &MaterialChannel) -> (method: Option<BlendMethod>)
        ensures
            method.is_none(),
    {
        None
    }
}

/// The primitive that carries a resolved texture index.
fn texture_index(found: Option<usize>) -> (data: Option<MaterialPrimitive>)
    ensures
        data == (match found {
            Some(index) => Some(MaterialPrimitive::Texture(index)),
            None => None,
        }),
{
    match found {
        Some(index) => Some(MaterialPrimitive::Texture(index)),
        None => None,
    }
}

/// A texture index that was applied is the one sampled back: when `set`
/// resolves `index` to a handle and gives `index` for that handle, sampling a
/// texture channel right after `index` was applied to it gives `index`.
pub proof fn lemma_texture_sample_round_trip(
    material: Material,
    channel: MaterialChannel,
    index: usize,
    set: TextureSetView,
)
    requires
        channel.spec_is_texture(),
        set.handle(index).is_some(),
        set.index(set.handle(index).unwrap()) == Some(index),
    ensures
        material.applied(channel, MaterialPrimitive::Texture(index), set).samplable(channel, set),
        material.applied(channel, MaterialPrimitive::Texture(index), set).sampled(channel, set)
            == MaterialPrimitive::Texture(index),
{
}

/// With a consistent set every index that the set resolves is sampled back
/// after it was applied.
pub proof fn lemma_texture_sample_round_trip_consistent(
    material: Material,
    channel: MaterialChannel,
    index: usize,
    set: TextureSetView,
)
    requires
        channel.spec_is_texture(),
        set.consistent(),
        set.handle(index).is_some(),
    ensures
        material.applied(channel, MaterialPrimitive::Texture(index), set).samplable(channel, set),
        material.applied(channel, MaterialPrimitive::Texture(index), set).sampled(channel, set)
            == MaterialPrimitive::Texture(index),
{
}

/// An offset that was applied is the one sampled back, pair for pair and bit
/// for bit, whatever the texture set holds.
pub proof fn lemma_offset_sample_round_trip(
    material: Material,
    channel: MaterialChannel,
    u: (u32, u32),
    v: (u32, u32),
    set: TextureSetView,
)
    requires
        !channel.spec_is_texture(),
    ensures
        material.applied(channel, MaterialPrimitive::Offset(u, v), set).samplable(channel, set),
        material.applied(channel, MaterialPrimitive::Offset(u, v), set).sampled(channel, set)
            == MaterialPrimitive::Offset(u, v),
{
}

/// A texture index that the set does not resolve changes nothing.
pub proof fn lemma_unresolved_index_is_ignored(
    material: Material,
    channel: MaterialChannel,
    index: usize,
    set: TextureSetView,
)
    requires
        set.handle(index).is_none(),
    ensures
        material.applied(channel, MaterialPrimitive::Texture(index), set) == material,
{
}

/// Applying a value on one channel leaves every other channel as it was:
/// whether it can be sampled, and what is sampled from it.
pub proof fn lemma_apply_keeps_other_channels(
    material: Material,
    channel: MaterialChannel,
    data: MaterialPrimitive,
    other: MaterialChannel,
    set: TextureSetView,
)
    requires
        channel.spec_accepts(data),
        other != channel,
    ensures
        material.applied(channel, data, set).samplable(other, set) == material.samplable(
            other,
            set,
        ),
        material.applied(channel, data, set).sampled(other, set) == material.sampled(other, set),
{
}

/// Applying a value changes at most the one field that the channel names:
/// the texture of every other property, every texture when the channel
/// drives an offset, the offset of every other property, and every offset
/// when the channel drives a texture, are as they were.
pub proof fn lemma_apply_changes_one_field(
    material: Material,
    channel: MaterialChannel,
    data: MaterialPrimitive,
    set: TextureSetView,
    property: MaterialProperty,
)
    requires
        channel.spec_accepts(data),
    ensures
        property != channel.spec_property() || !channel.spec_is_texture() ==> material.applied(
            channel,
            data,
            set,
        ).texture(property) == material.texture(property),
        property != channel.spec_property() || channel.spec_is_texture() ==> material.applied(
            channel,
            data,
            set,
        ).offset(property) == material.offset(property),
{
}

/// What an applied value puts in the field that the channel names: the
/// handle that the set resolves the index to, or the two pairs as an offset.
pub proof fn lemma_apply_sets_named_field(
    material: Material,
    channel: MaterialChannel,
    data: MaterialPrimitive,
    set: TextureSetView,
)
    requires
        channel.spec_accepts(data),
    ensures
        data matches MaterialPrimitive::Texture(index) ==> material.applied(
            channel,
            data,
            set,
        ).texture(channel.spec_property()) == (match set.handle(index) {
            Some(handle) => handle,
            None => material.texture(channel.spec_property()),
        }),
        data matches MaterialPrimitive::Offset(u, v) ==> material.applied(
            channel,
            data,
            set,
        ).offset(channel.spec_property()) == (TextureOffset { u, v }),
{
}

} // verus!
