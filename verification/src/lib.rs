//! Sampling of animatable material properties.
//!
//! An animation drives a surface description one channel at a time. Texture
//! channels are driven through small integers that a [`MaterialTextureSet`]
//! resolves to texture handles; offset channels carry their coordinate pairs
//! directly.

pub mod channel;
mod fnv_map;
pub mod sampling;
pub mod texture_set;

pub use channel::BlendMethod;
pub use channel::MaterialChannel;
pub use channel::MaterialPrimitive;
pub use channel::MaterialProperty;
pub use sampling::Material;
pub use sampling::TextureOffset;
pub use texture_set::MaterialTextureSet;
pub use texture_set::TextureHandle;
pub use texture_set::TextureSetView;
