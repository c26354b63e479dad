//! Verified core of a painter that draws an immediate-mode GUI's clipped
//! triangle meshes with the `grr` graphics API.
//!
//! The library decides; the host performs. It keeps the texture cache, plans
//! one draw call per visible mesh (scissor, viewport, texture, index range),
//! and tracks the frame cycle. The host issues the GPU calls it plans.

pub mod frame;
pub mod gpu;
pub mod painter;
pub mod pixels;
pub mod scissor;
pub mod texture_cache;

pub use frame::FrameState;
pub use painter::{
    blend_policy, plan_draws, plan_mesh, BlendChannel, BlendFactor, BlendPolicy, DrawCall, MeshInfo,
    Painter, COLOR_OFFSET, MAX_TEXTURE_SIDE, POSITION_OFFSET, TEXCOORD_OFFSET, VERTEX_STRIDE,
};
pub use pixels::{flatten_texels, image_size_matches};
pub use scissor::{scissor_region, PixelRect, ScissorRegion};
pub use texture_cache::{ImageRegion, TextureCache, TextureEntry, TextureId, TextureUpload};
