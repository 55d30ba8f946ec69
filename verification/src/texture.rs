//! GPU images, their views, and samplers.
//!
//! A texture owns a backing image and one default view; the view's identity
//! equals the image's. Resizing destroys and recreates the backing storage —
//! the wrapper keeps its format but its backing identity changes. Decoding
//! image files into raw pixel bytes is the frame loop's work.

use vstd::prelude::*;

verus! {

use crate::gpu::GpuContext;

/// The pixel or depth format of a texture.
#[derive(Clone, Copy, Debug, PartialEq, Eq, Structural)]
pub enum TextureFormat {
    Rgba8Unorm,
    Rgba8UnormSrgb,
    Bgra8Unorm,
    Bgra8UnormSrgb,
    R8Unorm,
    Depth32Float,
}

impl TextureFormat {
    /// Whether the format carries sRGB-encoded color.
    pub open spec fn spec_is_srgb(self) -> bool {
        self == TextureFormat::Rgba8UnormSrgb || self == TextureFormat::Bgra8UnormSrgb
    }

    /// Whether the format carries sRGB-encoded color.
    pub fn is_srgb(&self) -> (r: bool)
        ensures
            r == self.spec_is_srgb(),
    {
        match self {
            TextureFormat::Rgba8UnormSrgb => true,
            TextureFormat::Bgra8UnormSrgb => true,
            _ => false,
        }
    }
}

/// The format every depth texture of this engine uses.
pub open spec fn depth_format() -> TextureFormat {
    TextureFormat::Depth32Float
}

/// The extent of an image.
#[derive(Clone, Copy, Debug, PartialEq, Eq, Structural)]
pub struct Extent3d {
    pub width: u32,
    pub height: u32,
    pub depth_or_array_layers: u32,
}

/// A GPU image with its default view.
///
/// `id` is the identity of the backing image (and of its default view);
/// `data` is the pixel image uploaded from the host, empty for render
/// targets, which are written only by the GPU.
#[derive(Debug)]
pub struct GpuTexture {
    /// Identity of the backing image and its default view.
    pub id: u64,
    /// The extent of the image.
    pub size: Extent3d,
    /// The format, fixed for the life of the wrapper.
    pub format: TextureFormat,
    /// Mip level count.
    pub mip_level_count: u32,
    /// The pixel bytes uploaded from the host; empty for render targets.
    pub data: Vec<u8>,
}

impl Clone for GpuTexture {
    /// A cloned handle denotes the same backing image.
    fn clone(&self) -> (r: Self)
        ensures
            r.id == self.id,
            r.size == self.size,
            r.format == self.format,
            r.mip_level_count == self.mip_level_count,
            r.data@ == self.data@,
    {
        GpuTexture {
            id: self.id,
            size: self.size,
            format: self.format,
            mip_level_count: self.mip_level_count,
            data: crate::bytes::copy_vec(&self.data),
        }
    }
}

impl GpuTexture {
    /// A sampled texture uploaded from decoded RGBA pixels: four bytes per
    /// pixel, rows in order.
    pub fn from_rgba(
        ctx: &mut GpuContext,
        width: u32,
        height: u32,
        data: Vec<u8>,
        _label: Option<&str>,
    ) -> (r: GpuTexture)
        requires
            old(ctx).can_alloc(1),
            data@.len() == 4 * width * height,
        ensures
            r.id == old(ctx).next_id,
            r.size == (Extent3d { width, height, depth_or_array_layers: 1u32 }),
            r.format == TextureFormat::Rgba8UnormSrgb,
            r.mip_level_count == 1,
            r.data@ == data@,
            final(ctx).next_id == old(ctx).next_id + 1,
            final(ctx).features == old(ctx).features,
            final(ctx).limits == old(ctx).limits,
            final(ctx).device_label == old(ctx).device_label,
            final(ctx).submitted == old(ctx).submitted,
    {
        let id = ctx.fresh_id();
        GpuTexture {
            id,
            size: Extent3d { width, height, depth_or_array_layers: 1 },
            format: TextureFormat::Rgba8UnormSrgb,
            mip_level_count: 1,
            data,
        }
    }

    /// A render target: written by the GPU, sampled later.
    pub fn new_render_target(
        ctx: &mut GpuContext,
        width: u32,
        height: u32,
        format: TextureFormat,
        _label: Option<&str>,
    ) -> (r: GpuTexture)
        requires
            old(ctx).can_alloc(1),
        ensures
            r.id == old(ctx).next_id,
            r.size == (Extent3d { width, height, depth_or_array_layers: 1u32 }),
            r.format == format,
            r.mip_level_count == 1,
            r.data@.len() == 0,
            final(ctx).next_id == old(ctx).next_id + 1,
            final(ctx).features == old(ctx).features,
            final(ctx).limits == old(ctx).limits,
            final(ctx).device_label == old(ctx).device_label,
            final(ctx).submitted == old(ctx).submitted,
    {
        let id = ctx.fresh_id();
        GpuTexture {
            id,
            size: Extent3d { width, height, depth_or_array_layers: 1 },
            format,
            mip_level_count: 1,
            data: Vec::new(),
        }
    }

    /// A depth texture in the engine's fixed depth format.
    pub fn new_depth_texture(
        ctx: &mut GpuContext,
        width: u32,
        height: u32,
        _label: Option<&str>,
    ) -> (r: GpuTexture)
        requires
            old(ctx).can_alloc(1),
        ensures
            r.id == old(ctx).next_id,
            r.size == (Extent3d { width, height, depth_or_array_layers: 1u32 }),
            r.format == TextureFormat::Depth32Float,
            r.mip_level_count == 1,
            r.data@.len() == 0,
            final(ctx).next_id == old(ctx).next_id + 1,
            final(ctx).features == old(ctx).features,
            final(ctx).limits == old(ctx).limits,
            final(ctx).device_label == old(ctx).device_label,
            final(ctx).submitted == old(ctx).submitted,
    {
        let id = ctx.fresh_id();
        GpuTexture {
            id,
            size: Extent3d { width, height, depth_or_array_layers: 1 },
            format: TextureFormat::Depth32Float,
            mip_level_count: 1,
            data: Vec::new(),
        }
    }

    /// Identity of the default view of the backing image.
    pub fn view(&self) -> (r: u64)
        ensures
            r == self.id,
    {
        self.id
    }

    /// The extent of the image.
    pub fn size(&self) -> (r: Extent3d)
        ensures
            r == self.size,
    {
        self.size
    }

    /// The format, fixed for the life of the wrapper.
    pub fn format(&self) -> (r: TextureFormat)
        ensures
            r == self.format,
    {
        self.format
    }

    /// Destroy and recreate the backing storage at a new extent. The wrapper
    /// keeps its format and mip count; the backing identity is fresh, and
    /// previous contents are gone. Degenerate extents are refused by the
    /// backing API, so the caller must keep both dimensions positive.
    pub fn resize(&mut self, ctx: &mut GpuContext, width: u32, height: u32)
        requires
            old(ctx).can_alloc(1),
            width > 0,
            height > 0,
        ensures
            final(self).id == old(ctx).next_id,
            final(self).size == (Extent3d { width, height, depth_or_array_layers: 1u32 }),
            final(self).format == old(self).format,
            final(self).mip_level_count == old(self).mip_level_count,
            final(self).data@.len() == 0,
            final(ctx).next_id == old(ctx).next_id + 1,
            final(ctx).features == old(ctx).features,
            final(ctx).limits == old(ctx).limits,
            final(ctx).device_label == old(ctx).device_label,
            final(ctx).submitted == old(ctx).submitted,
    {
        let id = ctx.fresh_id();
        self.id = id;
        self.size = Extent3d { width, height, depth_or_array_layers: 1 };
        self.data = Vec::new();
    }
}

/// How a sampler wraps coordinates outside the texture.
#[derive(Clone, Copy, Debug, PartialEq, Eq, Structural)]
pub enum AddressMode {
    ClampToEdge,
    Repeat,
}

/// How a sampler filters between texels.
#[derive(Clone, Copy, Debug, PartialEq, Eq, Structural)]
pub enum FilterMode {
    Nearest,
    Linear,
}

/// The comparison a comparison sampler applies.
#[derive(Clone, Copy, Debug, PartialEq, Eq, Structural)]
pub enum CompareFunction {
    Never,
    Less,
    Equal,
    LessEqual,
    Greater,
    NotEqual,
    GreaterEqual,
    Always,
}

/// The full configuration of a sampler. Level-of-detail clamps are the bit
/// patterns of single-precision floats.
#[derive(Clone, Copy, Debug, PartialEq, Eq, Structural)]
pub struct SamplerConfig {
    pub address_mode: AddressMode,
    pub mag_filter: FilterMode,
    pub min_filter: FilterMode,
    pub mipmap_filter: FilterMode,
    pub lod_min_clamp: u32,
    pub lod_max_clamp: u32,
    pub compare: Option<CompareFunction>,
}

/// Bit pattern of the single-precision float 100.0, the default upper
/// level-of-detail clamp.
pub const F32_BITS_100: u32 = 0x42C8_0000;

/// A sampler with its fixed configuration.
#[derive(Debug)]
pub struct TextureSampler {
    /// Identity of the sampler object.
    pub id: u64,
    /// The configuration, fixed at creation.
    pub config: SamplerConfig,
}

impl Clone for TextureSampler {
    /// A cloned handle denotes the same sampler.
    fn clone(&self) -> (r: Self)
        ensures
            r.id == self.id,
            r.config == self.config,
    {
        TextureSampler { id: self.id, config: self.config }
    }
}

impl TextureSampler {
    /// A clamping, linearly filtering sampler.
    pub fn linear(ctx: &mut GpuContext, _label: Option<&str>) -> (r: TextureSampler)
        requires
            old(ctx).can_alloc(1),
        ensures
            r.id == old(ctx).next_id,
            r.config == (SamplerConfig {
                address_mode: AddressMode::ClampToEdge,
                mag_filter: FilterMode::Linear,
                min_filter: FilterMode::Linear,
                mipmap_filter: FilterMode::Linear,
                lod_min_clamp: 0u32,
                lod_max_clamp: F32_BITS_100,
                compare: None,
            }),
            final(ctx).next_id == old(ctx).next_id + 1,
            final(ctx).features == old(ctx).features,
            final(ctx).limits == old(ctx).limits,
            final(ctx).device_label == old(ctx).device_label,
            final(ctx).submitted == old(ctx).submitted,
    {
        let id = ctx.fresh_id();
        TextureSampler {
            id,
            config: SamplerConfig {
                address_mode: AddressMode::ClampToEdge,
                mag_filter: FilterMode::Linear,
                min_filter: FilterMode::Linear,
                mipmap_filter: FilterMode::Linear,
                lod_min_clamp: 0,
                lod_max_clamp: F32_BITS_100,
                compare: None,
            },
        }
    }

    /// A clamping, nearest-texel sampler.
    pub fn nearest(ctx: &mut GpuContext, _label: Option<&str>) -> (r: TextureSampler)
        requires
            old(ctx).can_alloc(1),
        ensures
            r.id == old(ctx).next_id,
            r.config == (SamplerConfig {
                address_mode: AddressMode::ClampToEdge,
                mag_filter: FilterMode::Nearest,
                min_filter: FilterMode::Nearest,
                mipmap_filter: FilterMode::Nearest,
                lod_min_clamp: 0u32,
                lod_max_clamp: F32_BITS_100,
                compare: None,
            }),
            final(ctx).next_id == old(ctx).next_id + 1,
            final(ctx).features == old(ctx).features,
            final(ctx).limits == old(ctx).limits,
            final(ctx).device_label == old(ctx).device_label,
            final(ctx).submitted == old(ctx).submitted,
    {
        let id = ctx.fresh_id();
        TextureSampler {
            id,
            config: SamplerConfig {
                address_mode: AddressMode::ClampToEdge,
                mag_filter: FilterMode::Nearest,
                min_filter: FilterMode::Nearest,
                mipmap_filter: FilterMode::Nearest,
                lod_min_clamp: 0,
                lod_max_clamp: F32_BITS_100,
                compare: None,
            },
        }
    }

    /// A repeating, linearly filtering sampler.
    pub fn repeat_linear(ctx: &mut GpuContext, _label: Option<&str>) -> (r: TextureSampler)
        requires
            old(ctx).can_alloc(1),
        ensures
            r.id == old(ctx).next_id,
            r.config == (SamplerConfig {
                address_mode: AddressMode::Repeat,
                mag_filter: FilterMode::Linear,
                min_filter: FilterMode::Linear,
                mipmap_filter: FilterMode::Linear,
                lod_min_clamp: 0u32,
                lod_max_clamp: F32_BITS_100,
                compare: None,
            }),
            final(ctx).next_id == old(ctx).next_id + 1,
            final(ctx).features == old(ctx).features,
            final(ctx).limits == old(ctx).limits,
            final(ctx).device_label == old(ctx).device_label,
            final(ctx).submitted == old(ctx).submitted,
    {
        let id = ctx.fresh_id();
        TextureSampler {
            id,
            config: SamplerConfig {
                address_mode: AddressMode::Repeat,
                mag_filter: FilterMode::Linear,
                min_filter: FilterMode::Linear,
                mipmap_filter: FilterMode::Linear,
                lod_min_clamp: 0,
                lod_max_clamp: F32_BITS_100,
                compare: None,
            },
        }
    }

    /// The comparison sampler the shadow pass reads the shadow map with:
    /// clamping, linear, comparing less-or-equal.
    pub fn depth_comparison(ctx: &mut GpuContext, _label: Option<&str>) -> (r: TextureSampler)
        requires
            old(ctx).can_alloc(1),
        ensures
            r.id == old(ctx).next_id,
            r.config == (SamplerConfig {
                address_mode: AddressMode::ClampToEdge,
                mag_filter: FilterMode::Linear,
                min_filter: FilterMode::Linear,
                mipmap_filter: FilterMode::Linear,
                lod_min_clamp: 0u32,
                lod_max_clamp: F32_BITS_100,
                compare: Some(CompareFunction::LessEqual),
            }),
            final(ctx).next_id == old(ctx).next_id + 1,
            final(ctx).features == old(ctx).features,
            final(ctx).limits == old(ctx).limits,
            final(ctx).device_label == old(ctx).device_label,
            final(ctx).submitted == old(ctx).submitted,
    {
        let id = ctx.fresh_id();
        TextureSampler {
            id,
            config: SamplerConfig {
                address_mode: AddressMode::ClampToEdge,
                mag_filter: FilterMode::Linear,
                min_filter: FilterMode::Linear,
                mipmap_filter: FilterMode::Linear,
                lod_min_clamp: 0,
                lod_max_clamp: F32_BITS_100,
                compare: Some(CompareFunction::LessEqual),
            },
        }
    }

    /// Identity of the sampler object.
    pub fn raw(&self) -> (r: u64)
        ensures
            r == self.id,
    {
        self.id
    }
}

} // verus!
