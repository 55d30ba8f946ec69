//! The shadow map: a fixed-size depth texture the shadow pass renders into,
//! a comparison sampler, the light-space matrix uniform, and the bind group
//! exposing all three to the main pass.
//!
//! Computing the light's orthographic view-projection from its direction is
//! floating-point work the frame loop performs; this module owns the
//! resources and the upload of the finished matrix.

use vstd::prelude::*;

verus! {

use crate::bind_group::{
    bind_resource_views, BindGroup, BindGroupBuilder, BindGroupLayout, BindResource,
    BindResourceView, BindingType, LayoutEntry, STAGE_FRAGMENT, STAGE_VERTEX,
};
use crate::buffer::{Buffer, BufferData, BUFFER_USAGE_COPY_DST, BUFFER_USAGE_UNIFORM, UniformBuffer};
use crate::bytes::{mat4_to_words, words_bytes, words_to_bytes};
use crate::camera::F32_BITS_ONE;
use crate::gpu::GpuContext;
use crate::texture::{GpuTexture, TextureFormat, TextureSampler};

/// The fixed square resolution of the shadow map.
pub const SHADOW_MAP_SIZE: u32 = 1024;

/// The light-space matrix as the shaders read it.
#[derive(Clone, Copy, Debug, PartialEq, Eq)]
pub struct LightSpaceUniform {
    pub light_space_matrix: [u32; 16],
}

impl BufferData for LightSpaceUniform {
    /// Sixteen words: the matrix, column major.
    open spec fn spec_words(&self) -> Seq<u32> {
        self.light_space_matrix@
    }

    fn to_words(&self) -> (r: Vec<u32>)
        ensures
            r@ == self.spec_words(),
    {
        mat4_to_words(&self.light_space_matrix)
    }
}

/// The identity matrix, as float bit patterns, column major.
pub open spec fn identity_matrix_bits() -> Seq<u32> {
    seq![
        F32_BITS_ONE,
        0u32,
        0u32,
        0u32,
        0u32,
        F32_BITS_ONE,
        0u32,
        0u32,
        0u32,
        0u32,
        F32_BITS_ONE,
        0u32,
        0u32,
        0u32,
        0u32,
        F32_BITS_ONE,
    ]
}

/// The shadow map and everything the main pass needs to sample it.
#[derive(Debug)]
pub struct ShadowMap {
    /// The depth texture the shadow pass renders into.
    pub texture: GpuTexture,
    /// The comparison sampler the main pass samples with.
    pub sampler: TextureSampler,
    /// The bind group exposing depth view, sampler and matrix uniform to
    /// the fragment stage.
    pub bind_group: BindGroup,
    /// The 64-byte light-space matrix uniform.
    pub light_space_buffer: UniformBuffer,
    /// A small color target for passes that must attach one.
    pub dummy_color: GpuTexture,
}

impl ShadowMap {
    /// The texture is the fixed-size depth texture, the buffer holds
    /// exactly one matrix, and the bind group exposes exactly these three
    /// resources at bindings 0, 1 and 2 for the fragment stage.
    pub open spec fn wf(self) -> bool {
        &&& self.texture.format == TextureFormat::Depth32Float
        &&& self.texture.size.width == SHADOW_MAP_SIZE
        &&& self.texture.size.height == SHADOW_MAP_SIZE
        &&& self.light_space_buffer.buffer.contents@.len() == 64
        &&& self.bind_group.layout.entries@ == seq![
            LayoutEntry { binding: 0u32, visibility: STAGE_FRAGMENT, ty: BindingType::DepthTexture },
            LayoutEntry {
                binding: 1u32,
                visibility: STAGE_FRAGMENT,
                ty: BindingType::ComparisonSampler,
            },
            LayoutEntry { binding: 2u32, visibility: STAGE_FRAGMENT, ty: BindingType::Uniform },
        ]
        &&& bind_resource_views(self.bind_group.resources@) == seq![
            BindResourceView::TextureView(0u32, self.texture.id),
            BindResourceView::Sampler(1u32, self.sampler.id),
            BindResourceView::Buffer(2u32, self.light_space_buffer.buffer.id),
        ]
    }

    /// The shadow map at its fixed resolution, sampled with the clamping,
    /// linear, less-or-equal comparison sampler, the matrix uniform holding
    /// the identity, and the bind group over all three resources.
    pub fn new(ctx: &mut GpuContext) -> (r: ShadowMap)
        requires
            old(ctx).can_alloc(6),
        ensures
            r.wf(),
            r.sampler.config == (crate::texture::SamplerConfig {
                address_mode: crate::texture::AddressMode::ClampToEdge,
                mag_filter: crate::texture::FilterMode::Linear,
                min_filter: crate::texture::FilterMode::Linear,
                mipmap_filter: crate::texture::FilterMode::Linear,
                lod_min_clamp: 0u32,
                lod_max_clamp: crate::texture::F32_BITS_100,
                compare: Some(crate::texture::CompareFunction::LessEqual),
            }),
            r.light_space_buffer.buffer.contents@ == words_bytes(identity_matrix_bits()),
            final(ctx).next_id == old(ctx).next_id + 6,
            final(ctx).features == old(ctx).features,
            final(ctx).limits == old(ctx).limits,
            final(ctx).device_label == old(ctx).device_label,
            final(ctx).submitted == old(ctx).submitted,
    {
        let texture = GpuTexture::new_depth_texture(
            ctx,
            SHADOW_MAP_SIZE,
            SHADOW_MAP_SIZE,
            Some("Shadow Map Texture"),
        );
        let sampler = TextureSampler::depth_comparison(ctx, Some("Shadow Map Sampler"));
        let dummy_color = GpuTexture::new_render_target(
            ctx,
            SHADOW_MAP_SIZE,
            SHADOW_MAP_SIZE,
            TextureFormat::R8Unorm,
            Some("Shadow Dummy Color"),
        );

        let initial = LightSpaceUniform {
            light_space_matrix: [
                F32_BITS_ONE,
                0,
                0,
                0,
                0,
                F32_BITS_ONE,
                0,
                0,
                0,
                0,
                F32_BITS_ONE,
                0,
                0,
                0,
                0,
                F32_BITS_ONE,
            ],
        };
        proof {
            assert(initial.spec_words() =~= identity_matrix_bits());
        }
        let light_space_buffer = UniformBuffer::new(ctx, Some("Light Space Buffer"), &initial);
        proof {
            crate::bytes::lemma_words_bytes_len(identity_matrix_bits());
        }

        let mut resources: Vec<BindResource> = Vec::new();
        resources.push(BindResource::TextureView(0, texture.view()));
        resources.push(BindResource::Sampler(1, sampler.raw()));
        resources.push(BindResource::Buffer(2, light_space_buffer.buffer.id));
        let ghost resources_snap = resources@;
        let built = BindGroupBuilder::new().label("shadow_map_bind_group").texture_depth(
            0,
            STAGE_FRAGMENT,
        ).sampler_comparison(1, STAGE_FRAGMENT).uniform(2, STAGE_FRAGMENT).build(ctx, resources);
        let bind_group = match built {
            Ok(bg) => bg,
            Err(_) => {
                proof {
                    assert(false);
                }
                vstd::pervasive::unreached()
            },
        };
        proof {
            assert(bind_resource_views(resources_snap) =~= seq![
                BindResourceView::TextureView(0u32, texture.id),
                BindResourceView::Sampler(1u32, sampler.id),
                BindResourceView::Buffer(2u32, light_space_buffer.buffer.id),
            ]);
            assert(bind_group.layout.entries@ =~= seq![
                LayoutEntry {
                    binding: 0u32,
                    visibility: STAGE_FRAGMENT,
                    ty: BindingType::DepthTexture,
                },
                LayoutEntry {
                    binding: 1u32,
                    visibility: STAGE_FRAGMENT,
                    ty: BindingType::ComparisonSampler,
                },
                LayoutEntry { binding: 2u32, visibility: STAGE_FRAGMENT, ty: BindingType::Uniform },
            ]);
        }
        ShadowMap { texture, sampler, bind_group, light_space_buffer, dummy_color }
    }

    /// Upload a freshly computed light-space matrix. The upload precedes
    /// the passes recorded afterwards, so the shadow and main passes of the
    /// frame read this matrix.
    pub fn update_light_space(&mut self, m: &[u32; 16])
        requires
            old(self).wf(),
        ensures
            final(self).wf(),
            final(self).light_space_buffer.buffer.contents@ == words_bytes(m@),
            final(self).texture == old(self).texture,
            final(self).sampler == old(self).sampler,
            final(self).bind_group == old(self).bind_group,
            final(self).light_space_buffer.buffer.id == old(self).light_space_buffer.buffer.id,
    {
        let uniform = LightSpaceUniform { light_space_matrix: *m };
        proof {
            crate::bytes::lemma_words_bytes_len(m@);
        }
        self.light_space_buffer.write(&uniform);
        proof {
            assert(self.light_space_buffer.buffer.contents@ =~= words_bytes(m@));
        }
    }

    /// Identity of the depth view the shadow pass renders into.
    pub fn view(&self) -> (r: u64)
        ensures
            r == self.texture.id,
    {
        self.texture.id
    }

    /// The layout of the shadow-map bind group.
    pub fn bind_group_layout(&self) -> (r: &BindGroupLayout)
        ensures
            r == &self.bind_group.layout,
    {
        &self.bind_group.layout
    }
}

/// The light-camera uniform the shadow pass transforms vertices with: a
/// 64-byte matrix buffer and the bind group exposing it to the vertex
/// stage at binding 0.
#[derive(Debug)]
pub struct LightCameraBuffer {
    pub buffer: Buffer,
    pub bind_group: BindGroup,
}

impl LightCameraBuffer {
    /// The buffer always holds exactly one matrix; the bind group exposes
    /// exactly this buffer at binding 0 for the vertex stage.
    pub open spec fn wf(self) -> bool {
        &&& self.buffer.contents@.len() == 64
        &&& self.bind_group.layout.entries@ == seq![
            LayoutEntry { binding: 0u32, visibility: STAGE_VERTEX, ty: BindingType::Uniform },
        ]
        &&& bind_resource_views(self.bind_group.resources@) == seq![
            BindResourceView::Buffer(0u32, self.buffer.id),
        ]
    }

    /// A zero-filled light-camera uniform and its bind group.
    pub fn new(ctx: &mut GpuContext) -> (r: LightCameraBuffer)
        requires
            old(ctx).can_alloc(3),
        ensures
            r.wf(),
            forall|i: int| 0 <= i < 64 ==> r.buffer.contents@[i] == 0u8,
            final(ctx).next_id == old(ctx).next_id + 3,
            final(ctx).features == old(ctx).features,
            final(ctx).limits == old(ctx).limits,
            final(ctx).device_label == old(ctx).device_label,
            final(ctx).submitted == old(ctx).submitted,
    {
        let buffer = Buffer::new_empty(
            ctx,
            Some("light_camera_buffer"),
            64,
            BUFFER_USAGE_UNIFORM | BUFFER_USAGE_COPY_DST,
        );
        let mut resources: Vec<BindResource> = Vec::new();
        resources.push(BindResource::Buffer(0, buffer.id));
        let ghost resources_snap = resources@;
        let built = BindGroupBuilder::new().label("light_camera_bind_group").uniform(
            0,
            STAGE_VERTEX,
        ).build(ctx, resources);
        let bind_group = match built {
            Ok(bg) => bg,
            Err(_) => {
                proof {
                    assert(false);
                }
                vstd::pervasive::unreached()
            },
        };
        proof {
            assert(bind_resource_views(resources_snap) =~= seq![
                BindResourceView::Buffer(0u32, buffer.id),
            ]);
            assert(bind_group.layout.entries@ =~= seq![
                LayoutEntry { binding: 0u32, visibility: STAGE_VERTEX, ty: BindingType::Uniform },
            ]);
        }
        LightCameraBuffer { buffer, bind_group }
    }

    /// Upload a freshly computed light view-projection matrix.
    pub fn update(&mut self, view_proj: &[u32; 16])
        requires
            old(self).wf(),
        ensures
            final(self).wf(),
            final(self).buffer.contents@ == words_bytes(view_proj@),
            final(self).buffer.id == old(self).buffer.id,
            final(self).bind_group == old(self).bind_group,
    {
        let words = mat4_to_words(view_proj);
        let bytes = words_to_bytes(&words);
        self.buffer.write_bytes_at(0, &bytes);
        proof {
            assert(self.buffer.contents@ =~= words_bytes(view_proj@));
        }
    }

    /// The bind group the shadow pass binds at group 0.
    pub fn bind_group(&self) -> (r: &BindGroup)
        ensures
            r == &self.bind_group,
    {
        &self.bind_group
    }

    /// The layout of the light-camera bind group.
    pub fn bind_group_layout(&self) -> (r: &BindGroupLayout)
        ensures
            r == &self.bind_group.layout,
    {
        &self.bind_group.layout
    }
}

/// Upload one light-space matrix to both consumers: the light-camera
/// uniform the shadow pass transforms with, and the shadow map's own
/// uniform the main pass compares against. Both then hold the same matrix
/// for the frame.
pub fn upload_light_space(
    shadow_map: &mut ShadowMap,
    light_camera: &mut LightCameraBuffer,
    m: &[u32; 16],
)
    requires
        old(shadow_map).wf(),
        old(light_camera).wf(),
    ensures
        final(shadow_map).wf(),
        final(light_camera).wf(),
        final(shadow_map).light_space_buffer.buffer.contents@ == words_bytes(m@),
        final(light_camera).buffer.contents@ == words_bytes(m@),
        final(shadow_map).texture == old(shadow_map).texture,
        final(shadow_map).bind_group == old(shadow_map).bind_group,
        final(light_camera).bind_group == old(light_camera).bind_group,
{
    light_camera.update(m);
    shadow_map.update_light_space(m);
}

} // verus!
