//! Frame orchestration: the two render pipelines, the rendering context,
//! resize handling, and the per-frame two-pass recording protocol —
//! shadow pass strictly before main pass within one command stream, so one
//! submission orders the shadow map's write before the main pass reads it.
//!
//! The frame loop acquires the frame image, computes every matrix, and
//! replays the recorded stream; this module decides what is recorded, in
//! what order, and what a frame does when acquisition fails.

use vstd::prelude::*;

verus! {

use crate::assets::AssetManager;
use crate::bind_group::{BindGroup, BindGroupLayout, STAGE_FRAGMENT, STAGE_VERTEX};
use crate::bytes::{mat4_to_words, words_bytes, words_to_bytes};
use crate::camera::{Camera, CameraBuffer, F32_BITS_ONE};
use crate::components::WindowResizeEvent;
use crate::gpu::GpuContext;
use crate::lighting::LightingBuffer;
use crate::mesh::GpuMesh;
use crate::pipeline::{
    gltf_vertex_layout, DepthStencilState, PushConstantRange, RenderPipeline,
};
use crate::render_pass::{
    cmd_view, cmd_views, lemma_cmd_views_append, ColorAttachment, ColorBits, ColorLoadOp,
    CommandEncoder, CommandView, DepthAttachment, DepthLoadOp, RenderPass, RenderPassBuilder,
    StencilLoadOp,
};
use crate::shader::Shader;
use crate::shadow::{LightCameraBuffer, ShadowMap};
use crate::surface::Surface;
use crate::texture::{CompareFunction, GpuTexture, TextureFormat};

/// Bit pattern of the single-precision float 2.0, the shadow bias slope.
pub const F32_BITS_TWO: u32 = 0x4000_0000;

/// Bit pattern of the double-precision float 0.1.
pub const F64_BITS_TENTH: u64 = 0x3FB9_9999_9999_999A;

/// Bit pattern of the double-precision float 0.2.
pub const F64_BITS_FIFTH: u64 = 0x3FC9_9999_9999_999A;

/// Bit pattern of the double-precision float 0.3.
pub const F64_BITS_THREE_TENTHS: u64 = 0x3FD3_3333_3333_3333;

/// Bit pattern of the double-precision float 1.0.
pub const F64_BITS_ONE: u64 = 0x3FF0_0000_0000_0000;

/// The size of the main pass's push-constant block in bytes: the
/// view-projection-model matrix, the base color, the texture slot, and
/// three padding words.
pub const BASIC_PUSH_CONSTANT_SIZE: u32 = 96;

/// The size of the shadow pass's push-constant block in bytes: the model
/// matrix alone.
pub const SHADOW_PUSH_CONSTANT_SIZE: u32 = 64;

/// One drawable of the frame, with every matrix already composed by the
/// frame loop: the entity's model matrix for the shadow pass, the full
/// view-projection-model product for the main pass, the material, and a
/// shared handle onto the mesh.
pub struct DrawItem {
    pub model: [u32; 16],
    pub mvp: [u32; 16],
    pub base_color: [u32; 4],
    pub texture_index: u32,
    pub mesh: GpuMesh,
}

/// The words of a main-pass push-constant block: the matrix, the color,
/// the texture slot, three padding words.
pub open spec fn basic_push_words(it: DrawItem) -> Seq<u32> {
    it.mvp@ + seq![
        it.base_color[0],
        it.base_color[1],
        it.base_color[2],
        it.base_color[3],
        it.texture_index,
        0u32,
        0u32,
        0u32,
    ]
}

/// Lay a main-pass push-constant block out as bytes.
fn basic_push_bytes(it: &DrawItem) -> (r: Vec<u8>)
    ensures
        r@ == words_bytes(basic_push_words(*it)),
{
    let mut words = mat4_to_words(&it.mvp);
    words.push(it.base_color[0]);
    words.push(it.base_color[1]);
    words.push(it.base_color[2]);
    words.push(it.base_color[3]);
    words.push(it.texture_index);
    words.push(0);
    words.push(0);
    words.push(0);
    proof {
        assert(words@ =~= basic_push_words(*it));
    }
    words_to_bytes(&words)
}

/// The shapes of the three commands one mesh draw records.
pub open spec fn mesh_draw_views(m: GpuMesh) -> Seq<CommandView> {
    seq![
        CommandView::SetVertexBuffer { slot: 0u32, buffer: m.vertex_buffer.buffer.id },
        CommandView::SetIndexBuffer { buffer: m.index_buffer.buffer.id, format: m.index_buffer.format },
        CommandView::DrawIndexed {
            index_start: 0u32,
            index_end: m.index_count,
            base_vertex: 0i32,
            instance_start: 0u32,
            instance_end: 1u32,
        },
    ]
}

/// What one item records in the shadow pass: its model matrix as push
/// constants, then its mesh draw.
pub open spec fn shadow_item_views(it: DrawItem) -> Seq<CommandView> {
    seq![
        CommandView::SetPushConstants { offset: 0u32, data: words_bytes(it.model@) },
    ] + mesh_draw_views(it.mesh)
}

/// What one item records in the main pass: its packed push-constant block,
/// then its mesh draw.
pub open spec fn basic_item_views(it: DrawItem) -> Seq<CommandView> {
    seq![
        CommandView::SetPushConstants { offset: 0u32, data: words_bytes(basic_push_words(it)) },
    ] + mesh_draw_views(it.mesh)
}

/// What the whole scene records in the shadow pass, in scene order.
pub open spec fn shadow_scene_views(items: Seq<DrawItem>) -> Seq<CommandView>
    decreases items.len(),
{
    if items.len() == 0 {
        Seq::empty()
    } else {
        shadow_scene_views(items.drop_last()) + shadow_item_views(items.last())
    }
}

/// What the whole scene records in the main pass, in scene order.
pub open spec fn basic_scene_views(items: Seq<DrawItem>) -> Seq<CommandView>
    decreases items.len(),
{
    if items.len() == 0 {
        Seq::empty()
    } else {
        basic_scene_views(items.drop_last()) + basic_item_views(items.last())
    }
}

/// The shadow pipeline: depth-only, vertex stage alone, a model-matrix
/// push constant, depth-biased less-or-equal testing.
pub struct ShadowPipeline {
    pub pipeline: RenderPipeline,
}

impl ShadowPipeline {
    /// Build the shadow pipeline from its shader and the light-camera
    /// layout.
    pub fn new(ctx: &mut GpuContext, shader: Shader, light_camera_layout: &BindGroupLayout) -> (r:
        ShadowPipeline)
        requires
            old(ctx).can_alloc(2),
        ensures
            r.pipeline.vertex_module == shader.id,
            r.pipeline.vertex_entry@ == "vs_main"@,
            r.pipeline.fragment is None,
            r.pipeline.bind_group_layouts@ == seq![light_camera_layout.id],
            r.pipeline.push_constant_ranges@ == seq![
                PushConstantRange { stages: STAGE_VERTEX, start: 0u32, end: SHADOW_PUSH_CONSTANT_SIZE },
            ],
            r.pipeline.depth_stencil == Some(
                DepthStencilState {
                    format: TextureFormat::Depth32Float,
                    depth_write_enabled: true,
                    depth_compare: CompareFunction::LessEqual,
                    bias_constant: 2i32,
                    bias_slope_scale: F32_BITS_TWO,
                    bias_clamp: 0u32,
                },
            ),
            final(ctx).next_id == old(ctx).next_id + 2,
            final(ctx).features == old(ctx).features,
            final(ctx).limits == old(ctx).limits,
            final(ctx).device_label == old(ctx).device_label,
            final(ctx).submitted == old(ctx).submitted,
    {
        let built = RenderPipeline::builder().label("Shadow Pipeline").vertex_shader(
            shader,
            "vs_main",
        ).no_fragment_shader().vertex_layout(gltf_vertex_layout()).push_constant_range(
            PushConstantRange { stages: STAGE_VERTEX, start: 0, end: SHADOW_PUSH_CONSTANT_SIZE },
        ).depth_stencil_state(
            DepthStencilState {
                format: TextureFormat::Depth32Float,
                depth_write_enabled: true,
                depth_compare: CompareFunction::LessEqual,
                bias_constant: 2,
                bias_slope_scale: F32_BITS_TWO,
                bias_clamp: 0,
            },
        ).raw_bind_group_layout(light_camera_layout).build(ctx);
        let pipeline = match built {
            Ok(p) => p,
            Err(_) => {
                proof {
                    assert(false);
                }
                vstd::pervasive::unreached()
            },
        };
        proof {
            assert(pipeline.bind_group_layouts@ =~= seq![light_camera_layout.id]);
            assert(pipeline.push_constant_ranges@ =~= seq![
                PushConstantRange {
                    stages: STAGE_VERTEX,
                    start: 0u32,
                    end: SHADOW_PUSH_CONSTANT_SIZE,
                },
            ]);
        }
        ShadowPipeline { pipeline }
    }

    /// Record the shadow pass body: bind the pipeline and the light
    /// camera, then every shadow-casting item — its model matrix, its mesh,
    /// exactly its index count.
    pub fn draw(&self, pass: &mut RenderPass, light_camera_group: &BindGroup, scene: &Vec<DrawItem>)
        ensures
            cmd_views(final(pass).commands@) == cmd_views(old(pass).commands@) + seq![
                CommandView::SetPipeline { pipeline: self.pipeline.id },
                CommandView::SetBindGroup { index: 0u32, group: light_camera_group.id },
            ] + shadow_scene_views(scene@),
            final(pass).descriptor == old(pass).descriptor,
    {
        pass.set_pipeline(&self.pipeline);
        pass.set_bind_group(0, light_camera_group);
        let ghost base = cmd_views(old(pass).commands@) + seq![
            CommandView::SetPipeline { pipeline: self.pipeline.id },
            CommandView::SetBindGroup { index: 0u32, group: light_camera_group.id },
        ];
        proof {
            crate::render_pass::lemma_cmd_views_push(
                old(pass).commands@,
                crate::render_pass::RenderCommand::SetPipeline { pipeline: self.pipeline.id },
            );
            crate::render_pass::lemma_cmd_views_push(
                old(pass).commands@.push(
                    crate::render_pass::RenderCommand::SetPipeline { pipeline: self.pipeline.id },
                ),
                crate::render_pass::RenderCommand::SetBindGroup {
                    index: 0,
                    group: light_camera_group.id,
                },
            );
            assert(cmd_views(pass.commands@) =~= base + shadow_scene_views(scene@.take(0)));
        }
        let mut i: usize = 0;
        while i < scene.len()
            invariant
                i <= scene@.len(),
                cmd_views(pass.commands@) == base + shadow_scene_views(scene@.take(i as int)),
                pass.descriptor == old(pass).descriptor,
            decreases scene@.len() - i,
        {
            let it = &scene[i];
            let push = mat4_to_words(&it.model);
            let push_bytes = words_to_bytes(&push);
            pass.set_push_constant(0, &push_bytes);
            let ghost after_push = pass.commands@;
            it.mesh.draw(pass);
            proof {
                assert(pass.commands@ == after_push + it.mesh.spec_draw_cmds());
                lemma_cmd_views_append(after_push, it.mesh.spec_draw_cmds());
                assert(cmd_views(it.mesh.spec_draw_cmds()) =~= mesh_draw_views(it.mesh));
                assert(scene@.take(i as int + 1).drop_last() =~= scene@.take(i as int));
                assert(scene@.take(i as int + 1).last() == scene@[i as int]);
                assert(cmd_views(pass.commands@) =~= base + shadow_scene_views(
                    scene@.take(i as int + 1),
                ));
            }
            i = i + 1;
        }
        proof {
            assert(scene@.take(scene@.len() as int) =~= scene@);
        }
    }
}

/// The main forward pipeline: textured, lit, shadow-comparing.
pub struct BasicPipeline {
    pub pipeline: RenderPipeline,
}

impl BasicPipeline {
    /// Build the main pipeline from its combined shader, the surface
    /// format, and the four bind-group layouts it consumes in group order:
    /// the texture array, the camera, the lighting block, the shadow map.
    pub fn new(
        ctx: &mut GpuContext,
        surface_format: TextureFormat,
        shader: Shader,
        texture_layout: &BindGroupLayout,
        camera_layout: &BindGroupLayout,
        lighting_layout: &BindGroupLayout,
        shadow_layout: &BindGroupLayout,
    ) -> (r: BasicPipeline)
        requires
            old(ctx).can_alloc(2),
        ensures
            r.pipeline.vertex_module == shader.id,
            r.pipeline.vertex_entry@ == "vs_main"@,
            r.pipeline.fragment matches Some(f) && f.module == shader.id && f.entry@ == "fs_main"@,
            r.pipeline.bind_group_layouts@ == seq![
                texture_layout.id,
                camera_layout.id,
                lighting_layout.id,
                shadow_layout.id,
            ],
            r.pipeline.push_constant_ranges@ == seq![
                PushConstantRange {
                    stages: STAGE_VERTEX | STAGE_FRAGMENT,
                    start: 0u32,
                    end: BASIC_PUSH_CONSTANT_SIZE,
                },
            ],
            r.pipeline.color_targets@.len() == 1 && r.pipeline.color_targets@[0].format
                == surface_format,
            r.pipeline.depth_stencil matches Some(d) && d.format == TextureFormat::Depth32Float,
            final(ctx).next_id == old(ctx).next_id + 2,
            final(ctx).features == old(ctx).features,
            final(ctx).limits == old(ctx).limits,
            final(ctx).device_label == old(ctx).device_label,
            final(ctx).submitted == old(ctx).submitted,
    {
        let vertex_shader = shader.clone();
        let built = RenderPipeline::builder().label("Basic Pipeline").vertex_shader(
            vertex_shader,
            "vs_main",
        ).fragment_shader(shader, "fs_main").vertex_layout(gltf_vertex_layout()).color_target(
            surface_format,
        ).push_constant_range(
            PushConstantRange {
                stages: STAGE_VERTEX | STAGE_FRAGMENT,
                start: 0,
                end: BASIC_PUSH_CONSTANT_SIZE,
            },
        ).depth_stencil(TextureFormat::Depth32Float).raw_bind_group_layout(
            texture_layout,
        ).raw_bind_group_layout(camera_layout).raw_bind_group_layout(
            lighting_layout,
        ).raw_bind_group_layout(shadow_layout).build(ctx);
        let pipeline = match built {
            Ok(p) => p,
            Err(_) => {
                proof {
                    assert(false);
                }
                vstd::pervasive::unreached()
            },
        };
        proof {
            assert(pipeline.bind_group_layouts@ =~= seq![
                texture_layout.id,
                camera_layout.id,
                lighting_layout.id,
                shadow_layout.id,
            ]);
            assert(pipeline.push_constant_ranges@ =~= seq![
                PushConstantRange {
                    stages: STAGE_VERTEX | STAGE_FRAGMENT,
                    start: 0u32,
                    end: BASIC_PUSH_CONSTANT_SIZE,
                },
            ]);
        }
        BasicPipeline { pipeline }
    }

    /// Record the main pass body: bind the pipeline, the texture array at
    /// group 0, the camera, the lighting block, and the shadow map, then
    /// every visible item — its packed push constants, its mesh, exactly
    /// its index count.
    pub fn draw(
        &self,
        pass: &mut RenderPass,
        assets: &AssetManager,
        camera_buffer: &CameraBuffer,
        lighting_buffer: &LightingBuffer,
        shadow_map: &ShadowMap,
        scene: &Vec<DrawItem>,
    )
        ensures
            cmd_views(final(pass).commands@) == cmd_views(old(pass).commands@) + seq![
                CommandView::SetPipeline { pipeline: self.pipeline.id },
                CommandView::SetBindGroup { index: 0u32, group: assets.texture_bind_group.id },
                CommandView::SetBindGroup { index: 1u32, group: camera_buffer.bind_group.id },
                CommandView::SetBindGroup { index: 2u32, group: lighting_buffer.bind_group.id },
                CommandView::SetBindGroup { index: 3u32, group: shadow_map.bind_group.id },
            ] + basic_scene_views(scene@),
            final(pass).descriptor == old(pass).descriptor,
    {
        pass.set_pipeline(&self.pipeline);
        pass.set_bind_group(0, assets.texture_bind_group());
        pass.set_bind_group(1, &camera_buffer.bind_group);
        pass.set_bind_group(2, &lighting_buffer.bind_group);
        pass.set_bind_group(3, &shadow_map.bind_group);
        let ghost base = cmd_views(old(pass).commands@) + seq![
            CommandView::SetPipeline { pipeline: self.pipeline.id },
            CommandView::SetBindGroup { index: 0u32, group: assets.texture_bind_group.id },
            CommandView::SetBindGroup { index: 1u32, group: camera_buffer.bind_group.id },
            CommandView::SetBindGroup { index: 2u32, group: lighting_buffer.bind_group.id },
            CommandView::SetBindGroup { index: 3u32, group: shadow_map.bind_group.id },
        ];
        proof {
            let ghost prefix = pass.commands@.subrange(0, pass.commands@.len() - 5);
            assert(prefix =~= old(pass).commands@);
            lemma_cmd_views_append(prefix, pass.commands@.subrange(
                pass.commands@.len() - 5,
                pass.commands@.len() as int,
            ));
            assert(prefix + pass.commands@.subrange(
                pass.commands@.len() - 5,
                pass.commands@.len() as int,
            ) =~= pass.commands@);
            assert(cmd_views(pass.commands@.subrange(
                pass.commands@.len() - 5,
                pass.commands@.len() as int,
            )) =~= seq![
                CommandView::SetPipeline { pipeline: self.pipeline.id },
                CommandView::SetBindGroup { index: 0u32, group: assets.texture_bind_group.id },
                CommandView::SetBindGroup { index: 1u32, group: camera_buffer.bind_group.id },
                CommandView::SetBindGroup { index: 2u32, group: lighting_buffer.bind_group.id },
                CommandView::SetBindGroup { index: 3u32, group: shadow_map.bind_group.id },
            ]);
            assert(cmd_views(pass.commands@) =~= base + basic_scene_views(scene@.take(0)));
        }
        let mut i: usize = 0;
        while i < scene.len()
            invariant
                i <= scene@.len(),
                cmd_views(pass.commands@) == base + basic_scene_views(scene@.take(i as int)),
                pass.descriptor == old(pass).descriptor,
            decreases scene@.len() - i,
        {
            let it = &scene[i];
            let push_bytes = basic_push_bytes(it);
            pass.set_push_constant(0, &push_bytes);
            let ghost after_push = pass.commands@;
            it.mesh.draw(pass);
            proof {
                assert(pass.commands@ == after_push + it.mesh.spec_draw_cmds());
                lemma_cmd_views_append(after_push, it.mesh.spec_draw_cmds());
                assert(cmd_views(it.mesh.spec_draw_cmds()) =~= mesh_draw_views(it.mesh));
                assert(scene@.take(i as int + 1).drop_last() =~= scene@.take(i as int));
                assert(scene@.take(i as int + 1).last() == scene@[i as int]);
                assert(cmd_views(pass.commands@) =~= base + basic_scene_views(
                    scene@.take(i as int + 1),
                ));
            }
            i = i + 1;
        }
        proof {
            assert(scene@.take(scene@.len() as int) =~= scene@);
        }
    }
}

/// Everything the renderer owns across frames: the device, the surface,
/// the depth texture matching the surface extent, and the two pipelines.
pub struct RenderingContext {
    pub gpu: GpuContext,
    pub surface: Surface,
    pub depth_texture: GpuTexture,
    pub basic_pipeline: BasicPipeline,
    pub shadow_pipeline: ShadowPipeline,
}

impl RenderingContext {
    /// Assemble the context: a depth texture at the surface extent and the
    /// two pipelines built against the given layouts.
    pub fn new(
        gpu: GpuContext,
        surface: Surface,
        basic_shader: Shader,
        shadow_shader: Shader,
        texture_layout: &BindGroupLayout,
        camera_layout: &BindGroupLayout,
        lighting_layout: &BindGroupLayout,
        shadow_layout: &BindGroupLayout,
        light_camera_layout: &BindGroupLayout,
    ) -> (r: RenderingContext)
        requires
            gpu.can_alloc(5),
            surface.config.width > 0,
            surface.config.height > 0,
        ensures
            r.surface == surface,
            r.depth_texture.format == TextureFormat::Depth32Float,
            r.depth_texture.size.width == surface.config.width,
            r.depth_texture.size.height == surface.config.height,
            r.basic_pipeline.pipeline.vertex_module == basic_shader.id,
            r.shadow_pipeline.pipeline.vertex_module == shadow_shader.id,
            r.gpu.next_id == gpu.next_id + 5,
            r.gpu.features == gpu.features,
            r.gpu.limits == gpu.limits,
            r.gpu.submitted == gpu.submitted,
    {
        let mut gpu = gpu;
        let width = surface.width();
        let height = surface.height();
        let depth_texture = GpuTexture::new_depth_texture(&mut gpu, width, height, Some(
            "Depth Texture",
        ));
        let basic_pipeline = BasicPipeline::new(
            &mut gpu,
            surface.format(),
            basic_shader,
            texture_layout,
            camera_layout,
            lighting_layout,
            shadow_layout,
        );
        let shadow_pipeline = ShadowPipeline::new(&mut gpu, shadow_shader, light_camera_layout);
        RenderingContext { gpu, surface, depth_texture, basic_pipeline, shadow_pipeline }
    }

    /// Resize the surface and the depth texture together: with both
    /// dimensions positive the surface is reconfigured and the depth
    /// texture recreated at the same new extent, so no frame renders with
    /// mismatched dimensions; with either dimension zero this is a no-op —
    /// dimensions, configuration and allocations stay exactly as they
    /// were.
    pub fn resize(&mut self, width: u32, height: u32)
        requires
            old(self).gpu.can_alloc(1),
        ensures
            !(width > 0 && height > 0) ==> *final(self) == *old(self),
            width > 0 && height > 0 ==> {
                &&& final(self).surface.config.width == width
                &&& final(self).surface.config.height == height
                &&& final(self).surface.is_configured
                &&& final(self).surface.format == old(self).surface.format
                &&& final(self).depth_texture.size.width == width
                &&& final(self).depth_texture.size.height == height
                &&& final(self).depth_texture.format == old(self).depth_texture.format
                &&& final(self).gpu.next_id == old(self).gpu.next_id + 1
            },
            final(self).basic_pipeline == old(self).basic_pipeline,
            final(self).shadow_pipeline == old(self).shadow_pipeline,
            final(self).gpu.features == old(self).gpu.features,
            final(self).gpu.limits == old(self).gpu.limits,
            final(self).gpu.submitted == old(self).gpu.submitted,
    {
        if width > 0 && height > 0 {
            self.surface.resize(width, height);
            self.depth_texture.resize(&mut self.gpu, width, height);
        }
    }

    /// Identity of the depth view the main pass tests against.
    pub fn depth_view(&self) -> (r: u64)
        ensures
            r == self.depth_texture.id,
    {
        self.depth_texture.id
    }
}

/// Apply a window-resize event: with both dimensions positive the surface
/// is reconfigured, the depth texture recreated, and the camera's aspect
/// ratio — computed by the frame loop as width over height — installed,
/// all before the next frame records anything; a degenerate event changes
/// nothing at all.
pub fn handle_resize_event(
    rc: &mut RenderingContext,
    camera: &mut Camera,
    event: WindowResizeEvent,
    aspect: u32,
)
    requires
        old(rc).gpu.can_alloc(1),
    ensures
        !(event.width > 0 && event.height > 0) ==> *final(rc) == *old(rc) && *final(camera)
            == *old(camera),
        event.width > 0 && event.height > 0 ==> {
            &&& final(rc).surface.config.width == event.width
            &&& final(rc).surface.config.height == event.height
            &&& final(rc).depth_texture.size.width == event.width
            &&& final(rc).depth_texture.size.height == event.height
            &&& match old(camera).projection {
                crate::camera::ProjectionType::Perspective { fov, near, far, .. } => *final(camera)
                    == (Camera {
                    projection: crate::camera::ProjectionType::Perspective {
                        fov,
                        aspect,
                        near,
                        far,
                    },
                    dirty: true,
                    ..*old(camera)
                }),
                _ => *final(camera) == *old(camera),
            }
        },
{
    if event.width > 0 && event.height > 0 {
        rc.resize(event.width, event.height);
        camera.set_aspect_ratio(aspect);
    }
}

/// Per-frame statistics.
pub struct RenderingState {
    pub frame_count: u64,
    pub draw_calls: u32,
    pub triangles: u32,
}

impl Default for RenderingState {
    /// All counters zero.
    fn default() -> (r: Self)
        ensures
            r.frame_count == 0,
            r.draw_calls == 0,
            r.triangles == 0,
    {
        RenderingState { frame_count: 0, draw_calls: 0, triangles: 0 }
    }
}

/// The resource identities one frame's command stream refers to.
pub struct FramePorts {
    pub shadow_view: u64,
    pub surface_view: u64,
    pub depth_view: u64,
    pub shadow_pipeline: u64,
    pub basic_pipeline: u64,
    pub light_camera_group: u64,
    pub texture_group: u64,
    pub camera_group: u64,
    pub lighting_group: u64,
    pub shadow_group: u64,
}

/// The whole shadow pass: a depth-only pass over the shadow map, cleared
/// to the far plane, drawing every item with the light camera.
pub open spec fn shadow_pass_views(p: FramePorts, scene: Seq<DrawItem>) -> Seq<CommandView> {
    seq![
        CommandView::BeginRenderPass {
            label: Some("Shadow Pass"@),
            color: None,
            depth: Some(
                DepthAttachment {
                    view: p.shadow_view,
                    depth_load: DepthLoadOp::Clear(F32_BITS_ONE),
                    stencil_load: StencilLoadOp::Load,
                },
            ),
        },
        CommandView::SetPipeline { pipeline: p.shadow_pipeline },
        CommandView::SetBindGroup { index: 0u32, group: p.light_camera_group },
    ] + shadow_scene_views(scene) + seq![CommandView::EndRenderPass]
}

/// The whole main pass: a pass over the acquired frame image and the depth
/// texture, both cleared, drawing every item with the texture array, the
/// camera, the lighting block and the shadow map bound.
pub open spec fn main_pass_views(p: FramePorts, scene: Seq<DrawItem>) -> Seq<CommandView> {
    seq![
        CommandView::BeginRenderPass {
            label: Some("Main Render Pass"@),
            color: Some(
                ColorAttachment {
                    view: p.surface_view,
                    load: ColorLoadOp::Clear(
                        ColorBits {
                            r: F64_BITS_TENTH,
                            g: F64_BITS_FIFTH,
                            b: F64_BITS_THREE_TENTHS,
                            a: F64_BITS_ONE,
                        },
                    ),
                },
            ),
            depth: Some(
                DepthAttachment {
                    view: p.depth_view,
                    depth_load: DepthLoadOp::Clear(F32_BITS_ONE),
                    stencil_load: StencilLoadOp::Load,
                },
            ),
        },
        CommandView::SetPipeline { pipeline: p.basic_pipeline },
        CommandView::SetBindGroup { index: 0u32, group: p.texture_group },
        CommandView::SetBindGroup { index: 1u32, group: p.camera_group },
        CommandView::SetBindGroup { index: 2u32, group: p.lighting_group },
        CommandView::SetBindGroup { index: 3u32, group: p.shadow_group },
    ] + basic_scene_views(scene) + seq![CommandView::EndRenderPass]
}

/// One frame's command stream: the shadow pass, then the main pass.
pub open spec fn frame_views(p: FramePorts, scene: Seq<DrawItem>) -> Seq<CommandView> {
    shadow_pass_views(p, scene) + main_pass_views(p, scene)
}

/// The pass-ordering invariant: the frame's stream is exactly the shadow
/// pass followed by the main pass, so every command of the shadow pass —
/// the write into the shadow map named by its begin marker — stands
/// strictly before every command of the main pass, including the binding
/// that lets the main pass sample the shadow map. One submission of the
/// stream therefore orders the write before the read.
pub proof fn lemma_shadow_pass_precedes_main(p: FramePorts, scene: Seq<DrawItem>)
    ensures
        frame_views(p, scene) == shadow_pass_views(p, scene) + main_pass_views(p, scene),
        shadow_pass_views(p, scene)[0] matches CommandView::BeginRenderPass {
            depth: Some(d),
            ..
        } && d.view == p.shadow_view,
        main_pass_views(p, scene)[5] == (CommandView::SetBindGroup {
            index: 3u32,
            group: p.shadow_group,
        }),
        forall|j: int|
            0 <= j < main_pass_views(p, scene).len() ==> #[trigger] frame_views(p, scene)[
                shadow_pass_views(p, scene).len() + j
            ] == main_pass_views(p, scene)[j],
{
    let s = shadow_pass_views(p, scene);
    let m = main_pass_views(p, scene);
    assert forall|j: int| 0 <= j < m.len() implies #[trigger] frame_views(p, scene)[s.len() + j]
        == m[j] by {
        assert((s + m)[s.len() + j] == m[j]);
    }
}

/// Record and submit one frame, the transient-failure policy included.
///
/// First the one cleaning step runs, so the texture bind group matches the
/// slot table for this frame. When no frame image was acquired the frame
/// is skipped before any pass is recorded: nothing is submitted and
/// nothing else changes. With an acquired image the shadow pass and then
/// the main pass are recorded into one stream and submitted once; the
/// submitted stream is exactly [`frame_views`] over the frame's resources
/// and scene.
pub fn render_frame(
    rc: &mut RenderingContext,
    assets: &mut AssetManager,
    camera_buffer: &CameraBuffer,
    lighting_buffer: &LightingBuffer,
    shadow_map: &ShadowMap,
    light_camera: &LightCameraBuffer,
    scene: &Vec<DrawItem>,
    acquired_view: Option<u64>,
) -> (r: Option<CommandEncoder>)
    requires
        old(assets).wf(),
        old(assets).bind_group_dirty ==> old(rc).gpu.can_alloc(2),
    ensures
        final(assets).wf(),
        !final(assets).bind_group_dirty,
        final(assets).spec_state() == crate::assets::spec_update_bindings(
            old(assets).spec_state(),
        ),
        final(rc).surface == old(rc).surface,
        final(rc).depth_texture == old(rc).depth_texture,
        final(rc).basic_pipeline == old(rc).basic_pipeline,
        final(rc).shadow_pipeline == old(rc).shadow_pipeline,
        acquired_view is None ==> final(rc).gpu.submitted@ == old(rc).gpu.submitted@ && r
            is None,
        acquired_view matches Some(view) ==> {
            &&& final(rc).gpu.submitted@.len() == old(rc).gpu.submitted@.len() + 1
            &&& final(rc).gpu.submitted@.drop_last() == old(rc).gpu.submitted@
            &&& (r matches Some(enc) && enc.commands@ == final(rc).gpu.submitted@.last())
            &&& cmd_views(final(rc).gpu.submitted@.last()) == frame_views(
                FramePorts {
                    shadow_view: shadow_map.texture.id,
                    surface_view: view,
                    depth_view: old(rc).depth_texture.id,
                    shadow_pipeline: old(rc).shadow_pipeline.pipeline.id,
                    basic_pipeline: old(rc).basic_pipeline.pipeline.id,
                    light_camera_group: light_camera.bind_group.id,
                    texture_group: final(assets).texture_bind_group.id,
                    camera_group: camera_buffer.bind_group.id,
                    lighting_group: lighting_buffer.bind_group.id,
                    shadow_group: shadow_map.bind_group.id,
                },
                scene@,
            )
        },
{
    assets.update_texture_bindings(&mut rc.gpu);

    let view = match acquired_view {
        Some(v) => v,
        None => {
            return None;
        },
    };

    let mut encoder = CommandEncoder::new(Some("Render Encoder"));

    let shadow_pass = RenderPass::builder().label("Shadow Pass").clear_depth(
        F32_BITS_ONE,
    ).begin_depth_only(shadow_map.view());
    let mut shadow_pass = shadow_pass;
    rc.shadow_pipeline.draw(&mut shadow_pass, light_camera.bind_group(), scene);
    let ghost shadow_desc = shadow_pass.descriptor;
    let ghost shadow_cmds = shadow_pass.commands@;
    shadow_pass.finish(&mut encoder);

    let main_pass = RenderPass::builder().label("Main Render Pass").clear_color(
        F64_BITS_TENTH,
        F64_BITS_FIFTH,
        F64_BITS_THREE_TENTHS,
        F64_BITS_ONE,
    ).clear_depth(F32_BITS_ONE).begin(view, Some(rc.depth_view()));
    let mut main_pass = main_pass;
    rc.basic_pipeline.draw(
        &mut main_pass,
        assets,
        camera_buffer,
        lighting_buffer,
        shadow_map,
        scene,
    );
    let ghost main_desc = main_pass.descriptor;
    let ghost main_cmds = main_pass.commands@;
    main_pass.finish(&mut encoder);

    let ghost p = FramePorts {
        shadow_view: shadow_map.texture.id,
        surface_view: view,
        depth_view: rc.depth_texture.id,
        shadow_pipeline: rc.shadow_pipeline.pipeline.id,
        basic_pipeline: rc.basic_pipeline.pipeline.id,
        light_camera_group: light_camera.bind_group.id,
        texture_group: assets.texture_bind_group.id,
        camera_group: camera_buffer.bind_group.id,
        lighting_group: lighting_buffer.bind_group.id,
        shadow_group: shadow_map.bind_group.id,
    };
    proof {
        let begin_s = crate::render_pass::RenderCommand::BeginRenderPass {
            label: shadow_desc.label,
            color: shadow_desc.color,
            depth: shadow_desc.depth,
        };
        let begin_m = crate::render_pass::RenderCommand::BeginRenderPass {
            label: main_desc.label,
            color: main_desc.color,
            depth: main_desc.depth,
        };
        let end = crate::render_pass::RenderCommand::EndRenderPass;
        assert(encoder.commands@ =~= (seq![begin_s] + shadow_cmds + seq![end]) + (seq![begin_m]
            + main_cmds + seq![end]));
        lemma_cmd_views_append(
            seq![begin_s] + shadow_cmds + seq![end],
            seq![begin_m] + main_cmds + seq![end],
        );
        lemma_cmd_views_append(seq![begin_s] + shadow_cmds, seq![end]);
        lemma_cmd_views_append(seq![begin_s], shadow_cmds);
        lemma_cmd_views_append(seq![begin_m] + main_cmds, seq![end]);
        lemma_cmd_views_append(seq![begin_m], main_cmds);
        assert(cmd_views(seq![begin_s]) =~= seq![cmd_view(begin_s)]);
        assert(cmd_views(seq![begin_m]) =~= seq![cmd_view(begin_m)]);
        assert(cmd_views(seq![end]) =~= seq![cmd_view(end)]);
        assert(cmd_view(begin_s) == shadow_pass_views(p, scene@)[0]);
        assert(cmd_view(begin_m) == main_pass_views(p, scene@)[0]);
        assert(cmd_views(encoder.commands@) =~= frame_views(p, scene@));
    }
    rc.gpu.submit(&encoder);
    proof {
        assert(rc.gpu.submitted@.drop_last() =~= old(rc).gpu.submitted@);
    }
    Some(encoder)
}

} // verus!
