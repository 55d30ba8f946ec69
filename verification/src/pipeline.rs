//! Graphics pipelines and the builder that assembles them.
//!
//! The builder accepts either one combined shader module with conventional
//! entry points (`vs_main` / `fs_main`) or separate vertex and fragment
//! modules. Building fails exactly when no vertex shader was supplied; a
//! fragment shader is optional, so depth-only pipelines can be built.

use vstd::prelude::*;

verus! {

use crate::bind_group::{BindGroup, BindGroupLayout};
use crate::error::RenderError;
use crate::gpu::GpuContext;
use crate::shader::Shader;
use crate::texture::{CompareFunction, TextureFormat};

/// All color channels writable.
pub const COLOR_WRITES_ALL: u32 = 0xF;

/// The format of one vertex attribute.
#[derive(Clone, Copy, Debug, PartialEq, Eq, Structural)]
pub enum VertexFormat {
    Float32x2,
    Float32x3,
    Float32x4,
    Uint32,
}

/// Whether a vertex buffer advances per vertex or per instance.
#[derive(Clone, Copy, Debug, PartialEq, Eq, Structural)]
pub enum VertexStepMode {
    Vertex,
    Instance,
}

/// One vertex attribute: format, byte offset inside the stride, and the
/// location the shader names.
#[derive(Clone, Copy, Debug, PartialEq, Eq, Structural)]
pub struct VertexAttribute {
    pub format: VertexFormat,
    pub offset: u64,
    pub shader_location: u32,
}

/// The layout of one vertex buffer.
#[derive(Debug, PartialEq)]
pub struct VertexBufferLayout {
    pub array_stride: u64,
    pub step_mode: VertexStepMode,
    pub attributes: Vec<VertexAttribute>,
}

impl Clone for VertexBufferLayout {
    /// An equal layout.
    fn clone(&self) -> (r: Self)
        ensures
            r.array_stride == self.array_stride,
            r.step_mode == self.step_mode,
            r.attributes@ == self.attributes@,
    {
        VertexBufferLayout {
            array_stride: self.array_stride,
            step_mode: self.step_mode,
            attributes: crate::bytes::copy_vec(&self.attributes),
        }
    }
}

/// A vertex buffer layout from its parts.
pub fn vertex_layout(attributes: Vec<VertexAttribute>, stride: u64, step_mode: VertexStepMode) -> (r:
    VertexBufferLayout)
    ensures
        r.array_stride == stride,
        r.step_mode == step_mode,
        r.attributes@ == attributes@,
{
    VertexBufferLayout { array_stride: stride, step_mode, attributes }
}

/// The layout of a scene-file vertex: position and normal as three floats
/// each, then texture coordinates as two floats; 32 bytes per vertex.
pub fn gltf_vertex_layout() -> (r: VertexBufferLayout)
    ensures
        r.array_stride == 32,
        r.step_mode == VertexStepMode::Vertex,
        r.attributes@ == seq![
            VertexAttribute { format: VertexFormat::Float32x3, offset: 0u64, shader_location: 0u32 },
            VertexAttribute {
                format: VertexFormat::Float32x3,
                offset: 12u64,
                shader_location: 1u32,
            },
            VertexAttribute {
                format: VertexFormat::Float32x2,
                offset: 24u64,
                shader_location: 2u32,
            },
        ],
{
    let mut attributes: Vec<VertexAttribute> = Vec::new();
    attributes.push(
        VertexAttribute { format: VertexFormat::Float32x3, offset: 0, shader_location: 0 },
    );
    attributes.push(
        VertexAttribute { format: VertexFormat::Float32x3, offset: 12, shader_location: 1 },
    );
    attributes.push(
        VertexAttribute { format: VertexFormat::Float32x2, offset: 24, shader_location: 2 },
    );
    proof {
        assert(attributes@ =~= seq![
            VertexAttribute { format: VertexFormat::Float32x3, offset: 0u64, shader_location: 0u32 },
            VertexAttribute {
                format: VertexFormat::Float32x3,
                offset: 12u64,
                shader_location: 1u32,
            },
            VertexAttribute {
                format: VertexFormat::Float32x2,
                offset: 24u64,
                shader_location: 2u32,
            },
        ]);
    }
    VertexBufferLayout { array_stride: 32, step_mode: VertexStepMode::Vertex, attributes }
}

/// The layout of a colored vertex: position and color as three floats each;
/// 24 bytes per vertex.
pub fn color_vertex_layout() -> (r: VertexBufferLayout)
    ensures
        r.array_stride == 24,
        r.step_mode == VertexStepMode::Vertex,
        r.attributes@ == seq![
            VertexAttribute { format: VertexFormat::Float32x3, offset: 0u64, shader_location: 0u32 },
            VertexAttribute {
                format: VertexFormat::Float32x3,
                offset: 12u64,
                shader_location: 1u32,
            },
        ],
{
    let mut attributes: Vec<VertexAttribute> = Vec::new();
    attributes.push(
        VertexAttribute { format: VertexFormat::Float32x3, offset: 0, shader_location: 0 },
    );
    attributes.push(
        VertexAttribute { format: VertexFormat::Float32x3, offset: 12, shader_location: 1 },
    );
    proof {
        assert(attributes@ =~= seq![
            VertexAttribute { format: VertexFormat::Float32x3, offset: 0u64, shader_location: 0u32 },
            VertexAttribute {
                format: VertexFormat::Float32x3,
                offset: 12u64,
                shader_location: 1u32,
            },
        ]);
    }
    VertexBufferLayout { array_stride: 24, step_mode: VertexStepMode::Vertex, attributes }
}

/// How primitives are assembled from vertices.
#[derive(Clone, Copy, Debug, PartialEq, Eq, Structural)]
pub enum PrimitiveTopology {
    PointList,
    LineList,
    LineStrip,
    TriangleList,
    TriangleStrip,
}

/// Which winding is the front face.
#[derive(Clone, Copy, Debug, PartialEq, Eq, Structural)]
pub enum FrontFace {
    Ccw,
    Cw,
}

/// Which face is culled.
#[derive(Clone, Copy, Debug, PartialEq, Eq, Structural)]
pub enum Face {
    Front,
    Back,
}

/// How polygons are rasterized.
#[derive(Clone, Copy, Debug, PartialEq, Eq, Structural)]
pub enum PolygonMode {
    Fill,
    Line,
    Point,
}

/// Primitive assembly and rasterization state.
#[derive(Clone, Copy, Debug, PartialEq, Eq, Structural)]
pub struct PrimitiveState {
    pub topology: PrimitiveTopology,
    pub front_face: FrontFace,
    pub cull_mode: Option<Face>,
    pub polygon_mode: PolygonMode,
}

/// How a color target blends the fragment output over what it holds.
#[derive(Clone, Copy, Debug, PartialEq, Eq, Structural)]
pub enum BlendState {
    /// The fragment output replaces the target.
    Replace,
    /// Standard source-alpha blending.
    AlphaBlending,
}

/// One color target of a pipeline.
#[derive(Clone, Copy, Debug, PartialEq, Eq, Structural)]
pub struct ColorTargetState {
    pub format: TextureFormat,
    pub blend: Option<BlendState>,
    pub write_mask: u32,
}

/// Depth testing and bias state. The slope scale and clamp are bit patterns
/// of single-precision floats.
#[derive(Clone, Copy, Debug, PartialEq, Eq, Structural)]
pub struct DepthStencilState {
    pub format: TextureFormat,
    pub depth_write_enabled: bool,
    pub depth_compare: CompareFunction,
    pub bias_constant: i32,
    pub bias_slope_scale: u32,
    pub bias_clamp: u32,
}

/// Multisampling state.
#[derive(Clone, Copy, Debug, PartialEq, Eq, Structural)]
pub struct MultisampleState {
    pub count: u32,
    pub mask: u64,
    pub alpha_to_coverage_enabled: bool,
}

/// A range of push-constant bytes visible to some stages.
#[derive(Clone, Copy, Debug, PartialEq, Eq, Structural)]
pub struct PushConstantRange {
    pub stages: u32,
    pub start: u32,
    pub end: u32,
}

/// The fragment stage of a built pipeline.
pub struct FragmentStage {
    /// Identity of the module.
    pub module: u64,
    /// The entry point's name.
    pub entry: String,
}

/// A built graphics pipeline: its identity, its layout object's identity,
/// and everything it was built from.
pub struct RenderPipeline {
    /// Identity of the pipeline object.
    pub id: u64,
    /// Identity of the pipeline-layout object.
    pub layout_id: u64,
    /// Diagnostic label.
    pub label: Option<String>,
    /// Identity of the vertex shader module.
    pub vertex_module: u64,
    /// The vertex entry point's name.
    pub vertex_entry: String,
    /// The fragment stage, absent for depth-only pipelines.
    pub fragment: Option<FragmentStage>,
    /// The vertex buffer layouts, in slot order.
    pub vertex_layouts: Vec<VertexBufferLayout>,
    /// The bind-group layouts, in group order, by identity.
    pub bind_group_layouts: Vec<u64>,
    /// The push-constant ranges.
    pub push_constant_ranges: Vec<PushConstantRange>,
    /// Primitive assembly state.
    pub primitive: PrimitiveState,
    /// Depth state, if the pipeline writes a depth attachment.
    pub depth_stencil: Option<DepthStencilState>,
    /// Multisampling state.
    pub multisample: MultisampleState,
    /// The color targets.
    pub color_targets: Vec<ColorTargetState>,
}

impl RenderPipeline {
    /// A fresh builder, with the defaults of [`PipelineBuilder::new`].
    pub fn builder() -> (r: PipelineBuilder)
        ensures
            r.label is None,
            r.shader is None,
            r.vertex_shader is None,
            r.fragment_shader is None,
            r.vertex_entry@ == "vs_main"@,
            r.fragment_entry matches Some(e) && e@ == "fs_main"@,
            r.vertex_layouts@.len() == 0,
            r.bind_group_layouts@.len() == 0,
            r.push_constant_ranges@.len() == 0,
            r.primitive == (PrimitiveState {
                topology: PrimitiveTopology::TriangleList,
                front_face: FrontFace::Ccw,
                cull_mode: None,
                polygon_mode: PolygonMode::Fill,
            }),
            r.depth_stencil is None,
            r.multisample == (MultisampleState {
                count: 1u32,
                mask: 0xFFFF_FFFF_FFFF_FFFFu64,
                alpha_to_coverage_enabled: false,
            }),
            r.color_targets@ == seq![
                ColorTargetState {
                    format: TextureFormat::Bgra8UnormSrgb,
                    blend: Some(BlendState::Replace),
                    write_mask: COLOR_WRITES_ALL,
                },
            ],
    {
        PipelineBuilder::new()
    }

    /// Identity of the pipeline object.
    pub fn raw(&self) -> (r: u64)
        ensures
            r == self.id,
    {
        self.id
    }

    /// Identity of the pipeline-layout object.
    pub fn layout(&self) -> (r: u64)
        ensures
            r == self.layout_id,
    {
        self.layout_id
    }
}

/// Fluent assembly of a graphics pipeline.
pub struct PipelineBuilder {
    /// Diagnostic label.
    pub label: Option<String>,
    /// A combined module with conventional entry points, if supplied.
    pub shader: Option<Shader>,
    /// A separate vertex module and entry point, if supplied.
    pub vertex_shader: Option<(Shader, String)>,
    /// A separate fragment module and entry point, if supplied.
    pub fragment_shader: Option<(Shader, String)>,
    /// Entry point used with a combined module's vertex stage.
    pub vertex_entry: String,
    /// Entry point used with a combined module's fragment stage; cleared by
    /// [`PipelineBuilder::no_fragment_shader`].
    pub fragment_entry: Option<String>,
    /// Vertex buffer layouts, in slot order.
    pub vertex_layouts: Vec<VertexBufferLayout>,
    /// Bind-group layouts, in group order, by identity.
    pub bind_group_layouts: Vec<u64>,
    /// Push-constant ranges.
    pub push_constant_ranges: Vec<PushConstantRange>,
    /// Primitive assembly state.
    pub primitive: PrimitiveState,
    /// Depth state.
    pub depth_stencil: Option<DepthStencilState>,
    /// Multisampling state.
    pub multisample: MultisampleState,
    /// Color targets.
    pub color_targets: Vec<ColorTargetState>,
}

impl PipelineBuilder {
    /// A fresh builder: triangle lists, counter-clockwise front faces, no
    /// culling, filled polygons, one opaque sRGB color target, no depth
    /// state, single-sample, conventional entry-point names.
    pub fn new() -> (r: PipelineBuilder)
        ensures
            r.label is None,
            r.shader is None,
            r.vertex_shader is None,
            r.fragment_shader is None,
            r.vertex_entry@ == "vs_main"@,
            r.fragment_entry matches Some(e) && e@ == "fs_main"@,
            r.vertex_layouts@.len() == 0,
            r.bind_group_layouts@.len() == 0,
            r.push_constant_ranges@.len() == 0,
            r.primitive == (PrimitiveState {
                topology: PrimitiveTopology::TriangleList,
                front_face: FrontFace::Ccw,
                cull_mode: None,
                polygon_mode: PolygonMode::Fill,
            }),
            r.depth_stencil is None,
            r.multisample == (MultisampleState {
                count: 1u32,
                mask: 0xFFFF_FFFF_FFFF_FFFFu64,
                alpha_to_coverage_enabled: false,
            }),
            r.color_targets@ == seq![
                ColorTargetState {
                    format: TextureFormat::Bgra8UnormSrgb,
                    blend: Some(BlendState::Replace),
                    write_mask: COLOR_WRITES_ALL,
                },
            ],
    {
        let mut color_targets: Vec<ColorTargetState> = Vec::new();
        color_targets.push(
            ColorTargetState {
                format: TextureFormat::Bgra8UnormSrgb,
                blend: Some(BlendState::Replace),
                write_mask: COLOR_WRITES_ALL,
            },
        );
        proof {
            assert(color_targets@ =~= seq![
                ColorTargetState {
                    format: TextureFormat::Bgra8UnormSrgb,
                    blend: Some(BlendState::Replace),
                    write_mask: COLOR_WRITES_ALL,
                },
            ]);
        }
        PipelineBuilder {
            label: None,
            shader: None,
            vertex_shader: None,
            fragment_shader: None,
            vertex_entry: "vs_main".to_owned(),
            fragment_entry: Some("fs_main".to_owned()),
            vertex_layouts: Vec::new(),
            bind_group_layouts: Vec::new(),
            push_constant_ranges: Vec::new(),
            primitive: PrimitiveState {
                topology: PrimitiveTopology::TriangleList,
                front_face: FrontFace::Ccw,
                cull_mode: None,
                polygon_mode: PolygonMode::Fill,
            },
            depth_stencil: None,
            multisample: MultisampleState {
                count: 1,
                mask: 0xFFFF_FFFF_FFFF_FFFF,
                alpha_to_coverage_enabled: false,
            },
            color_targets,
        }
    }

    /// Label the pipeline.
    pub fn label(self, label: &str) -> (r: Self)
        ensures
            r.label matches Some(l) && l@ == label@,
            r.shader == self.shader,
            r.vertex_shader == self.vertex_shader,
            r.fragment_shader == self.fragment_shader,
            r.vertex_entry == self.vertex_entry,
            r.fragment_entry == self.fragment_entry,
            r.vertex_layouts == self.vertex_layouts,
            r.bind_group_layouts == self.bind_group_layouts,
            r.push_constant_ranges == self.push_constant_ranges,
            r.primitive == self.primitive,
            r.depth_stencil == self.depth_stencil,
            r.multisample == self.multisample,
            r.color_targets == self.color_targets,
    {
        PipelineBuilder { label: Some(label.to_owned()), ..self }
    }

    /// Supply a combined module; its vertex and fragment entry points are
    /// taken from the conventional names unless overridden.
    pub fn shader(self, shader: Shader) -> (r: Self)
        ensures
            r == (PipelineBuilder { shader: Some(shader), ..self }),
    {
        PipelineBuilder { shader: Some(shader), ..self }
    }

    /// Supply a separate vertex module and entry point.
    pub fn vertex_shader(self, shader: Shader, entry_point: &str) -> (r: Self)
        ensures
            r.vertex_shader matches Some(vs) && vs.0 == shader && vs.1@ == entry_point@,
            r.label == self.label,
            r.shader == self.shader,
            r.fragment_shader == self.fragment_shader,
            r.vertex_entry == self.vertex_entry,
            r.fragment_entry == self.fragment_entry,
            r.vertex_layouts == self.vertex_layouts,
            r.bind_group_layouts == self.bind_group_layouts,
            r.push_constant_ranges == self.push_constant_ranges,
            r.primitive == self.primitive,
            r.depth_stencil == self.depth_stencil,
            r.multisample == self.multisample,
            r.color_targets == self.color_targets,
    {
        PipelineBuilder { vertex_shader: Some((shader, entry_point.to_owned())), ..self }
    }

    /// Supply a separate fragment module and entry point.
    pub fn fragment_shader(self, shader: Shader, entry_point: &str) -> (r: Self)
        ensures
            r.fragment_shader matches Some(fs) && fs.0 == shader && fs.1@ == entry_point@,
            r.label == self.label,
            r.shader == self.shader,
            r.vertex_shader == self.vertex_shader,
            r.vertex_entry == self.vertex_entry,
            r.fragment_entry == self.fragment_entry,
            r.vertex_layouts == self.vertex_layouts,
            r.bind_group_layouts == self.bind_group_layouts,
            r.push_constant_ranges == self.push_constant_ranges,
            r.primitive == self.primitive,
            r.depth_stencil == self.depth_stencil,
            r.multisample == self.multisample,
            r.color_targets == self.color_targets,
    {
        PipelineBuilder { fragment_shader: Some((shader, entry_point.to_owned())), ..self }
    }

    /// Override the combined module's vertex entry point.
    pub fn vertex_entry(self, entry: &str) -> (r: Self)
        ensures
            r.vertex_entry@ == entry@,
            r.label == self.label,
            r.shader == self.shader,
            r.vertex_shader == self.vertex_shader,
            r.fragment_shader == self.fragment_shader,
            r.fragment_entry == self.fragment_entry,
            r.vertex_layouts == self.vertex_layouts,
            r.bind_group_layouts == self.bind_group_layouts,
            r.push_constant_ranges == self.push_constant_ranges,
            r.primitive == self.primitive,
            r.depth_stencil == self.depth_stencil,
            r.multisample == self.multisample,
            r.color_targets == self.color_targets,
    {
        PipelineBuilder { vertex_entry: entry.to_owned(), ..self }
    }

    /// Override the combined module's fragment entry point.
    pub fn fragment_entry(self, entry: &str) -> (r: Self)
        ensures
            r.fragment_entry matches Some(e) && e@ == entry@,
            r.label == self.label,
            r.shader == self.shader,
            r.vertex_shader == self.vertex_shader,
            r.fragment_shader == self.fragment_shader,
            r.vertex_entry == self.vertex_entry,
            r.vertex_layouts == self.vertex_layouts,
            r.bind_group_layouts == self.bind_group_layouts,
            r.push_constant_ranges == self.push_constant_ranges,
            r.primitive == self.primitive,
            r.depth_stencil == self.depth_stencil,
            r.multisample == self.multisample,
            r.color_targets == self.color_targets,
    {
        PipelineBuilder { fragment_entry: Some(entry.to_owned()), ..self }
    }

    /// Build without any fragment stage, for depth-only pipelines.
    pub fn no_fragment_shader(self) -> (r: Self)
        ensures
            r == (PipelineBuilder { fragment_shader: None, fragment_entry: None, ..self }),
    {
        PipelineBuilder { fragment_shader: None, fragment_entry: None, ..self }
    }

    /// Add one vertex buffer layout.
    pub fn vertex_layout(self, layout: VertexBufferLayout) -> (r: Self)
        ensures
            r.vertex_layouts@ == self.vertex_layouts@.push(layout),
            r.label == self.label,
            r.shader == self.shader,
            r.vertex_shader == self.vertex_shader,
            r.fragment_shader == self.fragment_shader,
            r.vertex_entry == self.vertex_entry,
            r.fragment_entry == self.fragment_entry,
            r.bind_group_layouts == self.bind_group_layouts,
            r.push_constant_ranges == self.push_constant_ranges,
            r.primitive == self.primitive,
            r.depth_stencil == self.depth_stencil,
            r.multisample == self.multisample,
            r.color_targets == self.color_targets,
    {
        let mut vertex_layouts = self.vertex_layouts;
        vertex_layouts.push(layout);
        PipelineBuilder { vertex_layouts, ..self }
    }

    /// Add the layout of a built bind group, in group order.
    pub fn bind_group_layout(self, group: &BindGroup) -> (r: Self)
        ensures
            r.bind_group_layouts@ == self.bind_group_layouts@.push(group.layout.id),
            r.label == self.label,
            r.shader == self.shader,
            r.vertex_shader == self.vertex_shader,
            r.fragment_shader == self.fragment_shader,
            r.vertex_entry == self.vertex_entry,
            r.fragment_entry == self.fragment_entry,
            r.vertex_layouts == self.vertex_layouts,
            r.push_constant_ranges == self.push_constant_ranges,
            r.primitive == self.primitive,
            r.depth_stencil == self.depth_stencil,
            r.multisample == self.multisample,
            r.color_targets == self.color_targets,
    {
        let mut bind_group_layouts = self.bind_group_layouts;
        bind_group_layouts.push(group.layout.id);
        PipelineBuilder { bind_group_layouts, ..self }
    }

    /// Add a bind-group layout directly, in group order.
    pub fn raw_bind_group_layout(self, layout: &BindGroupLayout) -> (r: Self)
        ensures
            r.bind_group_layouts@ == self.bind_group_layouts@.push(layout.id),
            r.label == self.label,
            r.shader == self.shader,
            r.vertex_shader == self.vertex_shader,
            r.fragment_shader == self.fragment_shader,
            r.vertex_entry == self.vertex_entry,
            r.fragment_entry == self.fragment_entry,
            r.vertex_layouts == self.vertex_layouts,
            r.push_constant_ranges == self.push_constant_ranges,
            r.primitive == self.primitive,
            r.depth_stencil == self.depth_stencil,
            r.multisample == self.multisample,
            r.color_targets == self.color_targets,
    {
        let mut bind_group_layouts = self.bind_group_layouts;
        bind_group_layouts.push(layout.id);
        PipelineBuilder { bind_group_layouts, ..self }
    }

    /// Add a push-constant range.
    pub fn push_constant_range(self, range: PushConstantRange) -> (r: Self)
        ensures
            r.push_constant_ranges@ == self.push_constant_ranges@.push(range),
            r.label == self.label,
            r.shader == self.shader,
            r.vertex_shader == self.vertex_shader,
            r.fragment_shader == self.fragment_shader,
            r.vertex_entry == self.vertex_entry,
            r.fragment_entry == self.fragment_entry,
            r.vertex_layouts == self.vertex_layouts,
            r.bind_group_layouts == self.bind_group_layouts,
            r.primitive == self.primitive,
            r.depth_stencil == self.depth_stencil,
            r.multisample == self.multisample,
            r.color_targets == self.color_targets,
    {
        let mut push_constant_ranges = self.push_constant_ranges;
        push_constant_ranges.push(range);
        PipelineBuilder { push_constant_ranges, ..self }
    }

    /// Set the primitive topology.
    pub fn topology(self, topology: PrimitiveTopology) -> (r: Self)
        ensures
            r == (PipelineBuilder {
                primitive: PrimitiveState { topology, ..self.primitive },
                ..self
            }),
    {
        PipelineBuilder { primitive: PrimitiveState { topology, ..self.primitive }, ..self }
    }

    /// Set the polygon rasterization mode.
    pub fn polygon_mode(self, mode: PolygonMode) -> (r: Self)
        ensures
            r == (PipelineBuilder {
                primitive: PrimitiveState { polygon_mode: mode, ..self.primitive },
                ..self
            }),
    {
        PipelineBuilder {
            primitive: PrimitiveState { polygon_mode: mode, ..self.primitive },
            ..self
        }
    }

    /// Set the front-face winding.
    pub fn front_face(self, front_face: FrontFace) -> (r: Self)
        ensures
            r == (PipelineBuilder {
                primitive: PrimitiveState { front_face, ..self.primitive },
                ..self
            }),
    {
        PipelineBuilder { primitive: PrimitiveState { front_face, ..self.primitive }, ..self }
    }

    /// Set which face is culled.
    pub fn cull_mode(self, cull_mode: Option<Face>) -> (r: Self)
        ensures
            r == (PipelineBuilder {
                primitive: PrimitiveState { cull_mode, ..self.primitive },
                ..self
            }),
    {
        PipelineBuilder { primitive: PrimitiveState { cull_mode, ..self.primitive }, ..self }
    }

    /// Enable depth testing against a depth attachment of this format, with
    /// depth writes on and the less-than comparison.
    pub fn depth_stencil(self, format: TextureFormat) -> (r: Self)
        ensures
            r == (PipelineBuilder {
                depth_stencil: Some(
                    DepthStencilState {
                        format,
                        depth_write_enabled: true,
                        depth_compare: CompareFunction::Less,
                        bias_constant: 0i32,
                        bias_slope_scale: 0u32,
                        bias_clamp: 0u32,
                    },
                ),
                ..self
            }),
    {
        PipelineBuilder {
            depth_stencil: Some(
                DepthStencilState {
                    format,
                    depth_write_enabled: true,
                    depth_compare: CompareFunction::Less,
                    bias_constant: 0,
                    bias_slope_scale: 0,
                    bias_clamp: 0,
                },
            ),
            ..self
        }
    }

    /// Set the full depth state.
    pub fn depth_stencil_state(self, state: DepthStencilState) -> (r: Self)
        ensures
            r == (PipelineBuilder { depth_stencil: Some(state), ..self }),
    {
        PipelineBuilder { depth_stencil: Some(state), ..self }
    }

    /// Replace the color targets with one opaque target of this format.
    pub fn color_target(self, format: TextureFormat) -> (r: Self)
        ensures
            r.color_targets@ == seq![
                ColorTargetState {
                    format,
                    blend: Some(BlendState::Replace),
                    write_mask: COLOR_WRITES_ALL,
                },
            ],
            r.label == self.label,
            r.shader == self.shader,
            r.vertex_shader == self.vertex_shader,
            r.fragment_shader == self.fragment_shader,
            r.vertex_entry == self.vertex_entry,
            r.fragment_entry == self.fragment_entry,
            r.vertex_layouts == self.vertex_layouts,
            r.bind_group_layouts == self.bind_group_layouts,
            r.push_constant_ranges == self.push_constant_ranges,
            r.primitive == self.primitive,
            r.depth_stencil == self.depth_stencil,
            r.multisample == self.multisample,
    {
        let mut color_targets: Vec<ColorTargetState> = Vec::new();
        color_targets.push(
            ColorTargetState { format, blend: Some(BlendState::Replace), write_mask: COLOR_WRITES_ALL },
        );
        proof {
            assert(color_targets@ =~= seq![
                ColorTargetState {
                    format,
                    blend: Some(BlendState::Replace),
                    write_mask: COLOR_WRITES_ALL,
                },
            ]);
        }
        PipelineBuilder { color_targets, ..self }
    }

    /// Replace the color targets with one target of this format and blend
    /// state.
    pub fn color_target_blend(self, format: TextureFormat, blend: BlendState) -> (r: Self)
        ensures
            r.color_targets@ == seq![
                ColorTargetState { format, blend: Some(blend), write_mask: COLOR_WRITES_ALL },
            ],
            r.label == self.label,
            r.shader == self.shader,
            r.vertex_shader == self.vertex_shader,
            r.fragment_shader == self.fragment_shader,
            r.vertex_entry == self.vertex_entry,
            r.fragment_entry == self.fragment_entry,
            r.vertex_layouts == self.vertex_layouts,
            r.bind_group_layouts == self.bind_group_layouts,
            r.push_constant_ranges == self.push_constant_ranges,
            r.primitive == self.primitive,
            r.depth_stencil == self.depth_stencil,
            r.multisample == self.multisample,
    {
        let mut color_targets: Vec<ColorTargetState> = Vec::new();
        color_targets.push(
            ColorTargetState { format, blend: Some(blend), write_mask: COLOR_WRITES_ALL },
        );
        proof {
            assert(color_targets@ =~= seq![
                ColorTargetState { format, blend: Some(blend), write_mask: COLOR_WRITES_ALL },
            ]);
        }
        PipelineBuilder { color_targets, ..self }
    }

    /// Replace the color targets with one source-alpha-blending target of
    /// this format.
    pub fn alpha_blending(self, format: TextureFormat) -> (r: Self)
        ensures
            r.color_targets@ == seq![
                ColorTargetState {
                    format,
                    blend: Some(BlendState::AlphaBlending),
                    write_mask: COLOR_WRITES_ALL,
                },
            ],
            r.label == self.label,
            r.shader == self.shader,
            r.vertex_shader == self.vertex_shader,
            r.fragment_shader == self.fragment_shader,
            r.vertex_entry == self.vertex_entry,
            r.fragment_entry == self.fragment_entry,
            r.vertex_layouts == self.vertex_layouts,
            r.bind_group_layouts == self.bind_group_layouts,
            r.push_constant_ranges == self.push_constant_ranges,
            r.primitive == self.primitive,
            r.depth_stencil == self.depth_stencil,
            r.multisample == self.multisample,
    {
        self.color_target_blend(format, BlendState::AlphaBlending)
    }

    /// Set the multisample count.
    pub fn multisample_count(self, count: u32) -> (r: Self)
        ensures
            r == (PipelineBuilder {
                multisample: MultisampleState { count, ..self.multisample },
                ..self
            }),
    {
        PipelineBuilder { multisample: MultisampleState { count, ..self.multisample }, ..self }
    }

    /// The vertex stage this configuration resolves to: a separate vertex
    /// module wins over a combined module; with neither there is no vertex
    /// stage and building must fail.
    pub open spec fn spec_vertex_stage(self) -> Option<(u64, Seq<char>)> {
        match self.vertex_shader {
            Some(vs) => Some((vs.0.id, vs.1@)),
            None => match self.shader {
                Some(sh) => Some((sh.id, self.vertex_entry@)),
                None => None,
            },
        }
    }

    /// The fragment stage this configuration resolves to: a separate
    /// fragment module wins; else a combined module with an enabled fragment
    /// entry; else none, and the pipeline is depth-only.
    pub open spec fn spec_fragment_stage(self) -> Option<(u64, Seq<char>)> {
        match self.fragment_shader {
            Some(fs) => Some((fs.0.id, fs.1@)),
            None => match self.shader {
                Some(sh) => match self.fragment_entry {
                    Some(e) => Some((sh.id, e@)),
                    None => None,
                },
                None => None,
            },
        }
    }

    /// Build the pipeline. This fails with
    /// [`RenderError::MissingVertexShader`] exactly when no vertex stage was
    /// supplied — a pipeline without one is meaningless and nothing is
    /// silently substituted. On success the pipeline carries exactly the
    /// resolved stages and the configured state.
    pub fn build(self, ctx: &mut GpuContext) -> (r: Result<RenderPipeline, RenderError>)
        requires
            old(ctx).can_alloc(2),
        ensures
            self.spec_vertex_stage() is None <==> r matches Err(RenderError::MissingVertexShader),
            self.spec_vertex_stage() is None ==> *final(ctx) == *old(ctx),
            self.spec_vertex_stage() matches Some(v) ==> r matches Ok(p) && {
                &&& p.layout_id == old(ctx).next_id
                &&& p.id == old(ctx).next_id + 1
                &&& p.label == self.label
                &&& p.vertex_module == v.0
                &&& p.vertex_entry@ == v.1
                &&& match self.spec_fragment_stage() {
                    Some(f) => p.fragment matches Some(fs) && fs.module == f.0 && fs.entry@ == f.1,
                    None => p.fragment is None,
                }
                &&& p.vertex_layouts == self.vertex_layouts
                &&& p.bind_group_layouts == self.bind_group_layouts
                &&& p.push_constant_ranges == self.push_constant_ranges
                &&& p.primitive == self.primitive
                &&& p.depth_stencil == self.depth_stencil
                &&& p.multisample == self.multisample
                &&& p.color_targets == self.color_targets
                &&& final(ctx).next_id == old(ctx).next_id + 2
            },
            final(ctx).features == old(ctx).features,
            final(ctx).limits == old(ctx).limits,
            final(ctx).device_label == old(ctx).device_label,
            final(ctx).submitted == old(ctx).submitted,
    {
        let PipelineBuilder {
            label,
            shader,
            vertex_shader,
            fragment_shader,
            vertex_entry,
            fragment_entry,
            vertex_layouts,
            bind_group_layouts,
            push_constant_ranges,
            primitive,
            depth_stencil,
            multisample,
            color_targets,
        } = self;

        let vertex: (u64, String) = match (vertex_shader, &shader) {
            (Some((sh, entry)), _) => (sh.id, entry),
            (None, Some(sh)) => (sh.id, vertex_entry),
            (None, None) => {
                return Err(RenderError::MissingVertexShader);
            },
        };

        let fragment: Option<FragmentStage> = match (fragment_shader, &shader) {
            (Some((sh, entry)), _) => Some(FragmentStage { module: sh.id, entry }),
            (None, Some(sh)) => match fragment_entry {
                Some(entry) => Some(FragmentStage { module: sh.id, entry }),
                None => None,
            },
            (None, None) => None,
        };

        let layout_id = ctx.fresh_id();
        let pipeline_id = ctx.fresh_id();

        Ok(
            RenderPipeline {
                id: pipeline_id,
                layout_id,
                label,
                vertex_module: vertex.0,
                vertex_entry: vertex.1,
                fragment,
                vertex_layouts,
                bind_group_layouts,
                push_constant_ranges,
                primitive,
                depth_stencil,
                multisample,
                color_targets,
            },
        )
    }
}

impl Default for PipelineBuilder {
    /// The defaults of [`PipelineBuilder::new`].
    fn default() -> (r: Self)
        ensures
            r.label is None,
            r.shader is None,
            r.vertex_shader is None,
            r.fragment_shader is None,
            r.vertex_entry@ == "vs_main"@,
            r.fragment_entry matches Some(e) && e@ == "fs_main"@,
            r.depth_stencil is None,
    {
        PipelineBuilder::new()
    }
}

} // verus!
