//! Recording of render passes.
//!
//! A command encoder collects the commands of one frame; a render pass is a
//! scoped stretch of that stream, bracketed by a begin marker naming the
//! attachments and their clear-or-load policy, and an end marker. The frame
//! loop replays a finished stream against the backing API in order.

use vstd::prelude::*;

verus! {

use crate::bytes::copy_vec;

/// A clear color, each channel the raw bit pattern of a double-precision
/// float.
#[derive(Clone, Copy, Debug, PartialEq, Eq, Structural)]
pub struct ColorBits {
    pub r: u64,
    pub g: u64,
    pub b: u64,
    pub a: u64,
}

/// What happens to a color attachment when its pass begins.
#[derive(Clone, Copy, Debug, PartialEq, Eq, Structural)]
pub enum ColorLoadOp {
    /// The attachment is cleared to the given color.
    Clear(ColorBits),
    /// The attachment keeps its previous contents.
    Load,
}

/// What happens to the depth aspect when its pass begins; a clear value is
/// the bit pattern of a single-precision float.
#[derive(Clone, Copy, Debug, PartialEq, Eq, Structural)]
pub enum DepthLoadOp {
    Clear(u32),
    Load,
}

/// What happens to the stencil aspect when its pass begins.
#[derive(Clone, Copy, Debug, PartialEq, Eq, Structural)]
pub enum StencilLoadOp {
    Clear(u32),
    Load,
}

/// The index element width of an index buffer.
#[derive(Clone, Copy, Debug, PartialEq, Eq, Structural)]
pub enum IndexFormat {
    Uint16,
    Uint32,
}

/// A color attachment of a pass: the texture view drawn into and its load
/// policy.
#[derive(Clone, Copy, Debug, PartialEq, Eq, Structural)]
pub struct ColorAttachment {
    pub view: u64,
    pub load: ColorLoadOp,
}

/// A depth/stencil attachment of a pass.
#[derive(Clone, Copy, Debug, PartialEq, Eq, Structural)]
pub struct DepthAttachment {
    pub view: u64,
    pub depth_load: DepthLoadOp,
    pub stencil_load: StencilLoadOp,
}

/// The attachments and label a pass is begun with.
#[derive(Clone, Debug, PartialEq)]
pub struct PassDescriptor {
    pub label: Option<String>,
    pub color: Option<ColorAttachment>,
    pub depth: Option<DepthAttachment>,
}

/// One recorded command. Resources are named by their identities.
#[derive(Debug, PartialEq)]
pub enum RenderCommand {
    /// A pass over the named attachments begins.
    BeginRenderPass { label: Option<String>, color: Option<ColorAttachment>, depth: Option<
        DepthAttachment,
    > },
    /// The current pass ends.
    EndRenderPass,
    /// Draws that follow use this pipeline.
    SetPipeline { pipeline: u64 },
    /// Draws that follow see this bind group at this slot.
    SetBindGroup { index: u32, group: u64 },
    /// Draws that follow read vertices from this buffer at this slot.
    SetVertexBuffer { slot: u32, buffer: u64 },
    /// Draws that follow read indices from this buffer.
    SetIndexBuffer { buffer: u64, format: IndexFormat },
    /// Draws that follow see these bytes in the push-constant block from
    /// this offset.
    SetPushConstants { offset: u32, data: Vec<u8> },
    /// Draw a range of vertices for a range of instances.
    Draw { vertex_start: u32, vertex_end: u32, instance_start: u32, instance_end: u32 },
    /// Draw a range of indices for a range of instances.
    DrawIndexed {
        index_start: u32,
        index_end: u32,
        base_vertex: i32,
        instance_start: u32,
        instance_end: u32,
    },
}

/// The mathematical shape of one recorded command: as [`RenderCommand`], with
/// byte payloads and labels as sequences.
pub enum CommandView {
    BeginRenderPass { label: Option<Seq<char>>, color: Option<ColorAttachment>, depth: Option<
        DepthAttachment,
    > },
    EndRenderPass,
    SetPipeline { pipeline: u64 },
    SetBindGroup { index: u32, group: u64 },
    SetVertexBuffer { slot: u32, buffer: u64 },
    SetIndexBuffer { buffer: u64, format: IndexFormat },
    SetPushConstants { offset: u32, data: Seq<u8> },
    Draw { vertex_start: u32, vertex_end: u32, instance_start: u32, instance_end: u32 },
    DrawIndexed {
        index_start: u32,
        index_end: u32,
        base_vertex: i32,
        instance_start: u32,
        instance_end: u32,
    },
}

/// The shape of one command.
pub open spec fn cmd_view(c: RenderCommand) -> CommandView {
    match c {
        RenderCommand::BeginRenderPass { label, color, depth } => CommandView::BeginRenderPass {
            label: match label {
                Some(l) => Some(l@),
                None => None,
            },
            color,
            depth,
        },
        RenderCommand::EndRenderPass => CommandView::EndRenderPass,
        RenderCommand::SetPipeline { pipeline } => CommandView::SetPipeline { pipeline },
        RenderCommand::SetBindGroup { index, group } => CommandView::SetBindGroup { index, group },
        RenderCommand::SetVertexBuffer { slot, buffer } => CommandView::SetVertexBuffer {
            slot,
            buffer,
        },
        RenderCommand::SetIndexBuffer { buffer, format } => CommandView::SetIndexBuffer {
            buffer,
            format,
        },
        RenderCommand::SetPushConstants { offset, data } => CommandView::SetPushConstants {
            offset,
            data: data@,
        },
        RenderCommand::Draw { vertex_start, vertex_end, instance_start, instance_end } => {
            CommandView::Draw { vertex_start, vertex_end, instance_start, instance_end }
        },
        RenderCommand::DrawIndexed {
            index_start,
            index_end,
            base_vertex,
            instance_start,
            instance_end,
        } => CommandView::DrawIndexed {
            index_start,
            index_end,
            base_vertex,
            instance_start,
            instance_end,
        },
    }
}

/// The shape of a whole command stream.
pub open spec fn cmd_views(s: Seq<RenderCommand>) -> Seq<CommandView> {
    s.map_values(|c: RenderCommand| cmd_view(c))
}

/// Recording one more command extends the stream's shape by its shape.
pub proof fn lemma_cmd_views_push(s: Seq<RenderCommand>, c: RenderCommand)
    ensures
        cmd_views(s.push(c)) == cmd_views(s).push(cmd_view(c)),
{
    assert(cmd_views(s.push(c)) =~= cmd_views(s).push(cmd_view(c)));
}

/// The shape of a concatenation is the concatenation of the shapes.
pub proof fn lemma_cmd_views_append(a: Seq<RenderCommand>, b: Seq<RenderCommand>)
    ensures
        cmd_views(a + b) == cmd_views(a) + cmd_views(b),
{
    assert(cmd_views(a + b) =~= cmd_views(a) + cmd_views(b));
}

/// The command stream of one frame, in recording order.
pub struct CommandEncoder {
    pub label: Option<String>,
    pub commands: Vec<RenderCommand>,
}

impl CommandEncoder {
    /// An empty stream.
    pub fn new(label: Option<&str>) -> (r: CommandEncoder)
        ensures
            r.commands@ == Seq::<RenderCommand>::empty(),
            match label {
                Some(l) => r.label matches Some(s) && s@ == l@,
                None => r.label is None,
            },
    {
        let owned: Option<String> = match label {
            Some(l) => Some(l.to_owned()),
            None => None,
        };
        CommandEncoder { label: owned, commands: Vec::new() }
    }
}

/// A render pass while it is being recorded: its descriptor and the commands
/// recorded inside it so far. [`RenderPass::finish`] closes the scope and
/// appends it to an encoder.
pub struct RenderPass {
    pub descriptor: PassDescriptor,
    pub commands: Vec<RenderCommand>,
}

impl RenderPass {
    /// A fresh pass builder.
    pub fn builder() -> (r: RenderPassBuilder)
        ensures
            r.label is None,
            r.clear_color is None,
            r.clear_depth is None,
            r.clear_stencil is None,
    {
        RenderPassBuilder::new()
    }

    /// Record: draws that follow use this pipeline.
    pub fn set_pipeline(&mut self, pipeline: &crate::pipeline::RenderPipeline)
        ensures
            final(self).commands@ == old(self).commands@.push(
                RenderCommand::SetPipeline { pipeline: pipeline.id },
            ),
            final(self).descriptor == old(self).descriptor,
    {
        self.commands.push(RenderCommand::SetPipeline { pipeline: pipeline.id });
    }

    /// Record: draws that follow read vertices from this buffer at slot 0.
    pub fn set_vertex_buffer(&mut self, vertex_buffer: &crate::buffer::VertexBuffer)
        ensures
            final(self).commands@ == old(self).commands@.push(
                RenderCommand::SetVertexBuffer { slot: 0u32, buffer: vertex_buffer.buffer.id },
            ),
            final(self).descriptor == old(self).descriptor,
    {
        self.commands.push(
            RenderCommand::SetVertexBuffer { slot: 0, buffer: vertex_buffer.buffer.id },
        );
    }

    /// Record: draws that follow read indices from this buffer, in its own
    /// element width.
    pub fn set_index_buffer(&mut self, index_buffer: &crate::buffer::IndexBuffer)
        ensures
            final(self).commands@ == old(self).commands@.push(
                RenderCommand::SetIndexBuffer {
                    buffer: index_buffer.buffer.id,
                    format: index_buffer.format,
                },
            ),
            final(self).descriptor == old(self).descriptor,
    {
        self.commands.push(
            RenderCommand::SetIndexBuffer {
                buffer: index_buffer.buffer.id,
                format: index_buffer.format,
            },
        );
    }

    /// Record: draws that follow see this bind group at this slot.
    pub fn set_bind_group(&mut self, index: u32, bind_group: &crate::bind_group::BindGroup)
        ensures
            final(self).commands@ == old(self).commands@.push(
                RenderCommand::SetBindGroup { index, group: bind_group.id },
            ),
            final(self).descriptor == old(self).descriptor,
    {
        self.commands.push(RenderCommand::SetBindGroup { index, group: bind_group.id });
    }

    /// Record: draws that follow see a bind group named by identity alone.
    pub fn set_raw_bind_group(&mut self, index: u32, group: u64)
        ensures
            final(self).commands@ == old(self).commands@.push(
                RenderCommand::SetBindGroup { index, group },
            ),
            final(self).descriptor == old(self).descriptor,
    {
        self.commands.push(RenderCommand::SetBindGroup { index, group });
    }

    /// Record: draws that follow see these bytes in the push-constant block.
    pub fn set_push_constant(&mut self, offset: u32, data: &Vec<u8>)
        ensures
            cmd_views(final(self).commands@) == cmd_views(old(self).commands@).push(
                CommandView::SetPushConstants { offset, data: data@ },
            ),
            final(self).commands@.len() == old(self).commands@.len() + 1,
            final(self).descriptor == old(self).descriptor,
    {
        let copy = copy_vec(data);
        let ghost c = RenderCommand::SetPushConstants { offset, data: copy };
        self.commands.push(RenderCommand::SetPushConstants { offset, data: copy });
        proof {
            lemma_cmd_views_push(old(self).commands@, c);
        }
    }

    /// Record: draw `vertex_start..vertex_end` for the given instances.
    pub fn draw(&mut self, vertex_start: u32, vertex_end: u32, instance_start: u32, instance_end: u32)
        ensures
            final(self).commands@ == old(self).commands@.push(
                RenderCommand::Draw { vertex_start, vertex_end, instance_start, instance_end },
            ),
            final(self).descriptor == old(self).descriptor,
    {
        self.commands.push(
            RenderCommand::Draw { vertex_start, vertex_end, instance_start, instance_end },
        );
    }

    /// Record: draw `index_start..index_end` for the given instances.
    pub fn draw_indexed(
        &mut self,
        index_start: u32,
        index_end: u32,
        base_vertex: i32,
        instance_start: u32,
        instance_end: u32,
    )
        ensures
            final(self).commands@ == old(self).commands@.push(
                RenderCommand::DrawIndexed {
                    index_start,
                    index_end,
                    base_vertex,
                    instance_start,
                    instance_end,
                },
            ),
            final(self).descriptor == old(self).descriptor,
    {
        self.commands.push(
            RenderCommand::DrawIndexed {
                index_start,
                index_end,
                base_vertex,
                instance_start,
                instance_end,
            },
        );
    }

    /// Close the pass scope: append the begin marker, the recorded commands
    /// and the end marker to the encoder. The pass cannot be used afterwards,
    /// so no command can escape its scope.
    pub fn finish(self, encoder: &mut CommandEncoder)
        ensures
            final(encoder).commands@ == old(encoder).commands@ + seq![
                RenderCommand::BeginRenderPass {
                    label: self.descriptor.label,
                    color: self.descriptor.color,
                    depth: self.descriptor.depth,
                }
            ] + self.commands@ + seq![RenderCommand::EndRenderPass],
            final(encoder).label == old(encoder).label,
    {
        let RenderPass { descriptor, mut commands } = self;
        encoder.commands.push(
            RenderCommand::BeginRenderPass {
                label: descriptor.label,
                color: descriptor.color,
                depth: descriptor.depth,
            },
        );
        encoder.commands.append(&mut commands);
        encoder.commands.push(RenderCommand::EndRenderPass);
        proof {
            assert(encoder.commands@ =~= old(encoder).commands@ + seq![
                RenderCommand::BeginRenderPass {
                    label: self.descriptor.label,
                    color: self.descriptor.color,
                    depth: self.descriptor.depth,
                }
            ] + self.commands@ + seq![RenderCommand::EndRenderPass]);
        }
    }
}

/// Configuration of a pass before it begins: an optional label, an optional
/// clear color, and optional depth and stencil clear values.
pub struct RenderPassBuilder {
    pub label: Option<String>,
    pub clear_color: Option<ColorBits>,
    pub clear_depth: Option<u32>,
    pub clear_stencil: Option<u32>,
}

impl RenderPassBuilder {
    /// No label, no clearing: every attachment keeps its previous contents.
    pub fn new() -> (r: RenderPassBuilder)
        ensures
            r.label is None,
            r.clear_color is None,
            r.clear_depth is None,
            r.clear_stencil is None,
    {
        RenderPassBuilder { label: None, clear_color: None, clear_depth: None, clear_stencil: None }
    }

    /// Label the pass.
    pub fn label(self, label: &str) -> (r: Self)
        ensures
            r.label matches Some(l) && l@ == label@,
            r.clear_color == self.clear_color,
            r.clear_depth == self.clear_depth,
            r.clear_stencil == self.clear_stencil,
    {
        RenderPassBuilder { label: Some(label.to_owned()), ..self }
    }

    /// Clear the color attachment to this color when the pass begins; each
    /// channel is the bit pattern of a double-precision float.
    pub fn clear_color(self, r_bits: u64, g_bits: u64, b_bits: u64, a_bits: u64) -> (r: Self)
        ensures
            r == (RenderPassBuilder {
                clear_color: Some(
                    ColorBits { r: r_bits, g: g_bits, b: b_bits, a: a_bits },
                ),
                ..self
            }),
    {
        RenderPassBuilder {
            clear_color: Some(ColorBits { r: r_bits, g: g_bits, b: b_bits, a: a_bits }),
            ..self
        }
    }

    /// Clear the depth aspect to this value (the bit pattern of a
    /// single-precision float) when the pass begins.
    pub fn clear_depth(self, depth_bits: u32) -> (r: Self)
        ensures
            r == (RenderPassBuilder { clear_depth: Some(depth_bits), ..self }),
    {
        RenderPassBuilder { clear_depth: Some(depth_bits), ..self }
    }

    /// Clear the stencil aspect to this value when the pass begins.
    pub fn clear_stencil(self, stencil: u32) -> (r: Self)
        ensures
            r == (RenderPassBuilder { clear_stencil: Some(stencil), ..self }),
    {
        RenderPassBuilder { clear_stencil: Some(stencil), ..self }
    }

    /// The color load policy this configuration asks for: clear exactly when
    /// a clear color was set, otherwise keep the previous contents.
    pub open spec fn spec_color_load(self) -> ColorLoadOp {
        match self.clear_color {
            Some(c) => ColorLoadOp::Clear(c),
            None => ColorLoadOp::Load,
        }
    }

    /// The depth load policy this configuration asks for.
    pub open spec fn spec_depth_load(self) -> DepthLoadOp {
        match self.clear_depth {
            Some(d) => DepthLoadOp::Clear(d),
            None => DepthLoadOp::Load,
        }
    }

    /// The stencil load policy this configuration asks for.
    pub open spec fn spec_stencil_load(self) -> StencilLoadOp {
        match self.clear_stencil {
            Some(s) => StencilLoadOp::Clear(s),
            None => StencilLoadOp::Load,
        }
    }

    /// Begin a pass over a color attachment and an optional depth attachment.
    pub fn begin(self, color_view: u64, depth_view: Option<u64>) -> (r: RenderPass)
        ensures
            r.commands@ == Seq::<RenderCommand>::empty(),
            r.descriptor.label == self.label,
            r.descriptor.color matches Some(c) && c.view == color_view && c.load
                == self.spec_color_load(),
            match depth_view {
                Some(v) => r.descriptor.depth matches Some(d) && d.view == v && d.depth_load
                    == self.spec_depth_load() && d.stencil_load == self.spec_stencil_load(),
                None => r.descriptor.depth is None,
            },
    {
        let color_load = match self.clear_color {
            Some(c) => ColorLoadOp::Clear(c),
            None => ColorLoadOp::Load,
        };
        let depth = match depth_view {
            Some(v) => Some(
                DepthAttachment {
                    view: v,
                    depth_load: match self.clear_depth {
                        Some(d) => DepthLoadOp::Clear(d),
                        None => DepthLoadOp::Load,
                    },
                    stencil_load: match self.clear_stencil {
                        Some(s) => StencilLoadOp::Clear(s),
                        None => StencilLoadOp::Load,
                    },
                },
            ),
            None => None,
        };
        RenderPass {
            descriptor: PassDescriptor {
                label: self.label,
                color: Some(ColorAttachment { view: color_view, load: color_load }),
                depth,
            },
            commands: Vec::new(),
        }
    }

    /// Begin a depth-only pass: no color attachment at all, as the shadow
    /// pass needs.
    pub fn begin_depth_only(self, depth_view: u64) -> (r: RenderPass)
        ensures
            r.commands@ == Seq::<RenderCommand>::empty(),
            r.descriptor.label == self.label,
            r.descriptor.color is None,
            r.descriptor.depth matches Some(d) && d.view == depth_view && d.depth_load
                == self.spec_depth_load() && d.stencil_load == self.spec_stencil_load(),
    {
        let depth = DepthAttachment {
            view: depth_view,
            depth_load: match self.clear_depth {
                Some(d) => DepthLoadOp::Clear(d),
                None => DepthLoadOp::Load,
            },
            stencil_load: match self.clear_stencil {
                Some(s) => StencilLoadOp::Clear(s),
                None => StencilLoadOp::Load,
            },
        };
        RenderPass {
            descriptor: PassDescriptor { label: self.label, color: None, depth: Some(depth) },
            commands: Vec::new(),
        }
    }
}

impl Default for RenderPassBuilder {
    /// No clearing at all, as [`RenderPassBuilder::new`].
    fn default() -> (r: Self)
        ensures
            r.label is None,
            r.clear_color is None,
            r.clear_depth is None,
            r.clear_stencil is None,
    {
        RenderPassBuilder::new()
    }
}

} // verus!
