//! Drawable geometry: a vertex buffer, an index buffer, and the index count
//! that every draw of the mesh issues.

use vstd::prelude::*;

verus! {

use crate::buffer::{data_words, BufferData, IndexBuffer, VertexBuffer};
use crate::bytes::{words16_bytes, words_bytes};
use crate::gpu::GpuContext;
use crate::render_pass::{IndexFormat, RenderCommand, RenderPass};

/// The unit of drawable geometry. Several scene entities may share one mesh
/// through cloned handles; the buffers are uploaded once.
#[derive(Debug)]
pub struct GpuMesh {
    /// The vertex data.
    pub vertex_buffer: VertexBuffer,
    /// The 16-bit index data.
    pub index_buffer: IndexBuffer,
    /// How many indices every draw of this mesh issues.
    pub index_count: u32,
}

impl Clone for GpuMesh {
    /// A cloned handle denotes the same pair of buffers.
    fn clone(&self) -> (r: Self)
        ensures
            r.vertex_buffer.buffer.id == self.vertex_buffer.buffer.id,
            r.vertex_buffer.buffer.contents@ == self.vertex_buffer.buffer.contents@,
            r.vertex_buffer.buffer.usage == self.vertex_buffer.buffer.usage,
            r.index_buffer.buffer.id == self.index_buffer.buffer.id,
            r.index_buffer.buffer.contents@ == self.index_buffer.buffer.contents@,
            r.index_buffer.buffer.usage == self.index_buffer.buffer.usage,
            r.index_buffer.format == self.index_buffer.format,
            r.index_buffer.count == self.index_buffer.count,
            r.index_count == self.index_count,
    {
        GpuMesh {
            vertex_buffer: self.vertex_buffer.clone(),
            index_buffer: self.index_buffer.clone(),
            index_count: self.index_count,
        }
    }
}

impl GpuMesh {
    /// Upload vertex and index arrays; the mesh's index count is exactly the
    /// length of the index array.
    pub fn new<V: BufferData>(
        ctx: &mut GpuContext,
        vertices: &Vec<V>,
        indices: &Vec<u16>,
        label: Option<&str>,
    ) -> (r: GpuMesh)
        requires
            old(ctx).can_alloc(2),
            indices@.len() <= u32::MAX,
        ensures
            r.index_count == indices@.len(),
            r.index_buffer.count == indices@.len(),
            r.index_buffer.format == IndexFormat::Uint16,
            r.index_buffer.buffer.contents@ == words16_bytes(indices@),
            r.vertex_buffer.buffer.contents@ == words_bytes(data_words(vertices@)),
            r.vertex_buffer.buffer.id == old(ctx).next_id,
            r.index_buffer.buffer.id == old(ctx).next_id + 1,
            final(ctx).next_id == old(ctx).next_id + 2,
            final(ctx).features == old(ctx).features,
            final(ctx).limits == old(ctx).limits,
            final(ctx).device_label == old(ctx).device_label,
            final(ctx).submitted == old(ctx).submitted,
    {
        let vertex_buffer = VertexBuffer::new(ctx, label, vertices);
        let index_buffer = IndexBuffer::new_u16(ctx, label, indices);
        let index_count = index_buffer.count;
        GpuMesh { vertex_buffer, index_buffer, index_count }
    }

    /// The commands one draw of this mesh records: bind both buffers, then
    /// issue exactly `index_count` indices for one instance.
    pub open spec fn spec_draw_cmds(self) -> Seq<RenderCommand> {
        seq![
            RenderCommand::SetVertexBuffer { slot: 0u32, buffer: self.vertex_buffer.buffer.id },
            RenderCommand::SetIndexBuffer {
                buffer: self.index_buffer.buffer.id,
                format: self.index_buffer.format,
            },
            RenderCommand::DrawIndexed {
                index_start: 0u32,
                index_end: self.index_count,
                base_vertex: 0i32,
                instance_start: 0u32,
                instance_end: 1u32,
            },
        ]
    }

    /// Every draw of a mesh issues exactly its index count: the one draw
    /// command of the recorded triple draws indices `0 .. index_count` for
    /// one instance, and nothing else in the triple draws.
    pub proof fn lemma_draw_issues_index_count(self)
        ensures
            self.spec_draw_cmds().len() == 3,
            self.spec_draw_cmds()[2] == (RenderCommand::DrawIndexed {
                index_start: 0u32,
                index_end: self.index_count,
                base_vertex: 0i32,
                instance_start: 0u32,
                instance_end: 1u32,
            }),
            forall|i: int| 0 <= i < 2 ==> !(#[trigger] self.spec_draw_cmds()[i] is DrawIndexed)
                && !(self.spec_draw_cmds()[i] is Draw),
    {
    }

    /// Draw the mesh into an open pass: exactly `index_count` indices, one
    /// instance.
    pub fn draw(&self, pass: &mut RenderPass)
        ensures
            final(pass).commands@ == old(pass).commands@ + self.spec_draw_cmds(),
            final(pass).descriptor == old(pass).descriptor,
    {
        pass.set_vertex_buffer(&self.vertex_buffer);
        pass.set_index_buffer(&self.index_buffer);
        pass.draw_indexed(0, self.index_count, 0, 0, 1);
        proof {
            assert(pass.commands@ =~= old(pass).commands@ + self.spec_draw_cmds());
        }
    }
}

} // verus!
