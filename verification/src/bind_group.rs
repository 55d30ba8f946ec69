//! Bind groups: bundles of resources exposed to shader stages at fixed
//! binding slots, and the builder that assembles their layouts.

use vstd::prelude::*;

verus! {

use crate::error::RenderError;
use crate::gpu::GpuContext;

/// Stage bit: visible to the vertex stage.
pub const STAGE_VERTEX: u32 = 0x1;

/// Stage bit: visible to the fragment stage.
pub const STAGE_FRAGMENT: u32 = 0x2;

/// Stage bit: visible to the compute stage.
pub const STAGE_COMPUTE: u32 = 0x4;

/// What kind of resource a layout slot accepts.
#[derive(Clone, Copy, Debug, PartialEq, Eq, Structural)]
pub enum BindingType {
    /// A uniform buffer.
    Uniform,
    /// A storage buffer; `read_only` tells whether shaders may write it.
    Storage { read_only: bool },
    /// A filterable sampled color texture.
    Texture,
    /// A depth texture sampled with comparison.
    DepthTexture,
    /// A filtering sampler.
    Sampler,
    /// A comparison sampler.
    ComparisonSampler,
    /// An array of `count` sampled textures under one binding.
    TextureArray { count: u32 },
}

/// One slot of a bind-group layout.
#[derive(Clone, Copy, Debug, PartialEq, Eq, Structural)]
pub struct LayoutEntry {
    /// The binding index the shader names.
    pub binding: u32,
    /// Which stages see the slot.
    pub visibility: u32,
    /// What the slot accepts.
    pub ty: BindingType,
}

/// A bind-group layout object.
#[derive(Debug)]
pub struct BindGroupLayout {
    /// Identity of the layout object.
    pub id: u64,
    /// The slots, in the order they were declared.
    pub entries: Vec<LayoutEntry>,
}

impl Clone for BindGroupLayout {
    /// A cloned handle denotes the same layout object.
    fn clone(&self) -> (r: Self)
        ensures
            r.id == self.id,
            r.entries@ == self.entries@,
    {
        BindGroupLayout { id: self.id, entries: crate::bytes::copy_vec(&self.entries) }
    }
}

/// One resource bound at a binding index, named by identity.
#[derive(Clone, Debug, PartialEq)]
pub enum BindResource {
    /// A sampler.
    Sampler(u32, u64),
    /// A single texture view.
    TextureView(u32, u64),
    /// An array of texture views.
    TextureViewArray(u32, Vec<u64>),
    /// A buffer bound whole.
    Buffer(u32, u64),
}

/// A bind group: its layout and the resources filling the slots.
#[derive(Debug)]
pub struct BindGroup {
    /// Identity of the bind-group object.
    pub id: u64,
    /// Diagnostic label.
    pub label: Option<String>,
    /// The layout the group was created against.
    pub layout: BindGroupLayout,
    /// The bound resources, in the order they were supplied.
    pub resources: Vec<BindResource>,
}

/// The shape of one bound resource: as [`BindResource`], with id arrays as
/// sequences.
pub enum BindResourceView {
    Sampler(u32, u64),
    TextureView(u32, u64),
    TextureViewArray(u32, Seq<u64>),
    Buffer(u32, u64),
}

/// The shape of one bound resource.
pub open spec fn bind_resource_view(r: BindResource) -> BindResourceView {
    match r {
        BindResource::Sampler(b, s) => BindResourceView::Sampler(b, s),
        BindResource::TextureView(b, v) => BindResourceView::TextureView(b, v),
        BindResource::TextureViewArray(b, vs) => BindResourceView::TextureViewArray(b, vs@),
        BindResource::Buffer(b, u) => BindResourceView::Buffer(b, u),
    }
}

/// The shape of a resource list.
pub open spec fn bind_resource_views(s: Seq<BindResource>) -> Seq<BindResourceView> {
    s.map_values(|r: BindResource| bind_resource_view(r))
}

impl BindGroup {
    /// A fresh builder.
    pub fn builder() -> (r: BindGroupBuilder)
        ensures
            r.label is None,
            r.layout_entries@ == Seq::<LayoutEntry>::empty(),
    {
        BindGroupBuilder::new()
    }

    /// Identity of the bind-group object.
    pub fn raw(&self) -> (r: u64)
        ensures
            r == self.id,
    {
        self.id
    }

    /// The layout the group was created against.
    pub fn layout(&self) -> (r: &BindGroupLayout)
        ensures
            r == &self.layout,
    {
        &self.layout
    }
}

/// Fluent assembly of a bind-group layout, slot by slot.
pub struct BindGroupBuilder {
    /// Diagnostic label.
    pub label: Option<String>,
    /// The slots declared so far.
    pub layout_entries: Vec<LayoutEntry>,
}

impl BindGroupBuilder {
    /// No label, no slots.
    pub fn new() -> (r: BindGroupBuilder)
        ensures
            r.label is None,
            r.layout_entries@ == Seq::<LayoutEntry>::empty(),
    {
        BindGroupBuilder { label: None, layout_entries: Vec::new() }
    }

    /// Label the group.
    pub fn label(self, label: &str) -> (r: Self)
        ensures
            r.label matches Some(l) && l@ == label@,
            r.layout_entries@ == self.layout_entries@,
    {
        BindGroupBuilder { label: Some(label.to_owned()), ..self }
    }

    /// Declare a uniform-buffer slot.
    pub fn uniform(self, binding: u32, visibility: u32) -> (r: Self)
        ensures
            r.label == self.label,
            r.layout_entries@ == self.layout_entries@.push(
                LayoutEntry { binding, visibility, ty: BindingType::Uniform },
            ),
    {
        let mut entries = self.layout_entries;
        entries.push(LayoutEntry { binding, visibility, ty: BindingType::Uniform });
        BindGroupBuilder { label: self.label, layout_entries: entries }
    }

    /// Declare a read-only storage-buffer slot.
    pub fn storage(self, binding: u32, visibility: u32) -> (r: Self)
        ensures
            r.label == self.label,
            r.layout_entries@ == self.layout_entries@.push(
                LayoutEntry { binding, visibility, ty: BindingType::Storage { read_only: true } },
            ),
    {
        let mut entries = self.layout_entries;
        entries.push(
            LayoutEntry { binding, visibility, ty: BindingType::Storage { read_only: true } },
        );
        BindGroupBuilder { label: self.label, layout_entries: entries }
    }

    /// Declare a writable storage-buffer slot.
    pub fn storage_read_write(self, binding: u32, visibility: u32) -> (r: Self)
        ensures
            r.label == self.label,
            r.layout_entries@ == self.layout_entries@.push(
                LayoutEntry { binding, visibility, ty: BindingType::Storage { read_only: false } },
            ),
    {
        let mut entries = self.layout_entries;
        entries.push(
            LayoutEntry { binding, visibility, ty: BindingType::Storage { read_only: false } },
        );
        BindGroupBuilder { label: self.label, layout_entries: entries }
    }

    /// Declare a sampled-texture slot.
    pub fn texture(self, binding: u32, visibility: u32) -> (r: Self)
        ensures
            r.label == self.label,
            r.layout_entries@ == self.layout_entries@.push(
                LayoutEntry { binding, visibility, ty: BindingType::Texture },
            ),
    {
        let mut entries = self.layout_entries;
        entries.push(LayoutEntry { binding, visibility, ty: BindingType::Texture });
        BindGroupBuilder { label: self.label, layout_entries: entries }
    }

    /// Declare a comparison-sampled depth-texture slot.
    pub fn texture_depth(self, binding: u32, visibility: u32) -> (r: Self)
        ensures
            r.label == self.label,
            r.layout_entries@ == self.layout_entries@.push(
                LayoutEntry { binding, visibility, ty: BindingType::DepthTexture },
            ),
    {
        let mut entries = self.layout_entries;
        entries.push(LayoutEntry { binding, visibility, ty: BindingType::DepthTexture });
        BindGroupBuilder { label: self.label, layout_entries: entries }
    }

    /// Declare a filtering-sampler slot.
    pub fn sampler(self, binding: u32, visibility: u32) -> (r: Self)
        ensures
            r.label == self.label,
            r.layout_entries@ == self.layout_entries@.push(
                LayoutEntry { binding, visibility, ty: BindingType::Sampler },
            ),
    {
        let mut entries = self.layout_entries;
        entries.push(LayoutEntry { binding, visibility, ty: BindingType::Sampler });
        BindGroupBuilder { label: self.label, layout_entries: entries }
    }

    /// Declare a comparison-sampler slot.
    pub fn sampler_comparison(self, binding: u32, visibility: u32) -> (r: Self)
        ensures
            r.label == self.label,
            r.layout_entries@ == self.layout_entries@.push(
                LayoutEntry { binding, visibility, ty: BindingType::ComparisonSampler },
            ),
    {
        let mut entries = self.layout_entries;
        entries.push(LayoutEntry { binding, visibility, ty: BindingType::ComparisonSampler });
        BindGroupBuilder { label: self.label, layout_entries: entries }
    }

    /// Declare a texture-array slot of `count` textures.
    pub fn texture_array(self, binding: u32, visibility: u32, count: u32) -> (r: Self)
        ensures
            r.label == self.label,
            r.layout_entries@ == self.layout_entries@.push(
                LayoutEntry { binding, visibility, ty: BindingType::TextureArray { count } },
            ),
    {
        let mut entries = self.layout_entries;
        entries.push(LayoutEntry { binding, visibility, ty: BindingType::TextureArray { count } });
        BindGroupBuilder { label: self.label, layout_entries: entries }
    }

    /// Create the layout and a bind group filling its slots with the given
    /// resources.
    pub fn build(self, ctx: &mut GpuContext, resources: Vec<BindResource>) -> (r: Result<
        BindGroup,
        RenderError,
    >)
        requires
            old(ctx).can_alloc(2),
        ensures
            r matches Ok(bg) && bg.layout.id == old(ctx).next_id && bg.id == old(ctx).next_id + 1
                && bg.layout.entries@ == self.layout_entries@ && bg.resources == resources
                && bg.label == self.label,
            final(ctx).next_id == old(ctx).next_id + 2,
            final(ctx).features == old(ctx).features,
            final(ctx).limits == old(ctx).limits,
            final(ctx).device_label == old(ctx).device_label,
            final(ctx).submitted == old(ctx).submitted,
    {
        let layout_id = ctx.fresh_id();
        let group_id = ctx.fresh_id();
        Ok(
            BindGroup {
                id: group_id,
                label: self.label,
                layout: BindGroupLayout { id: layout_id, entries: self.layout_entries },
                resources,
            },
        )
    }

    /// Create the layout alone, for pipelines built before any group exists.
    pub fn layout_only(self, ctx: &mut GpuContext) -> (r: BindGroupLayout)
        requires
            old(ctx).can_alloc(1),
        ensures
            r.id == old(ctx).next_id,
            r.entries@ == self.layout_entries@,
            final(ctx).next_id == old(ctx).next_id + 1,
            final(ctx).features == old(ctx).features,
            final(ctx).limits == old(ctx).limits,
            final(ctx).device_label == old(ctx).device_label,
            final(ctx).submitted == old(ctx).submitted,
    {
        let id = ctx.fresh_id();
        BindGroupLayout { id, entries: self.layout_entries }
    }
}

impl Default for BindGroupBuilder {
    /// No label, no slots, as [`BindGroupBuilder::new`].
    fn default() -> (r: Self)
        ensures
            r.label is None,
            r.layout_entries@ == Seq::<LayoutEntry>::empty(),
    {
        BindGroupBuilder::new()
    }
}

} // verus!
