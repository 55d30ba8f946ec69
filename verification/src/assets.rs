//! The asset manager: path-keyed mesh and texture caches, and the
//! fixed-capacity texture-slot table bound once as a texture array.
//!
//! Slot 0 is reserved for the default white texture. Registering a texture
//! under a name it already carries returns the existing slot and changes
//! nothing; registering a fresh name appends it — the slot index is the
//! registration order — and marks the exposed bind group stale. The bind
//! group is rebuilt by the one cleaning step, which must run each frame
//! before any draw samples the array; when the flag is clear, the bind
//! group always references the current slot contents.

use vstd::prelude::*;

verus! {

use crate::bind_group::{
    bind_resource_views, BindGroup, BindGroupBuilder, BindGroupLayout, BindResource,
    BindResourceView, BindingType, LayoutEntry, STAGE_FRAGMENT,
};
use crate::cache::{
    same_mesh, same_texture, table_distinct, table_find, MeshCache, TextureCache,
};
use crate::components::Material;
use crate::gltf::{DecodedImage, GltfMaterial, GltfMeshData};
use crate::gpu::GpuContext;
use crate::mesh::GpuMesh;
use crate::texture::{
    AddressMode, FilterMode, GpuTexture, SamplerConfig, TextureSampler,
};

/// How many texture slots the array holds, slot 0 included.
pub const MAX_TEXTURES: usize = 512;

/// Bit pattern of the single-precision float 32.0, the default upper
/// level-of-detail clamp of the backing API.
pub const F32_BITS_THIRTY_TWO: u32 = 0x4200_0000;

/// The abstract state of the texture-slot table: the slot identities, the
/// registered names in registration order, the identities the exposed bind
/// group references, and the staleness flag.
pub struct TextureTableState {
    pub slot_ids: Seq<u64>,
    pub names: Seq<Seq<char>>,
    pub group_ids: Seq<u64>,
    pub dirty: bool,
}

/// The first position of `name` in `names`.
pub open spec fn first_index_of(names: Seq<Seq<char>>, name: Seq<char>) -> Option<int>
    decreases names.len(),
{
    if names.len() == 0 {
        None
    } else if names[0] == name {
        Some(0)
    } else {
        match first_index_of(names.drop_first(), name) {
            Some(i) => Some(i + 1),
            None => None,
        }
    }
}

/// Whether a registration can be accepted: the name is already registered,
/// or a slot below the capacity is still free.
pub open spec fn spec_register_fits(st: TextureTableState, name: Seq<char>) -> bool {
    first_index_of(st.names, name) is Some || st.names.len() + 1 < MAX_TEXTURES
}

/// Registering a texture: a known name returns its slot and changes
/// nothing; a fresh name takes the next slot — the count of names
/// registered before it, plus one for the reserved slot — and marks the
/// bind group stale.
pub open spec fn spec_register(st: TextureTableState, tex_id: u64, name: Seq<char>) -> (
    TextureTableState,
    u32,
) {
    match first_index_of(st.names, name) {
        Some(i) => (st, (i + 1) as u32),
        None => {
            let idx = st.names.len() + 1;
            (
                TextureTableState {
                    slot_ids: st.slot_ids.update(idx as int, tex_id),
                    names: st.names.push(name),
                    group_ids: st.group_ids,
                    dirty: true,
                },
                idx as u32,
            )
        },
    }
}

/// The cleaning step: a stale table rebuilds the bind group from the
/// current slots and becomes clean; a clean table is untouched.
pub open spec fn spec_update_bindings(st: TextureTableState) -> TextureTableState {
    if st.dirty {
        TextureTableState { group_ids: st.slot_ids, dirty: false, ..st }
    } else {
        st
    }
}

/// Registering the same name twice returns the identical slot both times,
/// and the second registration changes nothing — whatever texture it
/// carries.
pub proof fn lemma_register_same_name_idempotent(
    st: TextureTableState,
    t1: u64,
    t2: u64,
    name: Seq<char>,
)
    ensures
        ({
            let (st1, i1) = spec_register(st, t1, name);
            let (st2, i2) = spec_register(st1, t2, name);
            i2 == i1 && st2 == st1 && st2.names.len() == st1.names.len()
        }),
{
    let (st1, i1) = spec_register(st, t1, name);
    match first_index_of(st.names, name) {
        Some(i) => {},
        None => {
            lemma_first_index_push(st.names, name, name);
        },
    }
}

/// The capacity boundary for a fresh name: its slot index would be the
/// count of names registered before it, plus one for the reserved slot.
/// Registration is refused exactly when that index reaches the capacity —
/// at the boundary itself, and never before: any table with the index
/// still below the capacity accepts the name at that index.
pub proof fn lemma_register_capacity_boundary(st: TextureTableState, name: Seq<char>)
    requires
        first_index_of(st.names, name) is None,
    ensures
        st.names.len() + 1 < MAX_TEXTURES ==> spec_register_fits(st, name),
        st.names.len() + 1 >= MAX_TEXTURES ==> !spec_register_fits(st, name),
        st.names.len() + 1 < MAX_TEXTURES ==> (forall|t: u64| #![auto]
            spec_register(st, t, name).1 == st.names.len() + 1),
{
}

/// A found name stands inside the list.
proof fn lemma_first_index_bounds(names: Seq<Seq<char>>, k: Seq<char>)
    requires
        first_index_of(names, k) is Some,
    ensures
        0 <= first_index_of(names, k).unwrap() < names.len(),
    decreases names.len(),
{
    if names.len() != 0 && names[0] != k {
        lemma_first_index_bounds(names.drop_first(), k);
    }
}

/// The cleaning step is idempotent: after one cleaning the table is clean,
/// so a second cleaning without intervening registrations leaves the bind
/// group referencing the same slot contents — it changes nothing at all.
pub proof fn lemma_update_bindings_idempotent(st: TextureTableState)
    ensures
        spec_update_bindings(spec_update_bindings(st)) == spec_update_bindings(st),
        spec_update_bindings(st).group_ids == if st.dirty {
            st.slot_ids
        } else {
            st.group_ids
        },
{
}

/// Appending a name: a name already present keeps its position; the new
/// name lands at the end; any other name stays absent.
proof fn lemma_first_index_push(names: Seq<Seq<char>>, x: Seq<char>, k: Seq<char>)
    ensures
        first_index_of(names.push(x), k) == if first_index_of(names, k) is Some {
            first_index_of(names, k)
        } else if x == k {
            Some(names.len() as int)
        } else {
            None
        },
    decreases names.len(),
{
    if names.len() == 0 {
        assert(names.push(x)[0] == x);
        assert(names.push(x).drop_first() =~= Seq::<Seq<char>>::empty());
        assert(first_index_of(Seq::<Seq<char>>::empty(), k) is None);
    } else {
        assert(names.push(x)[0] == names[0]);
        assert(names.push(x).drop_first() =~= names.drop_first().push(x));
        lemma_first_index_push(names.drop_first(), x, k);
    }
}

/// A name first found at `i`, with no occurrence before it.
proof fn lemma_first_index_at(names: Seq<Seq<char>>, i: int, k: Seq<char>)
    requires
        0 <= i < names.len(),
        names[i] == k,
        forall|j: int| 0 <= j < i ==> names[j] != k,
    ensures
        first_index_of(names, k) == Some(i),
    decreases i,
{
    if i == 0 {
    } else {
        assert(names.drop_first()[i - 1] == names[i]);
        assert forall|j: int| 0 <= j < i - 1 implies names.drop_first()[j] != k by {
            assert(names.drop_first()[j] == names[j + 1]);
        }
        lemma_first_index_at(names.drop_first(), i - 1, k);
    }
}

/// A name is absent exactly when no position holds it.
proof fn lemma_first_index_none_iff(names: Seq<Seq<char>>, k: Seq<char>)
    ensures
        (first_index_of(names, k) is None) <==> (forall|j: int|
            0 <= j < names.len() ==> names[j] != k),
    decreases names.len(),
{
    if names.len() != 0 {
        lemma_first_index_none_iff(names.drop_first(), k);
        if first_index_of(names, k) is None {
            assert forall|j: int| 0 <= j < names.len() implies names[j] != k by {
                if j > 0 {
                    assert(names.drop_first()[j - 1] == names[j]);
                }
            }
        }
        if forall|j: int| 0 <= j < names.len() ==> names[j] != k {
            assert forall|j: int| 0 <= j < names.drop_first().len() implies names.drop_first()[j]
                != k by {
                assert(names.drop_first()[j] == names[j + 1]);
            }
        }
    }
}

/// The deduplicating asset manager and its fixed-capacity texture-slot
/// table.
pub struct AssetManager {
    /// The path-keyed mesh cache.
    pub meshes: MeshCache,
    /// The path-keyed texture cache.
    pub textures: TextureCache,
    /// The texture slots; slot 0 holds the default white texture, and
    /// unregistered slots repeat it.
    pub texture_slots: Vec<GpuTexture>,
    /// Names to slot indices, in registration order: the entry at position
    /// `j` carries slot `j + 1`.
    pub texture_index_map: Vec<(String, u32)>,
    /// The bind group exposing the slot table and its sampler.
    pub texture_bind_group: BindGroup,
    /// The sampler the array is sampled with.
    pub sampler: TextureSampler,
    /// Whether the bind group is stale with respect to the slots.
    pub bind_group_dirty: bool,
}

impl AssetManager {
    /// The identities of the slot textures, in slot order.
    pub open spec fn slot_ids(self) -> Seq<u64> {
        self.texture_slots@.map_values(|t: GpuTexture| t.id)
    }

    /// The registered names, in registration order.
    pub open spec fn names(self) -> Seq<Seq<char>> {
        self.texture_index_map@.map_values(|e: (String, u32)| e.0@)
    }

    /// The identities the exposed bind group references.
    pub open spec fn group_ids(self) -> Seq<u64> {
        match bind_resource_views(self.texture_bind_group.resources@)[0] {
            BindResourceView::TextureViewArray(_, ids) => ids,
            _ => Seq::empty(),
        }
    }

    /// The abstract state of the slot table.
    pub open spec fn spec_state(self) -> TextureTableState {
        TextureTableState {
            slot_ids: self.slot_ids(),
            names: self.names(),
            group_ids: self.group_ids(),
            dirty: self.bind_group_dirty,
        }
    }

    /// The shape every bind group of the table has: the 512-slot texture
    /// array at binding 0 and the sampler at binding 1, fragment-visible.
    pub open spec fn group_shape(self) -> bool {
        &&& self.texture_bind_group.layout.entries@ == seq![
            LayoutEntry {
                binding: 0u32,
                visibility: STAGE_FRAGMENT,
                ty: BindingType::TextureArray { count: MAX_TEXTURES as u32 },
            },
            LayoutEntry { binding: 1u32, visibility: STAGE_FRAGMENT, ty: BindingType::Sampler },
        ]
        &&& bind_resource_views(self.texture_bind_group.resources@).len() == 2
        &&& bind_resource_views(self.texture_bind_group.resources@)[0] matches
            BindResourceView::TextureViewArray(b, ids) && b == 0 && ids.len() == MAX_TEXTURES
        &&& bind_resource_views(self.texture_bind_group.resources@)[1]
            == BindResourceView::Sampler(1u32, self.sampler.id)
    }

    /// Well-formedness: the caches are well formed, the slot table has
    /// exactly the capacity, names are distinct and their values are the
    /// registration order, the table is never full beyond its capacity,
    /// the bind group has the array shape — and, whenever the staleness
    /// flag is clear, the bind group references exactly the current slots.
    pub open spec fn wf(self) -> bool {
        &&& self.meshes.wf()
        &&& self.textures.wf()
        &&& self.texture_slots@.len() == MAX_TEXTURES
        &&& table_distinct(self.texture_index_map@)
        &&& self.texture_index_map@.len() < MAX_TEXTURES
        &&& (forall|j: int|
            0 <= j < self.texture_index_map@.len() ==> #[trigger] self.texture_index_map@[j].1
                == j + 1)
        &&& self.group_shape()
        &&& (!self.bind_group_dirty ==> self.group_ids() == self.slot_ids())
    }

    /// A fresh manager: empty caches, every slot holding the default
    /// texture — one by one pixel, opaque white — no name registered, and
    /// a clean bind group over the default slots.
    pub fn new(ctx: &mut GpuContext) -> (r: AssetManager)
        requires
            old(ctx).can_alloc(4),
        ensures
            r.wf(),
            !r.bind_group_dirty,
            r.names().len() == 0,
            r.meshes.entries@.len() == 0,
            r.textures.entries@.len() == 0,
            forall|j: int| 0 <= j < MAX_TEXTURES ==> #[trigger] r.slot_ids()[j] == old(
                ctx,
            ).next_id,
            forall|j: int| 0 <= j < MAX_TEXTURES ==> (#[trigger] r.texture_slots@[j]).size == (
                crate::texture::Extent3d { width: 1u32, height: 1u32, depth_or_array_layers: 1u32 }
            ) && r.texture_slots@[j].format == crate::texture::TextureFormat::Rgba8UnormSrgb
                && r.texture_slots@[j].data@ == seq![255u8, 255u8, 255u8, 255u8],
            final(ctx).next_id == old(ctx).next_id + 4,
            final(ctx).features == old(ctx).features,
            final(ctx).limits == old(ctx).limits,
            final(ctx).device_label == old(ctx).device_label,
            final(ctx).submitted == old(ctx).submitted,
    {
        let mut white: Vec<u8> = Vec::new();
        white.push(255);
        white.push(255);
        white.push(255);
        white.push(255);
        proof {
            assert(white@ =~= seq![255u8, 255u8, 255u8, 255u8]);
        }
        let default_texture = GpuTexture::from_rgba(ctx, 1, 1, white, Some("default_white_texture"));

        let mut texture_slots: Vec<GpuTexture> = Vec::new();
        let mut i: usize = 0;
        while i < MAX_TEXTURES
            invariant
                i <= MAX_TEXTURES,
                texture_slots@.len() == i,
                forall|j: int| 0 <= j < i ==> (#[trigger] texture_slots@[j]).id
                    == default_texture.id && texture_slots@[j].size == default_texture.size
                    && texture_slots@[j].format == default_texture.format
                    && texture_slots@[j].data@ == default_texture.data@,
            decreases MAX_TEXTURES - i,
        {
            texture_slots.push(default_texture.clone());
            i = i + 1;
        }

        let sampler_id = ctx.fresh_id();
        let sampler = TextureSampler {
            id: sampler_id,
            config: SamplerConfig {
                address_mode: AddressMode::Repeat,
                mag_filter: FilterMode::Linear,
                min_filter: FilterMode::Linear,
                mipmap_filter: FilterMode::Linear,
                lod_min_clamp: 0,
                lod_max_clamp: F32_BITS_THIRTY_TWO,
                compare: None,
            },
        };

        let texture_bind_group = build_texture_bind_group(ctx, &texture_slots, &sampler);

        let r = AssetManager {
            meshes: MeshCache::new(),
            textures: TextureCache::new(),
            texture_slots,
            texture_index_map: Vec::new(),
            texture_bind_group,
            sampler,
            bind_group_dirty: false,
        };
        proof {
            assert(r.names() =~= Seq::<Seq<char>>::empty());
            assert(r.group_ids() =~= r.slot_ids());
        }
        r
    }

    /// Register a texture under a name. A name already registered returns
    /// its existing slot and changes nothing; a fresh name takes the next
    /// slot and marks the bind group stale. The caller keeps within the
    /// capacity — exceeding it is a design-time asset-budget violation, and
    /// [`AssetManager::try_register_texture_for_rendering`] reports it
    /// instead.
    pub fn register_texture_for_rendering(&mut self, texture: &GpuTexture, name: String) -> (r: u32)
        requires
            old(self).wf(),
            spec_register_fits(old(self).spec_state(), name@),
        ensures
            final(self).wf(),
            (final(self).spec_state(), r) == spec_register(
                old(self).spec_state(),
                texture.id,
                name@,
            ),
            first_index_of(old(self).names(), name@) is None ==> same_texture(
                final(self).texture_slots@[r as int],
                *texture,
            ),
            final(self).meshes == old(self).meshes,
            final(self).textures == old(self).textures,
            final(self).sampler == old(self).sampler,
    {
        match self.try_register_texture_for_rendering(texture, name) {
            Some(index) => index,
            None => {
                proof {
                    assert(false);
                }
                vstd::pervasive::unreached()
            },
        }
    }

    /// Register a texture under a name, reporting a table past its
    /// capacity: the result is absent exactly when the name is fresh and
    /// its slot index would reach the capacity — at the boundary, never
    /// before. This is fatal to rendering setup: the design-time asset
    /// budget was violated.
    pub fn try_register_texture_for_rendering(&mut self, texture: &GpuTexture, name: String) -> (r:
        Option<u32>)
        requires
            old(self).wf(),
        ensures
            final(self).wf(),
            r is None <==> (first_index_of(old(self).names(), name@) is None && old(
                self,
            ).names().len() + 1 >= MAX_TEXTURES),
            r is None ==> *final(self) == *old(self),
            r matches Some(index) ==> (final(self).spec_state(), index) == spec_register(
                old(self).spec_state(),
                texture.id,
                name@,
            ) && (first_index_of(old(self).names(), name@) is None ==> same_texture(
                final(self).texture_slots@[index as int],
                *texture,
            )),
            final(self).meshes == old(self).meshes,
            final(self).textures == old(self).textures,
            final(self).sampler == old(self).sampler,
    {
        let mut i: usize = 0;
        while i < self.texture_index_map.len()
            invariant
                i <= self.texture_index_map@.len(),
                *self == *old(self),
                old(self).wf(),
                forall|j: int| 0 <= j < i ==> self.texture_index_map@[j].0@ != name@,
            decreases self.texture_index_map@.len() - i,
        {
            if self.texture_index_map[i].0 == name {
                proof {
                    assert(self.names()[i as int] == name@);
                    assert forall|j: int| 0 <= j < i implies self.names()[j] != name@ by {
                        assert(self.names()[j] == self.texture_index_map@[j].0@);
                    }
                    lemma_first_index_at(self.names(), i as int, name@);
                }
                return Some(self.texture_index_map[i].1);
            }
            i = i + 1;
        }
        proof {
            assert forall|j: int| 0 <= j < self.names().len() implies self.names()[j] != name@ by {
                assert(self.names()[j] == self.texture_index_map@[j].0@);
            }
            lemma_first_index_none_iff(self.names(), name@);
        }

        let next = self.texture_index_map.len() + 1;
        if next >= MAX_TEXTURES {
            return None;
        }
        let index = next as u32;

        let ghost slots_old = self.texture_slots@;
        let ghost map_old = self.texture_index_map@;
        self.texture_slots.set(next, texture.clone());
        self.texture_index_map.push((name, index));
        self.bind_group_dirty = true;
        proof {
            assert(self.slot_ids() =~= slots_old.map_values(|t: GpuTexture| t.id).update(
                next as int,
                texture.id,
            ));
            assert(self.names() =~= map_old.map_values(|e: (String, u32)| e.0@).push(
                self.texture_index_map@.last().0@,
            ));
            assert(self.texture_index_map@.last().0@ == name@);
            assert forall|j: int|
                0 <= j < self.texture_index_map@.len() implies #[trigger] self.texture_index_map@[j].1
                == j + 1 by {
                if j < map_old.len() {
                    assert(self.texture_index_map@[j] == map_old[j]);
                }
            }
            assert forall|a: int, b: int| #![trigger self.texture_index_map@[a], self.texture_index_map@[b]]
                0 <= a < b < self.texture_index_map@.len() implies self.texture_index_map@[a].0@
                != self.texture_index_map@[b].0@ by {
                if b == self.texture_index_map@.len() - 1 {
                    assert(self.texture_index_map@[a] == map_old[a]);
                    assert(self.names()[a] == self.texture_index_map@[a].0@);
                } else {
                    assert(self.texture_index_map@[a] == map_old[a]);
                    assert(self.texture_index_map@[b] == map_old[b]);
                }
            }
            assert(self.group_ids() =~= old(self).group_ids());
        }
        Some(index)
    }

    /// The one cleaning step: when the bind group is stale, rebuild it from
    /// the current slots and clear the flag; when it is clean, change
    /// nothing at all. Run once per frame, before any draw samples the
    /// array, so the group the GPU sees matches the slot table of that
    /// frame.
    pub fn update_texture_bindings(&mut self, ctx: &mut GpuContext)
        requires
            old(self).wf(),
            old(self).bind_group_dirty ==> old(ctx).can_alloc(2),
        ensures
            final(self).wf(),
            !final(self).bind_group_dirty,
            final(self).spec_state() == spec_update_bindings(old(self).spec_state()),
            final(self).group_ids() == old(self).slot_ids(),
            !old(self).bind_group_dirty ==> *final(self) == *old(self) && *final(ctx) == *old(
                ctx,
            ),
            final(self).meshes == old(self).meshes,
            final(self).textures == old(self).textures,
            final(self).texture_slots == old(self).texture_slots,
            final(self).texture_index_map == old(self).texture_index_map,
            final(self).sampler == old(self).sampler,
            final(ctx).features == old(ctx).features,
            final(ctx).limits == old(ctx).limits,
            final(ctx).device_label == old(ctx).device_label,
            final(ctx).submitted == old(ctx).submitted,
            old(self).bind_group_dirty ==> final(ctx).next_id == old(ctx).next_id + 2,
            !old(self).bind_group_dirty ==> final(ctx).next_id == old(ctx).next_id,
    {
        if self.bind_group_dirty {
            self.texture_bind_group = build_texture_bind_group(
                ctx,
                &self.texture_slots,
                &self.sampler,
            );
            self.bind_group_dirty = false;
        }
    }

    /// The bind group exposing the slot table; when the staleness flag is
    /// clear it references exactly the current slots.
    pub fn texture_bind_group(&self) -> (r: &BindGroup)
        ensures
            r == &self.texture_bind_group,
    {
        &self.texture_bind_group
    }

    /// The layout of the slot-table bind group.
    pub fn texture_bind_group_layout(&self) -> (r: &BindGroupLayout)
        ensures
            r == &self.texture_bind_group.layout,
    {
        &self.texture_bind_group.layout
    }

    /// The texture in a slot, as a shared handle; absent past the capacity.
    pub fn get_texture_by_index(&self, index: u32) -> (r: Option<GpuTexture>)
        ensures
            index < self.texture_slots@.len() ==> (r matches Some(t) && same_texture(
                t,
                self.texture_slots@[index as int],
            )),
            index >= self.texture_slots@.len() ==> r is None,
    {
        if (index as usize) < self.texture_slots.len() {
            Some(self.texture_slots[index as usize].clone())
        } else {
            None
        }
    }

    /// Load a mesh decoded from a path, as [`MeshCache::load_decoded`].
    pub fn load_mesh(&mut self, ctx: &mut GpuContext, path: &String, data: &GltfMeshData) -> (r:
        GpuMesh)
        requires
            old(self).wf(),
            old(ctx).can_alloc(2),
            data.indices@.len() <= u32::MAX,
        ensures
            final(self).wf(),
            match old(self).meshes.spec_get(path@) {
                Some(m) => same_mesh(r, m) && *final(self) == *old(self) && *final(ctx) == *old(
                    ctx,
                ),
                None => final(ctx).next_id == old(ctx).next_id + 2 && r.index_count
                    == data.indices@.len(),
            },
            match final(self).meshes.spec_get(path@) {
                Some(m2) => same_mesh(m2, r),
                None => false,
            },
            final(self).spec_state() == old(self).spec_state(),
            final(self).textures == old(self).textures,
            final(ctx).features == old(ctx).features,
            final(ctx).limits == old(ctx).limits,
            final(ctx).device_label == old(ctx).device_label,
            final(ctx).submitted == old(ctx).submitted,
    {
        self.meshes.load_decoded(ctx, path, data)
    }

    /// Look a mesh path up, as [`MeshCache::get`].
    pub fn get_mesh(&self, path: &String) -> (r: Option<GpuMesh>)
        ensures
            match self.meshes.spec_get(path@) {
                Some(m) => r matches Some(g) && same_mesh(g, m),
                None => r is None,
            },
    {
        self.meshes.get(path)
    }

    /// Drop a cached mesh, as [`MeshCache::unload`].
    pub fn unload_mesh(&mut self, path: &String) -> (r: bool)
        requires
            old(self).wf(),
        ensures
            final(self).wf(),
            r == (old(self).meshes.spec_get(path@) is Some),
            final(self).meshes.spec_get(path@) is None,
            final(self).spec_state() == old(self).spec_state(),
    {
        self.meshes.unload(path)
    }

    /// Load a texture decoded from a path, as [`TextureCache::load_decoded`].
    pub fn load_texture(&mut self, ctx: &mut GpuContext, path: &String, img: &DecodedImage) -> (r:
        GpuTexture)
        requires
            old(self).wf(),
            old(ctx).can_alloc(1),
            img.data@.len() == 4 * img.width * img.height,
        ensures
            final(self).wf(),
            match old(self).textures.spec_get(path@) {
                Some(t) => same_texture(r, t) && *final(self) == *old(self) && *final(ctx) == *old(
                    ctx,
                ),
                None => final(ctx).next_id == old(ctx).next_id + 1,
            },
            match final(self).textures.spec_get(path@) {
                Some(t2) => same_texture(t2, r),
                None => false,
            },
            final(self).spec_state() == old(self).spec_state(),
            final(self).meshes == old(self).meshes,
            final(ctx).features == old(ctx).features,
            final(ctx).limits == old(ctx).limits,
            final(ctx).device_label == old(ctx).device_label,
            final(ctx).submitted == old(ctx).submitted,
    {
        self.textures.load_decoded(ctx, path, img)
    }

    /// Look a texture path up, as [`TextureCache::get`].
    pub fn get_texture(&self, path: &String) -> (r: Option<GpuTexture>)
        ensures
            match self.textures.spec_get(path@) {
                Some(t) => r matches Some(g) && same_texture(g, t),
                None => r is None,
            },
    {
        self.textures.get(path)
    }

    /// Drop a cached texture, as [`TextureCache::unload`].
    pub fn unload_texture(&mut self, path: &String) -> (r: bool)
        requires
            old(self).wf(),
        ensures
            final(self).wf(),
            r == (old(self).textures.spec_get(path@) is Some),
            final(self).textures.spec_get(path@) is None,
            final(self).spec_state() == old(self).spec_state(),
    {
        self.textures.unload(path)
    }

    /// Load a texture from a path and register it for rendering under the
    /// path itself: the cache deduplicates the upload, and registration
    /// deduplicates the slot. Returns the slot index.
    pub fn load_texture_for_rendering(
        &mut self,
        ctx: &mut GpuContext,
        path: &String,
        img: &DecodedImage,
    ) -> (r: u32)
        requires
            old(self).wf(),
            old(ctx).can_alloc(1),
            img.data@.len() == 4 * img.width * img.height,
            spec_register_fits(old(self).spec_state(), path@),
        ensures
            final(self).wf(),
            first_index_of(old(self).names(), path@) matches Some(i) ==> r == i + 1
                && final(self).spec_state() == old(self).spec_state(),
            final(self).names() == if first_index_of(old(self).names(), path@) is Some {
                old(self).names()
            } else {
                old(self).names().push(path@)
            },
            first_index_of(old(self).names(), path@) is None ==> {
                &&& r == old(self).names().len() + 1
                &&& final(self).bind_group_dirty
                &&& final(self).slot_ids()[r as int] == match old(self).textures.spec_get(path@) {
                    Some(t) => t.id,
                    None => old(ctx).next_id,
                }
                &&& (final(self).textures.spec_get(path@) matches Some(t)
                    && t.id == final(self).slot_ids()[r as int])
            },
            final(ctx).features == old(ctx).features,
            final(ctx).limits == old(ctx).limits,
            final(ctx).device_label == old(ctx).device_label,
            final(ctx).submitted == old(ctx).submitted,
    {
        let mut i: usize = 0;
        while i < self.texture_index_map.len()
            invariant
                i <= self.texture_index_map@.len(),
                *self == *old(self),
                old(self).wf(),
                forall|j: int| 0 <= j < i ==> self.texture_index_map@[j].0@ != path@,
            decreases self.texture_index_map@.len() - i,
        {
            if self.texture_index_map[i].0 == *path {
                proof {
                    assert(self.names()[i as int] == path@);
                    assert forall|j: int| 0 <= j < i implies self.names()[j] != path@ by {
                        assert(self.names()[j] == self.texture_index_map@[j].0@);
                    }
                    lemma_first_index_at(self.names(), i as int, path@);
                }
                return self.texture_index_map[i].1;
            }
            i = i + 1;
        }
        proof {
            assert forall|j: int| 0 <= j < self.names().len() implies self.names()[j] != path@ by {
                assert(self.names()[j] == self.texture_index_map@[j].0@);
            }
            lemma_first_index_none_iff(self.names(), path@);
        }

        let texture = self.textures.load_decoded(ctx, path, img);
        let index = self.register_texture_for_rendering(&texture, path.clone());
        index
    }

    /// Turn a scene-file material into an engine material: with a decoded
    /// base-color texture, upload and register it under `slot_name` and
    /// point the material at its slot; otherwise carry the color factor.
    pub fn load_material_from_gltf(
        &mut self,
        ctx: &mut GpuContext,
        gltf_material: &GltfMaterial,
        gltf_textures: &Vec<DecodedImage>,
        slot_name: String,
    ) -> (r: Material)
        requires
            old(self).wf(),
            old(ctx).can_alloc(1),
            spec_register_fits(old(self).spec_state(), slot_name@),
            forall|i: int| 0 <= i < gltf_textures@.len() ==> #[trigger] gltf_textures@[i].data@.len()
                == 4 * gltf_textures@[i].width * gltf_textures@[i].height,
        ensures
            final(self).wf(),
            match gltf_material.base_color_texture_index {
                Some(ti) => {
                    &&& (ti < gltf_textures@.len() ==> {
                        &&& r.texture_index > 0
                        &&& r.base_color == [
                            crate::camera::F32_BITS_ONE,
                            crate::camera::F32_BITS_ONE,
                            crate::camera::F32_BITS_ONE,
                            crate::camera::F32_BITS_ONE,
                        ]
                        &&& (final(self).spec_state(), r.texture_index) == spec_register(
                            old(self).spec_state(),
                            old(ctx).next_id,
                            slot_name@,
                        )
                        &&& final(ctx).next_id == old(ctx).next_id + 1
                    })
                    &&& (ti >= gltf_textures@.len() ==> r == (Material {
                        texture_index: 0u32,
                        base_color: gltf_material.base_color_factor,
                    }) && *final(self) == *old(self) && *final(ctx) == *old(ctx))
                },
                None => r == (Material {
                    texture_index: 0u32,
                    base_color: gltf_material.base_color_factor,
                }) && *final(self) == *old(self) && *final(ctx) == *old(ctx),
            },
    {
        match gltf_material.base_color_texture_index {
            Some(ti) => {
                if ti < gltf_textures.len() {
                    let img = &gltf_textures[ti];
                    let data = crate::bytes::copy_vec(&img.data);
                    let texture = GpuTexture::from_rgba(
                        ctx,
                        img.width,
                        img.height,
                        data,
                        Some(slot_name.as_str()),
                    );
                    let index = self.register_texture_for_rendering(&texture, slot_name);
                    proof {
                        if first_index_of(old(self).names(), slot_name@) is Some {
                            lemma_first_index_bounds(old(self).names(), slot_name@);
                        }
                    }
                    Material::new(index)
                } else {
                    Material::with_color(gltf_material.base_color_factor)
                }
            },
            None => Material::with_color(gltf_material.base_color_factor),
        }
    }
}

/// Build the slot-table bind group: the 512 slot views as the texture array
/// at binding 0, the sampler at binding 1, both fragment-visible.
fn build_texture_bind_group(
    ctx: &mut GpuContext,
    slots: &Vec<GpuTexture>,
    sampler: &TextureSampler,
) -> (r: BindGroup)
    requires
        old(ctx).can_alloc(2),
        slots@.len() == MAX_TEXTURES,
    ensures
        r.layout.entries@ == seq![
            LayoutEntry {
                binding: 0u32,
                visibility: STAGE_FRAGMENT,
                ty: BindingType::TextureArray { count: MAX_TEXTURES as u32 },
            },
            LayoutEntry { binding: 1u32, visibility: STAGE_FRAGMENT, ty: BindingType::Sampler },
        ],
        bind_resource_views(r.resources@) == seq![
            BindResourceView::TextureViewArray(0u32, slots@.map_values(|t: GpuTexture| t.id)),
            BindResourceView::Sampler(1u32, sampler.id),
        ],
        r.layout.id == old(ctx).next_id,
        r.id == old(ctx).next_id + 1,
        final(ctx).next_id == old(ctx).next_id + 2,
        final(ctx).features == old(ctx).features,
        final(ctx).limits == old(ctx).limits,
        final(ctx).device_label == old(ctx).device_label,
        final(ctx).submitted == old(ctx).submitted,
{
    let mut views: Vec<u64> = Vec::new();
    let mut i: usize = 0;
    while i < slots.len()
        invariant
            i <= slots@.len(),
            views@ == slots@.map_values(|t: GpuTexture| t.id).take(i as int),
        decreases slots@.len() - i,
    {
        views.push(slots[i].view());
        proof {
            let ids = slots@.map_values(|t: GpuTexture| t.id);
            assert(ids.take(i as int + 1) =~= ids.take(i as int).push(ids[i as int]));
        }
        i = i + 1;
    }
    proof {
        let ids = slots@.map_values(|t: GpuTexture| t.id);
        assert(ids.take(slots@.len() as int) =~= ids);
    }

    let mut resources: Vec<BindResource> = Vec::new();
    resources.push(BindResource::TextureViewArray(0, views));
    resources.push(BindResource::Sampler(1, sampler.raw()));
    let ghost resources_snap = resources@;

    let built = BindGroupBuilder::new().label("global_texture_array").texture_array(
        0,
        STAGE_FRAGMENT,
        MAX_TEXTURES as u32,
    ).sampler(1, STAGE_FRAGMENT).build(ctx, resources);
    let group = match built {
        Ok(bg) => bg,
        Err(_) => {
            proof {
                assert(false);
            }
            vstd::pervasive::unreached()
        },
    };
    proof {
        assert(group.layout.entries@ =~= seq![
            LayoutEntry {
                binding: 0u32,
                visibility: STAGE_FRAGMENT,
                ty: BindingType::TextureArray { count: MAX_TEXTURES as u32 },
            },
            LayoutEntry { binding: 1u32, visibility: STAGE_FRAGMENT, ty: BindingType::Sampler },
        ]);
        assert(bind_resource_views(group.resources@) =~= seq![
            BindResourceView::TextureViewArray(0u32, slots@.map_values(|t: GpuTexture| t.id)),
            BindResourceView::Sampler(1u32, sampler.id),
        ]);
    }
    group
}

} // verus!
