//! The per-frame lighting upload: a fixed-layout block of up to sixteen
//! point lights plus one directional light, recomputed wholesale from the
//! scene's light components each frame and uploaded with no partial
//! updates.

use vstd::prelude::*;

verus! {

use crate::bind_group::{
    bind_resource_views, BindGroup, BindGroupBuilder, BindGroupLayout, BindResource,
    BindResourceView, BindingType, LayoutEntry, STAGE_FRAGMENT,
};
use crate::buffer::{BufferData, UniformBuffer};
use crate::bytes::words_bytes;
use crate::camera::F32_BITS_ONE;
use crate::components::{DirectionalLight, PointLight};
use crate::gpu::GpuContext;

/// How many point lights the block holds.
pub const MAX_POINT_LIGHTS: usize = 16;

/// The size of the lighting block in bytes: sixteen point lights of twelve
/// words, the count word with three padding words, the directional light's
/// eight words, and four trailing padding words.
pub const LIGHTING_DATA_SIZE: usize = 832;

/// One point light as the shader reads it, every scalar a float bit
/// pattern.
#[derive(Clone, Copy, Debug, PartialEq, Eq)]
pub struct GpuPointLight {
    pub position: [u32; 4],
    pub color: [u32; 4],
    pub intensity: u32,
    pub radius: u32,
}

/// The directional light as the shader reads it.
#[derive(Clone, Copy, Debug, PartialEq, Eq)]
pub struct GpuDirectionalLight {
    pub direction: [u32; 3],
    pub color: [u32; 3],
    pub intensity: u32,
}

/// A point light with every channel zero.
pub open spec fn zero_point_light() -> GpuPointLight {
    GpuPointLight {
        position: [0u32, 0u32, 0u32, 0u32],
        color: [0u32, 0u32, 0u32, 0u32],
        intensity: 0u32,
        radius: 0u32,
    }
}

/// The directional light with every channel zero.
pub open spec fn zero_directional_light() -> GpuDirectionalLight {
    GpuDirectionalLight { direction: [0u32, 0u32, 0u32], color: [0u32, 0u32, 0u32], intensity: 0u32 }
}

/// The twelve words of one point light: position, color, intensity,
/// radius, two padding words.
pub open spec fn point_light_words(l: GpuPointLight) -> Seq<u32> {
    seq![
        l.position[0],
        l.position[1],
        l.position[2],
        l.position[3],
        l.color[0],
        l.color[1],
        l.color[2],
        l.color[3],
        l.intensity,
        l.radius,
        0u32,
        0u32,
    ]
}

/// The eight words of the directional light: direction, one padding word,
/// color, intensity.
pub open spec fn directional_light_words(d: GpuDirectionalLight) -> Seq<u32> {
    seq![
        d.direction[0],
        d.direction[1],
        d.direction[2],
        0u32,
        d.color[0],
        d.color[1],
        d.color[2],
        d.intensity,
    ]
}

/// The words of a point-light list, concatenated in order.
pub open spec fn point_lights_words(ls: Seq<GpuPointLight>) -> Seq<u32>
    decreases ls.len(),
{
    if ls.len() == 0 {
        Seq::empty()
    } else {
        point_light_words(ls[0]) + point_lights_words(ls.drop_first())
    }
}

proof fn lemma_point_lights_words_len(ls: Seq<GpuPointLight>)
    ensures
        point_lights_words(ls).len() == 12 * ls.len(),
    decreases ls.len(),
{
    if ls.len() != 0 {
        lemma_point_lights_words_len(ls.drop_first());
    }
}

proof fn lemma_point_lights_words_push(ls: Seq<GpuPointLight>, l: GpuPointLight)
    ensures
        point_lights_words(ls.push(l)) == point_lights_words(ls) + point_light_words(l),
    decreases ls.len(),
{
    if ls.len() == 0 {
        assert(ls.push(l)[0] == l);
        assert(ls.push(l).drop_first() =~= Seq::<GpuPointLight>::empty());
        assert(point_lights_words(Seq::<GpuPointLight>::empty()) =~= Seq::<u32>::empty());
        assert(point_lights_words(ls.push(l)) =~= point_lights_words(ls) + point_light_words(l));
    } else {
        assert(ls.push(l)[0] == ls[0]);
        assert(ls.push(l).drop_first() =~= ls.drop_first().push(l));
        lemma_point_lights_words_push(ls.drop_first(), l);
        assert(point_lights_words(ls.push(l)) =~= point_lights_words(ls) + point_light_words(l));
    }
}

/// The whole lighting block, in the fixed layout the shader reads.
#[derive(Debug)]
pub struct LightingData {
    /// Always exactly sixteen entries; unused entries are zero.
    pub point_lights: Vec<GpuPointLight>,
    /// How many leading entries carry scene lights.
    pub num_point_lights: u32,
    /// The one directional light.
    pub directional_light: GpuDirectionalLight,
}

impl LightingData {
    /// The block always holds its full sixteen entries.
    pub open spec fn wf(self) -> bool {
        self.point_lights@.len() == MAX_POINT_LIGHTS
    }
}

impl BufferData for LightingData {
    /// The fixed layout: the sixteen point lights, the count word with
    /// three padding words, the directional light, four padding words.
    open spec fn spec_words(&self) -> Seq<u32> {
        point_lights_words(self.point_lights@) + seq![self.num_point_lights, 0u32, 0u32, 0u32]
            + directional_light_words(self.directional_light) + seq![0u32, 0u32, 0u32, 0u32]
    }

    fn to_words(&self) -> (r: Vec<u32>)
        ensures
            r@ == self.spec_words(),
    {
        let mut r: Vec<u32> = Vec::new();
        let mut i: usize = 0;
        proof {
            assert(self.point_lights@.take(0) =~= Seq::<GpuPointLight>::empty());
            assert(point_lights_words(Seq::<GpuPointLight>::empty()) =~= Seq::<u32>::empty());
        }
        while i < self.point_lights.len()
            invariant
                i <= self.point_lights@.len(),
                r@ == point_lights_words(self.point_lights@.take(i as int)),
            decreases self.point_lights@.len() - i,
        {
            let l = self.point_lights[i];
            r.push(l.position[0]);
            r.push(l.position[1]);
            r.push(l.position[2]);
            r.push(l.position[3]);
            r.push(l.color[0]);
            r.push(l.color[1]);
            r.push(l.color[2]);
            r.push(l.color[3]);
            r.push(l.intensity);
            r.push(l.radius);
            r.push(0);
            r.push(0);
            proof {
                assert(self.point_lights@.take(i as int + 1) =~= self.point_lights@.take(
                    i as int,
                ).push(self.point_lights@[i as int]));
                lemma_point_lights_words_push(
                    self.point_lights@.take(i as int),
                    self.point_lights@[i as int],
                );
                assert(r@ =~= point_lights_words(self.point_lights@.take(i as int + 1)));
            }
            i = i + 1;
        }
        proof {
            assert(self.point_lights@.take(self.point_lights@.len() as int)
                =~= self.point_lights@);
        }
        r.push(self.num_point_lights);
        r.push(0);
        r.push(0);
        r.push(0);
        let d = self.directional_light;
        r.push(d.direction[0]);
        r.push(d.direction[1]);
        r.push(d.direction[2]);
        r.push(0);
        r.push(d.color[0]);
        r.push(d.color[1]);
        r.push(d.color[2]);
        r.push(d.intensity);
        r.push(0);
        r.push(0);
        r.push(0);
        r.push(0);
        proof {
            assert(r@ =~= self.spec_words());
        }
        r
    }
}

/// The block's words always fill exactly the allocation.
pub proof fn lemma_lighting_words_len(d: LightingData)
    requires
        d.wf(),
    ensures
        d.spec_words().len() * 4 == LIGHTING_DATA_SIZE,
{
    lemma_point_lights_words_len(d.point_lights@);
}

impl Default for LightingData {
    /// No point light, the count zero, the directional light dark.
    fn default() -> (r: Self)
        ensures
            r.wf(),
            r.num_point_lights == 0,
            forall|i: int| 0 <= i < MAX_POINT_LIGHTS ==> #[trigger] r.point_lights@[i]
                == zero_point_light(),
            r.directional_light == zero_directional_light(),
    {
        let mut point_lights: Vec<GpuPointLight> = Vec::new();
        let mut i: usize = 0;
        while i < MAX_POINT_LIGHTS
            invariant
                i <= MAX_POINT_LIGHTS,
                point_lights@.len() == i,
                forall|j: int| 0 <= j < i ==> #[trigger] point_lights@[j] == zero_point_light(),
            decreases MAX_POINT_LIGHTS - i,
        {
            point_lights.push(
                GpuPointLight { position: [0, 0, 0, 0], color: [0, 0, 0, 0], intensity: 0, radius: 0 },
            );
            i = i + 1;
        }
        LightingData {
            point_lights,
            num_point_lights: 0,
            directional_light: GpuDirectionalLight {
                direction: [0, 0, 0],
                color: [0, 0, 0],
                intensity: 0,
            },
        }
    }
}

/// The block entry a scene point light at a position yields: the position
/// and color made homogeneous with a one, intensity and radius carried
/// through.
pub open spec fn gpu_point_light_of(translation: [u32; 3], l: PointLight) -> GpuPointLight {
    GpuPointLight {
        position: [translation[0], translation[1], translation[2], F32_BITS_ONE],
        color: [l.color[0], l.color[1], l.color[2], F32_BITS_ONE],
        intensity: l.intensity,
        radius: l.radius,
    }
}

/// The block entry the scene's directional light yields.
pub open spec fn gpu_directional_light_of(d: DirectionalLight) -> GpuDirectionalLight {
    GpuDirectionalLight { direction: d.direction, color: d.color, intensity: d.intensity }
}

/// Recompute the whole block from the scene's lights: the first sixteen
/// point lights in iteration order fill the leading entries and set the
/// count, the rest of the entries stay zero, and the first directional
/// light — if any — fills the directional entry. Nothing else of the scene
/// matters.
pub fn build_lighting_data(
    point_lights: &Vec<([u32; 3], PointLight)>,
    directional: Option<&DirectionalLight>,
) -> (r: LightingData)
    ensures
        r.wf(),
        r.num_point_lights == vstd::math::min(point_lights@.len() as int, MAX_POINT_LIGHTS as int),
        forall|i: int| 0 <= i < r.num_point_lights ==> #[trigger] r.point_lights@[i]
            == gpu_point_light_of(point_lights@[i].0, point_lights@[i].1),
        forall|i: int| r.num_point_lights <= i < MAX_POINT_LIGHTS ==> #[trigger] r.point_lights@[i]
            == zero_point_light(),
        r.directional_light == match directional {
            Some(d) => gpu_directional_light_of(*d),
            None => zero_directional_light(),
        },
{
    let mut data = LightingData::default();
    let mut i: usize = 0;
    while i < point_lights.len() && i < MAX_POINT_LIGHTS
        invariant
            i <= point_lights@.len(),
            i <= MAX_POINT_LIGHTS,
            i < MAX_POINT_LIGHTS || i == MAX_POINT_LIGHTS,
            data.point_lights@.len() == MAX_POINT_LIGHTS,
            data.num_point_lights == i,
            forall|j: int| 0 <= j < i ==> #[trigger] data.point_lights@[j] == gpu_point_light_of(
                point_lights@[j].0,
                point_lights@[j].1,
            ),
            forall|j: int| i <= j < MAX_POINT_LIGHTS ==> #[trigger] data.point_lights@[j]
                == zero_point_light(),
            data.directional_light == zero_directional_light(),
        decreases point_lights@.len() - i,
    {
        let (translation, light) = point_lights[i];
        data.point_lights.set(
            i,
            GpuPointLight {
                position: [translation[0], translation[1], translation[2], F32_BITS_ONE],
                color: [light.color[0], light.color[1], light.color[2], F32_BITS_ONE],
                intensity: light.intensity,
                radius: light.radius,
            },
        );
        data.num_point_lights = data.num_point_lights + 1;
        i = i + 1;
    }
    match directional {
        Some(d) => {
            data.directional_light = GpuDirectionalLight {
                direction: d.direction,
                color: d.color,
                intensity: d.intensity,
            };
        },
        None => {},
    }
    data
}

/// The first directional light of the scene, if any: the one the frame's
/// shadow pass and lighting block use.
pub fn pick_first_directional(lights: &Vec<DirectionalLight>) -> (r: Option<DirectionalLight>)
    ensures
        lights@.len() == 0 ==> r is None,
        lights@.len() > 0 ==> (r matches Some(d) && d == lights@[0]),
{
    if lights.len() > 0 {
        Some(lights[0])
    } else {
        None
    }
}

/// The GPU-side lighting uniform: the 832-byte allocation and the bind
/// group exposing it to the fragment stage at binding 0.
#[derive(Debug)]
pub struct LightingBuffer {
    pub buffer: UniformBuffer,
    pub bind_group: BindGroup,
}

impl LightingBuffer {
    /// The buffer always holds exactly the block; the bind group exposes
    /// exactly this buffer at binding 0 for the fragment stage.
    pub open spec fn wf(self) -> bool {
        &&& self.buffer.buffer.contents@.len() == LIGHTING_DATA_SIZE
        &&& self.bind_group.layout.entries@ == seq![
            LayoutEntry { binding: 0u32, visibility: STAGE_FRAGMENT, ty: BindingType::Uniform },
        ]
        &&& bind_resource_views(self.bind_group.resources@) == seq![
            BindResourceView::Buffer(0u32, self.buffer.buffer.id),
        ]
    }

    /// A zero-filled lighting uniform and its bind group.
    pub fn new(ctx: &mut GpuContext) -> (r: LightingBuffer)
        requires
            old(ctx).can_alloc(3),
        ensures
            r.wf(),
            r.buffer.buffer.id == old(ctx).next_id,
            forall|i: int| 0 <= i < LIGHTING_DATA_SIZE ==> r.buffer.buffer.contents@[i] == 0u8,
            final(ctx).next_id == old(ctx).next_id + 3,
            final(ctx).features == old(ctx).features,
            final(ctx).limits == old(ctx).limits,
            final(ctx).device_label == old(ctx).device_label,
            final(ctx).submitted == old(ctx).submitted,
    {
        let buffer = UniformBuffer::new_empty(ctx, Some("lighting_buffer"), LIGHTING_DATA_SIZE);
        let mut resources: Vec<BindResource> = Vec::new();
        resources.push(BindResource::Buffer(0, buffer.buffer.id));
        let ghost resources_snap = resources@;
        let built = BindGroupBuilder::new().label("lighting_bind_group").uniform(
            0,
            STAGE_FRAGMENT,
        ).build(ctx, resources);
        let bind_group = match built {
            Ok(bg) => bg,
            Err(_) => {
                proof {
                    assert(false);
                }
                vstd::pervasive::unreached()
            },
        };
        proof {
            assert(bind_resource_views(resources_snap) =~= seq![
                BindResourceView::Buffer(0u32, buffer.buffer.id),
            ]);
            assert(bind_group.layout.entries@ =~= seq![
                LayoutEntry { binding: 0u32, visibility: STAGE_FRAGMENT, ty: BindingType::Uniform },
            ]);
        }
        LightingBuffer { buffer, bind_group }
    }

    /// Upload a lighting block wholesale.
    pub fn update(&mut self, data: &LightingData)
        requires
            old(self).wf(),
            data.wf(),
        ensures
            final(self).wf(),
            final(self).buffer.buffer.contents@ == words_bytes(data.spec_words()),
            final(self).buffer.buffer.id == old(self).buffer.buffer.id,
            final(self).bind_group == old(self).bind_group,
    {
        proof {
            lemma_lighting_words_len(*data);
        }
        self.buffer.write(data);
        proof {
            crate::bytes::lemma_words_bytes_len(data.spec_words());
            assert(self.buffer.buffer.contents@ =~= words_bytes(data.spec_words()));
        }
    }

    /// The layout of the lighting bind group.
    pub fn bind_group_layout(&self) -> (r: &BindGroupLayout)
        ensures
            r == &self.bind_group.layout,
    {
        &self.bind_group.layout
    }
}

} // verus!
