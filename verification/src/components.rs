//! The components scene entities carry: transform, material, lights,
//! drawable mesh, vertices, and the keyboard state resource.
//!
//! Scalars that the GPU consumes as floats are carried as their bit
//! patterns; composing transforms into matrices is floating-point work the
//! frame loop performs.

use vstd::prelude::*;

verus! {

use crate::buffer::BufferData;
use crate::camera::{F32_BITS_NEG_ONE, F32_BITS_ONE};
use crate::mesh::GpuMesh;
use crate::render_pass::RenderPass;

/// Bit pattern of the single-precision float 10.0, the default point-light
/// radius.
pub const F32_BITS_TEN: u32 = 0x4120_0000;

/// Where an entity stands: translation, rotation quaternion, and scale,
/// each scalar a float bit pattern.
#[derive(Clone, Copy, Debug, PartialEq, Eq)]
pub struct Transform {
    pub translation: [u32; 3],
    pub rotation: [u32; 4],
    pub scale: [u32; 3],
}

impl Transform {
    /// A transform from its parts.
    pub fn new(translation: [u32; 3], rotation: [u32; 4], scale: [u32; 3]) -> (r: Transform)
        ensures
            r.translation == translation,
            r.rotation == rotation,
            r.scale == scale,
    {
        Transform { translation, rotation, scale }
    }
}

impl Default for Transform {
    /// No translation, the identity rotation, unit scale.
    fn default() -> (r: Self)
        ensures
            r.translation == [0u32, 0u32, 0u32],
            r.rotation == [0u32, 0u32, 0u32, F32_BITS_ONE],
            r.scale == [F32_BITS_ONE, F32_BITS_ONE, F32_BITS_ONE],
    {
        Transform {
            translation: [0, 0, 0],
            rotation: [0, 0, 0, F32_BITS_ONE],
            scale: [F32_BITS_ONE, F32_BITS_ONE, F32_BITS_ONE],
        }
    }
}

/// How an entity is shaded: a base color factor and the slot of its texture
/// in the global texture array; slot 0 is the default white texture.
#[derive(Clone, Copy, Debug, PartialEq, Eq)]
pub struct Material {
    pub texture_index: u32,
    pub base_color: [u32; 4],
}

impl Material {
    /// A textured material with a white base color.
    pub fn new(texture_index: u32) -> (r: Material)
        ensures
            r.texture_index == texture_index,
            r.base_color == [F32_BITS_ONE, F32_BITS_ONE, F32_BITS_ONE, F32_BITS_ONE],
    {
        Material {
            texture_index,
            base_color: [F32_BITS_ONE, F32_BITS_ONE, F32_BITS_ONE, F32_BITS_ONE],
        }
    }

    /// An untextured material with this base color.
    pub fn with_color(color: [u32; 4]) -> (r: Material)
        ensures
            r.texture_index == 0,
            r.base_color == color,
    {
        Material { texture_index: 0, base_color: color }
    }
}

impl Default for Material {
    /// Untextured, white.
    fn default() -> (r: Self)
        ensures
            r.texture_index == 0,
            r.base_color == [F32_BITS_ONE, F32_BITS_ONE, F32_BITS_ONE, F32_BITS_ONE],
    {
        Material::with_color([F32_BITS_ONE, F32_BITS_ONE, F32_BITS_ONE, F32_BITS_ONE])
    }
}

/// A point light: color, intensity and radius, each scalar a float bit
/// pattern. Its position comes from the entity's transform.
#[derive(Clone, Copy, Debug, PartialEq, Eq)]
pub struct PointLight {
    pub color: [u32; 3],
    pub intensity: u32,
    pub radius: u32,
}

impl Default for PointLight {
    /// White, unit intensity, radius 10.
    fn default() -> (r: Self)
        ensures
            r.color == [F32_BITS_ONE, F32_BITS_ONE, F32_BITS_ONE],
            r.intensity == F32_BITS_ONE,
            r.radius == F32_BITS_TEN,
    {
        PointLight {
            color: [F32_BITS_ONE, F32_BITS_ONE, F32_BITS_ONE],
            intensity: F32_BITS_ONE,
            radius: F32_BITS_TEN,
        }
    }
}

/// A directional light: direction, color and intensity, each scalar a float
/// bit pattern.
#[derive(Clone, Copy, Debug, PartialEq, Eq)]
pub struct DirectionalLight {
    pub direction: [u32; 3],
    pub color: [u32; 3],
    pub intensity: u32,
}

impl Default for DirectionalLight {
    /// Straight down, white, unit intensity.
    fn default() -> (r: Self)
        ensures
            r.direction == [0u32, F32_BITS_NEG_ONE, 0u32],
            r.color == [F32_BITS_ONE, F32_BITS_ONE, F32_BITS_ONE],
            r.intensity == F32_BITS_ONE,
    {
        DirectionalLight {
            direction: [0, F32_BITS_NEG_ONE, 0],
            color: [F32_BITS_ONE, F32_BITS_ONE, F32_BITS_ONE],
            intensity: F32_BITS_ONE,
        }
    }
}

/// The drawable-mesh component: a shared handle onto one uploaded mesh.
#[derive(Debug)]
pub struct Mesh {
    pub gpu_mesh: GpuMesh,
}

impl Clone for Mesh {
    /// A cloned component shares the same mesh.
    fn clone(&self) -> (r: Self)
        ensures
            r.gpu_mesh.vertex_buffer.buffer.id == self.gpu_mesh.vertex_buffer.buffer.id,
            r.gpu_mesh.index_buffer.buffer.id == self.gpu_mesh.index_buffer.buffer.id,
            r.gpu_mesh.index_count == self.gpu_mesh.index_count,
    {
        Mesh { gpu_mesh: self.gpu_mesh.clone() }
    }
}

impl Mesh {
    /// A component sharing this mesh.
    pub fn new(gpu_mesh: GpuMesh) -> (r: Mesh)
        ensures
            r.gpu_mesh == gpu_mesh,
    {
        Mesh { gpu_mesh }
    }

    /// Draw the mesh into an open pass.
    pub fn draw(&self, pass: &mut RenderPass)
        ensures
            final(pass).commands@ == old(pass).commands@ + self.gpu_mesh.spec_draw_cmds(),
            final(pass).descriptor == old(pass).descriptor,
    {
        self.gpu_mesh.draw(pass);
    }
}

/// A scene-file vertex: position, normal, texture coordinates, each scalar
/// a float bit pattern.
#[derive(Clone, Copy, Debug, PartialEq, Eq)]
pub struct GltfVertex {
    pub position: [u32; 3],
    pub normal: [u32; 3],
    pub uv: [u32; 2],
}

impl GltfVertex {
    /// A vertex from its parts.
    pub fn new(position: [u32; 3], normal: [u32; 3], uv: [u32; 2]) -> (r: GltfVertex)
        ensures
            r.position == position,
            r.normal == normal,
            r.uv == uv,
    {
        GltfVertex { position, normal, uv }
    }
}

impl BufferData for GltfVertex {
    /// Eight words: position, normal, texture coordinates.
    open spec fn spec_words(&self) -> Seq<u32> {
        seq![
            self.position[0],
            self.position[1],
            self.position[2],
            self.normal[0],
            self.normal[1],
            self.normal[2],
            self.uv[0],
            self.uv[1],
        ]
    }

    fn to_words(&self) -> (r: Vec<u32>)
        ensures
            r@ == self.spec_words(),
    {
        let mut r: Vec<u32> = Vec::new();
        r.push(self.position[0]);
        r.push(self.position[1]);
        r.push(self.position[2]);
        r.push(self.normal[0]);
        r.push(self.normal[1]);
        r.push(self.normal[2]);
        r.push(self.uv[0]);
        r.push(self.uv[1]);
        proof {
            assert(r@ =~= self.spec_words());
        }
        r
    }
}

/// A colored vertex: position and color, each scalar a float bit pattern.
#[derive(Clone, Copy, Debug, PartialEq, Eq)]
pub struct VertexData {
    pub position: [u32; 3],
    pub color: [u32; 3],
}

impl VertexData {
    /// A vertex from its parts.
    pub fn new(position: [u32; 3], color: [u32; 3]) -> (r: VertexData)
        ensures
            r.position == position,
            r.color == color,
    {
        VertexData { position, color }
    }
}

impl BufferData for VertexData {
    /// Six words: position, color.
    open spec fn spec_words(&self) -> Seq<u32> {
        seq![
            self.position[0],
            self.position[1],
            self.position[2],
            self.color[0],
            self.color[1],
            self.color[2],
        ]
    }

    fn to_words(&self) -> (r: Vec<u32>)
        ensures
            r@ == self.spec_words(),
    {
        let mut r: Vec<u32> = Vec::new();
        r.push(self.position[0]);
        r.push(self.position[1]);
        r.push(self.position[2]);
        r.push(self.color[0]);
        r.push(self.color[1]);
        r.push(self.color[2]);
        proof {
            assert(r@ =~= self.spec_words());
        }
        r
    }
}

/// A window-resize event, in physical pixels.
#[derive(Clone, Copy, Debug, PartialEq, Eq, Structural)]
pub struct WindowResizeEvent {
    pub width: u32,
    pub height: u32,
}

/// The keyboard state: which keys are held, and which went down this frame.
/// Key codes are the frame loop's own numbering of physical keys.
#[derive(Debug)]
pub struct Input {
    /// Keys currently held, each at most once.
    pub pressed_keys: Vec<u32>,
    /// Keys that went down since the last frame boundary, each at most once.
    pub just_pressed_keys: Vec<u32>,
}

/// Whether `s` holds `k`.
pub open spec fn key_set_contains(s: Seq<u32>, k: u32) -> bool {
    s.contains(k)
}

/// Whether a key vector holds each key at most once.
pub open spec fn key_set_distinct(s: Seq<u32>) -> bool {
    forall|i: int, j: int| 0 <= i < j < s.len() ==> s[i] != s[j]
}

/// Membership in a key vector extended by one key.
proof fn lemma_key_contains_push(s: Seq<u32>, x: u32, k: u32)
    ensures
        key_set_contains(s.push(x), k) == (key_set_contains(s, k) || k == x),
{
    if key_set_contains(s, k) {
        let idx = choose|i: int| 0 <= i < s.len() && s[i] == k;
        assert(s.push(x)[idx] == k);
        assert(key_set_contains(s.push(x), k));
    }
    if k == x {
        assert(s.push(x)[s.len() as int] == k);
        assert(key_set_contains(s.push(x), k));
    }
    if key_set_contains(s.push(x), k) {
        let idx = choose|i: int| 0 <= i < s.push(x).len() && s.push(x)[i] == k;
        if idx < s.len() {
            assert(s[idx] == k);
            assert(key_set_contains(s, k));
        } else {
            assert(k == x);
        }
    }
}

/// Whether `s` holds `k`.
fn key_vec_contains(s: &Vec<u32>, k: u32) -> (r: bool)
    ensures
        r == key_set_contains(s@, k),
{
    let mut i: usize = 0;
    while i < s.len()
        invariant
            i <= s@.len(),
            forall|j: int| 0 <= j < i ==> s@[j] != k,
        decreases s@.len() - i,
    {
        if s[i] == k {
            return true;
        }
        i = i + 1;
    }
    false
}

/// `s` without every occurrence of `k`, order kept.
fn key_vec_remove(s: &Vec<u32>, k: u32) -> (r: Vec<u32>)
    ensures
        forall|k2: u32| #[trigger]
            key_set_contains(r@, k2) == (key_set_contains(s@, k2) && k2 != k),
        key_set_distinct(s@) ==> key_set_distinct(r@),
{
    let mut r: Vec<u32> = Vec::new();
    let mut i: usize = 0;
    while i < s.len()
        invariant
            i <= s@.len(),
            forall|k2: u32| #[trigger]
                key_set_contains(r@, k2) == (key_set_contains(s@.take(i as int), k2) && k2 != k),
            key_set_distinct(s@) ==> key_set_distinct(r@),
            r@.len() <= i,
        decreases s@.len() - i,
    {
        let x = s[i];
        proof {
            assert(s@.take(i as int + 1) =~= s@.take(i as int).push(s@[i as int]));
        }
        if x != k {
            let ghost r_old = r@;
            r.push(x);
            proof {
                assert forall|k2: u32|
                    #[trigger] key_set_contains(r@, k2) == (key_set_contains(
                        s@.take(i as int + 1),
                        k2,
                    ) && k2 != k) by {
                    lemma_key_contains_push(r_old, x, k2);
                    lemma_key_contains_push(s@.take(i as int), s@[i as int], k2);
                }
                if key_set_distinct(s@) {
                    assert forall|a: int, b: int| 0 <= a < b < r@.len() implies r@[a] != r@[b] by {
                        if b == r@.len() - 1 {
                            assert(key_set_contains(r_old, r@[a]));
                            assert(key_set_contains(s@.take(i as int), r@[a]));
                            let idx = choose|idx: int|
                                0 <= idx < i && s@.take(i as int)[idx] == r@[a];
                            assert(s@[idx] == r@[a]);
                            assert(s@[i as int] == r@[b]);
                        }
                    }
                }
            }
        } else {
            proof {
                assert forall|k2: u32|
                    #[trigger] key_set_contains(r@, k2) == (key_set_contains(
                        s@.take(i as int + 1),
                        k2,
                    ) && k2 != k) by {
                    lemma_key_contains_push(s@.take(i as int), s@[i as int], k2);
                }
            }
        }
        i = i + 1;
    }
    proof {
        assert(s@.take(s@.len() as int) =~= s@);
    }
    r
}

impl Input {
    /// No key held, none just pressed.
    pub fn new() -> (r: Input)
        ensures
            r.pressed_keys@.len() == 0,
            r.just_pressed_keys@.len() == 0,
            key_set_distinct(r.pressed_keys@),
            key_set_distinct(r.just_pressed_keys@),
    {
        Input { pressed_keys: Vec::new(), just_pressed_keys: Vec::new() }
    }

    /// Whether the key is held.
    pub fn pressed(&self, key: u32) -> (r: bool)
        ensures
            r == key_set_contains(self.pressed_keys@, key),
    {
        key_vec_contains(&self.pressed_keys, key)
    }

    /// Whether the key went down since the last frame boundary.
    pub fn just_pressed(&self, key: u32) -> (r: bool)
        ensures
            r == key_set_contains(self.just_pressed_keys@, key),
    {
        key_vec_contains(&self.just_pressed_keys, key)
    }

    /// Frame boundary: the just-pressed set empties; held keys stay held.
    pub fn update(&mut self)
        ensures
            final(self).just_pressed_keys@.len() == 0,
            final(self).pressed_keys == old(self).pressed_keys,
    {
        self.just_pressed_keys.clear();
    }

    /// A key went down: it is now held, and counts as just pressed unless it
    /// was already held.
    pub fn press_key(&mut self, key: u32)
        requires
            old(self).pressed_keys@.len() < usize::MAX,
            old(self).just_pressed_keys@.len() < usize::MAX,
        ensures
            forall|k2: u32| #[trigger]
                key_set_contains(final(self).pressed_keys@, k2) == (key_set_contains(
                    old(self).pressed_keys@,
                    k2,
                ) || k2 == key),
            forall|k2: u32| #[trigger]
                key_set_contains(final(self).just_pressed_keys@, k2) == (key_set_contains(
                    old(self).just_pressed_keys@,
                    k2,
                ) || (k2 == key && !key_set_contains(old(self).pressed_keys@, key))),
            key_set_distinct(old(self).pressed_keys@) ==> key_set_distinct(
                final(self).pressed_keys@,
            ),
    {
        let already = key_vec_contains(&self.pressed_keys, key);
        if !already {
            let just_already = key_vec_contains(&self.just_pressed_keys, key);
            let ghost j_old = self.just_pressed_keys@;
            if !just_already {
                self.just_pressed_keys.push(key);
            }
            let ghost p_old = self.pressed_keys@;
            self.pressed_keys.push(key);
            proof {
                assert forall|k2: u32|
                    #[trigger] key_set_contains(self.pressed_keys@, k2) == (key_set_contains(
                        p_old,
                        k2,
                    ) || k2 == key) by {
                    lemma_key_contains_push(p_old, key, k2);
                }
                assert forall|k2: u32|
                    #[trigger] key_set_contains(self.just_pressed_keys@, k2) == (key_set_contains(
                        j_old,
                        k2,
                    ) || k2 == key) by {
                    if !just_already {
                        lemma_key_contains_push(j_old, key, k2);
                    }
                }
                if key_set_distinct(p_old) {
                    assert forall|a: int, b: int|
                        0 <= a < b < self.pressed_keys@.len() implies self.pressed_keys@[a]
                        != self.pressed_keys@[b] by {
                        if b == self.pressed_keys@.len() - 1 {
                            assert(p_old[a] == self.pressed_keys@[a]);
                            assert(key_set_contains(p_old, p_old[a]));
                        }
                    }
                }
            }
        }
    }

    /// A key went up: it is no longer held.
    pub fn release_key(&mut self, key: u32)
        ensures
            forall|k2: u32| #[trigger]
                key_set_contains(final(self).pressed_keys@, k2) == (key_set_contains(
                    old(self).pressed_keys@,
                    k2,
                ) && k2 != key),
            final(self).just_pressed_keys == old(self).just_pressed_keys,
            key_set_distinct(old(self).pressed_keys@) ==> key_set_distinct(
                final(self).pressed_keys@,
            ),
    {
        let filtered = key_vec_remove(&self.pressed_keys, key);
        self.pressed_keys = filtered;
    }
}

impl Default for Input {
    /// No key held, as [`Input::new`].
    fn default() -> (r: Self)
        ensures
            r.pressed_keys@.len() == 0,
            r.just_pressed_keys@.len() == 0,
    {
        Input::new()
    }
}

} // verus!
