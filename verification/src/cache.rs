//! Path-keyed deduplicating caches for uploaded meshes and textures.
//!
//! A cache hit returns a shared handle onto the resource already uploaded
//! and touches neither the cache nor the GPU; unloading removes the entry
//! but leaves handles already handed out untouched.

use vstd::prelude::*;

verus! {

use crate::gltf::{DecodedImage, GltfMeshData};
use crate::gpu::GpuContext;
use crate::mesh::GpuMesh;
use crate::texture::{Extent3d, GpuTexture, TextureFormat};

/// The value stored under `k`, scanning from the front.
pub open spec fn table_find<V>(s: Seq<(String, V)>, k: Seq<char>) -> Option<V>
    decreases s.len(),
{
    if s.len() == 0 {
        None
    } else if s[0].0@ == k {
        Some(s[0].1)
    } else {
        table_find(s.drop_first(), k)
    }
}

/// Whether every key occurs at most once.
pub open spec fn table_distinct<V>(s: Seq<(String, V)>) -> bool {
    forall|i: int, j: int| #![trigger s[i], s[j]] 0 <= i < j < s.len() ==> s[i].0@ != s[j].0@
}

/// `k` is absent exactly when no entry carries it.
proof fn lemma_find_none_iff<V>(s: Seq<(String, V)>, k: Seq<char>)
    ensures
        (table_find(s, k) is None) <==> (forall|j: int| 0 <= j < s.len() ==> s[j].0@ != k),
    decreases s.len(),
{
    if s.len() != 0 {
        lemma_find_none_iff(s.drop_first(), k);
        if table_find(s, k) is None {
            assert forall|j: int| 0 <= j < s.len() implies s[j].0@ != k by {
                if j > 0 {
                    assert(s.drop_first()[j - 1] == s[j]);
                }
            }
        }
        if forall|j: int| 0 <= j < s.len() ==> s[j].0@ != k {
            assert forall|j: int| 0 <= j < s.drop_first().len() implies s.drop_first()[j].0@
                != k by {
                assert(s.drop_first()[j] == s[j + 1]);
            }
        }
    }
}

/// Scanning may skip a prefix that does not hold the key.
proof fn lemma_find_skip<V>(s: Seq<(String, V)>, i: int, k: Seq<char>)
    requires
        0 <= i <= s.len(),
        forall|j: int| 0 <= j < i ==> s[j].0@ != k,
    ensures
        table_find(s, k) == table_find(s.skip(i), k),
    decreases i,
{
    if i == 0 {
        assert(s.skip(0) =~= s);
    } else {
        assert(s.drop_first().skip(i - 1) =~= s.skip(i));
        assert forall|j: int| 0 <= j < i - 1 implies s.drop_first()[j].0@ != k by {
            assert(s.drop_first()[j] == s[j + 1]);
        }
        lemma_find_skip(s.drop_first(), i - 1, k);
    }
}

/// Appending a fresh entry leaves every other key's lookup unchanged and
/// makes the new key found.
proof fn lemma_find_push<V>(s: Seq<(String, V)>, key: String, v: V, k: Seq<char>)
    ensures
        table_find(s.push((key, v)), k) == if table_find(s, k) is Some {
            table_find(s, k)
        } else if key@ == k {
            Some(v)
        } else {
            None
        },
    decreases s.len(),
{
    if s.len() == 0 {
        assert(s.push((key, v))[0] == (key, v));
        assert(s.push((key, v)).drop_first() =~= Seq::<(String, V)>::empty());
        assert(table_find(Seq::<(String, V)>::empty(), k) is None);
    } else {
        assert(s.push((key, v))[0] == s[0]);
        assert(s.push((key, v)).drop_first() =~= s.drop_first().push((key, v)));
        lemma_find_push(s.drop_first(), key, v, k);
    }
}

/// Removing the entry at `i` leaves every other key's lookup unchanged.
proof fn lemma_find_remove<V>(s: Seq<(String, V)>, i: int, k: Seq<char>)
    requires
        0 <= i < s.len(),
        s[i].0@ != k,
    ensures
        table_find(s.remove(i), k) == table_find(s, k),
    decreases i,
{
    if i == 0 {
        assert(s.remove(0) =~= s.drop_first());
    } else {
        assert(s.remove(i)[0] == s[0]);
        assert(s.remove(i).drop_first() =~= s.drop_first().remove(i - 1));
        lemma_find_remove(s.drop_first(), i - 1, k);
    }
}

/// A handle naming a mesh by the path it was loaded from.
#[derive(Debug, Hash, PartialEq, Eq)]
pub struct MeshHandle {
    /// The source path.
    pub path: String,
}

impl Clone for MeshHandle {
    /// A handle for the same path.
    fn clone(&self) -> (r: Self)
        ensures
            r.path@ == self.path@,
    {
        MeshHandle { path: self.path.clone() }
    }
}

impl MeshHandle {
    /// A handle for this path.
    pub fn new(path: &str) -> (r: MeshHandle)
        ensures
            r.path@ == path@,
    {
        MeshHandle { path: path.to_owned() }
    }
}

/// Whether two mesh values are handles onto the same uploaded mesh.
pub open spec fn same_mesh(a: GpuMesh, b: GpuMesh) -> bool {
    &&& a.vertex_buffer.buffer.id == b.vertex_buffer.buffer.id
    &&& a.index_buffer.buffer.id == b.index_buffer.buffer.id
    &&& a.index_count == b.index_count
}

/// Whether two texture values are handles onto the same uploaded image.
pub open spec fn same_texture(a: GpuTexture, b: GpuTexture) -> bool {
    &&& a.id == b.id
    &&& a.size == b.size
    &&& a.format == b.format
}

/// The path-keyed mesh cache.
#[derive(Debug)]
pub struct MeshCache {
    /// The entries, in insertion order, each path at most once.
    pub entries: Vec<(String, GpuMesh)>,
}

impl MeshCache {
    /// Each path occurs at most once.
    pub open spec fn wf(self) -> bool {
        table_distinct(self.entries@)
    }

    /// The cached mesh under `path`.
    pub open spec fn spec_get(self, path: Seq<char>) -> Option<GpuMesh> {
        table_find(self.entries@, path)
    }

    /// An empty cache.
    pub fn new() -> (r: MeshCache)
        ensures
            r.entries@.len() == 0,
            r.wf(),
    {
        MeshCache { entries: Vec::new() }
    }

    /// Look a path up; a hit is a shared handle onto the cached mesh.
    pub fn get(&self, path: &String) -> (r: Option<GpuMesh>)
        ensures
            match self.spec_get(path@) {
                Some(m) => r matches Some(g) && same_mesh(g, m),
                None => r is None,
            },
    {
        let mut i: usize = 0;
        while i < self.entries.len()
            invariant
                i <= self.entries@.len(),
                forall|j: int| 0 <= j < i ==> self.entries@[j].0@ != path@,
            decreases self.entries@.len() - i,
        {
            if self.entries[i].0 == *path {
                proof {
                    lemma_find_skip(self.entries@, i as int, path@);
                    assert(self.entries@.skip(i as int)[0] == self.entries@[i as int]);
                }
                return Some(self.entries[i].1.clone());
            }
            i = i + 1;
        }
        proof {
            lemma_find_none_iff(self.entries@, path@);
        }
        None
    }

    /// Load a mesh decoded from `path`: a cache hit shares the mesh already
    /// uploaded and touches nothing; a miss uploads the mesh once and
    /// caches it. Either way the returned handle names the mesh the cache
    /// holds for the path.
    pub fn load_decoded(&mut self, ctx: &mut GpuContext, path: &String, data: &GltfMeshData) -> (r:
        GpuMesh)
        requires
            old(self).wf(),
            old(ctx).can_alloc(2),
            data.indices@.len() <= u32::MAX,
        ensures
            final(self).wf(),
            match old(self).spec_get(path@) {
                Some(m) => {
                    &&& same_mesh(r, m)
                    &&& *final(self) == *old(self)
                    &&& *final(ctx) == *old(ctx)
                },
                None => {
                    &&& r.vertex_buffer.buffer.id == old(ctx).next_id
                    &&& r.index_buffer.buffer.id == old(ctx).next_id + 1
                    &&& r.index_count == data.indices@.len()
                    &&& final(ctx).next_id == old(ctx).next_id + 2
                    &&& final(self).entries@.len() == old(self).entries@.len() + 1
                },
            },
            match final(self).spec_get(path@) {
                Some(m2) => same_mesh(m2, r),
                None => false,
            },
            forall|k2: Seq<char>|
                k2 != path@ ==> #[trigger] final(self).spec_get(k2) == old(self).spec_get(k2),
            final(ctx).features == old(ctx).features,
            final(ctx).limits == old(ctx).limits,
            final(ctx).device_label == old(ctx).device_label,
            final(ctx).submitted == old(ctx).submitted,
    {
        let cached = self.get(path);
        match cached {
            Some(m) => m,
            None => {
                let mesh = GpuMesh::new(ctx, &data.vertices, &data.indices, Some(path.as_str()));
                let shared = mesh.clone();
                let ghost entries_old = self.entries@;
                self.entries.push((path.clone(), mesh));
                proof {
                    let entry = self.entries@.last();
                    assert(self.entries@ =~= entries_old.push(entry));
                    lemma_find_none_iff(entries_old, path@);
                    assert forall|k2: Seq<char>|
                        k2 != path@ implies #[trigger] table_find(self.entries@, k2) == table_find(
                        entries_old,
                        k2,
                    ) by {
                        lemma_find_push(entries_old, entry.0, entry.1, k2);
                    }
                    lemma_find_push(entries_old, entry.0, entry.1, path@);
                    assert forall|a: int, b: int|
                        0 <= a < b < self.entries@.len() implies self.entries@[a].0@
                        != self.entries@[b].0@ by {
                        if b == self.entries@.len() - 1 {
                            assert(entries_old[a] == self.entries@[a]);
                        }
                    }
                }
                shared
            },
        }
    }

    /// Drop the entry for a path, if any; handles already handed out stay
    /// valid. Returns whether an entry was dropped.
    pub fn unload(&mut self, path: &String) -> (r: bool)
        requires
            old(self).wf(),
        ensures
            final(self).wf(),
            r == (old(self).spec_get(path@) is Some),
            final(self).spec_get(path@) is None,
            forall|k2: Seq<char>|
                k2 != path@ ==> #[trigger] final(self).spec_get(k2) == old(self).spec_get(k2),
            final(self).entries@.len() == old(self).entries@.len() - (if r {
                1int
            } else {
                0int
            }),
    {
        let mut i: usize = 0;
        while i < self.entries.len()
            invariant
                i <= self.entries@.len(),
                self.entries@ == old(self).entries@,
                table_distinct(self.entries@),
                forall|j: int| 0 <= j < i ==> self.entries@[j].0@ != path@,
            decreases self.entries@.len() - i,
        {
            if self.entries[i].0 == *path {
                proof {
                    lemma_find_skip(self.entries@, i as int, path@);
                    assert(self.entries@.skip(i as int)[0] == self.entries@[i as int]);
                }
                let ghost entries_old = self.entries@;
                self.entries.remove(i);
                proof {
                    entries_old.remove_ensures(i as int);
                    assert(self.entries@ == entries_old.remove(i as int));
                    assert forall|k2: Seq<char>|
                        k2 != path@ implies #[trigger] table_find(self.entries@, k2) == table_find(
                        entries_old,
                        k2,
                    ) by {
                        if k2 != entries_old[i as int].0@ {
                            lemma_find_remove(entries_old, i as int, k2);
                        }
                    }
                    assert forall|j: int|
                        0 <= j < self.entries@.len() implies self.entries@[j].0@ != path@ by {
                        if j < i {
                            assert(entries_old.remove(i as int)[j] == entries_old[j]);
                            assert(entries_old[j].0@ != entries_old[i as int].0@);
                        } else {
                            assert(entries_old.remove(i as int)[j] == entries_old[j + 1]);
                            assert(entries_old[j + 1].0@ != entries_old[i as int].0@);
                        }
                    }
                    lemma_find_none_iff(self.entries@, path@);
                    assert forall|a: int, b: int|
                        0 <= a < b < self.entries@.len() implies self.entries@[a].0@
                        != self.entries@[b].0@ by {
                        let a2 = if a < i { a } else { a + 1 };
                        let b2 = if b < i { b } else { b + 1 };
                        assert(entries_old.remove(i as int)[a] == entries_old[a2]);
                        assert(entries_old.remove(i as int)[b] == entries_old[b2]);
                    }
                }
                return true;
            }
            i = i + 1;
        }
        proof {
            lemma_find_none_iff(self.entries@, path@);
        }
        false
    }

    /// Drop every entry.
    pub fn clear(&mut self)
        ensures
            final(self).entries@.len() == 0,
            final(self).wf(),
    {
        self.entries.clear();
    }

    /// How many paths are cached.
    pub fn len(&self) -> (r: usize)
        ensures
            r == self.entries@.len(),
    {
        self.entries.len()
    }

    /// Whether nothing is cached.
    pub fn is_empty(&self) -> (r: bool)
        ensures
            r == (self.entries@.len() == 0),
    {
        self.entries.len() == 0
    }
}

/// The path-keyed texture cache.
#[derive(Debug)]
pub struct TextureCache {
    /// The entries, in insertion order, each path at most once.
    pub entries: Vec<(String, GpuTexture)>,
}

impl TextureCache {
    /// Each path occurs at most once.
    pub open spec fn wf(self) -> bool {
        table_distinct(self.entries@)
    }

    /// The cached texture under `path`.
    pub open spec fn spec_get(self, path: Seq<char>) -> Option<GpuTexture> {
        table_find(self.entries@, path)
    }

    /// An empty cache.
    pub fn new() -> (r: TextureCache)
        ensures
            r.entries@.len() == 0,
            r.wf(),
    {
        TextureCache { entries: Vec::new() }
    }

    /// Look a path up; a hit is a shared handle onto the cached texture.
    pub fn get(&self, path: &String) -> (r: Option<GpuTexture>)
        ensures
            match self.spec_get(path@) {
                Some(t) => r matches Some(g) && same_texture(g, t),
                None => r is None,
            },
    {
        let mut i: usize = 0;
        while i < self.entries.len()
            invariant
                i <= self.entries@.len(),
                forall|j: int| 0 <= j < i ==> self.entries@[j].0@ != path@,
            decreases self.entries@.len() - i,
        {
            if self.entries[i].0 == *path {
                proof {
                    lemma_find_skip(self.entries@, i as int, path@);
                    assert(self.entries@.skip(i as int)[0] == self.entries@[i as int]);
                }
                return Some(self.entries[i].1.clone());
            }
            i = i + 1;
        }
        proof {
            lemma_find_none_iff(self.entries@, path@);
        }
        None
    }

    /// Load a texture decoded from `path`: a cache hit shares the image
    /// already uploaded and touches nothing; a miss uploads the image once
    /// and caches it.
    pub fn load_decoded(&mut self, ctx: &mut GpuContext, path: &String, img: &DecodedImage) -> (r:
        GpuTexture)
        requires
            old(self).wf(),
            old(ctx).can_alloc(1),
            img.data@.len() == 4 * img.width * img.height,
        ensures
            final(self).wf(),
            match old(self).spec_get(path@) {
                Some(t) => {
                    &&& same_texture(r, t)
                    &&& *final(self) == *old(self)
                    &&& *final(ctx) == *old(ctx)
                },
                None => {
                    &&& r.id == old(ctx).next_id
                    &&& r.size == (Extent3d {
                        width: img.width,
                        height: img.height,
                        depth_or_array_layers: 1u32,
                    })
                    &&& r.format == TextureFormat::Rgba8UnormSrgb
                    &&& final(ctx).next_id == old(ctx).next_id + 1
                    &&& final(self).entries@.len() == old(self).entries@.len() + 1
                },
            },
            match final(self).spec_get(path@) {
                Some(t2) => same_texture(t2, r),
                None => false,
            },
            forall|k2: Seq<char>|
                k2 != path@ ==> #[trigger] final(self).spec_get(k2) == old(self).spec_get(k2),
            final(ctx).features == old(ctx).features,
            final(ctx).limits == old(ctx).limits,
            final(ctx).device_label == old(ctx).device_label,
            final(ctx).submitted == old(ctx).submitted,
    {
        let cached = self.get(path);
        match cached {
            Some(t) => t,
            None => {
                let data = crate::bytes::copy_vec(&img.data);
                let texture = GpuTexture::from_rgba(
                    ctx,
                    img.width,
                    img.height,
                    data,
                    Some(path.as_str()),
                );
                let shared = texture.clone();
                let ghost entries_old = self.entries@;
                self.entries.push((path.clone(), texture));
                proof {
                    let entry = self.entries@.last();
                    assert(self.entries@ =~= entries_old.push(entry));
                    lemma_find_none_iff(entries_old, path@);
                    assert forall|k2: Seq<char>|
                        k2 != path@ implies #[trigger] table_find(self.entries@, k2) == table_find(
                        entries_old,
                        k2,
                    ) by {
                        lemma_find_push(entries_old, entry.0, entry.1, k2);
                    }
                    lemma_find_push(entries_old, entry.0, entry.1, path@);
                    assert forall|a: int, b: int|
                        0 <= a < b < self.entries@.len() implies self.entries@[a].0@
                        != self.entries@[b].0@ by {
                        if b == self.entries@.len() - 1 {
                            assert(entries_old[a] == self.entries@[a]);
                        }
                    }
                }
                shared
            },
        }
    }

    /// Drop the entry for a path, if any; handles already handed out stay
    /// valid. Returns whether an entry was dropped.
    pub fn unload(&mut self, path: &String) -> (r: bool)
        requires
            old(self).wf(),
        ensures
            final(self).wf(),
            r == (old(self).spec_get(path@) is Some),
            final(self).spec_get(path@) is None,
            forall|k2: Seq<char>|
                k2 != path@ ==> #[trigger] final(self).spec_get(k2) == old(self).spec_get(k2),
            final(self).entries@.len() == old(self).entries@.len() - (if r {
                1int
            } else {
                0int
            }),
    {
        let mut i: usize = 0;
        while i < self.entries.len()
            invariant
                i <= self.entries@.len(),
                self.entries@ == old(self).entries@,
                table_distinct(self.entries@),
                forall|j: int| 0 <= j < i ==> self.entries@[j].0@ != path@,
            decreases self.entries@.len() - i,
        {
            if self.entries[i].0 == *path {
                proof {
                    lemma_find_skip(self.entries@, i as int, path@);
                    assert(self.entries@.skip(i as int)[0] == self.entries@[i as int]);
                }
                let ghost entries_old = self.entries@;
                self.entries.remove(i);
                proof {
                    entries_old.remove_ensures(i as int);
                    assert(self.entries@ == entries_old.remove(i as int));
                    assert forall|k2: Seq<char>|
                        k2 != path@ implies #[trigger] table_find(self.entries@, k2) == table_find(
                        entries_old,
                        k2,
                    ) by {
                        if k2 != entries_old[i as int].0@ {
                            lemma_find_remove(entries_old, i as int, k2);
                        }
                    }
                    assert forall|j: int|
                        0 <= j < self.entries@.len() implies self.entries@[j].0@ != path@ by {
                        if j < i {
                            assert(entries_old.remove(i as int)[j] == entries_old[j]);
                            assert(entries_old[j].0@ != entries_old[i as int].0@);
                        } else {
                            assert(entries_old.remove(i as int)[j] == entries_old[j + 1]);
                            assert(entries_old[j + 1].0@ != entries_old[i as int].0@);
                        }
                    }
                    lemma_find_none_iff(self.entries@, path@);
                    assert forall|a: int, b: int|
                        0 <= a < b < self.entries@.len() implies self.entries@[a].0@
                        != self.entries@[b].0@ by {
                        let a2 = if a < i { a } else { a + 1 };
                        let b2 = if b < i { b } else { b + 1 };
                        assert(entries_old.remove(i as int)[a] == entries_old[a2]);
                        assert(entries_old.remove(i as int)[b] == entries_old[b2]);
                    }
                }
                return true;
            }
            i = i + 1;
        }
        proof {
            lemma_find_none_iff(self.entries@, path@);
        }
        false
    }
}

impl Default for MeshCache {
    /// An empty cache, as [`MeshCache::new`].
    fn default() -> (r: Self)
        ensures
            r.entries@.len() == 0,
            r.wf(),
    {
        MeshCache::new()
    }
}

impl Default for TextureCache {
    /// An empty cache, as [`TextureCache::new`].
    fn default() -> (r: Self)
        ensures
            r.entries@.len() == 0,
            r.wf(),
    {
        TextureCache::new()
    }
}

} // verus!
