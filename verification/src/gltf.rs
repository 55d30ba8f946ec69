//! Turning decoded scene-file data into drawable meshes.
//!
//! Parsing the scene file and decoding its buffers and images is the frame
//! loop's work; it hands over, per primitive, plain attribute arrays. This
//! module owns the combination rules: missing normals default to the up
//! axis, missing texture coordinates to zero, attribute arrays of unequal
//! length are zipped to the shortest, primitives are concatenated with
//! their indices rebased onto the running vertex offset (wrapped to the
//! 16-bit index width), and a scene without any vertex is refused.

use vstd::prelude::*;

verus! {

use crate::camera::F32_BITS_ONE;
use crate::components::GltfVertex;
use crate::error::GltfLoadError;
use crate::gpu::GpuContext;
use crate::mesh::GpuMesh;

/// The attribute arrays of one decoded primitive, each scalar a float bit
/// pattern. An absent option means the file did not carry the attribute.
#[derive(Debug)]
pub struct PrimitiveData {
    pub positions: Option<Vec<[u32; 3]>>,
    pub normals: Option<Vec<[u32; 3]>>,
    pub uvs: Option<Vec<[u32; 2]>>,
    pub indices: Option<Vec<u32>>,
}

/// One combined mesh: vertices and 16-bit indices.
#[derive(Debug)]
pub struct GltfMeshData {
    pub vertices: Vec<GltfVertex>,
    pub indices: Vec<u16>,
}

/// A decoded image: RGBA, four bytes per pixel, rows in order.
#[derive(Debug)]
pub struct DecodedImage {
    pub width: u32,
    pub height: u32,
    pub data: Vec<u8>,
}

/// A material as the scene file declares it, its color factor as float bit
/// patterns.
#[derive(Debug)]
pub struct GltfMaterial {
    pub name: Option<String>,
    pub base_color_texture_index: Option<usize>,
    pub base_color_factor: [u32; 4],
}

/// A whole decoded scene file.
#[derive(Debug)]
pub struct GltfAsset {
    pub meshes: Vec<GltfMeshData>,
    pub textures: Vec<DecodedImage>,
    pub materials: Vec<GltfMaterial>,
}

/// The default normal: the up axis.
pub open spec fn default_normal() -> [u32; 3] {
    [0u32, F32_BITS_ONE, 0u32]
}

/// An index wrapped to the 16-bit index width.
pub open spec fn wrap16(v: int) -> u16 {
    (v % 0x10000) as u16
}

/// How many vertices a primitive contributes: its attribute arrays zipped
/// to the shortest present one.
pub open spec fn prim_vertex_count(p: PrimitiveData) -> int
    recommends
        p.positions is Some,
{
    let pl = p.positions.unwrap()@.len() as int;
    let nl = match p.normals {
        Some(n) => n@.len() as int,
        None => pl,
    };
    let ul = match p.uvs {
        Some(u) => u@.len() as int,
        None => pl,
    };
    vstd::math::min(pl, vstd::math::min(nl, ul))
}

/// The vertices a primitive contributes.
pub open spec fn prim_vertices(p: PrimitiveData) -> Seq<GltfVertex>
    recommends
        p.positions is Some,
{
    Seq::new(
        prim_vertex_count(p) as nat,
        |i: int|
            GltfVertex {
                position: p.positions.unwrap()@[i],
                normal: match p.normals {
                    Some(n) => n@[i],
                    None => default_normal(),
                },
                uv: match p.uvs {
                    Some(u) => u@[i],
                    None => [0u32, 0u32],
                },
            },
    )
}

/// The indices a primitive contributes, rebased onto the vertex offset the
/// combined mesh already holds: the file's own indices when it has them,
/// else the vertices in order.
pub open spec fn prim_indices(p: PrimitiveData, offset: int) -> Seq<u16> {
    match p.indices {
        Some(ix) => Seq::new(ix@.len(), |i: int| wrap16(ix@[i] + offset)),
        None => Seq::new(prim_vertex_count(p) as nat, |i: int| wrap16(i + offset)),
    }
}

/// All vertices of a primitive list, in order.
pub open spec fn combined_vertices(prims: Seq<PrimitiveData>) -> Seq<GltfVertex>
    decreases prims.len(),
{
    if prims.len() == 0 {
        Seq::empty()
    } else {
        combined_vertices(prims.drop_last()) + prim_vertices(prims.last())
    }
}

/// All indices of a primitive list, each primitive rebased onto the vertex
/// count before it.
pub open spec fn combined_indices(prims: Seq<PrimitiveData>) -> Seq<u16>
    decreases prims.len(),
{
    if prims.len() == 0 {
        Seq::empty()
    } else {
        combined_indices(prims.drop_last()) + prim_indices(
            prims.last(),
            combined_vertices(prims.drop_last()).len() as int,
        )
    }
}

/// Combine the decoded primitives of a scene file into one mesh.
///
/// This fails with [`GltfLoadError::MissingPosition`] exactly when some
/// primitive lacks positions, and with [`GltfLoadError::NoPrimitives`]
/// exactly when the primitives contribute no vertex at all; otherwise the
/// result holds exactly the combined vertices and rebased indices.
pub fn combine_primitives(prims: &Vec<PrimitiveData>) -> (r: Result<GltfMeshData, GltfLoadError>)
    requires
        combined_vertices(prims@).len() <= u32::MAX,
    ensures
        (r matches Err(e) && e == GltfLoadError::MissingPosition) <==> (exists|i: int|
            0 <= i < prims@.len() && prims@[i].positions is None),
        (r matches Err(e) && e == GltfLoadError::NoPrimitives) <==> ((forall|i: int|
            0 <= i < prims@.len() ==> prims@[i].positions is Some) && combined_vertices(
            prims@,
        ).len() == 0),
        r matches Ok(d) ==> d.vertices@ == combined_vertices(prims@) && d.indices@
            == combined_indices(prims@),
        r is Ok <==> ((forall|i: int| 0 <= i < prims@.len() ==> prims@[i].positions is Some)
            && combined_vertices(prims@).len() > 0),
{
    let mut vertices: Vec<GltfVertex> = Vec::new();
    let mut indices: Vec<u16> = Vec::new();
    let mut i: usize = 0;

    while i < prims.len()
        invariant
            i <= prims@.len(),
            forall|j: int| 0 <= j < i ==> prims@[j].positions is Some,
            vertices@ == combined_vertices(prims@.take(i as int)),
            indices@ == combined_indices(prims@.take(i as int)),
            combined_vertices(prims@).len() <= u32::MAX,
        decreases prims@.len() - i,
    {
        proof {
            lemma_combined_prefix_bound(prims@, i as int);
        }
        let prim = &prims[i];
        let positions = match &prim.positions {
            Some(p) => p,
            None => {
                return Err(GltfLoadError::MissingPosition);
            },
        };

        let mut count = positions.len();
        match &prim.normals {
            Some(n) => {
                if n.len() < count {
                    count = n.len();
                }
            },
            None => {},
        }
        match &prim.uvs {
            Some(u) => {
                if u.len() < count {
                    count = u.len();
                }
            },
            None => {},
        }
        proof {
            assert(count == prim_vertex_count(prims@[i as int]));
        }

        let offset = vertices.len();
        proof {
            assert(offset <= u32::MAX) by {
                lemma_combined_prefix_bound(prims@, i as int);
            }
        }

        let mut j: usize = 0;
        let ghost prim_snap = prims@[i as int];
        while j < count
            invariant
                j <= count,
                count == prim_vertex_count(prim_snap),
                prim_snap == prims@[i as int],
                0 <= i < prims@.len(),
                prim_snap.positions is Some,
                prim == &prims@[i as int],
                positions == &prim_snap.positions.unwrap(),
                vertices@ == combined_vertices(prims@.take(i as int)) + prim_vertices(
                    prim_snap,
                ).take(j as int),
            decreases count - j,
        {
            let normal: [u32; 3] = match &prim.normals {
                Some(n) => n[j],
                None => [0, F32_BITS_ONE, 0],
            };
            let uv: [u32; 2] = match &prim.uvs {
                Some(u) => u[j],
                None => [0, 0],
            };
            vertices.push(GltfVertex { position: positions[j], normal, uv });
            proof {
                assert(prim_vertices(prim_snap).take(j as int + 1) =~= prim_vertices(
                    prim_snap,
                ).take(j as int).push(prim_vertices(prim_snap)[j as int]));
            }
            j = j + 1;
        }
        proof {
            assert(prim_vertices(prim_snap).take(count as int) =~= prim_vertices(prim_snap));
        }

        match &prim.indices {
            Some(ix) => {
                let mut k: usize = 0;
                while k < ix.len()
                    invariant
                        k <= ix@.len(),
                        prim_snap == prims@[i as int],
                        0 <= i < prims@.len(),
                        prim == &prims@[i as int],
                        prim_snap.indices matches Some(v) && ix == &v,
                        offset <= u32::MAX,
                        indices@ == combined_indices(prims@.take(i as int)) + prim_indices(
                            prim_snap,
                            offset as int,
                        ).take(k as int),
                    decreases ix@.len() - k,
                {
                    let idx64: u64 = ix[k] as u64 + offset as u64;
                    let wrapped: u16 = (idx64 % 0x10000) as u16;
                    indices.push(wrapped);
                    proof {
                        assert(wrapped == wrap16(ix@[k as int] + offset));
                        assert(prim_indices(prim_snap, offset as int).take(k as int + 1)
                            =~= prim_indices(prim_snap, offset as int).take(k as int).push(
                            prim_indices(prim_snap, offset as int)[k as int],
                        ));
                    }
                    k = k + 1;
                }
                proof {
                    assert(prim_indices(prim_snap, offset as int).take(
                        prim_snap.indices.unwrap()@.len() as int,
                    ) =~= prim_indices(prim_snap, offset as int));
                }
            },
            None => {
                proof {
                    assert(prims@.take(i as int + 1).drop_last() =~= prims@.take(i as int));
                    assert(prims@.take(i as int + 1).last() == prims@[i as int]);
                    assert(combined_vertices(prims@.take(i as int + 1)).len() == offset + count);
                    lemma_combined_prefix_bound(prims@, i as int + 1);
                }
                let mut k: usize = 0;
                while k < count
                    invariant
                        k <= count,
                        count == prim_vertex_count(prim_snap),
                        prim_snap == prims@[i as int],
                        0 <= i < prims@.len(),
                        prim == &prims@[i as int],
                        prim_snap.indices is None,
                        offset <= u32::MAX,
                        count <= u32::MAX,
                        indices@ == combined_indices(prims@.take(i as int)) + prim_indices(
                            prim_snap,
                            offset as int,
                        ).take(k as int),
                    decreases count - k,
                {
                    let idx64: u64 = k as u64 + offset as u64;
                    let wrapped: u16 = (idx64 % 0x10000) as u16;
                    indices.push(wrapped);
                    proof {
                        assert(wrapped == wrap16(k + offset));
                        assert(prim_indices(prim_snap, offset as int).take(k as int + 1)
                            =~= prim_indices(prim_snap, offset as int).take(k as int).push(
                            prim_indices(prim_snap, offset as int)[k as int],
                        ));
                    }
                    k = k + 1;
                }
                proof {
                    assert(prim_indices(prim_snap, offset as int).take(count as int)
                        =~= prim_indices(prim_snap, offset as int));
                }
            },
        }

        proof {
            assert(prims@.take(i as int + 1).drop_last() =~= prims@.take(i as int));
            assert(prims@.take(i as int + 1).last() == prims@[i as int]);
        }
        i = i + 1;
    }

    proof {
        assert(prims@.take(prims@.len() as int) =~= prims@);
    }

    if vertices.is_empty() {
        return Err(GltfLoadError::NoPrimitives);
    }

    Ok(GltfMeshData { vertices, indices })
}

/// The vertices of a prefix are a prefix of all the vertices, so their
/// count is bounded by the whole count.
proof fn lemma_combined_prefix_bound(prims: Seq<PrimitiveData>, i: int)
    requires
        0 <= i <= prims.len(),
    ensures
        combined_vertices(prims.take(i)).len() <= combined_vertices(prims).len(),
    decreases prims.len() - i,
{
    if i == prims.len() {
        assert(prims.take(i) =~= prims);
    } else {
        assert(prims.take(i + 1).drop_last() =~= prims.take(i));
        assert(combined_vertices(prims.take(i + 1)).len() >= combined_vertices(
            prims.take(i),
        ).len());
        lemma_combined_prefix_bound(prims, i + 1);
    }
}

/// Upload the first combined mesh of a decoded scene; a scene without
/// meshes is refused.
pub fn gpu_mesh_from_asset(ctx: &mut GpuContext, asset: &GltfAsset, label: Option<&str>) -> (r:
    Result<GpuMesh, GltfLoadError>)
    requires
        old(ctx).can_alloc(2),
        asset.meshes@.len() > 0 ==> asset.meshes@[0].indices@.len() <= u32::MAX,
    ensures
        asset.meshes@.len() == 0 <==> (r matches Err(e) && e == GltfLoadError::NoPrimitives),
        asset.meshes@.len() == 0 ==> *final(ctx) == *old(ctx),
        asset.meshes@.len() > 0 ==> (r matches Ok(m) && {
            &&& m.index_count == asset.meshes@[0].indices@.len()
            &&& m.vertex_buffer.buffer.id == old(ctx).next_id
            &&& m.index_buffer.buffer.id == old(ctx).next_id + 1
            &&& final(ctx).next_id == old(ctx).next_id + 2
        }),
        final(ctx).features == old(ctx).features,
        final(ctx).limits == old(ctx).limits,
        final(ctx).device_label == old(ctx).device_label,
        final(ctx).submitted == old(ctx).submitted,
{
    if asset.meshes.len() == 0 {
        return Err(GltfLoadError::NoPrimitives);
    }
    let data = &asset.meshes[0];
    Ok(GpuMesh::new(ctx, &data.vertices, &data.indices, label))
}

} // verus!
