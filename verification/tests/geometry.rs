use soyuz::components::GltfVertex;
use soyuz::error::GltfLoadError;
use soyuz::gltf::{combine_primitives, gpu_mesh_from_asset, GltfAsset, GltfMeshData, PrimitiveData};
use soyuz::gpu::{GpuContext, Limits};
use soyuz::mesh::GpuMesh;
use soyuz::pipeline::{gltf_vertex_layout, VertexFormat, VertexStepMode};
use soyuz::render_pass::{IndexFormat, RenderCommand, RenderPassBuilder};

fn ctx() -> GpuContext {
    GpuContext::new(0, Limits::defaults(), None)
}

fn tri_vertices() -> Vec<GltfVertex> {
    let z = 0u32;
    let one = 1.0f32.to_bits();
    vec![
        GltfVertex::new([z, z, z], [z, one, z], [z, z]),
        GltfVertex::new([one, z, z], [z, one, z], [one, z]),
        GltfVertex::new([z, one, z], [z, one, z], [z, one]),
    ]
}

#[test]
fn mesh_index_count_equals_supplied_indices() {
    // For a valid (vertex-count, index-count) pair, construction yields an
    // index count equal to the supplied index array length.
    let mut gpu = ctx();
    let vertices = tri_vertices();
    let indices: Vec<u16> = vec![0, 1, 2, 2, 1, 0, 1, 0, 2];
    let mesh = GpuMesh::new(&mut gpu, &vertices, &indices, Some("tri"));
    assert_eq!(mesh.index_count, 9);
    assert_eq!(mesh.index_buffer.count, 9);
}

#[test]
fn mesh_draw_issues_exactly_index_count() {
    // A draw of the mesh records exactly one indexed draw over all its
    // indices for one instance.
    let mut gpu = ctx();
    let vertices = tri_vertices();
    let indices: Vec<u16> = vec![0, 1, 2];
    let mesh = GpuMesh::new(&mut gpu, &vertices, &indices, None);
    let mut pass = RenderPassBuilder::new().begin_depth_only(42);
    mesh.draw(&mut pass);
    assert_eq!(pass.commands.len(), 3);
    assert_eq!(
        pass.commands[0],
        RenderCommand::SetVertexBuffer { slot: 0, buffer: mesh.vertex_buffer.buffer.id }
    );
    assert_eq!(
        pass.commands[1],
        RenderCommand::SetIndexBuffer {
            buffer: mesh.index_buffer.buffer.id,
            format: IndexFormat::Uint16,
        }
    );
    assert_eq!(
        pass.commands[2],
        RenderCommand::DrawIndexed {
            index_start: 0,
            index_end: 3,
            base_vertex: 0,
            instance_start: 0,
            instance_end: 1,
        }
    );
}

#[test]
fn mesh_with_empty_indices_draws_zero() {
    let mut gpu = ctx();
    let vertices = tri_vertices();
    let indices: Vec<u16> = vec![];
    let mesh = GpuMesh::new(&mut gpu, &vertices, &indices, None);
    assert_eq!(mesh.index_count, 0);
}

fn positions(n: u32) -> Vec<[u32; 3]> {
    (0..n).map(|i| [(i as f32).to_bits(), 0, 0]).collect()
}

#[test]
fn combine_concatenates_primitives_and_rebases_indices() {
    let prims = vec![
        PrimitiveData {
            positions: Some(positions(3)),
            normals: Some(vec![[0, 0, 1.0f32.to_bits()]; 3]),
            uvs: Some(vec![[0, 0]; 3]),
            indices: Some(vec![0, 1, 2]),
        },
        PrimitiveData {
            positions: Some(positions(2)),
            normals: None,
            uvs: None,
            indices: None,
        },
    ];
    let data = combine_primitives(&prims).unwrap();
    assert_eq!(data.vertices.len(), 5);
    // Missing normals default to the up axis, missing texture coordinates
    // to zero.
    assert_eq!(data.vertices[3].normal, [0, 1.0f32.to_bits(), 0]);
    assert_eq!(data.vertices[3].uv, [0, 0]);
    // The second primitive's generated indices are rebased past the three
    // vertices before it.
    assert_eq!(data.indices, vec![0, 1, 2, 3, 4]);
}

#[test]
fn combine_zips_attribute_arrays_to_the_shortest() {
    let prims = vec![PrimitiveData {
        positions: Some(positions(3)),
        normals: Some(vec![[0, 1.0f32.to_bits(), 0]; 2]),
        uvs: None,
        indices: None,
    }];
    let data = combine_primitives(&prims).unwrap();
    assert_eq!(data.vertices.len(), 2);
    assert_eq!(data.indices, vec![0, 1]);
}

#[test]
fn combine_wraps_indices_to_sixteen_bits() {
    let prims = vec![PrimitiveData {
        positions: Some(positions(1)),
        normals: None,
        uvs: None,
        indices: Some(vec![65537]),
    }];
    let data = combine_primitives(&prims).unwrap();
    assert_eq!(data.indices, vec![1]);
}

#[test]
fn combine_missing_positions_is_an_error() {
    let prims = vec![
        PrimitiveData { positions: Some(positions(2)), normals: None, uvs: None, indices: None },
        PrimitiveData { positions: None, normals: None, uvs: None, indices: None },
    ];
    assert_eq!(combine_primitives(&prims).unwrap_err(), GltfLoadError::MissingPosition);
}

#[test]
fn combine_no_vertices_is_an_error() {
    let prims: Vec<PrimitiveData> = vec![];
    assert_eq!(combine_primitives(&prims).unwrap_err(), GltfLoadError::NoPrimitives);
    let empty = vec![PrimitiveData {
        positions: Some(vec![]),
        normals: None,
        uvs: None,
        indices: None,
    }];
    assert_eq!(combine_primitives(&empty).unwrap_err(), GltfLoadError::NoPrimitives);
}

#[test]
fn asset_without_meshes_is_refused() {
    let mut gpu = ctx();
    let asset = GltfAsset { meshes: vec![], textures: vec![], materials: vec![] };
    let r = gpu_mesh_from_asset(&mut gpu, &asset, None);
    assert_eq!(r.unwrap_err(), GltfLoadError::NoPrimitives);
}

#[test]
fn asset_first_mesh_is_uploaded() {
    let mut gpu = ctx();
    let asset = GltfAsset {
        meshes: vec![GltfMeshData { vertices: tri_vertices(), indices: vec![0, 1, 2] }],
        textures: vec![],
        materials: vec![],
    };
    let mesh = gpu_mesh_from_asset(&mut gpu, &asset, Some("scene")).unwrap();
    assert_eq!(mesh.index_count, 3);
}

#[test]
fn gltf_vertex_layout_matches_vertex_shape() {
    let layout = gltf_vertex_layout();
    assert_eq!(layout.array_stride, 32);
    assert_eq!(layout.step_mode, VertexStepMode::Vertex);
    assert_eq!(layout.attributes.len(), 3);
    assert_eq!(layout.attributes[0].format, VertexFormat::Float32x3);
    assert_eq!(layout.attributes[0].offset, 0);
    assert_eq!(layout.attributes[1].offset, 12);
    assert_eq!(layout.attributes[2].format, VertexFormat::Float32x2);
    assert_eq!(layout.attributes[2].offset, 24);
    assert_eq!(layout.attributes[2].shader_location, 2);
}
