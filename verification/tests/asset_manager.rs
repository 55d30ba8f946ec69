use soyuz::assets::{AssetManager, MAX_TEXTURES};
use soyuz::bind_group::BindResource;
use soyuz::cache::{MeshHandle, TextureCache};
use soyuz::components::GltfVertex;
use soyuz::gltf::{DecodedImage, GltfMeshData};
use soyuz::gpu::{GpuContext, Limits};
use soyuz::texture::GpuTexture;

fn ctx() -> GpuContext {
    GpuContext::new(0, Limits::defaults(), None)
}

fn white_pixel(gpu: &mut GpuContext) -> GpuTexture {
    GpuTexture::from_rgba(gpu, 1, 1, vec![255, 255, 255, 255], None)
}

fn tri_mesh_data() -> GltfMeshData {
    let z = 0u32;
    let one = 1.0f32.to_bits();
    GltfMeshData {
        vertices: vec![
            GltfVertex::new([z, z, z], [z, one, z], [z, z]),
            GltfVertex::new([one, z, z], [z, one, z], [one, z]),
            GltfVertex::new([z, one, z], [z, one, z], [z, one]),
        ],
        indices: vec![0, 1, 2],
    }
}

#[test]
fn registering_the_same_name_twice_returns_the_same_slot() {
    // The second registration returns the identical slot index and does
    // not change the cache size.
    let mut gpu = ctx();
    let mut assets = AssetManager::new(&mut gpu);
    let t1 = white_pixel(&mut gpu);
    let t2 = white_pixel(&mut gpu);
    let first = assets.register_texture_for_rendering(&t1, "stone.png".to_string());
    let size = assets.texture_index_map.len();
    let second = assets.register_texture_for_rendering(&t2, "stone.png".to_string());
    assert_eq!(first, second);
    assert_eq!(assets.texture_index_map.len(), size);
    assert_eq!(first, 1);
}

#[test]
fn registration_order_assigns_slots_from_one() {
    let mut gpu = ctx();
    let mut assets = AssetManager::new(&mut gpu);
    let t = white_pixel(&mut gpu);
    assert_eq!(assets.register_texture_for_rendering(&t, "a".to_string()), 1);
    assert_eq!(assets.register_texture_for_rendering(&t, "b".to_string()), 2);
    assert_eq!(assets.register_texture_for_rendering(&t, "a".to_string()), 1);
    assert_eq!(assets.register_texture_for_rendering(&t, "c".to_string()), 3);
}

#[test]
fn capacity_is_exceeded_exactly_at_the_boundary() {
    // Slot 0 is reserved, so 511 names fit; the next fresh name would take
    // slot index 512 == capacity and is refused — never earlier.
    let mut gpu = ctx();
    let mut assets = AssetManager::new(&mut gpu);
    let t = white_pixel(&mut gpu);
    for i in 1..MAX_TEXTURES {
        let r = assets.try_register_texture_for_rendering(&t, format!("tex-{}", i));
        assert_eq!(r, Some(i as u32));
    }
    // Re-registering a known name still succeeds at a full table.
    assert_eq!(
        assets.try_register_texture_for_rendering(&t, "tex-1".to_string()),
        Some(1)
    );
    // The 512th fresh name hits the boundary.
    assert_eq!(assets.try_register_texture_for_rendering(&t, "overflow".to_string()), None);
    // The refusal changes nothing: the table keeps its entries and known
    // names keep their slots.
    assert_eq!(assets.texture_index_map.len(), MAX_TEXTURES - 1);
    assert_eq!(
        assets.try_register_texture_for_rendering(&t, "tex-2".to_string()),
        Some(2)
    );
}

#[test]
fn bind_group_rebuild_is_idempotent() {
    // Cleaning twice in a row without intervening registrations yields a
    // bind group referencing the same slot contents both times.
    let mut gpu = ctx();
    let mut assets = AssetManager::new(&mut gpu);
    let t = white_pixel(&mut gpu);
    assets.register_texture_for_rendering(&t, "brick".to_string());
    assert!(assets.bind_group_dirty);

    assets.update_texture_bindings(&mut gpu);
    assert!(!assets.bind_group_dirty);
    let first_id = assets.texture_bind_group.id;
    let first_resources = assets.texture_bind_group.resources.clone();

    assets.update_texture_bindings(&mut gpu);
    assert_eq!(assets.texture_bind_group.id, first_id);
    assert_eq!(assets.texture_bind_group.resources, first_resources);
}

#[test]
fn clean_bind_group_references_current_slots() {
    let mut gpu = ctx();
    let mut assets = AssetManager::new(&mut gpu);
    let t = white_pixel(&mut gpu);
    let slot = assets.register_texture_for_rendering(&t, "wood".to_string());
    assets.update_texture_bindings(&mut gpu);
    match &assets.texture_bind_group.resources[0] {
        BindResource::TextureViewArray(binding, ids) => {
            assert_eq!(*binding, 0);
            assert_eq!(ids.len(), MAX_TEXTURES);
            assert_eq!(ids[slot as usize], t.id);
        }
        other => panic!("unexpected resource: {:?}", other),
    }
}

#[test]
fn new_manager_fills_slots_with_the_default_texture() {
    let mut gpu = ctx();
    let assets = AssetManager::new(&mut gpu);
    assert_eq!(assets.texture_slots.len(), MAX_TEXTURES);
    let default_id = assets.texture_slots[0].id;
    assert!(assets.texture_slots.iter().all(|t| t.id == default_id));
    // Every slot holds the one-by-one opaque white default.
    assert!(assets
        .texture_slots
        .iter()
        .all(|t| t.size.width == 1 && t.size.height == 1 && t.data == vec![255u8; 4]));
    assert!(!assets.bind_group_dirty);
    let got = assets.get_texture_by_index(0).unwrap();
    assert_eq!(got.id, default_id);
    assert!(assets.get_texture_by_index(MAX_TEXTURES as u32).is_none());
}

#[test]
fn loading_the_same_mesh_path_shares_one_upload() {
    // Two entities loading the same path reference the same underlying
    // buffer pair, and only one upload happened.
    let mut gpu = ctx();
    let mut assets = AssetManager::new(&mut gpu);
    let path = "meshes/crate.gltf".to_string();
    let data = tri_mesh_data();

    let first = assets.load_mesh(&mut gpu, &path, &data);
    let ids_after_first = gpu.next_id;
    let second = assets.load_mesh(&mut gpu, &path, &data);

    assert_eq!(first.vertex_buffer.buffer.id, second.vertex_buffer.buffer.id);
    assert_eq!(first.index_buffer.buffer.id, second.index_buffer.buffer.id);
    // No new GPU resource came into being for the second load.
    assert_eq!(gpu.next_id, ids_after_first);
    assert_eq!(assets.meshes.entries.len(), 1);
}

#[test]
fn unloading_a_mesh_keeps_handles_alive() {
    let mut gpu = ctx();
    let mut assets = AssetManager::new(&mut gpu);
    let path = "meshes/rock.gltf".to_string();
    let data = tri_mesh_data();
    let handle = assets.load_mesh(&mut gpu, &path, &data);
    assert!(assets.unload_mesh(&path));
    assert!(!assets.unload_mesh(&path));
    assert!(assets.get_mesh(&path).is_none());
    // The handle handed out earlier still names its buffers.
    assert_eq!(handle.index_count, 3);
}

#[test]
fn mesh_handles_name_meshes_by_path() {
    let h = MeshHandle::new("meshes/crate.gltf");
    let h2 = h.clone();
    assert_eq!(h, h2);
    assert_eq!(h.path, "meshes/crate.gltf");
    // A fresh texture cache holds nothing.
    let cache = TextureCache::new();
    assert!(cache.get(&"anything".to_string()).is_none());
}

#[test]
fn texture_cache_deduplicates_by_path() {
    let mut gpu = ctx();
    let mut assets = AssetManager::new(&mut gpu);
    let path = "textures/wall.png".to_string();
    let img = DecodedImage { width: 2, height: 1, data: vec![0; 8] };
    let a = assets.load_texture(&mut gpu, &path, &img);
    let before = gpu.next_id;
    let b = assets.load_texture(&mut gpu, &path, &img);
    assert_eq!(a.id, b.id);
    assert_eq!(gpu.next_id, before);
    assert!(assets.get_texture(&path).is_some());
    assert!(assets.unload_texture(&path));
    assert!(assets.get_texture(&path).is_none());
}

#[test]
fn load_texture_for_rendering_deduplicates_both_layers() {
    let mut gpu = ctx();
    let mut assets = AssetManager::new(&mut gpu);
    let path = "textures/grass.png".to_string();
    let img = DecodedImage { width: 1, height: 1, data: vec![1, 2, 3, 4] };
    let s1 = assets.load_texture_for_rendering(&mut gpu, &path, &img);
    let before = gpu.next_id;
    let s2 = assets.load_texture_for_rendering(&mut gpu, &path, &img);
    assert_eq!(s1, s2);
    assert_eq!(gpu.next_id, before);
    // The texture landed in the path cache as well as in its slot.
    let cached = assets.get_texture(&path).unwrap();
    assert_eq!(cached.id, assets.texture_slots[s1 as usize].id);
}
