use soyuz::assets::AssetManager;
use soyuz::camera::{Camera, CameraBuffer, ProjectionType};
use soyuz::components::GltfVertex;
use soyuz::mesh::GpuMesh;
use soyuz::render_pass::RenderCommand;
use soyuz::components::{DirectionalLight, PointLight, WindowResizeEvent};
use soyuz::error::RenderError;
use soyuz::frame::{
    handle_resize_event, render_frame, DrawItem, RenderingContext, RenderingState,
};
use soyuz::gltf::{DecodedImage, GltfMaterial};
use soyuz::gpu::{GpuContext, GpuContextBuilder, Limits, PowerPreference, BACKENDS_ALL};
use soyuz::lighting::{
    build_lighting_data, LightingBuffer, LightingData, MAX_POINT_LIGHTS, LIGHTING_DATA_SIZE,
};
use soyuz::pipeline::{BlendState, PipelineBuilder, RenderPipeline};
use soyuz::render_pass::{ColorLoadOp, DepthLoadOp, RenderPassBuilder, StencilLoadOp};
use soyuz::shader::{Shader, ShaderBuilder};
use soyuz::shadow::{upload_light_space, LightCameraBuffer, ShadowMap, SHADOW_MAP_SIZE};
use soyuz::surface::Surface;
use soyuz::texture::TextureFormat;

fn ctx() -> GpuContext {
    GpuContext::new(0, Limits::defaults(), None)
}

#[test]
fn lighting_upload_reflects_the_scene_lights() {
    // One point light at (0, 5, 0) with intensity 2.0 and one directional
    // light pointing down: the block carries exactly one point light with
    // that intensity, and the directional entry matches the input.
    let point = (
        [0u32, 5.0f32.to_bits(), 0u32],
        PointLight {
            color: [1.0f32.to_bits(); 3],
            intensity: 2.0f32.to_bits(),
            radius: 10.0f32.to_bits(),
        },
    );
    let directional = DirectionalLight {
        direction: [0, (-1.0f32).to_bits(), 0],
        color: [1.0f32.to_bits(); 3],
        intensity: 1.0f32.to_bits(),
    };
    let data = build_lighting_data(&vec![point], Some(&directional));
    assert_eq!(data.num_point_lights, 1);
    assert_eq!(f32::from_bits(data.point_lights[0].intensity), 2.0);
    assert_eq!(
        data.point_lights[0].position,
        [0, 5.0f32.to_bits(), 0, 1.0f32.to_bits()]
    );
    assert_eq!(data.directional_light.direction, [0, (-1.0f32).to_bits(), 0]);
    assert_eq!(f32::from_bits(data.directional_light.intensity), 1.0);
    // Unused entries stay zero.
    assert_eq!(data.point_lights[1].intensity, 0);
    assert_eq!(data.point_lights[15].position, [0, 0, 0, 0]);
}

#[test]
fn lighting_upload_caps_at_sixteen_lights() {
    let light = PointLight {
        color: [1.0f32.to_bits(); 3],
        intensity: 1.0f32.to_bits(),
        radius: 1.0f32.to_bits(),
    };
    let many: Vec<([u32; 3], PointLight)> = (0..20).map(|i| ([i as u32, 0, 0], light)).collect();
    let data = build_lighting_data(&many, None);
    assert_eq!(data.num_point_lights, MAX_POINT_LIGHTS as u32);
    assert_eq!(data.point_lights.len(), MAX_POINT_LIGHTS);
    assert_eq!(data.directional_light.intensity, 0);
}

#[test]
fn lighting_buffer_layout_places_the_count_after_the_lights() {
    let mut gpu = ctx();
    let mut lb = LightingBuffer::new(&mut gpu);
    assert_eq!(lb.buffer.buffer.contents.len(), LIGHTING_DATA_SIZE);
    let mut data = LightingData::default();
    data.num_point_lights = 3;
    data.point_lights[0].intensity = 2.5f32.to_bits();
    data.directional_light.intensity = 0.75f32.to_bits();
    lb.update(&data);
    let bytes = &lb.buffer.buffer.contents;
    // Sixteen lights of 48 bytes come first; the count follows at 768.
    assert_eq!(&bytes[768..772], 3u32.to_le_bytes().as_slice());
    // The first light's intensity sits at word 8 of its 12-word block.
    assert_eq!(&bytes[32..36], 2.5f32.to_bits().to_le_bytes().as_slice());
    // The directional light follows the count and its padding, at 784;
    // its intensity is its eighth word.
    assert_eq!(&bytes[812..816], 0.75f32.to_bits().to_le_bytes().as_slice());
    assert_eq!(bytes.len(), LIGHTING_DATA_SIZE);
}

#[test]
fn shadow_map_holds_its_fixed_resolution() {
    let mut gpu = ctx();
    let sm = ShadowMap::new(&mut gpu);
    assert_eq!(sm.texture.size.width, SHADOW_MAP_SIZE);
    assert_eq!(sm.texture.size.height, SHADOW_MAP_SIZE);
    assert_eq!(sm.texture.format, TextureFormat::Depth32Float);
    // The main pass samples it with a comparison sampler.
    assert_eq!(
        sm.sampler.config.compare,
        Some(soyuz::texture::CompareFunction::LessEqual)
    );
    assert_eq!(
        sm.sampler.config.address_mode,
        soyuz::texture::AddressMode::ClampToEdge
    );
    // The matrix uniform starts as the identity.
    assert_eq!(
        &sm.light_space_buffer.buffer.contents[0..4],
        1.0f32.to_bits().to_le_bytes().as_slice()
    );
    assert_eq!(&sm.light_space_buffer.buffer.contents[4..8], &[0, 0, 0, 0]);
}

#[test]
fn light_space_upload_reaches_both_consumers() {
    let mut gpu = ctx();
    let mut sm = ShadowMap::new(&mut gpu);
    let mut lc = LightCameraBuffer::new(&mut gpu);
    let m: [u32; 16] = core::array::from_fn(|i| ((i + 1) as f32).to_bits());
    upload_light_space(&mut sm, &mut lc, &m);
    assert_eq!(sm.light_space_buffer.buffer.contents, lc.buffer.contents);
    assert_eq!(
        &lc.buffer.contents[60..64],
        16.0f32.to_bits().to_le_bytes().as_slice()
    );
}

#[test]
fn render_pass_clear_color_means_clear_load_op() {
    let pass = RenderPassBuilder::new()
        .clear_color(
            0.1f64.to_bits(),
            0.2f64.to_bits(),
            0.3f64.to_bits(),
            1.0f64.to_bits(),
        )
        .begin(5, Some(6));
    let color = pass.descriptor.color.unwrap();
    assert_eq!(color.view, 5);
    match color.load {
        ColorLoadOp::Clear(c) => {
            assert_eq!(f64::from_bits(c.r), 0.1);
            assert_eq!(f64::from_bits(c.a), 1.0);
        }
        ColorLoadOp::Load => panic!("expected a clear"),
    }
    let depth = pass.descriptor.depth.unwrap();
    assert_eq!(depth.depth_load, DepthLoadOp::Load);
    assert_eq!(depth.stencil_load, StencilLoadOp::Load);
}

#[test]
fn render_pass_without_clear_color_loads_previous_contents() {
    let pass = RenderPassBuilder::new().clear_depth(1.0f32.to_bits()).begin(5, Some(6));
    assert_eq!(pass.descriptor.color.unwrap().load, ColorLoadOp::Load);
    assert_eq!(
        pass.descriptor.depth.unwrap().depth_load,
        DepthLoadOp::Clear(1.0f32.to_bits())
    );
}

#[test]
fn depth_only_pass_has_no_color_attachment() {
    let pass = RenderPassBuilder::new().label("Shadow Pass").begin_depth_only(9);
    assert!(pass.descriptor.color.is_none());
    assert_eq!(pass.descriptor.depth.unwrap().view, 9);
}

#[test]
fn shader_builder_without_source_fails() {
    let mut gpu = ctx();
    let r = ShaderBuilder::new().label("empty").build(&mut gpu);
    assert!(matches!(r, Err(RenderError::ShaderCompilation(_))));
    let ok = ShaderBuilder::new().source("fn main() {}").build(&mut gpu).unwrap();
    assert_eq!(ok.source(), "fn main() {}");
}

#[test]
fn pipeline_without_vertex_shader_fails() {
    let mut gpu = ctx();
    let r = RenderPipeline::builder().build(&mut gpu);
    assert!(matches!(r, Err(RenderError::MissingVertexShader)));
}

#[test]
fn pipeline_combined_shader_uses_conventional_entry_points() {
    let mut gpu = ctx();
    let shader = Shader::from_wgsl(&mut gpu, "shader source", None);
    let module = shader.id;
    let p = PipelineBuilder::new().shader(shader).build(&mut gpu).unwrap();
    assert_eq!(p.vertex_module, module);
    assert_eq!(p.vertex_entry.as_str(), "vs_main");
    let f = p.fragment.unwrap();
    assert_eq!(f.module, module);
    assert_eq!(f.entry.as_str(), "fs_main");
    // The default color target is a single opaque sRGB target.
    assert_eq!(p.color_targets.len(), 1);
    assert_eq!(p.color_targets[0].blend, Some(BlendState::Replace));
}

#[test]
fn pipeline_separate_shaders_win_over_combined() {
    let mut gpu = ctx();
    let combined = Shader::from_wgsl(&mut gpu, "combined", None);
    let vertex = Shader::from_wgsl(&mut gpu, "vertex", None);
    let vertex_id = vertex.id;
    let p = PipelineBuilder::new()
        .shader(combined)
        .vertex_shader(vertex, "custom_vs")
        .no_fragment_shader()
        .build(&mut gpu)
        .unwrap();
    assert_eq!(p.vertex_module, vertex_id);
    assert_eq!(p.vertex_entry.as_str(), "custom_vs");
    assert!(p.fragment.is_none());
}

#[test]
fn gpu_context_builder_accumulates_features() {
    let b = GpuContextBuilder::new();
    assert_eq!(b.backends, BACKENDS_ALL);
    assert_eq!(b.power_preference, PowerPreference::HighPerformance);
    let b = b.add_features(0x1).add_features(0x2);
    assert_eq!(b.required_features, 0x3);
    let gpu = b.into_context();
    assert!(gpu.supports_feature(0x1));
    assert!(gpu.supports_feature(0x3));
    assert!(!gpu.supports_feature(0x4));
    assert_eq!(gpu.next_id, 0);
}

#[test]
fn material_from_scene_file_uses_texture_when_present() {
    let mut gpu = ctx();
    let mut assets = AssetManager::new(&mut gpu);
    let img = DecodedImage { width: 1, height: 1, data: vec![9, 9, 9, 9] };
    let with_texture = GltfMaterial {
        name: None,
        base_color_texture_index: Some(0),
        base_color_factor: [1.0f32.to_bits(); 4],
    };
    let m = assets.load_material_from_gltf(
        &mut gpu,
        &with_texture,
        &vec![img],
        "gltf-tex-0".to_string(),
    );
    assert_eq!(m.texture_index, 1);
    assert_eq!(m.base_color, [1.0f32.to_bits(); 4]);

    let without = GltfMaterial {
        name: None,
        base_color_texture_index: None,
        base_color_factor: [0.5f32.to_bits(); 4],
    };
    let m2 = assets.load_material_from_gltf(&mut gpu, &without, &vec![], "unused".to_string());
    assert_eq!(m2.texture_index, 0);
    assert_eq!(m2.base_color, [0.5f32.to_bits(); 4]);
}

fn full_stack() -> (RenderingContext, AssetManager, CameraBuffer, LightingBuffer, ShadowMap, LightCameraBuffer, Camera)
{
    let mut gpu = ctx();
    let assets = AssetManager::new(&mut gpu);
    let camera_buffer = CameraBuffer::new(&mut gpu);
    let lighting_buffer = LightingBuffer::new(&mut gpu);
    let shadow_map = ShadowMap::new(&mut gpu);
    let light_camera = LightCameraBuffer::new(&mut gpu);
    let basic_shader = Shader::from_wgsl(&mut gpu, "basic", None);
    let shadow_shader = Shader::from_wgsl(&mut gpu, "shadow", None);
    let surface = Surface::new(800, 600, &vec![TextureFormat::Bgra8UnormSrgb]);
    let texture_layout = assets.texture_bind_group_layout().clone();
    let camera_layout = camera_buffer.bind_group_layout().clone();
    let lighting_layout = lighting_buffer.bind_group_layout().clone();
    let shadow_layout = shadow_map.bind_group_layout().clone();
    let light_camera_layout = light_camera.bind_group_layout().clone();
    let rc = RenderingContext::new(
        gpu,
        surface,
        basic_shader,
        shadow_shader,
        &texture_layout,
        &camera_layout,
        &lighting_layout,
        &shadow_layout,
        &light_camera_layout,
    );
    let mut birth = [0u32; 16];
    birth[0] = 1.0f32.to_bits();
    birth[5] = 1.0f32.to_bits();
    birth[10] = 1.0f32.to_bits();
    birth[15] = 1.0f32.to_bits();
    let camera = Camera::new_perspective(
        45.0f32.to_bits(),
        (800.0f32 / 600.0).to_bits(),
        0.1f32.to_bits(),
        100.0f32.to_bits(),
        &soyuz::camera::CameraMatrices { view: birth, projection: birth, view_proj: birth },
    );
    (rc, assets, camera_buffer, lighting_buffer, shadow_map, light_camera, camera)
}

#[test]
fn resize_event_updates_camera_and_depth_before_the_next_frame() {
    // A resize from 800x600 to 1920x1080 updates the camera's aspect
    // ratio and the depth texture's extent before the next frame's main
    // pass records anything.
    let (mut rc, mut assets, camera_buffer, lighting_buffer, shadow_map, light_camera, mut camera) =
        full_stack();
    assert_eq!(rc.depth_texture.size.width, 800);
    assert_eq!(rc.depth_texture.size.height, 600);

    let aspect = (1920.0f32 / 1080.0).to_bits();
    handle_resize_event(
        &mut rc,
        &mut camera,
        WindowResizeEvent { width: 1920, height: 1080 },
        aspect,
    );
    assert_eq!(rc.surface.width(), 1920);
    assert_eq!(rc.surface.height(), 1080);
    assert_eq!(rc.depth_texture.size.width, 1920);
    assert_eq!(rc.depth_texture.size.height, 1080);
    match camera.projection_type() {
        ProjectionType::Perspective { aspect: a, .. } => assert_eq!(a, aspect),
        other => panic!("projection changed kind: {:?}", other),
    }
    assert!(camera.dirty);

    // Only now does the next frame record and submit.
    let scene: Vec<DrawItem> = vec![];
    render_frame(
        &mut rc,
        &mut assets,
        &camera_buffer,
        &lighting_buffer,
        &shadow_map,
        &light_camera,
        &scene,
        Some(77),
    );
    assert!(!assets.bind_group_dirty);
}

#[test]
fn resize_event_with_zero_dimension_changes_nothing() {
    let (mut rc, _assets, _cb, _lb, _sm, _lc, mut camera) = full_stack();
    let depth_id = rc.depth_texture.id;
    let projection = camera.projection_type();
    handle_resize_event(
        &mut rc,
        &mut camera,
        WindowResizeEvent { width: 0, height: 1080 },
        1.0f32.to_bits(),
    );
    assert_eq!(rc.surface.width(), 800);
    assert_eq!(rc.surface.height(), 600);
    assert_eq!(rc.depth_texture.id, depth_id);
    assert_eq!(rc.depth_texture.size.width, 800);
    assert_eq!(camera.projection_type(), projection);
}

#[test]
fn skipped_frame_still_cleans_the_bindings() {
    // A failed acquisition aborts the frame before any pass is recorded,
    // but the cleaning step has already run.
    let (mut rc, mut assets, camera_buffer, lighting_buffer, shadow_map, light_camera, _camera) =
        full_stack();
    let t = soyuz::texture::GpuTexture::from_rgba(&mut rc.gpu, 1, 1, vec![0, 0, 0, 0], None);
    assets.register_texture_for_rendering(&t, "late".to_string());
    assert!(assets.bind_group_dirty);
    let scene: Vec<DrawItem> = vec![];
    render_frame(
        &mut rc,
        &mut assets,
        &camera_buffer,
        &lighting_buffer,
        &shadow_map,
        &light_camera,
        &scene,
        None,
    );
    assert!(!assets.bind_group_dirty);
}

#[test]
fn frame_stream_orders_shadow_pass_before_main_pass() {
    // The submitted stream is the shadow pass, whole, then the main pass:
    // the shadow map is written before the main pass binds it for
    // sampling, and each pass draws each mesh with exactly its index
    // count.
    let (mut rc, mut assets, camera_buffer, lighting_buffer, shadow_map, light_camera, _camera) =
        full_stack();
    let one = 1.0f32.to_bits();
    let vertices = vec![
        GltfVertex::new([0, 0, 0], [0, one, 0], [0, 0]),
        GltfVertex::new([one, 0, 0], [0, one, 0], [one, 0]),
        GltfVertex::new([0, one, 0], [0, one, 0], [0, one]),
    ];
    let mesh = GpuMesh::new(&mut rc.gpu, &vertices, &vec![0u16, 1, 2], None);
    let identity: [u32; 16] = {
        let mut m = [0u32; 16];
        m[0] = one;
        m[5] = one;
        m[10] = one;
        m[15] = one;
        m
    };
    let scene = vec![DrawItem {
        model: identity,
        mvp: identity,
        base_color: [one; 4],
        texture_index: 0,
        mesh,
    }];
    let surface_view = 9999u64;
    let enc = render_frame(
        &mut rc,
        &mut assets,
        &camera_buffer,
        &lighting_buffer,
        &shadow_map,
        &light_camera,
        &scene,
        Some(surface_view),
    )
    .expect("an acquired frame records and submits");

    let cmds = &enc.commands;
    // The stream opens with the depth-only shadow pass over the shadow map.
    match &cmds[0] {
        RenderCommand::BeginRenderPass { label, color, depth } => {
            assert_eq!(label.as_deref(), Some("Shadow Pass"));
            assert!(color.is_none());
            assert_eq!(depth.unwrap().view, shadow_map.texture.id);
        }
        other => panic!("stream does not open a pass: {:?}", other),
    }
    let shadow_end = cmds
        .iter()
        .position(|c| matches!(c, RenderCommand::EndRenderPass))
        .expect("the shadow pass ends");
    // The main pass begins only after the shadow pass has ended.
    match &cmds[shadow_end + 1] {
        RenderCommand::BeginRenderPass { label, color, depth } => {
            assert_eq!(label.as_deref(), Some("Main Render Pass"));
            assert_eq!(color.unwrap().view, surface_view);
            assert_eq!(depth.unwrap().view, rc.depth_texture.id);
        }
        other => panic!("no main pass after the shadow pass: {:?}", other),
    }
    // The shadow map is sampled — bound at group 3 — only inside the main
    // pass, after its own write.
    let read = cmds
        .iter()
        .position(
            |c| matches!(c, RenderCommand::SetBindGroup { index: 3, group } if *group == shadow_map.bind_group.id),
        )
        .expect("the main pass binds the shadow map");
    assert!(read > shadow_end);
    // Each pass draws the mesh with exactly its index count.
    let draws: Vec<&RenderCommand> = cmds
        .iter()
        .filter(|c| matches!(c, RenderCommand::DrawIndexed { .. }))
        .collect();
    assert_eq!(draws.len(), 2);
    for d in draws {
        match d {
            RenderCommand::DrawIndexed { index_start, index_end, instance_end, .. } => {
                assert_eq!(*index_start, 0);
                assert_eq!(*index_end, 3);
                assert_eq!(*instance_end, 1);
            }
            _ => unreachable!(),
        }
    }
}

#[test]
fn rendering_state_starts_at_zero() {
    let s = RenderingState::default();
    assert_eq!(s.frame_count, 0);
    assert_eq!(s.draw_calls, 0);
    assert_eq!(s.triangles, 0);
}
