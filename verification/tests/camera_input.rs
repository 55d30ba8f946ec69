use soyuz::camera::{Camera, CameraBuffer, CameraMatrices, MainCamera, ProjectionType};
use soyuz::components::Input;
use soyuz::error::SurfaceErrorKind;
use soyuz::gpu::{GpuContext, Limits};
use soyuz::surface::{action_for_surface_error, FrameAction, PresentMode, Surface};
use soyuz::texture::TextureFormat;

fn ctx() -> GpuContext {
    GpuContext::new(0, Limits::defaults(), None)
}

fn some_matrices(seed: u32) -> CameraMatrices {
    let mut m = [0u32; 16];
    for (i, w) in m.iter_mut().enumerate() {
        *w = seed.wrapping_add(i as u32);
    }
    CameraMatrices { view: m, projection: m, view_proj: m }
}

#[test]
fn camera_is_born_clean_with_its_initial_matrices() {
    // A fresh camera holds the matrices computed from its initial inputs
    // and reports clean: the first sync on an unmutated camera is a no-op.
    let m = some_matrices(7);
    let cam = Camera::new_perspective(
        45.0f32.to_bits(),
        (800.0f32 / 600.0).to_bits(),
        0.1f32.to_bits(),
        100.0f32.to_bits(),
        &m,
    );
    assert!(!cam.dirty);
    assert_eq!(cam.view_matrix(), m.view);
    assert_eq!(cam.projection_matrix(), m.projection);
    assert_eq!(cam.view_proj_matrix(), m.view_proj);
}

#[test]
fn camera_update_installs_matrices_and_clears_dirty() {
    let mut cam = Camera::new_perspective(
        45.0f32.to_bits(),
        (800.0f32 / 600.0).to_bits(),
        0.1f32.to_bits(),
        100.0f32.to_bits(),
        &some_matrices(7),
    );
    cam.set_position([1.0f32.to_bits(), 0, 0]);
    assert!(cam.dirty);
    let m = some_matrices(8);
    cam.update(&m);
    assert!(!cam.dirty);
    assert_eq!(cam.view_matrix(), m.view);
    assert_eq!(cam.projection_matrix(), m.projection);
    assert_eq!(cam.view_proj_matrix(), m.view_proj);
}

#[test]
fn camera_update_is_idempotent_when_clean() {
    // Syncing twice without intervening mutation yields the same three
    // matrices bit for bit: the second sync changes nothing, whatever is
    // handed in.
    let mut cam = Camera::new_perspective(
        45.0f32.to_bits(),
        1.5f32.to_bits(),
        0.1f32.to_bits(),
        100.0f32.to_bits(),
        &some_matrices(1),
    );
    cam.update(&some_matrices(1));
    let view = cam.view_matrix();
    let proj = cam.projection_matrix();
    let view_proj = cam.view_proj_matrix();
    cam.update(&some_matrices(99));
    assert_eq!(cam.view_matrix(), view);
    assert_eq!(cam.projection_matrix(), proj);
    assert_eq!(cam.view_proj_matrix(), view_proj);
    assert!(!cam.dirty);
}

#[test]
fn camera_mutators_set_the_dirty_flag() {
    let mut cam = Camera::new_orthographic(
        10.0f32.to_bits(),
        10.0f32.to_bits(),
        0.1f32.to_bits(),
        10.0f32.to_bits(),
        &some_matrices(3),
    );
    assert!(!cam.dirty);
    cam.set_position([1.0f32.to_bits(), 0, 0]);
    assert!(cam.dirty);
    cam.update(&some_matrices(4));
    cam.set_yaw_pitch(0, 0);
    assert!(cam.dirty);
    cam.update(&some_matrices(5));
    cam.set_orthographic_size(20.0f32.to_bits(), 20.0f32.to_bits());
    assert!(cam.dirty);
}

#[test]
fn set_aspect_ratio_touches_only_perspective_cameras() {
    let mut ortho = Camera::new_orthographic(
        10.0f32.to_bits(),
        10.0f32.to_bits(),
        0.1f32.to_bits(),
        10.0f32.to_bits(),
        &some_matrices(1),
    );
    let before = ortho.projection_type();
    ortho.set_aspect_ratio(2.0f32.to_bits());
    assert_eq!(ortho.projection_type(), before);
    assert!(!ortho.dirty);

    let mut persp = MainCamera::new(
        45.0f32.to_bits(),
        1.0f32.to_bits(),
        0.1f32.to_bits(),
        100.0f32.to_bits(),
        &some_matrices(2),
    );
    persp.get_mut().set_aspect_ratio(2.0f32.to_bits());
    match persp.get().projection_type() {
        ProjectionType::Perspective { aspect, .. } => assert_eq!(aspect, 2.0f32.to_bits()),
        other => panic!("projection changed kind: {:?}", other),
    }
}

#[test]
fn camera_buffer_uploads_view_projection() {
    let mut gpu = ctx();
    let mut cb = CameraBuffer::new(&mut gpu);
    assert_eq!(cb.buffer.contents, vec![0u8; 64]);
    let m: [u32; 16] = core::array::from_fn(|i| (i as f32).to_bits());
    cb.update(&m);
    for (i, w) in m.iter().enumerate() {
        let bytes = &cb.buffer.contents[4 * i..4 * i + 4];
        assert_eq!(bytes, w.to_le_bytes());
    }
}

#[test]
fn surface_prefers_the_first_srgb_format() {
    let formats = vec![
        TextureFormat::Bgra8Unorm,
        TextureFormat::Rgba8UnormSrgb,
        TextureFormat::Bgra8UnormSrgb,
    ];
    let s = Surface::new(800, 600, &formats);
    assert_eq!(s.format(), TextureFormat::Rgba8UnormSrgb);
    assert_eq!(s.config.present_mode, PresentMode::Fifo);
    assert!(!s.is_configured());
}

#[test]
fn surface_falls_back_to_the_first_format() {
    let formats = vec![TextureFormat::Bgra8Unorm, TextureFormat::Rgba8Unorm];
    let s = Surface::new(800, 600, &formats);
    assert_eq!(s.format(), TextureFormat::Bgra8Unorm);
}

#[test]
fn surface_clamps_degenerate_window_sizes() {
    let formats = vec![TextureFormat::Bgra8UnormSrgb];
    let s = Surface::new(0, 0, &formats);
    assert_eq!(s.width(), 1);
    assert_eq!(s.height(), 1);
}

#[test]
fn surface_resize_to_zero_is_a_no_op() {
    // Resizing to (0, *) or (*, 0) leaves dimensions and configuration
    // unchanged.
    let formats = vec![TextureFormat::Bgra8UnormSrgb];
    let mut s = Surface::new(800, 600, &formats);
    s.configure();
    let config = s.config;
    s.resize(0, 1080);
    assert_eq!(s.config, config);
    s.resize(1920, 0);
    assert_eq!(s.config, config);
    s.resize(1920, 1080);
    assert_eq!(s.width(), 1920);
    assert_eq!(s.height(), 1080);
}

#[test]
fn surface_error_policy() {
    assert_eq!(action_for_surface_error(SurfaceErrorKind::Lost), FrameAction::ReconfigureAndSkip);
    assert_eq!(action_for_surface_error(SurfaceErrorKind::OutOfMemory), FrameAction::Fatal);
    assert_eq!(action_for_surface_error(SurfaceErrorKind::Outdated), FrameAction::SkipFrame);
    assert_eq!(action_for_surface_error(SurfaceErrorKind::Timeout), FrameAction::SkipFrame);
    assert_eq!(action_for_surface_error(SurfaceErrorKind::Other), FrameAction::SkipFrame);
}

#[test]
fn input_tracks_pressed_and_just_pressed() {
    let mut input = Input::new();
    assert!(!input.pressed(65));
    input.press_key(65);
    assert!(input.pressed(65));
    assert!(input.just_pressed(65));
    input.update();
    assert!(input.pressed(65));
    assert!(!input.just_pressed(65));
    // Holding a key does not make it just-pressed again.
    input.press_key(65);
    assert!(!input.just_pressed(65));
    input.release_key(65);
    assert!(!input.pressed(65));
    input.press_key(65);
    assert!(input.just_pressed(65));
}
