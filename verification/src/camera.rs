//! The camera: position and orientation inputs, a projection, and cached
//! view / projection / view-projection matrices behind a dirty flag.
//!
//! A camera is born clean, its caches holding the matrices computed from
//! its initial inputs. Every mutator sets the flag; [`Camera::update`] is
//! the only operation that clears it, installing matrices recomputed from
//! the current inputs. The trigonometric computation itself is
//! floating-point work done by the frame loop, which hands the finished
//! matrices in as bit patterns; this module owns the caching protocol: a
//! clean camera is never touched.

use vstd::prelude::*;

verus! {

use crate::buffer::{Buffer, BufferData, BUFFER_USAGE_COPY_DST, BUFFER_USAGE_UNIFORM};
use crate::bind_group::{BindGroup, BindGroupBuilder, BindGroupLayout, BindResource, STAGE_VERTEX};
use crate::bytes::{mat4_to_words, words_bytes, words_to_bytes};
use crate::gpu::GpuContext;

/// Bit pattern of the single-precision float 1.0.
pub const F32_BITS_ONE: u32 = 0x3F80_0000;

/// Bit pattern of the single-precision float -1.0.
pub const F32_BITS_NEG_ONE: u32 = 0xBF80_0000;

/// Bit pattern of the single-precision float 5.0.
pub const F32_BITS_FIVE: u32 = 0x40A0_0000;

/// Bit pattern of the single-precision float -90.0, the default yaw.
pub const F32_BITS_NEG_NINETY: u32 = 0xC2B4_0000;

/// The projection a camera applies, with every scalar the bit pattern of a
/// single-precision float.
#[derive(Clone, Copy, Debug, PartialEq, Eq, Structural)]
pub enum ProjectionType {
    Orthographic { width: u32, height: u32, near: u32, far: u32 },
    Perspective { fov: u32, aspect: u32, near: u32, far: u32 },
    Frustum { left: u32, right: u32, bottom: u32, top: u32, near: u32, far: u32 },
}

/// The three matrices the frame loop recomputes from the camera's inputs,
/// each sixteen float bit patterns, column major.
#[derive(Clone, Copy, Debug, PartialEq, Eq)]
pub struct CameraMatrices {
    pub view: [u32; 16],
    pub projection: [u32; 16],
    pub view_proj: [u32; 16],
}

/// The camera.
#[derive(Debug)]
pub struct Camera {
    /// Eye position, three float bit patterns.
    pub position: [u32; 3],
    /// Up direction, three float bit patterns.
    pub up: [u32; 3],
    /// Yaw in degrees, a float bit pattern.
    pub yaw: u32,
    /// Pitch in degrees, a float bit pattern.
    pub pitch: u32,
    /// The projection parameters.
    pub projection: ProjectionType,
    /// Cached view matrix.
    pub view_matrix: [u32; 16],
    /// Cached projection matrix.
    pub projection_matrix: [u32; 16],
    /// Cached view-projection product.
    pub view_proj_matrix: [u32; 16],
    /// Whether the caches are stale with respect to the inputs.
    pub dirty: bool,
}

impl Camera {
    /// What [`Camera::update`] leaves behind: a dirty camera receives the
    /// freshly computed matrices and becomes clean; a clean camera is
    /// untouched.
    pub open spec fn spec_update(self, m: CameraMatrices) -> Camera {
        if self.dirty {
            Camera {
                view_matrix: m.view,
                projection_matrix: m.projection,
                view_proj_matrix: m.view_proj,
                dirty: false,
                ..self
            }
        } else {
            self
        }
    }

    /// A perspective camera at (0, 0, 5) looking down the negative depth
    /// axis. The caller computes the three matrices from exactly these
    /// initial inputs — as [`Camera::update`] would — and the camera is
    /// born clean with those caches installed.
    pub fn new_perspective(fov: u32, aspect: u32, near: u32, far: u32, m: &CameraMatrices) -> (r:
        Camera)
        ensures
            r.position == [0u32, 0u32, F32_BITS_FIVE],
            r.up == [0u32, F32_BITS_ONE, 0u32],
            r.yaw == F32_BITS_NEG_NINETY,
            r.pitch == 0,
            r.projection == (ProjectionType::Perspective { fov, aspect, near, far }),
            r.view_matrix == m.view,
            r.projection_matrix == m.projection,
            r.view_proj_matrix == m.view_proj,
            !r.dirty,
    {
        Camera {
            position: [0, 0, F32_BITS_FIVE],
            up: [0, F32_BITS_ONE, 0],
            yaw: F32_BITS_NEG_NINETY,
            pitch: 0,
            projection: ProjectionType::Perspective { fov, aspect, near, far },
            view_matrix: m.view,
            projection_matrix: m.projection,
            view_proj_matrix: m.view_proj,
            dirty: false,
        }
    }

    /// An orthographic camera at the origin, born clean with the matrices
    /// the caller computed from these initial inputs.
    pub fn new_orthographic(width: u32, height: u32, near: u32, far: u32, m: &CameraMatrices) -> (r:
        Camera)
        ensures
            r.position == [0u32, 0u32, 0u32],
            r.up == [0u32, F32_BITS_ONE, 0u32],
            r.yaw == F32_BITS_NEG_NINETY,
            r.pitch == 0,
            r.projection == (ProjectionType::Orthographic { width, height, near, far }),
            r.view_matrix == m.view,
            r.projection_matrix == m.projection,
            r.view_proj_matrix == m.view_proj,
            !r.dirty,
    {
        Camera {
            position: [0, 0, 0],
            up: [0, F32_BITS_ONE, 0],
            yaw: F32_BITS_NEG_NINETY,
            pitch: 0,
            projection: ProjectionType::Orthographic { width, height, near, far },
            view_matrix: m.view,
            projection_matrix: m.projection,
            view_proj_matrix: m.view_proj,
            dirty: false,
        }
    }

    /// A frustum camera at the origin, born clean with the matrices the
    /// caller computed from these initial inputs.
    pub fn new_frustum(
        left: u32,
        right: u32,
        bottom: u32,
        top: u32,
        near: u32,
        far: u32,
        m: &CameraMatrices,
    ) -> (r: Camera)
        ensures
            r.position == [0u32, 0u32, 0u32],
            r.up == [0u32, F32_BITS_ONE, 0u32],
            r.yaw == F32_BITS_NEG_NINETY,
            r.pitch == 0,
            r.projection == (ProjectionType::Frustum { left, right, bottom, top, near, far }),
            r.view_matrix == m.view,
            r.projection_matrix == m.projection,
            r.view_proj_matrix == m.view_proj,
            !r.dirty,
    {
        Camera {
            position: [0, 0, 0],
            up: [0, F32_BITS_ONE, 0],
            yaw: F32_BITS_NEG_NINETY,
            pitch: 0,
            projection: ProjectionType::Frustum { left, right, bottom, top, near, far },
            view_matrix: m.view,
            projection_matrix: m.projection,
            view_proj_matrix: m.view_proj,
            dirty: false,
        }
    }

    /// Move the eye; the caches go stale.
    pub fn set_position(&mut self, position: [u32; 3])
        ensures
            *final(self) == (Camera { position, dirty: true, ..*old(self) }),
    {
        self.position = position;
        self.dirty = true;
    }

    /// Change the up direction; the caches go stale.
    pub fn set_up(&mut self, up: [u32; 3])
        ensures
            *final(self) == (Camera { up, dirty: true, ..*old(self) }),
    {
        self.up = up;
        self.dirty = true;
    }

    /// Set the orientation angles in degrees; the caches go stale. The frame
    /// loop applies mouse deltas and clamping and hands the resulting angles
    /// in.
    pub fn set_yaw_pitch(&mut self, yaw: u32, pitch: u32)
        ensures
            *final(self) == (Camera { yaw, pitch, dirty: true, ..*old(self) }),
    {
        self.yaw = yaw;
        self.pitch = pitch;
        self.dirty = true;
    }

    /// Replace the projection; the caches go stale.
    pub fn set_projection(&mut self, projection: ProjectionType)
        ensures
            *final(self) == (Camera { projection, dirty: true, ..*old(self) }),
    {
        self.projection = projection;
        self.dirty = true;
    }

    /// Update the aspect ratio of a perspective projection; any other
    /// projection is left untouched, caches included.
    pub fn set_aspect_ratio(&mut self, aspect: u32)
        ensures
            match old(self).projection {
                ProjectionType::Perspective { fov, near, far, .. } => *final(self) == (Camera {
                    projection: ProjectionType::Perspective { fov, aspect, near, far },
                    dirty: true,
                    ..*old(self)
                }),
                _ => *final(self) == *old(self),
            },
    {
        match self.projection {
            ProjectionType::Perspective { fov, near, far, .. } => {
                self.projection = ProjectionType::Perspective { fov, aspect, near, far };
                self.dirty = true;
            },
            _ => {},
        }
    }

    /// Update the extent of an orthographic projection; any other projection
    /// is left untouched, caches included.
    pub fn set_orthographic_size(&mut self, width: u32, height: u32)
        ensures
            match old(self).projection {
                ProjectionType::Orthographic { near, far, .. } => *final(self) == (Camera {
                    projection: ProjectionType::Orthographic { width, height, near, far },
                    dirty: true,
                    ..*old(self)
                }),
                _ => *final(self) == *old(self),
            },
    {
        match self.projection {
            ProjectionType::Orthographic { near, far, .. } => {
                self.projection = ProjectionType::Orthographic { width, height, near, far };
                self.dirty = true;
            },
            _ => {},
        }
    }

    /// Sync the caches: a dirty camera installs the freshly recomputed
    /// matrices and becomes clean; a clean camera is left bit-for-bit
    /// unchanged, whatever is handed in.
    pub fn update(&mut self, m: &CameraMatrices)
        ensures
            *final(self) == old(self).spec_update(*m),
    {
        if self.dirty {
            self.view_matrix = m.view;
            self.projection_matrix = m.projection;
            self.view_proj_matrix = m.view_proj;
            self.dirty = false;
        }
    }

    /// The cached view matrix.
    pub fn view_matrix(&self) -> (r: [u32; 16])
        ensures
            r == self.view_matrix,
    {
        self.view_matrix
    }

    /// The cached projection matrix.
    pub fn projection_matrix(&self) -> (r: [u32; 16])
        ensures
            r == self.projection_matrix,
    {
        self.projection_matrix
    }

    /// The cached view-projection product.
    pub fn view_proj_matrix(&self) -> (r: [u32; 16])
        ensures
            r == self.view_proj_matrix,
    {
        self.view_proj_matrix
    }

    /// The projection parameters.
    pub fn projection_type(&self) -> (r: ProjectionType)
        ensures
            r == self.projection,
    {
        self.projection
    }
}

/// Syncing is idempotent: after one sync the camera is clean, so a second
/// sync — with whatever matrices — changes nothing, bit for bit.
pub proof fn lemma_camera_update_idempotent(c: Camera, m1: CameraMatrices, m2: CameraMatrices)
    ensures
        c.spec_update(m1).spec_update(m2) == c.spec_update(m1),
{
}

/// A clean camera is a fixed point of syncing.
pub proof fn lemma_camera_update_clean_noop(c: Camera, m: CameraMatrices)
    requires
        !c.dirty,
    ensures
        c.spec_update(m) == c,
{
}

/// The scene's main camera.
pub struct MainCamera(pub Camera);

impl MainCamera {
    /// A perspective main camera, born clean as
    /// [`Camera::new_perspective`].
    pub fn new(fov: u32, aspect: u32, near: u32, far: u32, m: &CameraMatrices) -> (r: MainCamera)
        ensures
            r.0.position == [0u32, 0u32, F32_BITS_FIVE],
            r.0.up == [0u32, F32_BITS_ONE, 0u32],
            r.0.yaw == F32_BITS_NEG_NINETY,
            r.0.pitch == 0,
            r.0.projection == (ProjectionType::Perspective { fov, aspect, near, far }),
            r.0.view_matrix == m.view,
            r.0.projection_matrix == m.projection,
            r.0.view_proj_matrix == m.view_proj,
            !r.0.dirty,
    {
        MainCamera(Camera::new_perspective(fov, aspect, near, far, m))
    }

    /// Read the camera.
    pub fn get(&self) -> (r: &Camera)
        ensures
            r == &self.0,
    {
        &self.0
    }

    /// Borrow the camera for mutation.
    pub fn get_mut(&mut self) -> (r: &mut Camera)
        ensures
            *r == old(self).0,
            *final(self) == MainCamera(*final(r)),
    {
        &mut self.0
    }

    /// The eye position.
    pub fn position(&self) -> (r: [u32; 3])
        ensures
            r == self.0.position,
    {
        self.0.position
    }

    /// Move the eye; the caches go stale.
    pub fn set_position(&mut self, position: [u32; 3])
        ensures
            final(self).0 == (Camera { position, dirty: true, ..old(self).0 }),
    {
        self.0.set_position(position);
    }

    /// Sync the caches, as [`Camera::update`].
    pub fn update(&mut self, m: &CameraMatrices)
        ensures
            final(self).0 == old(self).0.spec_update(*m),
    {
        self.0.update(m);
    }
}

/// The camera matrix as shaders see it: one view-projection matrix.
#[derive(Clone, Copy, Debug, PartialEq, Eq)]
pub struct CameraUniform {
    pub view_proj: [u32; 16],
}

impl BufferData for CameraUniform {
    /// Sixteen words: the matrix, column major.
    open spec fn spec_words(&self) -> Seq<u32> {
        self.view_proj@
    }

    fn to_words(&self) -> (r: Vec<u32>)
        ensures
            r@ == self.spec_words(),
    {
        mat4_to_words(&self.view_proj)
    }
}

/// The GPU-side camera uniform: a 64-byte buffer holding the
/// view-projection matrix, and the bind group exposing it to the vertex
/// stage at binding 0.
#[derive(Debug)]
pub struct CameraBuffer {
    /// The 64-byte uniform allocation.
    pub buffer: Buffer,
    /// The bind group exposing the buffer.
    pub bind_group: BindGroup,
}

impl CameraBuffer {
    /// The buffer always holds exactly one matrix; the bind group exposes
    /// exactly this buffer at binding 0 for the vertex stage.
    pub open spec fn wf(self) -> bool {
        &&& self.buffer.contents@.len() == 64
        &&& self.bind_group.layout.entries@ == seq![
            crate::bind_group::LayoutEntry {
                binding: 0u32,
                visibility: STAGE_VERTEX,
                ty: crate::bind_group::BindingType::Uniform,
            },
        ]
        &&& crate::bind_group::bind_resource_views(self.bind_group.resources@) == seq![
            crate::bind_group::BindResourceView::Buffer(0u32, self.buffer.id),
        ]
    }

    /// A zero-filled camera uniform and its bind group.
    pub fn new(ctx: &mut GpuContext) -> (r: CameraBuffer)
        requires
            old(ctx).can_alloc(3),
        ensures
            r.wf(),
            r.buffer.id == old(ctx).next_id,
            forall|i: int| 0 <= i < 64 ==> r.buffer.contents@[i] == 0u8,
            final(ctx).next_id == old(ctx).next_id + 3,
            final(ctx).features == old(ctx).features,
            final(ctx).limits == old(ctx).limits,
            final(ctx).device_label == old(ctx).device_label,
            final(ctx).submitted == old(ctx).submitted,
    {
        let buffer = Buffer::new_empty(
            ctx,
            Some("camera_buffer"),
            64,
            BUFFER_USAGE_UNIFORM | BUFFER_USAGE_COPY_DST,
        );
        let mut resources: Vec<BindResource> = Vec::new();
        resources.push(BindResource::Buffer(0, buffer.id));
        let ghost resources_snap = resources@;
        let bind_group_result = BindGroupBuilder::new().label("camera_bind_group").uniform(
            0,
            STAGE_VERTEX,
        ).build(ctx, resources);
        let bind_group = match bind_group_result {
            Ok(bg) => bg,
            Err(_) => {
                proof {
                    assert(false);
                }
                vstd::pervasive::unreached()
            },
        };
        proof {
            assert(crate::bind_group::bind_resource_views(resources_snap) =~= seq![
                crate::bind_group::BindResourceView::Buffer(0u32, buffer.id),
            ]);
            assert(bind_group.layout.entries@ =~= seq![
                crate::bind_group::LayoutEntry {
                    binding: 0u32,
                    visibility: STAGE_VERTEX,
                    ty: crate::bind_group::BindingType::Uniform,
                },
            ]);
        }
        CameraBuffer { buffer, bind_group }
    }

    /// Upload a view-projection matrix.
    pub fn update(&mut self, view_proj: &[u32; 16])
        requires
            old(self).wf(),
        ensures
            final(self).wf(),
            final(self).buffer.contents@ == words_bytes(view_proj@),
            final(self).buffer.id == old(self).buffer.id,
            final(self).bind_group == old(self).bind_group,
    {
        let words = mat4_to_words(view_proj);
        let bytes = words_to_bytes(&words);
        self.buffer.write_bytes_at(0, &bytes);
        proof {
            assert(self.buffer.contents@ =~= words_bytes(view_proj@));
        }
    }

    /// The layout of the camera bind group.
    pub fn bind_group_layout(&self) -> (r: &BindGroupLayout)
        ensures
            r == &self.bind_group.layout,
    {
        &self.bind_group.layout
    }
}

} // verus!
