//! A real-time 3D rendering engine core: GPU context and resource
//! bookkeeping, bind-group and pipeline builders, render-pass recording, a
//! deduplicating asset manager with a fixed-capacity bindless texture
//! array, per-frame lighting upload, and the two-pass (shadow, then lit
//! forward) frame orchestration.
//!
//! Every GPU-resident value is modelled by its bookkeeping state — an
//! identity, its configuration, and the byte image it holds — with scalars
//! the GPU reads as floats carried as their bit patterns. The frame loop
//! around this crate owns the window, the device handles, the
//! floating-point matrix math, and the replay of recorded command streams;
//! this crate owns and verifies every decision: what is uploaded, what is
//! cached, what is recorded, and in what order.

pub mod assets;
pub mod bind_group;
pub mod buffer;
pub mod bytes;
pub mod cache;
pub mod camera;
pub mod components;
pub mod error;
pub mod frame;
pub mod gltf;
pub mod gpu;
pub mod lighting;
pub mod mesh;
pub mod pipeline;
pub mod render_pass;
pub mod shader;
pub mod shadow;
pub mod surface;
pub mod texture;
