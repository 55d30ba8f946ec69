//! The logical GPU device and command queue, modelled as the allocator of
//! resource identities and the sink of submitted command streams.
//!
//! Acquiring the real adapter and device is asynchronous work done by the
//! frame loop outside this crate; it hands the negotiated features and limits
//! to [`GpuContext::new`]. Every GPU-resident object created against the
//! context receives a fresh identity, so two handles denote the same backing
//! resource exactly when their identities are equal.

use vstd::prelude::*;

verus! {

use crate::render_pass::RenderCommand;

/// Feature bit for per-draw push constants.
pub const FEATURE_PUSH_CONSTANTS: u64 = 0x1;

/// Feature bit for arrays of bound textures indexed in shaders.
pub const FEATURE_TEXTURE_BINDING_ARRAY: u64 = 0x2;

/// Backend bit for the Vulkan backend.
pub const BACKEND_VULKAN: u32 = 0x1;

/// Backend bit for the OpenGL backend.
pub const BACKEND_GL: u32 = 0x2;

/// Backend bit for the Metal backend.
pub const BACKEND_METAL: u32 = 0x4;

/// Backend bit for the Direct3D 12 backend.
pub const BACKEND_DX12: u32 = 0x8;

/// Backend bit for the browser WebGPU backend.
pub const BACKEND_BROWSER_WEBGPU: u32 = 0x10;

/// All backends.
pub const BACKENDS_ALL: u32 = 0x1F;

/// Which kind of adapter to prefer when several are available.
#[derive(Clone, Copy, Debug, PartialEq, Eq, Structural)]
pub enum PowerPreference {
    /// No preference.
    NoPreference,
    /// Prefer an integrated, battery-friendly adapter.
    LowPower,
    /// Prefer a discrete, high-performance adapter.
    HighPerformance,
}

/// The device limits this engine negotiates at startup.
#[derive(Clone, Copy, Debug, PartialEq, Eq, Structural)]
pub struct Limits {
    /// Largest per-draw push-constant block, in bytes.
    pub max_push_constant_size: u32,
    /// Largest number of sampled textures visible to one shader stage.
    pub max_sampled_textures_per_shader_stage: u32,
    /// Largest number of elements of one binding array visible to one stage.
    pub max_binding_array_elements_per_shader_stage: u32,
}

impl Limits {
    /// The baseline limits every adapter is assumed to offer.
    pub fn defaults() -> (r: Limits)
        ensures
            r == (Limits {
                max_push_constant_size: 0u32,
                max_sampled_textures_per_shader_stage: 16u32,
                max_binding_array_elements_per_shader_stage: 0u32,
            }),
    {
        Limits {
            max_push_constant_size: 0,
            max_sampled_textures_per_shader_stage: 16,
            max_binding_array_elements_per_shader_stage: 0,
        }
    }
}

/// The logical device and queue.
///
/// `next_id` is the source of fresh resource identities; `submitted` records,
/// in order, every command stream handed to the queue.
pub struct GpuContext {
    /// Features that were granted at device acquisition.
    pub features: u64,
    /// Limits that were granted at device acquisition.
    pub limits: Limits,
    /// Diagnostic label of the device.
    pub device_label: Option<String>,
    /// Identity handed to the next resource created against this context.
    pub next_id: u64,
    /// Every command stream submitted to the queue, oldest first.
    pub submitted: Ghost<Seq<Seq<RenderCommand>>>,
}

impl GpuContext {
    /// Whether `n` more resources can still receive fresh identities.
    pub open spec fn can_alloc(self, n: int) -> bool {
        self.next_id + n <= u64::MAX
    }

    /// The context as the frame loop hands it over after device acquisition.
    pub fn new(features: u64, limits: Limits, device_label: Option<String>) -> (r: GpuContext)
        ensures
            r.features == features,
            r.limits == limits,
            r.device_label == device_label,
            r.next_id == 0,
            r.submitted@ == Seq::<Seq<RenderCommand>>::empty(),
    {
        GpuContext {
            features,
            limits,
            device_label,
            next_id: 0,
            submitted: Ghost(Seq::empty()),
        }
    }

    /// Hand out a fresh resource identity.
    pub(crate) fn fresh_id(&mut self) -> (id: u64)
        requires
            old(self).can_alloc(1),
        ensures
            id == old(self).next_id,
            final(self).next_id == old(self).next_id + 1,
            final(self).features == old(self).features,
            final(self).limits == old(self).limits,
            final(self).device_label == old(self).device_label,
            final(self).submitted == old(self).submitted,
    {
        let id = self.next_id;
        self.next_id = self.next_id + 1;
        id
    }

    /// Whether every feature bit of `feature` was granted.
    pub fn supports_feature(&self, feature: u64) -> (r: bool)
        ensures
            r == (self.features & feature == feature),
    {
        self.features & feature == feature
    }

    /// Hand a finished command stream to the queue. Streams execute in
    /// submission order.
    pub fn submit(&mut self, encoder: &crate::render_pass::CommandEncoder)
        ensures
            final(self).submitted@ == old(self).submitted@.push(encoder.commands@),
            final(self).next_id == old(self).next_id,
            final(self).features == old(self).features,
            final(self).limits == old(self).limits,
            final(self).device_label == old(self).device_label,
    {
        let ghost cmds = encoder.commands@;
        proof {
            self.submitted@ = self.submitted@.push(cmds);
        }
    }
}

/// Fluent configuration for acquiring the device.
///
/// The asynchronous adapter and device requests themselves happen in the
/// frame loop; it reads this configuration, performs the requests, and
/// reports failures as [`crate::error::RenderError::NoSuitableAdapter`],
/// [`crate::error::RenderError::AdapterRequest`] or
/// [`crate::error::RenderError::DeviceRequest`].
pub struct GpuContextBuilder {
    /// Backends the instance may pick from.
    pub backends: u32,
    /// Which adapter kind to prefer.
    pub power_preference: PowerPreference,
    /// Features the device must grant, or acquisition fails.
    pub required_features: u64,
    /// Limits the device must grant, or acquisition fails.
    pub required_limits: Limits,
    /// Diagnostic label for the device.
    pub device_label: Option<String>,
}

impl GpuContextBuilder {
    /// The default configuration: all backends, high performance, no extra
    /// features, baseline limits.
    pub fn new() -> (r: GpuContextBuilder)
        ensures
            r.backends == BACKENDS_ALL,
            r.power_preference == PowerPreference::HighPerformance,
            r.required_features == 0,
            r.required_limits == (Limits {
                max_push_constant_size: 0u32,
                max_sampled_textures_per_shader_stage: 16u32,
                max_binding_array_elements_per_shader_stage: 0u32,
            }),
            r.device_label matches Some(l) && l@ == "Soyuz Device"@,
    {
        GpuContextBuilder {
            backends: BACKENDS_ALL,
            power_preference: PowerPreference::HighPerformance,
            required_features: 0,
            required_limits: Limits::defaults(),
            device_label: Some("Soyuz Device".to_owned()),
        }
    }

    /// Restrict the backends the instance may pick from.
    pub fn backends(self, backends: u32) -> (r: Self)
        ensures
            r == (GpuContextBuilder { backends, ..self }),
    {
        GpuContextBuilder { backends, ..self }
    }

    /// Set the adapter preference.
    pub fn power_preference(self, preference: PowerPreference) -> (r: Self)
        ensures
            r == (GpuContextBuilder { power_preference: preference, ..self }),
    {
        GpuContextBuilder { power_preference: preference, ..self }
    }

    /// Replace the required features.
    pub fn features(self, features: u64) -> (r: Self)
        ensures
            r == (GpuContextBuilder { required_features: features, ..self }),
    {
        GpuContextBuilder { required_features: features, ..self }
    }

    /// Require further features in addition to those already required.
    pub fn add_features(self, features: u64) -> (r: Self)
        ensures
            r == (GpuContextBuilder {
                required_features: self.required_features | features,
                ..self
            }),
    {
        let combined = self.required_features | features;
        GpuContextBuilder { required_features: combined, ..self }
    }

    /// Replace the required limits.
    pub fn limits(self, limits: Limits) -> (r: Self)
        ensures
            r == (GpuContextBuilder { required_limits: limits, ..self }),
    {
        GpuContextBuilder { required_limits: limits, ..self }
    }

    /// Set the diagnostic device label.
    pub fn device_label(self, label: &str) -> (r: Self)
        ensures
            r.device_label matches Some(l) && l@ == label@,
            r.backends == self.backends,
            r.power_preference == self.power_preference,
            r.required_features == self.required_features,
            r.required_limits == self.required_limits,
    {
        GpuContextBuilder { device_label: Some(label.to_owned()), ..self }
    }

    /// The context that a successful acquisition against this configuration
    /// yields: the required features and limits were granted.
    pub fn into_context(self) -> (r: GpuContext)
        ensures
            r.features == self.required_features,
            r.limits == self.required_limits,
            r.device_label == self.device_label,
            r.next_id == 0,
            r.submitted@ == Seq::<Seq<RenderCommand>>::empty(),
    {
        GpuContext::new(self.required_features, self.required_limits, self.device_label)
    }
}

impl Default for GpuContextBuilder {
    /// The configuration of [`GpuContextBuilder::new`].
    fn default() -> (r: Self)
        ensures
            r.backends == BACKENDS_ALL,
            r.power_preference == PowerPreference::HighPerformance,
            r.required_features == 0,
            r.device_label is Some,
    {
        GpuContextBuilder::new()
    }
}

} // verus!
