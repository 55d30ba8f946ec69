use vstd::prelude::*;

verus! {

/// A transient or fatal failure reported by the presentation surface when a
/// frame image is requested.
#[derive(Clone, Copy, Debug, PartialEq, Eq, Structural)]
pub enum SurfaceErrorKind {
    /// The request timed out; the frame can be skipped.
    Timeout,
    /// The surface no longer matches the window and must be reconfigured.
    Outdated,
    /// The surface was lost and must be reconfigured.
    Lost,
    /// The device is out of memory; this is fatal.
    OutOfMemory,
    /// Any other failure; the frame is skipped.
    Other,
}

/// Errors raised while bringing up the renderer or building its objects.
#[derive(Clone, Debug, PartialEq, Eq)]
pub enum RenderError {
    /// No adapter satisfied the requested power preference and surface.
    NoSuitableAdapter,
    /// The adapter request itself failed; the payload carries the reason.
    AdapterRequest(String),
    /// The device request failed; the payload carries the reason.
    DeviceRequest(String),
    /// The presentation surface could not be created for the window.
    SurfaceCreationFailed(String),
    /// Acquiring the current frame image failed.
    SurfaceError(SurfaceErrorKind),
    /// A shader could not be compiled or its source was missing.
    ShaderCompilation(String),
    /// The pipeline could not be created.
    PipelineCreation(String),
    /// The pipeline was configured inconsistently.
    InvalidPipelineConfiguration(String),
    /// A pipeline was built without a vertex shader.
    MissingVertexShader,
    /// A pipeline that needed a fragment shader was built without one.
    MissingFragmentShader,
}

/// Errors raised while turning decoded scene-file data into GPU meshes.
#[derive(Clone, Debug, PartialEq, Eq)]
pub enum GltfLoadError {
    /// The scene file could not be read; the payload carries the reason.
    IoError(String),
    /// The scene file was malformed; the payload carries the reason.
    GltfError(String),
    /// The scene held no drawable primitives.
    NoPrimitives,
    /// A primitive had no position attribute.
    MissingPosition,
    /// A primitive had no index data where it was required.
    MissingIndices,
    /// A primitive used an index format this engine does not accept.
    UnsupportedIndexFormat,
    /// An embedded image could not be decoded; the payload carries the reason.
    ImageError(String),
}

} // verus!
