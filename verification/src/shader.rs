//! Shader modules.
//!
//! Shader source is authored externally and passed through unmodified; the
//! engine keeps the source text beside the compiled module's identity.
//! Reading source from disk is the frame loop's work; it hands the text to
//! [`ShaderBuilder::source`].

use vstd::prelude::*;

verus! {

use crate::error::RenderError;
use crate::gpu::GpuContext;

/// A compiled shader module and the source it was compiled from.
#[derive(Debug)]
pub struct Shader {
    /// Identity of the compiled module.
    pub id: u64,
    /// The source text, kept verbatim.
    pub source: String,
    /// Diagnostic label.
    pub label: Option<String>,
}

impl Clone for Shader {
    /// A cloned handle denotes the same compiled module.
    fn clone(&self) -> (r: Self)
        ensures
            r.id == self.id,
            r.source@ == self.source@,
    {
        Shader {
            id: self.id,
            source: self.source.clone(),
            label: match &self.label {
                Some(l) => Some(l.clone()),
                None => None,
            },
        }
    }
}

impl Shader {
    /// Compile a module from source text, kept verbatim.
    pub fn from_wgsl(ctx: &mut GpuContext, source: &str, label: Option<&str>) -> (r: Shader)
        requires
            old(ctx).can_alloc(1),
        ensures
            r.id == old(ctx).next_id,
            r.source@ == source@,
            match label {
                Some(l) => r.label matches Some(s) && s@ == l@,
                None => r.label is None,
            },
            final(ctx).next_id == old(ctx).next_id + 1,
            final(ctx).features == old(ctx).features,
            final(ctx).limits == old(ctx).limits,
            final(ctx).device_label == old(ctx).device_label,
            final(ctx).submitted == old(ctx).submitted,
    {
        let id = ctx.fresh_id();
        let owned_label: Option<String> = match label {
            Some(l) => Some(l.to_owned()),
            None => None,
        };
        Shader { id, source: source.to_owned(), label: owned_label }
    }

    /// The source text the module was compiled from.
    pub fn source(&self) -> (r: &str)
        ensures
            r@ == self.source@,
    {
        self.source.as_str()
    }
}

/// Fluent configuration for compiling a shader module.
#[derive(Debug)]
pub struct ShaderBuilder {
    /// The source text, once supplied.
    pub source: Option<String>,
    /// Diagnostic label.
    pub label: Option<String>,
}

impl ShaderBuilder {
    /// No source, no label.
    pub fn new() -> (r: ShaderBuilder)
        ensures
            r.source is None,
            r.label is None,
    {
        ShaderBuilder { source: None, label: None }
    }

    /// Supply the source text.
    pub fn source(self, source: &str) -> (r: Self)
        ensures
            r.source matches Some(s) && s@ == source@,
            r.label == self.label,
    {
        ShaderBuilder { source: Some(source.to_owned()), ..self }
    }

    /// Label the module.
    pub fn label(self, label: &str) -> (r: Self)
        ensures
            r.label matches Some(l) && l@ == label@,
            r.source == self.source,
    {
        ShaderBuilder { label: Some(label.to_owned()), ..self }
    }

    /// Compile the module. Fails exactly when no source was supplied.
    pub fn build(self, ctx: &mut GpuContext) -> (r: Result<Shader, RenderError>)
        requires
            old(ctx).can_alloc(1),
        ensures
            self.source is None <==> r matches Err(RenderError::ShaderCompilation(_)),
            self.source matches Some(src) ==> r matches Ok(shader) && shader.source@ == src@
                && shader.id == old(ctx).next_id,
            self.source is Some ==> final(ctx).next_id == old(ctx).next_id + 1,
            self.source is None ==> *final(ctx) == *old(ctx),
            final(ctx).features == old(ctx).features,
            final(ctx).limits == old(ctx).limits,
            final(ctx).device_label == old(ctx).device_label,
            final(ctx).submitted == old(ctx).submitted,
    {
        match self.source {
            Some(source) => {
                let label: Option<&str> = match &self.label {
                    Some(l) => Some(l.as_str()),
                    None => None,
                };
                Ok(Shader::from_wgsl(ctx, source.as_str(), label))
            },
            None => Err(RenderError::ShaderCompilation("No source provided".to_owned())),
        }
    }
}

impl Default for ShaderBuilder {
    /// An empty builder, as [`ShaderBuilder::new`].
    fn default() -> (r: Self)
        ensures
            r.source is None,
            r.label is None,
    {
        ShaderBuilder::new()
    }
}

} // verus!
