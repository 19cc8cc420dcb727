use vstd::prelude::*;
use bevy::render::view::RenderLayers;
use crate::assets::{MaterialHandle, MeshHandle, TextureHandle};
use crate::error::PipelineError;
use crate::texture::{RenderTarget, TargetView};

verus! {

/// The slot at which the post-processing shader finds its one input texture.
pub const SOURCE_TEXTURE_SLOT: u32 = 0;

/// The slot at which the post-processing shader finds the sampler of that
/// texture.
pub const SOURCE_SAMPLER_SLOT: u32 = 1;

/// The material of the full-screen quad: a shader effect with exactly one
/// input, the texture that the producer pass has drawn.
#[derive(Clone, Copy, Debug, PartialEq, Eq, Structural)]
pub struct PostProcessMaterial {
    /// The identifier of the material itself.
    pub handle: MaterialHandle,
    /// The texture that the shader samples.
    pub source: TextureHandle,
    /// The allocation of that texture for which the binding was made.
    pub revision: u64,
}

impl PostProcessMaterial {
    /// Whether the material samples this target in its present allocation.
    pub open spec fn bound_to(self, target: TargetView) -> bool {
        self.source == target.handle && self.revision == target.revision
    }

    /// The material bound to a target as the target now is.
    pub open spec fn rebound(self, target: TargetView) -> PostProcessMaterial {
        PostProcessMaterial { source: target.handle, revision: target.revision, ..self }
    }

    /// A material that samples `target`.
    pub fn new(handle: MaterialHandle, target: &RenderTarget) -> (material: PostProcessMaterial)
        ensures
            material == (PostProcessMaterial {
                handle,
                source: target@.handle,
                revision: target@.revision,
            }),
            material.bound_to(target@),
    {
        PostProcessMaterial { handle, source: target.handle(), revision: target.revision() }
    }

    /// Takes up the signal that the texture has changed: binds the material to
    /// the target's present allocation.
    pub fn refresh(&mut self, target: &RenderTarget)
        ensures
            *final(self) == old(self).rebound(target@),
            final(self).bound_to(target@),
    {
        self.source = target.handle();
        self.revision = target.revision();
    }

    /// Fails when the material samples another texture, or an allocation of
    /// the target that has been replaced.
    pub fn check_binding(&self, target: &RenderTarget) -> (checked: Result<(), PipelineError>)
        ensures
            checked == if self.bound_to(target@) {
                Ok::<(), PipelineError>(())
            } else {
                Err::<(), PipelineError>(PipelineError::BindingStale)
            },
    {
        if self.source == target.handle() && self.revision == target.revision() {
            Ok(())
        } else {
            Err(PipelineError::BindingStale)
        }
    }

    /// The reference of the shader program that provides the fragment stage.
    pub fn fragment_shader() -> (path: &'static str)
        ensures
            path@ == "shaders/fxaa.wgsl"@,
    {
        "shaders/fxaa.wgsl"
    }

    /// The reference of the shader program that provides the vertex stage.
    pub fn vertex_shader() -> (path: &'static str)
        ensures
            path@ == "shaders/fxaa.wgsl"@,
    {
        "shaders/fxaa.wgsl"
    }
}

/// The rectangle, as large as the window, on which the second pass shows the
/// off-screen target.
#[derive(Clone, Copy, Debug, PartialEq, Eq)]
pub struct PostProcessQuad {
    /// The mesh of the rectangle: two triangles.
    pub mesh: MeshHandle,
    /// The material that the rectangle is drawn with.
    pub material: MaterialHandle,
    /// The layers that the rectangle belongs to.
    pub layers: RenderLayers,
    /// The width of the rectangle, in pixels.
    pub width: u32,
    /// The height of the rectangle, in pixels.
    pub height: u32,
}

impl PostProcessQuad {
    /// The quad with its rectangle made anew at another size.
    pub open spec fn regenerated(self, width: u32, height: u32) -> PostProcessQuad {
        PostProcessQuad { width, height, ..self }
    }

    /// Whether the rectangle is as large as the target.
    pub open spec fn covers(self, target: TargetView) -> bool {
        self.width == target.width && self.height == target.height
    }

    /// A quad of the given size.
    pub fn new(
        mesh: MeshHandle,
        material: MaterialHandle,
        layers: RenderLayers,
        width: u32,
        height: u32,
    ) -> (quad: PostProcessQuad)
        ensures
            quad == (PostProcessQuad { mesh, material, layers, width, height }),
    {
        PostProcessQuad { mesh, material, layers, width, height }
    }

    /// Makes the rectangle anew at another size; the mesh keeps its handle.
    pub fn regenerate(&mut self, width: u32, height: u32)
        ensures
            *final(self) == old(self).regenerated(width, height),
    {
        self.width = width;
        self.height = height;
    }
}

} // verus!
