use post_processing::assets::{MaterialHandle, MeshHandle, TextureHandle};
use post_processing::error::PipelineError;
use post_processing::layers::{post_process_layers, scene_layers};
use post_processing::quad::{
    PostProcessMaterial, PostProcessQuad, SOURCE_SAMPLER_SLOT, SOURCE_TEXTURE_SLOT,
};
use post_processing::texture::{DeviceLimits, PixelFormat, RenderTarget};

fn limits() -> DeviceLimits {
    DeviceLimits { max_texture_dimension: 8192 }
}

fn target_with_handle(id: u64) -> RenderTarget {
    RenderTarget::create(TextureHandle { id }, 64, 32, PixelFormat::Bgra8UnormSrgb, &limits())
        .unwrap()
}

#[test]
fn the_shader_has_one_texture_and_one_sampler_slot() {
    assert_eq!(SOURCE_TEXTURE_SLOT, 0);
    assert_eq!(SOURCE_SAMPLER_SLOT, 1);
}

#[test]
fn both_shader_stages_come_from_the_same_program() {
    assert_eq!(PostProcessMaterial::fragment_shader(), "shaders/fxaa.wgsl");
    assert_eq!(PostProcessMaterial::vertex_shader(), "shaders/fxaa.wgsl");
}

#[test]
fn a_new_material_samples_its_target() {
    let target = target_with_handle(3);
    let material = PostProcessMaterial::new(MaterialHandle { id: 9 }, &target);
    assert_eq!(
        material,
        PostProcessMaterial {
            handle: MaterialHandle { id: 9 },
            source: TextureHandle { id: 3 },
            revision: 0,
        }
    );
    assert_eq!(material.check_binding(&target), Ok(()));
}

#[test]
fn a_binding_is_stale_after_the_target_was_resized() {
    let mut target = target_with_handle(3);
    let mut material = PostProcessMaterial::new(MaterialHandle { id: 9 }, &target);
    target.resize(128, 64, &limits()).unwrap();
    assert_eq!(material.check_binding(&target), Err(PipelineError::BindingStale));
    material.refresh(&target);
    assert_eq!(material.check_binding(&target), Ok(()));
    assert_eq!(material.revision, 1);
    assert_eq!(material.source, TextureHandle { id: 3 });
    assert_eq!(material.handle, MaterialHandle { id: 9 });
}

#[test]
fn a_binding_to_another_texture_is_stale() {
    let target = target_with_handle(3);
    let other = target_with_handle(4);
    let mut material = PostProcessMaterial::new(MaterialHandle { id: 9 }, &other);
    assert_eq!(material.check_binding(&target), Err(PipelineError::BindingStale));
    material.refresh(&target);
    assert_eq!(material.check_binding(&target), Ok(()));
    assert_eq!(material.check_binding(&other), Err(PipelineError::BindingStale));
}

#[test]
fn regenerate_changes_the_rectangle_only() {
    let mut quad = PostProcessQuad::new(
        MeshHandle { id: 1 },
        MaterialHandle { id: 9 },
        post_process_layers(),
        800,
        600,
    );
    assert_eq!((quad.width, quad.height), (800, 600));
    quad.regenerate(1024, 768);
    assert_eq!(
        quad,
        PostProcessQuad {
            mesh: MeshHandle { id: 1 },
            material: MaterialHandle { id: 9 },
            layers: post_process_layers(),
            width: 1024,
            height: 768,
        }
    );
    assert_ne!(quad.layers, scene_layers());
}
