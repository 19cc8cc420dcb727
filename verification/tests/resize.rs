use post_processing::assets::{MaterialHandle, MeshHandle, TextureHandle};
use post_processing::error::AllocationError;
use post_processing::layers::post_process_layers;
use post_processing::quad::{PostProcessMaterial, PostProcessQuad};
use post_processing::resize::{ResizeCoordinator, ResizeEvent, ResizeOutcome};
use post_processing::texture::{DeviceLimits, PixelFormat, RenderTarget};

fn limits() -> DeviceLimits {
    DeviceLimits { max_texture_dimension: 8192 }
}

fn parts() -> (RenderTarget, PostProcessMaterial, PostProcessQuad) {
    let target = RenderTarget::create(
        TextureHandle { id: 0 },
        800,
        600,
        PixelFormat::Bgra8UnormSrgb,
        &limits(),
    )
    .unwrap();
    let material = PostProcessMaterial::new(MaterialHandle { id: 1 }, &target);
    let quad = PostProcessQuad::new(
        MeshHandle { id: 1 },
        MaterialHandle { id: 1 },
        post_process_layers(),
        800,
        600,
    );
    (target, material, quad)
}

fn event(width: u32, height: u32) -> ResizeEvent {
    ResizeEvent { width, height }
}

#[test]
fn nothing_pending_nothing_done() {
    let (mut target, mut material, mut quad) = parts();
    let mut coordinator = ResizeCoordinator::new();
    assert_eq!(coordinator.pending(), None);
    let outcome = coordinator.process(&mut target, &mut material, &mut quad, &limits());
    assert_eq!(outcome, ResizeOutcome::Idle);
    assert_eq!((target.width(), target.height(), target.revision()), (800, 600, 0));
    assert_eq!((quad.width, quad.height), (800, 600));
    assert_eq!(material.revision, 0);
}

#[test]
fn a_new_size_is_applied_to_target_material_and_quad() {
    let (mut target, mut material, mut quad) = parts();
    let mut coordinator = ResizeCoordinator::new();
    coordinator.notify(event(1024, 768));
    assert_eq!(coordinator.pending(), Some(event(1024, 768)));
    let outcome = coordinator.process(&mut target, &mut material, &mut quad, &limits());
    assert_eq!(outcome, ResizeOutcome::Applied { width: 1024, height: 768 });
    assert_eq!(coordinator.pending(), None);
    assert_eq!((target.width(), target.height()), (1024, 768));
    assert_eq!(target.revision(), 1);
    assert_eq!(target.handle(), TextureHandle { id: 0 });
    assert_eq!(target.image().texture_descriptor.size.width, 1024);
    assert_eq!(target.image().texture_descriptor.size.height, 768);
    assert_eq!((quad.width, quad.height), (1024, 768));
    assert_eq!(quad.mesh, MeshHandle { id: 1 });
    assert_eq!(material.source, target.handle());
    assert_eq!(material.revision, target.revision());
    assert_eq!(material.check_binding(&target), Ok(()));
}

#[test]
fn a_notification_is_acted_on_once() {
    let (mut target, mut material, mut quad) = parts();
    let mut coordinator = ResizeCoordinator::new();
    coordinator.notify(event(1024, 768));
    coordinator.process(&mut target, &mut material, &mut quad, &limits());
    let again = coordinator.process(&mut target, &mut material, &mut quad, &limits());
    assert_eq!(again, ResizeOutcome::Idle);
    assert_eq!(target.revision(), 1);
}

#[test]
fn only_the_last_of_several_notifications_is_applied() {
    let (mut target, mut material, mut quad) = parts();
    let mut coordinator = ResizeCoordinator::new();
    coordinator.notify(event(801, 600));
    coordinator.notify(event(900, 650));
    coordinator.notify(event(0, 0));
    coordinator.notify(event(1024, 768));
    assert_eq!(coordinator.pending(), Some(event(1024, 768)));
    let outcome = coordinator.process(&mut target, &mut material, &mut quad, &limits());
    assert_eq!(outcome, ResizeOutcome::Applied { width: 1024, height: 768 });
    assert_eq!(target.revision(), 1);
    assert_eq!((target.width(), target.height()), (1024, 768));
    assert_eq!((quad.width, quad.height), (1024, 768));
}

#[test]
fn notify_all_keeps_the_last() {
    let mut coordinator = ResizeCoordinator::new();
    coordinator.notify_all(&vec![event(1, 2), event(3, 4), event(5, 6)]);
    assert_eq!(coordinator.pending(), Some(event(5, 6)));
    coordinator.notify_all(&vec![]);
    assert_eq!(coordinator.pending(), Some(event(5, 6)));
    coordinator.notify_all(&vec![event(7, 8)]);
    assert_eq!(coordinator.pending(), Some(event(7, 8)));
    let mut idle = ResizeCoordinator::new();
    idle.notify_all(&vec![]);
    assert_eq!(idle.pending(), None);
}

#[test]
fn the_size_that_the_target_has_is_a_no_op() {
    let (mut target, mut material, mut quad) = parts();
    let mut coordinator = ResizeCoordinator::new();
    coordinator.notify(event(800, 600));
    let outcome = coordinator.process(&mut target, &mut material, &mut quad, &limits());
    assert_eq!(outcome, ResizeOutcome::Unchanged);
    assert_eq!(coordinator.pending(), None);
    assert_eq!(target.revision(), 0);
    assert_eq!((target.width(), target.height()), (800, 600));
    assert_eq!(material.revision, 0);
}

#[test]
fn a_zero_size_is_ignored() {
    let (mut target, mut material, mut quad) = parts();
    let mut coordinator = ResizeCoordinator::new();
    for degenerate in [event(0, 0), event(0, 600), event(800, 0), event(0, 1), event(1, 0)] {
        coordinator.notify(degenerate);
        let outcome = coordinator.process(&mut target, &mut material, &mut quad, &limits());
        assert_eq!(outcome, ResizeOutcome::Rejected(AllocationError::ZeroSize));
        assert_eq!(coordinator.pending(), None);
        assert_eq!((target.width(), target.height()), (800, 600));
        assert_eq!(target.revision(), 0);
        assert_eq!(target.image().texture_descriptor.size.width, 800);
        assert_eq!(target.image().data.len(), 800 * 600 * 4);
        assert_eq!((quad.width, quad.height), (800, 600));
        assert_eq!(material.check_binding(&target), Ok(()));
    }
}

#[test]
fn a_size_of_one_by_one_is_applied() {
    let (mut target, mut material, mut quad) = parts();
    let mut coordinator = ResizeCoordinator::new();
    coordinator.notify(event(1, 1));
    let outcome = coordinator.process(&mut target, &mut material, &mut quad, &limits());
    assert_eq!(outcome, ResizeOutcome::Applied { width: 1, height: 1 });
    assert_eq!((target.width(), target.height()), (1, 1));
    assert_eq!((quad.width, quad.height), (1, 1));
    assert_eq!(target.image().data.len(), 4);
    assert_eq!(material.check_binding(&target), Ok(()));
}

#[test]
fn a_size_beyond_the_limits_is_refused_and_the_target_kept() {
    let (mut target, mut material, mut quad) = parts();
    let mut coordinator = ResizeCoordinator::new();
    coordinator.notify(event(70_000, 600));
    let outcome = coordinator.process(&mut target, &mut material, &mut quad, &limits());
    assert_eq!(outcome, ResizeOutcome::Rejected(AllocationError::ExceedsDeviceLimits));
    assert_eq!((target.width(), target.height()), (800, 600));
    assert_eq!(target.revision(), 0);
    assert_eq!((quad.width, quad.height), (800, 600));
    assert_eq!(material.check_binding(&target), Ok(()));
}
