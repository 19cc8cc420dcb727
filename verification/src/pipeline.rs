use vstd::prelude::*;
use crate::animation::{AngularRate, AnimatedObject, Vec3Milli};
use crate::assets::{MaterialHandle, MeshHandle, TextureHandle};
use crate::camera::{drawn_first, drawn_second, schedule, CameraConfig, CameraTarget};
use crate::error::PipelineError;
use crate::layers::{
    draws, layers_intersect, layers_of, lemma_single_layers_intersect, post_process_layers,
    scene_layers,
};
use crate::quad::{PostProcessMaterial, PostProcessQuad};
use crate::resize::{coalesced, outcome_of, ResizeCoordinator, ResizeEvent, ResizeOutcome};
use crate::texture::{
    allocation_error, next_count, DeviceLimits, PixelFormat, RenderTarget, TargetView,
};

verus! {

/// The layer of the 3-D scene.
pub const SCENE_LAYER: u8 = 0;

/// The layer of the full-screen quad.
pub const POST_PROCESS_LAYER: u8 = 31;

/// What a pipeline is set up with.
#[derive(Clone, Copy, Debug, PartialEq, Eq, Structural)]
pub struct PipelineSettings {
    /// The client size of the window at startup.
    pub width: u32,
    pub height: u32,
    pub limits: DeviceLimits,
    pub format: PixelFormat,
    /// The handles under which the asset registry keeps the parts.
    pub target: TextureHandle,
    pub object_mesh: MeshHandle,
    pub object_material: MaterialHandle,
    pub quad_mesh: MeshHandle,
    pub post_material: MaterialHandle,
    /// Where the animated object stands, how large it is and how fast it
    /// turns.
    pub position: Vec3Milli,
    pub scale: Vec3Milli,
    pub rate: AngularRate,
    /// The priorities of the two cameras. The compositor's must be the
    /// greater.
    pub producer_priority: isize,
    pub compositor_priority: isize,
    /// Whether the compositor camera is registered before the producer.
    pub compositor_registered_first: bool,
}

impl PipelineSettings {
    /// The usual scene for a window of the given size: an object of twice
    /// the unit size, one unit in front of the origin, that turns at 0.55
    /// radians per second about the X axis and at 0.15 about the Z axis; the
    /// producer camera registered first, with priority 0, and the compositor
    /// with priority 1.
    pub fn standard(width: u32, height: u32, limits: DeviceLimits) -> (settings:
        PipelineSettings)
        ensures
            settings == (PipelineSettings {
                width,
                height,
                limits,
                format: PixelFormat::Bgra8UnormSrgb,
                target: TextureHandle { id: 0 },
                object_mesh: MeshHandle { id: 0 },
                object_material: MaterialHandle { id: 0 },
                quad_mesh: MeshHandle { id: 1 },
                post_material: MaterialHandle { id: 1 },
                position: Vec3Milli { x: 0, y: 0, z: 1000 },
                scale: Vec3Milli { x: 2000, y: 2000, z: 2000 },
                rate: AngularRate { x: 550_000, z: 150_000 },
                producer_priority: 0,
                compositor_priority: 1,
                compositor_registered_first: false,
            }),
            Pipeline::setup_error(settings) == match allocation_error(width, height, limits) {
                Some(e) => Some(PipelineError::Allocation(e)),
                None => None,
            },
    {
        PipelineSettings {
            width,
            height,
            limits,
            format: PixelFormat::Bgra8UnormSrgb,
            target: TextureHandle { id: 0 },
            object_mesh: MeshHandle { id: 0 },
            object_material: MaterialHandle { id: 0 },
            quad_mesh: MeshHandle { id: 1 },
            post_material: MaterialHandle { id: 1 },
            position: Vec3Milli { x: 0, y: 0, z: 1000 },
            scale: Vec3Milli { x: 2000, y: 2000, z: 2000 },
            rate: AngularRate { x: 550_000, z: 150_000 },
            producer_priority: 0,
            compositor_priority: 1,
            compositor_registered_first: false,
        }
    }
}

/// Whether the pipeline is at rest or has a new window size to take up.
#[derive(Clone, Copy, Debug, PartialEq, Eq, Structural)]
pub enum SyncState {
    /// Target, material and quad agree with the window as last seen.
    Stable,
    /// A notification of a new size waits for the next frame.
    Resizing,
}

/// The state of the off-screen target as a pass wrote it or read it.
#[derive(Clone, Copy, Debug, PartialEq, Eq, Structural)]
pub struct TargetState {
    pub texture: TextureHandle,
    /// The allocation of the texture.
    pub revision: u64,
    /// The count of the writes to the target.
    pub writes: u64,
    /// Whether the buffer held what the latest of those writes drew.
    pub rendered: bool,
}

/// What one pass of a frame did.
#[derive(Clone, Copy, Debug, PartialEq, Eq, Structural)]
pub struct PassRecord {
    pub target: CameraTarget,
    pub priority: isize,
    /// Whether the animated object was among what the pass drew.
    pub draws_object: bool,
    /// Whether the full-screen quad was among what the pass drew.
    pub draws_quad: bool,
    /// The state of the off-screen target that the pass read through the
    /// quad's material, if it drew the quad.
    pub sampled: Option<TargetState>,
    /// The state in which the pass left the off-screen target, if it drew
    /// into it.
    pub wrote: Option<TargetState>,
}

/// What happened in one frame, in the order in which it happened.
#[derive(Clone, Copy, Debug, PartialEq, Eq, Structural)]
pub struct FrameTrace {
    pub resize: ResizeOutcome,
    pub first: PassRecord,
    pub second: PassRecord,
}

/// What a pipeline is, as plain values.
pub struct PipelineView {
    pub target: TargetView,
    pub object: AnimatedObject,
    pub quad: PostProcessQuad,
    pub material: PostProcessMaterial,
    /// The two cameras, in the order in which they were registered.
    pub first_camera: CameraConfig,
    pub second_camera: CameraConfig,
    pub pending: Option<ResizeEvent>,
    pub limits: DeviceLimits,
}

impl PipelineView {
    /// The camera that draws the 3-D scene.
    pub open spec fn producer(self) -> CameraConfig {
        if self.first_camera.target is Window {
            self.second_camera
        } else {
            self.first_camera
        }
    }

    /// The camera that draws the full-screen quad.
    pub open spec fn compositor(self) -> CameraConfig {
        if self.first_camera.target is Window {
            self.first_camera
        } else {
            self.second_camera
        }
    }

    /// The target, the material and the quad agree: the quad is as large as
    /// the target, and the material samples the target's present allocation.
    pub open spec fn in_step(self) -> bool {
        &&& self.quad.covers(self.target)
        &&& self.material.bound_to(self.target)
    }

    /// The invariant of the pipeline.
    pub open spec fn wf(self) -> bool {
        &&& self.target.wf()
        &&& self.in_step()
        &&& self.quad.material == self.material.handle
        &&& layers_of(self.quad.layers) == set![POST_PROCESS_LAYER as int]
        &&& self.producer().target == CameraTarget::Offscreen(self.target.handle)
        &&& self.compositor().target == CameraTarget::Window
        &&& self.producer().priority < self.compositor().priority
        &&& layers_of(self.producer().layers) == set![SCENE_LAYER as int]
        &&& layers_of(self.compositor().layers) == set![POST_PROCESS_LAYER as int]
    }

    /// Whether a pipeline is as `Pipeline::new` leaves it.
    pub open spec fn starts_as(self, settings: PipelineSettings) -> bool {
        &&& self.target == TargetView::created(
            settings.target,
            settings.width,
            settings.height,
            settings.format,
        )
        &&& self.object == (AnimatedObject {
            transform: crate::animation::Transform {
                position: settings.position,
                rotation: crate::animation::Rotation { x: 0, z: 0 },
                scale: settings.scale,
            },
            mesh: settings.object_mesh,
            material: settings.object_material,
            rate: settings.rate,
        })
        &&& self.quad.mesh == settings.quad_mesh
        &&& self.quad.material == settings.post_material
        &&& self.quad.width == settings.width
        &&& self.quad.height == settings.height
        &&& self.material == (PostProcessMaterial {
            handle: settings.post_material,
            source: settings.target,
            revision: 0,
        })
        &&& self.producer().priority == settings.producer_priority
        &&& self.compositor().priority == settings.compositor_priority
        &&& (self.first_camera.target is Window) == settings.compositor_registered_first
        &&& self.pending is None
        &&& self.limits == settings.limits
    }

    /// Whether a notification waits for the next frame.
    pub open spec fn state(self) -> SyncState {
        if self.pending is Some {
            SyncState::Resizing
        } else {
            SyncState::Stable
        }
    }

    /// The pipeline after a notification of a new window size has come in.
    pub open spec fn notified(self, event: ResizeEvent) -> PipelineView {
        PipelineView { pending: Some(event), ..self }
    }

    /// The pipeline after a run of notifications has come in.
    pub open spec fn notified_all(self, events: Seq<ResizeEvent>) -> PipelineView {
        PipelineView { pending: coalesced(self.pending, events), ..self }
    }

    /// What the coordinator will do with the pending notification.
    pub open spec fn resize_outcome(self) -> ResizeOutcome {
        outcome_of(self.pending, self.target, self.limits)
    }

    /// The pipeline after the coordinator has acted on the pending
    /// notification.
    pub open spec fn settled(self) -> PipelineView {
        match self.resize_outcome() {
            ResizeOutcome::Applied { width, height } => PipelineView {
                target: self.target.resized(width, height),
                material: self.material.rebound(self.target.resized(width, height)),
                quad: self.quad.regenerated(width, height),
                pending: None,
                ..self
            },
            _ => PipelineView { pending: None, ..self },
        }
    }

    /// The pipeline after the animated object has turned for `delta`
    /// microseconds.
    pub open spec fn animated(self, delta: u64) -> PipelineView {
        PipelineView { object: self.object.advanced(delta), ..self }
    }

    /// The state of the target as a pass that samples it through the
    /// material sees it.
    pub open spec fn sampled_state(self) -> TargetState {
        TargetState {
            texture: self.material.source,
            revision: self.material.revision,
            writes: self.target.writes,
            rendered: self.target.rendered,
        }
    }

    /// The state of the target as a pass that draws into it leaves it.
    pub open spec fn written_state(self) -> TargetState {
        TargetState {
            texture: self.target.handle,
            revision: self.target.revision,
            writes: next_count(self.target.writes),
            rendered: true,
        }
    }

    /// What the pass of a camera does: it draws the entities on the layers
    /// that the camera looks at, samples the target where the quad is among
    /// them, and writes the target where the camera is aimed at it.
    pub open spec fn pass_record(self, camera: CameraConfig) -> PassRecord {
        PassRecord {
            target: camera.target,
            priority: camera.priority,
            draws_object: layers_of(camera.layers).contains(SCENE_LAYER as int),
            draws_quad: layers_intersect(camera.layers, self.quad.layers),
            sampled: if layers_intersect(camera.layers, self.quad.layers) {
                Some(self.sampled_state())
            } else {
                None
            },
            wrote: if camera.target == CameraTarget::Offscreen(self.target.handle) {
                Some(self.written_state())
            } else {
                None
            },
        }
    }

    /// The pipeline after the pass of a camera.
    pub open spec fn after_pass(self, camera: CameraConfig) -> PipelineView {
        if camera.target == CameraTarget::Offscreen(self.target.handle) {
            PipelineView { target: self.target.written(), ..self }
        } else {
            self
        }
    }

    /// The pipeline as the passes of a frame find it: the object has turned,
    /// and the pending notification has been acted on.
    pub open spec fn prepared(self, delta: u64) -> PipelineView {
        self.animated(delta).settled()
    }

    /// The pipeline after a whole frame.
    pub open spec fn after_frame(self, delta: u64) -> PipelineView {
        let ready = self.prepared(delta);
        let first = drawn_first(ready.first_camera, ready.second_camera);
        let second = drawn_second(ready.first_camera, ready.second_camera);
        ready.after_pass(first).after_pass(second)
    }

    /// What happens in a frame.
    pub open spec fn frame_trace(self, delta: u64) -> FrameTrace {
        let ready = self.prepared(delta);
        let first = drawn_first(ready.first_camera, ready.second_camera);
        let second = drawn_second(ready.first_camera, ready.second_camera);
        FrameTrace {
            resize: self.resize_outcome(),
            first: ready.pass_record(first),
            second: ready.after_pass(first).pass_record(second),
        }
    }
}

/// The two-pass pipeline: the off-screen target, the animated object that the
/// producer camera draws into it, the quad and the material through which
/// the compositor camera shows it, and the coordinator that keeps them at the
/// size of the window.
pub struct Pipeline {
    target: RenderTarget,
    object: AnimatedObject,
    quad: PostProcessQuad,
    material: PostProcessMaterial,
    first_camera: CameraConfig,
    second_camera: CameraConfig,
    coordinator: ResizeCoordinator,
    limits: DeviceLimits,
}

impl View for Pipeline {
    type V = PipelineView;

    closed spec fn view(&self) -> PipelineView {
        PipelineView {
            target: self.target@,
            object: self.object,
            quad: self.quad,
            material: self.material,
            first_camera: self.first_camera,
            second_camera: self.second_camera,
            pending: self.coordinator@,
            limits: self.limits,
        }
    }
}

impl Pipeline {
    /// The target's record of its size agrees with the image behind it.
    pub closed spec fn backed(&self) -> bool {
        self.target.backed()
    }

    /// The invariant of the pipeline.
    pub open spec fn wf(&self) -> bool {
        self@.wf() && self.backed()
    }

    /// The error, if any, with which these settings are refused: the draw
    /// order is looked at before the size.
    pub open spec fn setup_error(settings: PipelineSettings) -> Option<PipelineError> {
        if settings.compositor_priority <= settings.producer_priority {
            Some(PipelineError::DrawOrder)
        } else {
            match allocation_error(settings.width, settings.height, settings.limits) {
                Some(e) => Some(PipelineError::Allocation(e)),
                None => None,
            }
        }
    }

    /// Sets the pipeline up: allocates the target at the size of the window,
    /// makes the quad of the same size with a material that samples the
    /// target, and registers the two cameras, the producer on the layer of
    /// the scene and aimed at the target, the compositor on the layer of the
    /// quad and aimed at the window.
    pub fn new(settings: PipelineSettings) -> (made: Result<Pipeline, PipelineError>)
        ensures
            match Self::setup_error(settings) {
                Some(e) => made == Err::<Pipeline, PipelineError>(e),
                None => made is Ok && made->Ok_0.wf() && made->Ok_0@.starts_as(settings),
            },
    {
        if settings.compositor_priority <= settings.producer_priority {
            return Err(PipelineError::DrawOrder);
        }
        let target = match RenderTarget::create(
            settings.target,
            settings.width,
            settings.height,
            settings.format,
            &settings.limits,
        ) {
            Err(e) => { return Err(PipelineError::Allocation(e)); },
            Ok(target) => target,
        };
        let object = AnimatedObject::new(
            settings.object_mesh,
            settings.object_material,
            settings.position,
            settings.scale,
            settings.rate,
        );
        let material = PostProcessMaterial::new(settings.post_material, &target);
        let quad = PostProcessQuad::new(
            settings.quad_mesh,
            settings.post_material,
            post_process_layers(),
            settings.width,
            settings.height,
        );
        let producer = CameraConfig::new(
            CameraTarget::Offscreen(settings.target),
            settings.producer_priority,
            scene_layers(),
        );
        let compositor = CameraConfig::new(
            CameraTarget::Window,
            settings.compositor_priority,
            post_process_layers(),
        );
        let (first_camera, second_camera) = if settings.compositor_registered_first {
            (compositor, producer)
        } else {
            (producer, compositor)
        };
        Ok(
            Pipeline {
                target,
                object,
                quad,
                material,
                first_camera,
                second_camera,
                coordinator: ResizeCoordinator::new(),
                limits: settings.limits,
            },
        )
    }

    /// Takes in a notification that the window has a new size. It is acted
    /// on in the next frame, unless another one comes in before.
    pub fn notify_resize(&mut self, event: ResizeEvent)
        ensures
            final(self)@ == old(self)@.notified(event),
            old(self).wf() ==> final(self).wf(),
    {
        self.coordinator.notify(event);
    }

    /// Takes in the notifications that have come in since the last frame,
    /// oldest first.
    pub fn notify_resizes(&mut self, events: &Vec<ResizeEvent>)
        ensures
            final(self)@ == old(self)@.notified_all(events@),
            old(self).wf() ==> final(self).wf(),
    {
        self.coordinator.notify_all(events);
    }

    /// Runs the pass of one camera.
    fn run_pass(&mut self, camera: &CameraConfig) -> (record: PassRecord)
        requires
            old(self).target.wf(),
        ensures
            record == old(self)@.pass_record(*camera),
            final(self)@ == old(self)@.after_pass(*camera),
            final(self).target.wf(),
    {
        let scene = scene_layers();
        let draws_object = draws(&camera.layers, &scene);
        proof {
            if layers_of(camera.layers).contains(SCENE_LAYER as int) {
                assert(layers_of(scene).contains(SCENE_LAYER as int));
            }
        }
        let draws_quad = draws(&camera.layers, &self.quad.layers);
        let sampled = if draws_quad {
            Some(
                TargetState {
                    texture: self.material.source,
                    revision: self.material.revision,
                    writes: self.target.writes(),
                    rendered: self.target.is_rendered(),
                },
            )
        } else {
            None
        };
        let aimed_at_target = match camera.target {
            CameraTarget::Offscreen(texture) => texture == self.target.handle(),
            CameraTarget::Window => false,
        };
        let wrote = if aimed_at_target {
            self.target.record_write();
            Some(
                TargetState {
                    texture: self.target.handle(),
                    revision: self.target.revision(),
                    writes: self.target.writes(),
                    rendered: true,
                },
            )
        } else {
            None
        };
        PassRecord {
            target: camera.target,
            priority: camera.priority,
            draws_object,
            draws_quad,
            sampled,
            wrote,
        }
    }

    /// Runs one frame: turns the animated object by the time that has passed
    /// since the last frame, acts on the pending notification of a new window
    /// size, and runs the passes of the two cameras in the order of their
    /// priorities.
    pub fn frame(&mut self, delta: u64) -> (trace: FrameTrace)
        requires
            old(self).wf(),
        ensures
            final(self).wf(),
            final(self)@ == old(self)@.after_frame(delta),
            trace == old(self)@.frame_trace(delta),
    {
        self.object.advance(delta);
        let resize = self.coordinator.process(
            &mut self.target,
            &mut self.material,
            &mut self.quad,
            &self.limits,
        );
        let (first, second) = schedule(&self.first_camera, &self.second_camera);
        let first_record = self.run_pass(&first);
        let second_record = self.run_pass(&second);
        FrameTrace { resize, first: first_record, second: second_record }
    }

    /// Whether a notification waits for the next frame.
    pub fn state(&self) -> (state: SyncState)
        ensures
            state == self@.state(),
    {
        match self.coordinator.pending() {
            Some(_) => SyncState::Resizing,
            None => SyncState::Stable,
        }
    }

    /// Fails when the material does not sample the live target. A pipeline
    /// that holds its invariant never fails here.
    pub fn check_binding(&self) -> (checked: Result<(), PipelineError>)
        ensures
            checked == if self@.material.bound_to(self@.target) {
                Ok::<(), PipelineError>(())
            } else {
                Err::<(), PipelineError>(PipelineError::BindingStale)
            },
            self.wf() ==> checked is Ok,
    {
        self.material.check_binding(&self.target)
    }

    pub fn target(&self) -> (target: &RenderTarget)
        ensures
            target@ == self@.target,
            self.wf() ==> target.wf(),
    {
        &self.target
    }

    pub fn object(&self) -> (object: &AnimatedObject)
        ensures
            *object == self@.object,
    {
        &self.object
    }

    pub fn quad(&self) -> (quad: &PostProcessQuad)
        ensures
            *quad == self@.quad,
    {
        &self.quad
    }

    pub fn material(&self) -> (material: &PostProcessMaterial)
        ensures
            *material == self@.material,
    {
        &self.material
    }

    /// The camera that was registered first.
    pub fn first_camera(&self) -> (camera: &CameraConfig)
        ensures
            *camera == self@.first_camera,
    {
        &self.first_camera
    }

    /// The camera that was registered second.
    pub fn second_camera(&self) -> (camera: &CameraConfig)
        ensures
            *camera == self@.second_camera,
    {
        &self.second_camera
    }

    /// The notification that waits for the next frame, if there is one.
    pub fn pending_resize(&self) -> (pending: Option<ResizeEvent>)
        ensures
            pending == self@.pending,
    {
        self.coordinator.pending()
    }

    pub fn limits(&self) -> (limits: DeviceLimits)
        ensures
            limits == self@.limits,
    {
        self.limits
    }
}

/// A frame leaves the pipeline within its invariant and with no notification
/// pending: whatever size came in, target, material and quad agree again
/// before the frame is over.
pub proof fn lemma_frame_keeps_invariant(pipeline: PipelineView, delta: u64)
    requires
        pipeline.wf(),
    ensures
        pipeline.prepared(delta).wf(),
        pipeline.after_frame(delta).wf(),
        pipeline.after_frame(delta).state() == SyncState::Stable,
{
}

/// After the coordinator has acted on a notification of a size that is
/// positive and within the limits, the target and the quad both have that
/// size, and the material samples the target's present allocation under the
/// handle that it had before. Where the size is a new one, that allocation is
/// a new one too, which the material as it was bound before does not sample.
pub proof fn lemma_resize_brings_all_to_new_size(pipeline: PipelineView, event: ResizeEvent)
    requires
        pipeline.wf(),
        allocation_error(event.width, event.height, pipeline.limits) is None,
    ensures
        ({
            let settled = pipeline.notified(event).settled();
            &&& settled.wf()
            &&& settled.target.width == event.width
            &&& settled.target.height == event.height
            &&& settled.quad.width == event.width
            &&& settled.quad.height == event.height
            &&& settled.material.bound_to(settled.target)
            &&& settled.target.handle == pipeline.target.handle
            &&& (event.width != pipeline.target.width || event.height != pipeline.target.height)
                ==> {
                &&& settled.target.revision == next_count(pipeline.target.revision)
                &&& !pipeline.material.bound_to(settled.target)
                &&& !settled.target.rendered
            }
        }),
{
}

/// The frame that follows a notification of a size that can be allocated
/// ends with the target and the quad at that size, and its compositor pass
/// has read the target as it is at the end of the frame: in its present
/// allocation, with the write of this frame in it.
pub proof fn lemma_next_frame_has_new_size(pipeline: PipelineView, event: ResizeEvent, delta: u64)
    requires
        pipeline.wf(),
        allocation_error(event.width, event.height, pipeline.limits) is None,
    ensures
        ({
            let after = pipeline.notified(event).after_frame(delta);
            let trace = pipeline.notified(event).frame_trace(delta);
            &&& after.wf()
            &&& after.target.width == event.width
            &&& after.target.height == event.height
            &&& after.quad.width == event.width
            &&& after.quad.height == event.height
            &&& after.material.bound_to(after.target)
            &&& trace.second.sampled == Some(
                TargetState {
                    texture: after.target.handle,
                    revision: after.target.revision,
                    writes: after.target.writes,
                    rendered: true,
                },
            )
        }),
{
    let notified = pipeline.notified(event);
    lemma_producer_writes_before_compositor_reads(notified, delta);
    lemma_pass_layers(notified.prepared(delta));
}

/// Of the notifications that come in between two frames only the last one
/// has any effect, and the target is allocated anew once at most: once where
/// the last size is a new one that can be allocated, and not at all
/// otherwise.
pub proof fn lemma_only_last_notification_counts(
    pipeline: PipelineView,
    events: Seq<ResizeEvent>,
)
    requires
        pipeline.wf(),
        events.len() > 0,
    ensures
        pipeline.notified_all(events) == pipeline.notified(events.last()),
        ({
            let last = events.last();
            let settled = pipeline.notified_all(events).settled();
            if allocation_error(last.width, last.height, pipeline.limits) is None && (last.width
                != pipeline.target.width || last.height != pipeline.target.height) {
                &&& settled.target.revision == next_count(pipeline.target.revision)
                &&& settled.target.width == last.width
                &&& settled.target.height == last.height
            } else {
                settled.target == pipeline.target
            }
        }),
{
    crate::resize::lemma_coalesced_is_last(pipeline.pending, events);
}

/// A notification of a size with a zero edge is refused and changes nothing:
/// target, material and quad keep the size that they had, which is positive.
pub proof fn lemma_degenerate_size_is_ignored(pipeline: PipelineView, event: ResizeEvent)
    requires
        pipeline.wf(),
        event.width == 0 || event.height == 0,
    ensures
        pipeline.notified(event).resize_outcome() == ResizeOutcome::Rejected(
            crate::error::AllocationError::ZeroSize,
        ),
        pipeline.notified(event).settled() == (PipelineView { pending: None, ..pipeline }),
        pipeline.notified(event).settled().wf(),
        pipeline.notified(event).settled().target.width > 0,
        pipeline.notified(event).settled().target.height > 0,
{
}

/// In every frame the producer pass comes first and draws into the target,
/// and the compositor pass comes second and reads, through the material, the
/// very state that the producer pass of this frame has left: the present
/// allocation, with the write of this frame in it. This holds in either order
/// of registration of the two cameras.
pub proof fn lemma_producer_writes_before_compositor_reads(pipeline: PipelineView, delta: u64)
    requires
        pipeline.wf(),
    ensures
        ({
            let trace = pipeline.frame_trace(delta);
            let ready = pipeline.prepared(delta);
            let after = pipeline.after_frame(delta);
            &&& trace.first.target == CameraTarget::Offscreen(pipeline.target.handle)
            &&& trace.second.target == CameraTarget::Window
            &&& trace.first.priority < trace.second.priority
            &&& trace.first.wrote == Some(ready.written_state())
            &&& trace.first.sampled is None
            &&& trace.second.sampled == trace.first.wrote
            &&& trace.second.wrote is None
            &&& trace.second.sampled->Some_0.rendered
            &&& trace.second.sampled->Some_0.writes == next_count(pipeline.target.writes)
            &&& trace.second.sampled->Some_0.writes != pipeline.target.writes
            &&& trace.second.sampled->Some_0.revision == after.target.revision
            &&& trace.second.sampled->Some_0.texture == after.target.handle
            &&& after.target.writes == next_count(pipeline.target.writes)
        }),
{
    let ready = pipeline.prepared(delta);
    assert(ready.wf());
    lemma_pass_layers(ready);
}

/// The layers keep the two passes apart: in every frame the producer pass
/// draws the animated object and not the quad, and the compositor pass draws
/// the quad and not the animated object.
pub proof fn lemma_layers_isolate_passes(pipeline: PipelineView, delta: u64)
    requires
        pipeline.wf(),
    ensures
        pipeline.frame_trace(delta).first.draws_object,
        !pipeline.frame_trace(delta).first.draws_quad,
        !pipeline.frame_trace(delta).second.draws_object,
        pipeline.frame_trace(delta).second.draws_quad,
{
    let ready = pipeline.prepared(delta);
    assert(ready.wf());
    lemma_pass_layers(ready);
}

/// Which of the two cameras of a pipeline looks at the quad.
proof fn lemma_pass_layers(pipeline: PipelineView)
    requires
        pipeline.wf(),
    ensures
        !layers_intersect(pipeline.producer().layers, pipeline.quad.layers),
        layers_intersect(pipeline.compositor().layers, pipeline.quad.layers),
        drawn_first(pipeline.first_camera, pipeline.second_camera) == pipeline.producer(),
        drawn_second(pipeline.first_camera, pipeline.second_camera) == pipeline.compositor(),
{
    lemma_single_layers_intersect(
        pipeline.producer().layers,
        pipeline.quad.layers,
        SCENE_LAYER as int,
        POST_PROCESS_LAYER as int,
    );
    lemma_single_layers_intersect(
        pipeline.compositor().layers,
        pipeline.quad.layers,
        POST_PROCESS_LAYER as int,
        POST_PROCESS_LAYER as int,
    );
}

} // verus!
