use vstd::prelude::*;
use bevy::render::view::RenderLayers;
use crate::assets::TextureHandle;

verus! {

/// Where a camera draws to.
#[derive(Clone, Copy, Debug, PartialEq, Eq, Structural)]
pub enum CameraTarget {
    /// An off-screen buffer.
    Offscreen(TextureHandle),
    /// The surface of the window.
    Window,
}

/// What the pipeline needs to know of a camera.
#[derive(Clone, Copy, Debug, PartialEq, Eq)]
pub struct CameraConfig {
    pub target: CameraTarget,
    /// Cameras draw in ascending order of this number.
    pub priority: isize,
    /// The layers whose entities the camera draws.
    pub layers: RenderLayers,
}

impl CameraConfig {
    /// A camera with these settings.
    pub fn new(target: CameraTarget, priority: isize, layers: RenderLayers) -> (camera:
        CameraConfig)
        ensures
            camera == (CameraConfig { target, priority, layers }),
    {
        CameraConfig { target, priority, layers }
    }
}

/// The camera of two that draws first: the one of lower priority, and on
/// equal priorities the one that was registered first.
pub open spec fn drawn_first(registered_first: CameraConfig, registered_second: CameraConfig)
    -> CameraConfig {
    if registered_second.priority < registered_first.priority {
        registered_second
    } else {
        registered_first
    }
}

/// The camera of two that draws second.
pub open spec fn drawn_second(registered_first: CameraConfig, registered_second: CameraConfig)
    -> CameraConfig {
    if registered_second.priority < registered_first.priority {
        registered_first
    } else {
        registered_second
    }
}

/// Puts two cameras into the order in which they draw, whatever the order in
/// which they were registered.
pub fn schedule(registered_first: &CameraConfig, registered_second: &CameraConfig) -> (order: (
    CameraConfig,
    CameraConfig,
))
    ensures
        order.0 == drawn_first(*registered_first, *registered_second),
        order.1 == drawn_second(*registered_first, *registered_second),
        order.0.priority <= order.1.priority,
{
    if registered_second.priority < registered_first.priority {
        (*registered_second, *registered_first)
    } else {
        (*registered_first, *registered_second)
    }
}

/// The draw order goes by priority and not by registration: of two cameras
/// with different priorities the same one draws first in either order of
/// registration.
pub proof fn lemma_schedule_ignores_registration(a: CameraConfig, b: CameraConfig)
    requires
        a.priority < b.priority,
    ensures
        drawn_first(a, b) == a,
        drawn_second(a, b) == b,
        drawn_first(b, a) == a,
        drawn_second(b, a) == b,
{
}

} // verus!
