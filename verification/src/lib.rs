//! A two-pass render pipeline: a 3-D scene is drawn into an off-screen colour
//! target, and a full-screen quad that samples the target is drawn to the
//! window through a post-processing shader. The library keeps the target, the
//! quad and the material binding in step while the window changes size, and
//! orders the two passes of every frame.
//!
//! Lengths of the scene are kept in thousandths of a world unit, angular
//! rates in microradians per second, times in microseconds and angles in
//! picoradians, so that every sum is exact. Lights are no part of the
//! library: they reach the 3-D pass whatever layer they are on, and no pass
//! draws them.

pub mod animation;
pub mod assets;
pub mod camera;
pub mod error;
pub mod layers;
pub mod pipeline;
pub mod quad;
pub mod resize;
pub mod texture;
