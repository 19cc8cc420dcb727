use vstd::prelude::*;

verus! {

/// Why an off-screen target of a requested size cannot be allocated.
#[derive(Clone, Copy, Debug, PartialEq, Eq, Structural)]
pub enum AllocationError {
    /// The width or the height is zero.
    ZeroSize,
    /// An edge is longer than the device allows, or the buffer is larger than
    /// can be addressed.
    ExceedsDeviceLimits,
}

/// What can go wrong in the pipeline.
#[derive(Clone, Copy, Debug, PartialEq, Eq, Structural)]
pub enum PipelineError {
    /// The off-screen target could not be allocated.
    Allocation(AllocationError),
    /// The material samples a texture other than the live target, or an
    /// allocation of it that has been replaced.
    BindingStale,
    /// The compositor camera would not draw strictly after the producer.
    DrawOrder,
}

} // verus!
