//! The presentation surface: the chain of images shown in the window, and the
//! protocol under which one of them is acquired, drawn to and presented.

use crate::viewport::Extent;
use vstd::prelude::*;

verus! {

/// Whether the chain still matches the window.
#[derive(Clone, Copy, Debug, PartialEq, Eq, Structural)]
pub enum SurfaceState {
    /// Images can be acquired and presented.
    Valid,
    /// The chain is out of date or suboptimal and is rebuilt at the next opportunity.
    PendingRecreate,
    /// A rebuild has been ordered and its result is awaited.
    Recreating,
}

/// What the device answered to a request for the next image.
#[derive(Clone, Copy, Debug, PartialEq, Eq)]
pub enum AcquireOutcome {
    Acquired { image_index: u32, suboptimal: bool },
    /// The chain no longer matches the window.
    Invalidated,
    /// No image became free in time. Nothing is wrong; the frame is missed.
    TimedOut,
}

/// What the device answered to a request to show an image.
#[derive(Clone, Copy, Debug, PartialEq, Eq)]
pub enum PresentOutcome {
    Presented { suboptimal: bool },
    /// The chain no longer matches the window.
    Invalidated,
}

/// A failure that the device or the window system reports, by kind.
#[derive(Clone, Copy, Debug, PartialEq, Eq)]
pub enum Fault {
    /// The surface no longer matches the window.
    SurfaceOutOfDate,
    /// No image became free within the time allowed.
    AcquireTimeout,
    /// A pipeline, binding set, framebuffer or chain of images could not be built.
    ResourceBuild,
    /// A batch could not be submitted or waited for.
    Submission,
}

/// What a failure calls for.
#[derive(Clone, Copy, Debug, PartialEq, Eq)]
pub enum Policy {
    /// Expected: rebuild the surface and carry on.
    Recreate,
    /// Expected: miss this frame and try again at the next tick.
    SkipFrame,
    /// The device is beyond recovery: leave the frame loop.
    Abort,
}

impl Fault {
    pub open spec fn spec_policy(self) -> Policy {
        match self {
            Fault::SurfaceOutOfDate => Policy::Recreate,
            Fault::AcquireTimeout => Policy::SkipFrame,
            Fault::ResourceBuild => Policy::Abort,
            Fault::Submission => Policy::Abort,
        }
    }

    #[verifier::when_used_as_spec(spec_policy)]
    pub fn policy(self) -> (policy: Policy)
        ensures
            policy == self.spec_policy(),
    {
        match self {
            Fault::SurfaceOutOfDate => Policy::Recreate,
            Fault::AcquireTimeout => Policy::SkipFrame,
            Fault::ResourceBuild => Policy::Abort,
            Fault::Submission => Policy::Abort,
        }
    }
}

impl AcquireOutcome {
    /// The answer that a failed acquire stands for, if the failure is one
    /// that the frame loop absorbs.
    pub open spec fn spec_of_fault(fault: Fault) -> Option<AcquireOutcome> {
        match fault.spec_policy() {
            Policy::Recreate => Some(AcquireOutcome::Invalidated),
            Policy::SkipFrame => Some(AcquireOutcome::TimedOut),
            Policy::Abort => None,
        }
    }

    #[verifier::when_used_as_spec(spec_of_fault)]
    pub fn of_fault(fault: Fault) -> (outcome: Option<AcquireOutcome>)
        ensures
            outcome == Self::spec_of_fault(fault),
            outcome is None <==> fault.spec_policy() is Abort,
    {
        match fault.policy() {
            Policy::Recreate => Some(AcquireOutcome::Invalidated),
            Policy::SkipFrame => Some(AcquireOutcome::TimedOut),
            Policy::Abort => None,
        }
    }
}

impl PresentOutcome {
    /// The answer that a failed present stands for, if the failure is one
    /// that the frame loop absorbs. A present does not time out.
    pub open spec fn spec_of_fault(fault: Fault) -> Option<PresentOutcome> {
        match fault {
            Fault::SurfaceOutOfDate => Some(PresentOutcome::Invalidated),
            _ => None,
        }
    }

    #[verifier::when_used_as_spec(spec_of_fault)]
    pub fn of_fault(fault: Fault) -> (outcome: Option<PresentOutcome>)
        ensures
            outcome == Self::spec_of_fault(fault),
            outcome is Some <==> fault.spec_policy() is Recreate,
    {
        match fault {
            Fault::SurfaceOutOfDate => Some(PresentOutcome::Invalidated),
            _ => None,
        }
    }
}

/// The chain of images as the library knows it.
#[derive(Clone, Copy, Debug, PartialEq, Eq)]
pub struct PresentationSurface {
    pub state: SurfaceState,
    /// Size of every image of the chain.
    pub extent: Extent,
    /// Number of images, and of the colour views made of them.
    pub image_count: u32,
    /// Counts the chains built so far. Images of different generations share nothing.
    pub generation: u64,
}

impl PresentationSurface {
    /// The chain has at least one image, and its images have pixels.
    pub open spec fn wf(self) -> bool {
        !self.extent.spec_is_empty() && self.image_count > 0
    }

    /// The first chain built for a window.
    pub open spec fn created(extent: Extent, image_count: u32) -> PresentationSurface {
        PresentationSurface { state: SurfaceState::Valid, extent, image_count, generation: 0 }
    }

    /// The chain after the device called it out of date or suboptimal. A
    /// rebuild that is already under way is not ordered again.
    pub open spec fn invalidated(self) -> PresentationSurface {
        PresentationSurface {
            state: if self.state is Recreating {
                SurfaceState::Recreating
            } else {
                SurfaceState::PendingRecreate
            },
            ..self
        }
    }

    /// The chain while its replacement is being built.
    pub open spec fn recreating(self) -> PresentationSurface {
        PresentationSurface { state: SurfaceState::Recreating, ..self }
    }

    /// The chain that replaces this one: new images, a new generation.
    pub open spec fn replaced(self, extent: Extent, image_count: u32) -> PresentationSurface
        recommends
            self.generation < u64::MAX,
    {
        PresentationSurface {
            state: SurfaceState::Valid,
            extent,
            image_count,
            generation: (self.generation + 1) as u64,
        }
    }
}

/// Number of images to ask for, given the fewest that the device supports:
/// one more, so that one can be drawn to while another is shown.
pub open spec fn requested_image_count(min_image_count: u32) -> Option<u32> {
    if min_image_count < u32::MAX {
        Some((min_image_count + 1) as u32)
    } else {
        None
    }
}

pub fn request_image_count(min_image_count: u32) -> (count: Option<u32>)
    ensures
        count == requested_image_count(min_image_count),
{
    min_image_count.checked_add(1)
}

} // verus!
