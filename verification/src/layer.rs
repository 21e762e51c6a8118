//! Closed sets of tags that the compute kernel decodes from its parameter block.

use vstd::prelude::*;

verus! {

/// One channel of the simulated field.
#[derive(Clone, Copy, Debug, PartialEq, Eq, Structural)]
pub enum SimulationLayer {
    Real,
    Imaginary,
    Probability,
    Potential,
}

impl SimulationLayer {
    /// The tag under which the kernel knows this layer.
    pub open spec fn spec_index(self) -> u32 {
        match self {
            SimulationLayer::Real => 0,
            SimulationLayer::Imaginary => 1,
            SimulationLayer::Probability => 2,
            SimulationLayer::Potential => 3,
        }
    }

    /// The layer that a tag names, if it names one.
    pub open spec fn spec_from_index(index: u32) -> Option<SimulationLayer> {
        if index == 0 {
            Some(SimulationLayer::Real)
        } else if index == 1 {
            Some(SimulationLayer::Imaginary)
        } else if index == 2 {
            Some(SimulationLayer::Probability)
        } else if index == 3 {
            Some(SimulationLayer::Potential)
        } else {
            None
        }
    }

    /// Layers that can be shown on screen: the potential is painted, never displayed.
    pub open spec fn spec_is_displayable(self) -> bool {
        self != SimulationLayer::Potential
    }

    /// Layers that the brush can write: the probability is derived, never painted.
    pub open spec fn spec_is_paintable(self) -> bool {
        self != SimulationLayer::Probability
    }

    #[verifier::when_used_as_spec(spec_index)]
    pub fn index(self) -> (tag: u32)
        ensures
            tag == self.spec_index(),
    {
        match self {
            SimulationLayer::Real => 0,
            SimulationLayer::Imaginary => 1,
            SimulationLayer::Probability => 2,
            SimulationLayer::Potential => 3,
        }
    }

    pub fn from_index(index: u32) -> (layer: Option<SimulationLayer>)
        ensures
            layer == Self::spec_from_index(index),
    {
        if index == 0 {
            Some(SimulationLayer::Real)
        } else if index == 1 {
            Some(SimulationLayer::Imaginary)
        } else if index == 2 {
            Some(SimulationLayer::Probability)
        } else if index == 3 {
            Some(SimulationLayer::Potential)
        } else {
            None
        }
    }

    #[verifier::when_used_as_spec(spec_is_displayable)]
    pub fn is_displayable(self) -> (yes: bool)
        ensures
            yes == self.spec_is_displayable(),
    {
        match self {
            SimulationLayer::Potential => false,
            _ => true,
        }
    }

    #[verifier::when_used_as_spec(spec_is_paintable)]
    pub fn is_paintable(self) -> (yes: bool)
        ensures
            yes == self.spec_is_paintable(),
    {
        match self {
            SimulationLayer::Probability => false,
            _ => true,
        }
    }

    /// Decoding a layer's tag gives the layer back, and no other tag decodes to it.
    pub proof fn law_index_round_trip(self, index: u32)
        ensures
            Self::spec_from_index(self.spec_index()) == Some(self),
            Self::spec_from_index(index) == Some(self) ==> index == self.spec_index(),
            Self::spec_from_index(index) is Some <==> index < 4,
    {
    }
}

/// What the kernel reads beyond the field's edge.
#[derive(Clone, Copy, Debug, PartialEq, Eq, Structural)]
pub enum BoundaryCondition {
    /// The field wraps around: the far edge is the near edge's neighbour.
    Periodic,
    /// The edge mirrors the field back into itself.
    Reflective,
    /// The edge damps what reaches it.
    Absorbing,
}

impl BoundaryCondition {
    /// The tag under which the kernel knows this condition.
    pub open spec fn spec_index(self) -> u32 {
        match self {
            BoundaryCondition::Periodic => 0,
            BoundaryCondition::Reflective => 1,
            BoundaryCondition::Absorbing => 2,
        }
    }

    /// The condition that a tag names, if it names one.
    pub open spec fn spec_from_index(index: u32) -> Option<BoundaryCondition> {
        if index == 0 {
            Some(BoundaryCondition::Periodic)
        } else if index == 1 {
            Some(BoundaryCondition::Reflective)
        } else if index == 2 {
            Some(BoundaryCondition::Absorbing)
        } else {
            None
        }
    }

    #[verifier::when_used_as_spec(spec_index)]
    pub fn index(self) -> (tag: u32)
        ensures
            tag == self.spec_index(),
    {
        match self {
            BoundaryCondition::Periodic => 0,
            BoundaryCondition::Reflective => 1,
            BoundaryCondition::Absorbing => 2,
        }
    }

    pub fn from_index(index: u32) -> (condition: Option<BoundaryCondition>)
        ensures
            condition == Self::spec_from_index(index),
    {
        if index == 0 {
            Some(BoundaryCondition::Periodic)
        } else if index == 1 {
            Some(BoundaryCondition::Reflective)
        } else if index == 2 {
            Some(BoundaryCondition::Absorbing)
        } else {
            None
        }
    }

    /// Decoding a condition's tag gives the condition back, and no other tag decodes to it.
    pub proof fn law_index_round_trip(self, index: u32)
        ensures
            Self::spec_from_index(self.spec_index()) == Some(self),
            Self::spec_from_index(index) == Some(self) ==> index == self.spec_index(),
            Self::spec_from_index(index) is Some <==> index < 3,
    {
    }
}

} // verus!
