//! The constants of a chain: the geometry that its joints share, the
//! weights of its cost, and the steps of its finite differences.
//!
//! All of them are magnitudes that this crate carries from where a chain is
//! built to where its cost is computed.

use vstd::prelude::*;
use crate::magnitude::Magnitude;

verus! {

/// The number of free parameters of a pose: three of its place and three of
/// its orientation.
pub const PARAMETERS: usize = 6;

/// The geometric constants that all joints of a chain share.
#[derive(Clone, Copy, Debug, PartialEq, Eq, Structural)]
pub struct JointSpec {
    /// The distance from one joint to the next.
    pub segment_length: Magnitude,
    /// The least bend allowed between neighbouring joints.
    pub min_bend: Magnitude,
    /// The greatest bend allowed between neighbouring joints.
    pub max_bend: Magnitude,
}

/// The weights of the terms of the cost. A weight is a magnitude, so no term
/// is weighted negatively.
#[derive(Clone, Copy, Debug, PartialEq, Eq, Structural)]
pub struct CostParams {
    /// The weight of the bending energy.
    pub bending_weight: Magnitude,
    /// The weight of the deviation from the segment length.
    pub length_weight: Magnitude,
    /// The weight of the mismatch at the two ends of the chain.
    pub boundary_weight: Magnitude,
}

/// The step sizes of the finite differences, one for each free parameter of
/// a pose.
#[derive(Clone, Copy, Debug, PartialEq, Eq)]
pub struct Steps {
    /// The step of each parameter: first the three of the place, then the
    /// three of the orientation.
    pub sizes: [Magnitude; 6],
}

impl Steps {
    /// The same step for every parameter.
    pub fn new_uniform(step: Magnitude) -> (steps: Steps)
        ensures
            forall|k: int| 0 <= k < PARAMETERS ==> steps.sizes@[k] == step,
    {
        Steps { sizes: [step, step, step, step, step, step] }
    }

    /// The step of one parameter.
    pub fn step(&self, parameter: usize) -> (step: Magnitude)
        requires
            parameter < PARAMETERS,
        ensures
            step == self.sizes@[parameter as int],
    {
        self.sizes[parameter]
    }
}

} // verus!
