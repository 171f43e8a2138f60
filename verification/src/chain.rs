//! The chain of joints: an ordered sequence of poses between two phantom
//! boundary joints, with the snapshot of the poses it was built from.

use vstd::prelude::*;
use crate::magnitude::Magnitude;
use crate::settings::{CostParams, JointSpec, Steps};

verus! {

/// The least number of joints in a chain. With three joints every
/// perturbation window, of two or of three joints, fits.
pub const MIN_JOINTS: usize = 3;

/// The side of the chain that a phantom joint bounds.
#[derive(Clone, Copy, Debug, PartialEq, Eq, Structural)]
pub enum Leg {
    Incoming,
    Outgoing,
}

/// A virtual joint outside the chain: the image, under a symmetry of the
/// curve, of the joint it attaches to. It stands for the continuation of the
/// curve beyond one end of the chain.
#[derive(Debug)]
pub struct PhantomJoint<P> {
    /// The symmetry that carries the chain onto its continuation.
    pub symmetry: P,
    /// The joint of the chain that the phantom joint attaches to.
    pub index: usize,
    /// The side of the chain that the phantom joint bounds.
    pub leg: Leg,
}

impl<P: Copy> Clone for PhantomJoint<P> {
    fn clone(&self) -> (copy: Self)
        ensures
            copy == *self,
    {
        *self
    }
}

impl<P: Copy> Copy for PhantomJoint<P> {

}

/// Why a chain could not be built.
#[derive(Clone, Copy, Debug, PartialEq, Eq, Structural)]
pub enum ChainError {
    /// Fewer than [`MIN_JOINTS`] poses were given.
    TooFewJoints,
    /// The phantom joint before the chain attaches to no joint of it.
    PrePhantomDetached,
    /// The phantom joint after the chain attaches to no joint of it.
    PostPhantomDetached,
}

/// What a chain is, as mathematics.
pub struct ChainView<P> {
    /// The geometry that the joints share.
    pub spec: JointSpec,
    /// The number of steps into which a full turn is divided.
    pub num_angles: u32,
    /// The phantom joint before the chain.
    pub pre_phantom: PhantomJoint<P>,
    /// The phantom joint after the chain.
    pub post_phantom: PhantomJoint<P>,
    /// The weights of the cost.
    pub cost_params: CostParams,
    /// The weight of the pull of every joint towards its initial pose.
    pub return_to_initial_weight: Magnitude,
    /// The scale of a step of the local optimiser.
    pub descent_rate: Magnitude,
    /// The steps of the finite differences, one for each free parameter.
    pub steps: Steps,
    /// The poses of the joints, in order along the chain.
    pub joints: Seq<P>,
    /// The poses the chain was built from.
    pub initial: Seq<P>,
}

impl<P> ChainView<P> {
    /// At least three joints, a snapshot of the same length, and both
    /// phantom joints attached to joints of the chain.
    pub open spec fn wf(self) -> bool {
        &&& self.joints.len() >= MIN_JOINTS
        &&& self.initial.len() == self.joints.len()
        &&& self.pre_phantom.index < self.joints.len()
        &&& self.post_phantom.index < self.joints.len()
    }

    /// Whether every joint stands where the chain was built: then no joint is
    /// at any distance from its initial pose.
    pub open spec fn at_rest(self) -> bool {
        self.joints == self.initial
    }
}

/// The outcome that [`Chain::new`] owes for given arguments.
pub open spec fn chain_of<P>(
    spec: JointSpec,
    num_angles: u32,
    pre_phantom: PhantomJoint<P>,
    post_phantom: PhantomJoint<P>,
    cost_params: CostParams,
    return_to_initial_weight: Magnitude,
    descent_rate: Magnitude,
    steps: Steps,
    joints: Seq<P>,
) -> Result<ChainView<P>, ChainError> {
    if joints.len() < MIN_JOINTS {
        Err(ChainError::TooFewJoints)
    } else if pre_phantom.index >= joints.len() {
        Err(ChainError::PrePhantomDetached)
    } else if post_phantom.index >= joints.len() {
        Err(ChainError::PostPhantomDetached)
    } else {
        Ok(
            ChainView {
                spec,
                num_angles,
                pre_phantom,
                post_phantom,
                cost_params,
                return_to_initial_weight,
                descent_rate,
                steps,
                joints,
                initial: joints,
            },
        )
    }
}

/// Copies a vector of poses.
pub fn copy_poses<P: Copy>(poses: &Vec<P>) -> (copy: Vec<P>)
    ensures
        copy@ == poses@,
{
    let mut copy: Vec<P> = Vec::with_capacity(poses.len());
    let mut i: usize = 0;
    while i < poses.len()
        invariant
            i <= poses.len(),
            copy@ == poses@.subrange(0, i as int),
        decreases poses.len() - i,
    {
        copy.push(poses[i]);
        i += 1;
    }
    copy
}

/// A chain of joints.
#[derive(Debug)]
pub struct Chain<P> {
    spec: JointSpec,
    num_angles: u32,
    pre_phantom: PhantomJoint<P>,
    post_phantom: PhantomJoint<P>,
    cost_params: CostParams,
    return_to_initial_weight: Magnitude,
    descent_rate: Magnitude,
    steps: Steps,
    joints: Vec<P>,
    initial: Vec<P>,
}

impl<P> View for Chain<P> {
    type V = ChainView<P>;

    closed spec fn view(&self) -> ChainView<P> {
        ChainView {
            spec: self.spec,
            num_angles: self.num_angles,
            pre_phantom: self.pre_phantom,
            post_phantom: self.post_phantom,
            cost_params: self.cost_params,
            return_to_initial_weight: self.return_to_initial_weight,
            descent_rate: self.descent_rate,
            steps: self.steps,
            joints: self.joints@,
            initial: self.initial@,
        }
    }
}

impl<P: Copy> Clone for Chain<P> {
    /// An independent copy: the same joints, snapshot and phantom joints.
    fn clone(&self) -> (copy: Self)
        ensures
            copy@ == self@,
    {
        Chain {
            spec: self.spec,
            num_angles: self.num_angles,
            pre_phantom: self.pre_phantom,
            post_phantom: self.post_phantom,
            cost_params: self.cost_params,
            return_to_initial_weight: self.return_to_initial_weight,
            descent_rate: self.descent_rate,
            steps: self.steps,
            joints: copy_poses(&self.joints),
            initial: copy_poses(&self.initial),
        }
    }
}

impl<P: Copy> Chain<P> {
    /// Builds a chain from its constants, its phantom joints and its poses,
    /// and takes the snapshot of the poses that the return-to-initial step
    /// pulls towards. A chain of fewer than three joints, or one with a
    /// phantom joint that attaches to no joint of it, is refused.
    pub fn new(
        spec: JointSpec,
        num_angles: u32,
        pre_phantom: PhantomJoint<P>,
        post_phantom: PhantomJoint<P>,
        cost_params: CostParams,
        return_to_initial_weight: Magnitude,
        descent_rate: Magnitude,
        steps: Steps,
        joints: Vec<P>,
    ) -> (made: Result<Chain<P>, ChainError>)
        ensures
            match made {
                Ok(chain) => chain_of(
                    spec,
                    num_angles,
                    pre_phantom,
                    post_phantom,
                    cost_params,
                    return_to_initial_weight,
                    descent_rate,
                    steps,
                    joints@,
                ) == Ok::<ChainView<P>, ChainError>(chain@) && chain@.wf() && chain@.at_rest(),
                Err(error) => chain_of(
                    spec,
                    num_angles,
                    pre_phantom,
                    post_phantom,
                    cost_params,
                    return_to_initial_weight,
                    descent_rate,
                    steps,
                    joints@,
                ) == Err::<ChainView<P>, ChainError>(error),
            },
    {
        if joints.len() < MIN_JOINTS {
            return Err(ChainError::TooFewJoints);
        }
        if pre_phantom.index >= joints.len() {
            return Err(ChainError::PrePhantomDetached);
        }
        if post_phantom.index >= joints.len() {
            return Err(ChainError::PostPhantomDetached);
        }
        let initial: Vec<P> = copy_poses(&joints);
        Ok(
            Chain {
                spec,
                num_angles,
                pre_phantom,
                post_phantom,
                cost_params,
                return_to_initial_weight,
                descent_rate,
                steps,
                joints,
                initial,
            },
        )
    }

    /// Builds a chain whose phantom joints stand at its two ends: the one
    /// before it attaches to the first joint and bounds its incoming side,
    /// the one after it attaches to the last joint and bounds its outgoing
    /// side.
    pub fn closed(
        spec: JointSpec,
        num_angles: u32,
        pre_symmetry: P,
        post_symmetry: P,
        cost_params: CostParams,
        return_to_initial_weight: Magnitude,
        descent_rate: Magnitude,
        steps: Steps,
        joints: Vec<P>,
    ) -> (made: Result<Chain<P>, ChainError>)
        ensures
            made is Ok <==> joints@.len() >= MIN_JOINTS,
            made matches Ok(chain) ==> chain@.wf() && chain@.at_rest() && chain@ == (ChainView {
                spec,
                num_angles,
                pre_phantom: PhantomJoint { symmetry: pre_symmetry, index: 0, leg: Leg::Incoming },
                post_phantom: PhantomJoint {
                    symmetry: post_symmetry,
                    index: (joints@.len() - 1) as usize,
                    leg: Leg::Outgoing,
                },
                cost_params,
                return_to_initial_weight,
                descent_rate,
                steps,
                joints: joints@,
                initial: joints@,
            }),
            made matches Err(error) ==> error == ChainError::TooFewJoints,
    {
        if joints.len() < MIN_JOINTS {
            return Err(ChainError::TooFewJoints);
        }
        let last: usize = joints.len() - 1;
        Chain::new(
            spec,
            num_angles,
            PhantomJoint { symmetry: pre_symmetry, index: 0, leg: Leg::Incoming },
            PhantomJoint { symmetry: post_symmetry, index: last, leg: Leg::Outgoing },
            cost_params,
            return_to_initial_weight,
            descent_rate,
            steps,
            joints,
        )
    }

    /// The geometry that the joints share.
    pub fn spec(&self) -> (spec: JointSpec)
        ensures
            spec == self@.spec,
    {
        self.spec
    }

    /// The weights of the cost.
    pub fn cost_params(&self) -> (cost_params: CostParams)
        ensures
            cost_params == self@.cost_params,
    {
        self.cost_params
    }

    /// The weight of the pull of every joint towards its initial pose.
    pub fn return_to_initial_weight(&self) -> (weight: Magnitude)
        ensures
            weight == self@.return_to_initial_weight,
    {
        self.return_to_initial_weight
    }

    /// The scale of a step of the local optimiser.
    pub fn descent_rate(&self) -> (rate: Magnitude)
        ensures
            rate == self@.descent_rate,
    {
        self.descent_rate
    }

    /// The steps of the finite differences.
    pub fn steps(&self) -> (steps: Steps)
        ensures
            steps == self@.steps,
    {
        self.steps
    }

    /// The number of joints.
    pub fn len(&self) -> (n: usize)
        ensures
            n == self@.joints.len(),
    {
        self.joints.len()
    }

    /// The pose of joint `i`.
    pub fn joint(&self, i: usize) -> (pose: P)
        requires
            i < self@.joints.len(),
        ensures
            pose == self@.joints[i as int],
    {
        self.joints[i]
    }

    /// The pose that joint `i` had when the chain was built.
    pub fn initial_joint(&self, i: usize) -> (pose: P)
        requires
            i < self@.initial.len(),
        ensures
            pose == self@.initial[i as int],
    {
        self.initial[i]
    }

    /// The poses of all joints, in order.
    pub fn joints(&self) -> (poses: &Vec<P>)
        ensures
            poses@ == self@.joints,
    {
        &self.joints
    }

    /// The snapshot of the poses that the chain was built from.
    pub fn initial(&self) -> (poses: &Vec<P>)
        ensures
            poses@ == self@.initial,
    {
        &self.initial
    }

    /// The number of steps into which a full turn is divided.
    pub fn num_angles(&self) -> (n: u32)
        ensures
            n == self@.num_angles,
    {
        self.num_angles
    }

    /// The phantom joint before the chain.
    pub fn pre_phantom(&self) -> (phantom: PhantomJoint<P>)
        ensures
            phantom == self@.pre_phantom,
    {
        self.pre_phantom
    }

    /// The phantom joint after the chain.
    pub fn post_phantom(&self) -> (phantom: PhantomJoint<P>)
        ensures
            phantom == self@.post_phantom,
    {
        self.post_phantom
    }

    /// Moves joint `i` to `pose`. Every other joint, the snapshot and the
    /// phantom joints stay as they are.
    pub fn set_joint(&mut self, i: usize, pose: P)
        requires
            i < old(self)@.joints.len(),
        ensures
            final(self)@ == (ChainView { joints: old(self)@.joints.update(i as int, pose), ..old(self)@ }),
            old(self)@.wf() ==> final(self)@.wf(),
    {
        self.joints[i] = pose;
    }
}

} // verus!
