//! A chain together with the symmetry group of the curve and the strength of
//! the repulsion between its strands.

use vstd::prelude::*;
use crate::chain::{Chain, ChainView};
use crate::chain::copy_poses;
use crate::magnitude::Magnitude;

verus! {

/// Why a repulsion chain could not be built.
#[derive(Clone, Copy, Debug, PartialEq, Eq, Structural)]
pub enum RepulsionError {
    /// The strength given is above the cap given with it.
    StrengthAboveCap,
}

/// What a repulsion chain is, as mathematics. Exponent, strength and cap are
/// ranks of magnitudes.
pub struct RepulsionView<P> {
    /// The chain.
    pub chain: ChainView<P>,
    /// The symmetries of the curve: each carries the chain onto one of its
    /// copies.
    pub symmetries: Seq<P>,
    /// The exponent of the distance in the repulsion potential.
    pub exponent: nat,
    /// The current strength of the repulsion.
    pub strength: nat,
    /// The bound that the strength never passes.
    pub max_strength: nat,
}

impl<P> RepulsionView<P> {
    /// The chain is well formed and the strength is within its cap.
    pub open spec fn wf(self) -> bool {
        &&& self.chain.wf()
        &&& self.strength <= self.max_strength
    }
}

/// The strength after one escalation towards `proposed`: it never falls, and
/// it stops at the cap.
pub open spec fn escalated(strength: nat, max_strength: nat, proposed: nat) -> nat {
    if proposed <= strength {
        strength
    } else if proposed >= max_strength {
        max_strength
    } else {
        proposed
    }
}

/// The strength after a run of escalations, one for each proposal in turn.
pub open spec fn escalated_through(strength: nat, max_strength: nat, proposals: Seq<nat>) -> nat
    decreases proposals.len(),
{
    if proposals.len() == 0 {
        strength
    } else {
        escalated(
            escalated_through(strength, max_strength, proposals.drop_last()),
            max_strength,
            proposals.last(),
        )
    }
}

/// However often the strength is escalated, and whatever is proposed each
/// time, it stays within the cap and never falls below where it started.
pub proof fn lemma_strength_capped(strength: nat, max_strength: nat, proposals: Seq<nat>)
    requires
        strength <= max_strength,
    ensures
        strength <= escalated_through(strength, max_strength, proposals) <= max_strength,
    decreases proposals.len(),
{
    if proposals.len() > 0 {
        lemma_strength_capped(strength, max_strength, proposals.drop_last());
    }
}

/// Within a run of escalations the strength never decreases: after more
/// proposals it is at least what it was after fewer.
pub proof fn lemma_strength_monotonic(
    strength: nat,
    max_strength: nat,
    proposals: Seq<nat>,
    shorter: int,
)
    requires
        strength <= max_strength,
        0 <= shorter <= proposals.len(),
    ensures
        escalated_through(strength, max_strength, proposals.take(shorter)) <= escalated_through(
            strength,
            max_strength,
            proposals,
        ),
    decreases proposals.len(),
{
    if shorter == proposals.len() {
        assert(proposals.take(shorter) == proposals);
    } else {
        let fewer = proposals.drop_last();
        lemma_strength_monotonic(strength, max_strength, fewer, shorter);
        assert(fewer.take(shorter) == proposals.take(shorter));
        lemma_strength_capped(strength, max_strength, fewer);
    }
}

/// A chain with the symmetry group of its curve and the parameters of the
/// repulsion between the chain and its symmetric copies.
#[derive(Debug)]
pub struct RepulsionChain<P> {
    chain: Chain<P>,
    symmetries: Vec<P>,
    exponent: Magnitude,
    strength: Magnitude,
    max_strength: Magnitude,
}

impl<P> View for RepulsionChain<P> {
    type V = RepulsionView<P>;

    closed spec fn view(&self) -> RepulsionView<P> {
        RepulsionView {
            chain: self.chain@,
            symmetries: self.symmetries@,
            exponent: self.exponent@,
            strength: self.strength@,
            max_strength: self.max_strength@,
        }
    }
}

impl<P: Copy> Clone for RepulsionChain<P> {
    /// An independent copy, for a trial that may be thrown away.
    fn clone(&self) -> (copy: Self)
        ensures
            copy@ == self@,
    {
        RepulsionChain {
            chain: self.chain.clone(),
            symmetries: copy_poses(&self.symmetries),
            exponent: self.exponent,
            strength: self.strength,
            max_strength: self.max_strength,
        }
    }
}

impl<P: Copy> RepulsionChain<P> {
    /// Wraps a chain. A strength above its cap is refused.
    pub fn new(
        chain: Chain<P>,
        symmetries: Vec<P>,
        exponent: Magnitude,
        strength: Magnitude,
        max_strength: Magnitude,
    ) -> (made: Result<RepulsionChain<P>, RepulsionError>)
        requires
            chain@.wf(),
        ensures
            made is Ok <==> strength@ <= max_strength@,
            made matches Ok(repulsion) ==> repulsion@.wf() && repulsion@ == (RepulsionView {
                chain: chain@,
                symmetries: symmetries@,
                exponent: exponent@,
                strength: strength@,
                max_strength: max_strength@,
            }),
            made matches Err(error) ==> error == RepulsionError::StrengthAboveCap,
    {
        if strength.exceeds(max_strength) {
            return Err(RepulsionError::StrengthAboveCap);
        }
        Ok(RepulsionChain { chain, symmetries, exponent, strength, max_strength })
    }

    /// The chain.
    pub fn chain(&self) -> (chain: &Chain<P>)
        ensures
            chain@ == self@.chain,
    {
        &self.chain
    }

    /// Gives the chain back, without the repulsion parameters.
    pub fn into_chain(self) -> (chain: Chain<P>)
        ensures
            chain@ == self@.chain,
    {
        self.chain
    }

    /// The number of joints.
    pub fn len(&self) -> (n: usize)
        ensures
            n == self@.chain.joints.len(),
    {
        self.chain.len()
    }

    /// The pose of joint `i`.
    pub fn joint(&self, i: usize) -> (pose: P)
        requires
            i < self@.chain.joints.len(),
        ensures
            pose == self@.chain.joints[i as int],
    {
        self.chain.joint(i)
    }

    /// Moves joint `i` to `pose` and leaves everything else as it is.
    pub fn set_joint(&mut self, i: usize, pose: P)
        requires
            i < old(self)@.chain.joints.len(),
        ensures
            final(self)@ == (RepulsionView {
                chain: ChainView {
                    joints: old(self)@.chain.joints.update(i as int, pose),
                    ..old(self)@.chain
                },
                ..old(self)@
            }),
            old(self)@.wf() ==> final(self)@.wf(),
    {
        self.chain.set_joint(i, pose);
    }

    /// The symmetries of the curve.
    pub fn symmetries(&self) -> (symmetries: &Vec<P>)
        ensures
            symmetries@ == self@.symmetries,
    {
        &self.symmetries
    }

    /// The exponent of the distance in the repulsion potential.
    pub fn exponent(&self) -> (exponent: Magnitude)
        ensures
            exponent@ == self@.exponent,
    {
        self.exponent
    }

    /// The current strength of the repulsion.
    pub fn strength(&self) -> (strength: Magnitude)
        ensures
            strength@ == self@.strength,
    {
        self.strength
    }

    /// The bound that the strength never passes.
    pub fn max_strength(&self) -> (max_strength: Magnitude)
        ensures
            max_strength@ == self@.max_strength,
    {
        self.max_strength
    }

    /// Raises the strength towards `proposed`. The strength never falls and
    /// never passes the cap: a proposal below the current strength changes
    /// nothing, one above the cap sets the strength to the cap.
    pub fn escalate(&mut self, proposed: Magnitude)
        requires
            old(self)@.wf(),
        ensures
            final(self)@ == (RepulsionView {
                strength: escalated(old(self)@.strength, old(self)@.max_strength, proposed@),
                ..old(self)@
            }),
            final(self)@.wf(),
            old(self)@.strength <= final(self)@.strength <= final(self)@.max_strength,
    {
        let raised: Magnitude = self.strength.larger(proposed);
        self.strength = raised.smaller(self.max_strength);
    }
}

} // verus!
