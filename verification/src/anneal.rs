//! The annealing driver: which trial is taken over, and what is recorded of
//! the run.
//!
//! The driver owns the current chain. Each epoch it hands out a copy of it
//! together with a move; the caller applies the move to the copy, optimises
//! the copy and reports its cost; the driver then takes the copy over or
//! drops it. The chain that it holds at the end is the result of the run,
//! whether or not it is the best that was seen.

use vstd::prelude::*;
use crate::magnitude::Magnitude;
use crate::perturb::{planned, propose, Perturbation, PerturbationView};
use crate::repulsion::{RepulsionChain, RepulsionView};

verus! {

/// The number of epochs of a run, unless the caller asks for another.
pub const EPOCHS: u32 = 1000;

/// The number of parts into which a run is divided for its diagnostics.
pub const QUARTERS: usize = 4;

/// An accepted move, as the log of the run records it.
#[derive(Clone, Copy, Debug, PartialEq, Eq, Structural)]
pub struct AcceptedStep {
    /// The first joint of the window that was turned.
    pub joint: usize,
    /// The signed angle of the move, in thirty-seconds of a turn.
    pub angle: i8,
}

/// What became of a trial.
#[derive(Clone, Copy, Debug, PartialEq, Eq, Structural)]
pub enum Verdict {
    /// The trial was dropped; the current chain is as it was.
    Rejected,
    /// The trial became the current chain.
    Accepted,
    /// The trial became the current chain, at a cost below every cost that
    /// the run had seen.
    AcceptedAsBest,
}

/// Why a trial could not be concluded.
#[derive(Clone, Copy, Debug, PartialEq, Eq, Structural)]
pub enum AnnealError {
    /// No epoch was begun, so there is no trial to conclude.
    NoEpochBegun,
    /// The chain handed back has another number of joints than the current
    /// chain, so it is no perturbed copy of it.
    TrialLengthMismatch,
}

/// The acceptance rule. A trial that costs strictly less than the current
/// chain is always accepted. Any other is accepted when a draw from the unit
/// interval falls below the acceptance probability of the epoch.
pub open spec fn accepts(current_cost: nat, trial_cost: nat, draw: nat, probability: nat) -> bool {
    current_cost > trial_cost || draw < probability
}

/// Decides whether a trial is taken over, by the rule of [`accepts`].
///
/// The caller supplies the acceptance probability of the epoch, which falls
/// as the run goes on, and a draw from the unit interval. Neither is looked
/// at when the trial improves on the current cost.
pub fn cooling_schedule(
    current_cost: Magnitude,
    trial_cost: Magnitude,
    draw: Magnitude,
    probability: Magnitude,
) -> (accept: bool)
    ensures
        accept == accepts(current_cost@, trial_cost@, draw@, probability@),
        current_cost@ > trial_cost@ ==> accept,
        current_cost@ <= trial_cost@ ==> accept == (draw@ < probability@),
{
    if current_cost.exceeds(trial_cost) {
        true
    } else {
        probability.exceeds(draw)
    }
}

/// The quarter of a run of `epochs` epochs in which epoch `epoch` falls,
/// counted from zero.
pub open spec fn quarter_of(epoch: nat, epochs: nat) -> nat {
    ((QUARTERS * epoch) / (epochs as int)) as nat
}

/// Every epoch of a run falls in one of its four quarters, and later epochs
/// fall in no earlier quarter.
pub proof fn lemma_quarter_of(epoch: nat, later: nat, epochs: nat)
    requires
        epoch <= later < epochs,
    ensures
        quarter_of(epoch, epochs) <= quarter_of(later, epochs) < QUARTERS,
{
    assert((4 * epoch) / epochs <= (4 * later) / epochs < 4) by (nonlinear_arith)
        requires
            epoch <= later < epochs,
    ;
}

/// The quarter of the run in which an epoch falls.
pub fn quarter(epoch: u32, epochs: u32) -> (q: usize)
    requires
        epoch < epochs,
    ensures
        q == quarter_of(epoch as nat, epochs as nat),
        q < QUARTERS,
{
    proof {
        lemma_quarter_of(epoch as nat, epoch as nat, epochs as nat);
    }
    let scaled: u64 = 4 * (epoch as u64);
    let q: u64 = scaled / (epochs as u64);
    q as usize
}

/// The number of moves counted in all four quarters together.
pub open spec fn tally(per_quarter: Seq<u32>) -> nat {
    (per_quarter[0] + per_quarter[1] + per_quarter[2] + per_quarter[3]) as nat
}

/// What the driver is, as mathematics. Costs are ranks of magnitudes.
pub struct AnnealerView<P> {
    /// The current chain.
    pub current: RepulsionView<P>,
    /// The cost of the current chain.
    pub current_cost: nat,
    /// The least cost of any chain that was current.
    pub best_cost: nat,
    /// The epoch in which the least cost was reached; zero for the seed.
    pub best_epoch: nat,
    /// The number of epochs concluded.
    pub epoch: nat,
    /// The number of epochs of the run.
    pub epochs: nat,
    /// The accepted moves, in the order of their epochs.
    pub accepted: Seq<AcceptedStep>,
    /// The number of accepted moves in each quarter of the run.
    pub per_quarter: Seq<u32>,
    /// The move of the epoch that was begun and not yet concluded.
    pub pending: Option<PerturbationView>,
}

impl<P> AnnealerView<P> {
    /// The invariant of the driver.
    pub open spec fn wf(self) -> bool {
        &&& self.current.wf()
        &&& self.epoch <= self.epochs <= u32::MAX
        &&& self.best_cost <= self.current_cost
        &&& self.best_epoch <= self.epoch
        &&& self.per_quarter.len() == QUARTERS
        &&& tally(self.per_quarter) == self.accepted.len()
        &&& self.accepted.len() <= self.epoch
        &&& (self.pending matches Some(p) ==> self.epoch < self.epochs && p.fits(
            self.current.chain.joints.len(),
        ))
    }

    /// Whether every epoch of the run is concluded.
    pub open spec fn finished(self) -> bool {
        self.epoch >= self.epochs
    }

    /// The driver at the start of a run, around a chain that was optimised
    /// to the cost `seed_cost`.
    pub open spec fn seeded(chain: RepulsionView<P>, seed_cost: nat, epochs: nat) -> Self {
        AnnealerView {
            current: chain,
            current_cost: seed_cost,
            best_cost: seed_cost,
            best_epoch: 0,
            epoch: 0,
            epochs,
            accepted: Seq::empty(),
            per_quarter: seq![0u32, 0u32, 0u32, 0u32],
            pending: None,
        }
    }

    /// The driver after an epoch was begun with the move `p`.
    pub open spec fn begun(self, p: PerturbationView) -> Self {
        AnnealerView { pending: Some(p), ..self }
    }

    /// What becomes of a trial of cost `trial_cost` in the present state.
    pub open spec fn verdict(self, trial_cost: nat, draw: nat, probability: nat) -> Verdict {
        if !accepts(self.current_cost, trial_cost, draw, probability) {
            Verdict::Rejected
        } else if self.best_cost > trial_cost {
            Verdict::AcceptedAsBest
        } else {
            Verdict::Accepted
        }
    }

    /// The driver after the epoch that was begun is concluded with a trial.
    ///
    /// An accepted trial becomes the current chain, at its cost; its move is
    /// logged and counted in the quarter of the epoch; where it costs less
    /// than the best so far, it is the new best. A rejected trial leaves all
    /// of that as it was. Either way the epoch is over.
    pub open spec fn concluded(
        self,
        trial: RepulsionView<P>,
        trial_cost: nat,
        draw: nat,
        probability: nat,
    ) -> Self
        recommends
            self.pending is Some,
            self.epoch < self.epochs,
    {
        let p = self.pending->0;
        let q = quarter_of(self.epoch, self.epochs) as int;
        match self.verdict(trial_cost, draw, probability) {
            Verdict::Rejected => AnnealerView {
                epoch: self.epoch + 1,
                pending: None,
                ..self
            },
            verdict => AnnealerView {
                current: trial,
                current_cost: trial_cost,
                best_cost: if verdict == Verdict::AcceptedAsBest {
                    trial_cost
                } else {
                    self.best_cost
                },
                best_epoch: if verdict == Verdict::AcceptedAsBest {
                    self.epoch
                } else {
                    self.best_epoch
                },
                epoch: self.epoch + 1,
                epochs: self.epochs,
                accepted: self.accepted.push(
                    AcceptedStep { joint: p.start as usize, angle: p.angle as i8 },
                ),
                per_quarter: self.per_quarter.update(q, (self.per_quarter[q] + 1) as u32),
                pending: None,
            },
        }
    }
}

/// A rejected trial changes nothing but the count of epochs: the current
/// chain, its cost, the best cost, the log and the counts stay as they were.
pub proof fn lemma_rejection_keeps_chain<P>(
    state: AnnealerView<P>,
    trial: RepulsionView<P>,
    trial_cost: nat,
    draw: nat,
    probability: nat,
)
    requires
        !accepts(state.current_cost, trial_cost, draw, probability),
    ensures
        state.concluded(trial, trial_cost, draw, probability) == (AnnealerView {
            epoch: state.epoch + 1,
            pending: None,
            ..state
        }),
        state.concluded(trial, trial_cost, draw, probability).current == state.current,
{
}

/// A trial that costs strictly less than the current chain is taken over,
/// whatever the draw and the probability.
pub proof fn lemma_improvement_accepted<P>(
    state: AnnealerView<P>,
    trial: RepulsionView<P>,
    trial_cost: nat,
    draw: nat,
    probability: nat,
)
    requires
        state.current_cost > trial_cost,
    ensures
        accepts(state.current_cost, trial_cost, draw, probability),
        state.concluded(trial, trial_cost, draw, probability).current == trial,
        state.concluded(trial, trial_cost, draw, probability).current_cost == trial_cost,
{
}

/// Concluding an epoch keeps the invariant of the driver: the best cost is
/// never above the current cost, the counts of the quarters add up to the
/// length of the log, and no more moves are logged than epochs are over.
pub proof fn lemma_concluded_wf<P>(
    state: AnnealerView<P>,
    trial: RepulsionView<P>,
    trial_cost: nat,
    draw: nat,
    probability: nat,
)
    requires
        state.wf(),
        state.pending is Some,
        trial.wf(),
        trial.chain.joints.len() == state.current.chain.joints.len(),
    ensures
        state.concluded(trial, trial_cost, draw, probability).wf(),
        state.concluded(trial, trial_cost, draw, probability).epoch == state.epoch + 1,
        state.concluded(trial, trial_cost, draw, probability).best_cost <= state.best_cost,
{
    lemma_quarter_of(state.epoch, state.epoch, state.epochs);
}

/// The annealing driver.
#[derive(Debug)]
pub struct Annealer<P> {
    current: RepulsionChain<P>,
    current_cost: Magnitude,
    best_cost: Magnitude,
    best_epoch: u32,
    epoch: u32,
    epochs: u32,
    accepted: Vec<AcceptedStep>,
    per_quarter: Vec<u32>,
    pending: Option<Perturbation>,
}

impl<P> View for Annealer<P> {
    type V = AnnealerView<P>;

    closed spec fn view(&self) -> AnnealerView<P> {
        AnnealerView {
            current: self.current@,
            current_cost: self.current_cost@,
            best_cost: self.best_cost@,
            best_epoch: self.best_epoch as nat,
            epoch: self.epoch as nat,
            epochs: self.epochs as nat,
            accepted: self.accepted@,
            per_quarter: self.per_quarter@,
            pending: match self.pending {
                Some(p) => Some(p@),
                None => None,
            },
        }
    }
}

impl<P: Copy> Annealer<P> {
    /// Starts a run of `epochs` epochs from a chain that was optimised to
    /// the cost `seed_cost`, which is the best cost so far.
    pub fn new(chain: RepulsionChain<P>, seed_cost: Magnitude, epochs: u32) -> (annealer: Annealer<
        P,
    >)
        requires
            chain@.wf(),
        ensures
            annealer@ == AnnealerView::seeded(chain@, seed_cost@, epochs as nat),
            annealer@.wf(),
    {
        let mut per_quarter: Vec<u32> = Vec::with_capacity(QUARTERS);
        per_quarter.push(0);
        per_quarter.push(0);
        per_quarter.push(0);
        per_quarter.push(0);
        let annealer = Annealer {
            current: chain,
            current_cost: seed_cost,
            best_cost: seed_cost,
            best_epoch: 0,
            epoch: 0,
            epochs,
            accepted: Vec::new(),
            per_quarter,
            pending: None,
        };
        assert(annealer@.per_quarter =~= seq![0u32, 0u32, 0u32, 0u32]);
        annealer
    }

    /// Whether every epoch of the run is concluded.
    pub fn is_finished(&self) -> (finished: bool)
        ensures
            finished == self@.finished(),
    {
        self.epoch >= self.epochs
    }

    /// The number of epochs concluded, which is the number of the epoch that
    /// comes next.
    pub fn epoch(&self) -> (epoch: u32)
        ensures
            epoch == self@.epoch,
    {
        self.epoch
    }

    /// The number of epochs of the run.
    pub fn epochs(&self) -> (epochs: u32)
        ensures
            epochs == self@.epochs,
    {
        self.epochs
    }

    /// The current chain.
    pub fn current(&self) -> (chain: &RepulsionChain<P>)
        ensures
            chain@ == self@.current,
    {
        &self.current
    }

    /// The cost of the current chain.
    pub fn current_cost(&self) -> (cost: Magnitude)
        ensures
            cost@ == self@.current_cost,
    {
        self.current_cost
    }

    /// The least cost of any chain that was current.
    pub fn best_cost(&self) -> (cost: Magnitude)
        ensures
            cost@ == self@.best_cost,
    {
        self.best_cost
    }

    /// The epoch in which the least cost was reached.
    pub fn best_epoch(&self) -> (epoch: u32)
        ensures
            epoch == self@.best_epoch,
    {
        self.best_epoch
    }

    /// The accepted moves, in the order of their epochs.
    pub fn accepted(&self) -> (log: &Vec<AcceptedStep>)
        ensures
            log@ == self@.accepted,
    {
        &self.accepted
    }

    /// The number of accepted moves in each quarter of the run.
    pub fn per_quarter(&self) -> (counts: &Vec<u32>)
        ensures
            counts@ == self@.per_quarter,
    {
        &self.per_quarter
    }

    /// The move of the epoch that was begun and not yet concluded.
    pub fn pending(&self) -> (p: Option<Perturbation>)
        ensures
            p is Some <==> self@.pending is Some,
            p matches Some(m) ==> self@.pending == Some(m@),
    {
        self.pending
    }

    /// Whether a trial of cost `trial_cost` would improve on the current
    /// chain, so that it is accepted without a draw.
    pub fn improves(&self, trial_cost: Magnitude) -> (better: bool)
        ensures
            better == (self@.current_cost > trial_cost@),
    {
        self.current_cost.exceeds(trial_cost)
    }

    /// Ends the run and gives out the current chain.
    pub fn into_current(self) -> (chain: RepulsionChain<P>)
        ensures
            chain@ == self@.current,
    {
        self.current
    }

    /// Begins the next epoch with a move planned from the given draws: hands
    /// out a copy of the current chain for the trial, and the move to apply
    /// to it. When the run is finished there is no next epoch, and nothing
    /// changes. An epoch that was begun and not concluded is begun anew.
    pub fn begin_epoch_with(&mut self, index_draw: u8, positive: bool, wide_draw: Magnitude) -> (trial:
        Option<(RepulsionChain<P>, Perturbation)>)
        requires
            old(self)@.wf(),
        ensures
            final(self)@.wf(),
            trial is None <==> old(self)@.finished(),
            trial is None ==> final(self)@ == old(self)@,
            trial matches Some((chain, p)) ==> {
                &&& chain@ == old(self)@.current
                &&& p@ == planned(
                    old(self)@.current.chain.joints.len(),
                    index_draw,
                    positive,
                    wide_draw@,
                )
                &&& final(self)@ == old(self)@.begun(p@)
            },
    {
        if self.epoch >= self.epochs {
            return None;
        }
        let p: Perturbation = Perturbation::plan(self.current.len(), index_draw, positive, wide_draw);
        self.pending = Some(p);
        Some((self.current.clone(), p))
    }

    /// Begins the next epoch with a move drawn at random, as
    /// [`Annealer::begin_epoch_with`] does for given draws. The draw that
    /// selects the window comes from the caller.
    pub fn begin_epoch(&mut self, wide_draw: Magnitude) -> (trial: Option<
        (RepulsionChain<P>, Perturbation),
    >)
        requires
            old(self)@.wf(),
        ensures
            final(self)@.wf(),
            trial is None <==> old(self)@.finished(),
            trial is None ==> final(self)@ == old(self)@,
            trial matches Some((chain, p)) ==> {
                &&& chain@ == old(self)@.current
                &&& exists|index_draw: u8, positive: bool|
                    p@ == planned(
                        old(self)@.current.chain.joints.len(),
                        index_draw,
                        positive,
                        wide_draw@,
                    )
                &&& p@.fits(old(self)@.current.chain.joints.len())
                &&& final(self)@ == old(self)@.begun(p@)
            },
    {
        if self.epoch >= self.epochs {
            return None;
        }
        let p: Perturbation = propose(self.current.len(), wide_draw);
        self.pending = Some(p);
        Some((self.current.clone(), p))
    }

    /// Concludes the epoch that was begun: decides by the acceptance rule
    /// whether the optimised trial replaces the current chain, and records
    /// the outcome.
    ///
    /// Without an epoch begun, or with a chain of another length than the
    /// current one, nothing changes and the error says which.
    pub fn conclude(
        &mut self,
        trial: RepulsionChain<P>,
        trial_cost: Magnitude,
        draw: Magnitude,
        probability: Magnitude,
    ) -> (outcome: Result<Verdict, AnnealError>)
        requires
            old(self)@.wf(),
            trial@.wf(),
        ensures
            final(self)@.wf(),
            match outcome {
                Ok(verdict) => {
                    &&& old(self)@.pending is Some
                    &&& trial@.chain.joints.len() == old(self)@.current.chain.joints.len()
                    &&& verdict == old(self)@.verdict(trial_cost@, draw@, probability@)
                    &&& final(self)@ == old(self)@.concluded(
                        trial@,
                        trial_cost@,
                        draw@,
                        probability@,
                    )
                },
                Err(AnnealError::NoEpochBegun) => {
                    &&& old(self)@.pending is None
                    &&& final(self)@ == old(self)@
                },
                Err(AnnealError::TrialLengthMismatch) => {
                    &&& old(self)@.pending is Some
                    &&& trial@.chain.joints.len() != old(self)@.current.chain.joints.len()
                    &&& final(self)@ == old(self)@
                },
            },
    {
        let p: Perturbation = match self.pending {
            Some(p) => p,
            None => {
                return Err(AnnealError::NoEpochBegun);
            },
        };
        if trial.len() != self.current.len() {
            return Err(AnnealError::TrialLengthMismatch);
        }
        proof {
            lemma_concluded_wf(old(self)@, trial@, trial_cost@, draw@, probability@);
        }
        let epoch: u32 = self.epoch;
        self.pending = None;
        self.epoch = epoch + 1;
        if !cooling_schedule(self.current_cost, trial_cost, draw, probability) {
            return Ok(Verdict::Rejected);
        }
        let as_best: bool = self.best_cost.exceeds(trial_cost);
        let q: usize = quarter(epoch, self.epochs);
        let count: u32 = self.per_quarter[q];
        self.current = trial;
        self.current_cost = trial_cost;
        self.accepted.push(AcceptedStep { joint: p.start(), angle: p.angle() });
        self.per_quarter[q] = count + 1;
        if as_best {
            self.best_cost = trial_cost;
            self.best_epoch = epoch;
            Ok(Verdict::AcceptedAsBest)
        } else {
            Ok(Verdict::Accepted)
        }
    }
}

} // verus!
