//! The order of work within one optimisation run.
//!
//! A run is a fixed number of rounds. Each round is one descent sweep of the
//! local optimiser, then the repulsion step if it is switched on, then the
//! return-to-initial step if it is switched on. The numerical work is the
//! caller's; this module says which action is due, takes the report of each
//! one, and keeps the cost that the last descent reported, which is the
//! result of the run.

use vstd::prelude::*;
use crate::magnitude::{Magnitude, INFINITY_BITS};

verus! {

/// One action of a round.
#[derive(Clone, Copy, Debug, PartialEq, Eq, Structural)]
pub enum SweepAction {
    /// One sweep of the local optimiser over all joints; it reports the cost
    /// of the chain.
    Descend,
    /// One application of the repulsion between the chain and its copies.
    Repulse,
    /// One pull of every joint towards its initial pose.
    ReturnToInitial,
}

/// The report of an action that was carried out.
#[derive(Clone, Copy, Debug, PartialEq, Eq, Structural)]
pub enum SweepEvent {
    /// A descent sweep was made and left the chain at this cost.
    Descended(Magnitude),
    /// The repulsion step was made.
    Repulsed,
    /// The return-to-initial step was made.
    Returned,
}

/// Why a report was refused.
#[derive(Clone, Copy, Debug, PartialEq, Eq, Structural)]
pub enum SweepError {
    /// The report is not of the action that is due, or none is due.
    OutOfTurn,
    /// The descent reported an infinite cost.
    NonFiniteCost,
}

/// How a run is made up.
#[derive(Clone, Copy, Debug, PartialEq, Eq, Structural)]
pub struct SweepPlan {
    /// The number of rounds.
    pub steps: u32,
    /// Whether each round applies the repulsion.
    pub repulsion: bool,
    /// Whether each round pulls the joints towards their initial poses.
    pub return_to_initial: bool,
}

/// A sequence, repeated a number of times.
pub open spec fn repeated<A>(round: Seq<A>, times: nat) -> Seq<A>
    decreases times,
{
    if times == 0 {
        Seq::empty()
    } else {
        repeated(round, (times - 1) as nat) + round
    }
}

/// The `k`-th element of a repetition is the element of the round at the
/// place of `k` within its round.
pub proof fn lemma_repeated_index<A>(round: Seq<A>, times: nat, turn: nat, place: nat)
    requires
        turn < times,
        place < round.len(),
    ensures
        repeated(round, times).len() == times * round.len(),
        turn * round.len() + place < repeated(round, times).len(),
        repeated(round, times)[(turn * round.len() + place) as int] == round[place as int],
    decreases times,
{
    let shorter = (times - 1) as nat;
    assert(times * round.len() == shorter * round.len() + round.len()) by (nonlinear_arith)
        requires
            times == shorter + 1,
    ;
    if shorter == 0 {
        assert(repeated(round, 0).len() == 0);
        assert(turn * round.len() == 0) by (nonlinear_arith)
            requires
                turn == 0,
        ;
    } else {
        lemma_repeated_index(round, shorter, 0, place);
        if turn < shorter {
            lemma_repeated_index(round, shorter, turn, place);
        } else {
            assert(turn * round.len() == shorter * round.len()) by (nonlinear_arith)
                requires
                    turn == shorter,
            ;
        }
    }
}

impl SweepPlan {
    /// The actions of one round, in order.
    pub open spec fn round(self) -> Seq<SweepAction> {
        seq![SweepAction::Descend] + (if self.repulsion {
            seq![SweepAction::Repulse]
        } else {
            Seq::empty()
        }) + (if self.return_to_initial {
            seq![SweepAction::ReturnToInitial]
        } else {
            Seq::empty()
        })
    }

    /// The actions of the whole run, in order.
    pub open spec fn schedule(self) -> Seq<SweepAction> {
        repeated(self.round(), self.steps as nat)
    }
}

/// Whether `event` reports the action `action`.
pub open spec fn answers(event: SweepEvent, action: SweepAction) -> bool {
    match (event, action) {
        (SweepEvent::Descended(_), SweepAction::Descend) => true,
        (SweepEvent::Repulsed, SweepAction::Repulse) => true,
        (SweepEvent::Returned, SweepAction::ReturnToInitial) => true,
        _ => false,
    }
}

/// What a run is, as mathematics.
pub struct OptimizationView {
    /// How the run is made up.
    pub plan: SweepPlan,
    /// The number of rounds that are complete.
    pub sweep: nat,
    /// The number of actions of the round in progress that are done.
    pub stage: nat,
    /// The costs that the descents reported, in order; ranks of magnitudes.
    pub costs: Seq<nat>,
}

impl OptimizationView {
    /// The invariant of a run.
    pub open spec fn wf(self) -> bool {
        &&& self.sweep <= self.plan.steps
        &&& self.stage < self.plan.round().len()
        &&& self.sweep == self.plan.steps ==> self.stage == 0
        &&& self.costs.len() == self.sweep + (if self.stage > 0 {
            1nat
        } else {
            0nat
        })
        &&& forall|k: int| 0 <= k < self.costs.len() ==> #[trigger] self.costs[k] < INFINITY_BITS
    }

    /// The number of actions done since the start of the run.
    pub open spec fn cursor(self) -> nat {
        self.sweep * self.plan.round().len() + self.stage
    }

    /// Whether every round is complete.
    pub open spec fn finished(self) -> bool {
        self.sweep >= self.plan.steps
    }

    /// The action that is due, if the run is not finished.
    pub open spec fn pending(self) -> Option<SweepAction> {
        if self.finished() {
            None
        } else {
            Some(self.plan.round()[self.stage as int])
        }
    }

    /// The cost that the run stands at: that of the last descent, or
    /// infinity before the first.
    pub open spec fn last_cost(self) -> nat {
        if self.costs.len() == 0 {
            INFINITY_BITS as nat
        } else {
            self.costs.last()
        }
    }

    /// A run that has not begun.
    pub open spec fn fresh(plan: SweepPlan) -> Self {
        OptimizationView { plan, sweep: 0, stage: 0, costs: Seq::empty() }
    }

    /// The run after a report, or why the report is refused.
    pub open spec fn stepped(self, event: SweepEvent) -> Result<Self, SweepError> {
        if self.pending() is None || !answers(event, self.pending()->0) {
            Err(SweepError::OutOfTurn)
        } else if event matches SweepEvent::Descended(cost) && cost@ >= INFINITY_BITS {
            Err(SweepError::NonFiniteCost)
        } else {
            let costs = match event {
                SweepEvent::Descended(cost) => self.costs.push(cost@),
                _ => self.costs,
            };
            if self.stage + 1 == self.plan.round().len() {
                Ok(OptimizationView { sweep: self.sweep + 1, stage: 0, costs, ..self })
            } else {
                Ok(OptimizationView { stage: self.stage + 1, costs, ..self })
            }
        }
    }
}

/// The action that is due is the one at the cursor in the schedule of the
/// run, and the run is finished exactly when the cursor is at its end.
pub proof fn lemma_pending_follows_schedule(run: OptimizationView)
    requires
        run.wf(),
    ensures
        run.plan.schedule().len() == run.plan.steps * run.plan.round().len(),
        run.cursor() <= run.plan.schedule().len(),
        run.finished() <==> run.cursor() == run.plan.schedule().len(),
        run.pending() matches Some(action) ==> action == run.plan.schedule()[run.cursor() as int],
{
    let round = run.plan.round();
    let steps = run.plan.steps as nat;
    if steps > 0 {
        lemma_repeated_index(round, steps, 0, 0);
    } else {
        assert(steps * round.len() == 0) by (nonlinear_arith)
            requires
                steps == 0,
        ;
    }
    if run.sweep < steps {
        lemma_repeated_index(round, steps, run.sweep, run.stage);
    } else {
        assert(run.sweep * round.len() == steps * round.len());
    }
}

/// A report that is accepted moves the cursor on by one, keeps the
/// invariant, and leaves the run at the cost that it reports, if it reports
/// one, and at the cost before it otherwise.
pub proof fn lemma_stepped(run: OptimizationView, event: SweepEvent)
    requires
        run.wf(),
        run.stepped(event) is Ok,
    ensures
        run.stepped(event)->Ok_0.wf(),
        run.stepped(event)->Ok_0.plan == run.plan,
        run.stepped(event)->Ok_0.cursor() == run.cursor() + 1,
        run.stepped(event)->Ok_0.last_cost() == match event {
            SweepEvent::Descended(cost) => cost@,
            _ => run.last_cost(),
        },
{
    let next = run.stepped(event)->Ok_0;
    let len = run.plan.round().len();
    if run.stage + 1 == len {
        assert((run.sweep + 1) * len == run.sweep * len + len) by (nonlinear_arith);
    }
    match event {
        SweepEvent::Descended(cost) => {
            assert(next.costs.last() == cost@);
        },
        _ => {},
    }
}

/// The reports of one round whose descent leaves the chain at `cost`.
pub open spec fn round_reports(plan: SweepPlan, cost: Magnitude) -> Seq<SweepEvent> {
    seq![SweepEvent::Descended(cost)] + (if plan.repulsion {
        seq![SweepEvent::Repulsed]
    } else {
        Seq::empty()
    }) + (if plan.return_to_initial {
        seq![SweepEvent::Returned]
    } else {
        Seq::empty()
    })
}

/// The reports of as many rounds as there are costs, the descent of each
/// round leaving the chain at its cost.
pub open spec fn run_reports(plan: SweepPlan, costs: Seq<Magnitude>) -> Seq<SweepEvent>
    decreases costs.len(),
{
    if costs.len() == 0 {
        Seq::empty()
    } else {
        run_reports(plan, costs.drop_last()) + round_reports(plan, costs.last())
    }
}

impl OptimizationView {
    /// The run after a sequence of reports, each taken in its turn. The
    /// first report that is refused ends it.
    pub open spec fn stepped_through(self, events: Seq<SweepEvent>) -> Result<Self, SweepError>
        decreases events.len(),
    {
        if events.len() == 0 {
            Ok(self)
        } else {
            match self.stepped_through(events.drop_last()) {
                Ok(run) => run.stepped(events.last()),
                Err(error) => Err(error),
            }
        }
    }
}

/// Taking two sequences of reports one after the other is taking their
/// concatenation.
pub proof fn lemma_stepped_through_concat(
    run: OptimizationView,
    first: Seq<SweepEvent>,
    second: Seq<SweepEvent>,
)
    ensures
        run.stepped_through(first + second) == match run.stepped_through(first) {
            Ok(middle) => middle.stepped_through(second),
            Err(error) => Err(error),
        },
    decreases second.len(),
{
    if second.len() == 0 {
        assert(first + second == first);
    } else {
        assert((first + second).drop_last() == first + second.drop_last());
        assert((first + second).last() == second.last());
        lemma_stepped_through_concat(run, first, second.drop_last());
    }
}

/// The reports of one round, taken at the start of a round with a finite
/// cost, are all accepted and complete the round: the run stands at the
/// start of the next round, with the cost of the descent added to its costs.
pub proof fn lemma_round(run: OptimizationView, cost: Magnitude)
    requires
        run.wf(),
        run.stage == 0,
        !run.finished(),
        cost@ < INFINITY_BITS,
    ensures
        run.stepped_through(round_reports(run.plan, cost)) == Ok::<OptimizationView, SweepError>(
            OptimizationView { sweep: run.sweep + 1, costs: run.costs.push(cost@), ..run },
        ),
        (OptimizationView { sweep: run.sweep + 1, costs: run.costs.push(cost@), ..run }).wf(),
{
    let reports = round_reports(run.plan, cost);
    let round = run.plan.round();
    reveal_with_fuel(OptimizationView::stepped_through, 4);
    assert(reports.len() == round.len());
    assert(reports[0] == SweepEvent::Descended(cost));
    let none = reports.subrange(0, 0);
    assert(none == Seq::<SweepEvent>::empty());
    if reports.len() == 1 {
        assert(reports.drop_last() == none);
    } else if reports.len() == 2 {
        assert(reports.drop_last().drop_last() == none);
        assert(reports.drop_last().last() == reports[0]);
        assert(reports.last() == reports[1]);
    } else {
        assert(reports.drop_last().drop_last().drop_last() == none);
        assert(reports.drop_last().drop_last().last() == reports[0]);
        assert(reports.drop_last().last() == reports[1]);
        assert(reports.last() == reports[2]);
    }
}

/// A whole run. When every action is carried out in its turn and every
/// descent reports a finite cost, all reports are accepted, the run is
/// finished after the last of them, and it stands at the cost that the last
/// descent reported; a run of no rounds stands at infinity.
pub proof fn lemma_whole_run(plan: SweepPlan, costs: Seq<Magnitude>)
    requires
        costs.len() <= plan.steps,
        forall|k: int| 0 <= k < costs.len() ==> (#[trigger] costs[k])@ < INFINITY_BITS,
    ensures
        OptimizationView::fresh(plan).stepped_through(run_reports(plan, costs)) is Ok,
        ({
            let end = OptimizationView::fresh(plan).stepped_through(run_reports(plan, costs))->Ok_0;
            &&& end.wf()
            &&& end.plan == plan
            &&& end.sweep == costs.len()
            &&& end.stage == 0
            &&& end.costs == costs.map_values(|cost: Magnitude| cost@)
            &&& end.finished() <==> costs.len() == plan.steps
            &&& end.last_cost() == if costs.len() == 0 {
                INFINITY_BITS as nat
            } else {
                costs.last()@
            }
        }),
    decreases costs.len(),
{
    let start = OptimizationView::fresh(plan);
    let ranks = costs.map_values(|cost: Magnitude| cost@);
    if costs.len() == 0 {
        assert(start.costs == ranks);
    } else {
        let earlier = costs.drop_last();
        lemma_whole_run(plan, earlier);
        let middle = start.stepped_through(run_reports(plan, earlier))->Ok_0;
        lemma_round(middle, costs.last());
        lemma_stepped_through_concat(
            start,
            run_reports(plan, earlier),
            round_reports(plan, costs.last()),
        );
        assert(middle.costs.push(costs.last()@) == ranks);
    }
}

/// A run of the optimiser in progress.
pub struct Optimization {
    plan: SweepPlan,
    sweep: u32,
    stage: u8,
    last_cost: Magnitude,
    costs: Ghost<Seq<nat>>,
}

impl View for Optimization {
    type V = OptimizationView;

    closed spec fn view(&self) -> OptimizationView {
        OptimizationView {
            plan: self.plan,
            sweep: self.sweep as nat,
            stage: self.stage as nat,
            costs: self.costs@,
        }
    }
}

impl Optimization {
    /// Whether the cost kept in the machine is the one that the history of
    /// reports gives.
    pub closed spec fn coherent(&self) -> bool {
        self.last_cost@ == self@.last_cost()
    }

    /// The invariant of a run.
    pub open spec fn wf(&self) -> bool {
        self@.wf() && self.coherent()
    }

    /// A run of `plan`, before its first action.
    pub fn new(plan: SweepPlan) -> (run: Optimization)
        ensures
            run@ == OptimizationView::fresh(plan),
            run.wf(),
    {
        Optimization {
            plan,
            sweep: 0,
            stage: 0,
            last_cost: Magnitude::infinity(),
            costs: Ghost(Seq::empty()),
        }
    }

    /// Whether every round is complete.
    pub fn is_finished(&self) -> (finished: bool)
        ensures
            finished == self@.finished(),
    {
        self.sweep >= self.plan.steps
    }

    /// The action that is due, or `None` when the run is finished.
    pub fn pending(&self) -> (action: Option<SweepAction>)
        requires
            self.wf(),
        ensures
            action == self@.pending(),
    {
        if self.sweep >= self.plan.steps {
            None
        } else if self.stage == 0 {
            Some(SweepAction::Descend)
        } else if self.stage == 1 && self.plan.repulsion {
            Some(SweepAction::Repulse)
        } else {
            Some(SweepAction::ReturnToInitial)
        }
    }

    /// The cost that the run stands at: that of the last descent, or
    /// infinity before the first. Once the run is finished this is its
    /// result.
    pub fn last_cost(&self) -> (cost: Magnitude)
        requires
            self.wf(),
        ensures
            cost@ == self@.last_cost(),
            self@.plan.steps == 0 ==> cost@ == INFINITY_BITS,
    {
        self.last_cost
    }

    /// Takes the report of the action that was due and moves on to the next.
    /// A report out of turn, or a descent that reports an infinite cost, is
    /// refused and changes nothing.
    pub fn step(&mut self, event: SweepEvent) -> (outcome: Result<(), SweepError>)
        requires
            old(self).wf(),
        ensures
            final(self).wf(),
            match outcome {
                Ok(_) => old(self)@.stepped(event) == Ok::<OptimizationView, SweepError>(
                    final(self)@,
                ),
                Err(error) => old(self)@.stepped(event) == Err::<OptimizationView, SweepError>(
                    error,
                ) && final(self)@ == old(self)@,
            },
    {
        let due: SweepAction = match self.pending() {
            Some(action) => action,
            None => {
                return Err(SweepError::OutOfTurn);
            },
        };
        match event {
            SweepEvent::Descended(cost) => {
                if due != SweepAction::Descend {
                    return Err(SweepError::OutOfTurn);
                }
                if !cost.is_finite() {
                    return Err(SweepError::NonFiniteCost);
                }
                self.last_cost = cost;
                self.costs = Ghost(self.costs@.push(cost@));
            },
            SweepEvent::Repulsed => {
                if due != SweepAction::Repulse {
                    return Err(SweepError::OutOfTurn);
                }
            },
            SweepEvent::Returned => {
                if due != SweepAction::ReturnToInitial {
                    return Err(SweepError::OutOfTurn);
                }
            },
        }
        proof {
            lemma_stepped(old(self)@, event);
        }
        let last: bool = match due {
            SweepAction::Descend => !self.plan.repulsion && !self.plan.return_to_initial,
            SweepAction::Repulse => !self.plan.return_to_initial,
            SweepAction::ReturnToInitial => true,
        };
        if last {
            self.sweep = self.sweep + 1;
            self.stage = 0;
        } else {
            self.stage = self.stage + 1;
        }
        Ok(())
    }
}

} // verus!
