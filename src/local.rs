//! The loop that drives the quasi-Newton local optimiser for one epoch:
//! request steps until the optimiser reports convergence or the step budget
//! is spent, counting objective evaluations on the way.

use vstd::prelude::*;
use crate::binary64::Binary64;

verus! {

/// What one step of the local optimiser reports.
#[derive(Clone, Copy, Debug, PartialEq, Eq, Structural)]
pub enum StepOutcome {
    /// A convergence criterion was met: the loss reached and the number of
    /// objective evaluations the step took.
    Converged(Binary64, usize),
    /// The step made progress: the new loss and the evaluations it took.
    Stepped(Binary64, usize),
}

impl StepOutcome {
    pub open spec fn loss(self) -> Binary64 {
        match self {
            StepOutcome::Converged(l, _) => l,
            StepOutcome::Stepped(l, _) => l,
        }
    }

    pub open spec fn evaluations(self) -> usize {
        match self {
            StepOutcome::Converged(_, n) => n,
            StepOutcome::Stepped(_, n) => n,
        }
    }
}

/// The state of one local optimisation: its step budget, the steps taken,
/// the objective evaluations counted so far (the initial loss is one), whether
/// the optimiser has converged, and the latest loss.
#[derive(Clone, Copy, Debug, PartialEq, Eq, Structural)]
pub struct LocalSearch {
    pub budget: usize,
    pub taken: usize,
    pub evaluations: usize,
    pub converged: bool,
    pub loss: Binary64,
}

impl LocalSearch {
    pub open spec fn wf(self) -> bool {
        &&& self.taken <= self.budget
        &&& self.evaluations >= 1
    }

    /// Whether another step is to be requested.
    pub open spec fn spec_wants_step(self) -> bool {
        !self.converged && self.taken < self.budget
    }

    /// The state after the optimiser reported `outcome`.
    pub open spec fn after(self, outcome: StepOutcome) -> LocalSearch {
        LocalSearch {
            budget: self.budget,
            taken: (self.taken + 1) as usize,
            evaluations: (self.evaluations + outcome.evaluations()) as usize,
            converged: outcome is Converged,
            loss: outcome.loss(),
        }
    }

    /// Exhausting the budget without convergence is an ordinary outcome: the
    /// latest loss stands as the result.
    pub open spec fn spec_exhausted(self) -> bool {
        !self.converged && self.taken == self.budget
    }

    /// A local optimisation allowed `budget` steps, starting from
    /// `initial_loss`, which counts as one evaluation.
    pub fn new(budget: usize, initial_loss: Binary64) -> (r: LocalSearch)
        ensures
            r.wf(),
            r == (LocalSearch {
                budget,
                taken: 0,
                evaluations: 1,
                converged: false,
                loss: initial_loss,
            }),
    {
        LocalSearch { budget, taken: 0, evaluations: 1, converged: false, loss: initial_loss }
    }

    pub fn wants_step(&self) -> (r: bool)
        ensures
            r == self.spec_wants_step(),
    {
        !self.converged && self.taken < self.budget
    }

    /// Whether the budget ran out before the optimiser converged.
    pub fn exhausted(&self) -> (r: bool)
        ensures
            r == self.spec_exhausted(),
    {
        !self.converged && self.taken == self.budget
    }

    /// Takes in what one step reported. A converged step ends the search even
    /// where budget remains.
    pub fn record(&mut self, outcome: StepOutcome)
        requires
            old(self).wf(),
            old(self).spec_wants_step(),
            old(self).evaluations + outcome.evaluations() <= usize::MAX,
        ensures
            final(self).wf(),
            *final(self) == old(self).after(outcome),
            outcome is Converged ==> !final(self).spec_wants_step(),
    {
        let (loss, n, converged) = match outcome {
            StepOutcome::Converged(l, n) => (l, n, true),
            StepOutcome::Stepped(l, n) => (l, n, false),
        };
        self.taken = self.taken + 1;
        self.evaluations = self.evaluations + n;
        self.converged = converged;
        self.loss = loss;
    }
}

} // verus!
