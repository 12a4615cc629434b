//! The basin-hopping controller: after each epoch's local optimisation it
//! decides, by the Metropolis criterion, whether the candidate is accepted,
//! and keeps the run state (global best, accepted state, checkpoint names).
//!
//! One epoch is one call of [`BasinHopping::judge`] and, where the candidate
//! is no improvement, one call of [`BasinHopping::settle`] with a uniform draw
//! from the run's seeded generator and the acceptance probability
//! `exp(-delta / temperature)`. Only that second call consumes a draw.

use vstd::prelude::*;
use crate::binary64::Binary64;
use crate::naming::{checkpoint_name, name_of};

verus! {

/// An accepted candidate: its regularised loss and the epoch whose
/// checkpoint holds its parameters.
#[derive(Clone, Copy, Debug, PartialEq, Eq, Structural)]
pub struct Accepted {
    pub loss: Binary64,
    pub epoch: usize,
}

/// How an epoch ended.
#[derive(Clone, Copy, Debug, PartialEq, Eq, Structural)]
pub enum Verdict {
    /// Below the best loss of the run: accepted without a draw.
    NewGlobalBest,
    /// Below the accepted loss: accepted without a draw.
    Improvement,
    /// No improvement, accepted by the Metropolis test.
    Uphill,
    /// No improvement, refused by the Metropolis test: the parameters go
    /// back to the accepted checkpoint.
    Rejected,
}

/// What [`BasinHopping::judge`] decided.
#[derive(Clone, Copy, Debug, PartialEq, Eq, Structural)]
pub enum Judgement {
    /// The candidate was accepted and the epoch is over.
    Accept(Verdict),
    /// The candidate is no improvement: the Metropolis test needs a draw and
    /// the probability `exp(-(candidate - accepted) / temperature)`.
    NeedsDraw { candidate: Binary64, accepted: Binary64 },
}

/// What [`BasinHopping::settle`] asks of the caller.
#[derive(Clone, Debug, PartialEq, Eq)]
pub enum Settlement {
    /// The candidate was accepted: keep the parameters.
    Keep,
    /// The candidate was rejected: load the parameters of this checkpoint.
    Restore(String),
}

/// A rejection with no accepted checkpoint to go back to.
#[derive(Clone, Copy, Debug, PartialEq, Eq, Structural)]
pub enum RunError {
    NothingToRestore,
}

/// The run state in mathematical terms.
pub struct RunModel {
    pub steps: nat,
    pub best: Option<Accepted>,
    pub current: Option<Accepted>,
    /// The loss of the epoch that waits for its Metropolis draw.
    pub pending: Option<Binary64>,
    pub names: Seq<Seq<char>>,
    pub verdicts: Seq<Verdict>,
}

pub open spec fn loss_or_infinity(a: Option<Accepted>) -> Binary64 {
    match a {
        Some(a) => a.loss,
        None => Binary64::spec_infinity(),
    }
}

impl RunModel {
    pub open spec fn initial(steps: nat) -> RunModel {
        RunModel {
            steps,
            best: None,
            current: None,
            pending: None,
            names: Seq::empty(),
            verdicts: Seq::empty(),
        }
    }

    /// The number of epochs finished, which is also the index of the next.
    pub open spec fn epoch(self) -> nat {
        self.names.len()
    }

    pub open spec fn is_finished(self) -> bool {
        self.epoch() == self.steps && self.pending is None
    }

    /// The best loss of the run, `+inf` before any acceptance.
    pub open spec fn best_loss(self) -> Binary64 {
        loss_or_infinity(self.best)
    }

    /// The loss of the accepted state, `+inf` before any acceptance.
    pub open spec fn current_loss(self) -> Binary64 {
        loss_or_infinity(self.current)
    }

    pub open spec fn wf(self) -> bool {
        &&& self.names.len() == self.verdicts.len()
        &&& self.names.len() <= self.steps
        &&& self.steps <= usize::MAX
        &&& self.pending is Some ==> self.names.len() < self.steps
        &&& forall|i: int| 0 <= i < self.names.len() ==> self.names[i] == name_of(i as nat)
        &&& self.best matches Some(b) ==> b.epoch < self.names.len() && !b.loss.spec_is_nan()
        &&& self.current matches Some(c) ==> c.epoch < self.names.len()
    }

    /// The state inside an epoch, where the accepted candidate may be the
    /// epoch's own, whose name is not recorded yet.
    pub open spec fn wf_within_epoch(self) -> bool {
        &&& self.names.len() == self.verdicts.len()
        &&& self.names.len() < self.steps
        &&& self.steps <= usize::MAX
        &&& forall|i: int| 0 <= i < self.names.len() ==> self.names[i] == name_of(i as nat)
        &&& self.best matches Some(b) ==> b.epoch <= self.names.len() && !b.loss.spec_is_nan()
        &&& self.current matches Some(c) ==> c.epoch <= self.names.len()
    }

    /// Whether a candidate of loss `loss` faces the Metropolis test.
    pub open spec fn needs_draw(self, loss: Binary64) -> bool {
        !loss.spec_lt(self.best_loss()) && !loss.spec_lt(self.current_loss())
    }

    /// The candidate of this epoch as an accepted state.
    pub open spec fn here(self, loss: Binary64) -> Accepted {
        Accepted { loss, epoch: self.epoch() as usize }
    }

    /// Ends the epoch: its checkpoint name and its verdict are recorded.
    pub open spec fn close(self, v: Verdict) -> RunModel {
        RunModel {
            pending: None,
            names: self.names.push(name_of(self.epoch())),
            verdicts: self.verdicts.push(v),
            ..self
        }
    }

    /// The state after the epoch's candidate of loss `loss` was judged.
    pub open spec fn judged(self, loss: Binary64) -> RunModel {
        if loss.spec_lt(self.best_loss()) {
            RunModel {
                best: Some(self.here(loss)),
                current: Some(self.here(loss)),
                ..self
            }.close(Verdict::NewGlobalBest)
        } else if loss.spec_lt(self.current_loss()) {
            RunModel { current: Some(self.here(loss)), ..self }.close(Verdict::Improvement)
        } else {
            RunModel { pending: Some(loss), ..self }
        }
    }

    /// The state after the Metropolis test of the pending candidate with a
    /// uniform `draw` and acceptance probability `p`: accepted iff `draw < p`.
    pub open spec fn settled(self, draw: Binary64, p: Binary64) -> RunModel {
        if draw.spec_lt(p) {
            RunModel {
                current: Some(self.here(self.pending->0)),
                ..self
            }.close(Verdict::Uphill)
        } else {
            self.close(Verdict::Rejected)
        }
    }
}

/// The executable run state. Its view is a [`RunModel`].
pub struct BasinHopping {
    pub steps: usize,
    pub best: Option<Accepted>,
    pub current: Option<Accepted>,
    pub pending: Option<Binary64>,
    pub names: Vec<String>,
    pub verdicts: Vec<Verdict>,
}

impl View for BasinHopping {
    type V = RunModel;

    open spec fn view(&self) -> RunModel {
        RunModel {
            steps: self.steps as nat,
            best: self.best,
            current: self.current,
            pending: self.pending,
            names: self.names@.map_values(|s: String| s@),
            verdicts: self.verdicts@,
        }
    }
}

fn loss_of(a: &Option<Accepted>) -> (r: Binary64)
    ensures
        r == loss_or_infinity(*a),
{
    match a {
        Some(a) => a.loss,
        None => Binary64::infinity(),
    }
}

impl BasinHopping {
    /// A run of `steps` epochs, with no candidate accepted yet.
    pub fn new(steps: usize) -> (r: BasinHopping)
        ensures
            r@ == RunModel::initial(steps as nat),
            r@.wf(),
    {
        let r = BasinHopping {
            steps,
            best: None,
            current: None,
            pending: None,
            names: Vec::new(),
            verdicts: Vec::new(),
        };
        assert(r@.names =~= Seq::<Seq<char>>::empty());
        r
    }

    /// The index of the next epoch.
    pub fn epoch(&self) -> (r: usize)
        ensures
            r == self@.epoch(),
    {
        self.names.len()
    }

    pub fn is_finished(&self) -> (r: bool)
        ensures
            r == self@.is_finished(),
    {
        self.names.len() == self.steps && self.pending.is_none()
    }

    pub fn best_loss(&self) -> (r: Binary64)
        ensures
            r == self@.best_loss(),
    {
        loss_of(&self.best)
    }

    pub fn current_loss(&self) -> (r: Binary64)
        ensures
            r == self@.current_loss(),
    {
        loss_of(&self.current)
    }

    fn close(&mut self, v: Verdict)
        requires
            old(self)@.wf_within_epoch(),
        ensures
            final(self)@ == old(self)@.close(v),
            final(self)@.wf(),
    {
        let name = checkpoint_name(self.names.len());
        self.names.push(name);
        self.verdicts.push(v);
        self.pending = None;
        proof {
            let m = old(self)@.close(v);
            assert(self@.names =~= m.names);
        }
    }

    /// Judges the candidate of the current epoch, of regularised loss `loss`.
    /// Below the best loss it becomes the global best and the accepted state;
    /// else below the accepted loss it becomes the accepted state; in both
    /// cases the epoch is over and no draw is taken. Otherwise it waits for
    /// [`BasinHopping::settle`].
    pub fn judge(&mut self, loss: Binary64) -> (r: Judgement)
        requires
            old(self)@.wf(),
            old(self)@.epoch() < old(self)@.steps,
            old(self).pending is None,
        ensures
            final(self)@ == old(self)@.judged(loss),
            final(self)@.wf(),
            r == (if loss.spec_lt(old(self)@.best_loss()) {
                Judgement::Accept(Verdict::NewGlobalBest)
            } else if loss.spec_lt(old(self)@.current_loss()) {
                Judgement::Accept(Verdict::Improvement)
            } else {
                Judgement::NeedsDraw { candidate: loss, accepted: old(self)@.current_loss() }
            }),
            loss.spec_lt(old(self)@.current_loss()) ==> r is Accept && final(self).pending is None,
    {
        let here = Accepted { loss, epoch: self.names.len() };
        let best = loss_of(&self.best);
        let current = loss_of(&self.current);
        if loss.lt(&best) {
            self.best = Some(here);
            self.current = Some(here);
            self.close(Verdict::NewGlobalBest);
            Judgement::Accept(Verdict::NewGlobalBest)
        } else if loss.lt(&current) {
            self.current = Some(here);
            self.close(Verdict::Improvement);
            Judgement::Accept(Verdict::Improvement)
        } else {
            self.pending = Some(loss);
            Judgement::NeedsDraw { candidate: loss, accepted: current }
        }
    }

    /// The Metropolis test of the pending candidate: accepted iff
    /// `draw < p`. On rejection the accepted state stays as it was and the
    /// caller is told which checkpoint to load back.
    pub fn settle(&mut self, draw: Binary64, p: Binary64) -> (r: Result<Settlement, RunError>)
        requires
            old(self)@.wf(),
            old(self).pending is Some,
        ensures
            final(self)@ == old(self)@.settled(draw, p),
            final(self)@.wf(),
            draw.spec_lt(p) ==> r == Ok::<Settlement, RunError>(Settlement::Keep),
            !draw.spec_lt(p) ==> final(self).current == old(self).current,
            !draw.spec_lt(p) ==> match old(self).current {
                Some(c) => r matches Ok(Settlement::Restore(name)) && name@ == name_of(c.epoch as nat),
                None => r == Err::<Settlement, RunError>(RunError::NothingToRestore),
            },
    {
        let loss = self.pending.unwrap();
        if draw.lt(&p) {
            self.current = Some(Accepted { loss, epoch: self.names.len() });
            self.close(Verdict::Uphill);
            Ok(Settlement::Keep)
        } else {
            self.close(Verdict::Rejected);
            match &self.current {
                Some(c) => Ok(Settlement::Restore(checkpoint_name(c.epoch))),
                None => Err(RunError::NothingToRestore),
            }
        }
    }

    /// The checkpoint names of the finished epochs, in order.
    pub fn into_names(self) -> (r: Vec<String>)
        ensures
            r@.map_values(|s: String| s@) == self@.names,
    {
        self.names
    }
}

} // verus!
