//! Properties of whole runs: a run is a sequence of epochs, each judged and,
//! where needed, settled by the Metropolis test.

use vstd::prelude::*;
use crate::binary64::Binary64;
use crate::controller::{RunModel, Verdict};
use crate::naming::{name_of, lemma_names_distinct};

verus! {

/// What one epoch brings to the controller: the candidate's regularised
/// loss and, should the Metropolis test be reached, the uniform draw and the
/// acceptance probability.
pub struct EpochEvent {
    pub loss: Binary64,
    pub draw: Binary64,
    pub p: Binary64,
}

/// One whole epoch: the draw is consumed only where the candidate needs it.
pub open spec fn epoch_step(m: RunModel, e: EpochEvent) -> RunModel {
    if m.needs_draw(e.loss) {
        m.judged(e.loss).settled(e.draw, e.p)
    } else {
        m.judged(e.loss)
    }
}

/// The state after the epochs of `events`, in order.
pub open spec fn run(m: RunModel, events: Seq<EpochEvent>) -> RunModel
    decreases events.len(),
{
    if events.len() == 0 {
        m
    } else {
        epoch_step(run(m, events.drop_last()), events.last())
    }
}

/// A state between epochs with room for `n` more.
pub open spec fn ready(m: RunModel, n: nat) -> bool {
    &&& m.wf()
    &&& m.pending is None
    &&& m.epoch() + n <= m.steps
}

/// An epoch keeps the state well formed, finishes with no draw pending and
/// records one name and one verdict. A draw is consumed exactly when the
/// candidate is no improvement on the accepted state; such a candidate is
/// accepted exactly when the draw is below the probability, and when it is
/// rejected the accepted state stays as it was.
pub proof fn lemma_epoch_step(m: RunModel, e: EpochEvent)
    requires
        ready(m, 1),
    ensures
        ready(epoch_step(m, e), 0),
        epoch_step(m, e).steps == m.steps,
        epoch_step(m, e).epoch() == m.epoch() + 1,
        epoch_step(m, e).names == m.names.push(name_of(m.epoch())),
        epoch_step(m, e).verdicts.drop_last() == m.verdicts,
        m.needs_draw(e.loss) <==> (epoch_step(m, e).verdicts.last() == Verdict::Uphill
            || epoch_step(m, e).verdicts.last() == Verdict::Rejected),
        e.loss.spec_lt(m.current_loss()) ==> !m.needs_draw(e.loss),
        m.needs_draw(e.loss) ==> (epoch_step(m, e).verdicts.last() == Verdict::Uphill
            <==> e.draw.spec_lt(e.p)),
        epoch_step(m, e).verdicts.last() == Verdict::Rejected ==> epoch_step(m, e).current
            == m.current,
{
    let r = epoch_step(m, e);
    assert(r.verdicts.drop_last() =~= m.verdicts);
}

proof fn lemma_take_step(events: Seq<EpochEvent>, j: int)
    requires
        0 < j <= events.len(),
    ensures
        events.take(j).drop_last() == events.take(j - 1),
        events.take(j).last() == events[j - 1],
{
    assert(events.take(j).drop_last() =~= events.take(j - 1));
}

/// A run over `events` from a state with room for them stays well formed
/// and finishes one epoch per event.
pub proof fn lemma_run(m: RunModel, events: Seq<EpochEvent>)
    requires
        ready(m, events.len()),
    ensures
        ready(run(m, events), 0),
        run(m, events).steps == m.steps,
        run(m, events).epoch() == m.epoch() + events.len(),
    decreases events.len(),
{
    if events.len() > 0 {
        lemma_run(m, events.drop_last());
        lemma_epoch_step(run(m, events.drop_last()), events.last());
    }
}

/// The best loss never rises: after any later epoch of a run it is at most
/// what it was after an earlier one.
pub proof fn lemma_best_never_rises(m: RunModel, events: Seq<EpochEvent>, i: nat, j: nat)
    requires
        ready(m, events.len()),
        i <= j <= events.len(),
    ensures
        run(m, events.take(j as int)).best_loss().spec_le(run(m, events.take(i as int)).best_loss()),
    decreases j,
{
    let earlier = run(m, events.take(i as int)).best_loss();
    lemma_run(m, events.take(i as int));
    if j == i {
        assert(!earlier.spec_is_nan());
    } else {
        lemma_best_never_rises(m, events, i, (j - 1) as nat);
        lemma_take_step(events, j as int);
        let before = run(m, events.take(j - 1));
        lemma_run(m, events.take(j - 1));
        lemma_epoch_step(before, events[j - 1]);
        assert(epoch_step(before, events[j - 1]).best_loss().spec_le(before.best_loss()));
    }
}

/// A run is determined by its candidates' losses and by the draws it
/// consumes: two runs that see the same losses, and the same draw and
/// probability at each epoch that reaches the Metropolis test, make the same
/// decisions and end in the same state, whatever the unused draws were.
pub proof fn lemma_run_determined(m: RunModel, a: Seq<EpochEvent>, b: Seq<EpochEvent>)
    requires
        a.len() == b.len(),
        forall|i: int| 0 <= i < a.len() ==> #[trigger] a[i].loss == b[i].loss,
        forall|i: int|
            0 <= i < a.len() && run(m, a.take(i)).needs_draw(a[i].loss) ==> {
                &&& #[trigger] a[i].draw == b[i].draw
                &&& a[i].p == b[i].p
            },
    ensures
        run(m, a) == run(m, b),
        run(m, a).verdicts == run(m, b).verdicts,
        run(m, a).best_loss() == run(m, b).best_loss(),
    decreases a.len(),
{
    if a.len() > 0 {
        let a0 = a.drop_last();
        let b0 = b.drop_last();
        assert forall|i: int|
            0 <= i < a0.len() && run(m, a0.take(i)).needs_draw(a0[i].loss) implies {
                &&& #[trigger] a0[i].draw == b0[i].draw
                &&& a0[i].p == b0[i].p
            } by {
            assert(a0.take(i) =~= a.take(i));
            assert(a[i].draw == b[i].draw);
        }
        lemma_run_determined(m, a0, b0);
        let n = a.len() - 1;
        assert(a.take(n) =~= a0);
        assert(a[n].loss == b[n].loss);
        if run(m, a0).needs_draw(a.last().loss) {
            assert(a[n].draw == b[n].draw);
        }
    }
}

/// Every epoch of a run records the name of its own checkpoint: a finished
/// run of `steps` epochs holds exactly `steps` names, the name of epoch `i` at
/// position `i`, no two alike.
pub proof fn lemma_finished_run_names(steps: nat, events: Seq<EpochEvent>)
    requires
        steps <= usize::MAX,
        events.len() == steps,
    ensures
        run(RunModel::initial(steps), events).is_finished(),
        run(RunModel::initial(steps), events).names.len() == steps,
        forall|i: int| 0 <= i < steps ==> #[trigger] run(RunModel::initial(steps), events).names[i]
            == name_of(i as nat),
        forall|i: int, j: int|
            0 <= i < j < steps ==> #[trigger] run(RunModel::initial(steps), events).names[i]
                != #[trigger] run(RunModel::initial(steps), events).names[j],
{
    let m = RunModel::initial(steps);
    lemma_run(m, events);
    let r = run(m, events);
    assert forall|i: int, j: int| 0 <= i < j < steps implies #[trigger] r.names[i] != #[trigger] r.names[j] by {
        lemma_names_distinct(i as nat, j as nat);
    }
}

} // verus!
