use std::collections::HashMap;

use bhop::binary64::Binary64;
use bhop::controller::{BasinHopping, Judgement, RunError, Settlement, Verdict};
use bhop::local::{LocalSearch, StepOutcome};
use rand::{Rng, SeedableRng};

fn b(x: f64) -> Binary64 {
    Binary64 { bits: x.to_bits() }
}

fn f(bits: Binary64) -> f64 {
    f64::from_bits(bits.bits)
}

#[test]
fn it_works() {
    let mut run = BasinHopping::new(4);
    while !run.is_finished() {
        match run.judge(b(1.0)) {
            Judgement::Accept(_) => {}
            Judgement::NeedsDraw { .. } => {
                assert_eq!(run.settle(b(0.25), b(1.0)), Ok(Settlement::Keep));
            }
        }
    }
    assert_eq!(run.into_names().len(), 4);
}

#[test]
fn first_finite_candidate_is_global_best() {
    let mut run = BasinHopping::new(2);
    assert_eq!(run.best_loss(), Binary64::infinity());
    assert_eq!(run.judge(b(5.0)), Judgement::Accept(Verdict::NewGlobalBest));
    assert_eq!(run.best_loss(), b(5.0));
    assert_eq!(run.current_loss(), b(5.0));
    assert_eq!(run.epoch(), 1);
    assert_eq!(run.names, vec!["model_000".to_string()]);
}

#[test]
fn improvement_over_accepted_state_needs_no_draw() {
    let mut run = BasinHopping::new(3);
    run.judge(b(1.0));
    // a worse candidate, accepted uphill
    assert_eq!(
        run.judge(b(3.0)),
        Judgement::NeedsDraw { candidate: b(3.0), accepted: b(1.0) }
    );
    assert_eq!(run.settle(b(0.1), b(0.2)), Ok(Settlement::Keep));
    assert_eq!(run.current_loss(), b(3.0));
    // better than the accepted state, not than the best
    assert_eq!(run.judge(b(2.0)), Judgement::Accept(Verdict::Improvement));
    assert!(run.pending.is_none());
    assert_eq!(run.best_loss(), b(1.0));
    assert_eq!(run.current_loss(), b(2.0));
    assert_eq!(
        run.verdicts,
        vec![Verdict::NewGlobalBest, Verdict::Uphill, Verdict::Improvement]
    );
    assert!(run.is_finished());
}

#[test]
fn equal_loss_goes_to_the_metropolis_test() {
    let mut run = BasinHopping::new(2);
    run.judge(b(1.0));
    assert_eq!(
        run.judge(b(1.0)),
        Judgement::NeedsDraw { candidate: b(1.0), accepted: b(1.0) }
    );
}

#[test]
fn rejection_restores_the_accepted_checkpoint() {
    let mut run = BasinHopping::new(4);
    run.judge(b(1.0));
    run.judge(b(4.0));
    assert_eq!(run.settle(b(0.3), b(0.9)), Ok(Settlement::Keep));
    let accepted = run.current;
    run.judge(b(6.0));
    assert_eq!(
        run.settle(b(0.7), b(0.5)),
        Ok(Settlement::Restore("model_001".to_string()))
    );
    assert_eq!(run.current, accepted);
    assert_eq!(run.current_loss(), b(4.0));
    assert_eq!(run.best_loss(), b(1.0));
    assert_eq!(run.epoch(), 3);
    assert_eq!(run.verdicts[2], Verdict::Rejected);
    assert_eq!(run.names[2], "model_002");
}

#[test]
fn draw_equal_to_probability_rejects() {
    let mut run = BasinHopping::new(2);
    run.judge(b(1.0));
    run.judge(b(2.0));
    assert_eq!(
        run.settle(b(0.5), b(0.5)),
        Ok(Settlement::Restore("model_000".to_string()))
    );
}

#[test]
fn nan_candidate_with_nothing_accepted() {
    let mut run = BasinHopping::new(1);
    assert_eq!(
        run.judge(b(f64::NAN)),
        Judgement::NeedsDraw { candidate: b(f64::NAN), accepted: Binary64::infinity() }
    );
    assert_eq!(run.settle(b(0.5), b(f64::NAN)), Err(RunError::NothingToRestore));
}

#[test]
fn infinite_candidate_is_never_a_global_best() {
    let mut run = BasinHopping::new(1);
    let j = run.judge(Binary64::infinity());
    assert!(matches!(j, Judgement::NeedsDraw { .. }));
}

/// One epoch of a run on a one-dimensional model: the local optimiser takes
/// gradient steps; the parameter is perturbed with the shared generator.
struct Toy {
    x: f64,
    saved: HashMap<String, f64>,
}

fn toy_loss(x: f64) -> f64 {
    (x * x - 1.0) * (x * x - 1.0) + 0.3 * x
}

fn toy_grad(x: f64) -> f64 {
    4.0 * x * (x * x - 1.0) + 0.3
}

fn simulate(seed: u64, steps: usize, temperature: f64, range: f64) -> (Vec<Verdict>, Vec<f64>, BasinHopping) {
    let mut rng = rand_xoshiro::Xoshiro256StarStar::seed_from_u64(seed);
    let mut toy = Toy { x: 2.0, saved: HashMap::new() };
    let mut run = BasinHopping::new(steps);
    let mut bests = Vec::new();
    while !run.is_finished() {
        let name = bhop::naming::checkpoint_name(run.epoch());
        let mut local = LocalSearch::new(50, b(toy_loss(toy.x)));
        while local.wants_step() {
            let g = toy_grad(toy.x);
            if g.abs() < 1e-6 {
                local.record(StepOutcome::Converged(b(toy_loss(toy.x)), 1));
            } else {
                toy.x -= 0.05 * g;
                local.record(StepOutcome::Stepped(b(toy_loss(toy.x)), 1));
            }
        }
        toy.saved.insert(name, toy.x);
        match run.judge(local.loss) {
            Judgement::Accept(_) => {}
            Judgement::NeedsDraw { candidate, accepted } => {
                let p = (-(f(candidate) - f(accepted)) / temperature).exp();
                let draw: f64 = rng.gen_range(0.0..1.0);
                match run.settle(b(draw), b(p)).unwrap() {
                    Settlement::Keep => {}
                    Settlement::Restore(n) => toy.x = toy.saved[&n],
                }
            }
        }
        bests.push(f(run.best_loss()));
        toy.x += rng.gen_range(-range..range);
    }
    (run.verdicts.clone(), bests, run)
}

#[test]
fn same_seed_same_decisions() {
    let (v1, b1, r1) = simulate(11, 40, 0.2, 1.5);
    let (v2, b2, r2) = simulate(11, 40, 0.2, 1.5);
    assert_eq!(v1, v2);
    assert_eq!(b1, b2);
    assert_eq!(r1.best, r2.best);
    assert_eq!(r1.names, r2.names);
}

#[test]
fn best_loss_never_rises() {
    for seed in 0..5u64 {
        let (_, bests, _) = simulate(seed, 60, 0.5, 2.0);
        for w in bests.windows(2) {
            assert!(w[1] <= w[0]);
        }
    }
}

#[test]
fn finished_run_names_every_epoch() {
    let (verdicts, _, run) = simulate(3, 12, 0.3, 1.0);
    assert_eq!(verdicts.len(), 12);
    let names = run.into_names();
    assert_eq!(names.len(), 12);
    for (i, n) in names.iter().enumerate() {
        assert_eq!(*n, format!("model_{:03}", i));
    }
}

#[test]
fn uphill_acceptance_rate_matches_probability() {
    let mut rng = rand_xoshiro::Xoshiro256StarStar::seed_from_u64(99);
    let delta = 0.7f64;
    let temperature = 0.5f64;
    let p = (-delta / temperature).exp();
    let trials = 20000;
    let mut accepted = 0;
    for _ in 0..trials {
        let mut run = BasinHopping::new(2);
        run.judge(b(1.0));
        let j = run.judge(b(1.0 + delta));
        assert!(matches!(j, Judgement::NeedsDraw { .. }));
        let draw: f64 = rng.gen_range(0.0..1.0);
        if run.settle(b(draw), b(p)) == Ok(Settlement::Keep) {
            accepted += 1;
        }
    }
    let rate = accepted as f64 / trials as f64;
    assert!((rate - p).abs() < 0.015, "rate {} vs p {}", rate, p);
}

/// Three epochs on a convex quadratic whose minimum one Newton step reaches,
/// with no perturbation.
#[test]
fn quadratic_three_epochs_without_perturbation() {
    let steps = 3;
    let temperature = 1.0f64;
    let step_size = 0.0f64;
    let lbfgs_steps = 1;
    let mut rng = rand_xoshiro::Xoshiro256StarStar::seed_from_u64(7);
    let loss = |x: f64| (x - 3.0) * (x - 3.0) + 2.0;
    let mut x = -4.0f64;
    let mut run = BasinHopping::new(steps);
    while !run.is_finished() {
        let mut local = LocalSearch::new(lbfgs_steps, b(loss(x)));
        while local.wants_step() {
            let grad = 2.0 * (x - 3.0);
            if grad == 0.0 {
                local.record(StepOutcome::Converged(b(loss(x)), 1));
            } else {
                x -= grad / 2.0;
                local.record(StepOutcome::Stepped(b(loss(x)), 2));
            }
        }
        match run.judge(local.loss) {
            Judgement::Accept(v) => assert_eq!(v, Verdict::NewGlobalBest),
            Judgement::NeedsDraw { candidate, accepted } => {
                let p = (-(f(candidate) - f(accepted)) / temperature).exp();
                assert_eq!(p, 1.0);
                let draw: f64 = rng.gen_range(0.0..1.0);
                assert_eq!(run.settle(b(draw), b(p)), Ok(Settlement::Keep));
            }
        }
        x += rng.gen_range(-step_size..=step_size);
    }
    assert!((f(run.best_loss()) - 2.0).abs() < 1e-12);
    assert_eq!(run.best.unwrap().epoch, 0);
    assert!(run.verdicts.iter().all(|v| *v != Verdict::Rejected));
    assert_eq!(run.verdicts[0], Verdict::NewGlobalBest);
    assert_eq!(
        run.into_names(),
        vec!["model_000".to_string(), "model_001".to_string(), "model_002".to_string()]
    );
}
