use mathlab_wasm::{
    repeats_recently, BisectionProbe, BisectionRun, BisectionStep, Counters, Narrowing,
    NewtonObserved, NewtonProbe, NewtonRun, NewtonStep, Outcome, SecantChecked, SecantProbe,
    SecantRun, SecantStep, Status, StopReason,
};

fn open_probe() -> BisectionProbe {
    BisectionProbe {
        value_finite: true,
        residual_within: false,
        half_width_within: false,
        sign_change_on_left: true,
    }
}

fn moving_newton() -> NewtonProbe {
    NewtonProbe {
        function_known: true,
        finite: true,
        residual_within: false,
        step_within: false,
        derivative_small: false,
    }
}

fn open_secant() -> SecantProbe {
    SecantProbe { residual_within: false, step_within: false, denominator_collapsed: false }
}

fn expect_continue(step: BisectionStep) -> (BisectionRun, Narrowing) {
    match step {
        BisectionStep::Continue(run, narrowing) => (run, narrowing),
        BisectionStep::Stop(outcome) => panic!("unexpected stop: {:?}", outcome),
    }
}

fn expect_stop(step: BisectionStep) -> Outcome {
    match step {
        BisectionStep::Stop(outcome) => outcome,
        BisectionStep::Continue(..) => panic!("unexpected continue"),
    }
}

fn newton_update(run: NewtonRun, probe: NewtonProbe) -> mathlab_wasm::NewtonPending {
    match run.observe(probe) {
        NewtonObserved::Update(pending) => pending,
        NewtonObserved::Stop(outcome) => panic!("unexpected stop: {:?}", outcome),
    }
}

fn newton_stop(run: NewtonRun, probe: NewtonProbe) -> Outcome {
    match run.observe(probe) {
        NewtonObserved::Stop(outcome) => outcome,
        NewtonObserved::Update(_) => panic!("unexpected update"),
    }
}

#[test]
fn bisection_start_rejects_same_sign_bracket() {
    let outcome = BisectionRun::start(80, true, true, false).err().unwrap();
    assert_eq!(
        outcome,
        Outcome { reason: StopReason::InvalidBracket, iterations: 0, evaluations: 2 }
    );
    assert_eq!(outcome.status(), Status::InvalidBracket);
}

#[test]
fn bisection_start_reports_unknown_function_and_non_finite_inputs() {
    let unknown = BisectionRun::start(80, false, true, true).err().unwrap();
    assert_eq!(
        unknown,
        Outcome { reason: StopReason::UnknownFunction, iterations: 0, evaluations: 0 }
    );
    let non_finite = BisectionRun::start(80, true, false, true).err().unwrap();
    assert_eq!(
        non_finite,
        Outcome { reason: StopReason::NonFiniteInputs, iterations: 0, evaluations: 2 }
    );
    assert_eq!(non_finite.status(), Status::NonFinite);
}

#[test]
fn bisection_single_iteration_budget_is_exhausted() {
    let run = BisectionRun::start(1, true, true, true).ok().unwrap();
    assert_eq!(run.counters(), Counters { iteration: 0, evaluations: 2, max_iterations: 1 });
    assert_eq!(run.next_iteration(), 1);
    let outcome = expect_stop(run.step(open_probe()));
    assert_eq!(
        outcome,
        Outcome { reason: StopReason::BudgetExhausted, iterations: 1, evaluations: 3 }
    );
    assert_eq!(outcome.status(), Status::MaxIterations);
}

#[test]
fn bisection_narrows_toward_the_sign_change() {
    let run = BisectionRun::start(0, true, true, true).ok().unwrap();
    assert_eq!(run.counters().max_iterations, 1);
    let run = BisectionRun::start(80, true, true, true).ok().unwrap();
    let (run, narrowing) = expect_continue(run.step(open_probe()));
    assert_eq!(narrowing, Narrowing::ReplaceRight);
    let probe = BisectionProbe { sign_change_on_left: false, ..open_probe() };
    let (run, narrowing) = expect_continue(run.step(probe));
    assert_eq!(narrowing, Narrowing::ReplaceLeft);
    assert_eq!(run.counters(), Counters { iteration: 2, evaluations: 4, max_iterations: 80 });
}

#[test]
fn bisection_converges_on_residual_or_half_width() {
    let run = BisectionRun::start(80, true, true, true).ok().unwrap();
    let (run, _) = expect_continue(run.step(open_probe()));
    let probe = BisectionProbe { half_width_within: true, ..open_probe() };
    let outcome = expect_stop(run.step(probe));
    assert_eq!(
        outcome,
        Outcome { reason: StopReason::HalfWidthOrResidualMet, iterations: 2, evaluations: 4 }
    );
    let run = BisectionRun::start(80, true, true, true).ok().unwrap();
    let probe = BisectionProbe { residual_within: true, ..open_probe() };
    assert_eq!(expect_stop(run.step(probe)).status(), Status::Converged);
}

#[test]
fn bisection_reports_a_non_finite_midpoint_value() {
    let run = BisectionRun::start(80, true, true, true).ok().unwrap();
    let probe = BisectionProbe { value_finite: false, residual_within: true, ..open_probe() };
    let outcome = expect_stop(run.step(probe));
    assert_eq!(
        outcome,
        Outcome { reason: StopReason::NonFiniteMidpointValue, iterations: 1, evaluations: 3 }
    );
}

#[test]
fn bisection_runs_the_whole_budget() {
    let mut run = BisectionRun::start(80, true, true, true).ok().unwrap();
    let mut steps = 0;
    let outcome = loop {
        steps += 1;
        match run.step(open_probe()) {
            BisectionStep::Continue(next, _) => run = next,
            BisectionStep::Stop(outcome) => break outcome,
        }
    };
    assert_eq!(steps, 80);
    assert_eq!(
        outcome,
        Outcome { reason: StopReason::BudgetExhausted, iterations: 80, evaluations: 82 }
    );
}

#[test]
fn newton_two_cycle_is_detected() {
    let run = NewtonRun::start(80);
    let pending = newton_update(run, moving_newton());
    assert_eq!(pending.counters(), Counters { iteration: 0, evaluations: 2, max_iterations: 80 });
    let run = match pending.check_cycle(&vec![]) {
        NewtonStep::Continue(run) => run,
        NewtonStep::Stop(outcome) => panic!("unexpected stop: {:?}", outcome),
    };
    let pending = newton_update(run, moving_newton());
    match pending.check_cycle(&vec![true]) {
        NewtonStep::Stop(outcome) => {
            assert_eq!(
                outcome,
                Outcome { reason: StopReason::RepeatedIterate, iterations: 2, evaluations: 5 }
            );
            assert_eq!(outcome.status(), Status::CycleDetected);
        }
        NewtonStep::Continue(_) => panic!("cycle missed"),
    }
}

#[test]
fn newton_initial_point_converges_on_residual_alone() {
    let probe = NewtonProbe { residual_within: true, ..moving_newton() };
    let outcome = newton_stop(NewtonRun::start(80), probe);
    assert_eq!(
        outcome,
        Outcome { reason: StopReason::ResidualAndStepMet, iterations: 0, evaluations: 2 }
    );
    assert_eq!(outcome.status(), Status::Converged);
}

#[test]
fn newton_later_iterate_needs_the_step_too() {
    let pending = newton_update(NewtonRun::start(80), moving_newton());
    let run = match pending.check_cycle(&vec![]) {
        NewtonStep::Continue(run) => run,
        NewtonStep::Stop(_) => panic!("unexpected stop"),
    };
    let probe = NewtonProbe { residual_within: true, ..moving_newton() };
    let pending = newton_update(run, probe);
    assert_eq!(pending.counters().iteration, 1);
    let run = match pending.check_cycle(&vec![false]) {
        NewtonStep::Continue(run) => run,
        NewtonStep::Stop(_) => panic!("unexpected stop"),
    };
    let probe = NewtonProbe { residual_within: true, step_within: true, ..moving_newton() };
    let outcome = newton_stop(run, probe);
    assert_eq!(
        outcome,
        Outcome { reason: StopReason::ResidualAndStepMet, iterations: 2, evaluations: 6 }
    );
}

#[test]
fn newton_small_derivative_stops_without_convergence() {
    let probe = NewtonProbe { derivative_small: true, ..moving_newton() };
    let outcome = newton_stop(NewtonRun::start(80), probe);
    assert_eq!(
        outcome,
        Outcome { reason: StopReason::SmallDerivative, iterations: 0, evaluations: 2 }
    );
    assert_eq!(outcome.status(), Status::ZeroDerivative);
}

#[test]
fn newton_unknown_function_and_non_finite_iterate() {
    let probe = NewtonProbe { function_known: false, ..moving_newton() };
    assert_eq!(
        newton_stop(NewtonRun::start(80), probe),
        Outcome { reason: StopReason::UnknownFunction, iterations: 0, evaluations: 0 }
    );
    let probe = NewtonProbe { finite: false, residual_within: true, ..moving_newton() };
    assert_eq!(
        newton_stop(NewtonRun::start(80), probe),
        Outcome { reason: StopReason::NonFiniteIterate, iterations: 0, evaluations: 2 }
    );
}

#[test]
fn newton_budget_stops_before_the_derivative_test() {
    let pending = newton_update(NewtonRun::start(1), moving_newton());
    let run = match pending.check_cycle(&vec![]) {
        NewtonStep::Continue(run) => run,
        NewtonStep::Stop(_) => panic!("unexpected stop"),
    };
    let probe = NewtonProbe { derivative_small: true, ..moving_newton() };
    assert_eq!(
        newton_stop(run, probe),
        Outcome { reason: StopReason::BudgetExhausted, iterations: 1, evaluations: 4 }
    );
}

#[test]
fn cycle_window_holds_the_last_eight_iterates() {
    let mut close = vec![false; 10];
    close[1] = true;
    assert!(!repeats_recently(&close));
    close[1] = false;
    close[2] = true;
    assert!(repeats_recently(&close));
    assert!(!repeats_recently(&vec![]));
    assert!(repeats_recently(&vec![true]));
    assert!(!repeats_recently(&vec![false; 8]));
}

#[test]
fn secant_collapsed_slope_is_reported() {
    let run = SecantRun::start(80, true, true).ok().unwrap();
    assert_eq!(run.counters(), Counters { iteration: 1, evaluations: 2, max_iterations: 80 });
    let probe = SecantProbe { denominator_collapsed: true, ..open_secant() };
    match run.check(probe) {
        SecantChecked::Stop(outcome) => {
            assert_eq!(
                outcome,
                Outcome { reason: StopReason::CollapsedDenominator, iterations: 1, evaluations: 2 }
            );
            assert_eq!(outcome.status(), Status::CollapsedSecant);
        }
        SecantChecked::Update(_) => panic!("collapse missed"),
    }
}

#[test]
fn secant_start_failures() {
    assert_eq!(
        SecantRun::start(80, false, true).err().unwrap(),
        Outcome { reason: StopReason::UnknownFunction, iterations: 0, evaluations: 0 }
    );
    assert_eq!(
        SecantRun::start(80, true, false).err().unwrap(),
        Outcome { reason: StopReason::NonFiniteInputs, iterations: 1, evaluations: 2 }
    );
}

#[test]
fn secant_single_iteration_budget_skips_every_check() {
    let run = SecantRun::start(1, true, true).ok().unwrap();
    let probe = SecantProbe { residual_within: true, step_within: true, ..open_secant() };
    match run.check(probe) {
        SecantChecked::Stop(outcome) => assert_eq!(
            outcome,
            Outcome { reason: StopReason::BudgetExhausted, iterations: 1, evaluations: 2 }
        ),
        SecantChecked::Update(_) => panic!("budget ignored"),
    }
}

#[test]
fn secant_converges_after_an_update() {
    let run = SecantRun::start(80, true, true).ok().unwrap();
    let pending = match run.check(open_secant()) {
        SecantChecked::Update(pending) => pending,
        SecantChecked::Stop(_) => panic!("unexpected stop"),
    };
    assert_eq!(pending.next_iteration(), 2);
    let run = match pending.record(true) {
        SecantStep::Continue(run) => run,
        SecantStep::Stop(_) => panic!("unexpected stop"),
    };
    assert_eq!(run.counters(), Counters { iteration: 2, evaluations: 3, max_iterations: 80 });
    let residual_only = SecantProbe { residual_within: true, ..open_secant() };
    let pending = match run.check(residual_only) {
        SecantChecked::Update(pending) => pending,
        SecantChecked::Stop(_) => panic!("residual alone must not converge"),
    };
    let run = match pending.record(true) {
        SecantStep::Continue(run) => run,
        SecantStep::Stop(_) => panic!("unexpected stop"),
    };
    let both = SecantProbe { residual_within: true, step_within: true, ..open_secant() };
    match run.check(both) {
        SecantChecked::Stop(outcome) => assert_eq!(
            outcome,
            Outcome { reason: StopReason::ResidualAndStepMet, iterations: 3, evaluations: 4 }
        ),
        SecantChecked::Update(_) => panic!("convergence missed"),
    }
}

#[test]
fn secant_non_finite_iterate_is_reported() {
    let run = SecantRun::start(80, true, true).ok().unwrap();
    let pending = match run.check(open_secant()) {
        SecantChecked::Update(pending) => pending,
        SecantChecked::Stop(_) => panic!("unexpected stop"),
    };
    match pending.record(false) {
        SecantStep::Stop(outcome) => assert_eq!(
            outcome,
            Outcome { reason: StopReason::NonFiniteIterate, iterations: 2, evaluations: 3 }
        ),
        SecantStep::Continue(_) => panic!("non-finite iterate accepted"),
    }
}

#[test]
fn secant_runs_the_whole_budget() {
    let mut run = SecantRun::start(5, true, true).ok().unwrap();
    let outcome = loop {
        match run.check(open_secant()) {
            SecantChecked::Stop(outcome) => break outcome,
            SecantChecked::Update(pending) => match pending.record(true) {
                SecantStep::Continue(next) => run = next,
                SecantStep::Stop(outcome) => break outcome,
            },
        }
    };
    assert_eq!(
        outcome,
        Outcome { reason: StopReason::BudgetExhausted, iterations: 5, evaluations: 6 }
    );
}
