use vstd::prelude::*;

use crate::outcome::{
    budget_for, clamp_max_iterations, status_of, Counters, Outcome, Status, StopReason,
    MAX_ITERATIONS, MIN_ITERATIONS,
};

verus! {

/// What the caller observed about the two latest secant iterates.
#[derive(Debug, Clone, Copy, PartialEq, Eq, Structural)]
pub struct SecantProbe {
    /// The absolute function value at the current iterate is within the residual tolerance.
    pub residual_within: bool,
    /// The distance between the two latest iterates is within the `x` tolerance.
    pub step_within: bool,
    /// The difference of the two latest function values is too small to divide by.
    pub denominator_collapsed: bool,
}

/// A secant run whose latest iterate has been recorded. Its counters hold the
/// number of that iterate (the two starting points are iterates 0 and 1), the
/// evaluations made so far and the iteration budget.
pub struct SecantRun {
    counters: Counters,
}

/// A secant run that has accepted an update and waits for the value of the
/// new iterate.
pub struct SecantPending {
    counters: Counters,
}

/// The result of checking the two latest iterates.
pub enum SecantChecked {
    /// Compute and evaluate the secant update.
    Update(SecantPending),
    Stop(Outcome),
}

/// The result of recording a new iterate.
pub enum SecantStep {
    Continue(SecantRun),
    Stop(Outcome),
}

impl View for SecantRun {
    type V = Counters;

    closed spec fn view(&self) -> Counters {
        self.counters
    }
}

impl View for SecantPending {
    type V = Counters;

    closed spec fn view(&self) -> Counters {
        self.counters
    }
}

/// The counters of a run with a recorded latest iterate: the budget is in
/// range, the iterate is within it, and every iterate cost one evaluation.
pub open spec fn secant_counters_valid(c: Counters) -> bool {
    &&& MIN_ITERATIONS <= c.max_iterations <= MAX_ITERATIONS
    &&& 1 <= c.iteration <= c.max_iterations
    &&& c.evaluations == c.iteration + 1
}

/// The counters of a run waiting for a new iterate: one more fits the budget.
pub open spec fn secant_pending_valid(c: Counters) -> bool {
    &&& MIN_ITERATIONS <= c.max_iterations <= MAX_ITERATIONS
    &&& 1 <= c.iteration < c.max_iterations
    &&& c.evaluations == c.iteration + 1
}

/// How the run ends after evaluating its two starting points, if it does.
pub open spec fn secant_start_stop(function_known: bool, inputs_finite: bool) -> Option<Outcome> {
    if !function_known {
        Some(Outcome { reason: StopReason::UnknownFunction, iterations: 0, evaluations: 0 })
    } else if !inputs_finite {
        Some(Outcome { reason: StopReason::NonFiniteInputs, iterations: 1, evaluations: 2 })
    } else {
        None
    }
}

/// How checking the two latest iterates ends the run, if it does: the budget
/// is spent, both tolerances are met, or the slope denominator collapsed.
pub open spec fn secant_check_stop(c: Counters, p: SecantProbe) -> Option<Outcome> {
    if c.iteration == c.max_iterations {
        Some(
            Outcome {
                reason: StopReason::BudgetExhausted,
                iterations: c.iteration,
                evaluations: c.evaluations,
            },
        )
    } else if p.residual_within && p.step_within {
        Some(
            Outcome {
                reason: StopReason::ResidualAndStepMet,
                iterations: c.iteration,
                evaluations: c.evaluations,
            },
        )
    } else if p.denominator_collapsed {
        Some(
            Outcome {
                reason: StopReason::CollapsedDenominator,
                iterations: c.iteration,
                evaluations: c.evaluations,
            },
        )
    } else {
        None
    }
}

/// The counters once the new iterate has been evaluated and recorded.
pub open spec fn secant_advanced(c: Counters) -> Counters {
    Counters {
        iteration: (c.iteration + 1) as usize,
        evaluations: (c.evaluations + 1) as usize,
        max_iterations: c.max_iterations,
    }
}

/// How recording the new iterate ends the run, if it does.
pub open spec fn secant_record_stop(c: Counters, finite: bool) -> Option<Outcome> {
    let next = secant_advanced(c);
    if !finite {
        Some(
            Outcome {
                reason: StopReason::NonFiniteIterate,
                iterations: next.iteration,
                evaluations: next.evaluations,
            },
        )
    } else {
        None
    }
}

/// The outcome of a run with counters `c` fed, update by update, the check
/// observation and whether the new iterate and its value were finite, or
/// `None` when the run is still going after all of them.
pub open spec fn secant_final(c: Counters, probes: Seq<(SecantProbe, bool)>) -> Option<Outcome>
    decreases probes.len(),
{
    if probes.len() == 0 {
        None
    } else {
        match secant_check_stop(c, probes[0].0) {
            Some(outcome) => Some(outcome),
            None => match secant_record_stop(c, probes[0].1) {
                Some(outcome) => Some(outcome),
                None => secant_final(secant_advanced(c), probes.drop_first()),
            },
        }
    }
}

/// The iteration budget is enforced: whatever is observed, a secant run stops
/// within the iterates it has left and never records an iterate past its
/// budget; it reports budget exhaustion exactly at the budget; and it has made
/// one evaluation per recorded iterate.
pub proof fn secant_budget_is_enforced(c: Counters, probes: Seq<(SecantProbe, bool)>)
    requires
        secant_counters_valid(c),
        probes.len() > c.max_iterations - c.iteration,
    ensures
        secant_final(c, probes) matches Some(outcome) && {
            &&& c.iteration <= outcome.iterations <= c.max_iterations
            &&& outcome.reason == StopReason::BudgetExhausted ==> outcome.iterations
                == c.max_iterations
            &&& outcome.evaluations == outcome.iterations + 1
        },
    decreases probes.len(),
{
    if secant_check_stop(c, probes[0].0) is None && secant_record_stop(c, probes[0].1) is None {
        secant_budget_is_enforced(secant_advanced(c), probes.drop_first());
    }
}

/// The secant method reports convergence only when both the residual and the
/// step met their tolerances within the budget, and a non-finite new iterate
/// is always reported as such.
pub proof fn secant_status_follows_observation(c: Counters, p: SecantProbe, finite: bool)
    requires
        secant_counters_valid(c),
    ensures
        secant_check_stop(c, p) matches Some(outcome) && status_of(outcome.reason)
            == Status::Converged ==> p.residual_within && p.step_within,
        c.iteration < c.max_iterations && p.residual_within && p.step_within ==> (
        secant_check_stop(c, p) matches Some(outcome) && status_of(outcome.reason)
            == Status::Converged),
        !finite ==> (secant_record_stop(c, finite) matches Some(outcome) && status_of(
            outcome.reason,
        ) == Status::NonFinite),
{
}

/// The secant method never divides through a collapsed slope denominator:
/// before the budget, when the residual-and-step test fails, a collapsed
/// denominator always stops the run with status `CollapsedSecant`, whatever
/// the residual alone says; and an update is possible only when the
/// denominator has not collapsed.
pub proof fn secant_collapsed_slope_always_stops(c: Counters, p: SecantProbe)
    requires
        secant_counters_valid(c),
    ensures
        c.iteration < c.max_iterations && !(p.residual_within && p.step_within)
            && p.denominator_collapsed ==> (secant_check_stop(c, p) matches Some(outcome)
            && status_of(outcome.reason) == Status::CollapsedSecant && outcome.iterations
            == c.iteration),
        secant_check_stop(c, p) is None ==> !p.denominator_collapsed && c.iteration
            < c.max_iterations,
{
}

impl SecantRun {
    /// Starts a secant run with the given requested budget, after evaluating
    /// the two starting points (recorded as iterates 0 and 1); stops at once
    /// when the function is unknown or a starting point or its value is not finite.
    pub fn start(requested_max_iterations: usize, function_known: bool, inputs_finite: bool) -> (started: Result<SecantRun, Outcome>)
        ensures
            match started {
                Ok(run) => {
                    &&& secant_start_stop(function_known, inputs_finite) is None
                    &&& run@ == Counters {
                        iteration: 1,
                        evaluations: 2,
                        max_iterations: budget_for(requested_max_iterations),
                    }
                    &&& secant_counters_valid(run@)
                },
                Err(outcome) => secant_start_stop(function_known, inputs_finite) == Some(outcome),
            },
    {
        if !function_known {
            return Err(
                Outcome { reason: StopReason::UnknownFunction, iterations: 0, evaluations: 0 },
            );
        }
        if !inputs_finite {
            return Err(
                Outcome { reason: StopReason::NonFiniteInputs, iterations: 1, evaluations: 2 },
            );
        }
        let max_iterations = clamp_max_iterations(requested_max_iterations);
        Ok(SecantRun { counters: Counters { iteration: 1, evaluations: 2, max_iterations } })
    }

    /// The counters of this run.
    pub fn counters(&self) -> (counters: Counters)
        ensures
            counters == self@,
    {
        self.counters
    }

    /// Takes the observation of the two latest iterates and either stops the
    /// run or asks for the secant update.
    pub fn check(self, probe: SecantProbe) -> (checked: SecantChecked)
        requires
            secant_counters_valid(self@),
        ensures
            match checked {
                SecantChecked::Stop(outcome) => secant_check_stop(self@, probe) == Some(outcome),
                SecantChecked::Update(pending) => {
                    &&& secant_check_stop(self@, probe) is None
                    &&& pending@ == self@
                    &&& secant_pending_valid(pending@)
                },
            },
            // An update is asked for only before the budget, when the run has
            // not converged and the slope denominator has not collapsed.
            checked is Update ==> self@.iteration < self@.max_iterations && !(
            probe.residual_within && probe.step_within) && !probe.denominator_collapsed,
            // A collapsed denominator is never divided through.
            self@.iteration < self@.max_iterations && !(probe.residual_within
                && probe.step_within) && probe.denominator_collapsed ==> (checked matches SecantChecked::Stop(
                outcome,
            ) && outcome.reason == StopReason::CollapsedDenominator && outcome.iterations
                == self@.iteration && outcome.evaluations == self@.evaluations),
    {
        let c = self.counters;
        if c.iteration == c.max_iterations {
            return SecantChecked::Stop(
                Outcome {
                    reason: StopReason::BudgetExhausted,
                    iterations: c.iteration,
                    evaluations: c.evaluations,
                },
            );
        }
        if probe.residual_within && probe.step_within {
            return SecantChecked::Stop(
                Outcome {
                    reason: StopReason::ResidualAndStepMet,
                    iterations: c.iteration,
                    evaluations: c.evaluations,
                },
            );
        }
        if probe.denominator_collapsed {
            return SecantChecked::Stop(
                Outcome {
                    reason: StopReason::CollapsedDenominator,
                    iterations: c.iteration,
                    evaluations: c.evaluations,
                },
            );
        }
        SecantChecked::Update(SecantPending { counters: c })
    }
}

impl SecantPending {
    /// The counters of this run.
    pub fn counters(&self) -> (counters: Counters)
        ensures
            counters == self@,
    {
        self.counters
    }

    /// The number that the new iterate is recorded under.
    pub fn next_iteration(&self) -> (iteration: usize)
        requires
            secant_pending_valid(self@),
        ensures
            iteration == self@.iteration + 1,
    {
        self.counters.iteration + 1
    }

    /// Records the new iterate after its evaluation and stops the run when it
    /// or its value is not finite.
    pub fn record(self, finite: bool) -> (next: SecantStep)
        requires
            secant_pending_valid(self@),
        ensures
            match next {
                SecantStep::Stop(outcome) => secant_record_stop(self@, finite) == Some(outcome),
                SecantStep::Continue(run) => {
                    &&& finite
                    &&& run@ == secant_advanced(self@)
                    &&& secant_counters_valid(run@)
                },
            },
    {
        let c = self.counters;
        let iteration = c.iteration + 1;
        let evaluations = c.evaluations + 1;
        if !finite {
            return SecantStep::Stop(
                Outcome { reason: StopReason::NonFiniteIterate, iterations: iteration, evaluations },
            );
        }
        SecantStep::Continue(
            SecantRun {
                counters: Counters { iteration, evaluations, max_iterations: c.max_iterations },
            },
        )
    }
}

} // verus!
