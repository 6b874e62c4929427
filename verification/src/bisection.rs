use vstd::prelude::*;

use crate::outcome::{budget_for, status_of, Status, clamp_max_iterations, Counters, Outcome, StopReason, MAX_ITERATIONS, MIN_ITERATIONS};

verus! {

/// What the caller observed at the midpoint of the current bracket.
#[derive(Debug, Clone, Copy, PartialEq, Eq, Structural)]
pub struct BisectionProbe {
    /// The function value at the midpoint is finite.
    pub value_finite: bool,
    /// The absolute function value at the midpoint is within the residual tolerance.
    pub residual_within: bool,
    /// Half the bracket width is within the `x` tolerance.
    pub half_width_within: bool,
    /// The left endpoint value and the midpoint value have different signs.
    pub sign_change_on_left: bool,
}

/// Which endpoint the midpoint replaces.
#[derive(Debug, Clone, Copy, PartialEq, Eq, Structural)]
pub enum Narrowing {
    /// The root lies between the left endpoint and the midpoint.
    ReplaceRight,
    /// The root lies between the midpoint and the right endpoint.
    ReplaceLeft,
}

/// A bisection run in progress. Its counters hold the number of the last
/// completed iteration (0 before the first), the evaluations made so far and
/// the iteration budget.
pub struct BisectionRun {
    counters: Counters,
}

/// The result of one bisection iteration.
pub enum BisectionStep {
    Continue(BisectionRun, Narrowing),
    Stop(Outcome),
}

impl View for BisectionRun {
    type V = Counters;

    closed spec fn view(&self) -> Counters {
        self.counters
    }
}

/// The counters that every bisection run in progress keeps: the budget is in
/// range, the budget is not yet spent, and two endpoint evaluations plus one
/// per iteration have been made.
pub open spec fn bisection_counters_valid(c: Counters) -> bool {
    &&& MIN_ITERATIONS <= c.max_iterations <= MAX_ITERATIONS
    &&& c.iteration < c.max_iterations
    &&& c.evaluations == c.iteration + 2
}

/// How the run ends before its first iteration, if it does: an unknown
/// function, non-finite endpoints or endpoint values, or an interval that is
/// not ordered with a sign change.
pub open spec fn bisection_start_stop(
    function_known: bool,
    inputs_finite: bool,
    bracket_valid: bool,
) -> Option<Outcome> {
    if !function_known {
        Some(Outcome { reason: StopReason::UnknownFunction, iterations: 0, evaluations: 0 })
    } else if !inputs_finite {
        Some(Outcome { reason: StopReason::NonFiniteInputs, iterations: 0, evaluations: 2 })
    } else if !bracket_valid {
        Some(Outcome { reason: StopReason::InvalidBracket, iterations: 0, evaluations: 2 })
    } else {
        None
    }
}

/// The counters after one more iteration.
pub open spec fn bisection_advanced(c: Counters) -> Counters {
    Counters {
        iteration: (c.iteration + 1) as usize,
        evaluations: (c.evaluations + 1) as usize,
        max_iterations: c.max_iterations,
    }
}

/// How the next iteration ends the run, if it does.
pub open spec fn bisection_stop(c: Counters, p: BisectionProbe) -> Option<Outcome> {
    let next = bisection_advanced(c);
    if !p.value_finite {
        Some(
            Outcome {
                reason: StopReason::NonFiniteMidpointValue,
                iterations: next.iteration,
                evaluations: next.evaluations,
            },
        )
    } else if p.residual_within || p.half_width_within {
        Some(
            Outcome {
                reason: StopReason::HalfWidthOrResidualMet,
                iterations: next.iteration,
                evaluations: next.evaluations,
            },
        )
    } else if next.iteration == c.max_iterations {
        Some(
            Outcome {
                reason: StopReason::BudgetExhausted,
                iterations: next.iteration,
                evaluations: next.evaluations,
            },
        )
    } else {
        None
    }
}

/// The endpoint that the midpoint replaces: the one that keeps a sign change.
pub open spec fn narrowing_for(p: BisectionProbe) -> Narrowing {
    if p.sign_change_on_left {
        Narrowing::ReplaceRight
    } else {
        Narrowing::ReplaceLeft
    }
}

/// The outcome of a run with counters `c` fed the observations `probes` in
/// order, or `None` when the run is still going after all of them.
pub open spec fn bisection_final(c: Counters, probes: Seq<BisectionProbe>) -> Option<Outcome>
    decreases probes.len(),
{
    if probes.len() == 0 {
        None
    } else {
        match bisection_stop(c, probes[0]) {
            Some(outcome) => Some(outcome),
            None => bisection_final(bisection_advanced(c), probes.drop_first()),
        }
    }
}

/// The iteration budget is enforced: whatever is observed, a bisection run
/// stops within the iterations it has left, never past its budget, reports
/// budget exhaustion only at the budget, and has made the two endpoint
/// evaluations plus one per iteration.
pub proof fn bisection_budget_is_enforced(c: Counters, probes: Seq<BisectionProbe>)
    requires
        bisection_counters_valid(c),
        probes.len() >= c.max_iterations - c.iteration,
    ensures
        bisection_final(c, probes) matches Some(outcome) && {
            &&& c.iteration < outcome.iterations <= c.max_iterations
            &&& outcome.evaluations == outcome.iterations + 2
            &&& outcome.reason == StopReason::BudgetExhausted ==> outcome.iterations
                == c.max_iterations
        },
    decreases probes.len(),
{
    if bisection_stop(c, probes[0]) is None {
        bisection_budget_is_enforced(bisection_advanced(c), probes.drop_first());
    }
}

/// A bisection iteration reports convergence only when the midpoint value is
/// finite and the residual or the certified half-width met its tolerance, and
/// a non-finite midpoint value is always reported as such.
pub proof fn bisection_status_follows_observation(c: Counters, p: BisectionProbe)
    requires
        bisection_counters_valid(c),
    ensures
        bisection_stop(c, p) matches Some(outcome) && status_of(outcome.reason)
            == Status::Converged ==> p.value_finite && (p.residual_within || p.half_width_within),
        !p.value_finite ==> (bisection_stop(c, p) matches Some(outcome) && status_of(
            outcome.reason,
        ) == Status::NonFinite),
        p.value_finite && (p.residual_within || p.half_width_within) ==> (bisection_stop(
            c,
            p,
        ) matches Some(outcome) && status_of(outcome.reason) == Status::Converged),
{
}

/// Bisection keeps a sign-changing bracket: when the endpoint values have
/// different signs (`left_negative != right_negative`) and the probe reports
/// whether the left and midpoint values differ in sign, the endpoint that the
/// midpoint replaces leaves a bracket whose endpoint values still differ in sign.
pub proof fn bisection_keeps_sign_change(
    left_negative: bool,
    midpoint_negative: bool,
    right_negative: bool,
    p: BisectionProbe,
)
    requires
        left_negative != right_negative,
        p.sign_change_on_left == (left_negative != midpoint_negative),
    ensures
        narrowing_for(p) == Narrowing::ReplaceRight ==> left_negative != midpoint_negative,
        narrowing_for(p) == Narrowing::ReplaceLeft ==> midpoint_negative != right_negative,
{
}

impl BisectionRun {
    /// Starts a bisection run with the given requested budget, after the two
    /// endpoint evaluations; stops at once when the function is unknown, an
    /// input is not finite, or the bracket is not ordered with a sign change.
    pub fn start(
        requested_max_iterations: usize,
        function_known: bool,
        inputs_finite: bool,
        bracket_valid: bool,
    ) -> (started: Result<BisectionRun, Outcome>)
        ensures
            match started {
                Ok(run) => {
                    &&& bisection_start_stop(function_known, inputs_finite, bracket_valid) is None
                    &&& run@ == Counters {
                        iteration: 0,
                        evaluations: 2,
                        max_iterations: budget_for(requested_max_iterations),
                    }
                    &&& bisection_counters_valid(run@)
                },
                Err(outcome) => bisection_start_stop(function_known, inputs_finite, bracket_valid)
                    == Some(outcome),
            },
    {
        if !function_known {
            return Err(
                Outcome { reason: StopReason::UnknownFunction, iterations: 0, evaluations: 0 },
            );
        }
        if !inputs_finite {
            return Err(
                Outcome { reason: StopReason::NonFiniteInputs, iterations: 0, evaluations: 2 },
            );
        }
        if !bracket_valid {
            return Err(
                Outcome { reason: StopReason::InvalidBracket, iterations: 0, evaluations: 2 },
            );
        }
        let max_iterations = clamp_max_iterations(requested_max_iterations);
        Ok(BisectionRun { counters: Counters { iteration: 0, evaluations: 2, max_iterations } })
    }

    /// The counters of this run.
    pub fn counters(&self) -> (counters: Counters)
        ensures
            counters == self@,
    {
        self.counters
    }

    /// The number of the iteration that the next probe belongs to.
    pub fn next_iteration(&self) -> (iteration: usize)
        requires
            bisection_counters_valid(self@),
        ensures
            iteration == self@.iteration + 1,
    {
        self.counters.iteration + 1
    }

    /// Takes the observation at the midpoint of the current bracket and
    /// either stops the run or says which endpoint the midpoint replaces.
    pub fn step(self, probe: BisectionProbe) -> (next: BisectionStep)
        requires
            bisection_counters_valid(self@),
        ensures
            match next {
                BisectionStep::Stop(outcome) => bisection_stop(self@, probe) == Some(outcome),
                BisectionStep::Continue(run, narrowing) => {
                    &&& bisection_stop(self@, probe) is None
                    &&& run@ == bisection_advanced(self@)
                    &&& bisection_counters_valid(run@)
                    &&& narrowing == narrowing_for(probe)
                },
            },
            // The run goes on only past a finite, unconverged midpoint before the budget.
            next is Continue ==> probe.value_finite && !probe.residual_within
                && !probe.half_width_within && self@.iteration + 1 < self@.max_iterations,
    {
        let c = self.counters;
        let iteration = c.iteration + 1;
        let evaluations = c.evaluations + 1;
        if !probe.value_finite {
            return BisectionStep::Stop(
                Outcome { reason: StopReason::NonFiniteMidpointValue, iterations: iteration, evaluations },
            );
        }
        if probe.residual_within || probe.half_width_within {
            return BisectionStep::Stop(
                Outcome { reason: StopReason::HalfWidthOrResidualMet, iterations: iteration, evaluations },
            );
        }
        if iteration == c.max_iterations {
            return BisectionStep::Stop(
                Outcome { reason: StopReason::BudgetExhausted, iterations: iteration, evaluations },
            );
        }
        let narrowing = if probe.sign_change_on_left {
            Narrowing::ReplaceRight
        } else {
            Narrowing::ReplaceLeft
        };
        BisectionStep::Continue(
            BisectionRun {
                counters: Counters { iteration, evaluations, max_iterations: c.max_iterations },
            },
            narrowing,
        )
    }
}

} // verus!
