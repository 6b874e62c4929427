use vstd::prelude::*;

use crate::outcome::{
    budget_for, clamp_max_iterations, status_of, Counters, Outcome, Status, StopReason,
    MAX_ITERATIONS, MIN_ITERATIONS,
};

verus! {

/// How many of the most recent earlier iterates a new iterate is compared with.
pub const CYCLE_WINDOW: usize = 8;

/// What the caller observed when it evaluated the current Newton iterate.
#[derive(Debug, Clone, Copy, PartialEq, Eq, Structural)]
pub struct NewtonProbe {
    /// The function id names a known function.
    pub function_known: bool,
    /// The iterate, its function value and its derivative are all finite.
    pub finite: bool,
    /// The absolute function value is within the residual tolerance.
    pub residual_within: bool,
    /// The distance from the previous iterate is within the `x` tolerance
    /// (ignored for the initial point, which has no previous iterate).
    pub step_within: bool,
    /// The derivative is too small, relative to the function value, to divide by.
    pub derivative_small: bool,
}

/// A Newton run about to evaluate an iterate. Its counters hold the number of
/// that iterate, the evaluations made so far and the iteration budget.
pub struct NewtonRun {
    counters: Counters,
}

/// A Newton run that has recorded its current iterate and waits to learn
/// whether the proposed next iterate repeats a recent one.
pub struct NewtonPending {
    counters: Counters,
}

/// The result of evaluating an iterate.
pub enum NewtonObserved {
    /// Compute the Newton update and check it for a cycle.
    Update(NewtonPending),
    Stop(Outcome),
}

/// The result of the cycle check of a proposed iterate.
pub enum NewtonStep {
    Continue(NewtonRun),
    Stop(Outcome),
}

impl View for NewtonRun {
    type V = Counters;

    closed spec fn view(&self) -> Counters {
        self.counters
    }
}

impl View for NewtonPending {
    type V = Counters;

    closed spec fn view(&self) -> Counters {
        self.counters
    }
}

/// The counters of a run about to evaluate an iterate: the budget is in range,
/// the iterate is within it, and each earlier iterate cost two evaluations
/// (function and derivative).
pub open spec fn newton_counters_valid(c: Counters) -> bool {
    &&& MIN_ITERATIONS <= c.max_iterations <= MAX_ITERATIONS
    &&& c.iteration <= c.max_iterations
    &&& c.evaluations == 2 * c.iteration
}

/// The counters of a run waiting on its cycle check: the current iterate is
/// before the budget and has been evaluated.
pub open spec fn newton_pending_valid(c: Counters) -> bool {
    &&& MIN_ITERATIONS <= c.max_iterations <= MAX_ITERATIONS
    &&& c.iteration < c.max_iterations
    &&& c.evaluations == 2 * c.iteration + 2
}

/// The counters once the current iterate has been evaluated.
pub open spec fn newton_evaluated(c: Counters) -> Counters {
    Counters {
        iteration: c.iteration,
        evaluations: (c.evaluations + 2) as usize,
        max_iterations: c.max_iterations,
    }
}

/// How evaluating the current iterate ends the run, if it does. The initial
/// point has no step, so its residual alone decides convergence.
pub open spec fn newton_observe_stop(c: Counters, p: NewtonProbe) -> Option<Outcome> {
    let k = c.iteration;
    let e = newton_evaluated(c).evaluations;
    if !p.function_known {
        Some(
            Outcome {
                reason: StopReason::UnknownFunction,
                iterations: if k == 0 {
                    0
                } else {
                    (k - 1) as usize
                },
                evaluations: c.evaluations,
            },
        )
    } else if !p.finite {
        Some(Outcome { reason: StopReason::NonFiniteIterate, iterations: k, evaluations: e })
    } else if p.residual_within && (k == 0 || p.step_within) {
        Some(Outcome { reason: StopReason::ResidualAndStepMet, iterations: k, evaluations: e })
    } else if k == c.max_iterations {
        Some(Outcome { reason: StopReason::BudgetExhausted, iterations: k, evaluations: e })
    } else if p.derivative_small {
        Some(Outcome { reason: StopReason::SmallDerivative, iterations: k, evaluations: e })
    } else {
        None
    }
}

/// Whether one of the last `CYCLE_WINDOW` entries of `close` holds; entry `i`
/// says whether the proposed iterate lies within the `x` tolerance of the
/// `i`-th earlier iterate.
pub open spec fn repeats_recent(close: Seq<bool>) -> bool {
    exists|i: int| 0 <= i < close.len() && close.len() - CYCLE_WINDOW <= i && #[trigger] close[i]
}

/// How the cycle check ends the run, if it does: the repeated iterate is
/// recorded as one more step at the cost of one more evaluation.
pub open spec fn newton_cycle_stop(c: Counters, repeated: bool) -> Option<Outcome> {
    if repeated {
        Some(
            Outcome {
                reason: StopReason::RepeatedIterate,
                iterations: (c.iteration + 1) as usize,
                evaluations: (c.evaluations + 1) as usize,
            },
        )
    } else {
        None
    }
}

/// The counters of the run that evaluates the proposed iterate next.
pub open spec fn newton_advanced(c: Counters) -> Counters {
    Counters {
        iteration: (c.iteration + 1) as usize,
        evaluations: c.evaluations,
        max_iterations: c.max_iterations,
    }
}

/// The outcome of a run with counters `c` fed, iterate by iterate, the
/// evaluation observation and the comparisons of the proposed iterate with
/// each earlier iterate, or `None` when the run is still going after all of them.
pub open spec fn newton_final(c: Counters, probes: Seq<(NewtonProbe, Seq<bool>)>) -> Option<
    Outcome,
>
    decreases probes.len(),
{
    if probes.len() == 0 {
        None
    } else {
        match newton_observe_stop(c, probes[0].0) {
            Some(outcome) => Some(outcome),
            None => match newton_cycle_stop(newton_evaluated(c), repeats_recent(probes[0].1)) {
                Some(outcome) => Some(outcome),
                None => newton_final(newton_advanced(newton_evaluated(c)), probes.drop_first()),
            },
        }
    }
}

/// The comparison lists of `probes` have one entry per earlier iterate, for a
/// run whose next iterate is number `first`.
pub open spec fn newton_comparisons_sized(first: int, probes: Seq<(NewtonProbe, Seq<bool>)>) -> bool {
    forall|i: int| 0 <= i < probes.len() ==> (#[trigger] probes[i]).1.len() == first + i
}

/// The iteration budget is enforced: whatever is observed, a Newton run stops
/// within the iterates it has left and never records an iteration past its
/// budget; it reports budget exhaustion only at the budget; a detected cycle
/// comes no earlier than the third recorded iterate; and it has made two
/// evaluations per recorded iterate, one fewer when the last one is a
/// detected repeat, none when the function was unknown from the start.
pub proof fn newton_budget_is_enforced(c: Counters, probes: Seq<(NewtonProbe, Seq<bool>)>)
    requires
        newton_counters_valid(c),
        probes.len() > c.max_iterations - c.iteration,
        newton_comparisons_sized(c.iteration as int, probes),
    ensures
        newton_final(c, probes) matches Some(outcome) && {
            &&& outcome.iterations <= c.max_iterations
            &&& outcome.reason == StopReason::BudgetExhausted ==> outcome.iterations
                == c.max_iterations
            &&& outcome.reason == StopReason::RepeatedIterate ==> outcome.iterations >= 2
                && outcome.evaluations == 2 * outcome.iterations + 1
            &&& outcome.reason == StopReason::UnknownFunction ==> (outcome.evaluations == 0
                || outcome.evaluations == 2 * outcome.iterations + 2)
            &&& outcome.reason != StopReason::RepeatedIterate && outcome.reason
                != StopReason::UnknownFunction ==> outcome.evaluations == 2 * outcome.iterations
                + 2
        },
    decreases probes.len(),
{
    assert(probes[0].1.len() == c.iteration);
    if newton_observe_stop(c, probes[0].0) is None {
        if repeats_recent(probes[0].1) {
            let j = choose|j: int|
                0 <= j < probes[0].1.len() && probes[0].1.len() - CYCLE_WINDOW <= j
                    && #[trigger] probes[0].1[j];
            assert(c.iteration >= 1);
        } else {
            let rest = probes.drop_first();
            assert forall|i: int| 0 <= i < rest.len() implies (#[trigger] rest[i]).1.len() == (
            c.iteration + 1) + i by {
                assert(rest[i] == probes[i + 1]);
            }
            newton_budget_is_enforced(newton_advanced(newton_evaluated(c)), rest);
        }
    }
}

/// Newton reports convergence only for a finite iterate whose residual met its
/// tolerance and, past the initial point, whose step met its tolerance too;
/// a non-finite iterate of a known function is always reported as such.
pub proof fn newton_status_follows_observation(c: Counters, p: NewtonProbe)
    requires
        newton_counters_valid(c),
    ensures
        newton_observe_stop(c, p) matches Some(outcome) && status_of(outcome.reason)
            == Status::Converged ==> p.function_known && p.finite && p.residual_within && (
        c.iteration == 0 || p.step_within),
        p.function_known && !p.finite ==> (newton_observe_stop(c, p) matches Some(outcome)
            && status_of(outcome.reason) == Status::NonFinite),
        p.function_known && p.finite && p.residual_within && (c.iteration == 0 || p.step_within)
            ==> (newton_observe_stop(c, p) matches Some(outcome) && status_of(outcome.reason)
            == Status::Converged),
{
}

/// A detected Newton cycle has at least three recorded iterates (the earlier
/// one repeated, the current one, and the repeat), and the repeated iterate is
/// one of the last `CYCLE_WINDOW` before the current one: with one comparison
/// per earlier iterate, a repeat needs an earlier iterate to exist.
pub proof fn newton_cycle_repeats_an_earlier_iterate(c: Counters, close: Seq<bool>)
    requires
        newton_pending_valid(c),
        close.len() == c.iteration,
        repeats_recent(close),
    ensures
        newton_cycle_stop(c, true) matches Some(outcome) && {
            &&& outcome.iterations >= 2
            &&& outcome.iterations <= c.max_iterations
            &&& outcome.evaluations == 2 * outcome.iterations + 1
        },
        exists|j: int| 0 <= j < c.iteration && c.iteration - CYCLE_WINDOW <= j && #[trigger] close[j],
{
}

/// Newton never divides by a derivative reported too small: for a known,
/// finite iterate before the budget that fails the residual-and-step test,
/// a small derivative always stops the run with status `ZeroDerivative`
/// at that iterate, whatever the residual alone says; and an update is
/// possible only when the derivative is large enough.
pub proof fn newton_small_derivative_always_stops(c: Counters, p: NewtonProbe)
    requires
        newton_counters_valid(c),
    ensures
        p.function_known && p.finite && !(p.residual_within && (c.iteration == 0
            || p.step_within)) && c.iteration < c.max_iterations && p.derivative_small ==> (
        newton_observe_stop(c, p) matches Some(outcome) && status_of(outcome.reason)
            == Status::ZeroDerivative && outcome.iterations == c.iteration),
        newton_observe_stop(c, p) is None ==> !p.derivative_small && p.function_known
            && p.finite && c.iteration < c.max_iterations,
{
}

impl NewtonRun {
    /// Starts a Newton run at the initial point with the given requested budget.
    pub fn start(requested_max_iterations: usize) -> (run: NewtonRun)
        ensures
            run@ == (Counters {
                iteration: 0,
                evaluations: 0,
                max_iterations: budget_for(requested_max_iterations),
            }),
            newton_counters_valid(run@),
    {
        let max_iterations = clamp_max_iterations(requested_max_iterations);
        NewtonRun { counters: Counters { iteration: 0, evaluations: 0, max_iterations } }
    }

    /// The counters of this run.
    pub fn counters(&self) -> (counters: Counters)
        ensures
            counters == self@,
    {
        self.counters
    }

    /// Takes the observation of the current iterate and either stops the run
    /// or asks for the Newton update.
    pub fn observe(self, probe: NewtonProbe) -> (observed: NewtonObserved)
        requires
            newton_counters_valid(self@),
        ensures
            match observed {
                NewtonObserved::Stop(outcome) => newton_observe_stop(self@, probe) == Some(
                    outcome,
                ),
                NewtonObserved::Update(pending) => {
                    &&& newton_observe_stop(self@, probe) is None
                    &&& pending@ == newton_evaluated(self@)
                    &&& newton_pending_valid(pending@)
                },
            },
            // An update is asked for only for a known, finite iterate before the
            // budget that is not converged and whose derivative is large enough.
            observed is Update ==> probe.function_known && probe.finite && !(probe.residual_within
                && (self@.iteration == 0 || probe.step_within)) && self@.iteration
                < self@.max_iterations && !probe.derivative_small,
            // A derivative too small to divide by stops every such iterate as such.
            probe.function_known && probe.finite && !(probe.residual_within && (self@.iteration
                == 0 || probe.step_within)) && self@.iteration < self@.max_iterations
                && probe.derivative_small ==> (observed matches NewtonObserved::Stop(outcome)
                && outcome.reason == StopReason::SmallDerivative && outcome.iterations
                == self@.iteration && outcome.evaluations == self@.evaluations + 2),
    {
        let c = self.counters;
        let k = c.iteration;
        if !probe.function_known {
            let last = if k == 0 {
                0
            } else {
                k - 1
            };
            return NewtonObserved::Stop(
                Outcome {
                    reason: StopReason::UnknownFunction,
                    iterations: last,
                    evaluations: c.evaluations,
                },
            );
        }
        let evaluations = c.evaluations + 2;
        if !probe.finite {
            return NewtonObserved::Stop(
                Outcome { reason: StopReason::NonFiniteIterate, iterations: k, evaluations },
            );
        }
        if probe.residual_within && (k == 0 || probe.step_within) {
            return NewtonObserved::Stop(
                Outcome { reason: StopReason::ResidualAndStepMet, iterations: k, evaluations },
            );
        }
        if k == c.max_iterations {
            return NewtonObserved::Stop(
                Outcome { reason: StopReason::BudgetExhausted, iterations: k, evaluations },
            );
        }
        if probe.derivative_small {
            return NewtonObserved::Stop(
                Outcome { reason: StopReason::SmallDerivative, iterations: k, evaluations },
            );
        }
        NewtonObserved::Update(
            NewtonPending {
                counters: Counters { iteration: k, evaluations, max_iterations: c.max_iterations },
            },
        )
    }
}

/// Whether one of the last `CYCLE_WINDOW` entries of `close` holds.
pub fn repeats_recently(close: &Vec<bool>) -> (repeated: bool)
    ensures
        repeated == repeats_recent(close@),
{
    let len = close.len();
    let first = if len > CYCLE_WINDOW {
        len - CYCLE_WINDOW
    } else {
        0
    };
    let mut i = first;
    while i < len
        invariant
            len == close@.len(),
            first <= i <= len,
            first == (if len > CYCLE_WINDOW { len - CYCLE_WINDOW } else { 0int }),
            forall|j: int| first <= j < i ==> !close@[j],
        decreases len - i,
    {
        if close[i] {
            return true;
        }
        i = i + 1;
    }
    assert forall|j: int|
        0 <= j < close@.len() && close@.len() - CYCLE_WINDOW <= j implies !#[trigger] close@[j] by {
        assert(first <= j);
    }
    false
}

impl NewtonPending {
    /// The counters of this run.
    pub fn counters(&self) -> (counters: Counters)
        ensures
            counters == self@,
    {
        self.counters
    }

    /// Takes, for each earlier iterate in order (one entry per iterate before
    /// the current one), whether the proposed iterate lies within the `x`
    /// tolerance of it, and stops the run on a repeat of one of the most
    /// recent `CYCLE_WINDOW`; otherwise the proposed iterate is evaluated next.
    pub fn check_cycle(self, close: &Vec<bool>) -> (next: NewtonStep)
        requires
            newton_pending_valid(self@),
            close@.len() == self@.iteration,
        ensures
            match next {
                NewtonStep::Stop(outcome) => {
                    &&& newton_cycle_stop(self@, repeats_recent(close@)) == Some(outcome)
                    &&& outcome.iterations >= 2
                    &&& exists|j: int|
                        0 <= j < self@.iteration && self@.iteration - CYCLE_WINDOW <= j
                            && #[trigger] close@[j]
                },
                NewtonStep::Continue(run) => {
                    &&& !repeats_recent(close@)
                    &&& run@ == newton_advanced(self@)
                    &&& newton_counters_valid(run@)
                },
            },
    {
        let c = self.counters;
        if repeats_recently(close) {
            NewtonStep::Stop(
                Outcome {
                    reason: StopReason::RepeatedIterate,
                    iterations: c.iteration + 1,
                    evaluations: c.evaluations + 1,
                },
            )
        } else {
            NewtonStep::Continue(
                NewtonRun {
                    counters: Counters {
                        iteration: c.iteration + 1,
                        evaluations: c.evaluations,
                        max_iterations: c.max_iterations,
                    },
                },
            )
        }
    }
}

} // verus!
