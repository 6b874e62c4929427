use vstd::prelude::*;

verus! {

/// The fewest iterations a solver may be given.
pub const MIN_ITERATIONS: usize = 1;

/// The most iterations a solver may be given.
pub const MAX_ITERATIONS: usize = 500;

/// The iteration budget of the frozen protocol.
pub const DEFAULT_MAX_ITERATIONS: usize = 80;

/// The iteration budget that a request for `requested` iterations is given.
pub open spec fn budget_for(requested: usize) -> usize {
    if requested < MIN_ITERATIONS {
        MIN_ITERATIONS
    } else if requested > MAX_ITERATIONS {
        MAX_ITERATIONS
    } else {
        requested
    }
}

/// Brings a requested iteration budget into the accepted range `1..=500`.
pub fn clamp_max_iterations(requested: usize) -> (budget: usize)
    ensures
        budget == budget_for(requested),
        1 <= budget <= 500,
        1 <= requested <= 500 ==> budget == requested,
        requested == 0 ==> budget == 1,
        requested > 500 ==> budget == 500,
{
    if requested < MIN_ITERATIONS {
        MIN_ITERATIONS
    } else if requested > MAX_ITERATIONS {
        MAX_ITERATIONS
    } else {
        requested
    }
}

/// A requested budget inside `1..=500` is kept as it is; a request of zero
/// becomes one iteration and a request above 500 becomes 500.
pub proof fn budget_keeps_requests_in_range(requested: usize)
    ensures
        1 <= requested <= 500 ==> budget_for(requested) == requested,
        requested == 0 ==> budget_for(requested) == 1,
        requested > 500 ==> budget_for(requested) == 500,
        1 <= budget_for(requested) <= 500,
{
}

/// The categorical result of a solver run.
#[derive(Debug, Clone, Copy, PartialEq, Eq, Structural)]
pub enum Status {
    Converged,
    InvalidBracket,
    ZeroDerivative,
    CollapsedSecant,
    NonFinite,
    CycleDetected,
    MaxIterations,
}

/// Why a solver run stopped; each reason carries its own message.
#[derive(Debug, Clone, Copy, PartialEq, Eq, Structural)]
pub enum StopReason {
    UnknownFunction,
    NonFiniteInputs,
    NonFiniteMidpointValue,
    NonFiniteIterate,
    InvalidBracket,
    HalfWidthOrResidualMet,
    ResidualAndStepMet,
    SmallDerivative,
    RepeatedIterate,
    CollapsedDenominator,
    BudgetExhausted,
}

/// The status that a stop reason is reported under.
pub open spec fn status_of(reason: StopReason) -> Status {
    match reason {
        StopReason::UnknownFunction => Status::NonFinite,
        StopReason::NonFiniteInputs => Status::NonFinite,
        StopReason::NonFiniteMidpointValue => Status::NonFinite,
        StopReason::NonFiniteIterate => Status::NonFinite,
        StopReason::InvalidBracket => Status::InvalidBracket,
        StopReason::HalfWidthOrResidualMet => Status::Converged,
        StopReason::ResidualAndStepMet => Status::Converged,
        StopReason::SmallDerivative => Status::ZeroDerivative,
        StopReason::RepeatedIterate => Status::CycleDetected,
        StopReason::CollapsedDenominator => Status::CollapsedSecant,
        StopReason::BudgetExhausted => Status::MaxIterations,
    }
}

/// The message that a run stopped for `reason` reports.
pub open spec fn message_of(reason: StopReason) -> Seq<char> {
    match reason {
        StopReason::UnknownFunction => "Unknown function."@,
        StopReason::NonFiniteInputs => "Inputs must be finite."@,
        StopReason::NonFiniteMidpointValue => "A non-finite function value stopped the iteration."@,
        StopReason::NonFiniteIterate => "A non-finite iterate stopped the method."@,
        StopReason::InvalidBracket => "The endpoints must be ordered and have opposite signs."@,
        StopReason::HalfWidthOrResidualMet =>
            "The residual or certified half-width met the frozen tolerance."@,
        StopReason::ResidualAndStepMet => "The residual and step met the frozen tolerances."@,
        StopReason::SmallDerivative =>
            "The derivative was too small for a defensible Newton step."@,
        StopReason::RepeatedIterate => "A repeated iterate exposed a numerical cycle."@,
        StopReason::CollapsedDenominator => "The secant slope denominator collapsed."@,
        StopReason::BudgetExhausted => "The iteration budget was exhausted."@,
    }
}

impl StopReason {
    /// The status this reason is reported under.
    pub fn status(&self) -> (status: Status)
        ensures
            status == status_of(*self),
    {
        match self {
            StopReason::UnknownFunction => Status::NonFinite,
            StopReason::NonFiniteInputs => Status::NonFinite,
            StopReason::NonFiniteMidpointValue => Status::NonFinite,
            StopReason::NonFiniteIterate => Status::NonFinite,
            StopReason::InvalidBracket => Status::InvalidBracket,
            StopReason::HalfWidthOrResidualMet => Status::Converged,
            StopReason::ResidualAndStepMet => Status::Converged,
            StopReason::SmallDerivative => Status::ZeroDerivative,
            StopReason::RepeatedIterate => Status::CycleDetected,
            StopReason::CollapsedDenominator => Status::CollapsedSecant,
            StopReason::BudgetExhausted => Status::MaxIterations,
        }
    }

    /// The human-readable message of this reason.
    pub fn message(&self) -> (message: &'static str)
        ensures
            message@ == message_of(*self),
    {
        match self {
            StopReason::UnknownFunction => "Unknown function.",
            StopReason::NonFiniteInputs => "Inputs must be finite.",
            StopReason::NonFiniteMidpointValue =>
                "A non-finite function value stopped the iteration.",
            StopReason::NonFiniteIterate => "A non-finite iterate stopped the method.",
            StopReason::InvalidBracket => "The endpoints must be ordered and have opposite signs.",
            StopReason::HalfWidthOrResidualMet =>
                "The residual or certified half-width met the frozen tolerance.",
            StopReason::ResidualAndStepMet => "The residual and step met the frozen tolerances.",
            StopReason::SmallDerivative =>
                "The derivative was too small for a defensible Newton step.",
            StopReason::RepeatedIterate => "A repeated iterate exposed a numerical cycle.",
            StopReason::CollapsedDenominator => "The secant slope denominator collapsed.",
            StopReason::BudgetExhausted => "The iteration budget was exhausted.",
        }
    }
}

/// How a solver run ended: why it stopped, the iteration number of the last
/// recorded trace step (0 when nothing was recorded), and how many function
/// evaluations it made.
#[derive(Debug, Clone, Copy, PartialEq, Eq, Structural)]
pub struct Outcome {
    pub reason: StopReason,
    pub iterations: usize,
    pub evaluations: usize,
}

impl Outcome {
    /// The status of this outcome.
    pub fn status(&self) -> (status: Status)
        ensures
            status == status_of(self.reason),
    {
        self.reason.status()
    }
}

/// The counters of a run in progress: the iteration number of the last
/// recorded trace step, the function evaluations made so far, and the budget.
#[derive(Debug, Clone, Copy, PartialEq, Eq, Structural)]
pub struct Counters {
    pub iteration: usize,
    pub evaluations: usize,
    pub max_iterations: usize,
}

} // verus!
