use mathlab_wasm::outcome::{MAX_ITERATIONS, MIN_ITERATIONS};
use mathlab_wasm::{
    clamp_max_iterations, parse_function_id, parse_method, FunctionId, Method, Status,
    StopReason, DEFAULT_MAX_ITERATIONS,
};

#[test]
fn method_names_are_read() {
    assert_eq!(parse_method("bisection"), Some(Method::Bisection));
    assert_eq!(parse_method("newton"), Some(Method::Newton));
    assert_eq!(parse_method("secant"), Some(Method::Secant));
}

#[test]
fn unknown_method_names_are_refused() {
    assert_eq!(parse_method("brent"), None);
    assert_eq!(parse_method(""), None);
    assert_eq!(parse_method("Newton"), None);
    assert_eq!(parse_method("newton "), None);
}

#[test]
fn function_ids_are_read() {
    assert_eq!(parse_function_id("cubic"), Some(FunctionId::Cubic));
    assert_eq!(parse_function_id("cosine"), Some(FunctionId::Cosine));
    assert_eq!(parse_function_id("repeated"), Some(FunctionId::Repeated));
    assert_eq!(parse_function_id("newton-cycle"), Some(FunctionId::NewtonCycle));
    assert_eq!(parse_function_id("flat"), Some(FunctionId::Flat));
}

#[test]
fn unknown_function_ids_are_refused() {
    assert_eq!(parse_function_id("quartic"), None);
    assert_eq!(parse_function_id("cubi"), None);
    assert_eq!(parse_function_id("newton_cycle"), None);
}

#[test]
fn iteration_budget_is_clamped() {
    assert_eq!(clamp_max_iterations(0), 1);
    assert_eq!(clamp_max_iterations(1), 1);
    assert_eq!(clamp_max_iterations(80), 80);
    assert_eq!(clamp_max_iterations(500), 500);
    assert_eq!(clamp_max_iterations(501), 500);
    assert_eq!(clamp_max_iterations(usize::MAX), 500);
    assert_eq!(DEFAULT_MAX_ITERATIONS, 80);
    assert_eq!((MIN_ITERATIONS, MAX_ITERATIONS), (1, 500));
}

#[test]
fn stop_reasons_carry_status_and_message() {
    let cases = [
        (StopReason::UnknownFunction, Status::NonFinite, "Unknown function."),
        (StopReason::NonFiniteInputs, Status::NonFinite, "Inputs must be finite."),
        (
            StopReason::NonFiniteMidpointValue,
            Status::NonFinite,
            "A non-finite function value stopped the iteration.",
        ),
        (
            StopReason::NonFiniteIterate,
            Status::NonFinite,
            "A non-finite iterate stopped the method.",
        ),
        (
            StopReason::InvalidBracket,
            Status::InvalidBracket,
            "The endpoints must be ordered and have opposite signs.",
        ),
        (
            StopReason::HalfWidthOrResidualMet,
            Status::Converged,
            "The residual or certified half-width met the frozen tolerance.",
        ),
        (
            StopReason::ResidualAndStepMet,
            Status::Converged,
            "The residual and step met the frozen tolerances.",
        ),
        (
            StopReason::SmallDerivative,
            Status::ZeroDerivative,
            "The derivative was too small for a defensible Newton step.",
        ),
        (
            StopReason::RepeatedIterate,
            Status::CycleDetected,
            "A repeated iterate exposed a numerical cycle.",
        ),
        (
            StopReason::CollapsedDenominator,
            Status::CollapsedSecant,
            "The secant slope denominator collapsed.",
        ),
        (
            StopReason::BudgetExhausted,
            Status::MaxIterations,
            "The iteration budget was exhausted.",
        ),
    ];
    for (reason, status, message) in cases {
        assert_eq!(reason.status(), status);
        assert_eq!(reason.message(), message);
    }
}
