//! Deterministic one-dimensional root-finding control logic and the
//! residual/conditioning diagnostics of the Mathlab laboratory.
//!
//! The floating-point arithmetic of the solvers lives with the caller; this
//! crate holds every decision that the solvers and the conditioning report
//! make from the observations of that arithmetic: which benchmark function
//! and method a request names, the iteration budget, when bisection, Newton
//! and secant runs stop and under which status and message, how iterations
//! and function evaluations are counted, and when a conditioning case and
//! the conditioning report pass.

mod text;

pub mod bisection;
pub mod conditioning;
pub mod functions;
pub mod method;
pub mod newton;
pub mod outcome;
pub mod secant;

pub use bisection::{BisectionProbe, BisectionRun, BisectionStep, Narrowing};
pub use functions::{parse_function_id, FunctionId};
pub use method::{parse_method, Method};
pub use newton::{repeats_recently, NewtonObserved, NewtonPending, NewtonProbe, NewtonRun, NewtonStep};
pub use outcome::{
    clamp_max_iterations, Counters, Outcome, Status, StopReason, DEFAULT_MAX_ITERATIONS,
};
pub use secant::{SecantChecked, SecantPending, SecantProbe, SecantRun, SecantStep};
