use vstd::prelude::*;

use crate::text::str_equals;

verus! {

/// The benchmark functions of the laboratory.
#[derive(Debug, Clone, Copy, PartialEq, Eq, Structural)]
pub enum FunctionId {
    /// `x^3 - x - 2`
    Cubic,
    /// `cos(x) - x`
    Cosine,
    /// `(x - 1)^2`
    Repeated,
    /// `x^3 - 2x + 2`
    NewtonCycle,
    /// `x^3`
    Flat,
}

/// The benchmark function that an id names.
pub open spec fn function_named(id: Seq<char>) -> Option<FunctionId> {
    if id == "cubic"@ {
        Some(FunctionId::Cubic)
    } else if id == "cosine"@ {
        Some(FunctionId::Cosine)
    } else if id == "repeated"@ {
        Some(FunctionId::Repeated)
    } else if id == "newton-cycle"@ {
        Some(FunctionId::NewtonCycle)
    } else if id == "flat"@ {
        Some(FunctionId::Flat)
    } else {
        None
    }
}

/// Looks up a benchmark function by its id; `None` for an unknown id.
pub fn parse_function_id(id: &str) -> (function: Option<FunctionId>)
    ensures
        function == function_named(id@),
{
    if str_equals(id, "cubic") {
        Some(FunctionId::Cubic)
    } else if str_equals(id, "cosine") {
        Some(FunctionId::Cosine)
    } else if str_equals(id, "repeated") {
        Some(FunctionId::Repeated)
    } else if str_equals(id, "newton-cycle") {
        Some(FunctionId::NewtonCycle)
    } else if str_equals(id, "flat") {
        Some(FunctionId::Flat)
    } else {
        None
    }
}

} // verus!
