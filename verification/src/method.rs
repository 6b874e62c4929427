use vstd::prelude::*;

use crate::text::str_equals;

verus! {

/// The three root-finding methods of the laboratory.
#[derive(Debug, Clone, Copy, PartialEq, Eq, Structural)]
pub enum Method {
    Bisection,
    Newton,
    Secant,
}

/// The method that a request names, by its lower-case name.
pub open spec fn method_named(name: Seq<char>) -> Option<Method> {
    if name == "bisection"@ {
        Some(Method::Bisection)
    } else if name == "newton"@ {
        Some(Method::Newton)
    } else if name == "secant"@ {
        Some(Method::Secant)
    } else {
        None
    }
}

/// Reads a method name as the web interface sends it; `None` for an unknown name.
pub fn parse_method(name: &str) -> (method: Option<Method>)
    ensures
        method == method_named(name@),
{
    if str_equals(name, "bisection") {
        Some(Method::Bisection)
    } else if str_equals(name, "newton") {
        Some(Method::Newton)
    } else if str_equals(name, "secant") {
        Some(Method::Secant)
    } else {
        None
    }
}

} // verus!
