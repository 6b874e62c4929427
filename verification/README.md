# mathlab_wasm

Verified control logic for a small root-finding laboratory (bisection, Newton
and secant traces) and for its residual/conditioning report.

- `src/` is checked by Verus. It holds the decisions: the benchmark function and
  method lookups, the iteration budget, the bisection, Newton and secant runs
  (when they stop, with which status and message, how the bracket shrinks, how
  iterations and function evaluations are counted) and the pass/fail logic of
  the conditioning report. Each run module also states and proves its laws:
  the budget is enforced whatever is observed, evaluations are counted
  exactly, and convergence is reported only when the tolerances were met.
- `app/` holds what Verus cannot take: the binary64 arithmetic of the
  benchmark functions and of each iteration, the result and report types with
  their serde derives, and the `wasm_bindgen` entry point. It feeds the
  observations of that arithmetic to the verified runs and follows their
  decisions.
- `tests/` exercises the library on concrete decision sequences.
