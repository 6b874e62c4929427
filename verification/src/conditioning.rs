//! Prespecified residual and conditioning diagnostics for the v1.0 study:
//! which checks apply to a case, when a case passes, and when the report does.

use vstd::prelude::*;

verus! {

/// The commit at which the v1.0 protocol was frozen.
pub const PROTOCOL_COMMIT: &'static str = "97b21a2";

/// The per-case checks of the v1.0 report. The kind-specific checks are
/// present only for cases of their kind.
#[derive(Debug, Clone, Copy, PartialEq, Eq, Structural)]
pub struct ConditioningChecks {
    pub finite_required_values: bool,
    pub classification_matches: bool,
    pub linear_estimate_matches_forward_error: Option<bool>,
    pub cubic_relative_estimate_error_below_1e_7: Option<bool>,
    pub repeated_root_contract_met: Option<bool>,
}

/// The checks of the v1.0 report that compare the three linear cases.
#[derive(Debug, Clone, Copy, PartialEq, Eq, Structural)]
pub struct GlobalChecks {
    pub linear_forward_errors_identical: bool,
    pub residual_order_flat_unit_steep: bool,
    pub condition_order_flat_unit_steep: bool,
}

/// How the scale of a linear equation compares with one.
#[derive(Debug, Clone, Copy, PartialEq, Eq, Structural)]
pub enum ScaleToUnit {
    Below,
    Unit,
    Above,
}

/// The shape of a conditioning case.
#[derive(Debug, Clone, Copy, PartialEq, Eq, Structural)]
pub enum CaseKind {
    /// `scale * (x - root)`
    Linear(ScaleToUnit),
    /// `x^3 - x - 2`
    Cubic,
    /// `(x - root)^2`
    Repeated,
}

/// The prespecified diagnostic classifications.
#[derive(Debug, Clone, Copy, PartialEq, Eq, Structural)]
pub enum Classification {
    SmallResidualHighSensitivity,
    ResidualTracksError,
    LargeResidualLowSensitivity,
    LocalLinearizationValid,
    SimpleRootDiagnosticUnavailable,
}

/// The report label of a classification.
pub open spec fn classification_label(c: Classification) -> Seq<char> {
    match c {
        Classification::SmallResidualHighSensitivity => "small-residual-high-sensitivity"@,
        Classification::ResidualTracksError => "residual-tracks-error"@,
        Classification::LargeResidualLowSensitivity => "large-residual-low-sensitivity"@,
        Classification::LocalLinearizationValid => "local-linearization-valid"@,
        Classification::SimpleRootDiagnosticUnavailable => "simple-root-diagnostic-unavailable"@,
    }
}

impl Classification {
    /// The report label of this classification.
    pub fn label(&self) -> (label: &'static str)
        ensures
            label@ == classification_label(*self),
    {
        match self {
            Classification::SmallResidualHighSensitivity => "small-residual-high-sensitivity",
            Classification::ResidualTracksError => "residual-tracks-error",
            Classification::LargeResidualLowSensitivity => "large-residual-low-sensitivity",
            Classification::LocalLinearizationValid => "local-linearization-valid",
            Classification::SimpleRootDiagnosticUnavailable => "simple-root-diagnostic-unavailable",
        }
    }
}

/// The classification that a case of the given kind must carry: a flat
/// linear scale makes the residual small but the root sensitive, a steep one
/// the reverse, a unit scale lets the residual track the error, a simple
/// cubic root admits the local linearization, and a repeated root does not.
pub open spec fn expected_classification(kind: CaseKind) -> Classification {
    match kind {
        CaseKind::Linear(ScaleToUnit::Below) => Classification::SmallResidualHighSensitivity,
        CaseKind::Linear(ScaleToUnit::Above) => Classification::LargeResidualLowSensitivity,
        CaseKind::Linear(ScaleToUnit::Unit) => Classification::ResidualTracksError,
        CaseKind::Cubic => Classification::LocalLinearizationValid,
        CaseKind::Repeated => Classification::SimpleRootDiagnosticUnavailable,
    }
}

/// Whether a case of the given kind carries the classification it must.
pub fn classification_matches(kind: CaseKind, classification: Classification) -> (matches: bool)
    ensures
        matches == (classification == expected_classification(kind)),
{
    let expected = match kind {
        CaseKind::Linear(ScaleToUnit::Below) => Classification::SmallResidualHighSensitivity,
        CaseKind::Linear(ScaleToUnit::Above) => Classification::LargeResidualLowSensitivity,
        CaseKind::Linear(ScaleToUnit::Unit) => Classification::ResidualTracksError,
        CaseKind::Cubic => Classification::LocalLinearizationValid,
        CaseKind::Repeated => Classification::SimpleRootDiagnosticUnavailable,
    };
    classification == expected
}

/// `true` where a check does not apply to a case, its result where it does.
pub open spec fn holds_or_absent(check: Option<bool>) -> bool {
    match check {
        Some(result) => result,
        None => true,
    }
}

/// A case passes when its required values are finite, its classification
/// matches, and every kind-specific check that applies to it holds.
pub open spec fn case_passed(checks: ConditioningChecks) -> bool {
    &&& checks.finite_required_values
    &&& checks.classification_matches
    &&& holds_or_absent(checks.linear_estimate_matches_forward_error)
    &&& holds_or_absent(checks.cubic_relative_estimate_error_below_1e_7)
    &&& holds_or_absent(checks.repeated_root_contract_met)
}

/// The global checks all hold.
pub open spec fn global_checks_hold(global: GlobalChecks) -> bool {
    &&& global.linear_forward_errors_identical
    &&& global.residual_order_flat_unit_steep
    &&& global.condition_order_flat_unit_steep
}

/// The report meets all its expectations when every case passed and every
/// global check holds.
pub open spec fn expectations_met(cases_passed: Seq<bool>, global: GlobalChecks) -> bool {
    &&& forall|i: int| 0 <= i < cases_passed.len() ==> #[trigger] cases_passed[i]
    &&& global_checks_hold(global)
}

/// A case passes exactly when its required values are finite, its
/// classification matches, and no kind-specific check is present and false;
/// in particular a failed linear, cubic or repeated-root check fails the case.
pub proof fn case_passes_only_with_every_present_check(checks: ConditioningChecks)
    ensures
        case_passed(checks) <==> (checks.finite_required_values && checks.classification_matches
            && checks.linear_estimate_matches_forward_error != Some(false)
            && checks.cubic_relative_estimate_error_below_1e_7 != Some(false)
            && checks.repeated_root_contract_met != Some(false)),
        checks.linear_estimate_matches_forward_error == Some(false) ==> !case_passed(checks),
        checks.cubic_relative_estimate_error_below_1e_7 == Some(false) ==> !case_passed(checks),
        checks.repeated_root_contract_met == Some(false) ==> !case_passed(checks),
{
}

/// The report meets its expectations exactly when every case, at every
/// index, passed and all three global checks hold; one failed case at any
/// index fails the report.
pub proof fn report_fails_with_any_failed_case(cases_passed: Seq<bool>, global: GlobalChecks)
    ensures
        expectations_met(cases_passed, global) <==> ((forall|i: int|
            0 <= i < cases_passed.len() ==> cases_passed[i] == true)
            && global.linear_forward_errors_identical && global.residual_order_flat_unit_steep
            && global.condition_order_flat_unit_steep),
        forall|i: int|
            0 <= i < cases_passed.len() && !cases_passed[i] ==> !expectations_met(
                cases_passed,
                global,
            ),
{
}

impl ConditioningChecks {
    /// The checks of a case of the given kind: whether its required values
    /// are finite, whether its classification matches its kind, and the
    /// result of its kind's own criterion (the linear estimate against the
    /// forward error, the cubic relative estimate error, or the repeated-root
    /// contract), placed under its kind alone.
    pub fn for_case(
        kind: CaseKind,
        classification: Classification,
        finite_required_values: bool,
        kind_criterion_met: bool,
    ) -> (checks: ConditioningChecks)
        ensures
            checks.finite_required_values == finite_required_values,
            checks.classification_matches == (classification == expected_classification(kind)),
            checks.linear_estimate_matches_forward_error == (if kind is Linear {
                Some(kind_criterion_met)
            } else {
                None
            }),
            checks.cubic_relative_estimate_error_below_1e_7 == (if kind is Cubic {
                Some(kind_criterion_met)
            } else {
                None
            }),
            checks.repeated_root_contract_met == (if kind is Repeated {
                Some(kind_criterion_met)
            } else {
                None
            }),
    {
        let (linear, cubic, repeated) = match kind {
            CaseKind::Linear(_) => (Some(kind_criterion_met), None, None),
            CaseKind::Cubic => (None, Some(kind_criterion_met), None),
            CaseKind::Repeated => (None, None, Some(kind_criterion_met)),
        };
        ConditioningChecks {
            finite_required_values,
            classification_matches: classification_matches(kind, classification),
            linear_estimate_matches_forward_error: linear,
            cubic_relative_estimate_error_below_1e_7: cubic,
            repeated_root_contract_met: repeated,
        }
    }

    /// Whether the case passes.
    pub fn passed(&self) -> (passed: bool)
        ensures
            passed == case_passed(*self),
            passed <==> (self.finite_required_values && self.classification_matches
                && self.linear_estimate_matches_forward_error != Some(false)
                && self.cubic_relative_estimate_error_below_1e_7 != Some(false)
                && self.repeated_root_contract_met != Some(false)),
    {
        self.finite_required_values && self.classification_matches && holds_unless_absent(
            self.linear_estimate_matches_forward_error,
        ) && holds_unless_absent(self.cubic_relative_estimate_error_below_1e_7)
            && holds_unless_absent(self.repeated_root_contract_met)
    }
}

fn holds_unless_absent(check: Option<bool>) -> (holds: bool)
    ensures
        holds == holds_or_absent(check),
{
    match check {
        Some(result) => result,
        None => true,
    }
}

impl GlobalChecks {
    /// Whether every global check holds.
    pub fn hold(&self) -> (hold: bool)
        ensures
            hold == global_checks_hold(*self),
    {
        self.linear_forward_errors_identical && self.residual_order_flat_unit_steep
            && self.condition_order_flat_unit_steep
    }
}

/// Whether the report meets all its expectations, given whether each case passed.
pub fn all_expectations_met(cases_passed: &Vec<bool>, global: &GlobalChecks) -> (met: bool)
    ensures
        met == expectations_met(cases_passed@, *global),
        met <==> ((forall|i: int| 0 <= i < cases_passed@.len() ==> cases_passed@[i] == true)
            && global.linear_forward_errors_identical && global.residual_order_flat_unit_steep
            && global.condition_order_flat_unit_steep),
        forall|i: int| 0 <= i < cases_passed@.len() && !cases_passed@[i] ==> !met,
{
    let mut i: usize = 0;
    while i < cases_passed.len()
        invariant
            i <= cases_passed@.len(),
            forall|j: int| 0 <= j < i ==> #[trigger] cases_passed@[j],
        decreases cases_passed@.len() - i,
    {
        if !cases_passed[i] {
            return false;
        }
        i = i + 1;
    }
    global.hold()
}

} // verus!
