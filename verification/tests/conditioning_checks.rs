use mathlab_wasm::conditioning::{
    all_expectations_met, classification_matches, CaseKind, Classification, ConditioningChecks,
    GlobalChecks, ScaleToUnit, PROTOCOL_COMMIT,
};

fn all_global() -> GlobalChecks {
    GlobalChecks {
        linear_forward_errors_identical: true,
        residual_order_flat_unit_steep: true,
        condition_order_flat_unit_steep: true,
    }
}

#[test]
fn each_kind_expects_its_classification() {
    let flat = CaseKind::Linear(ScaleToUnit::Below);
    let unit = CaseKind::Linear(ScaleToUnit::Unit);
    let steep = CaseKind::Linear(ScaleToUnit::Above);
    assert!(classification_matches(flat, Classification::SmallResidualHighSensitivity));
    assert!(classification_matches(unit, Classification::ResidualTracksError));
    assert!(classification_matches(steep, Classification::LargeResidualLowSensitivity));
    assert!(classification_matches(CaseKind::Cubic, Classification::LocalLinearizationValid));
    assert!(classification_matches(
        CaseKind::Repeated,
        Classification::SimpleRootDiagnosticUnavailable
    ));
    assert!(!classification_matches(flat, Classification::ResidualTracksError));
    assert!(!classification_matches(CaseKind::Cubic, Classification::SimpleRootDiagnosticUnavailable));
}

#[test]
fn classification_labels() {
    assert_eq!(
        Classification::SmallResidualHighSensitivity.label(),
        "small-residual-high-sensitivity"
    );
    assert_eq!(Classification::ResidualTracksError.label(), "residual-tracks-error");
    assert_eq!(
        Classification::LargeResidualLowSensitivity.label(),
        "large-residual-low-sensitivity"
    );
    assert_eq!(Classification::LocalLinearizationValid.label(), "local-linearization-valid");
    assert_eq!(
        Classification::SimpleRootDiagnosticUnavailable.label(),
        "simple-root-diagnostic-unavailable"
    );
    assert_eq!(PROTOCOL_COMMIT, "97b21a2");
}

#[test]
fn kind_specific_check_is_placed_under_its_kind() {
    let linear = ConditioningChecks::for_case(
        CaseKind::Linear(ScaleToUnit::Unit),
        Classification::ResidualTracksError,
        true,
        true,
    );
    assert_eq!(
        linear,
        ConditioningChecks {
            finite_required_values: true,
            classification_matches: true,
            linear_estimate_matches_forward_error: Some(true),
            cubic_relative_estimate_error_below_1e_7: None,
            repeated_root_contract_met: None,
        }
    );
    let cubic = ConditioningChecks::for_case(
        CaseKind::Cubic,
        Classification::LocalLinearizationValid,
        true,
        false,
    );
    assert_eq!(cubic.cubic_relative_estimate_error_below_1e_7, Some(false));
    assert_eq!(cubic.linear_estimate_matches_forward_error, None);
    assert_eq!(cubic.repeated_root_contract_met, None);
    let repeated = ConditioningChecks::for_case(
        CaseKind::Repeated,
        Classification::SimpleRootDiagnosticUnavailable,
        false,
        true,
    );
    assert_eq!(repeated.repeated_root_contract_met, Some(true));
    assert!(!repeated.finite_required_values);
}

#[test]
fn case_passes_only_when_every_applicable_check_holds() {
    let good = ConditioningChecks::for_case(
        CaseKind::Repeated,
        Classification::SimpleRootDiagnosticUnavailable,
        true,
        true,
    );
    assert!(good.passed());
    let failed_criterion = ConditioningChecks::for_case(
        CaseKind::Cubic,
        Classification::LocalLinearizationValid,
        true,
        false,
    );
    assert!(!failed_criterion.passed());
    let misclassified = ConditioningChecks::for_case(
        CaseKind::Linear(ScaleToUnit::Above),
        Classification::ResidualTracksError,
        true,
        true,
    );
    assert!(!misclassified.passed());
    let not_finite = ConditioningChecks::for_case(
        CaseKind::Linear(ScaleToUnit::Below),
        Classification::SmallResidualHighSensitivity,
        false,
        true,
    );
    assert!(!not_finite.passed());
}

#[test]
fn report_expectations_need_every_case_and_global_check() {
    assert!(all_expectations_met(&vec![true; 5], &all_global()));
    assert!(all_expectations_met(&vec![], &all_global()));
    assert!(!all_expectations_met(&vec![true, true, false, true, true], &all_global()));
    let broken = GlobalChecks { residual_order_flat_unit_steep: false, ..all_global() };
    assert!(!broken.hold());
    assert!(all_global().hold());
    assert!(!all_expectations_met(&vec![true; 5], &broken));
}
