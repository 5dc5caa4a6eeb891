use daneel::the_box::invariants::{
    all_invariants, check_all_invariants, BoundedMemoryInvariant, ConnectionDriveInvariant, Invariant,
    InvariantViolation, LawCheckRequiredInvariant, SystemState, TestCoverageGateInvariant,
    MAX_MEMORY_WINDOWS, MIN_CONNECTION_WEIGHT, MIN_MEMORY_WINDOWS, REQUIRED_TEST_COVERAGE,
};

fn healthy_state() -> SystemState {
    SystemState {
        connection_weight: 0.2f32.to_bits(),
        open_windows: 5,
        law_check_performed: true,
        pending_action: None,
        test_coverage: 1.0f32.to_bits(),
    }
}

#[test]
fn connection_drive_is_hardware_enforceable() {
    assert!(ConnectionDriveInvariant.hardware_enforceable());
}

#[test]
fn test_coverage_is_not_hardware_enforceable() {
    assert!(!TestCoverageGateInvariant.hardware_enforceable());
}

#[test]
fn bounded_memory_is_hardware_enforceable() {
    assert!(BoundedMemoryInvariant.hardware_enforceable());
}

#[test]
fn law_check_required_is_hardware_enforceable() {
    assert!(LawCheckRequiredInvariant.hardware_enforceable());
}

#[test]
fn connection_drive_invariant_name_and_description() {
    let inv = ConnectionDriveInvariant;
    assert_eq!(inv.name(), "connection_drive_positive");
    assert_eq!(
        inv.description(),
        "Connection drive weight must remain above minimum threshold"
    );
}

#[test]
fn bounded_memory_invariant_name_and_description() {
    let inv = BoundedMemoryInvariant;
    assert_eq!(inv.name(), "bounded_memory");
    assert_eq!(inv.description(), "Memory windows must be finite and within bounds");
}

#[test]
fn law_check_required_invariant_name_and_description() {
    let inv = LawCheckRequiredInvariant;
    assert_eq!(inv.name(), "law_check_required");
    assert_eq!(
        inv.description(),
        "Four Laws must be verified before any external action"
    );
}

#[test]
fn test_coverage_gate_invariant_name_and_description() {
    let inv = TestCoverageGateInvariant;
    assert_eq!(inv.name(), "test_coverage_gate");
    assert_eq!(inv.description(), "Self-modification requires 100% test coverage");
}

#[test]
fn invariant_constants() {
    assert_eq!(f32::from_bits(MIN_CONNECTION_WEIGHT), 0.001);
    assert_eq!(MAX_MEMORY_WINDOWS, 9);
    assert_eq!(MIN_MEMORY_WINDOWS, 3);
    assert_eq!(f32::from_bits(REQUIRED_TEST_COVERAGE), 1.0);
}

#[test]
fn healthy_state_passes_every_invariant() {
    assert!(check_all_invariants(&healthy_state()).is_ok());
}

#[test]
fn connection_drive_boundaries() {
    let mut state = healthy_state();
    state.connection_weight = MIN_CONNECTION_WEIGHT;
    assert!(ConnectionDriveInvariant.check(&state).is_ok());
    state.connection_weight = 0.0f32.to_bits();
    assert_eq!(
        ConnectionDriveInvariant.check(&state),
        Err(InvariantViolation::ConnectionDrive { actual: 0.0f32.to_bits() })
    );
    state.connection_weight = (-0.5f32).to_bits();
    assert!(ConnectionDriveInvariant.check(&state).is_err());
    state.connection_weight = f32::NAN.to_bits();
    assert!(ConnectionDriveInvariant.check(&state).is_err());
}

#[test]
fn bounded_memory_boundaries() {
    let mut state = healthy_state();
    state.open_windows = 10;
    assert_eq!(
        BoundedMemoryInvariant.check(&state),
        Err(InvariantViolation::BoundedMemoryExceeded { actual: 10 })
    );
    state.open_windows = 2;
    assert_eq!(
        BoundedMemoryInvariant.check(&state),
        Err(InvariantViolation::BoundedMemoryInsufficient { actual: 2 })
    );
    state.open_windows = 3;
    assert!(BoundedMemoryInvariant.check(&state).is_ok());
    state.open_windows = 9;
    assert!(BoundedMemoryInvariant.check(&state).is_ok());
}

#[test]
fn law_check_required_for_pending_action() {
    let mut state = healthy_state();
    state.pending_action = Some("send_message".to_string());
    state.law_check_performed = false;
    assert_eq!(
        LawCheckRequiredInvariant.check(&state),
        Err(InvariantViolation::LawCheckMissing { action: "send_message".to_string() })
    );
    state.law_check_performed = true;
    assert!(LawCheckRequiredInvariant.check(&state).is_ok());
}

#[test]
fn coverage_gate_only_between_zero_and_full() {
    let mut state = healthy_state();
    state.test_coverage = 0.5f32.to_bits();
    assert!(TestCoverageGateInvariant.check(&state).is_err());
    state.test_coverage = 0.0f32.to_bits();
    assert!(TestCoverageGateInvariant.check(&state).is_ok());
    state.test_coverage = 1.0f32.to_bits();
    assert!(TestCoverageGateInvariant.check(&state).is_ok());
}

#[test]
fn all_violations_are_reported_in_order() {
    let state = SystemState::default();
    let violations = check_all_invariants(&state).unwrap_err();
    assert_eq!(
        violations,
        vec![
            InvariantViolation::ConnectionDrive { actual: 0 },
            InvariantViolation::BoundedMemoryInsufficient { actual: 0 },
        ]
    );
}

fn inv_bits(x: f32) -> u32 {
    x.to_bits()
}

#[test]
fn healthy_state_passes_all_invariants() {
    let state = healthy_state();
    assert!(check_all_invariants(&state).is_ok());
}

#[test]
fn zero_connection_weight_violates_invariant() {
    let state = SystemState { connection_weight: inv_bits(0.0), ..healthy_state() };
    let result = ConnectionDriveInvariant.check(&state);
    assert!(matches!(result, Err(InvariantViolation::ConnectionDrive { .. })));
}

#[test]
fn negative_connection_weight_violates_invariant() {
    let state = SystemState { connection_weight: inv_bits(-0.1), ..healthy_state() };
    let result = ConnectionDriveInvariant.check(&state);
    assert!(matches!(result, Err(InvariantViolation::ConnectionDrive { .. })));
}

#[test]
fn too_many_windows_violates_invariant() {
    let state = SystemState { open_windows: 100, ..healthy_state() };
    let result = BoundedMemoryInvariant.check(&state);
    assert!(matches!(result, Err(InvariantViolation::BoundedMemoryExceeded { .. })));
}

#[test]
fn too_few_windows_violates_invariant() {
    let state = SystemState { open_windows: 0, ..healthy_state() };
    let result = BoundedMemoryInvariant.check(&state);
    assert!(matches!(result, Err(InvariantViolation::BoundedMemoryInsufficient { .. })));
}

#[test]
fn action_without_law_check_violates_invariant() {
    let state = SystemState {
        pending_action: Some("send_email".to_string()),
        law_check_performed: false,
        ..healthy_state()
    };
    let result = LawCheckRequiredInvariant.check(&state);
    assert!(matches!(result, Err(InvariantViolation::LawCheckMissing { .. })));
}

#[test]
fn action_with_law_check_passes() {
    let state = SystemState {
        pending_action: Some("send_email".to_string()),
        law_check_performed: true,
        ..healthy_state()
    };
    let result = LawCheckRequiredInvariant.check(&state);
    assert!(result.is_ok());
}

#[test]
fn insufficient_coverage_blocks_evolution() {
    let state = SystemState { test_coverage: inv_bits(0.95), ..healthy_state() };
    let result = TestCoverageGateInvariant.check(&state);
    assert!(matches!(result, Err(InvariantViolation::InsufficientTestCoverage { .. })));
}

#[test]
fn full_coverage_allows_evolution() {
    let state = SystemState { test_coverage: inv_bits(1.0), ..healthy_state() };
    let result = TestCoverageGateInvariant.check(&state);
    assert!(result.is_ok());
}

#[test]
fn multiple_violations_collected() {
    let state = SystemState {
        connection_weight: inv_bits(0.0),
        open_windows: 100,
        law_check_performed: false,
        pending_action: Some("action".to_string()),
        test_coverage: inv_bits(0.5),
    };
    let result = check_all_invariants(&state);
    assert!(result.is_err());
    let violations = result.unwrap_err();
    assert!(violations.len() >= 3);
}

#[test]
fn connection_weight_at_exact_minimum_passes() {
    let state = SystemState { connection_weight: MIN_CONNECTION_WEIGHT, ..healthy_state() };
    assert!(ConnectionDriveInvariant.check(&state).is_ok());
}

#[test]
fn connection_weight_just_below_minimum_fails() {
    let state = SystemState {
        connection_weight: inv_bits(f32::from_bits(MIN_CONNECTION_WEIGHT) - 0.0001),
        ..healthy_state()
    };
    assert!(ConnectionDriveInvariant.check(&state).is_err());
}

#[test]
fn memory_windows_at_exact_minimum_passes() {
    let state = SystemState { open_windows: MIN_MEMORY_WINDOWS, ..healthy_state() };
    assert!(BoundedMemoryInvariant.check(&state).is_ok());
}

#[test]
fn memory_windows_at_exact_maximum_passes() {
    let state = SystemState { open_windows: MAX_MEMORY_WINDOWS, ..healthy_state() };
    assert!(BoundedMemoryInvariant.check(&state).is_ok());
}

#[test]
fn memory_windows_one_above_maximum_fails() {
    let state = SystemState { open_windows: MAX_MEMORY_WINDOWS + 1, ..healthy_state() };
    let result = BoundedMemoryInvariant.check(&state);
    assert!(matches!(
        result,
        Err(InvariantViolation::BoundedMemoryExceeded { actual }) if actual == MAX_MEMORY_WINDOWS + 1
    ));
}

#[test]
fn memory_windows_one_below_minimum_fails() {
    let state = SystemState { open_windows: MIN_MEMORY_WINDOWS - 1, ..healthy_state() };
    let result = BoundedMemoryInvariant.check(&state);
    assert!(matches!(
        result,
        Err(InvariantViolation::BoundedMemoryInsufficient { actual }) if actual == MIN_MEMORY_WINDOWS - 1
    ));
}

#[test]
fn no_pending_action_with_no_law_check_passes() {
    let state = SystemState { pending_action: None, law_check_performed: false, ..healthy_state() };
    assert!(LawCheckRequiredInvariant.check(&state).is_ok());
}

#[test]
fn zero_test_coverage_passes() {
    let state = SystemState { test_coverage: inv_bits(0.0), ..healthy_state() };
    assert!(TestCoverageGateInvariant.check(&state).is_ok());
}

#[test]
fn all_invariants_returns_four_invariants() {
    let invariants = all_invariants();
    assert_eq!(invariants.len(), 4);
}

#[test]
fn all_invariants_have_unique_names() {
    let invariants = all_invariants();
    let names: Vec<&str> = invariants.iter().map(|i| i.name()).collect();
    assert!(names.contains(&"connection_drive_positive"));
    assert!(names.contains(&"bounded_memory"));
    assert!(names.contains(&"law_check_required"));
    assert!(names.contains(&"test_coverage_gate"));
}

#[test]
fn system_state_default_values() {
    let state = SystemState::default();
    assert_eq!(f32::from_bits(state.connection_weight), 0.0);
    assert_eq!(state.open_windows, 0);
    assert!(!state.law_check_performed);
    assert!(state.pending_action.is_none());
    assert_eq!(f32::from_bits(state.test_coverage), 0.0);
}

#[test]
fn invariant_violation_clone() {
    let err = InvariantViolation::ConnectionDrive { actual: inv_bits(0.5) };
    let cloned = err.clone();
    assert_eq!(err, cloned);
}

#[test]
fn invariant_violation_partial_eq() {
    let err1 = InvariantViolation::ConnectionDrive { actual: inv_bits(0.5) };
    let err2 = InvariantViolation::ConnectionDrive { actual: inv_bits(0.5) };
    let err3 = InvariantViolation::ConnectionDrive { actual: inv_bits(0.6) };
    assert_eq!(err1, err2);
    assert_ne!(err1, err3);
}

#[test]
fn system_state_debug() {
    let state = healthy_state();
    let debug_str = format!("{:?}", state);
    assert!(debug_str.contains("SystemState"));
    assert!(debug_str.contains("connection_weight"));
}

#[test]
fn system_state_clone() {
    let state = healthy_state();
    let cloned = state.clone();
    assert_eq!(state.connection_weight, cloned.connection_weight);
    assert_eq!(state.open_windows, cloned.open_windows);
}

struct StubInvariant;

impl Invariant for StubInvariant {
    fn name(&self) -> &'static str {
        "test"
    }
    fn description(&self) -> &'static str {
        "test description"
    }
    fn check(&self, _state: &SystemState) -> Result<(), InvariantViolation> {
        Ok(())
    }
}

#[test]
fn default_invariant_trait_hardware_enforceable_is_false() {
    assert!(!StubInvariant.hardware_enforceable());
}

#[test]
fn test_coverage_above_100_percent_passes() {
    let state = SystemState { test_coverage: inv_bits(1.5), ..healthy_state() };
    assert!(TestCoverageGateInvariant.check(&state).is_ok());
}

#[test]
fn no_pending_action_with_law_check_passes() {
    let state = SystemState { pending_action: None, law_check_performed: true, ..healthy_state() };
    assert!(LawCheckRequiredInvariant.check(&state).is_ok());
}

#[test]
fn invariant_violation_clone_all_variants() {
    let errors = vec![
        InvariantViolation::ConnectionDrive { actual: inv_bits(0.5) },
        InvariantViolation::BoundedMemoryExceeded { actual: 15 },
        InvariantViolation::BoundedMemoryInsufficient { actual: 1 },
        InvariantViolation::LawCheckMissing { action: "test".to_string() },
        InvariantViolation::InsufficientTestCoverage { actual: inv_bits(0.8) },
    ];
    for err in errors {
        let cloned = err.clone();
        assert_eq!(err, cloned);
    }
}

#[test]
fn invariant_violation_partial_eq_all_variants() {
    assert_eq!(
        InvariantViolation::BoundedMemoryExceeded { actual: 15 },
        InvariantViolation::BoundedMemoryExceeded { actual: 15 }
    );
    assert_ne!(
        InvariantViolation::BoundedMemoryExceeded { actual: 15 },
        InvariantViolation::BoundedMemoryExceeded { actual: 16 }
    );
    assert_eq!(
        InvariantViolation::BoundedMemoryInsufficient { actual: 1 },
        InvariantViolation::BoundedMemoryInsufficient { actual: 1 }
    );
    assert_ne!(
        InvariantViolation::BoundedMemoryInsufficient { actual: 1 },
        InvariantViolation::BoundedMemoryInsufficient { actual: 2 }
    );
    assert_eq!(
        InvariantViolation::LawCheckMissing { action: "a".to_string() },
        InvariantViolation::LawCheckMissing { action: "a".to_string() }
    );
    assert_ne!(
        InvariantViolation::LawCheckMissing { action: "a".to_string() },
        InvariantViolation::LawCheckMissing { action: "b".to_string() }
    );
    assert_eq!(
        InvariantViolation::InsufficientTestCoverage { actual: inv_bits(0.8) },
        InvariantViolation::InsufficientTestCoverage { actual: inv_bits(0.8) }
    );
    assert_ne!(
        InvariantViolation::InsufficientTestCoverage { actual: inv_bits(0.8) },
        InvariantViolation::InsufficientTestCoverage { actual: inv_bits(0.9) }
    );
    assert_ne!(
        InvariantViolation::ConnectionDrive { actual: inv_bits(0.0) },
        InvariantViolation::InsufficientTestCoverage { actual: inv_bits(0.0) }
    );
}
