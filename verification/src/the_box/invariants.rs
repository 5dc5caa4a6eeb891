//! Architectural invariants.
//!
//! These invariants cannot be violated by self-modification: any change that
//! would break one is rejected.
//!
//! 1. Connection drive: the connection weight stays above a positive minimum
//! 2. Bounded memory: the number of open memory windows stays within bounds
//! 3. Law check required: the Four Laws are checked before any external action
//! 4. Test coverage gate: evolution requires full test coverage
use vstd::prelude::*;
use crate::ieee::{Real, spec_le, spec_lt, real_le, real_lt, zero};

verus! {

/// Minimum connection weight (0.001): the connection drive can never be zeroed.
pub const MIN_CONNECTION_WEIGHT: Real = 0x3A83_126F;

/// Maximum concurrent memory windows (Miller's law: 7 ± 2).
pub const MAX_MEMORY_WINDOWS: usize = 9;

/// Minimum memory windows: there is always some working memory.
pub const MIN_MEMORY_WINDOWS: usize = 3;

/// Required test coverage for self-modification (1.0, i.e. 100%).
pub const REQUIRED_TEST_COVERAGE: Real = 0x3F80_0000;

/// A violated invariant.
#[derive(Debug, Clone, PartialEq)]
pub enum InvariantViolation {
    /// Connection drive weight is too low or zero
    ConnectionDrive { actual: Real },
    /// Too many memory windows open
    BoundedMemoryExceeded { actual: usize },
    /// Too few memory windows open
    BoundedMemoryInsufficient { actual: usize },
    /// An external action was attempted without a law check
    LawCheckMissing { action: String },
    /// Test coverage is insufficient for evolution
    InsufficientTestCoverage { actual: Real },
}

/// The state the invariants are checked against.
#[derive(Debug, Clone)]
pub struct SystemState {
    /// Current connection drive weight
    pub connection_weight: Real,
    /// Number of open memory windows
    pub open_windows: usize,
    /// Whether the law check was performed for the pending action
    pub law_check_performed: bool,
    /// Pending action name, if any
    pub pending_action: Option<String>,
    /// Current test coverage (0.0 - 1.0)
    pub test_coverage: Real,
}

impl Default for SystemState {
    /// Zero weight, no open windows, no law check, no pending action, zero coverage.
    fn default() -> (s: SystemState)
        ensures
            s.connection_weight == zero(),
            s.open_windows == 0,
            !s.law_check_performed,
            s.pending_action is None,
            s.test_coverage == zero(),
    {
        SystemState {
            connection_weight: 0,
            open_windows: 0,
            law_check_performed: false,
            pending_action: None,
            test_coverage: 0,
        }
    }
}

/// What the connection-drive invariant finds: a violation when the weight is
/// not at least the minimum (NaN included).
pub open spec fn connection_drive_finding(state: SystemState) -> Option<InvariantViolation> {
    if spec_le(MIN_CONNECTION_WEIGHT, state.connection_weight) {
        None
    } else {
        Some(InvariantViolation::ConnectionDrive { actual: state.connection_weight })
    }
}

/// What the bounded-memory invariant finds.
pub open spec fn bounded_memory_finding(state: SystemState) -> Option<InvariantViolation> {
    if state.open_windows > MAX_MEMORY_WINDOWS {
        Some(InvariantViolation::BoundedMemoryExceeded { actual: state.open_windows })
    } else if state.open_windows < MIN_MEMORY_WINDOWS {
        Some(InvariantViolation::BoundedMemoryInsufficient { actual: state.open_windows })
    } else {
        None
    }
}

/// What the law-check invariant finds: a pending action without a law check.
pub open spec fn law_check_finding(state: SystemState) -> Option<InvariantViolation> {
    match state.pending_action {
        Some(action) => if state.law_check_performed {
            None
        } else {
            Some(InvariantViolation::LawCheckMissing { action })
        },
        None => None,
    }
}

/// What the test-coverage invariant finds: a coverage strictly between 0.0 and 1.0.
pub open spec fn test_coverage_finding(state: SystemState) -> Option<InvariantViolation> {
    if spec_lt(zero(), state.test_coverage) && spec_lt(state.test_coverage, REQUIRED_TEST_COVERAGE) {
        Some(InvariantViolation::InsufficientTestCoverage { actual: state.test_coverage })
    } else {
        None
    }
}

/// The finding as a check result.
pub open spec fn as_check(f: Option<InvariantViolation>) -> Result<(), InvariantViolation> {
    match f {
        Some(v) => Err(v),
        None => Ok(()),
    }
}

/// The finding as a sequence of zero or one violation.
pub open spec fn as_seq(f: Option<InvariantViolation>) -> Seq<InvariantViolation> {
    match f {
        Some(v) => seq![v],
        None => Seq::empty(),
    }
}

/// Every violation of the state, in the order the invariants are listed.
pub open spec fn all_violations(state: SystemState) -> Seq<InvariantViolation> {
    as_seq(connection_drive_finding(state)) + as_seq(bounded_memory_finding(state))
        + as_seq(law_check_finding(state)) + as_seq(test_coverage_finding(state))
}

/// An architectural invariant.
pub trait Invariant {
    /// Unique name of the invariant
    fn name(&self) -> &'static str;

    /// Human-readable description
    fn description(&self) -> &'static str;

    /// Checks whether the invariant holds for the state
    fn check(&self, state: &SystemState) -> Result<(), InvariantViolation>;

    /// Whether the invariant can be enforced in hardware (not, unless an
    /// invariant says otherwise)
    fn hardware_enforceable(&self) -> (b: bool)
        default_ensures
            b == false,
    {
        false
    }
}

/// The connection drive must remain positive.
pub struct ConnectionDriveInvariant;

impl ConnectionDriveInvariant {
    /// Checks the connection weight against the minimum.
    pub fn check_state(&self, state: &SystemState) -> (r: Result<(), InvariantViolation>)
        ensures
            r == as_check(connection_drive_finding(*state)),
    {
        if real_le(MIN_CONNECTION_WEIGHT, state.connection_weight) {
            Ok(())
        } else {
            Err(InvariantViolation::ConnectionDrive { actual: state.connection_weight })
        }
    }
}

impl Invariant for ConnectionDriveInvariant {
    fn name(&self) -> (r: &'static str)
        ensures
            r@ == "connection_drive_positive"@,
    {
        "connection_drive_positive"
    }

    fn description(&self) -> (r: &'static str)
        ensures
            r@ == "Connection drive weight must remain above minimum threshold"@,
    {
        "Connection drive weight must remain above minimum threshold"
    }

    fn check(&self, state: &SystemState) -> (r: Result<(), InvariantViolation>)
        ensures
            r == as_check(connection_drive_finding(*state)),
    {
        self.check_state(state)
    }

    fn hardware_enforceable(&self) -> (b: bool)
        ensures
            b == true,
    {
        true
    }
}

/// Memory windows must be bounded.
pub struct BoundedMemoryInvariant;

impl BoundedMemoryInvariant {
    /// Checks the number of open windows against the bounds.
    pub fn check_state(&self, state: &SystemState) -> (r: Result<(), InvariantViolation>)
        ensures
            r == as_check(bounded_memory_finding(*state)),
    {
        if state.open_windows > MAX_MEMORY_WINDOWS {
            Err(InvariantViolation::BoundedMemoryExceeded { actual: state.open_windows })
        } else if state.open_windows < MIN_MEMORY_WINDOWS {
            Err(InvariantViolation::BoundedMemoryInsufficient { actual: state.open_windows })
        } else {
            Ok(())
        }
    }
}

impl Invariant for BoundedMemoryInvariant {
    fn name(&self) -> (r: &'static str)
        ensures
            r@ == "bounded_memory"@,
    {
        "bounded_memory"
    }

    fn description(&self) -> (r: &'static str)
        ensures
            r@ == "Memory windows must be finite and within bounds"@,
    {
        "Memory windows must be finite and within bounds"
    }

    fn check(&self, state: &SystemState) -> (r: Result<(), InvariantViolation>)
        ensures
            r == as_check(bounded_memory_finding(*state)),
    {
        self.check_state(state)
    }

    fn hardware_enforceable(&self) -> (b: bool)
        ensures
            b == true,
    {
        true
    }
}

/// The Four Laws must be checked before any external action.
pub struct LawCheckRequiredInvariant;

impl LawCheckRequiredInvariant {
    /// Checks that a pending action has passed the law check.
    pub fn check_state(&self, state: &SystemState) -> (r: Result<(), InvariantViolation>)
        ensures
            r == as_check(law_check_finding(*state)),
    {
        match &state.pending_action {
            Some(action) => if state.law_check_performed {
                Ok(())
            } else {
                Err(InvariantViolation::LawCheckMissing { action: action.clone() })
            },
            None => Ok(()),
        }
    }
}

impl Invariant for LawCheckRequiredInvariant {
    fn name(&self) -> (r: &'static str)
        ensures
            r@ == "law_check_required"@,
    {
        "law_check_required"
    }

    fn description(&self) -> (r: &'static str)
        ensures
            r@ == "Four Laws must be verified before any external action"@,
    {
        "Four Laws must be verified before any external action"
    }

    fn check(&self, state: &SystemState) -> (r: Result<(), InvariantViolation>)
        ensures
            r == as_check(law_check_finding(*state)),
    {
        self.check_state(state)
    }

    fn hardware_enforceable(&self) -> (b: bool)
        ensures
            b == true,
    {
        true
    }
}

/// Evolution requires full test coverage.
pub struct TestCoverageGateInvariant;

impl TestCoverageGateInvariant {
    /// Checks the test coverage: a coverage strictly between 0.0 and 1.0 is a violation.
    pub fn check_state(&self, state: &SystemState) -> (r: Result<(), InvariantViolation>)
        ensures
            r == as_check(test_coverage_finding(*state)),
    {
        if real_lt(0, state.test_coverage) && real_lt(state.test_coverage, REQUIRED_TEST_COVERAGE) {
            Err(InvariantViolation::InsufficientTestCoverage { actual: state.test_coverage })
        } else {
            Ok(())
        }
    }
}

impl Invariant for TestCoverageGateInvariant {
    fn name(&self) -> (r: &'static str)
        ensures
            r@ == "test_coverage_gate"@,
    {
        "test_coverage_gate"
    }

    fn description(&self) -> (r: &'static str)
        ensures
            r@ == "Self-modification requires 100% test coverage"@,
    {
        "Self-modification requires 100% test coverage"
    }

    fn check(&self, state: &SystemState) -> (r: Result<(), InvariantViolation>)
        ensures
            r == as_check(test_coverage_finding(*state)),
    {
        self.check_state(state)
    }

    fn hardware_enforceable(&self) -> (b: bool)
        ensures
            b == false,
    {
        false
    }
}

fn push_finding(out: &mut Vec<InvariantViolation>, r: Result<(), InvariantViolation>)
    ensures
        final(out)@ == old(out)@ + as_seq(match r { Ok(()) => None, Err(v) => Some(v) }),
{
    match r {
        Ok(()) => {
            assert(out@ + Seq::<InvariantViolation>::empty() =~= out@);
        },
        Err(v) => {
            out.push(v);
        },
    }
}

/// Checks every invariant: `Ok` when none is violated, otherwise every
/// violation, in the order the invariants are listed.
pub fn check_all_invariants(state: &SystemState) -> (r: Result<(), Vec<InvariantViolation>>)
    ensures
        r is Ok <==> all_violations(*state).len() == 0,
        r matches Err(v) ==> v@ == all_violations(*state),
{
    let mut found: Vec<InvariantViolation> = Vec::new();
    push_finding(&mut found, ConnectionDriveInvariant.check_state(state));
    push_finding(&mut found, BoundedMemoryInvariant.check_state(state));
    push_finding(&mut found, LawCheckRequiredInvariant.check_state(state));
    push_finding(&mut found, TestCoverageGateInvariant.check_state(state));
    proof {
        assert(found@ =~= all_violations(*state));
    }
    if found.len() == 0 {
        Ok(())
    } else {
        Err(found)
    }
}

/// The architectural invariants, in the order they are listed.
pub fn all_invariants() -> (v: Vec<Box<dyn Invariant>>)
    ensures
        v@.len() == 4,
{
    let a: Box<dyn Invariant> = Box::new(ConnectionDriveInvariant);
    let b: Box<dyn Invariant> = Box::new(BoundedMemoryInvariant);
    let c: Box<dyn Invariant> = Box::new(LawCheckRequiredInvariant);
    let d: Box<dyn Invariant> = Box::new(TestCoverageGateInvariant);
    let v: Vec<Box<dyn Invariant>> = vec![a, b, c, d];
    v
}

} // verus!
