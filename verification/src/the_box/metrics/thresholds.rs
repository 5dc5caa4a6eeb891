//! Cognitive state thresholds: the single source of truth for the boundaries
//! between the emergent, balanced and clockwork states.
use vstd::prelude::*;
use vstd::string::*;
use crate::ieee::{Real, spec_lt, real_lt, lemma_real_order};

verus! {

/// Threshold of the emergent state (0.65).
pub const EMERGENT_THRESHOLD: Real = 0x3F26_6666;

/// Threshold of the balanced state (0.35).
pub const BALANCED_THRESHOLD: Real = 0x3EB3_3333;

/// Cognitive state derived from a normalised entropy or fractality score.
#[derive(Debug, Clone, Copy, PartialEq, Eq, Structural)]
pub enum CognitiveState {
    /// High cognitive diversity - emergent patterns
    Emergent,
    /// Healthy middle ground - balanced processing
    Balanced,
    /// Low diversity - routine processing
    Clockwork,
}

/// The state of a score: emergent above 0.65, balanced above 0.35, clockwork
/// otherwise (NaN included).
pub open spec fn state_of(score: Real) -> CognitiveState {
    if spec_lt(EMERGENT_THRESHOLD, score) {
        CognitiveState::Emergent
    } else if spec_lt(BALANCED_THRESHOLD, score) {
        CognitiveState::Balanced
    } else {
        CognitiveState::Clockwork
    }
}

/// The order of the states, from clockwork up to emergent.
pub open spec fn state_level(s: CognitiveState) -> nat {
    match s {
        CognitiveState::Clockwork => 0,
        CognitiveState::Balanced => 1,
        CognitiveState::Emergent => 2,
    }
}

/// The display name of a state.
pub open spec fn state_name(s: CognitiveState) -> Seq<char> {
    match s {
        CognitiveState::Emergent => "EMERGENT"@,
        CognitiveState::Balanced => "BALANCED"@,
        CognitiveState::Clockwork => "CLOCKWORK"@,
    }
}

impl CognitiveState {
    /// The state of a normalised score (0.0 - 1.0).
    pub fn from_score(score: Real) -> (s: CognitiveState)
        ensures
            s == state_of(score),
    {
        if real_lt(EMERGENT_THRESHOLD, score) {
            CognitiveState::Emergent
        } else if real_lt(BALANCED_THRESHOLD, score) {
            CognitiveState::Balanced
        } else {
            CognitiveState::Clockwork
        }
    }

    /// The display name of the state.
    pub fn as_str(&self) -> (s: &'static str)
        ensures
            s@ == state_name(*self),
    {
        match self {
            CognitiveState::Emergent => "EMERGENT",
            CognitiveState::Balanced => "BALANCED",
            CognitiveState::Clockwork => "CLOCKWORK",
        }
    }

    /// The display name of the state, owned.
    pub fn to_string(&self) -> (s: String)
        ensures
            s@ == state_name(*self),
    {
        String::from_str(self.as_str())
    }
}

/// A higher score never gives a lower state.
pub proof fn lemma_state_monotone(a: Real, b: Real)
    requires
        spec_lt(a, b),
    ensures
        state_level(state_of(a)) <= state_level(state_of(b)),
{
    lemma_real_order(EMERGENT_THRESHOLD, a, b);
    lemma_real_order(BALANCED_THRESHOLD, a, b);
}

} // verus!
