//! Salience types: rating requests, emotional context and state, weight
//! updates and errors.
use vstd::prelude::*;
use vstd::string::*;
use crate::ieee::{Real, spec_le, spec_clamp, real_le, real_clamp};
use crate::the_box::invariants::MIN_CONNECTION_WEIGHT;
use crate::the_box::types::{Content, SalienceScore, SalienceWeights};

verus! {

/// Requests to the salience actor.
#[derive(Debug, Clone)]
pub enum SalienceMessage {
    /// Rate one piece of content
    Rate(RateRequest),
    /// Rate several pieces of content
    RateBatch(Vec<RateRequest>),
    /// Replace the weights
    UpdateWeights(WeightUpdate),
    /// The current weights
    GetWeights,
    /// The current emotional state
    GetEmotionalState,
}

/// Responses of the salience actor.
#[derive(Debug, Clone, PartialEq)]
pub enum SalienceResponse {
    /// Salience of one piece of content
    Score(SalienceScore),
    /// Salience of several pieces of content
    ScoreBatch(Vec<SalienceScore>),
    /// The weights were replaced
    WeightsUpdated(SalienceWeights),
    /// The current weights
    Weights(SalienceWeights),
    /// The current emotional state
    EmotionalState(EmotionalState),
    /// The request failed
    Error(SalienceError),
}

/// A request to rate content, optionally in an emotional context.
#[derive(Debug, Clone)]
pub struct RateRequest {
    /// Content to rate
    pub content: Content,
    /// Emotional context, if any
    pub context: Option<EmotionalContext>,
}

impl RateRequest {
    /// A request without context.
    pub fn new(content: Content) -> (r: RateRequest)
        ensures
            r == (RateRequest { content, context: None }),
    {
        RateRequest { content, context: None }
    }

    /// A request in an emotional context.
    pub fn with_context(content: Content, context: EmotionalContext) -> (r: RateRequest)
        ensures
            r == (RateRequest { content, context: Some(context) }),
    {
        RateRequest { content, context: Some(context) }
    }
}

/// The emotional context of a rating.
#[derive(Debug, Clone, PartialEq)]
pub struct EmotionalContext {
    /// Salience of the previous thought, if any
    pub previous_salience: Option<SalienceScore>,
    /// Whether a human is involved
    pub human_connection: bool,
    /// Current focus area, if any
    pub focus_area: Option<String>,
}

impl Default for EmotionalContext {
    /// No previous salience, no human involved, no focus.
    fn default() -> (c: EmotionalContext)
        ensures
            c == (EmotionalContext { previous_salience: None, human_connection: false, focus_area: None }),
    {
        EmotionalContext { previous_salience: None, human_connection: false, focus_area: None }
    }
}

/// A validated replacement of the salience weights: its connection weight is
/// never below `MIN_CONNECTION_WEIGHT`.
#[derive(Debug, Clone, Copy, PartialEq)]
pub struct WeightUpdate {
    weights: SalienceWeights,
}

impl WeightUpdate {
    /// The connection drive can never be weakened below its minimum.
    #[verifier::type_invariant]
    pub closed spec fn inv(self) -> bool {
        spec_le(MIN_CONNECTION_WEIGHT, self.weights.connection)
    }

    /// The weights of the update.
    pub closed spec fn spec_weights(self) -> SalienceWeights {
        self.weights
    }

    /// Validates new weights: refused with `ConnectionDriveViolation` when
    /// the connection weight is below `MIN_CONNECTION_WEIGHT` (or NaN).
    pub fn new(weights: SalienceWeights) -> (r: Result<WeightUpdate, SalienceError>)
        ensures
            spec_le(MIN_CONNECTION_WEIGHT, weights.connection) <==> (r is Ok),
            r matches Ok(u) ==> u.spec_weights() == weights,
            r matches Err(e) ==> e == (SalienceError::ConnectionDriveViolation {
                attempted: weights.connection,
                minimum: MIN_CONNECTION_WEIGHT,
            }),
    {
        if !real_le(MIN_CONNECTION_WEIGHT, weights.connection) {
            return Err(SalienceError::ConnectionDriveViolation {
                attempted: weights.connection,
                minimum: MIN_CONNECTION_WEIGHT,
            });
        }
        Ok(WeightUpdate { weights })
    }

    /// Validates weights given component by component (see `new`).
    pub fn from_values(importance: Real, novelty: Real, relevance: Real, valence: Real, connection: Real) -> (r: Result<WeightUpdate, SalienceError>)
        ensures
            spec_le(MIN_CONNECTION_WEIGHT, connection) <==> (r is Ok),
            r matches Ok(u) ==> u.spec_weights() == (SalienceWeights { importance, novelty, relevance, valence, connection }),
            r matches Err(e) ==> e == (SalienceError::ConnectionDriveViolation { attempted: connection, minimum: MIN_CONNECTION_WEIGHT }),
    {
        WeightUpdate::new(SalienceWeights { importance, novelty, relevance, valence, connection })
    }

    /// The weights of the update.
    pub fn weights(&self) -> (w: SalienceWeights)
        ensures
            w == self.spec_weights(),
            spec_le(MIN_CONNECTION_WEIGHT, w.connection),
    {
        proof {
            use_type_invariant(self);
        }
        self.weights
    }
}

/// The emotional state of the system.
#[derive(Debug, Clone, Copy, PartialEq, Eq, Structural)]
pub struct EmotionalState {
    /// Curiosity (0.0 - 1.0)
    pub curiosity: Real,
    /// Satisfaction (0.0 - 1.0)
    pub satisfaction: Real,
    /// Frustration (0.0 - 1.0)
    pub frustration: Real,
    /// Connection drive (0.0 - 1.0)
    pub connection_drive: Real,
}

/// The neutral emotional state: curiosity, satisfaction and connection drive
/// of 0.5, no frustration.
pub open spec fn neutral_emotions() -> EmotionalState {
    EmotionalState { curiosity: 0x3F00_0000, satisfaction: 0x3F00_0000, frustration: 0, connection_drive: 0x3F00_0000 }
}

/// A component clamped into [0.0, 1.0].
pub open spec fn unit_clamp(x: Real) -> Real {
    spec_clamp(x, 0, 0x3F80_0000)
}

impl EmotionalState {
    /// An emotional state with the given components.
    pub fn new(curiosity: Real, satisfaction: Real, frustration: Real, connection_drive: Real) -> (s: EmotionalState)
        ensures
            s == (EmotionalState { curiosity, satisfaction, frustration, connection_drive }),
    {
        EmotionalState { curiosity, satisfaction, frustration, connection_drive }
    }

    /// The neutral emotional state.
    pub fn neutral() -> (s: EmotionalState)
        ensures
            s == neutral_emotions(),
    {
        EmotionalState { curiosity: 0x3F00_0000, satisfaction: 0x3F00_0000, frustration: 0, connection_drive: 0x3F00_0000 }
    }

    /// The state with every component clamped into [0.0, 1.0].
    pub fn clamped(self) -> (s: EmotionalState)
        ensures
            s == (EmotionalState {
                curiosity: unit_clamp(self.curiosity),
                satisfaction: unit_clamp(self.satisfaction),
                frustration: unit_clamp(self.frustration),
                connection_drive: unit_clamp(self.connection_drive),
            }),
    {
        EmotionalState {
            curiosity: real_clamp(self.curiosity, 0, 0x3F80_0000),
            satisfaction: real_clamp(self.satisfaction, 0, 0x3F80_0000),
            frustration: real_clamp(self.frustration, 0, 0x3F80_0000),
            connection_drive: real_clamp(self.connection_drive, 0, 0x3F80_0000),
        }
    }
}

impl Default for EmotionalState {
    fn default() -> (s: EmotionalState)
        ensures
            s == neutral_emotions(),
    {
        EmotionalState::neutral()
    }
}

/// Salience errors.
#[derive(Debug, Clone, PartialEq)]
pub enum SalienceError {
    /// The connection weight would fall below its minimum
    ConnectionDriveViolation { attempted: Real, minimum: Real },
    /// A weight is invalid
    InvalidWeight { field: String, value: Real },
    /// An emotional component is outside [0.0, 1.0]
    InvalidEmotionalState { field: String, value: Real },
}

} // verus!
