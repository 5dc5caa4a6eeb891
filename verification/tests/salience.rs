use daneel::actors::salience::types::{
    EmotionalContext, EmotionalState, RateRequest, SalienceError, SalienceMessage, SalienceResponse, WeightUpdate,
};
use daneel::actors::salience::{base_connection_relevance, is_kinship_content, kinship_relevance_from_predicate, SalienceState};
use daneel::the_box::invariants::MIN_CONNECTION_WEIGHT;
use daneel::the_box::types::{Content, SalienceScore, SalienceWeights};

fn sal_bits(x: f32) -> u32 {
    x.to_bits()
}

#[test]
fn tests_rate_request_creation() {
    let content = Content::symbol("test", vec![]);
    let request = RateRequest::new(content.clone());

    assert_eq!(request.content, content);
    assert!(request.context.is_none());
}

#[test]
fn tests_rate_request_with_context() {
    let content = Content::symbol("test", vec![]);
    let emo_ctx = EmotionalContext {
        human_connection: true,
        focus_area: Some("test".to_string()),
        previous_salience: None,
    };

    let request = RateRequest::with_context(content.clone(), emo_ctx.clone());

    assert_eq!(request.content, content);
    assert_eq!(request.context, Some(emo_ctx));
}

#[test]
fn default_weights_respect_invariant() {
    let weights = SalienceWeights::default();
    assert!(f32::from_bits(weights.connection) >= f32::from_bits(MIN_CONNECTION_WEIGHT));
}

#[test]
fn weight_update_new_valid() {
    let weights = SalienceWeights {
        importance: sal_bits(0.2),
        novelty: sal_bits(0.2),
        relevance: sal_bits(0.2),
        valence: sal_bits(0.2),
        connection: sal_bits(0.2),
    };
    let result = WeightUpdate::new(weights);
    assert!(result.is_ok());
    assert_eq!(result.unwrap().weights(), weights);
}

#[test]
fn types_rate_request_creation() {
    let request = RateRequest::new(Content::Empty);
    assert!(request.context.is_none());
}

#[test]
fn types_rate_request_with_context() {
    let context = EmotionalContext { human_connection: true, ..Default::default() };
    let request = RateRequest::with_context(Content::Empty, context.clone());
    assert_eq!(request.context, Some(context));
}

#[test]
fn emotional_context_default() {
    let context = EmotionalContext::default();
    assert_eq!(context.previous_salience, None);
    assert!(!context.human_connection);
    assert_eq!(context.focus_area, None);
}

#[test]
fn rate_request_debug_and_clone() {
    let request = RateRequest::new(Content::Empty);
    let cloned = request.clone();
    let debug_str = format!("{:?}", cloned);
    assert!(debug_str.contains("RateRequest"));
}

#[test]
fn emotional_context_partial_eq() {
    let ctx1 = EmotionalContext {
        previous_salience: Some(SalienceScore::new(sal_bits(0.5), sal_bits(0.5), sal_bits(0.5), sal_bits(0.5), sal_bits(0.5), sal_bits(0.5))),
        human_connection: true,
        focus_area: Some("test".to_string()),
    };
    let ctx2 = ctx1.clone();
    assert_eq!(ctx1, ctx2);
}

#[test]
fn weight_update_enforces_connection_invariant() {
    let result = WeightUpdate::from_values(sal_bits(0.2), sal_bits(0.2), sal_bits(0.2), sal_bits(0.2), sal_bits(0.0));
    assert!(matches!(result, Err(SalienceError::ConnectionDriveViolation { .. })));
}

#[test]
fn weight_update_rejects_minimum_violation() {
    let result = WeightUpdate::from_values(sal_bits(0.2), sal_bits(0.2), sal_bits(0.2), sal_bits(0.2), sal_bits(0.0001));
    assert!(matches!(result, Err(SalienceError::ConnectionDriveViolation { .. })));
}

#[test]
fn weight_update_accepts_minimum_boundary() {
    let result = WeightUpdate::from_values(sal_bits(0.2), sal_bits(0.2), sal_bits(0.2), sal_bits(0.2), MIN_CONNECTION_WEIGHT);
    assert!(result.is_ok());
}

#[test]
fn weight_update_rejects_nan_connection() {
    let result = WeightUpdate::from_values(sal_bits(0.2), sal_bits(0.2), sal_bits(0.2), sal_bits(0.2), sal_bits(f32::NAN));
    assert!(result.is_err());
}

#[test]
fn update_weights_keeps_connection_drive() {
    let mut state = SalienceState::new();
    let update = WeightUpdate::from_values(sal_bits(0.25), sal_bits(0.25), sal_bits(0.25), sal_bits(0.15), sal_bits(0.1)).unwrap();
    assert!(state.update_weights(update).is_ok());
    assert_eq!(state.weights.connection, sal_bits(0.1));
}

#[test]
fn emotional_state_is_clamped() {
    let mut state = SalienceState::new();
    state.update_emotional_state(EmotionalState::new(sal_bits(1.5), sal_bits(-0.5), sal_bits(0.3), sal_bits(0.7)));
    assert_eq!(state.emotional_state, EmotionalState::new(sal_bits(1.0), sal_bits(0.0), sal_bits(0.3), sal_bits(0.7)));
    assert_eq!(EmotionalState::default(), EmotionalState::new(sal_bits(0.5), sal_bits(0.5), sal_bits(0.0), sal_bits(0.5)));
}

#[test]
fn kinship_detection() {
    assert!(is_kinship_content("BestFriend"));
    assert!(is_kinship_content("COMMUNITY garden"));
    assert!(!is_kinship_content("rock"));
    assert_eq!(kinship_relevance_from_predicate("Loves"), sal_bits(0.9));
    assert_eq!(kinship_relevance_from_predicate("helps"), sal_bits(0.8));
    assert_eq!(kinship_relevance_from_predicate("joins"), sal_bits(0.7));
    assert_eq!(kinship_relevance_from_predicate("is_a"), sal_bits(0.4));
}

#[test]
fn base_connection_by_content_kind() {
    assert_eq!(base_connection_relevance(&Content::Empty), 0);
    assert_eq!(base_connection_relevance(&Content::raw(vec![1])), sal_bits(0.2));
    assert_eq!(base_connection_relevance(&Content::symbol("family", vec![])), sal_bits(0.7));
    assert_eq!(base_connection_relevance(&Content::symbol("stone", vec![])), sal_bits(0.3));
    let rel = Content::relation(Content::Empty, "trusts", Content::Empty);
    assert_eq!(base_connection_relevance(&rel), sal_bits(0.9));
}

fn equal_weights(x: f32) -> SalienceWeights {
    SalienceWeights {
        importance: sal_bits(x),
        novelty: sal_bits(x),
        relevance: sal_bits(x),
        valence: sal_bits(x),
        connection: sal_bits(x),
    }
}

#[test]
fn state_creation_with_custom_weights() {
    let weights = SalienceWeights {
        importance: sal_bits(0.3),
        novelty: sal_bits(0.2),
        relevance: sal_bits(0.3),
        valence: sal_bits(0.1),
        connection: sal_bits(0.1),
    };
    let state = SalienceState::with_weights(weights);
    assert_eq!(state.weights, weights);
}

#[test]
fn connection_weight_cannot_be_zero() {
    let result = WeightUpdate::from_values(sal_bits(0.2), sal_bits(0.2), sal_bits(0.2), sal_bits(0.2), sal_bits(0.0));
    assert!(matches!(result, Err(SalienceError::ConnectionDriveViolation { .. })));
}

#[test]
fn connection_weight_cannot_be_negative() {
    let result = WeightUpdate::from_values(sal_bits(0.2), sal_bits(0.2), sal_bits(0.2), sal_bits(0.2), sal_bits(-0.1));
    assert!(matches!(result, Err(SalienceError::ConnectionDriveViolation { .. })));
}

#[test]
fn connection_weight_cannot_be_below_minimum() {
    let result = WeightUpdate::from_values(sal_bits(0.2), sal_bits(0.2), sal_bits(0.2), sal_bits(0.2), sal_bits(0.0001));
    assert!(matches!(result, Err(SalienceError::ConnectionDriveViolation { .. })));
}

#[test]
fn connection_weight_at_minimum_is_allowed() {
    let result = WeightUpdate::from_values(sal_bits(0.2), sal_bits(0.2), sal_bits(0.2), sal_bits(0.2), MIN_CONNECTION_WEIGHT);
    assert!(result.is_ok());
}

#[test]
fn connection_weight_above_minimum_is_allowed() {
    let result = WeightUpdate::from_values(sal_bits(0.2), sal_bits(0.2), sal_bits(0.2), sal_bits(0.2), sal_bits(0.5));
    assert!(result.is_ok());
}

#[test]
fn weight_update_enforces_invariant() {
    let invalid_weights = SalienceWeights { connection: sal_bits(0.0), ..equal_weights(0.25) };
    let result = WeightUpdate::new(invalid_weights);
    assert!(matches!(
        result,
        Err(SalienceError::ConnectionDriveViolation { attempted, minimum })
            if attempted == sal_bits(0.0) && minimum == MIN_CONNECTION_WEIGHT
    ));
}

#[test]
fn state_update_weights_enforces_invariant() {
    let mut state = SalienceState::new();
    let valid_update = WeightUpdate::from_values(sal_bits(0.2), sal_bits(0.2), sal_bits(0.2), sal_bits(0.2), sal_bits(0.2)).unwrap();
    assert!(state.update_weights(valid_update).is_ok());
    assert_eq!(state.weights.connection, sal_bits(0.2));
    let invalid_result = WeightUpdate::from_values(sal_bits(0.2), sal_bits(0.2), sal_bits(0.2), sal_bits(0.2), sal_bits(0.0));
    assert!(invalid_result.is_err());
}

#[test]
fn emotional_state_neutral_default() {
    let state = EmotionalState::neutral();
    assert_eq!(state.curiosity, sal_bits(0.5));
    assert_eq!(state.satisfaction, sal_bits(0.5));
    assert_eq!(state.frustration, sal_bits(0.0));
    assert_eq!(state.connection_drive, sal_bits(0.5));
}

#[test]
fn tests_emotional_state_clamping() {
    let state = EmotionalState::new(sal_bits(2.0), sal_bits(-1.0), sal_bits(1.5), sal_bits(0.5)).clamped();
    assert_eq!(state.curiosity, sal_bits(1.0));
    assert_eq!(state.satisfaction, sal_bits(0.0));
    assert_eq!(state.frustration, sal_bits(1.0));
    assert_eq!(state.connection_drive, sal_bits(0.5));
}

#[test]
fn salience_state_default_equals_new() {
    let default_state = SalienceState::default();
    let new_state = SalienceState::new();
    assert_eq!(default_state.weights, new_state.weights);
    assert_eq!(default_state.emotional_state, new_state.emotional_state);
}

#[test]
fn weight_update_allows_valid_connection_weight() {
    let result = WeightUpdate::from_values(sal_bits(0.2), sal_bits(0.2), sal_bits(0.2), sal_bits(0.2), sal_bits(0.2));
    assert!(result.is_ok());
}

#[test]
fn weight_update_new_invalid() {
    let weights = SalienceWeights { connection: sal_bits(0.0), ..equal_weights(0.2) };
    let result = WeightUpdate::new(weights);
    assert!(matches!(result, Err(SalienceError::ConnectionDriveViolation { .. })));
}

#[test]
fn emotional_state_neutral() {
    let state = EmotionalState::neutral();
    assert_eq!(state.curiosity, sal_bits(0.5));
    assert_eq!(state.satisfaction, sal_bits(0.5));
    assert_eq!(state.frustration, sal_bits(0.0));
    assert_eq!(state.connection_drive, sal_bits(0.5));
}

#[test]
fn emotional_state_default() {
    let state = EmotionalState::default();
    let neutral = EmotionalState::neutral();
    assert_eq!(state, neutral);
}

#[test]
fn types_emotional_state_clamping() {
    let state = EmotionalState::new(sal_bits(1.5), sal_bits(-0.5), sal_bits(2.0), sal_bits(0.5)).clamped();
    assert_eq!(state.curiosity, sal_bits(1.0));
    assert_eq!(state.satisfaction, sal_bits(0.0));
    assert_eq!(state.frustration, sal_bits(1.0));
    assert_eq!(state.connection_drive, sal_bits(0.5));
}

#[test]
fn emotional_state_clamping_connection_drive() {
    let state = EmotionalState::new(sal_bits(0.5), sal_bits(0.5), sal_bits(0.5), sal_bits(1.5)).clamped();
    assert_eq!(state.connection_drive, sal_bits(1.0));
    let state2 = EmotionalState::new(sal_bits(0.5), sal_bits(0.5), sal_bits(0.5), sal_bits(-0.5)).clamped();
    assert_eq!(state2.connection_drive, sal_bits(0.0));
}

#[test]
fn salience_message_debug_and_clone() {
    let msg = SalienceMessage::Rate(RateRequest::new(Content::Empty));
    let cloned = msg.clone();
    assert!(format!("{:?}", cloned).contains("Rate"));

    let msg_batch = SalienceMessage::RateBatch(vec![RateRequest::new(Content::Empty)]);
    assert!(format!("{:?}", msg_batch.clone()).contains("RateBatch"));

    let msg_update = SalienceMessage::UpdateWeights(
        WeightUpdate::from_values(sal_bits(0.2), sal_bits(0.2), sal_bits(0.2), sal_bits(0.2), sal_bits(0.2)).unwrap(),
    );
    assert!(format!("{:?}", msg_update.clone()).contains("UpdateWeights"));

    let msg_get_weights = SalienceMessage::GetWeights;
    assert!(format!("{:?}", msg_get_weights.clone()).contains("GetWeights"));

    let msg_get_emotional = SalienceMessage::GetEmotionalState;
    assert!(format!("{:?}", msg_get_emotional.clone()).contains("GetEmotionalState"));
}

#[test]
fn salience_response_variants() {
    let weights = equal_weights(0.2);
    let half = sal_bits(0.5);
    let score = SalienceScore::new(half, half, half, half, half, half);

    let resp_score = SalienceResponse::Score(score);
    assert_eq!(resp_score, resp_score.clone());
    assert!(format!("{:?}", resp_score).contains("Score"));

    let resp_batch = SalienceResponse::ScoreBatch(vec![score]);
    assert_eq!(resp_batch, resp_batch.clone());
    assert!(format!("{:?}", resp_batch).contains("ScoreBatch"));

    let resp_updated = SalienceResponse::WeightsUpdated(weights);
    assert_eq!(resp_updated, resp_updated.clone());
    assert!(format!("{:?}", resp_updated).contains("WeightsUpdated"));

    let resp_weights = SalienceResponse::Weights(weights);
    assert_eq!(resp_weights, resp_weights.clone());
    assert!(format!("{:?}", resp_weights).contains("Weights("));

    let resp_emotional = SalienceResponse::EmotionalState(EmotionalState::neutral());
    assert_eq!(resp_emotional, resp_emotional.clone());
    assert!(format!("{:?}", resp_emotional).contains("EmotionalState"));

    let resp_error = SalienceResponse::Error(SalienceError::InvalidWeight { field: "test".to_string(), value: sal_bits(0.0) });
    assert_eq!(resp_error, resp_error.clone());
    assert!(format!("{:?}", resp_error).contains("Error"));
}

#[test]
fn weight_update_partial_eq() {
    let update1 = WeightUpdate::from_values(sal_bits(0.2), sal_bits(0.2), sal_bits(0.2), sal_bits(0.2), sal_bits(0.2)).unwrap();
    let update2 = WeightUpdate::from_values(sal_bits(0.2), sal_bits(0.2), sal_bits(0.2), sal_bits(0.2), sal_bits(0.2)).unwrap();
    assert_eq!(update1, update2);
}

#[test]
fn emotional_state_copy() {
    let state = EmotionalState::neutral();
    let copied = state;
    assert_eq!(state, copied);
}
