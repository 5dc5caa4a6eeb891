use daneel::the_box::metrics::entropy::COGNITIVE_DIVERSITY_BINS;
use daneel::the_box::metrics::fractality::{inter_arrival_millis, BURST_DIVISOR, BURST_WEIGHT, CV_DIVISOR, CV_WEIGHT};
use daneel::the_box::metrics::thresholds::{CognitiveState, BALANCED_THRESHOLD, EMERGENT_THRESHOLD};

#[test]
fn cognitive_state_as_str() {
    assert_eq!(CognitiveState::Emergent.as_str(), "EMERGENT");
    assert_eq!(CognitiveState::Balanced.as_str(), "BALANCED");
    assert_eq!(CognitiveState::Clockwork.as_str(), "CLOCKWORK");
}

#[test]
fn cognitive_state_display() {
    assert_eq!(format!("{}", CognitiveState::Emergent.to_string()), "EMERGENT");
    assert_eq!(format!("{}", CognitiveState::Balanced.to_string()), "BALANCED");
    assert_eq!(format!("{}", CognitiveState::Clockwork.to_string()), "CLOCKWORK");
}

#[test]
fn threshold_values_match_adr_054() {
    assert!((f32::from_bits(EMERGENT_THRESHOLD) - 0.65).abs() < f32::EPSILON);
    assert!((f32::from_bits(BALANCED_THRESHOLD) - 0.35).abs() < f32::EPSILON);
}

#[test]
fn cognitive_diversity_bins_is_five() {
    assert_eq!(COGNITIVE_DIVERSITY_BINS, 5);
}

#[test]
fn cv_divisor_matches_adr_054() {
    assert!((f32::from_bits(CV_DIVISOR) - 2.0).abs() < f32::EPSILON);
}

#[test]
fn burst_divisor_matches_adr_054() {
    assert!((f32::from_bits(BURST_DIVISOR) - 14.0).abs() < f32::EPSILON);
}

#[test]
fn weights_sum_to_one() {
    assert!((f32::from_bits(CV_WEIGHT) + f32::from_bits(BURST_WEIGHT) - 1.0).abs() < f32::EPSILON);
}

#[test]
fn module_exports_thresholds() {
    assert!(f32::from_bits(EMERGENT_THRESHOLD) > f32::from_bits(BALANCED_THRESHOLD));
}

#[test]
fn cognitive_state_from_score_emergent() {
    assert_eq!(CognitiveState::from_score(0.66f32.to_bits()), CognitiveState::Emergent);
    assert_eq!(CognitiveState::from_score(0.8f32.to_bits()), CognitiveState::Emergent);
    assert_eq!(CognitiveState::from_score(1.0f32.to_bits()), CognitiveState::Emergent);
}

#[test]
fn cognitive_state_from_score_balanced() {
    assert_eq!(CognitiveState::from_score(0.36f32.to_bits()), CognitiveState::Balanced);
    assert_eq!(CognitiveState::from_score(0.5f32.to_bits()), CognitiveState::Balanced);
    assert_eq!(CognitiveState::from_score(0.65f32.to_bits()), CognitiveState::Balanced);
}

#[test]
fn cognitive_state_from_score_clockwork() {
    assert_eq!(CognitiveState::from_score(0.0f32.to_bits()), CognitiveState::Clockwork);
    assert_eq!(CognitiveState::from_score(0.2f32.to_bits()), CognitiveState::Clockwork);
    assert_eq!(CognitiveState::from_score(0.35f32.to_bits()), CognitiveState::Clockwork);
    assert_eq!(CognitiveState::from_score((-1.0f32).to_bits()), CognitiveState::Clockwork);
    assert_eq!(CognitiveState::from_score(f32::NAN.to_bits()), CognitiveState::Clockwork);
}

#[test]
fn module_exports_cognitive_state() {
    let state = CognitiveState::from_score(0.5f32.to_bits());
    assert_eq!(state, CognitiveState::Balanced);
}

#[test]
fn inter_arrival_gaps_of_ascending_timestamps() {
    assert_eq!(inter_arrival_millis(&vec![1000, 1500, 3500]), vec![500, 2000]);
}

#[test]
fn inter_arrival_gaps_of_newest_first_timestamps() {
    assert_eq!(inter_arrival_millis(&vec![3500, 1500, 1000]), vec![500, 2000]);
}

#[test]
fn inter_arrival_gaps_need_two_timestamps() {
    assert!(inter_arrival_millis(&vec![]).is_empty());
    assert!(inter_arrival_millis(&vec![42]).is_empty());
}

#[test]
fn inter_arrival_gaps_never_go_negative() {
    assert_eq!(inter_arrival_millis(&vec![1000, 900, 2000]), vec![0, 1100]);
}
