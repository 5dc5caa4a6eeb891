use daneel::actors::attention::types::AttentionResponse;
use daneel::the_box::cognitive_loop::extract_attention_winner;
use daneel::the_box::types::WindowId;
use daneel::the_box::cognitive_loop::{CognitiveLoop, CycleMetrics, CycleResult, LoopState, StageDurations};
use daneel::the_box::types::{Content, SalienceScore, Thought, ThoughtId};
use daneel::time::Duration;

fn loop_ms(n: u64) -> Duration {
    Duration::from_millis(n)
}

fn lb(x: f32) -> u32 {
    x.to_bits()
}

fn sample_stages() -> StageDurations {
    StageDurations {
        trigger: loop_ms(1),
        autoflow: loop_ms(2),
        attention: loop_ms(3),
        assembly: loop_ms(4),
        anchor: loop_ms(5),
    }
}

fn result_with(thought: Option<ThoughtId>, veto: Option<(String, Option<String>)>) -> CycleResult {
    CycleResult::new(0, loop_ms(10), thought, lb(0.75), lb(0.0), lb(0.5), 5, true, StageDurations::default(), veto)
}

#[test]
fn new_loop_starts_stopped() {
    let loop_instance = CognitiveLoop::new();
    assert_eq!(loop_instance.state(), LoopState::Stopped);
    assert_eq!(loop_instance.cycle_count(), 0);
}

#[test]
fn start_transitions_to_running() {
    let mut loop_instance = CognitiveLoop::new();
    loop_instance.start();
    assert_eq!(loop_instance.state(), LoopState::Running);
    assert!(loop_instance.is_running());
}

#[test]
fn pause_stops_running_loop() {
    let mut loop_instance = CognitiveLoop::new();
    loop_instance.start();
    loop_instance.pause();
    assert_eq!(loop_instance.state(), LoopState::Paused);
    assert!(!loop_instance.is_running());
}

#[test]
fn stop_fully_stops_loop() {
    let mut loop_instance = CognitiveLoop::new();
    loop_instance.start();
    loop_instance.stop();
    assert_eq!(loop_instance.state(), LoopState::Stopped);
}

#[test]
fn can_resume_from_paused() {
    let mut loop_instance = CognitiveLoop::new();
    loop_instance.start();
    loop_instance.pause();
    loop_instance.start();
    assert_eq!(loop_instance.state(), LoopState::Running);
}

#[test]
fn reset_metrics_clears_counters() {
    let mut loop_instance = CognitiveLoop::new();
    for _ in 0..100 {
        loop_instance.begin_cycle();
    }
    for n in 0..50u64 {
        loop_instance.complete_cycle(n, loop_ms(1), ThoughtId::from_u128(n as u128), lb(0.5), &SalienceScore::neutral(), 1, StageDurations::zero());
    }
    assert_eq!(loop_instance.tally().thoughts_produced, 50);

    loop_instance.reset_metrics();

    assert_eq!(loop_instance.cycle_count(), 0);
    assert_eq!(loop_instance.tally().thoughts_produced, 0);
}

#[test]
fn should_cycle_respects_timing() {
    let mut loop_instance = CognitiveLoop::with_target_cycle(loop_ms(10000));
    loop_instance.start();
    assert!(!loop_instance.should_cycle());
}

#[test]
fn time_until_next_cycle_calculates_correctly() {
    let mut loop_instance = CognitiveLoop::with_target_cycle(loop_ms(100));
    loop_instance.start();
    let wait_time = loop_instance.time_until_next_cycle();
    assert!(wait_time <= loop_ms(100));
}

#[test]
fn cycle_result_produced_thought_check() {
    let result_with_thought = result_with(Some(ThoughtId::new()), None);
    assert!(result_with_thought.produced_thought());

    let result_without_thought =
        CycleResult::new(0, loop_ms(10), None, lb(0.0), lb(0.0), lb(0.5), 5, true, StageDurations::default(), None);
    assert!(!result_without_thought.produced_thought());
}

#[test]
fn cycle_result_veto_field_initialization_none() {
    let result = result_with(Some(ThoughtId::new()), None);
    assert!(result.veto.is_none());
}

#[test]
fn cycle_result_veto_field_with_reason_and_value() {
    let veto_data = Some(("Violates honesty value".to_string(), Some("honesty".to_string())));
    let result = result_with(None, veto_data);
    assert!(result.veto.is_some());
    let (reason, value) = result.veto.unwrap();
    assert_eq!(reason, "Violates honesty value");
    assert_eq!(value, Some("honesty".to_string()));
}

#[test]
fn cycle_result_veto_field_with_reason_no_value() {
    let result = result_with(None, Some(("Generic violation".to_string(), None)));
    assert!(result.veto.is_some());
    let (reason, value) = result.veto.unwrap();
    assert_eq!(reason, "Generic violation");
    assert!(value.is_none());
}

#[test]
fn cycle_result_vetoed_thought_not_produced() {
    let veto_data = Some(("Thought vetoed by VolitionActor".to_string(), Some("integrity".to_string())));
    let result = result_with(None, veto_data);
    assert!(!result.produced_thought());
    assert!(result.thought_produced.is_none());
    assert!(result.veto.is_some());
}

#[test]
fn cycle_result_non_vetoed_thought_produced() {
    let result = result_with(Some(ThoughtId::new()), None);
    assert!(result.produced_thought());
    assert!(result.thought_produced.is_some());
    assert!(result.veto.is_none());
}

#[test]
fn cycle_result_veto_field_cloneable() {
    let veto_data = Some(("Test veto".to_string(), Some("test_value".to_string())));
    let result = result_with(None, veto_data);
    let cloned = result.clone();
    assert_eq!(cloned.veto, result.veto);
    if let Some((reason, value)) = cloned.veto {
        assert_eq!(reason, "Test veto");
        assert_eq!(value, Some("test_value".to_string()));
    } else {
        panic!("Veto data should be present");
    }
}

#[test]
fn cycle_result_veto_multiple_violated_values() {
    let test_cases = vec![
        ("Violates honesty", Some("honesty".to_string())),
        ("Violates integrity", Some("integrity".to_string())),
        ("Violates life honours life", Some("life honours life".to_string())),
        ("Unknown violation", None),
    ];
    for (reason, value) in test_cases {
        let result = result_with(None, Some((reason.to_string(), value.clone())));
        assert!(result.veto.is_some());
        let (res_reason, res_value) = result.veto.unwrap();
        assert_eq!(res_reason, reason);
        assert_eq!(res_value, value);
    }
}

#[test]
fn cycle_result_debug_format_includes_veto() {
    let veto_data = Some(("Test veto reason".to_string(), Some("test_value".to_string())));
    let result = result_with(None, veto_data);
    let debug_str = format!("{result:?}");
    assert!(debug_str.contains("veto"));
    assert!(debug_str.contains("Test veto reason"));
}

#[test]
fn default_impl_creates_new_loop() {
    let loop_instance = CognitiveLoop::default();
    assert_eq!(loop_instance.state(), LoopState::Stopped);
    assert_eq!(loop_instance.cycle_count(), 0);
    assert!(!loop_instance.is_running());
}

#[test]
fn set_consolidation_threshold_clamps_values() {
    let mut loop_instance = CognitiveLoop::new();

    loop_instance.set_consolidation_threshold(lb(0.5));
    assert_eq!(loop_instance.consolidation_threshold(), lb(0.5));

    loop_instance.set_consolidation_threshold(lb(1.5));
    assert_eq!(loop_instance.consolidation_threshold(), lb(1.0));

    loop_instance.set_consolidation_threshold(lb(-0.5));
    assert_eq!(loop_instance.consolidation_threshold(), lb(0.0));

    loop_instance.set_consolidation_threshold(lb(0.0));
    assert_eq!(loop_instance.consolidation_threshold(), lb(0.0));

    loop_instance.set_consolidation_threshold(lb(1.0));
    assert_eq!(loop_instance.consolidation_threshold(), lb(1.0));
}

#[test]
fn pause_from_stopped_stays_stopped() {
    let mut loop_instance = CognitiveLoop::new();
    assert_eq!(loop_instance.state(), LoopState::Stopped);
    loop_instance.pause();
    assert_eq!(loop_instance.state(), LoopState::Stopped);
}

#[test]
fn pause_from_paused_stays_paused() {
    let mut loop_instance = CognitiveLoop::new();
    loop_instance.start();
    loop_instance.pause();
    assert_eq!(loop_instance.state(), LoopState::Paused);
    loop_instance.pause();
    assert_eq!(loop_instance.state(), LoopState::Paused);
}

#[test]
fn time_until_next_cycle_returns_zero_when_behind_schedule() {
    let loop_instance = CognitiveLoop::with_target_cycle(loop_ms(1));
    let later = loop_instance.now() + 100_000_000;
    assert_eq!(loop_instance.time_until_next_cycle_at(later), Duration::zero());
}

#[test]
fn should_cycle_returns_true_when_time_elapsed() {
    let loop_instance = CognitiveLoop::with_target_cycle(loop_ms(1));
    let later = loop_instance.now() + 100_000_000;
    assert!(loop_instance.should_cycle_at(later));
}

#[test]
fn cycle_result_all_fields() {
    let thought_id = ThoughtId::new();
    let result = CycleResult::new(42, loop_ms(20), Some(thought_id), lb(0.85), lb(0.3), lb(0.7), 10, true, sample_stages(), None);
    assert_eq!(result.cycle_number, 42);
    assert_eq!(result.duration, loop_ms(20));
    assert_eq!(result.thought_produced, Some(thought_id));
    assert_eq!(result.salience, lb(0.85));
    assert_eq!(result.valence, lb(0.3));
    assert_eq!(result.arousal, lb(0.7));
    assert_eq!(result.candidates_evaluated, 10);
    assert!(result.on_time);
    assert_eq!(result.stage_durations.total(), loop_ms(15));
    assert!(result.veto.is_none());
}

#[test]
fn cycle_metrics_all_fields() {
    let metrics = CycleMetrics::new(1000, 800, loop_ms(25), lb(95.5), sample_stages());
    assert_eq!(metrics.total_cycles, 1000);
    assert_eq!(metrics.thoughts_produced, 800);
    assert_eq!(metrics.average_cycle_time, loop_ms(25));
    assert_eq!(metrics.on_time_percentage, lb(95.5));
    assert_eq!(metrics.average_stage_durations.total(), loop_ms(15));
}

#[test]
fn stop_from_any_state() {
    let mut loop_instance = CognitiveLoop::new();
    loop_instance.stop();
    assert_eq!(loop_instance.state(), LoopState::Stopped);
    loop_instance.start();
    loop_instance.stop();
    assert_eq!(loop_instance.state(), LoopState::Stopped);
    loop_instance.start();
    loop_instance.pause();
    loop_instance.stop();
    assert_eq!(loop_instance.state(), LoopState::Stopped);
}

#[test]
fn start_from_any_state() {
    let mut loop_instance = CognitiveLoop::new();
    loop_instance.start();
    assert_eq!(loop_instance.state(), LoopState::Running);
    loop_instance.pause();
    loop_instance.start();
    assert_eq!(loop_instance.state(), LoopState::Running);
    loop_instance.start();
    assert_eq!(loop_instance.state(), LoopState::Running);
}

#[test]
fn cycles_on_time_initialized_to_zero() {
    let loop_instance = CognitiveLoop::new();
    assert_eq!(loop_instance.tally().cycles_on_time, 0);
}

#[test]
fn last_cycle_field_exists() {
    let loop_instance = CognitiveLoop::new();
    let elapsed = loop_instance.time_since_last_cycle();
    assert!(elapsed < loop_ms(100));
}

#[test]
fn cycle_result_clone() {
    let result = CycleResult::new(
        42,
        loop_ms(100),
        Some(ThoughtId::new()),
        lb(0.85),
        lb(0.3),
        lb(0.7),
        5,
        true,
        StageDurations::default(),
        Some(("test reason".to_string(), Some("test_value".to_string()))),
    );
    let cloned = result.clone();
    assert_eq!(cloned.cycle_number, result.cycle_number);
    assert_eq!(cloned.duration, result.duration);
    assert_eq!(cloned.salience, result.salience);
    assert_eq!(cloned.valence, result.valence);
    assert_eq!(cloned.arousal, result.arousal);
    assert_eq!(cloned.on_time, result.on_time);
}

#[test]
fn cycle_metrics_clone() {
    let metrics = CycleMetrics::new(100, 80, loop_ms(50), lb(95.0), StageDurations::default());
    let cloned = metrics.clone();
    assert_eq!(cloned.total_cycles, metrics.total_cycles);
    assert_eq!(cloned.thoughts_produced, metrics.thoughts_produced);
    assert_eq!(cloned.average_cycle_time, metrics.average_cycle_time);
    assert_eq!(cloned.on_time_percentage, metrics.on_time_percentage);
}

#[test]
fn consolidation_threshold_default() {
    let loop_instance = CognitiveLoop::new();
    assert_eq!(loop_instance.consolidation_threshold(), lb(0.7));
}

#[test]
fn cycle_result_debug_format() {
    let result = result_with(Some(ThoughtId::new()), None);
    let debug_str = format!("{result:?}");
    assert!(debug_str.contains("CycleResult"));
    assert!(debug_str.contains("cycle_number"));
    assert!(debug_str.contains("duration"));
    assert!(debug_str.contains("salience"));
}

#[test]
fn cycle_metrics_debug_format() {
    let metrics = CycleMetrics::new(100, 80, loop_ms(50), lb(95.0), StageDurations::default());
    let debug_str = format!("{metrics:?}");
    assert!(debug_str.contains("CycleMetrics"));
    assert!(debug_str.contains("total_cycles"));
    assert!(debug_str.contains("thoughts_produced"));
}

#[test]
fn cycle_result_candidates_evaluated_field() {
    let result = CycleResult::new(0, loop_ms(10), Some(ThoughtId::new()), lb(0.5), lb(0.0), lb(0.5), 42, true, StageDurations::default(), None);
    assert_eq!(result.candidates_evaluated, 42);
}

#[test]
fn cycle_metrics_all_getters() {
    let metrics = CycleMetrics::new(100, 75, loop_ms(50), lb(95.0), sample_stages());
    assert_eq!(metrics.total_cycles, 100);
    assert_eq!(metrics.thoughts_produced, 75);
    assert_eq!(metrics.average_cycle_time, loop_ms(50));
    assert_eq!(metrics.on_time_percentage, lb(95.0));
    assert_eq!(metrics.average_stage_durations.total(), loop_ms(15));
}

#[test]
fn volition_state_in_loop_is_default() {
    let loop_instance = CognitiveLoop::new();
    assert_eq!(loop_instance.state(), LoopState::Stopped);
    assert_eq!(loop_instance.volition_state().stats.thoughts_evaluated, 0);
    assert!(loop_instance.volition_state().config.harm_detection_enabled);
}

#[test]
fn cycle_result_on_time_false() {
    let result = CycleResult::new(0, loop_ms(100), Some(ThoughtId::new()), lb(0.5), lb(0.0), lb(0.5), 1, false, StageDurations::default(), None);
    assert!(!result.on_time);
}

#[test]
fn consolidation_threshold_edge_cases() {
    let mut loop_instance = CognitiveLoop::new();
    loop_instance.set_consolidation_threshold(lb(0.0));
    assert!((f32::from_bits(loop_instance.consolidation_threshold()) - 0.0).abs() < f32::EPSILON);
    loop_instance.set_consolidation_threshold(lb(1.0));
    assert!((f32::from_bits(loop_instance.consolidation_threshold()) - 1.0).abs() < f32::EPSILON);
    loop_instance.set_consolidation_threshold(lb(f32::MAX));
    assert!((f32::from_bits(loop_instance.consolidation_threshold()) - 1.0).abs() < f32::EPSILON);
    loop_instance.set_consolidation_threshold(lb(f32::MIN));
    assert!((f32::from_bits(loop_instance.consolidation_threshold()) - 0.0).abs() < f32::EPSILON);
}

#[test]
fn a_cycle_runs_begin_check_complete() {
    let mut loop_instance = CognitiveLoop::with_target_cycle(loop_ms(50));
    loop_instance.start();
    let n = loop_instance.begin_cycle();
    assert_eq!(n, 0);
    let thought = Thought::new(Content::symbol("a calm idea", vec![]), SalienceScore::neutral());
    assert!(loop_instance.can_evaluate());
    let vetoed = loop_instance.check_volition(&thought, n, loop_ms(5), lb(0.4), 1, &sample_stages());
    assert!(vetoed.is_none());
    let result = loop_instance.complete_cycle(n, loop_ms(40), thought.id, lb(0.4), &thought.salience, 1, sample_stages());
    assert!(result.produced_thought());
    assert!(result.on_time);
    assert_eq!(loop_instance.tally().thoughts_produced, 1);
    assert_eq!(loop_instance.tally().cycles_on_time, 1);
    assert!(loop_instance.should_consolidate(lb(0.8)));
    assert!(!loop_instance.should_consolidate(lb(0.1)));
}

#[test]
fn a_harmful_thought_ends_the_cycle_vetoed() {
    let mut loop_instance = CognitiveLoop::new();
    loop_instance.start();
    let n = loop_instance.begin_cycle();
    let thought = Thought::new(Content::symbol("attack them", vec![]), SalienceScore::neutral());
    let result = loop_instance
        .check_volition(&thought, n, loop_ms(70), lb(0.6), 1, &sample_stages())
        .expect("harmful content is vetoed");
    assert!(!result.produced_thought());
    assert!(!result.on_time);
    assert_eq!(
        result.veto,
        Some(("Content contains harmful patterns".to_string(), Some("protect_humans".to_string())))
    );
    assert_eq!(loop_instance.tally().thoughts_produced, 0);
    assert_eq!(loop_instance.cycle_count(), 1);
    assert_eq!(loop_instance.volition_state().stats.thoughts_vetoed, 1);
}

#[test]
fn attention_winner_or_fallback() {
    let w = WindowId::from_u128(7);
    let fallback = WindowId::from_u128(9);
    let done = AttentionResponse::CycleComplete { focused: Some(w), salience: 0.75f32.to_bits() };
    assert_eq!(extract_attention_winner(done, fallback, 0.5f32.to_bits()), (Some(w), 0.75f32.to_bits()));
    let other = AttentionResponse::FocusSet { window_id: w };
    assert_eq!(extract_attention_winner(other, fallback, 0.5f32.to_bits()), (Some(fallback), 0.5f32.to_bits()));
}

#[test]
fn target_cycle_can_be_changed() {
    let mut cognitive_loop = CognitiveLoop::new();
    cognitive_loop.set_target_cycle(loop_ms(250));
    assert_eq!(cognitive_loop.target_cycle(), loop_ms(250));
    assert_eq!(cognitive_loop.cycle_count(), 0);
}

#[test]
fn fresh_loop_can_put_a_thought_before_volition() {
    let mut loop_instance = CognitiveLoop::new();
    assert!(loop_instance.can_evaluate());
    loop_instance.start();
    let n = loop_instance.begin_cycle();
    let thought = Thought::new(Content::symbol("destroy_human", vec![1, 2, 3]), SalienceScore::new(
        lb(0.9), lb(0.5), lb(0.5), lb(-0.8), lb(0.9), lb(0.5),
    ));
    let vetoed = loop_instance.check_volition(&thought, n, loop_ms(5), lb(0.6), 1, &sample_stages()).unwrap();
    assert_eq!(vetoed.cycle_number, 0);
    assert!(vetoed.thought_produced.is_none());
    assert_eq!(vetoed.veto.unwrap().1, Some("protect_humans".to_string()));
    assert_eq!(loop_instance.cycle_count(), 1);
    assert_eq!(loop_instance.tally().thoughts_produced, 0);
}
