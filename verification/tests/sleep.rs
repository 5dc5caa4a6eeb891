use daneel::actors::sleep::types::{self, SleepConfig, SleepCycleReport, SleepCycleStatus, SleepResult, SleepSummary};
use daneel::actors::sleep::{SleepActor, SleepReply, SleepRequest, SleepState};

fn report() -> SleepCycleReport {
    SleepCycleReport {
        cycle_id: 1,
        duration_ms: 1000,
        memories_replayed: 50,
        memories_consolidated: 5,
        associations_strengthened: 100,
        associations_pruned: 10,
        avg_replay_priority: 0.7f32.to_bits(),
        peak_emotional_intensity: 0.9f32.to_bits(),
        status: SleepCycleStatus::Completed,
    }
}

#[test]
fn sleep_state_interruptibility() {
    let config = SleepConfig::default();
    let mut state = SleepState::new(config);

    assert!(state.is_interruptible());

    state.state = types::SleepState::EnteringSleep;
    assert!(state.is_interruptible());

    state.state = types::SleepState::LightSleep;
    assert!(state.is_interruptible());

    state.state = types::SleepState::DeepSleep;
    assert!(!state.is_interruptible());

    state.state = types::SleepState::Dreaming;
    assert!(!state.is_interruptible());

    state.state = types::SleepState::Waking;
    assert!(state.is_interruptible());
}

#[test]
fn sleep_state_queue_management() {
    let config = SleepConfig::default();
    let mut state = SleepState::new(config);

    assert_eq!(state.consolidation_queue_estimate, 0);

    state.increment_queue();
    state.increment_queue();
    state.increment_queue();

    assert_eq!(state.consolidation_queue_estimate, 3);

    state.clear_queue();
    assert_eq!(state.consolidation_queue_estimate, 0);
}

#[test]
fn should_sleep_returns_false_when_not_awake() {
    let config = SleepConfig::default();
    let mut state = SleepState::new(config);

    state.state = types::SleepState::DeepSleep;
    assert!(!state.should_sleep());

    state.state = types::SleepState::LightSleep;
    assert!(!state.should_sleep());

    state.state = types::SleepState::Dreaming;
    assert!(!state.should_sleep());

    state.state = types::SleepState::EnteringSleep;
    assert!(!state.should_sleep());

    state.state = types::SleepState::Waking;
    assert!(!state.should_sleep());
}

#[test]
fn should_sleep_idle_not_met() {
    let config = SleepConfig {
        idle_threshold_ms: u64::MAX,
        min_awake_duration_ms: 0,
        min_consolidation_queue: 0,
        ..SleepConfig::default()
    };
    let state = SleepState::new(config);
    assert!(!state.should_sleep());
}

#[test]
fn enter_sleep_already_sleeping() {
    let config = SleepConfig {
        idle_threshold_ms: 0,
        min_awake_duration_ms: 0,
        min_consolidation_queue: 0,
        ..SleepConfig::default()
    };
    let mut state = SleepState::new(config);

    state.state = types::SleepState::DeepSleep;

    let result = state.enter_sleep();
    match result {
        SleepResult::AlreadySleeping => {}
        _ => panic!("Expected AlreadySleeping, got {result:?}"),
    }
}

#[test]
fn wake_with_summary() {
    let config = SleepConfig::default();
    let mut state = SleepState::new(config);

    let summary = SleepSummary { cycles_completed: 3, total_memories_replayed: 150, ..Default::default() };
    state.current_summary = Some(summary);
    state.state = types::SleepState::DeepSleep;

    let returned_summary = state.wake();

    assert_eq!(returned_summary.cycles_completed, 3);
    assert_eq!(returned_summary.total_memories_replayed, 150);
    assert_eq!(state.state, types::SleepState::Awake);
    assert!(state.current_summary.is_none());
}

#[test]
fn external_stimulus_in_protected_sleep() {
    let config = SleepConfig::default();
    let mut state = SleepState::new(config);

    state.state = types::SleepState::DeepSleep;
    assert!(!state.is_interruptible());

    state.state = types::SleepState::Dreaming;
    assert!(!state.is_interruptible());
}

#[test]
fn sleep_actor_with_custom_config() {
    let config = SleepConfig { idle_threshold_ms: 5000, replay_batch_size: 100, ..SleepConfig::default() };

    let actor = SleepActor::with_config(config);
    assert_eq!(actor.config.idle_threshold_ms, 5000);
    assert_eq!(actor.config.replay_batch_size, 100);
}

#[test]
fn sleep_phase_advancement() {
    let config = SleepConfig::default();
    let mut state = SleepState::new(config);

    state.advance_sleep_phase(0.1f32.to_bits());
    assert_eq!(state.state, types::SleepState::LightSleep);

    state.advance_sleep_phase(0.3f32.to_bits());
    assert_eq!(state.state, types::SleepState::DeepSleep);

    state.advance_sleep_phase(0.8f32.to_bits());
    assert_eq!(state.state, types::SleepState::Dreaming);
}

#[test]
fn add_cycle_report_with_no_summary() {
    let mut state = SleepState::new(SleepConfig::default());
    assert!(state.current_summary.is_none());
    state.add_cycle_report(&report());
    assert!(state.current_summary.is_none());
}

#[test]
fn add_cycle_report_with_summary() {
    let mut state = SleepState::new(SleepConfig::default());
    state.current_summary = Some(SleepSummary::default());
    state.add_cycle_report(&report());
    let summary = state.current_summary.as_ref().unwrap();
    assert_eq!(summary.cycles_completed, 1);
    assert_eq!(summary.total_memories_replayed, 50);
    assert_eq!(summary.total_memories_consolidated, 5);
}

#[test]
fn sleep_cycle_through_requests() {
    let config = SleepConfig { idle_threshold_ms: 1_000, min_awake_duration_ms: 0, ..SleepConfig::default() };
    let mut state = SleepState::new(config);
    let start = state.now();
    // Not idle long enough yet.
    assert!(matches!(state.handle_at(start, SleepRequest::CheckSleepConditions), SleepReply::ShouldSleep(false)));
    let later = start + 2_000_000_000;
    assert!(matches!(state.handle_at(later, SleepRequest::CheckSleepConditions), SleepReply::ShouldSleep(true)));
    assert!(matches!(state.handle_at(later, SleepRequest::EnterSleep), SleepReply::Entered(SleepResult::Started)));
    assert_eq!(state.state, types::SleepState::EnteringSleep);
    assert!(matches!(state.handle_at(later, SleepRequest::EnterSleep), SleepReply::Entered(SleepResult::AlreadySleeping)));

    state.advance_sleep_phase(0.5f32.to_bits());
    assert!(matches!(state.handle_at(later, SleepRequest::ExternalStimulus), SleepReply::StimulusTaken(false)));
    assert_eq!(state.state, types::SleepState::DeepSleep);

    state.advance_sleep_phase(0.05f32.to_bits());
    assert!(matches!(state.handle_at(later, SleepRequest::ExternalStimulus), SleepReply::StimulusTaken(true)));
    assert_eq!(state.state, types::SleepState::Waking);

    state.handle_at(later, SleepRequest::RecordActivity);
    assert_eq!(state.consolidation_queue_estimate, 1);
    match state.handle_at(later, SleepRequest::Wake) {
        SleepReply::Woke(summary) => assert_eq!(summary, SleepSummary::default()),
        other => panic!("unexpected {other:?}"),
    }
    assert_eq!(state.state, types::SleepState::Awake);
    assert_eq!(state.consolidation_queue_estimate, 0);
}

#[test]
fn conditions_not_met_reason() {
    let config = SleepConfig { idle_threshold_ms: u64::MAX, ..SleepConfig::default() };
    let mut state = SleepState::new(config);
    assert_eq!(
        state.enter_sleep(),
        SleepResult::ConditionsNotMet { reason: "Sleep conditions not met".to_string() }
    );
    assert_eq!(state.state, types::SleepState::Awake);
}

#[test]
fn advance_sleep_phase_boundary_conditions() {
    let config = SleepConfig { light_sleep_duration_pct: 0.2f32.to_bits(), ..SleepConfig::default() };
    let mut state = SleepState::new(config);

    state.advance_sleep_phase(0.0f32.to_bits());
    assert_eq!(state.state, types::SleepState::LightSleep);

    state.advance_sleep_phase(0.19f32.to_bits());
    assert_eq!(state.state, types::SleepState::LightSleep);

    state.advance_sleep_phase(0.2f32.to_bits());
    assert_eq!(state.state, types::SleepState::DeepSleep);

    state.advance_sleep_phase(0.5f32.to_bits());
    assert_eq!(state.state, types::SleepState::DeepSleep);

    state.advance_sleep_phase(0.7f32.to_bits());
    assert_eq!(state.state, types::SleepState::Dreaming);

    state.advance_sleep_phase(0.99f32.to_bits());
    assert_eq!(state.state, types::SleepState::Dreaming);
}

#[test]
fn recording_activity_keeps_the_state() {
    let mut state = SleepState::new(SleepConfig::default());
    state.record_activity();
    assert_eq!(state.state, types::SleepState::Awake);
    assert!(!state.should_sleep());
    state.record_activity_at(42);
    assert_eq!(state.state, types::SleepState::Awake);
}

#[test]
fn waking_resets_the_idle_and_awake_times() {
    let config = SleepConfig { idle_threshold_ms: 1_000, min_awake_duration_ms: 0, ..SleepConfig::default() };
    let mut state = SleepState::new(config);
    let start = state.now();
    let later = start + 2_000_000_000;
    assert!(matches!(state.handle_at(later, SleepRequest::EnterSleep), SleepReply::Entered(SleepResult::Started)));
    let woke = later + 5_000_000_000;
    assert!(matches!(state.handle_at(woke, SleepRequest::Wake), SleepReply::Woke(_)));
    assert_eq!(state.state, types::SleepState::Awake);
    // just woken: not idle, so sleep is not due
    assert!(matches!(state.handle_at(woke, SleepRequest::CheckSleepConditions), SleepReply::ShouldSleep(false)));
    assert!(matches!(
        state.handle_at(woke + 500_000_000, SleepRequest::EnterSleep),
        SleepReply::Entered(SleepResult::ConditionsNotMet { .. })
    ));
    assert_eq!(state.state, types::SleepState::Awake);
    assert!(state.current_summary.is_none());
}
