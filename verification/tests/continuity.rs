use daneel::actors::continuity::types::{
    CheckpointId, ContinuityError, ContinuityResponse, Experience, ExperienceId, Identity, Milestone, MilestoneId,
};
use daneel::actors::continuity::{Checkpoint, ContinuityRequest, ContinuityState};
use daneel::the_box::types::{Content, SalienceScore, Thought};

fn experience_at(t: i64) -> Experience {
    Experience::new_at(t, Thought::new(Content::Empty, SalienceScore::neutral()), 0.5f32.to_bits(), Vec::new())
}

#[test]
fn identity_creation() {
    let identity = Identity::new();
    assert_eq!(identity.name, "DANEEL");
    assert_eq!(identity.experience_count, 0);
    assert_eq!(identity.milestone_count, 0);
    assert_eq!(identity.uptime, 0);
}

#[test]
fn experience_significance_is_clamped() {
    let t = Thought::new(Content::Empty, SalienceScore::neutral());
    let e = Experience::new(t, 1.5f32.to_bits(), vec!["x".to_string()]);
    assert_eq!(f32::from_bits(e.significance), 1.0);
    let e2 = Experience::from_thought(Thought::new(Content::Empty, SalienceScore::neutral()));
    assert_eq!(f32::from_bits(e2.significance), 0.5);
}

#[test]
fn record_and_get_experience() {
    let mut state = ContinuityState::new();
    let e = experience_at(100);
    let id = e.id;
    assert_eq!(state.record_experience(e), id);
    assert_eq!(state.get_experience(id).unwrap().id, id);
    let missing = ExperienceId::new();
    assert_eq!(
        state.get_experience(missing).unwrap_err(),
        ContinuityError::ExperienceNotFound { experience_id: missing }
    );
}

#[test]
fn timeline_is_inclusive() {
    let mut state = ContinuityState::new();
    state.record_experience(experience_at(10));
    state.record_experience(experience_at(20));
    state.record_experience(experience_at(30));
    let times: Vec<i64> = state.get_timeline(10, 20).iter().map(|e| e.recorded_at).collect();
    assert_eq!(times, vec![10, 20]);
    assert!(state.get_timeline(31, 40).is_empty());
}

#[test]
fn checkpoint_then_restore_brings_back_the_past() {
    let mut state = ContinuityState::new();
    state.record_experience(experience_at(1));
    state.add_milestone(Milestone::simple("first", "the first one"));
    let checkpoint = state.create_checkpoint_at(5);

    state.record_experience(experience_at(2));
    state.add_milestone(Milestone::simple("second", "another"));
    assert_eq!(state.get_milestones().len(), 2);

    assert!(state.restore_checkpoint(checkpoint).is_ok());
    assert_eq!(state.get_milestones().len(), 1);
    assert_eq!(state.get_timeline(i64::MIN, i64::MAX).len(), 1);
    let identity = state.get_identity_at(1_000);
    assert_eq!(identity.experience_count, 1);
    assert_eq!(identity.milestone_count, 1);
}

#[test]
fn restore_unknown_checkpoint_fails() {
    let mut state = ContinuityState::new();
    let response = state.handle_at(0, ContinuityRequest::Restore {
        checkpoint_id: daneel::actors::continuity::types::CheckpointId(42),
    });
    assert!(matches!(
        response,
        ContinuityResponse::Error { error: ContinuityError::CheckpointNotFound { .. } }
    ));
}

#[test]
fn continuity_error_display() {
    assert_eq!(
        ContinuityError::RestoreFailed { reason: "disk".to_string() }.to_string(),
        "Restore failed: disk"
    );
    assert_eq!(
        ContinuityError::ExperienceNotFound { experience_id: ExperienceId(0) }.to_string(),
        "Experience not found: 00000000-0000-0000-0000-000000000000"
    );
}

#[test]
fn uptime_is_time_since_creation() {
    let mut identity = Identity::new_at(1_000);
    identity.update_uptime_at(4_500);
    assert_eq!(identity.uptime, 3_500);
}

fn plain_thought() -> Thought {
    Thought::new(Content::Empty, SalienceScore::neutral())
}

fn now_millis() -> i64 {
    chrono::Utc::now().timestamp_millis()
}

const MINUTE: i64 = 60 * 1000;
const HOUR: i64 = 60 * MINUTE;

#[test]
fn state_new_creates_default_identity() {
    let state = ContinuityState::new();
    assert_eq!(state.current_identity().name, "DANEEL");
    assert_eq!(state.current_identity().experience_count, 0);
    assert_eq!(state.current_identity().milestone_count, 0);
    assert!(state.recorded_experiences().is_empty());
    assert!(state.get_milestones().is_empty());
    assert!(state.saved_checkpoints().is_empty());
}

#[test]
fn state_with_identity_uses_provided_identity() {
    let mut custom_identity = Identity::new();
    custom_identity.experience_count = 42;
    custom_identity.milestone_count = 7;
    let state = ContinuityState::with_identity(custom_identity);
    assert_eq!(state.current_identity().experience_count, 42);
    assert_eq!(state.current_identity().milestone_count, 7);
    assert!(state.recorded_experiences().is_empty());
    assert!(state.get_milestones().is_empty());
}

#[test]
fn state_record_experience_increments_count() {
    let mut state = ContinuityState::new();
    assert_eq!(state.current_identity().experience_count, 0);
    let experience = Experience::from_thought(plain_thought());
    let exp_id = experience.id;
    let returned_id = state.record_experience(experience);
    assert_eq!(returned_id, exp_id);
    assert_eq!(state.current_identity().experience_count, 1);
    assert!(state.recorded_experiences().iter().any(|e| e.id == exp_id));
}

#[test]
fn state_get_experience_found() {
    let mut state = ContinuityState::new();
    let experience = Experience::from_thought(plain_thought());
    let exp_id = experience.id;
    state.record_experience(experience);
    let result = state.get_experience(exp_id);
    assert!(result.is_ok());
    assert_eq!(result.unwrap().id, exp_id);
}

#[test]
fn state_get_experience_not_found() {
    let state = ContinuityState::new();
    let nonexistent_id = ExperienceId::new();
    let result = state.get_experience(nonexistent_id);
    assert!(result.is_err());
    match result {
        Err(ContinuityError::ExperienceNotFound { experience_id }) => {
            assert_eq!(experience_id, nonexistent_id);
        }
        _ => panic!("Expected ExperienceNotFound error"),
    }
}

#[test]
fn state_get_timeline_filters_by_range() {
    let mut state = ContinuityState::new();
    let now = now_millis();

    let mut exp1 = Experience::from_thought(plain_thought());
    exp1.recorded_at = now - 30 * MINUTE;
    let exp1_id = exp1.id;
    state.record_experience(exp1);

    let mut exp2 = Experience::from_thought(plain_thought());
    exp2.recorded_at = now - 5 * HOUR;
    state.record_experience(exp2);

    let mut exp3 = Experience::from_thought(plain_thought());
    exp3.recorded_at = now - 10 * MINUTE;
    let exp3_id = exp3.id;
    state.record_experience(exp3);

    let start = now - HOUR;
    let end = now + 5 * MINUTE;
    let timeline = state.get_timeline(start, end);
    assert_eq!(timeline.len(), 2);
    let ids: Vec<ExperienceId> = timeline.iter().map(|e| e.id).collect();
    assert!(ids.contains(&exp1_id));
    assert!(ids.contains(&exp3_id));
}

#[test]
fn state_get_timeline_empty_when_no_matches() {
    let mut state = ContinuityState::new();
    let now = now_millis();
    let mut exp = Experience::from_thought(plain_thought());
    exp.recorded_at = now - 5 * HOUR;
    state.record_experience(exp);
    let timeline = state.get_timeline(now - HOUR, now + 5 * MINUTE);
    assert!(timeline.is_empty());
}

#[test]
fn state_add_milestone_increments_count() {
    let mut state = ContinuityState::new();
    assert_eq!(state.current_identity().milestone_count, 0);
    let milestone = Milestone::simple("First Boot", "DANEEL came online");
    let milestone_id = milestone.id;
    let returned_id = state.add_milestone(milestone);
    assert_eq!(returned_id, milestone_id);
    assert_eq!(state.current_identity().milestone_count, 1);
    assert_eq!(state.get_milestones().len(), 1);
}

#[test]
fn state_get_milestones_returns_all() {
    let mut state = ContinuityState::new();
    let m1 = Milestone::simple("First", "First milestone");
    let m2 = Milestone::simple("Second", "Second milestone");
    let m1_id = m1.id;
    let m2_id = m2.id;
    state.add_milestone(m1);
    state.add_milestone(m2);
    let milestones = state.get_milestones();
    assert_eq!(milestones.len(), 2);
    assert_eq!(milestones[0].id, m1_id);
    assert_eq!(milestones[1].id, m2_id);
}

#[test]
fn state_create_checkpoint_saves_state() {
    let mut state = ContinuityState::new();
    state.record_experience(Experience::from_thought(plain_thought()));
    state.add_milestone(Milestone::simple("Test", "Test milestone"));
    let checkpoint_id = state.create_checkpoint();
    let checkpoint = state.saved_checkpoints().iter().find(|c| c.id == checkpoint_id).unwrap();
    assert_eq!(checkpoint.experience_count, 1);
    assert_eq!(checkpoint.milestone_count, 1);
}

#[test]
fn state_restore_checkpoint_success() {
    let mut state = ContinuityState::new();
    let exp1 = Experience::from_thought(plain_thought());
    let exp1_id = exp1.id;
    state.record_experience(exp1);

    let checkpoint_id = state.create_checkpoint();
    assert_eq!(state.current_identity().experience_count, 1);

    state.record_experience(Experience::from_thought(plain_thought()));
    assert_eq!(state.current_identity().experience_count, 2);

    let result = state.restore_checkpoint(checkpoint_id);
    assert!(result.is_ok());
    assert_eq!(state.current_identity().experience_count, 1);
    assert!(state.recorded_experiences().iter().any(|e| e.id == exp1_id));
}

#[test]
fn state_restore_checkpoint_not_found() {
    let mut state = ContinuityState::new();
    let nonexistent_id = CheckpointId::new();
    let result = state.restore_checkpoint(nonexistent_id);
    assert!(result.is_err());
    match result {
        Err(ContinuityError::CheckpointNotFound { checkpoint_id }) => {
            assert_eq!(checkpoint_id, nonexistent_id);
        }
        _ => panic!("Expected CheckpointNotFound error"),
    }
}

#[test]
fn checkpoint_from_state_captures_all_data() {
    let mut state = ContinuityState::new();
    for i in 0..3 {
        let mut exp = Experience::from_thought(plain_thought());
        exp.significance = (i as f32).mul_add(0.1, 0.5).to_bits();
        state.record_experience(exp);
    }
    state.add_milestone(Milestone::simple("Test", "Test milestone"));
    let checkpoint = Checkpoint::from_state(&state);
    assert_eq!(checkpoint.experience_count, 3);
    assert_eq!(checkpoint.milestone_count, 1);
    assert_eq!(checkpoint.identity().name, "DANEEL");
    assert_eq!(checkpoint.experiences().len(), 3);
    assert_eq!(checkpoint.milestones().len(), 1);
}

#[test]
fn checkpoint_has_unique_id() {
    let state = ContinuityState::new();
    let checkpoint1 = Checkpoint::from_state(&state);
    let checkpoint2 = Checkpoint::from_state(&state);
    assert_ne!(checkpoint1.id, checkpoint2.id);
}

#[test]
fn checkpoint_clone_preserves_data() {
    let mut state = ContinuityState::new();
    state.record_experience(Experience::from_thought(plain_thought()));
    let checkpoint = Checkpoint::from_state(&state);
    let cloned = checkpoint.clone();
    assert_eq!(cloned.id, checkpoint.id);
    assert_eq!(cloned.experience_count, checkpoint.experience_count);
    assert_eq!(cloned.milestone_count, checkpoint.milestone_count);
    assert_eq!(cloned.experiences().len(), checkpoint.experiences().len());
}

#[test]
fn checkpoint_equality() {
    let state = ContinuityState::new();
    let checkpoint = Checkpoint::from_state(&state);
    let same_checkpoint = checkpoint.clone();
    assert_eq!(checkpoint, same_checkpoint);
}

#[test]
fn experience_id_is_unique() {
    assert_ne!(ExperienceId::new(), ExperienceId::new());
}

#[test]
fn milestone_id_is_unique() {
    assert_ne!(MilestoneId::new(), MilestoneId::new());
}

#[test]
fn checkpoint_id_is_unique() {
    assert_ne!(CheckpointId::new(), CheckpointId::new());
}

#[test]
fn experience_creation() {
    let thought = plain_thought();
    let experience = Experience::from_thought(thought.clone());
    assert_eq!(experience.thought.id, thought.id);
    assert_eq!(f32::from_bits(experience.significance), 0.5);
    assert!(experience.tags.is_empty());
}

#[test]
fn experience_significance_clamped() {
    let experience = Experience::new(plain_thought(), 1.5f32.to_bits(), Vec::new());
    assert_eq!(f32::from_bits(experience.significance), 1.0);
    let experience2 = Experience::new(plain_thought(), (-0.5f32).to_bits(), Vec::new());
    assert_eq!(f32::from_bits(experience2.significance), 0.0);
}

#[test]
fn experience_tags() {
    let mut experience = Experience::from_thought(plain_thought());
    experience.add_tag("important");
    experience.add_tag("first-thought");
    assert_eq!(experience.tags.len(), 2);
    assert!(experience.tags.contains(&"important".to_string()));
    assert!(experience.tags.contains(&"first-thought".to_string()));
}

#[test]
fn milestone_creation() {
    let milestone = Milestone::simple("First Boot", "DANEEL came online for the first time");
    assert_eq!(milestone.name, "First Boot");
    assert!(milestone.related_experiences.is_empty());
}

#[test]
fn milestone_with_experiences() {
    let exp_id1 = ExperienceId::new();
    let exp_id2 = ExperienceId::new();
    let milestone = Milestone::new("Major Insight", "Connected two previously unrelated concepts", vec![exp_id1, exp_id2]);
    assert_eq!(milestone.related_experiences.len(), 2);
    assert!(milestone.related_experiences.contains(&exp_id1));
    assert!(milestone.related_experiences.contains(&exp_id2));
}

#[test]
fn milestone_add_experience() {
    let mut milestone = Milestone::simple("Growth", "Learning progress");
    let exp_id = ExperienceId::new();
    milestone.add_experience(exp_id);
    assert_eq!(milestone.related_experiences.len(), 1);
    assert_eq!(milestone.related_experiences[0], exp_id);
}

#[test]
fn error_display() {
    let exp_id = ExperienceId::new();
    let error = ContinuityError::ExperienceNotFound { experience_id: exp_id };
    let display = error.to_string();
    assert!(display.contains("Experience not found"));
    assert!(display.contains(&exp_id.to_string()));
}

#[test]
fn experience_id_default() {
    assert_ne!(ExperienceId::default(), ExperienceId::default());
}

#[test]
fn milestone_id_default() {
    assert_ne!(MilestoneId::default(), MilestoneId::default());
}

#[test]
fn checkpoint_id_default() {
    assert_ne!(CheckpointId::default(), CheckpointId::default());
}

#[test]
fn identity_default() {
    let identity = Identity::default();
    assert_eq!(identity.name, "DANEEL");
    assert_eq!(identity.experience_count, 0);
    assert_eq!(identity.milestone_count, 0);
}

#[test]
fn experience_id_display() {
    let uuid = uuid::Uuid::new_v4();
    let id = ExperienceId(uuid.as_u128());
    assert_eq!(id.to_string(), uuid.to_string());
}

#[test]
fn milestone_id_display() {
    let uuid = uuid::Uuid::new_v4();
    let id = MilestoneId(uuid.as_u128());
    assert_eq!(id.to_string(), uuid.to_string());
}

#[test]
fn checkpoint_id_display() {
    let uuid = uuid::Uuid::new_v4();
    let id = CheckpointId(uuid.as_u128());
    assert_eq!(id.to_string(), uuid.to_string());
}

#[test]
fn error_display_milestone_not_found() {
    let milestone_id = MilestoneId::new();
    let display = ContinuityError::MilestoneNotFound { milestone_id }.to_string();
    assert!(display.contains("Milestone not found"));
    assert!(display.contains(&milestone_id.to_string()));
}

#[test]
fn error_display_checkpoint_not_found() {
    let checkpoint_id = CheckpointId::new();
    let display = ContinuityError::CheckpointNotFound { checkpoint_id }.to_string();
    assert!(display.contains("Checkpoint not found"));
    assert!(display.contains(&checkpoint_id.to_string()));
}

#[test]
fn error_display_checkpoint_failed() {
    let display = ContinuityError::CheckpointFailed { reason: "Disk full".to_string() }.to_string();
    assert!(display.contains("Checkpoint failed"));
    assert!(display.contains("Disk full"));
}

#[test]
fn error_display_restore_failed() {
    let display = ContinuityError::RestoreFailed { reason: "Corrupted data".to_string() }.to_string();
    assert!(display.contains("Restore failed"));
    assert!(display.contains("Corrupted data"));
}

#[test]
fn experience_with_custom_tags() {
    let tags = vec!["reflection".to_string(), "insight".to_string()];
    let experience = Experience::new(plain_thought(), 0.8f32.to_bits(), tags);
    assert_eq!(f32::from_bits(experience.significance), 0.8);
    assert_eq!(experience.tags.len(), 2);
    assert!(experience.tags.contains(&"reflection".to_string()));
    assert!(experience.tags.contains(&"insight".to_string()));
}

#[test]
fn milestone_description_preserved() {
    let milestone = Milestone::new("Test Milestone", "A detailed description of the milestone", Vec::new());
    assert_eq!(milestone.name, "Test Milestone");
    assert_eq!(milestone.description, "A detailed description of the milestone");
}

#[test]
fn live_uptime_is_never_negative() {
    let mut identity = Identity::new_at(1_000);
    identity.update_uptime_at(6_500);
    assert_eq!(identity.uptime, 5_500);
    assert_eq!(identity.created_at, 1_000);

    let mut live = Identity::new();
    live.update_uptime();
    assert!(live.uptime >= 0);
    assert_eq!(live.name, "DANEEL");
}

#[test]
fn checkpoint_survives_later_requests_and_restores() {
    let mut state = ContinuityState::new();
    state.handle_at(1, ContinuityRequest::RecordExperience { experience: experience_at(1) });
    let saved = match state.handle_at(2, ContinuityRequest::Checkpoint) {
        ContinuityResponse::CheckpointSaved { checkpoint_id } => checkpoint_id,
        other => panic!("unexpected {other:?}"),
    };
    state.handle_at(3, ContinuityRequest::RecordExperience { experience: experience_at(3) });
    state.handle_at(4, ContinuityRequest::AddMilestone { milestone: Milestone::simple("m", "later") });
    state.handle_at(5, ContinuityRequest::WhoAmI);
    assert_eq!(state.saved_checkpoints().len(), 1);
    assert_eq!(
        state.handle_at(6, ContinuityRequest::Restore { checkpoint_id: saved }),
        ContinuityResponse::Restored { from_checkpoint: saved }
    );
    match state.handle_at(7, ContinuityRequest::WhoAmI) {
        ContinuityResponse::Identity { identity } => {
            assert_eq!(identity.experience_count, 1);
            assert_eq!(identity.milestone_count, 0);
        },
        other => panic!("unexpected {other:?}"),
    }
    assert_eq!(state.get_timeline(i64::MIN, i64::MAX).len(), 1);
    assert_eq!(state.get_milestones().len(), 0);
}

#[test]
fn failed_restore_changes_nothing() {
    let mut state = ContinuityState::new();
    state.handle_at(1, ContinuityRequest::RecordExperience { experience: experience_at(1) });
    state.handle_at(2, ContinuityRequest::Checkpoint);
    let response = state.handle_at(3, ContinuityRequest::Restore {
        checkpoint_id: daneel::actors::continuity::types::CheckpointId(7),
    });
    assert!(matches!(response, ContinuityResponse::Error { error: ContinuityError::CheckpointNotFound { .. } }));
    assert_eq!(state.get_timeline(i64::MIN, i64::MAX).len(), 1);
    assert_eq!(state.saved_checkpoints().len(), 1);
    assert_eq!(state.current_identity().experience_count, 1);
}
