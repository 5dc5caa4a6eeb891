use daneel::actors::attention::types::{AttentionError, AttentionMap, AttentionResponse, FocusState};
use daneel::the_box::types::WindowId;
use daneel::time::Duration;

fn att_bits(x: f32) -> u32 {
    x.to_bits()
}

#[test]
fn attention_error_types() {
    let window_id = WindowId::new();

    let error = AttentionError::WindowNotFound { window_id };
    assert!(error.to_string().contains("Window not found"));

    let error = AttentionError::NoWindowsAvailable;
    assert!(error.to_string().contains("No windows available"));

    let error = AttentionError::CycleFailed { reason: "test".to_string() };
    assert!(error.to_string().contains("test"));
}

#[test]
fn attention_error_clone_and_eq() {
    let window_id = WindowId::new();

    let error1 = AttentionError::WindowNotFound { window_id };
    let error2 = error1.clone();
    assert_eq!(error1, error2);

    let error3 = AttentionError::NoWindowsAvailable;
    let error4 = error3.clone();
    assert_eq!(error3, error4);

    let error5 = AttentionError::CycleFailed { reason: "test".to_string() };
    let error6 = error5.clone();
    assert_eq!(error5, error6);
}

#[test]
fn attention_error_debug() {
    let window_id = WindowId::new();

    let error = AttentionError::WindowNotFound { window_id };
    assert!(format!("{:?}", error).contains("WindowNotFound"));

    let error = AttentionError::NoWindowsAvailable;
    assert!(format!("{:?}", error).contains("NoWindowsAvailable"));

    let error = AttentionError::CycleFailed { reason: "test".to_string() };
    assert!(format!("{:?}", error).contains("CycleFailed"));
}

#[test]
fn focus_state_tracks_focus_and_duration() {
    let mut state = FocusState::new();
    assert!(!state.is_focused());
    let w = WindowId::new();
    state.focus_on(w);
    assert_eq!(state.focused_window(), Some(w));
    assert_eq!(state.focus_duration, Duration::zero());
    state.update_duration(Duration::from_millis(100));
    state.update_duration(Duration::from_millis(50));
    assert_eq!(state.focus_duration, Duration::from_millis(150));
    state.focus_on_at(1_000, WindowId::new());
    assert_eq!(state.last_shift, 1_000);
    state.clear_focus();
    assert!(!state.is_focused());
}

#[test]
fn attention_map_scores() {
    let mut map = AttentionMap::new();
    assert!(map.is_empty());
    assert_eq!(map.highest_salience(), None);
    let (w1, w2, w3) = (WindowId::new(), WindowId::new(), WindowId::new());
    map.update(w1, att_bits(0.5));
    map.update(w2, att_bits(0.9));
    map.update(w3, att_bits(0.3));
    assert_eq!(map.len(), 3);
    assert_eq!(map.get(&w2), Some(att_bits(0.9)));
    assert_eq!(map.highest_salience(), Some((w2, att_bits(0.9))));
    assert_eq!(map.above_threshold(att_bits(0.5)), vec![(w1, att_bits(0.5)), (w2, att_bits(0.9))]);
    map.update(w2, att_bits(0.1));
    assert_eq!(map.len(), 3);
    assert_eq!(map.highest_salience(), Some((w1, att_bits(0.5))));
    map.remove(&w1);
    assert_eq!(map.get(&w1), None);
    assert_eq!(map.len(), 2);
    let copy = map.clone();
    assert_eq!(copy, map);
    map.clear();
    assert!(map.is_empty());
}

#[test]
fn attention_response_builders() {
    let w = WindowId::new();
    assert_eq!(AttentionResponse::focus_set(w), AttentionResponse::FocusSet { window_id: w });
    assert_eq!(
        AttentionResponse::error(AttentionError::NoWindowsAvailable),
        AttentionResponse::Error { error: AttentionError::NoWindowsAvailable }
    );
}

fn score_of(scores: &[(WindowId, u32)], id: &WindowId) -> Option<u32> {
    scores.iter().find(|(w, _)| w == id).map(|(_, s)| *s)
}

#[test]
fn focus_state_starts_unfocused() {
    let state = FocusState::new();
    assert!(!state.is_focused());
    assert_eq!(state.focused_window(), None);
}

#[test]
fn focus_state_can_focus() {
    let mut state = FocusState::new();
    let window_id = WindowId::new();
    state.focus_on(window_id);
    assert!(state.is_focused());
    assert_eq!(state.focused_window(), Some(window_id));
}

#[test]
fn focus_state_can_clear() {
    let mut state = FocusState::new();
    let window_id = WindowId::new();
    state.focus_on(window_id);
    state.clear_focus();
    assert!(!state.is_focused());
    assert_eq!(state.focused_window(), None);
}

#[test]
fn focus_state_tracks_duration() {
    let mut state = FocusState::new();
    let window_id = WindowId::new();
    state.focus_on(window_id);
    assert_eq!(state.focus_duration, Duration::zero());
    state.update_duration(Duration::from_millis(100));
    assert_eq!(state.focus_duration, Duration::from_millis(100));
    state.update_duration(Duration::from_millis(50));
    assert_eq!(state.focus_duration, Duration::from_millis(150));
}

#[test]
fn attention_map_starts_empty() {
    let map = AttentionMap::new();
    assert!(map.is_empty());
    assert_eq!(map.len(), 0);
    assert_eq!(map.highest_salience(), None);
}

#[test]
fn attention_map_can_update() {
    let mut map = AttentionMap::new();
    let window_id = WindowId::new();
    map.update(window_id, att_bits(0.8));
    assert_eq!(map.len(), 1);
    assert_eq!(map.get(&window_id), Some(att_bits(0.8)));
}

#[test]
fn attention_map_finds_highest_salience() {
    let mut map = AttentionMap::new();
    let window1 = WindowId::new();
    let window2 = WindowId::new();
    let window3 = WindowId::new();
    map.update(window1, att_bits(0.5));
    map.update(window2, att_bits(0.9));
    map.update(window3, att_bits(0.3));
    let (highest_id, highest_score) = map.highest_salience().unwrap();
    assert_eq!(highest_id, window2);
    assert_eq!(highest_score, att_bits(0.9));
}

#[test]
fn attention_map_filters_by_threshold() {
    let mut map = AttentionMap::new();
    let window1 = WindowId::new();
    let window2 = WindowId::new();
    let window3 = WindowId::new();
    map.update(window1, att_bits(0.5));
    map.update(window2, att_bits(0.9));
    map.update(window3, att_bits(0.3));
    let above = map.above_threshold(att_bits(0.4));
    assert_eq!(above.len(), 2);
    let ids: Vec<WindowId> = above.iter().map(|(id, _)| *id).collect();
    assert!(ids.contains(&window1));
    assert!(ids.contains(&window2));
    assert!(!ids.contains(&window3));
}

#[test]
fn attention_map_can_remove() {
    let mut map = AttentionMap::new();
    let window_id = WindowId::new();
    map.update(window_id, att_bits(0.8));
    assert_eq!(map.len(), 1);
    map.remove(&window_id);
    assert_eq!(map.len(), 0);
    assert!(map.is_empty());
}

#[test]
fn attention_map_can_clear() {
    let mut map = AttentionMap::new();
    map.update(WindowId::new(), att_bits(0.5));
    map.update(WindowId::new(), att_bits(0.7));
    map.update(WindowId::new(), att_bits(0.3));
    assert_eq!(map.len(), 3);
    map.clear();
    assert!(map.is_empty());
    assert_eq!(map.len(), 0);
}

#[test]
fn attention_response_constructors() {
    let window_id = WindowId::new();
    let response = AttentionResponse::cycle_complete(Some(window_id), att_bits(0.8));
    assert!(matches!(response, AttentionResponse::CycleComplete { .. }));
    let response = AttentionResponse::focus_set(window_id);
    assert!(matches!(response, AttentionResponse::FocusSet { .. }));
    let response = AttentionResponse::focus_shifted(None, window_id);
    assert!(matches!(response, AttentionResponse::FocusShifted { .. }));
    let response = AttentionResponse::current_focus(Some(window_id));
    assert!(matches!(response, AttentionResponse::CurrentFocus { .. }));
    let scores = vec![(window_id, att_bits(0.8))];
    let response = AttentionResponse::attention_map(scores);
    assert!(matches!(response, AttentionResponse::AttentionMap { .. }));
}

#[test]
fn focus_state_default() {
    let state = FocusState::default();
    assert!(!state.is_focused());
    assert_eq!(state.focused_window(), None);
    assert_eq!(state.focus_duration, Duration::zero());
}

#[test]
fn focus_state_first_focus_does_not_update_last_shift() {
    let state = FocusState::new();
    let initial_shift = state.last_shift;
    let mut state2 = FocusState::new();
    state2.focus_on(WindowId::new());
    assert!(state2.last_shift >= initial_shift);
}

#[test]
fn attention_map_default() {
    let map = AttentionMap::default();
    assert!(map.is_empty());
    assert_eq!(map.len(), 0);
}

#[test]
fn attention_map_all_scores() {
    let mut map = AttentionMap::new();
    let window1 = WindowId::new();
    let window2 = WindowId::new();
    map.update(window1, att_bits(0.5));
    map.update(window2, att_bits(0.9));
    let scores = map.all_scores();
    assert_eq!(scores.len(), 2);
    assert_eq!(score_of(scores, &window1), Some(att_bits(0.5)));
    assert_eq!(score_of(scores, &window2), Some(att_bits(0.9)));
}

#[test]
fn attention_response_error_constructor() {
    let error = AttentionError::NoWindowsAvailable;
    let response = AttentionResponse::error(error.clone());
    match response {
        AttentionResponse::Error { error: e } => {
            assert_eq!(e, error);
        }
        _ => panic!("Expected Error variant"),
    }
}

#[test]
fn attention_response_clone_and_eq() {
    let window_id = WindowId::new();
    let response1 = AttentionResponse::cycle_complete(Some(window_id), att_bits(0.8));
    let response2 = response1.clone();
    assert_eq!(response1, response2);
    let response3 = AttentionResponse::focus_set(window_id);
    let response4 = response3.clone();
    assert_eq!(response3, response4);
    let response5 = AttentionResponse::focus_shifted(None, window_id);
    let response6 = response5.clone();
    assert_eq!(response5, response6);
    let response7 = AttentionResponse::current_focus(Some(window_id));
    let response8 = response7.clone();
    assert_eq!(response7, response8);
    let response9 = AttentionResponse::attention_map(vec![(window_id, att_bits(0.8))]);
    let response10 = response9.clone();
    assert_eq!(response9, response10);
    let response11 = AttentionResponse::error(AttentionError::NoWindowsAvailable);
    let response12 = response11.clone();
    assert_eq!(response11, response12);
}

#[test]
fn focus_state_clone_and_eq() {
    let mut state1 = FocusState::new();
    let window_id = WindowId::new();
    state1.focus_on(window_id);
    let state2 = state1.clone();
    assert_eq!(state1, state2);
}

#[test]
fn attention_map_clone_and_eq() {
    let mut map1 = AttentionMap::new();
    map1.update(WindowId::new(), att_bits(0.5));
    let map2 = map1.clone();
    assert_eq!(map1, map2);
}

#[test]
fn attention_response_debug() {
    let window_id = WindowId::new();
    let debug_str = format!("{:?}", AttentionResponse::cycle_complete(Some(window_id), att_bits(0.8)));
    assert!(debug_str.contains("CycleComplete"));
    let debug_str = format!("{:?}", AttentionResponse::focus_set(window_id));
    assert!(debug_str.contains("FocusSet"));
    let debug_str = format!("{:?}", AttentionResponse::focus_shifted(None, window_id));
    assert!(debug_str.contains("FocusShifted"));
    let debug_str = format!("{:?}", AttentionResponse::current_focus(Some(window_id)));
    assert!(debug_str.contains("CurrentFocus"));
    let debug_str = format!("{:?}", AttentionResponse::attention_map(vec![(window_id, att_bits(0.8))]));
    assert!(debug_str.contains("AttentionMap"));
    let debug_str = format!("{:?}", AttentionResponse::error(AttentionError::NoWindowsAvailable));
    assert!(debug_str.contains("Error"));
}

#[test]
fn focus_state_debug() {
    let state = FocusState::new();
    let debug_str = format!("{:?}", state);
    assert!(debug_str.contains("FocusState"));
}

#[test]
fn attention_map_debug() {
    let map = AttentionMap::new();
    let debug_str = format!("{:?}", map);
    assert!(debug_str.contains("AttentionMap"));
}

#[test]
fn attention_map_get_nonexistent() {
    let map = AttentionMap::new();
    let window_id = WindowId::new();
    assert_eq!(map.get(&window_id), None);
}

#[test]
fn attention_map_remove_nonexistent() {
    let mut map = AttentionMap::new();
    let window_id = WindowId::new();
    map.remove(&window_id);
    assert!(map.is_empty());
}

#[test]
fn attention_map_above_threshold_empty() {
    let map = AttentionMap::new();
    let above = map.above_threshold(att_bits(0.5));
    assert!(above.is_empty());
}

#[test]
fn attention_map_above_threshold_none_above() {
    let mut map = AttentionMap::new();
    map.update(WindowId::new(), att_bits(0.1));
    map.update(WindowId::new(), att_bits(0.2));
    map.update(WindowId::new(), att_bits(0.3));
    let above = map.above_threshold(att_bits(0.5));
    assert!(above.is_empty());
}

#[test]
fn attention_map_above_threshold_boundary() {
    let mut map = AttentionMap::new();
    let window_id = WindowId::new();
    map.update(window_id, att_bits(0.5));
    let above = map.above_threshold(att_bits(0.5));
    assert_eq!(above.len(), 1);
    assert_eq!(above[0].0, window_id);
    assert_eq!(above[0].1, att_bits(0.5));
}

#[test]
fn attention_map_update_overwrites() {
    let mut map = AttentionMap::new();
    let window_id = WindowId::new();
    map.update(window_id, att_bits(0.5));
    assert_eq!(map.get(&window_id), Some(att_bits(0.5)));
    map.update(window_id, att_bits(0.9));
    assert_eq!(map.get(&window_id), Some(att_bits(0.9)));
    assert_eq!(map.len(), 1);
}
