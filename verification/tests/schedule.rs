use daneel::schedule::{CycleDuties, HeadlessSchedule};

#[test]
fn identity_saved_every_hundred_thoughts() {
    let mut s = HeadlessSchedule::new(0);
    for _ in 0..99 {
        assert!(!s.after_cycle(true, 0).flush_identity);
    }
    assert!(s.after_cycle(true, 0).flush_identity);
    assert_eq!(s.thoughts_since_flush, 0);
}

#[test]
fn identity_saved_after_thirty_seconds() {
    let mut s = HeadlessSchedule::new(0);
    assert!(s.after_cycle(true, 30).flush_identity);
    assert!(!s.after_cycle(false, 30).flush_identity);
}

#[test]
fn consolidation_and_status_cadence() {
    let mut s = HeadlessSchedule::new(7);
    let mut consolidations = 0;
    let mut statuses = 0;
    for _ in 0..1000 {
        let d: CycleDuties = s.after_cycle(false, 0);
        if d.consolidate {
            consolidations += 1;
        }
        if d.log_status {
            statuses += 1;
        }
    }
    assert_eq!(consolidations, 2);
    assert_eq!(statuses, 1);
    assert!(s.after_consolidation(3));
    assert!(!s.after_consolidation(0));
    assert_eq!(s.total_dream_cycles, 8);
}
