use nested_context::ids::IdentifierSpace;
use nested_context::tracker::{PipelineRecord, PipelineTracker, UpdatePipelineIdReason};

#[test]
fn later_navigation_wins_over_earlier() {
    let mut ids = IdentifierSpace::new();
    let p0 = ids.new_pipeline_id();
    let p1 = ids.new_pipeline_id();
    let p2 = ids.new_pipeline_id();
    let mut tracker = PipelineTracker::new();
    tracker.record_initial(p0);
    tracker.begin_navigation(p1);
    tracker.begin_navigation(p2);
    assert_eq!(tracker.pending(), Some(p2));
    assert!(!tracker.confirm(p1, UpdatePipelineIdReason::Navigation));
    assert_eq!(tracker.current(), Some(p0));
    assert_eq!(tracker.pending(), Some(p2));
    assert!(tracker.confirm(p2, UpdatePipelineIdReason::Navigation));
    assert_eq!(tracker.current(), Some(p2));
    assert_eq!(tracker.pending(), None);
    assert!(!tracker.confirm(p1, UpdatePipelineIdReason::Navigation));
    assert_eq!(tracker.current(), Some(p2));
}

#[test]
fn initial_pipeline_is_about_blank_until_navigation_confirmed() {
    let mut ids = IdentifierSpace::new();
    let p = ids.new_pipeline_id();
    let p2 = ids.new_pipeline_id();
    let mut tracker = PipelineTracker::new();
    tracker.record_initial(p);
    assert!(tracker.is_current_about_blank());
    assert_eq!(
        tracker.record(),
        PipelineRecord { current: Some(p), pending: Some(p), about_blank: Some(p) }
    );
    tracker.begin_navigation(p2);
    assert!(tracker.is_current_about_blank());
    assert!(tracker.confirm(p2, UpdatePipelineIdReason::Navigation));
    assert!(!tracker.is_current_about_blank());
    assert_eq!(tracker.about_blank(), Some(p));
}

#[test]
fn empty_tracker_is_not_about_blank() {
    let tracker = PipelineTracker::new();
    assert!(!tracker.is_current_about_blank());
    assert_eq!(tracker.current(), None);
}

#[test]
fn clear_twice_equals_clear_once() {
    let mut ids = IdentifierSpace::new();
    let p = ids.new_pipeline_id();
    let p2 = ids.new_pipeline_id();
    let mut tracker = PipelineTracker::new();
    tracker.record_initial(p);
    tracker.begin_navigation(p2);
    tracker.clear();
    let once = tracker.record();
    tracker.clear();
    let twice = tracker.record();
    assert_eq!(once, twice);
    assert_eq!(once, PipelineRecord { current: None, pending: None, about_blank: None });
}

#[test]
fn traversal_applies_without_pending() {
    let mut ids = IdentifierSpace::new();
    let p = ids.new_pipeline_id();
    let p2 = ids.new_pipeline_id();
    let p3 = ids.new_pipeline_id();
    let mut tracker = PipelineTracker::new();
    tracker.record_initial(p);
    tracker.begin_navigation(p2);
    assert!(tracker.confirm(p3, UpdatePipelineIdReason::Traversal));
    assert_eq!(tracker.current(), Some(p3));
    assert_eq!(tracker.pending(), Some(p2));
}

#[test]
fn navigation_confirmation_without_pending_is_ignored() {
    let mut ids = IdentifierSpace::new();
    let p = ids.new_pipeline_id();
    let mut tracker = PipelineTracker::new();
    assert!(!tracker.confirm(p, UpdatePipelineIdReason::Navigation));
    assert_eq!(tracker.current(), None);
}

#[test]
fn identifier_space_issues_distinct_handles() {
    let mut ids = IdentifierSpace::new();
    assert!(ids.has_room());
    let a = ids.new_pipeline_id();
    let b = ids.new_pipeline_id();
    assert_ne!(a, b);
    assert_eq!(a.index(), 0);
    assert_eq!(b.index(), 1);
    let c1 = ids.new_browsing_context_id();
    let c2 = ids.new_browsing_context_id();
    assert_ne!(c1, c2);
    let t1 = ids.new_top_level_browsing_context_id();
    let t2 = ids.new_top_level_browsing_context_id();
    assert_ne!(t1, t2);
    assert_eq!(t1.index(), 0);
    assert_eq!(c2.index(), 1);
}
