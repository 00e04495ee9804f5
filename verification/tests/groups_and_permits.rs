use log_analyzer::api::KeywordGroupRequest;
use log_analyzer::errors::AppError;
use log_analyzer::keywords::{
    add_keyword_group, delete_keyword_group, keyword_group_not_found, new_keyword_group,
    update_keyword_group, KeywordGroup,
};
use log_analyzer::pool::{BackpressureController, SemaphoreConfig};
use log_analyzer::errors::ErrorCategory;
use log_analyzer::progress::ProgressMetrics;

fn request(name: &str, color: Option<&str>, enabled: Option<bool>) -> KeywordGroupRequest {
    KeywordGroupRequest {
        name: name.to_string(),
        patterns: vec!["error".to_string(), "timeout".to_string()],
        color: color.map(|c| c.to_string()),
        enabled,
    }
}

fn group(id: &str, name: &str) -> KeywordGroup {
    new_keyword_group(id.to_string(), request(name, Some("#000000"), Some(false)))
}

#[test]
fn new_groups_take_request_values_and_defaults() {
    let g = new_keyword_group("g1".to_string(), request("Errors", None, None));
    assert_eq!(g.id, "g1");
    assert_eq!(g.name, "Errors");
    assert_eq!(g.patterns, vec!["error", "timeout"]);
    assert_eq!(g.color, "#FF5722");
    assert!(g.enabled);
    let h = new_keyword_group("g2".to_string(), request("Quiet", Some("#00FF00"), Some(false)));
    assert_eq!(h.color, "#00FF00");
    assert!(!h.enabled);
}

#[test]
fn added_groups_get_fresh_identifiers() {
    let mut groups = vec![group("a", "A")];
    let id = add_keyword_group(&mut groups, request("B", None, None));
    assert_eq!(id.len(), 36);
    assert_eq!(groups.len(), 2);
    assert_eq!(groups[1].id, id);
    assert_eq!(groups[1].name, "B");
    let other = add_keyword_group(&mut groups, request("C", None, None));
    assert_ne!(id, other);
}

#[test]
fn updates_touch_the_first_matching_group_only() {
    let mut groups = vec![group("a", "A"), group("b", "B"), group("b", "B2")];
    assert!(update_keyword_group(&mut groups, "b", request("New", None, Some(true))));
    assert_eq!(groups[1].name, "New");
    assert_eq!(groups[1].color, "#000000");
    assert!(groups[1].enabled);
    assert_eq!(groups[2].name, "B2");
    assert_eq!(groups[0].name, "A");
    assert!(!update_keyword_group(&mut groups, "zzz", request("X", None, None)));
    assert_eq!(groups.len(), 3);
}

#[test]
fn deletion_removes_every_group_with_the_identifier() {
    let mut groups = vec![group("a", "A"), group("b", "B"), group("a", "A2"), group("c", "C")];
    assert!(delete_keyword_group(&mut groups, "a"));
    let ids: Vec<&str> = groups.iter().map(|g| g.id.as_str()).collect();
    assert_eq!(ids, vec!["b", "c"]);
    assert!(!delete_keyword_group(&mut groups, "a"));
    assert_eq!(groups.len(), 2);
}

#[test]
fn deleting_a_just_added_group_restores_the_list() {
    let mut groups = vec![group("a", "A"), group("b", "B")];
    let id = add_keyword_group(&mut groups, request("New", None, None));
    assert!(delete_keyword_group(&mut groups, &id));
    let ids: Vec<&str> = groups.iter().map(|g| g.id.as_str()).collect();
    assert_eq!(ids, vec!["a", "b"]);
}

#[test]
fn missing_groups_are_reported() {
    let r = keyword_group_not_found("xyz");
    assert!(!r.success);
    assert_eq!(r.error.as_deref(), Some("Keyword group not found: xyz"));
}

#[test]
fn permits_are_bounded_and_returned() {
    let mut c = BackpressureController::new(SemaphoreConfig {
        max_concurrent: 2,
        acquire_timeout_secs: 30,
        fair: true,
    });
    assert_eq!(c.available_permits(), 2);
    assert!(c.try_acquire());
    assert!(c.try_acquire());
    assert!(!c.try_acquire());
    assert!(c.is_under_load());
    assert_eq!(c.available_permits(), 0);
    c.release();
    assert_eq!(c.available_permits(), 1);
    assert!(!c.is_under_load());
}

#[test]
fn timed_out_waits_are_rejected() {
    let mut c = BackpressureController::default_with_concurrency(1);
    assert_eq!(c.acquire_timeout_secs(), 30);
    c.begin_wait();
    c.begin_wait();
    assert_eq!(c.waiting_count(), 2);
    c.end_wait(true);
    c.end_wait(false);
    assert_eq!(c.waiting_count(), 0);
    assert_eq!(c.rejected_count(), 1);
}

#[test]
fn metrics_getters_and_events() {
    let mut m = ProgressMetrics::new();
    m.increment_files();
    m.increment_files();
    m.add_bytes(300);
    m.set_current_depth(2);
    m.increment_path_shortenings();
    m.increment_suspicious_files();
    assert_eq!(m.get_files_processed(), 2);
    assert_eq!(m.get_bytes_processed(), 300);
    assert_eq!(m.get_current_depth(), 2);
    assert_eq!(m.get_max_depth_reached(), 2);
    assert_eq!(m.get_path_shortenings(), 1);
    assert_eq!(m.get_suspicious_files(), 1);

    let e = m.progress_event("ws", "inner/a.log", 2, Some("outer.zip"), Some(16));
    assert_eq!(e.workspace_id, "ws");
    assert_eq!(e.current_file, "inner/a.log");
    assert_eq!(e.files_processed, 2);
    assert_eq!(e.bytes_processed, 300);
    assert_eq!(e.hierarchical_path, vec!["outer.zip", "depth_2"]);
    assert_eq!(e.estimated_remaining_secs, Some(16));
    let early = m.progress_event("ws", "a", 0, None, None);
    assert_eq!(early.estimated_remaining_secs, None);
    assert!(early.hierarchical_path.is_empty());
}

#[test]
fn errors_are_counted_by_category() {
    let mut m = ProgressMetrics::new();
    m.record_error(&AppError::Io { permission_denied: true, message: "denied".to_string() });
    m.record_error(&AppError::Io { permission_denied: true, message: "denied again".to_string() });
    m.record_error(&AppError::InvalidPath("x".to_string()));
    assert_eq!(m.errors_by_category.len(), 2);
    assert_eq!(m.errors_in(ErrorCategory::PermissionDenied), 2);
    assert_eq!(m.errors_in(ErrorCategory::PathTooLong), 1);
    assert_eq!(m.errors_in(ErrorCategory::IoError), 0);
    let total: usize = m.errors_by_category.iter().map(|(_, n)| n).sum();
    assert_eq!(total, 3);
    assert!(m.errors_by_category.iter().all(|(_, n)| *n > 0));
}
