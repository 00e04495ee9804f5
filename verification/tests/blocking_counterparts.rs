use log_analyzer::api::get_error_statistics;
use log_analyzer::pool::BackpressureController;
use log_analyzer::progress::ProgressTracker;
use log_analyzer::resources::{ManagedBuffer, ResourceManager};
use log_analyzer::traversal::{check_root, TraversalError, TraversalStats, WalkItem, WalkStep};

const ONE_SECOND_NANOS: u128 = 1_000_000_000;

fn create_test_resource_manager() -> ResourceManager {
    ResourceManager::new("/tmp/test/temp".to_string(), Some(ONE_SECOND_NANOS))
}

#[test]
fn test_resource_manager_creation() {
    let manager = create_test_resource_manager();
    assert_eq!(manager.temp_ttl(), ONE_SECOND_NANOS);
    assert_eq!(manager.active_handle_count(), 0);
}

#[test]
fn test_file_handle_registration() {
    let mut manager = create_test_resource_manager();
    let path = "/test/file.txt".to_string();
    manager.register_file_handle(path.clone(), "workspace1".to_string());
    assert_eq!(manager.active_handle_count(), 1);
    manager.unregister_file_handle(&path);
    assert_eq!(manager.active_handle_count(), 0);
}

#[test]
fn test_release_workspace_handles() {
    let mut manager = create_test_resource_manager();
    manager.register_file_handle("/test/file1.txt".to_string(), "workspace1".to_string());
    manager.register_file_handle("/test/file2.txt".to_string(), "workspace1".to_string());
    manager.register_file_handle("/test/file3.txt".to_string(), "workspace2".to_string());
    assert_eq!(manager.active_handle_count(), 3);
    let released = manager.release_workspace_handles("workspace1").unwrap();
    assert_eq!(released, 2);
    assert_eq!(manager.active_handle_count(), 1);
    let released = manager.release_workspace_handles("workspace2").unwrap();
    assert_eq!(released, 1);
    assert_eq!(manager.active_handle_count(), 0);
}

#[test]
fn test_managed_buffer() {
    let buffer_size = 1024;
    let mut buffer = ManagedBuffer::new(buffer_size, "test_buffer".to_string());
    assert_eq!(buffer.len(), buffer_size);
    assert!(!buffer.is_empty());
    buffer.as_mut_slice()[0] = 42;
    assert_eq!(buffer.as_slice()[0], 42);
}

#[test]
fn test_progress_tracker_creation() {
    let tracker = ProgressTracker::new();
    assert_eq!(tracker.metrics.get_files_processed(), 0);
}

#[test]
fn test_get_error_statistics() {
    let stats = get_error_statistics().unwrap();
    assert_eq!(stats.total_errors, 0);
    assert_eq!(stats.frontend_errors, 0);
    assert_eq!(stats.backend_errors, 0);
}

#[test]
fn test_backpressure_acquire() {
    let mut controller = BackpressureController::default_with_concurrency(2);
    assert!(controller.try_acquire());
    assert!(controller.try_acquire());
    assert_eq!(controller.available_permits(), 0);
    assert!(controller.is_under_load());
}

#[test]
fn test_backpressure_permit_drop() {
    let mut controller = BackpressureController::default_with_concurrency(1);
    assert!(controller.try_acquire());
    assert_eq!(controller.available_permits(), 0);
    controller.release();
    assert_eq!(controller.available_permits(), 1);
}

#[test]
fn test_traversal_error_not_a_directory() {
    let result = check_root("/tmp/test.txt", true, false);
    assert!(result.is_err());
    assert!(matches!(result.unwrap_err(), TraversalError::NotADirectory { .. }));
}

/// The items a walk of the test directory yields at depth one: two files of
/// eight bytes and a subdirectory, then the end.
fn test_directory_walk() -> Vec<WalkItem> {
    vec![
        WalkItem::Entry { is_symlink: false, size: Some(8) },
        WalkItem::Entry { is_symlink: false, size: Some(8) },
        WalkItem::Entry { is_symlink: false, size: Some(4096) },
        WalkItem::Done,
    ]
}

#[test]
fn test_directory_traverser_nonexistent_path() {
    let result = check_root("/nonexistent/path", false, false);
    assert!(result.is_err());
    assert!(matches!(result.unwrap_err(), TraversalError::PathNotFound { .. }));
}

#[test]
fn test_directory_traverser_basic() {
    assert!(check_root("/tmp/walk", true, true).is_ok());
    let mut stats = TraversalStats::new();
    let mut count = 0;
    for item in test_directory_walk() {
        match stats.on_walk_item(false, item) {
            WalkStep::Yield => count += 1,
            WalkStep::Skip => {}
            WalkStep::Finish => break,
        }
    }
    assert!(count >= 3, "Expected at least 3 entries, got {}", count);
}

#[test]
fn test_traversal_stats_recording() {
    let mut stats = TraversalStats::new();
    for item in test_directory_walk() {
        let size = match item {
            WalkItem::Entry { size, .. } => size,
            _ => None,
        };
        match stats.on_walk_item(false, item) {
            WalkStep::Yield => stats.record_processed(size),
            WalkStep::Skip => {}
            WalkStep::Finish => break,
        }
    }
    let snapshot = stats.snapshot();
    assert!(snapshot.processed_count >= 3);
    assert!(snapshot.bytes_processed > 0);
}

#[test]
fn test_directory_traverser_empty_directory() {
    let mut stats = TraversalStats::new();
    let step = stats.on_walk_item(false, WalkItem::Done);
    assert_eq!(step, WalkStep::Finish);
    assert_eq!(stats.snapshot().processed_count, 0);
}

#[test]
fn skipped_items_are_counted_before_the_next_entry() {
    let mut stats = TraversalStats::new();
    let items = vec![
        WalkItem::Entry { is_symlink: true, size: Some(1) },
        WalkItem::Failed,
        WalkItem::Entry { is_symlink: true, size: None },
        WalkItem::Entry { is_symlink: false, size: Some(5) },
    ];
    let mut steps = Vec::new();
    for item in items {
        steps.push(stats.on_walk_item(false, item));
    }
    assert_eq!(steps, vec![WalkStep::Skip, WalkStep::Skip, WalkStep::Skip, WalkStep::Yield]);
    let s = stats.snapshot();
    assert_eq!(s.symlink_count, 2);
    assert_eq!(s.error_count, 1);
    assert_eq!(s.processed_count, 1);
    assert_eq!(s.bytes_processed, 5);
}
