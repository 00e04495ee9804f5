use log_analyzer::errors::{AppError, ErrorCategory};
use log_analyzer::progress::{
    build_hierarchical_path, files_left_to_estimate, ExtractionSummary, ProgressMetrics,
    ProgressReporter, ProgressTracker,
};

#[test]
fn test_new() {
    let reporter = ProgressReporter::new(100, 5);
    assert_eq!(reporter.total_entries, 100);
    assert_eq!(reporter.processed_entries, 0);
    assert_eq!(reporter.percentage(), 0);
}

#[test]
fn test_inc() {
    let mut reporter = ProgressReporter::new(100, 5);
    reporter.inc();
    assert_eq!(reporter.processed_entries, 1);
    assert_eq!(reporter.percentage(), 1);
}

#[test]
fn test_percentage() {
    let mut reporter = ProgressReporter::new(100, 5);
    assert_eq!(reporter.percentage(), 0);

    reporter.processed_entries = 50;
    assert_eq!(reporter.percentage(), 50);

    reporter.processed_entries = 100;
    assert_eq!(reporter.percentage(), 100);
}

#[test]
fn test_should_report_percentage_change() {
    let mut reporter = ProgressReporter::new(100, 5);

    assert!(!reporter.should_report());

    reporter.processed_entries = 5;
    assert!(reporter.should_report());

    reporter.mark_reported();
    assert!(!reporter.should_report());

    reporter.processed_entries = 10;
    assert!(reporter.should_report());
}

#[test]
fn test_should_report_last_entry() {
    let mut reporter = ProgressReporter::new(100, 5);
    reporter.processed_entries = 100;
    assert!(reporter.should_report());
}

#[test]
fn test_get_progress_message() {
    let mut reporter = ProgressReporter::new(100, 5);
    reporter.processed_entries = 50;

    // At the start no time has passed: the speed shows as 0.0 and nothing is left to wait.
    let msg = reporter.progress_message_from("0.0", 0);
    assert!(msg.contains("50%"));
    assert!(msg.contains("50/100"));
}

#[test]
fn test_zero_total() {
    let reporter = ProgressReporter::new(0, 5);
    assert_eq!(reporter.percentage(), 0);
    assert!(!reporter.should_report());
    assert!(reporter.progress_message_from("0.0", 0).contains("正在处理"));
}

#[test]
fn should_report_after_uses_the_two_second_rule() {
    let mut reporter = ProgressReporter::new(1000, 5);
    reporter.processed_entries = 1;
    assert!(!reporter.should_report_after(1));
    assert!(reporter.should_report_after(2));
}

#[test]
fn progress_message_has_speed_and_remaining_time() {
    let mut reporter = ProgressReporter::new(100, 5);
    reporter.processed_entries = 25;
    let msg = reporter.progress_message_from("2.5", 30);
    assert_eq!(
        msg,
        "正在解压... 25% (25/100 文件, 速度: 2.5文件/秒, 预计剩余: 30秒)"
    );
    let msg = reporter.progress_message_from("0.0", 0);
    assert_eq!(
        msg,
        "正在解压... 25% (25/100 文件, 速度: 0.0文件/秒, 预计剩余: 0秒)"
    );
}

#[test]
fn test_error_category_from_error() {
    let error = AppError::InvalidPath("path too long".to_string());
    assert_eq!(ErrorCategory::from_error(&error), ErrorCategory::PathTooLong);

    let error = AppError::archive_error("unsupported format", None);
    assert_eq!(ErrorCategory::from_error(&error), ErrorCategory::UnsupportedFormat);

    let error = AppError::archive_error("zip bomb detected", None);
    assert_eq!(ErrorCategory::from_error(&error), ErrorCategory::ZipBombDetected);
}

#[test]
fn error_categories_of_io_errors() {
    let denied = AppError::Io { permission_denied: true, message: "denied".to_string() };
    assert_eq!(ErrorCategory::from_error(&denied), ErrorCategory::PermissionDenied);
    let other = AppError::Io { permission_denied: false, message: "broken pipe".to_string() };
    assert_eq!(ErrorCategory::from_error(&other), ErrorCategory::IoError);
    let depth = AppError::archive_error("Depth limit", None);
    assert_eq!(ErrorCategory::from_error(&depth), ErrorCategory::DepthLimitExceeded);
    let space = AppError::archive_error("no space left", None);
    assert_eq!(ErrorCategory::from_error(&space), ErrorCategory::DiskSpaceExhausted);
    let corrupted = AppError::archive_error("Corrupted header", None);
    assert_eq!(ErrorCategory::from_error(&corrupted), ErrorCategory::CorruptedArchive);
    let plain = AppError::archive_error("something", None);
    assert_eq!(ErrorCategory::from_error(&plain), ErrorCategory::Other);
    let v = AppError::validation_error("bad");
    assert_eq!(ErrorCategory::from_error(&v), ErrorCategory::Other);
}

#[test]
fn test_progress_metrics_creation() {
    let metrics = ProgressMetrics::new();
    assert_eq!(metrics.files_processed, 0);
    assert_eq!(metrics.bytes_processed, 0);
    assert_eq!(metrics.current_depth, 0);
    assert_eq!(metrics.max_depth_reached, 0);
}

#[test]
fn test_progress_metrics_increment() {
    let mut metrics = ProgressMetrics::new();
    assert_eq!(metrics.increment_files(), 1);
    assert_eq!(metrics.files_processed, 1);
    assert_eq!(metrics.add_bytes(1024), 1024);
    assert_eq!(metrics.bytes_processed, 1024);
}

#[test]
fn test_progress_metrics_depth_tracking() {
    let mut metrics = ProgressMetrics::new();
    metrics.set_current_depth(5);
    assert_eq!(metrics.current_depth, 5);
    assert_eq!(metrics.max_depth_reached, 5);
    metrics.set_current_depth(3);
    assert_eq!(metrics.current_depth, 3);
    assert_eq!(metrics.max_depth_reached, 5);
    metrics.set_current_depth(10);
    assert_eq!(metrics.max_depth_reached, 10);
}

#[test]
fn test_error_categorization() {
    let mut metrics = ProgressMetrics::new();
    metrics.record_error_category(ErrorCategory::PathTooLong);
    metrics.record_error_category(ErrorCategory::PathTooLong);
    metrics.record_error_category(ErrorCategory::ZipBombDetected);
    assert_eq!(metrics.errors_in(ErrorCategory::PathTooLong), 2);
    assert_eq!(metrics.errors_in(ErrorCategory::ZipBombDetected), 1);
    assert_eq!(metrics.errors_in(ErrorCategory::IoError), 0);
    assert_eq!(metrics.errors_by_category.len(), 2);
}

#[test]
fn summary_copies_the_counters() {
    let mut metrics = ProgressMetrics::new();
    metrics.increment_files();
    metrics.add_bytes(7);
    metrics.set_current_depth(2);
    metrics.record_error_category(ErrorCategory::Other);
    metrics.increment_path_shortenings();
    metrics.increment_suspicious_files();
    let s = ExtractionSummary::from_metrics(&metrics, 1500);
    assert_eq!(s.total_files, 1);
    assert_eq!(s.total_bytes, 7);
    assert_eq!(s.max_depth_reached, 2);
    assert_eq!(s.errors_by_category, vec![(ErrorCategory::Other, 1)]);
    assert_eq!(s.path_shortenings_applied, 1);
    assert_eq!(s.suspicious_files_detected, 1);
    assert_eq!(s.duration_ms, 1500);
}

#[test]
fn hierarchical_path_lists_parent_then_depth() {
    assert_eq!(
        build_hierarchical_path(Some("/test/archive.zip"), 1),
        vec!["/test/archive.zip".to_string(), "depth_1".to_string()]
    );
    assert_eq!(build_hierarchical_path(None, 0), Vec::<String>::new());
    assert_eq!(build_hierarchical_path(None, 12), vec!["depth_12".to_string()]);
}

#[test]
fn remaining_time_estimate() {
    // nothing done yet, or not a whole second gone: no estimate
    assert_eq!(files_left_to_estimate(0, 10, 5), None);
    assert_eq!(files_left_to_estimate(5, 10, 0), None);
    // everything seen is done
    assert_eq!(files_left_to_estimate(5, 5, 3), Some(0));
    assert_eq!(files_left_to_estimate(7, 5, 3), Some(0));
    // five files seen but not done
    assert_eq!(files_left_to_estimate(5, 10, 3), Some(5));
}

#[test]
fn test_error_category_mapping() {
    let test_cases = vec![
        (AppError::InvalidPath("test".to_string()), ErrorCategory::PathTooLong),
        (AppError::archive_error("unsupported", None), ErrorCategory::UnsupportedFormat),
        (AppError::archive_error("corrupted", None), ErrorCategory::CorruptedArchive),
        (AppError::archive_error("zip bomb", None), ErrorCategory::ZipBombDetected),
        (AppError::archive_error("depth exceeded", None), ErrorCategory::DepthLimitExceeded),
        (AppError::archive_error("no space", None), ErrorCategory::DiskSpaceExhausted),
        (
            AppError::Io { permission_denied: true, message: "denied".to_string() },
            ErrorCategory::PermissionDenied,
        ),
        (AppError::Validation("test".to_string()), ErrorCategory::Other),
    ];
    for (error, expected_category) in test_cases {
        let category = ErrorCategory::from_error(&error);
        assert_eq!(category, expected_category, "Error {:?} should map to {:?}", error, expected_category);
    }
}

#[test]
fn test_multiple_errors_same_category() {
    let mut tracker = ProgressTracker::new();
    for _ in 0..5 {
        tracker.record_error(&AppError::InvalidPath("test".to_string()));
    }
    let summary = tracker.generate_summary();
    assert_eq!(summary.errors_by_category.len(), 1);
    let (category, count) = &summary.errors_by_category[0];
    assert_eq!(*category, ErrorCategory::PathTooLong);
    assert_eq!(*count, 5);
}

#[test]
fn test_mixed_error_categories() {
    let mut tracker = ProgressTracker::new();
    tracker.record_error(&AppError::InvalidPath("test".to_string()));
    tracker.record_error(&AppError::archive_error("zip bomb", None));
    tracker.record_error(&AppError::InvalidPath("test2".to_string()));
    let summary = tracker.generate_summary();
    assert_eq!(summary.errors_by_category.len(), 2);
    let path_count = summary
        .errors_by_category
        .iter()
        .find(|(cat, _)| *cat == ErrorCategory::PathTooLong)
        .map(|(_, count)| *count)
        .unwrap_or(0);
    assert_eq!(path_count, 2);
    let bomb_count = summary
        .errors_by_category
        .iter()
        .find(|(cat, _)| *cat == ErrorCategory::ZipBombDetected)
        .map(|(_, count)| *count)
        .unwrap_or(0);
    assert_eq!(bomb_count, 1);
}

#[test]
fn test_summary_generation() {
    let mut tracker = ProgressTracker::new();
    tracker.metrics.increment_files();
    tracker.metrics.increment_files();
    tracker.metrics.add_bytes(2048);
    tracker.metrics.set_current_depth(3);
    tracker.metrics.record_error_category(ErrorCategory::PathTooLong);
    let summary = tracker.generate_summary();
    assert_eq!(summary.total_files, 2);
    assert_eq!(summary.total_bytes, 2048);
    assert_eq!(summary.max_depth_reached, 3);
    assert_eq!(summary.errors_by_category.len(), 1);
}

#[test]
fn tracker_events_carry_the_counters() {
    let mut tracker = ProgressTracker::new();
    tracker.metrics.increment_files();
    tracker.metrics.add_bytes(10);
    let e = tracker.emit_progress("ws", "a.log", 1, Some("outer.zip"), Some(4));
    assert_eq!(e.estimated_remaining_secs, Some(4));
    assert_eq!(e.workspace_id, "ws");
    assert_eq!(e.files_processed, 1);
    assert_eq!(e.bytes_processed, 10);
    assert_eq!(e.hierarchical_path, vec!["outer.zip", "depth_1"]);
    assert_eq!(tracker.metrics().files_processed, 1);
}

#[test]
fn progress_lines_match_the_floating_point_rendering() {
    for (processed, total, secs) in
        [(50usize, 100usize, 3u64), (1, 1000, 7), (999, 1000, 9), (37, 40, 11), (7, 42, 3), (1, 100, 20)]
    {
        let mut reporter = ProgressReporter::new(total, 5);
        reporter.processed_entries = processed;
        let speed = processed as f64 / secs as f64;
        let remaining = ((total - processed) as f64 / speed) as u64;
        let speed_text = format!("{:.1}", speed);
        let expected = format!(
            "正在解压... {}% ({}/{} 文件, 速度: {}文件/秒, 预计剩余: {}秒)",
            processed * 100 / total,
            processed,
            total,
            speed_text,
            remaining
        );
        assert_eq!(reporter.progress_message_from(&speed_text, remaining), expected);
    }
}

#[test]
fn tracker_errors_leave_other_counters_alone() {
    let mut tracker = ProgressTracker::new();
    tracker.metrics.set_current_depth(2);
    tracker.metrics.increment_path_shortenings();
    tracker.metrics.increment_suspicious_files();
    tracker.metrics.increment_files();
    for _ in 0..3 {
        tracker.record_error(&AppError::InvalidPath("p".to_string()));
    }
    tracker.record_error(&AppError::Validation("v".to_string()));
    let m = tracker.metrics();
    assert_eq!(m.current_depth, 2);
    assert_eq!(m.path_shortenings_applied, 1);
    assert_eq!(m.suspicious_files_detected, 1);
    let s = tracker.generate_summary();
    assert_eq!(s.total_files, 1);
    assert_eq!(
        s.errors_by_category,
        vec![(ErrorCategory::PathTooLong, 3), (ErrorCategory::Other, 1)]
    );
    assert!(s.errors_by_category.iter().all(|(_, n)| *n > 0));
}
