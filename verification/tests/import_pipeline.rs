use log_analyzer::api::{
    csv_byte_order_mark, export_format, get_available_log_levels, invalid_log_level,
    parse_log_preset, validate_history_entry, validation_failure_message, ExportFormat,
    LegacyDetectionResponse, LogPreset,
};
use log_analyzer::errors::AppError;
use log_analyzer::paths::{check_export_path, check_export_target};
use log_analyzer::pipeline::{
    archive_type_of, child_virtual_path, decide_entry, extraction_dir_name,
    imported_file_record, legacy_nesting_depth, locate_extracted, nested_virtual_path,
    nesting_allowed, ArchiveStatus, CheckpointCounters, EntryAction,
};
use log_analyzer::search::search_guard;

#[test]
fn entries_are_sorted_into_actions() {
    assert_eq!(decide_entry(true, "../evil", false, false, false, false).unwrap(), EntryAction::Skip);
    assert!(matches!(
        decide_entry(false, "../evil", true, false, false, true),
        Err(AppError::Validation(_))
    ));
    assert_eq!(decide_entry(false, "logs/a", false, false, false, true).unwrap(), EntryAction::Skip);
    assert_eq!(decide_entry(false, "logs", true, true, false, true).unwrap(), EntryAction::Descend);
    assert_eq!(
        decide_entry(false, "logs/a.zip", true, false, true, false).unwrap(),
        EntryAction::ExtractArchive
    );
    assert_eq!(decide_entry(false, "logs/a.bin", true, false, false, false).unwrap(), EntryAction::Skip);
    assert_eq!(decide_entry(false, "logs/a.log", true, false, false, true).unwrap(), EntryAction::StoreFile);
}

#[test]
fn virtual_paths_and_nesting() {
    assert_eq!(child_virtual_path("root", "a.log"), "root/a.log");
    assert_eq!(nested_virtual_path("root", "b.zip", "dir/c.log"), "root/b.zip/dir/c.log");
    assert_eq!(legacy_nesting_depth("a/b/c"), 2);
    assert_eq!(legacy_nesting_depth(""), 0);
    assert!(nesting_allowed(9));
    assert!(!nesting_allowed(10));
    assert_eq!(archive_type_of(&Some("ZIP".to_string())), "zip");
    assert_eq!(archive_type_of(&None), "unknown");
}

#[test]
fn extraction_directories_are_named_by_file_and_time() {
    assert_eq!(extraction_dir_name("logs.tar.gz", 1700000000123), "logs_tar_gz_1700000000123");
    assert_eq!(extraction_dir_name("plain", 0), "plain_0");
}

#[test]
fn extracted_files_are_located_below_the_directory() {
    let (rel, full) = locate_extracted("/tmp/x/a/b.log", "/tmp/x").unwrap();
    assert_eq!(rel, "a/b.log");
    assert_eq!(full, "/tmp/x/a/b.log");
    match locate_extracted("/elsewhere/b.log", "/tmp/x") {
        Err(AppError::Validation(m)) => {
            assert_eq!(m, "Failed to compute relative path for /elsewhere/b.log")
        }
        _ => panic!("expected a validation error"),
    }
    let (rel, full) = locate_extracted("a/b.log", "/tmp/x").unwrap();
    assert_eq!(rel, "a/b.log");
    assert_eq!(full, "/tmp/x/a/b.log");
}

#[test]
fn archive_status_moves_on_after_extraction() {
    assert_eq!(ArchiveStatus::Pending.after_extraction(true), ArchiveStatus::Extracting);
    assert_eq!(ArchiveStatus::Pending.after_extraction(false), ArchiveStatus::Failed);
    assert_eq!(ArchiveStatus::Completed.as_str(), "completed");
    let mut c = CheckpointCounters::new();
    c.record_file(10);
    c.record_file(5);
    assert_eq!(c.files_since_checkpoint, 2);
    assert_eq!(c.bytes_since_checkpoint, 15);
    c.reset();
    assert_eq!(c.files_since_checkpoint, 0);
}

#[test]
fn imported_files_are_hashed_and_named() {
    let r = imported_file_record("/src", "/src/logs/app.log", b"abc", 42);
    assert_eq!(r.sha256_hash, "ba7816bf8f01cfea414140de5dae2223b00361a396177a9cb410ff61f20015ad");
    assert_eq!(r.virtual_path, "logs/app.log");
    assert_eq!(r.original_name, "app.log");
    assert_eq!(r.size, 3);
    assert_eq!(r.modified_time, 42);
    assert_eq!(r.mime_type.as_deref(), Some("text/plain"));
    assert_eq!(r.depth_level, 0);
    let other = imported_file_record("/src", "/other/data.json", b"", 1);
    assert_eq!(other.virtual_path, "/other/data.json");
    assert_eq!(other.mime_type.as_deref(), Some("application/json"));
    let bare = imported_file_record("/src", "/src/README", b"x", 1);
    assert_eq!(bare.mime_type.as_deref(), Some("text/plain"));
}

#[test]
fn export_formats_and_paths() {
    assert_eq!(export_format("csv").unwrap(), ExportFormat::Csv);
    assert_eq!(export_format("json").unwrap(), ExportFormat::Json);
    let e = export_format("xml").unwrap_err();
    assert_eq!(e.code, "UNSUPPORTED_EXPORT_FORMAT");
    assert_eq!(e.message, "Unsupported format: xml");
    assert_eq!(csv_byte_order_mark(), [0xEF, 0xBB, 0xBF]);
    assert!(check_export_path("exports/out.csv").is_ok());
    assert_eq!(check_export_path("/etc/out.csv").unwrap_err().code, "ABSOLUTE_PATH_REJECTED");
    assert_eq!(check_export_path("a/../../out.csv").unwrap_err().code, "PATH_TRAVERSAL_DETECTED");
}

#[test]
fn history_entries_need_query_and_workspace() {
    assert_eq!(validate_history_entry("  error  ", "ws").unwrap(), "error");
    assert_eq!(validate_history_entry("   ", "ws").unwrap_err(), "Search query cannot be empty");
    assert_eq!(validate_history_entry("q", " ").unwrap_err(), "Workspace ID cannot be empty");
}

#[test]
fn configuration_failures_list_every_field() {
    let errors = vec![
        ("max_results".to_string(), "too large".to_string()),
        ("timeout".to_string(), "must be positive".to_string()),
    ];
    assert_eq!(
        validation_failure_message("Invalid config", &errors),
        "Invalid config: max_results: too large; timeout: must be positive"
    );
    assert_eq!(validation_failure_message("Invalid config", &Vec::new()), "Invalid config: ");
}

#[test]
fn log_levels_and_presets() {
    assert_eq!(get_available_log_levels().unwrap(), vec!["trace", "debug", "info", "warn", "error"]);
    assert_eq!(parse_log_preset("production").unwrap(), LogPreset::Production);
    assert_eq!(parse_log_preset("debug").unwrap(), LogPreset::Debug);
    assert_eq!(parse_log_preset("default").unwrap(), LogPreset::Default);
    let e = parse_log_preset("verbose").unwrap_err();
    assert_eq!(e.code, "UNKNOWN_LOG_PRESET");
    assert_eq!(e.message, "未知的预设: verbose");
    let e = invalid_log_level("loud");
    assert_eq!(e.code, "INVALID_LOG_LEVEL");
    assert_eq!(e.message, "无效的日志级别: loud");
}

#[test]
fn legacy_scan_reports_what_it_found() {
    let r = LegacyDetectionResponse::from_scan(vec!["a".to_string(), "b".to_string()], "found".to_string());
    assert!(r.has_legacy_workspaces);
    assert_eq!(r.count, 2);
    let none = LegacyDetectionResponse::from_scan(Vec::new(), "none".to_string());
    assert!(!none.has_legacy_workspaces);
    assert_eq!(none.count, 0);
}

#[test]
fn searches_stop_when_cancelled_or_late() {
    assert_eq!(search_guard(true, 0, 10).unwrap_err(), "Search cancelled");
    assert_eq!(search_guard(false, 11, 10).unwrap_err(), "Search timed out");
    assert!(search_guard(false, 10, 10).is_ok());
}

#[test]
fn exports_stay_in_the_download_directory() {
    assert!(check_export_target(None, "/home/u/Downloads").is_ok());
    assert!(check_export_target(Some("/home/u/Downloads/out.csv"), "/home/u/Downloads").is_ok());
    let e = check_export_target(Some("/etc/out.csv"), "/home/u/Downloads").unwrap_err();
    assert_eq!(e.code, "EXPORT_PATH_ESCAPE");
    assert_eq!(e.message, "导出路径不允许超出下载目录范围");
}
