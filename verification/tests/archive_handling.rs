use log_analyzer::errors::{AppError, ErrorCode, ExtractionError};
use log_analyzer::handlers::{
    read_limit, with_truncation_notice, ArchiveExtractionSummary, ExtractionLimits, PathViolation,
    RarHandler, SecurityConfig, SevenZHandler, TarEntryRead, TarHandler, ZipHandler,
};
use log_analyzer::resources::{CleanupStats, ManagedBuffer, ResourceManager};
use log_analyzer::security::{
    cumulative_after, cumulative_limit_exceeded, entry_totals, halting_rule, too_many_entries,
    ArchiveEntry, Severity, ViolationType,
};
use log_analyzer::traversal::{
    check_root, TraversalConfig, TraversalError, TraversalStats, WalkItem, WalkStep,
};

#[test]
fn test_zip_handler_base_impl() {
    let handler = ZipHandler {};
    assert_eq!(handler.handler_name(), "ZipHandler");
    assert_eq!(handler.supported_formats(), &["zip"]);
}

#[test]
fn test_zip_handler_can_handle() {
    let handler = ZipHandler {};
    assert!(handler.can_handle("test.zip"));
    assert!(handler.can_handle("test.ZIP"));
    assert!(!handler.can_handle("test.rar"));
    assert!(!handler.can_handle("test.txt"));
}

#[test]
fn test_zip_handler_file_extensions() {
    let handler = ZipHandler {};
    let extensions = handler.file_extensions();
    assert_eq!(extensions, vec!["zip"]);
}

#[test]
fn other_handlers_recognise_their_extensions() {
    assert!(RarHandler.can_handle("a/b/c.RaR"));
    assert!(!RarHandler.can_handle("rar"));
    assert!(SevenZHandler {}.can_handle("x.7z"));
    let tar = TarHandler {};
    assert!(tar.can_handle("logs.tar"));
    assert!(tar.can_handle("logs.TGZ"));
    assert!(tar.can_handle("logs.tar.gz"));
    assert!(tar.can_handle("logs.TAR.GZ"));
    assert!(!tar.can_handle("logs.gz"));
    assert!(!tar.can_handle("logs.zip"));
    assert_eq!(tar.file_extensions(), vec!["tar", "tar.gz", "tgz"]);
    assert!(TarHandler::is_gzipped("a.tgz"));
    assert!(TarHandler::is_gzipped("a.tar.GZ"));
    assert!(!TarHandler::is_gzipped("a.tar"));
}

#[test]
fn rar_extraction_is_refused_in_this_build() {
    let limits = ExtractionLimits { max_file_size: 10, max_total_size: 10, max_file_count: 1 };
    match RarHandler.extract_with_limits(limits) {
        Err(AppError::Archive { message, path }) => {
            assert!(message.contains("RAR support is not enabled"));
            assert!(path.is_none());
        }
        _ => panic!("RAR extraction must fail"),
    }
}

#[test]
fn limits_admit_only_what_fits() {
    let limits = ExtractionLimits { max_file_size: 100, max_total_size: 150, max_file_count: 2 };
    let mut s = ArchiveExtractionSummary::new();
    assert!(!s.admit_file("big".to_string(), 101, &limits));
    assert!(s.admit_file("a".to_string(), 100, &limits));
    assert!(!s.admit_file("b".to_string(), 60, &limits));
    assert!(s.admit_file("c".to_string(), 50, &limits));
    assert!(!s.admit_file("d".to_string(), 0, &limits));
    assert_eq!(s.files_extracted, 2);
    assert_eq!(s.total_size, 150);
    assert_eq!(s.extracted_files, vec!["a".to_string(), "c".to_string()]);
}

fn strict_config(blacklist: &[&str]) -> SecurityConfig {
    SecurityConfig {
        allow_absolute_paths: false,
        allow_parent_traversal: false,
        path_blacklist: blacklist.iter().map(|s| s.to_string()).collect(),
    }
}

#[test]
fn zip_entry_paths_are_screened() {
    let config = strict_config(&["secret"]);
    assert!(ZipHandler::validate_path_static("logs/app.log", &config).is_ok());
    assert!(ZipHandler::validate_path_static("logs/../app.log", &config).is_ok());
    assert!(matches!(
        ZipHandler::validate_path_static("/etc/passwd", &config),
        Err(PathViolation::AbsolutePathNotAllowed { .. })
    ));
    assert!(matches!(
        ZipHandler::validate_path_static("../evil.txt", &config),
        Err(PathViolation::ParentTraversalNotAllowed { .. })
    ));
    assert!(matches!(
        ZipHandler::validate_path_static("a/../../evil.txt", &config),
        Err(PathViolation::ParentTraversalNotAllowed { .. })
    ));
    assert!(matches!(
        ZipHandler::validate_path_static("dir/secret.txt", &config),
        Err(PathViolation::PathBlacklisted { .. })
    ));
    let lax = SecurityConfig {
        allow_absolute_paths: true,
        allow_parent_traversal: true,
        path_blacklist: vec![],
    };
    assert!(ZipHandler::validate_path_static("/x/../../y", &lax).is_ok());
}

#[test]
fn tar_listing_names_entries_by_file_name() {
    let headers = vec![
        TarEntryRead::Read { path: Some("logs/app.log".to_string()), is_dir: false, size: Some(12) },
        TarEntryRead::Unreadable,
        TarEntryRead::Read { path: None, is_dir: false, size: Some(1) },
        TarEntryRead::Read { path: Some("logs/".to_string()), is_dir: true, size: None },
    ];
    let mut entries = Vec::new();
    assert!(TarHandler::list_contents_sync(Ok(headers), &mut entries).is_ok());
    assert_eq!(entries.len(), 2);
    assert_eq!(entries[0].name, "app.log");
    assert_eq!(entries[0].path, "logs/app.log");
    assert_eq!(entries[0].size, 12);
    assert_eq!(entries[0].compressed_size, 12);
    assert_eq!(entries[1].name, "logs");
    assert!(entries[1].is_dir);
    assert_eq!(entries[1].size, 0);
    let mut none = Vec::new();
    match TarHandler::list_contents_sync(Err("bad header".to_string()), &mut none) {
        Err(AppError::Archive { message, .. }) => assert_eq!(message, "bad header"),
        _ => panic!("expected an archive error"),
    }
}

#[test]
fn tar_reads_match_path_or_name() {
    assert!(TarHandler::entry_matches("logs/app.log", "logs/app.log"));
    assert!(TarHandler::entry_matches("logs/app.log", "app.log"));
    assert!(!TarHandler::entry_matches("logs/app.log", "logs"));
    assert_eq!(read_limit(20, 10), Some(10));
    assert_eq!(read_limit(10, 10), None);
    assert_eq!(
        with_truncation_notice("abc".to_string(), 20971520),
        "abc\n\n[文件过大，已截断显示. 完整大小: 20971520 bytes]"
    );
    match TarHandler::not_found("x.log") {
        AppError::Archive { message, path } => {
            assert_eq!(message, "File not found in archive: x.log");
            assert!(path.is_none());
        }
        _ => panic!("expected an archive error"),
    }
}

#[test]
fn test_traversal_stats_new() {
    let stats = TraversalStats::new();
    let snapshot = stats.snapshot();
    assert_eq!(snapshot.processed_count, 0);
    assert_eq!(snapshot.error_count, 0);
    assert_eq!(snapshot.symlink_count, 0);
    assert_eq!(snapshot.depth_skipped_count, 0);
    assert_eq!(snapshot.bytes_processed, 0);
}

#[test]
fn test_traversal_config_default() {
    let config = TraversalConfig::default();
    assert!(config.root.is_empty());
    assert_eq!(config.min_depth, 1);
    assert_eq!(config.max_depth, std::usize::MAX);
    assert!(!config.follow_symlinks);
}

#[test]
fn test_traversal_config_builder() {
    let config = TraversalConfig::new("/test".to_string())
        .with_max_depth(5)
        .with_follow_symlinks(true);
    assert_eq!(config.root, "/test".to_string());
    assert_eq!(config.max_depth, 5);
    assert!(config.follow_symlinks);
}

#[test]
fn test_traversal_stats_record_symlink() {
    let mut stats = TraversalStats::new();
    stats.record_symlink();
    stats.record_symlink();
    let snapshot = stats.snapshot();
    assert_eq!(snapshot.symlink_count, 2);
}

#[test]
fn test_traversal_stats_record_error() {
    let mut stats = TraversalStats::new();
    stats.record_error();
    let snapshot = stats.snapshot();
    assert_eq!(snapshot.error_count, 1);
}

#[test]
fn test_traversal_stats_record_depth_skipped() {
    let mut stats = TraversalStats::new();
    stats.record_depth_skipped();
    let snapshot = stats.snapshot();
    assert_eq!(snapshot.depth_skipped_count, 1);
}

#[test]
fn walk_items_are_counted_once() {
    let mut stats = TraversalStats::new();
    assert_eq!(
        stats.on_walk_item(false, WalkItem::Entry { is_symlink: true, size: Some(3) }),
        WalkStep::Skip
    );
    assert_eq!(
        stats.on_walk_item(true, WalkItem::Entry { is_symlink: true, size: Some(3) }),
        WalkStep::Yield
    );
    assert_eq!(stats.on_walk_item(false, WalkItem::Failed), WalkStep::Skip);
    assert_eq!(
        stats.on_walk_item(false, WalkItem::Entry { is_symlink: false, size: None }),
        WalkStep::Yield
    );
    assert_eq!(stats.on_walk_item(false, WalkItem::Done), WalkStep::Finish);
    let s = stats.snapshot();
    assert_eq!((s.processed_count, s.error_count, s.symlink_count, s.bytes_processed), (2, 1, 1, 3));
}

#[test]
fn walk_roots_must_be_directories() {
    assert!(matches!(check_root("/nope", false, false), Err(TraversalError::PathNotFound { .. })));
    assert!(matches!(check_root("/f", true, false), Err(TraversalError::NotADirectory { .. })));
    assert!(check_root("/d", true, true).is_ok());
}

#[test]
fn test_error_code_conversion() {
    let app_error = AppError::validation_error("path too long");
    let extraction_error = ExtractionError::from(app_error);
    assert_eq!(extraction_error.error_code, ErrorCode::PathTooLong);
    assert!(!extraction_error.suggested_remediation.is_empty());
}

#[test]
fn test_extraction_error_display() {
    let error = ExtractionError {
        error_code: ErrorCode::ZipBombDetected,
        error_message: "Suspicious compression ratio detected".to_string(),
        failed_file_path: Some("/tmp/malicious.zip".to_string()),
        suggested_remediation: "Review the archive".to_string(),
        context: Vec::new(),
    };
    let display = error.to_display_string();
    assert!(display.contains("ZipBombDetected"));
    assert!(display.contains("Suspicious compression ratio"));
}

#[test]
fn test_error_code_mapping() {
    let test_cases = vec![
        ("path too long", ErrorCode::PathTooLong),
        ("unsupported format", ErrorCode::UnsupportedFormat),
        ("corrupted archive", ErrorCode::CorruptedArchive),
        ("permission denied", ErrorCode::PermissionDenied),
        ("zip bomb detected", ErrorCode::ZipBombDetected),
        ("depth limit exceeded", ErrorCode::DepthLimitExceeded),
        ("disk space exhausted", ErrorCode::DiskSpaceExhausted),
        ("operation cancelled", ErrorCode::CancellationRequested),
        ("invalid configuration", ErrorCode::InvalidConfiguration),
        ("unknown error", ErrorCode::InternalError),
    ];
    for (message, expected_code) in test_cases {
        let app_error = AppError::validation_error(message);
        let extraction_error = ExtractionError::from(app_error);
        assert_eq!(extraction_error.error_code, expected_code);
    }
}

#[test]
fn test_extraction_error_context() {
    let context = vec![
        ("file_size".to_string(), "1000000".to_string()),
        ("compression_ratio".to_string(), "1000".to_string()),
    ];
    let error = ExtractionError {
        error_code: ErrorCode::ZipBombDetected,
        error_message: "Suspicious archive detected".to_string(),
        failed_file_path: Some("/tmp/suspicious.zip".to_string()),
        suggested_remediation: "Review the archive for malicious content".to_string(),
        context: context.clone(),
    };
    assert_eq!(error.context_get("file_size").unwrap(), "1000000");
    assert_eq!(error.context_get("compression_ratio").unwrap(), "1000");
    assert!(error.context_get("missing").is_none());
}

#[test]
fn conversion_records_the_original_message() {
    let e = ExtractionError::from(AppError::archive_error("corrupt header", None));
    assert_eq!(e.error_code, ErrorCode::CorruptedArchive);
    assert_eq!(e.error_message, "Archive error: corrupt header");
    assert_eq!(e.context_get("original_error").unwrap(), "Archive error: corrupt header");
    assert_eq!(
        e.suggested_remediation,
        "Verify the archive file is not corrupted and try re-downloading"
    );
}

#[test]
fn handle_registry_releases_by_workspace() {
    let mut m = ResourceManager::new("/tmp/base".to_string(), Some(1_000_000_000));
    assert_eq!(m.temp_ttl(), 1_000_000_000);
    m.register_file_handle("/a".to_string(), "ws1".to_string());
    m.register_file_handle("/b".to_string(), "ws2".to_string());
    m.register_file_handle("/c".to_string(), "ws1".to_string());
    assert_eq!(m.active_handle_count(), 3);
    assert_eq!(m.release_workspace_handles("ws1").unwrap(), 2);
    assert_eq!(m.active_handle_count(), 1);
    assert_eq!(m.release_workspace_handles("ws1").unwrap(), 0);
    m.unregister_file_handle("/b");
    assert_eq!(m.active_handle_count(), 0);
    assert!(m.is_expired(Some(1_000_000_001)));
    assert!(!m.is_expired(Some(1_000_000_000)));
    assert!(!m.is_expired(None));
    let d = ResourceManager::new("/tmp".to_string(), None);
    assert_eq!(d.temp_ttl(), 86_400_000_000_000);
}

#[test]
fn managed_buffers_start_zeroed() {
    let mut b = ManagedBuffer::new(4, "buf".to_string());
    assert_eq!(b.len(), 4);
    assert!(!b.is_empty());
    assert_eq!(b.as_slice(), &[0, 0, 0, 0]);
    b.as_mut_slice()[1] = 7;
    assert_eq!(b.as_slice(), &[0, 7, 0, 0]);
    assert!(ManagedBuffer::new(0, "e".to_string()).is_empty());
    let c = CleanupStats::default();
    assert_eq!(c.handles_released + c.mappings_removed + c.temp_files_removed, 0);
}

#[test]
fn cumulative_size_rule() {
    assert_eq!(cumulative_after(u64::MAX - 1, 5), u64::MAX);
    assert_eq!(cumulative_limit_exceeded(5, 5, 10), None);
    assert_eq!(cumulative_limit_exceeded(5, 6, 10), Some(11));
    assert!(too_many_entries(10001));
    assert!(!too_many_entries(10000));
    let entries = vec![
        ArchiveEntry { path: "a".to_string(), compressed_size: 10, uncompressed_size: 100, is_directory: false },
        ArchiveEntry { path: "b".to_string(), compressed_size: 5, uncompressed_size: 7, is_directory: false },
    ];
    assert_eq!(entry_totals(&entries), (15, 107));
    assert!(Severity::Low < Severity::Critical);
}

#[test]
fn halting_rules_are_checked_in_order() {
    assert_eq!(halting_rule(false, false, false), None);
    assert_eq!(
        halting_rule(true, true, true),
        Some((ViolationType::ExcessiveCompressionRatio, Severity::High))
    );
    assert_eq!(
        halting_rule(false, true, true),
        Some((ViolationType::RiskScoreExceeded, Severity::Critical))
    );
    assert_eq!(
        halting_rule(false, false, true),
        Some((ViolationType::CumulativeSizeExceeded, Severity::Critical))
    );
}
