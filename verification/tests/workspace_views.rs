use log_analyzer::api::{
    is_cas_workspace, resolve_refresh_source_path, resolve_workspace_display_name, time_bound_text,
    workspace_info, workspace_size_label, workspace_status_response, workspace_time_range,
    RefreshSource,
    StoredWorkspace,
};
use log_analyzer::handlers::{
    ArchiveExtractionSummary, ExtractionLimits, PathViolation, SecurityConfig, ZipEntryRead,
    ZipEntryStep, ZipFailure, ZipHandler,
};

fn stored(id: &str, name: Option<&str>, path: Option<&str>) -> StoredWorkspace {
    StoredWorkspace {
        id: id.to_string(),
        name: name.map(|s| s.to_string()),
        path: path.map(|s| s.to_string()),
    }
}

#[test]
fn size_labels_switch_to_gigabytes_at_one_gigabyte() {
    let mb: u64 = 1024 * 1024;
    assert_eq!(workspace_size_label(0), "0MB");
    assert_eq!(workspace_size_label(mb - 1), "0MB");
    assert_eq!(workspace_size_label(1023 * mb), "1023MB");
    assert_eq!(workspace_size_label(1024 * mb), "1.0GB");
    assert_eq!(workspace_size_label(1536 * mb), "1.5GB");
}

#[test]
fn size_labels_round_as_one_decimal_formatting_does() {
    let mb: u64 = 1024 * 1024;
    for size_mb in [1024u64, 1075, 1126, 1280, 1331, 1792, 2048, 2099, 10239, 10240, 123456, 4_000_000] {
        let expected = format!("{:.1}GB", size_mb as f64 / 1024.0);
        assert_eq!(workspace_size_label(size_mb * mb), expected, "size {} MB", size_mb);
    }
}

#[test]
fn status_answers_use_the_saved_name() {
    let r = workspace_status_response("ws-1", Some("Logs".to_string()), 12, 2048 * 1024 * 1024);
    assert_eq!(r.id, "ws-1");
    assert_eq!(r.name, "Logs");
    assert_eq!(r.status, "READY");
    assert_eq!(r.size, "2.0GB");
    assert_eq!(r.files, 12);
    let unnamed = workspace_status_response("ws-2", None, 0, 5 * 1024 * 1024);
    assert_eq!(unnamed.name, "ws-2");
    assert_eq!(unnamed.size, "5MB");
}

#[test]
fn display_names_come_from_the_first_matching_entry() {
    let list = vec![
        stored("a", Some("Alpha"), None),
        stored("b", Some("   "), Some("/logs/b")),
        stored("b", Some("Beta"), None),
    ];
    assert_eq!(resolve_workspace_display_name(&list, "a").as_deref(), Some("Alpha"));
    assert_eq!(resolve_workspace_display_name(&list, "b"), None);
    assert_eq!(resolve_workspace_display_name(&list, "c"), None);
}

#[test]
fn refresh_sources_prefer_the_request() {
    let list = vec![stored("a", None, Some("/data/a")), stored("b", None, Some("  "))];
    match resolve_refresh_source_path(Some("/new/path".to_string()), &list, "a").unwrap() {
        RefreshSource::Requested(p) => assert_eq!(p, "/new/path"),
        RefreshSource::Stored(_) => panic!("expected the requested path"),
    }
    match resolve_refresh_source_path(Some("   ".to_string()), &list, "a").unwrap() {
        RefreshSource::Stored(p) => assert_eq!(p, "/data/a"),
        RefreshSource::Requested(_) => panic!("expected the saved path"),
    }
    let e = match resolve_refresh_source_path(None, &list, "b") {
        Err(e) => e,
        Ok(_) => panic!("expected a configuration error"),
    };
    assert_eq!(e.code, "CONFIG_ERROR");
    assert_eq!(e.message, "Workspace source path missing");
    assert_eq!(e.help.as_deref(), Some("Please refresh the workspace list or re-import it"));
}

#[test]
fn time_bounds_are_written_in_rfc3339() {
    assert_eq!(time_bound_text(0), None);
    assert_eq!(time_bound_text(-5), None);
    assert_eq!(time_bound_text(1).as_deref(), Some("1970-01-01T00:00:01+00:00"));
    assert_eq!(time_bound_text(1700000000).as_deref(), Some("2023-11-14T22:13:20+00:00"));
    assert_eq!(time_bound_text(i64::MAX).as_deref(), Some("9223372036854775807"));
    let r = workspace_time_range(0, 86400, 42);
    assert_eq!(r.min_timestamp, None);
    assert_eq!(r.max_timestamp.as_deref(), Some("1970-01-02T00:00:00+00:00"));
    assert_eq!(r.total_logs, 42);
}

#[test]
fn zip_listing_names_entries_by_file_name() {
    let raws = vec![
        ZipEntryRead::Read { name: "dir/".to_string(), is_dir: true, size: 0, compressed_size: 0 },
        ZipEntryRead::Unreadable,
        ZipEntryRead::Read { name: "dir/a.log".to_string(), is_dir: false, size: 100, compressed_size: 40 },
        ZipEntryRead::Read { name: "..".to_string(), is_dir: false, size: 1, compressed_size: 1 },
    ];
    let entries = ZipHandler::list_entries(&raws);
    assert_eq!(entries.len(), 3);
    assert_eq!(entries[0].name, "dir");
    assert!(entries[0].is_dir);
    assert_eq!(entries[1].name, "a.log");
    assert_eq!(entries[1].path, "dir/a.log");
    assert_eq!(entries[1].size, 100);
    assert_eq!(entries[1].compressed_size, 40);
    assert_eq!(entries[2].name, "");
}

#[test]
fn zip_entries_are_screened_then_limited() {
    let config = SecurityConfig {
        allow_absolute_paths: false,
        allow_parent_traversal: false,
        path_blacklist: vec![],
    };
    let limits = ExtractionLimits { max_file_size: 100, max_total_size: 150, max_file_count: 2 };
    let mut summary = ArchiveExtractionSummary::new();
    assert!(matches!(
        ZipHandler::entry_step(&mut summary, "/etc/passwd", 1, false, &config, &limits),
        ZipEntryStep::Refused(PathViolation::AbsolutePathNotAllowed { .. })
    ));
    assert!(matches!(
        ZipHandler::entry_step(&mut summary, "a.log", 101, false, &config, &limits),
        ZipEntryStep::OverLimits
    ));
    assert_eq!(summary.errors, vec!["File skipped (limits exceeded): a.log"]);
    assert!(matches!(
        ZipHandler::entry_step(&mut summary, "dir/", 0, true, &config, &limits),
        ZipEntryStep::MakeDir
    ));
    assert!(matches!(
        ZipHandler::entry_step(&mut summary, "b.log", 100, false, &config, &limits),
        ZipEntryStep::Extract
    ));
    summary.add_file("b.log".to_string(), 100);
    assert!(matches!(
        ZipHandler::entry_step(&mut summary, "c.log", 60, false, &config, &limits),
        ZipEntryStep::OverLimits
    ));
    assert_eq!(summary.files_extracted, 1);
    assert_eq!(summary.errors.len(), 2);
}

#[test]
fn zip_failures_are_described() {
    assert_eq!(ZipHandler::failure_message(ZipFailure::Entry, "3", "bad header"), "Entry 3: bad header");
    assert_eq!(
        ZipHandler::failure_message(ZipFailure::Creation, "a.log", "denied"),
        "File creation failed for a.log: denied"
    );
    assert_eq!(
        ZipHandler::failure_message(ZipFailure::Extraction, "a.log", "short read"),
        "Extraction failed for a.log: short read"
    );
}

#[test]
fn workspace_records_count_only_ready_workspaces() {
    let ready = workspace_info("ws1".to_string(), Some("Logs".to_string()), true, true, Some(7));
    assert_eq!(ready.name, "Logs");
    assert_eq!(ready.status, "ready");
    assert_eq!(ready.file_count, 7);
    let failed_count = workspace_info("ws2".to_string(), None, true, true, None);
    assert_eq!(failed_count.name, "ws2");
    assert_eq!(failed_count.file_count, 0);
    let partial = workspace_info("ws3".to_string(), None, true, false, Some(9));
    assert_eq!(partial.status, "incomplete");
    assert_eq!(partial.file_count, 0);
}

#[test]
fn content_addressed_workspaces_have_either_store() {
    assert!(is_cas_workspace(true, false));
    assert!(is_cas_workspace(false, true));
    assert!(!is_cas_workspace(false, false));
}
