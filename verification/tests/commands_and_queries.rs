use log_analyzer::api::{
    cleanup_outcome, directory_still_exists, get_error_statistics, get_index_metrics,
    get_rar_support_info, get_task_manager_metrics, http_max_results, http_query_terms,
    legacy_index_file_names, memory_metrics_from, retry_delay_ms, tally_matches, term_id,
    workspace_status, ApiResponse, HttpApiState, MonitoringResult, WatchRegistry,
};
use log_analyzer::benchmark::{generate_keywords, generate_test_content};
use log_analyzer::paths::{
    archive_config_advisories, build_workspace_id, check_log_config_path, full_path_for_check, is_archive_file,
    mime_type_for_extension, slug_for_workspace, validate_file_hash, validate_path_safety,
    validate_path_security, validate_virtual_path, validate_workspace_id_format,
    workspace_id_with_suffix,
};
use log_analyzer::query::{escape_sqlite_glob_literal, level_to_mask, split_query_by_pipe};

#[test]
fn test_api_response_success() {
    let response = ApiResponse::success("test".to_string());
    assert!(response.success);
    assert_eq!(response.data, Some("test".to_string()));
    assert!(response.error.is_none());
}

#[test]
fn test_api_response_error() {
    let response: ApiResponse<String> = ApiResponse::error("test error");
    assert!(!response.success);
    assert!(response.data.is_none());
    assert_eq!(response.error, Some("test error".to_string()));
}

#[test]
fn monitoring_results_carry_data_or_error() {
    let ok = MonitoringResult::success(3u32);
    assert!(ok.success && ok.data == Some(3) && ok.error.is_none());
    let err: MonitoringResult<u32> = MonitoringResult::error("boom".to_string());
    assert!(!err.success && err.data.is_none());
    assert_eq!(err.error, Some("boom".to_string()));
    let st = HttpApiState::new("/data".to_string(), "127.0.0.1:8080".to_string());
    assert_eq!(st.bind_addr, "127.0.0.1:8080");
}

#[test]
fn rar_support_reports_compiled_feature_state() {
    let support = get_rar_support_info();
    assert!(!support.compiled);
    assert!(!support.available);
    assert!(support
        .reason
        .as_deref()
        .is_some_and(|reason| reason.contains("not compiled")));
}

#[test]
fn test_validate_file_hash_accepts_sha256() {
    let hash = "a3".repeat(32);
    assert!(validate_file_hash(&hash).is_ok());
}

#[test]
fn test_validate_file_hash_rejects_path_like_values() {
    assert!(validate_file_hash("../etc/passwd").is_err());
    assert!(validate_file_hash("aa/tmp/escaped").is_err());
    assert!(validate_file_hash("short").is_err());
}

#[test]
fn file_hash_rules_edges() {
    assert!(validate_file_hash(&"F".repeat(64)).is_ok());
    assert!(validate_file_hash(&"a".repeat(65)).is_err());
    assert_eq!(validate_file_hash("g").unwrap_err(), "Invalid file hash format");
}

#[test]
fn test_generate_test_content() {
    let content = generate_test_content(100);
    let lines: Vec<&str> = content.lines().collect();
    assert_eq!(lines.len(), 100);
}

#[test]
fn test_generate_keywords() {
    let keywords = generate_keywords(50);
    assert_eq!(keywords.len(), 50);
    assert!(keywords[0].starts_with("error") || keywords[0].starts_with("warning"));
}

#[test]
fn generated_inputs_are_exact() {
    let content = generate_test_content(11);
    let lines: Vec<&str> = content.lines().collect();
    assert_eq!(lines[10], "2024-01-01 10:00:00 INFO Application started successfully");
    assert_eq!(lines[9], "2024-01-01 10:00:09 INFO Shutdown initiated");
    let kws = generate_keywords(22);
    assert_eq!(kws[0], "error_0");
    assert_eq!(kws[19], "message_19");
    assert_eq!(kws[21], "warning_21");
}

#[test]
fn split_query_by_pipe_basic_separation() {
    assert_eq!(split_query_by_pipe("error | timeout"), vec!["error", "timeout"]);
    assert_eq!(split_query_by_pipe("a|b|c"), vec!["a", "b", "c"]);
}

#[test]
fn split_query_by_pipe_protects_brackets() {
    assert_eq!(split_query_by_pipe("(error|timeout)"), vec!["(error|timeout)"]);
    assert_eq!(split_query_by_pipe("a | (b|c) | d"), vec!["a", "(b|c)", "d"]);
    assert_eq!(split_query_by_pipe("[foo|bar]"), vec!["[foo|bar]"]);
}

#[test]
fn split_query_by_pipe_escapes_literal_pipe() {
    assert_eq!(split_query_by_pipe("foo\\|bar"), vec!["foo|bar"]);
    assert_eq!(split_query_by_pipe("a | b\\|c | d"), vec!["a", "b|c", "d"]);
}

#[test]
fn split_query_by_pipe_handles_empty_and_whitespace() {
    assert!(split_query_by_pipe("").is_empty());
    assert!(split_query_by_pipe("   ").is_empty());
    assert_eq!(split_query_by_pipe("  error  |  timeout  "), vec!["error", "timeout"]);
}

#[test]
fn level_masks_and_glob_escapes() {
    assert_eq!(level_to_mask("ERROR"), 1);
    assert_eq!(level_to_mask(" warn "), 2);
    assert_eq!(level_to_mask("Warning"), 2);
    assert_eq!(level_to_mask("info"), 4);
    assert_eq!(level_to_mask("debug"), 8);
    assert_eq!(level_to_mask("trace"), 16);
    assert_eq!(level_to_mask("fatal"), 0);
    for raw in ["  ERROR ", "\tWarning\n", "Info", " TRACE", "fatal", ""] {
        let normal = raw.trim().to_ascii_lowercase();
        assert_eq!(level_to_mask(raw), level_to_mask(&normal));
    }
    assert_eq!(escape_sqlite_glob_literal("a*b?[c]"), "a[*]b[?][[]c[]]");
}

#[test]
fn virtual_paths_stay_relative() {
    assert!(validate_virtual_path("logs/app.log").is_ok());
    assert!(validate_virtual_path("a/../b").is_err());
    assert!(validate_virtual_path("/abs").is_err());
    assert!(validate_virtual_path("\\abs").is_err());
    assert!(validate_virtual_path("C:\\x").is_err());
    match validate_virtual_path("/abs") {
        Err(log_analyzer::errors::AppError::Validation(m)) => {
            assert_eq!(m, "Virtual path should be relative, not absolute: /abs")
        }
        _ => panic!("expected a validation error"),
    }
}

#[test]
fn path_safety_after_canonicalization() {
    assert_eq!(full_path_for_check("a/b", "/base"), "/base/a/b");
    assert_eq!(full_path_for_check("/x/y", "/base"), "/x/y");
    assert!(validate_path_safety("a/b", "base", "/base", "/base/a/b").is_ok());
    assert!(validate_path_safety("a/b", "base", "/base", "/other/a/b").is_err());
    assert!(validate_path_safety("a/b", "base", "/base", "/basement/a/b").is_err());
    assert!(validate_path_safety("a..b/c", "base", "/base", "/base/a..b/c").is_err());
    assert!(validate_path_safety("a\\b", "base", "/base", "/base/a\\b").is_err());
    // the root of an absolute path is no name, so it is never suspicious
    assert!(validate_path_safety("/base/a/b.log", "/base", "/base", "/base/a/b.log").is_ok());
    assert!(validate_path_safety("./a/b.log", "base", "/base", "/base/a/b.log").is_ok());
}

#[test]
fn unicode_whitespace_is_trimmed_from_query_terms() {
    assert_eq!(
        split_query_by_pipe("\u{3000}error\u{00A0}| \u{2003}timeout\u{205F}"),
        vec!["error", "timeout"]
    );
    assert_eq!(level_to_mask("\u{2028}ERROR\u{0085}"), 1);
}

#[test]
fn archive_files_by_name() {
    assert!(is_archive_file("x.zip"));
    assert!(is_archive_file("x.TAR.GZ"));
    assert!(is_archive_file("x.7Z"));
    assert!(is_archive_file("dir/x.tgz"));
    assert!(!is_archive_file("x.log"));
    assert!(!is_archive_file("zip"));
    assert_eq!(mime_type_for_extension(&Some("LOG".to_string())), Some("text/plain".to_string()));
    assert_eq!(mime_type_for_extension(&Some("json".to_string())), Some("application/json".to_string()));
    assert_eq!(mime_type_for_extension(&Some("gz".to_string())), Some("application/gzip".to_string()));
    assert_eq!(mime_type_for_extension(&Some("exe".to_string())), None);
    assert_eq!(mime_type_for_extension(&None), None);
}

#[test]
fn workspace_ids_are_checked_and_built() {
    assert_eq!(validate_workspace_id_format("ws-abc_1".to_string()), Ok(true));
    assert_eq!(validate_workspace_id_format("".to_string()), Ok(false));
    assert_eq!(validate_workspace_id_format("a/b".to_string()), Ok(false));
    assert_eq!(validate_workspace_id_format("a".repeat(101)), Ok(false));
    assert_eq!(validate_workspace_id_format("a".repeat(100)), Ok(true));
    assert_eq!(slug_for_workspace("  My Logs!! 2024 "), "my-logs-2024");
    assert_eq!(slug_for_workspace("---"), "workspace");
    assert_eq!(slug_for_workspace("日志"), "workspace");
    assert_eq!(workspace_id_with_suffix("Prod Server", "0a1b2c3d"), "ws-prod-server-0a1b2c3d");
    let long = "x".repeat(60);
    assert_eq!(workspace_id_with_suffix(&long, "abcdef01").len(), 50);
    let id = build_workspace_id("Prod Server");
    assert!(id.starts_with("ws-prod-server-"));
    assert_eq!(id.len(), "ws-prod-server-".len() + 8);
    assert_eq!(validate_workspace_id_format(id), Ok(true));
}

#[test]
fn path_security_reports() {
    let r = validate_path_security("".to_string()).unwrap();
    assert_eq!(r.error_count, 1);
    assert_eq!(r.errors, vec![("path".to_string(), vec!["Path cannot be empty".to_string()])]);
    let r = validate_path_security("logs/app.log".to_string()).unwrap();
    assert_eq!(r.error_count, 0);
    assert!(r.errors.is_empty());
    let r = validate_path_security("../etc".to_string()).unwrap();
    assert_eq!(r.error_count, 2);
    assert_eq!(
        r.errors,
        vec![("path".to_string(), vec!["Path contains parent directory references".to_string()])]
    );
    let r = validate_path_security("~/x".to_string()).unwrap();
    assert_eq!(r.error_count, 1);
    let r = validate_path_security("a".repeat(501)).unwrap();
    assert_eq!(r.error_count, 1);
    assert_eq!(r.errors[0].1, vec!["Path too long (max 500 characters)".to_string()]);
}

#[test]
fn log_config_paths_must_be_relative() {
    assert!(check_log_config_path("config/log.json").is_ok());
    assert!(check_log_config_path("./log.json").is_ok());
    assert_eq!(check_log_config_path("/etc/log.json").unwrap_err().code, "ABSOLUTE_PATH_REJECTED");
    assert_eq!(check_log_config_path("a/../log.json").unwrap_err().code, "PATH_TRAVERSAL_DETECTED");
}

#[test]
fn metrics_and_statuses() {
    let t = get_task_manager_metrics();
    assert_eq!(t.total + t.running + t.completed + t.failed + t.average_duration, 0);
    let i = get_index_metrics(3);
    assert_eq!((i.total_files, i.indexed_files, i.total_size, i.index_size), (3, 3, 0, 0));
    let m = memory_metrics_from(2048 * 1024, 1024 * 1024);
    assert_eq!((m.used, m.total, m.heap_used, m.external), (1024, 2048, 1024, 0));
    assert_eq!(workspace_status(true, true), "ready");
    assert_eq!(workspace_status(true, false), "incomplete");
    let s = get_error_statistics().unwrap();
    assert_eq!(s.total_errors, 0);
}

#[test]
fn http_search_helpers() {
    assert_eq!(http_max_results(None), 1000);
    assert_eq!(http_max_results(Some(20)), 20);
    assert_eq!(http_max_results(Some(5000)), 1000);
    assert_eq!(http_query_terms(" a | b ||c ").unwrap(), vec!["a", "b", "c"]);
    assert_eq!(http_query_terms(" | ").unwrap_err(), "Search query is empty after processing");
    assert_eq!(tally_matches(0, 2, &vec![true, false, true, true]), 2);
    assert_eq!(tally_matches(1, 5, &vec![true, true]), 3);
    assert_eq!(tally_matches(7, 5, &vec![true]), 7);
    assert_eq!(term_id(12), "term_12");
}

#[test]
fn watch_registry_refuses_doubles() {
    let mut w = WatchRegistry::new();
    assert!(w.start("ws1").is_ok());
    assert_eq!(w.start("ws1").unwrap_err(), "Workspace is already being watched");
    assert!(w.is_watching("ws1"));
    assert!(w.stop("ws1").is_ok());
    assert!(!w.is_watching("ws1"));
    assert_eq!(w.stop("ws1").unwrap_err(), "No active watcher found for this workspace");
}

#[test]
fn cleanup_outcomes() {
    assert!(cleanup_outcome(&vec![]).is_ok());
    assert!(cleanup_outcome(&vec!["IO error: journal".to_string()]).is_ok());
    let errors = vec!["IO error: journal".to_string(), directory_still_exists("/ws/a")];
    let e = cleanup_outcome(&errors).unwrap_err();
    assert_eq!(e.code, "CLEANUP_ERROR");
    assert_eq!(e.message, "Workspace directory deletion failed");
    assert_eq!(
        e.details,
        Some("IO error: journal; Failed to delete workspace directory /ws/a after cleanup".to_string())
    );
    assert_eq!(retry_delay_ms(0), Some(100));
    assert_eq!(retry_delay_ms(1), Some(200));
    assert_eq!(retry_delay_ms(2), None);
    assert_eq!(
        legacy_index_file_names("ws1"),
        ("ws1.idx.gz".to_string(), "ws1.idx".to_string())
    );
}

#[test]
fn archive_config_advisories_name_large_sizes_and_missing_extensions() {
    let exts = vec!["log".to_string()];
    let r = archive_config_advisories(5_000_000_000, &exts);
    assert_eq!(r.error_count, 0);
    assert!(r.errors.is_empty());
    let r = archive_config_advisories(5_000_000_001, &Vec::new());
    assert_eq!(r.error_count, 2);
    assert_eq!(
        r.errors,
        vec![
            (
                "max_file_size".to_string(),
                vec!["Large import size may take significant time".to_string()]
            ),
            ("allowed_extensions".to_string(), vec!["No file extensions specified".to_string()]),
        ]
    );
    let r = archive_config_advisories(10, &Vec::new());
    assert_eq!(r.error_count, 1);
    assert_eq!(r.errors[0].0, "allowed_extensions");
}
