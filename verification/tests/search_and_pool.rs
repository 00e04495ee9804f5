use log_analyzer::filters::{
    search_lines_with_details, CompiledSearchFilters, ParsedLineMetadata, SearchFilters,
    SearchLineCandidate, SearchSegmentSummary,
};
use log_analyzer::pool::{
    AdaptiveBackpressure, BlockingPool, BlockingPoolConfig, ConcurrencySafetyConfig,
    SemaphoreConfig, TaskStats,
};
use log_analyzer::search::{
    build_structured_search_query, file_access, read_failure_content, resolve_search_query,
    resolve_workspace_id, use_mapped_read, validate_search_params, workspace_not_found,
    FileAccess, QueryMetadata, QueryOperator, SearchQuery, SearchTally, SearchTerm, TermSource,
};

fn build_filters(
    start: Option<&str>,
    end: Option<&str>,
    levels: &[&str],
    pattern: Option<&str>,
) -> SearchFilters {
    SearchFilters {
        time_start: start.map(|s| s.to_string()),
        time_end: end.map(|s| s.to_string()),
        levels: levels.iter().map(|s| s.to_string()).collect(),
        file_pattern: pattern.map(|s| s.to_string()),
    }
}

// Minutes since midnight stand for the date-times of 2024-01-15 in these tests.
fn at(h: i128, m: i128) -> Option<i128> {
    Some((h * 60 + m) * 60 * 1_000_000_000)
}

fn line(index: usize, level: &str, minutes: Option<i128>, matched: bool) -> SearchLineCandidate {
    SearchLineCandidate {
        index,
        metadata: ParsedLineMetadata::from_parsed(String::new(), level, minutes),
        matched,
    }
}

#[test]
fn file_pattern_supports_wildcards() {
    let filters = build_filters(None, None, &[], Some("logs/*.log"));
    let compiled = CompiledSearchFilters::compile(&filters, None, None).unwrap();
    assert!(compiled.matches_file("logs/app.log", None));
    assert!(!compiled.matches_file("logs/app.txt", None));
}

#[test]
fn file_pattern_without_wildcard_uses_substring_match() {
    let filters = build_filters(None, None, &[], Some("service-error"));
    let compiled = CompiledSearchFilters::compile(&filters, None, None).unwrap();
    assert!(compiled.matches_file("prod/service-error.log", None));
    assert!(!compiled.matches_file("prod/service-info.log", None));
}

#[test]
fn compiled_filters_support_datetime_local_range() {
    let filters = build_filters(Some("2024-01-15T10:00"), Some("2024-01-15T11:00"), &["ERROR"], None);
    let compiled = CompiledSearchFilters::compile(&filters, at(10, 0), at(11, 0)).unwrap();
    let m = |minutes: Option<i128>, level: &str| {
        compiled.matches_parsed_line_metadata(&ParsedLineMetadata::from_parsed(
            String::new(),
            level,
            minutes,
        ))
    };
    assert!(m(at(10, 30), "error"));
    assert!(!m(at(9, 59), "error"));
    assert!(!m(None, "error"));
    assert!(!m(at(10, 30), "info"));
}

#[test]
fn reversed_time_range_is_refused() {
    let filters = build_filters(Some("2024-01-15T12:00"), Some("2024-01-15T11:00"), &[], None);
    match CompiledSearchFilters::compile(&filters, at(12, 0), at(11, 0)) {
        Err(e) => {
            assert_eq!(e.code, "VALIDATION_ERROR");
            assert_eq!(e.message, "Start time cannot be later than end time");
        }
        Ok(_) => panic!("a reversed range must be refused"),
    }
    match CompiledSearchFilters::compile(&filters, None, at(11, 0)) {
        Err(e) => assert_eq!(e.message, "Invalid start time '2024-01-15T12:00'"),
        Ok(_) => panic!("an unreadable start must be refused"),
    }
}

#[test]
fn segment_pruning_keeps_in_range_matches_only() {
    let filters = build_filters(Some("2024-01-15T10:00"), Some("2024-01-15T11:00"), &["ERROR"], None);
    let compiled = CompiledSearchFilters::compile(&filters, at(10, 0), at(11, 0)).unwrap();
    let lines = vec![
        line(0, "error", at(9, 30), true),
        line(1, "info", at(10, 15), true),
        line(2, "error", at(10, 30), true),
    ];
    assert_eq!(search_lines_with_details(&lines, &compiled), vec![2]);
}

#[test]
fn segment_pruning_skips_segments_without_matching_levels() {
    let filters = build_filters(None, None, &["ERROR"], None);
    let compiled = CompiledSearchFilters::compile(&filters, None, None).unwrap();
    let lines = vec![line(0, "info", at(10, 0), true), line(1, "info", at(10, 1), true)];
    assert!(search_lines_with_details(&lines, &compiled).is_empty());
    let mut summary = SearchSegmentSummary::default();
    for l in &lines {
        summary.record(&l.metadata);
    }
    assert!(!compiled.segment_may_match(&summary));
}

#[test]
fn pruned_scan_equals_line_by_line_scan_over_many_segments() {
    let filters = build_filters(Some("x"), Some("y"), &["warn", "error"], None);
    let compiled = CompiledSearchFilters::compile(&filters, at(1, 0), at(2, 0)).unwrap();
    let mut lines = Vec::new();
    for i in 0..1000usize {
        let level = if i % 7 == 0 { "error" } else if i % 5 == 0 { "warn" } else { "info" };
        let t = if i % 3 == 0 { None } else { at(0, (i % 180) as i128) };
        lines.push(line(i, level, t, i % 2 == 0));
    }
    let expected: Vec<usize> = (0..lines.len())
        .filter(|&i| lines[i].matched && compiled.matches_parsed_line_metadata(&lines[i].metadata))
        .collect();
    assert_eq!(search_lines_with_details(&lines, &compiled), expected);
}

#[test]
fn search_parameters_are_checked() {
    assert_eq!(validate_search_params("").unwrap_err().message, "Search query cannot be empty");
    assert_eq!(
        validate_search_params(&"a".repeat(1001)).unwrap_err().message,
        "Search query too long (max 1000 characters)"
    );
    assert!(validate_search_params(&"a".repeat(1000)).is_ok());
    assert_eq!(resolve_workspace_id(Some("w".to_string()), &vec![]).unwrap(), "w");
    assert_eq!(
        resolve_workspace_id(None, &vec!["first".to_string(), "second".to_string()]).unwrap(),
        "first"
    );
    assert_eq!(resolve_workspace_id(None, &vec![]).unwrap_err().code, "NOT_FOUND");
    assert_eq!(workspace_not_found("w1").message, "Workspace w1 not found");
}

#[test]
fn resolve_search_query_uses_structured_query_when_provided() {
    let structured_query = SearchQuery {
        id: "saved-query".to_string(),
        terms: vec![SearchTerm {
            id: "term-1".to_string(),
            value: "error.*timeout".to_string(),
            operator: QueryOperator::Or,
            source: TermSource::Preset,
            preset_group_id: Some("preset-1".to_string()),
            is_regex: true,
            priority: 10,
            enabled: true,
            case_sensitive: false,
        }],
        global_operator: QueryOperator::Or,
        metadata: QueryMetadata { created_at: 0, last_modified: 0, execution_count: 0, label: None },
    };

    let (raw_terms, resolved) = resolve_search_query(
        "error.*timeout",
        Some(structured_query),
        false,
        "search_logs_query",
        &vec![],
    )
    .unwrap();

    assert_eq!(raw_terms, vec!["error.*timeout".to_string()]);
    assert_eq!(resolved.id, "search_logs_query");
    assert!(resolved.terms[0].is_regex);
    assert_eq!(resolved.terms[0].source, TermSource::Preset);
    assert_eq!(resolved.terms[0].preset_group_id.as_deref(), Some("preset-1"));
}

#[test]
fn resolve_search_query_falls_back_to_literal_query_parsing() {
    let (raw_terms, resolved) =
        resolve_search_query("error|timeout", None, false, "search_logs_query", &vec![false, false])
            .unwrap();
    assert_eq!(raw_terms, vec!["error".to_string(), "timeout".to_string()]);
    assert_eq!(resolved.global_operator, QueryOperator::Or);
    assert!(!resolved.terms[0].is_regex);
    assert_eq!(resolved.terms[0].operator, QueryOperator::Or);
}

#[test]
fn structured_queries_from_text() {
    let (raw, q) = build_structured_search_query("a | b", true, "q1", &vec![true]).unwrap();
    assert_eq!(raw, vec!["a", "b"]);
    assert_eq!(q.id, "q1");
    assert_eq!(q.terms[0].id, "term_0");
    assert_eq!(q.terms[1].id, "term_1");
    assert!(q.terms[0].is_regex && !q.terms[1].is_regex);
    assert!(q.terms[1].case_sensitive && q.terms[1].enabled);
    assert_eq!(q.terms[1].priority, 1);
    assert!(build_structured_search_query(" | ", false, "q", &vec![]).is_err());
    let disabled = SearchQuery {
        id: "x".to_string(),
        terms: vec![SearchTerm {
            id: "t".to_string(),
            value: "  ".to_string(),
            operator: QueryOperator::And,
            source: TermSource::User,
            preset_group_id: None,
            is_regex: false,
            priority: 1,
            enabled: true,
            case_sensitive: false,
        }],
        global_operator: QueryOperator::And,
        metadata: QueryMetadata { created_at: 5, last_modified: 6, execution_count: 7, label: None },
    };
    assert!(resolve_search_query("ignored", Some(disabled), false, "q", &vec![]).is_err());
}

#[test]
fn file_access_by_identifier() {
    let filters = build_filters(None, None, &[], Some("*.log"));
    let compiled = CompiledSearchFilters::compile(&filters, None, None).unwrap();
    match file_access("cas://abc", "logs/a.log", &compiled) {
        FileAccess::Cas { hash } => assert_eq!(hash, "abc"),
        _ => panic!("expected stored content"),
    }
    assert!(matches!(file_access("cas://abc", "logs/a.txt", &compiled), FileAccess::Skip));
    match file_access("/var/log/b.log", "b.txt", &compiled) {
        FileAccess::Disk { path } => assert_eq!(path, "/var/log/b.log"),
        _ => panic!("expected a disk path"),
    }
    assert!(use_mapped_read(1024 * 1024 + 1));
    assert!(!use_mapped_read(1024 * 1024));
    assert_eq!(read_failure_content("gone"), "[搜索系统: 无法读取文件内容 - gone]");
}

#[test]
fn tally_caps_numbers_and_counts() {
    let mut t = SearchTally::new(2);
    let kws = Some(vec!["error".to_string(), "timeout".to_string(), "error".to_string()]);
    assert_eq!(t.accept(&kws), Some(0));
    assert_eq!(t.accept(&None), Some(1));
    assert!(t.is_full());
    assert_eq!(t.accept(&kws), None);
    assert!(t.is_truncated());
    assert_eq!(t.results_count(), 2);
    assert_eq!(t.count_for_keyword("error"), 2);
    assert_eq!(t.count_for_keyword("timeout"), 1);
    assert_eq!(t.count_for_keyword("other"), 0);
    assert_eq!(t.total_keyword_matches(), 3);
}

#[test]
fn pool_books_balance() {
    let mut pool = BlockingPool::new(BlockingPoolConfig::cpu_intensive_for(2));
    assert_eq!(pool.get_stats().total_execution_time_ms, 0);
    pool.task_submitted();
    pool.task_submitted();
    assert_eq!(pool.queue_depth(), 2);
    assert!(pool.task_started(false));
    assert!(!pool.task_started(true));
    assert_eq!(pool.active_task_count(), 1);
    assert_eq!(pool.queue_depth(), 0);
    pool.task_finished(15);
    pool.task_timed_out();
    pool.task_failed();
    let s = pool.get_stats();
    assert_eq!(s.total_tasks, 2);
    assert_eq!(s.completed_tasks, 1);
    assert_eq!(s.cancelled_tasks, 1);
    assert_eq!(s.timeout_tasks, 1);
    assert_eq!(s.failed_tasks, 1);
    assert_eq!(s.total_execution_time_ms, 15);
    assert_eq!(pool.active_task_count(), 0);
}

#[test]
fn high_load_is_over_eighty_percent() {
    let mut pool = BlockingPool::new(BlockingPoolConfig::cpu_intensive_for(5));
    for _ in 0..8 {
        pool.task_submitted();
        pool.task_started(false);
    }
    assert!(!pool.is_under_high_load());
    pool.task_submitted();
    pool.task_started(false);
    assert!(pool.is_under_high_load());
    let mut default_pool = BlockingPool::default();
    for _ in 0..409 {
        default_pool.task_submitted();
        default_pool.task_started(false);
    }
    assert!(!default_pool.is_under_high_load());
    default_pool.task_submitted();
    default_pool.task_started(false);
    assert!(default_pool.is_under_high_load());
}

#[test]
fn pool_configurations() {
    let c = BlockingPoolConfig::cpu_intensive_for(4);
    assert_eq!((c.pool_size, c.max_queue_depth, c.stack_size, c.task_timeout_secs), (8, 40, 4 * 1024 * 1024, 30));
    assert_eq!(c.thread_name_prefix, "cpu-intensive-");
    let io = BlockingPoolConfig::io_intensive_for(4);
    assert_eq!((io.pool_size, io.max_queue_depth, io.task_timeout_secs), (16, 80, 300));
    let big = BlockingPoolConfig::cpu_intensive_for(usize::MAX);
    assert_eq!(big.pool_size, usize::MAX);
    let d = BlockingPoolConfig::default();
    assert_eq!((d.pool_size, d.max_queue_depth, d.task_timeout_secs), (0, 1000, 60));
    let m = BlockingPoolConfig::for_cpu_intensive();
    assert!(m.pool_size >= 2 && m.pool_size % 2 == 0);
    let s = SemaphoreConfig::default_for(3);
    assert_eq!((s.max_concurrent, s.acquire_timeout_secs, s.fair), (6, 30, true));
    let cs = ConcurrencySafetyConfig::default_for(3);
    assert_eq!((cs.cas_max_concurrent_writes, cs.backpressure_concurrent, cs.search_timeout_ms), (12, 6, 200));
    let sd = SemaphoreConfig::default();
    assert!(sd.max_concurrent >= 2);
    let mut stats = TaskStats::default();
    stats.record_cancellation();
    assert_eq!(stats.cancelled_tasks, 1);
}

#[test]
fn adaptive_limit_follows_latency() {
    let mut a = AdaptiveBackpressure::new(5, 2, 6, 1000);
    for _ in 0..9 {
        a.record_latency(5000);
    }
    assert_eq!(a.current_limit(), 5);
    a.record_latency(5000);
    assert_eq!(a.current_limit(), 4);
    for _ in 0..5 {
        a.record_latency(5000);
    }
    assert_eq!(a.current_limit(), 2);
    let mut b = AdaptiveBackpressure::new(5, 2, 6, 1000);
    for _ in 0..12 {
        b.record_latency(10);
    }
    assert_eq!(b.current_limit(), 6);
    let mut c = AdaptiveBackpressure::new(4, 2, 6, 1000);
    for _ in 0..20 {
        c.record_latency(700);
    }
    assert_eq!(c.current_limit(), 4);
}

#[test]
fn test_async_search_uses_structured_query_when_provided() {
    let structured_query = SearchQuery {
        id: "saved-query".to_string(),
        terms: vec![SearchTerm {
            id: "term_1".to_string(),
            value: "error.*timeout".to_string(),
            operator: QueryOperator::Or,
            source: TermSource::Preset,
            preset_group_id: Some("preset-1".to_string()),
            is_regex: true,
            priority: 5,
            enabled: true,
            case_sensitive: false,
        }],
        global_operator: QueryOperator::Or,
        metadata: QueryMetadata {
            created_at: 1,
            last_modified: 2,
            execution_count: 3,
            label: Some("saved".to_string()),
        },
    };
    let (_, resolved) =
        resolve_search_query("error.*timeout", Some(structured_query), false, "async_search_query", &vec![])
            .expect("Query should resolve");
    assert_eq!(resolved.id, "async_search_query");
    assert!(resolved.terms[0].is_regex);
    assert_eq!(resolved.terms[0].source, TermSource::Preset);
    assert_eq!(resolved.terms[0].preset_group_id.as_deref(), Some("preset-1"));
    assert_eq!(resolved.metadata.execution_count, 0);
}
