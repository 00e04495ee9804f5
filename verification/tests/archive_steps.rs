use log_analyzer::errors::AppError;
use log_analyzer::handlers::{
    ArchiveExtractionSummary, EntryStep, ExtractionLimits, SevenZEntry, SevenZHandler, TarEntryRead,
    TarHandler,
};
use log_analyzer::pipeline::{
    extracted_folder_name, filter_applies, should_import_file_defensive, tar_entry_path,
    tar_extraction_outcome, FilterSwitches,
};
use log_analyzer::resources::ResourceManager;
use log_analyzer::search::{
    append_failure_message, batch_full, file_offset, http_search_query, query_failure_message,
    SearchRuntimeConfig,
};

fn entry(name: &str, is_dir: bool, size: u64) -> SevenZEntry {
    SevenZEntry { name: name.to_string(), is_dir, size }
}

#[test]
fn sevenz_listing_uses_sizes_for_both_columns() {
    let entries = SevenZHandler::list_entries(&vec![entry("logs/a.log", false, 10), entry("logs", true, 0)]);
    assert_eq!(entries.len(), 2);
    assert_eq!(entries[0].name, "a.log");
    assert_eq!(entries[0].path, "logs/a.log");
    assert_eq!(entries[0].compressed_size, 10);
    assert_eq!(entries[1].name, "logs");
    assert!(entries[1].is_dir);
}

#[test]
fn sevenz_reads_take_the_last_matching_entry() {
    let raws = vec![entry("a/x.log", false, 5), entry("b/x.log", false, 7), entry("dir/", true, 0)];
    let (name, size) = SevenZHandler::locate_entry(&raws, "x.log").unwrap();
    assert_eq!(name, "b/x.log");
    assert_eq!(size, 7);
    let (name, _) = SevenZHandler::locate_entry(&raws, "a/x.log").unwrap();
    assert_eq!(name, "a/x.log");
    match SevenZHandler::locate_entry(&raws, "dir/") {
        Err(AppError::Archive { message, .. }) => assert_eq!(message, "Cannot read directory"),
        _ => panic!("expected a directory refusal"),
    }
    match SevenZHandler::locate_entry(&raws, "y.log") {
        Err(AppError::Archive { message, path }) => {
            assert_eq!(message, "File not found in archive: y.log");
            assert!(path.is_none());
        }
        _ => panic!("expected not found"),
    }
}

#[test]
fn tar_and_sevenz_steps_follow_their_formats() {
    let limits = ExtractionLimits { max_file_size: 10, max_total_size: 100, max_file_count: 5 };
    let summary = ArchiveExtractionSummary::new();
    assert_eq!(TarHandler::entry_step(&summary, 5, true, false, &limits), EntryStep::Extract);
    assert_eq!(TarHandler::entry_step(&summary, 50, true, false, &limits), EntryStep::Skip);
    assert_eq!(TarHandler::entry_step(&summary, 0, false, true, &limits), EntryStep::MakeDir);
    assert_eq!(TarHandler::entry_step(&summary, 0, false, false, &limits), EntryStep::Skip);
    assert_eq!(SevenZHandler::entry_step(&summary, 50, true, &limits), EntryStep::MakeDir);
    assert_eq!(SevenZHandler::entry_step(&summary, 50, false, &limits), EntryStep::Skip);
    assert_eq!(SevenZHandler::entry_step(&summary, 10, false, &limits), EntryStep::Extract);
}

#[test]
fn workspace_temp_directories_sit_under_the_base() {
    let m = ResourceManager::new("/tmp/base".to_string(), None);
    assert_eq!(m.get_workspace_temp_dir("ws1"), "/tmp/base/ws1/temp");
    assert_eq!(m.temp_cleanup_root(Some("ws1")), "/tmp/base/ws1/temp");
    assert_eq!(m.temp_cleanup_root(None), "/tmp/base");
}

#[test]
fn the_import_filter_fails_safe() {
    let on = Ok(FilterSwitches { enabled: true, binary_detection_enabled: false });
    let off = Ok(FilterSwitches { enabled: false, binary_detection_enabled: false });
    let broken: Result<FilterSwitches, String> = Err("unreadable".to_string());
    assert!(filter_applies(&on));
    assert!(!filter_applies(&off));
    assert!(!filter_applies(&broken));
    assert!(!should_import_file_defensive(&on, &Ok(false)));
    assert!(should_import_file_defensive(&on, &Ok(true)));
    assert!(should_import_file_defensive(&on, &Err("boom".to_string())));
    assert!(should_import_file_defensive(&off, &Ok(false)));
    assert!(should_import_file_defensive(&broken, &Ok(false)));
}

#[test]
fn search_batches_and_messages() {
    assert!(!batch_full(1999));
    assert!(batch_full(2000));
    assert_eq!(file_offset(20, 3), 30020);
    assert_eq!(append_failure_message("disk full"), "Disk write failed after 3 retries: disk full");
    assert_eq!(query_failure_message("bad regex"), "Query execution error: bad regex");
}

#[test]
fn http_searches_use_literal_terms() {
    let q = http_search_query(&vec!["error".to_string(), "timeout".to_string()]);
    assert_eq!(q.id, "http_search_query");
    assert_eq!(q.terms.len(), 2);
    assert_eq!(q.terms[1].id, "term_1");
    assert_eq!(q.terms[1].value, "timeout");
    assert!(!q.terms[0].is_regex);
    assert!(!q.terms[0].case_sensitive);
    assert!(q.terms[0].enabled);
    assert_eq!(q.terms[0].priority, 1);
    assert_eq!(q.metadata.execution_count, 0);
}

#[test]
fn tar_reads_plan_the_first_matching_entry() {
    let headers = vec![
        TarEntryRead::Unreadable,
        TarEntryRead::Read { path: None, is_dir: false, size: Some(5) },
        TarEntryRead::Read { path: Some("a/app.log".to_string()), is_dir: false, size: Some(30) },
        TarEntryRead::Read { path: Some("b/app.log".to_string()), is_dir: false, size: Some(5) },
        TarEntryRead::Read { path: Some("c.log".to_string()), is_dir: false, size: None },
    ];
    let plan = TarHandler::read_file_sync(&headers, "app.log", 10).unwrap();
    assert_eq!(plan.index, 2);
    assert_eq!(plan.size, 30);
    assert_eq!(plan.limit, Some(10));
    let plan = TarHandler::read_file_sync(&headers, "b/app.log", 10).unwrap();
    assert_eq!(plan.index, 3);
    assert_eq!(plan.limit, None);
    let plan = TarHandler::read_file_sync(&headers, "c.log", 10).unwrap();
    assert_eq!(plan.size, 0);
    match TarHandler::read_file_sync(&headers, "zzz", 10) {
        Err(AppError::Archive { message, .. }) => assert_eq!(message, "File not found in archive: zzz"),
        _ => panic!("expected not found"),
    }
}

#[test]
fn older_tar_pipeline_decisions() {
    let name = extracted_folder_name("logs.tar");
    assert!(name.starts_with("logs.tar_extracted_"));
    assert_eq!(name.len(), "logs.tar_extracted_".len() + 36);
    let uuid: Vec<char> = name["logs.tar_extracted_".len()..].chars().collect();
    for (i, c) in uuid.iter().enumerate() {
        if [8, 13, 18, 23].contains(&i) {
            assert_eq!(*c, '-');
        } else {
            assert!(c.is_ascii_digit() || ('a'..='f').contains(c));
        }
    }
    assert_eq!(uuid[14], '4');
    assert!(['8', '9', 'a', 'b'].contains(&uuid[19]));
    assert_eq!(tar_entry_path("dir\\sub\\a.log").unwrap(), "dir/sub/a.log");
    assert_eq!(tar_entry_path("../etc/passwd").unwrap_err(), "Unsafe path detected: ../etc/passwd");
    assert!(tar_extraction_outcome(1, &vec!["x".to_string()]).is_ok());
    assert!(tar_extraction_outcome(0, &Vec::new()).is_ok());
    assert_eq!(
        tar_extraction_outcome(0, &vec!["first".to_string(), "second".to_string()]).unwrap_err(),
        "All TAR entries failed to extract. First error: first"
    );
}

#[test]
fn search_settings_fall_back_to_defaults() {
    let d = SearchRuntimeConfig::default();
    assert_eq!(d.default_max_results, 100_000);
    assert_eq!(d.timeout_seconds, 10);
    assert_eq!(d.regex_cache_size, 1000);
    assert!(!d.case_sensitive);
    let c = SearchRuntimeConfig::from_settings(Some((500, 3, 0, true)));
    assert_eq!(c.regex_cache_size, 1);
    assert!(c.case_sensitive);
    assert_eq!(c.max_results_for(None), 500);
    assert_eq!(c.max_results_for(Some(250_000)), 100_000);
    assert_eq!(SearchRuntimeConfig::from_settings(None).default_max_results, 100_000);
}
