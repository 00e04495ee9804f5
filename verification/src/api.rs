//! What the command and HTTP layers answer: response envelopes, the
//! records they carry, and the decisions those handlers take (result caps,
//! query terms, match counting, watch bookkeeping, workspace cleanup).
use vstd::prelude::*;
use crate::filters::CommandError;
use crate::pathname::opt_view;
use crate::text::{decimal, push_decimal, push_str, seq_contains, str_contains, str_eq, trim_spec};

verus! {

/// The envelope of every HTTP answer.
pub struct ApiResponse<T> {
    pub success: bool,
    pub data: Option<T>,
    pub error: Option<String>,
}

impl<T> ApiResponse<T> {
    pub fn success(data: T) -> (r: Self)
        ensures
            r.success,
            r.data == Some(data),
            r.error is None,
    {
        ApiResponse { success: true, data: Some(data), error: None }
    }

    pub fn error(message: &str) -> (r: Self)
        ensures
            !r.success,
            r.data is None,
            r.error matches Some(e) && e@ == message@,
    {
        ApiResponse { success: false, data: None, error: Some(message.to_string()) }
    }
}

/// The envelope of monitoring answers.
pub struct MonitoringResult<T> {
    pub success: bool,
    pub data: Option<T>,
    pub error: Option<String>,
}

impl<T> MonitoringResult<T> {
    pub fn success(data: T) -> (r: Self)
        ensures
            r.success,
            r.data == Some(data),
            r.error is None,
    {
        MonitoringResult { success: true, data: Some(data), error: None }
    }

    pub fn error(error: String) -> (r: Self)
        ensures
            !r.success,
            r.data is None,
            r.error == Some(error),
    {
        MonitoringResult { success: false, data: None, error: Some(error) }
    }
}

/// Where the HTTP server keeps its data and listens.
pub struct HttpApiState {
    pub app_data_dir: String,
    pub bind_addr: String,
}

impl HttpApiState {
    pub fn new(app_data_dir: String, bind_addr: String) -> (s: Self)
        ensures
            s.app_data_dir == app_data_dir,
            s.bind_addr == bind_addr,
    {
        HttpApiState { app_data_dir, bind_addr }
    }
}

pub struct HealthResponse {
    pub status: String,
    pub version: String,
}

pub struct CreateWorkspaceRequest {
    pub name: String,
    pub path: String,
}

pub struct ImportFolderRequest {
    pub path: String,
    pub workspace_id: String,
}

pub struct WatchRequest {
    pub workspace_id: String,
    pub path: Option<String>,
}

pub struct CancelTaskRequest {
    pub task_id: String,
}

pub struct KeywordGroupRequest {
    pub name: String,
    pub patterns: Vec<String>,
    pub color: Option<String>,
    pub enabled: Option<bool>,
}

pub struct SearchResponse {
    pub search_id: String,
    pub total_results: usize,
    pub message: Option<String>,
}

pub struct WorkspaceInfo {
    pub id: String,
    pub name: String,
    pub file_count: usize,
    pub status: String,
}

pub struct TaskInfo {
    pub task_id: String,
    pub status: String,
    pub progress: u32,
    pub message: String,
}

/// Search latency in milliseconds.
#[derive(Clone, Copy, Debug)]
pub struct SearchLatency {
    pub current: u64,
    pub average: u64,
    pub p95: u64,
    pub p99: u64,
}

/// Searches per second.
#[derive(Clone, Copy, Debug)]
pub struct SearchThroughput {
    pub current: u64,
    pub average: u64,
    pub peak: u64,
}

/// Memory in use, in the units the report shows.
#[derive(Clone, Copy, Debug)]
pub struct MemoryMetrics {
    pub used: u64,
    pub total: u64,
    pub heap_used: u64,
    pub external: u64,
}

#[derive(Clone, Copy, Debug)]
pub struct TaskMetrics {
    pub total: u64,
    pub running: u64,
    pub completed: u64,
    pub failed: u64,
    pub average_duration: u64,
}

#[derive(Clone, Copy, Debug)]
pub struct IndexMetrics {
    pub total_files: u64,
    pub indexed_files: u64,
    pub total_size: u64,
    pub index_size: u64,
}

/// The task manager reports no figures yet: all zero.
pub fn get_task_manager_metrics() -> (m: TaskMetrics)
    ensures
        m.total == 0 && m.running == 0 && m.completed == 0 && m.failed == 0 && m.average_duration
            == 0,
{
    TaskMetrics { total: 0, running: 0, completed: 0, failed: 0, average_duration: 0 }
}

/// Index figures from the number of open metadata stores, which stands for
/// the file counts; sizes are not tracked.
pub fn get_index_metrics(store_count: usize) -> (m: IndexMetrics)
    ensures
        m.total_files == store_count,
        m.indexed_files == store_count,
        m.total_size == 0,
        m.index_size == 0,
{
    IndexMetrics {
        total_files: store_count as u64,
        indexed_files: store_count as u64,
        total_size: 0,
        index_size: 0,
    }
}

/// Memory figures from the machine's totals, divided by 1024 for display;
/// the heap counts as all that is used.
pub fn memory_metrics_from(total_memory: u64, used_memory: u64) -> (m: MemoryMetrics)
    ensures
        m.used == used_memory / 1024,
        m.total == total_memory / 1024,
        m.heap_used == used_memory / 1024,
        m.external == 0,
{
    MemoryMetrics {
        used: used_memory / 1024,
        total: total_memory / 1024,
        heap_used: used_memory / 1024,
        external: 0,
    }
}

/// Whether RAR archives can be read by this build, and why not.
pub struct RarSupportInfo {
    pub compiled: bool,
    pub available: bool,
    pub reason: Option<String>,
}

/// This build reads no RAR archives.
pub fn get_rar_support_info() -> (i: RarSupportInfo)
    ensures
        !i.compiled,
        !i.available,
        i.reason matches Some(r) && r@ == "RAR support is not compiled into this build"@,
{
    RarSupportInfo {
        compiled: false,
        available: false,
        reason: Some("RAR support is not compiled into this build".to_string()),
    }
}

pub struct FileContentResponse {
    pub content: String,
    pub hash: String,
    pub size: usize,
}

pub struct ArchiveContentResult {
    pub entries: Vec<crate::handlers::ArchiveEntry>,
    pub total_count: usize,
}

pub struct ArchiveFileResult {
    pub content: String,
    pub size: usize,
    pub truncated: bool,
}

pub struct FrontendErrorReport {
    pub error: String,
    pub stack: Option<String>,
    pub timestamp: String,
    pub user_agent: String,
    pub url: String,
    pub component: Option<String>,
    pub user_action: Option<String>,
}

pub struct ErrorStatistics {
    pub total_errors: u64,
    pub frontend_errors: u64,
    pub backend_errors: u64,
    pub last_error_timestamp: Option<String>,
}

/// No errors are counted yet: all zero.
pub fn get_error_statistics() -> (r: Result<ErrorStatistics, String>)
    ensures
        r matches Ok(s) && s.total_errors == 0 && s.frontend_errors == 0 && s.backend_errors == 0
            && s.last_error_timestamp is None,
{
    Ok(ErrorStatistics { total_errors: 0, frontend_errors: 0, backend_errors: 0, last_error_timestamp: None })
}

pub struct LegacyDetectionResponse {
    pub has_legacy_workspaces: bool,
    pub count: usize,
    pub message: String,
    pub workspace_ids: Vec<String>,
}

impl LegacyDetectionResponse {
    /// The answer of a scan that found the workspaces `workspace_ids` in the
    /// old format, with the message shown to the user.
    pub fn from_scan(workspace_ids: Vec<String>, message: String) -> (r: Self)
        ensures
            r.has_legacy_workspaces == (workspace_ids@.len() > 0),
            r.count == workspace_ids@.len(),
            r.message == message,
            r.workspace_ids == workspace_ids,
    {
        LegacyDetectionResponse {
            has_legacy_workspaces: workspace_ids.len() > 0,
            count: workspace_ids.len(),
            message,
            workspace_ids,
        }
    }
}

pub struct WorkspaceLoadResponse {
    pub success: bool,
    pub file_count: usize,
}

pub struct WorkspaceStatusResponse {
    pub id: String,
    pub name: String,
    pub status: String,
    pub size: String,
    pub files: usize,
}

/// `n / d` in tenths, rounded to the nearest tenth, ties to even (as `{:.1}`
/// writes an exact quotient).
pub open spec fn tenths_half_even(n: nat, d: nat) -> nat {
    let q = (n * 10) / d;
    let r = (n * 10) % d;
    if 2 * r > d || (2 * r == d && q % 2 == 1) { q + 1 } else { q }
}

/// The size of a workspace as the status shows it: whole megabytes under a
/// gigabyte, else gigabytes with one decimal.
pub open spec fn size_label_spec(total_size: nat) -> Seq<char> {
    let mb = total_size / (1024 * 1024);
    if mb >= 1024 {
        let t = tenths_half_even(mb, 1024);
        decimal(t / 10) + "."@ + decimal(t % 10) + "GB"@
    } else {
        decimal(mb) + "MB"@
    }
}

/// The size label of a workspace holding `total_size` bytes.
pub fn workspace_size_label(total_size: u64) -> (s: String)
    ensures
        s@ == size_label_spec(total_size as nat),
{
    let mb = total_size / (1024 * 1024);
    let mut s = String::new();
    if mb >= 1024 {
        let p10 = (mb as u128) * 10;
        let q = p10 / 1024;
        let r = p10 % 1024;
        let t = if r > 512 || (r == 512 && q % 2 == 1) {
            q + 1
        } else {
            q
        };
        proof {
            assert(q <= p10 / 1024);
        }
        push_decimal(&mut s, (t / 10) as u64);
        push_str(&mut s, ".");
        push_decimal(&mut s, (t % 10) as u64);
        push_str(&mut s, "GB");
    } else {
        push_decimal(&mut s, mb);
        push_str(&mut s, "MB");
    }
    s
}

/// The status answer of a workspace: its stored display name (the
/// identifier when it has none), `READY`, its size label and file count.
pub fn workspace_status_response(
    workspace_id: &str,
    display_name: Option<String>,
    file_count: i64,
    total_size: u64,
) -> (r: WorkspaceStatusResponse)
    ensures
        r.id@ == workspace_id@,
        r.name@ == match display_name {
            Some(n) => n@,
            None => workspace_id@,
        },
        r.status@ == "READY"@,
        r.size@ == size_label_spec(total_size as nat),
        r.files == file_count as usize,
{
    let name = match display_name {
        Some(n) => n,
        None => workspace_id.to_string(),
    };
    WorkspaceStatusResponse {
        id: workspace_id.to_string(),
        name,
        status: "READY".to_string(),
        size: workspace_size_label(total_size),
        files: file_count as usize,
    }
}

/// A workspace as the saved configuration lists it.
pub struct StoredWorkspace {
    pub id: String,
    pub name: Option<String>,
    pub path: Option<String>,
}

/// The first listed workspace, from position `i` on, with the identifier.
pub open spec fn first_stored_from(s: Seq<StoredWorkspace>, id: Seq<char>, i: int) -> Option<int>
    decreases s.len() - i,
{
    if i < 0 || i >= s.len() {
        None
    } else if s[i].id@ == id {
        Some(i)
    } else {
        first_stored_from(s, id, i + 1)
    }
}

/// A text that is present and not blank.
pub open spec fn filled(t: Option<String>) -> Option<Seq<char>> {
    match t {
        Some(v) => if trim_spec(v@).len() > 0 { Some(v@) } else { None },
        None => None,
    }
}

/// The saved display name of a workspace: that of the first entry with its
/// identifier, when it is not blank.
pub open spec fn display_name_spec(s: Seq<StoredWorkspace>, id: Seq<char>) -> Option<Seq<char>> {
    match first_stored_from(s, id, 0) {
        Some(k) => filled(s[k].name),
        None => None,
    }
}

/// The saved source path of a workspace: that of the first entry with its
/// identifier, when it is not blank.
pub open spec fn source_path_spec(s: Seq<StoredWorkspace>, id: Seq<char>) -> Option<Seq<char>> {
    match first_stored_from(s, id, 0) {
        Some(k) => filled(s[k].path),
        None => None,
    }
}

proof fn lemma_first_stored_in_range(s: Seq<StoredWorkspace>, id: Seq<char>, i: int)
    ensures
        first_stored_from(s, id, i) matches Some(k) ==> i <= k < s.len() && s[k].id@ == id,
    decreases s.len() - i,
{
    if 0 <= i < s.len() && s[i].id@ != id {
        lemma_first_stored_in_range(s, id, i + 1);
    }
}

fn first_stored(stored: &Vec<StoredWorkspace>, workspace_id: &str) -> (r: Option<usize>)
    ensures
        match first_stored_from(stored@, workspace_id@, 0) {
            Some(k) => 0 <= k < stored.len() && r == Some(k as usize),
            None => r is None,
        },
{
    proof {
        lemma_first_stored_in_range(stored@, workspace_id@, 0);
    }
    let mut i: usize = 0;
    while i < stored.len()
        invariant
            i <= stored.len(),
            first_stored_from(stored@, workspace_id@, 0) == first_stored_from(stored@, workspace_id@, i as int),
        decreases stored.len() - i,
    {
        if str_eq(stored[i].id.as_str(), workspace_id) {
            return Some(i);
        }
        i = i + 1;
    }
    None
}

fn filled_text(t: &Option<String>) -> (r: Option<String>)
    ensures
        match filled(*t) {
            Some(v) => r matches Some(x) && x@ == v,
            None => r is None,
        },
{
    match t {
        Some(v) => {
            let trimmed = crate::text::trim_str(v.as_str());
            if trimmed.as_str().is_empty() {
                None
            } else {
                Some(v.as_str().to_string())
            }
        },
        None => None,
    }
}

/// The display name saved for a workspace.
pub fn resolve_workspace_display_name(stored: &Vec<StoredWorkspace>, workspace_id: &str) -> (r: Option<String>)
    ensures
        match display_name_spec(stored@, workspace_id@) {
            Some(n) => r matches Some(x) && x@ == n,
            None => r is None,
        },
{
    match first_stored(stored, workspace_id) {
        Some(k) => filled_text(&stored[k].name),
        None => None,
    }
}

/// Where a refresh reads from.
pub enum RefreshSource {
    /// The path the request gave; it still has to pass the traversal check.
    Requested(String),
    /// The path saved with the workspace.
    Stored(String),
}

/// The source of a refresh: the requested path when it is not blank, else
/// the saved one; with neither, a configuration error.
pub fn resolve_refresh_source_path(
    requested: Option<String>,
    stored: &Vec<StoredWorkspace>,
    workspace_id: &str,
) -> (r: Result<RefreshSource, CommandError>)
    ensures
        filled(requested) is Some ==> (r matches Ok(RefreshSource::Requested(p)) && Some(p@) == filled(
            requested,
        )),
        filled(requested) is None && source_path_spec(stored@, workspace_id@) is Some ==> (r matches Ok(
            RefreshSource::Stored(p),
        ) && Some(p@) == source_path_spec(stored@, workspace_id@)),
        filled(requested) is None && source_path_spec(stored@, workspace_id@) is None ==> (r matches Err(
            e,
        ) && e.code@ == "CONFIG_ERROR"@ && e.message@ == "Workspace source path missing"@ && (e.help matches Some(
            h,
        ) && h@ == "Please refresh the workspace list or re-import it"@) && e.details is None),
{
    if let Some(p) = filled_text(&requested) {
        return Ok(RefreshSource::Requested(p));
    }
    let saved = match first_stored(stored, workspace_id) {
        Some(k) => filled_text(&stored[k].path),
        None => None,
    };
    match saved {
        Some(p) => Ok(RefreshSource::Stored(p)),
        None => Err(
            CommandError {
                code: "CONFIG_ERROR".to_string(),
                message: "Workspace source path missing".to_string(),
                help: Some("Please refresh the workspace list or re-import it".to_string()),
                details: None,
            },
        ),
    }
}

/// The RFC 3339 text of a Unix time in whole seconds, in UTC; none when
/// the time is outside the dates chrono can hold.
pub uninterp spec fn rfc3339_utc_of(secs: i64) -> Option<Seq<char>>;

/// `chrono::DateTime::<Utc>::from_timestamp(secs, 0)`, written with
/// `to_rfc3339`. `from_timestamp` gives `None` only for a time outside
/// chrono's dates; `to_rfc3339` writes to a `String` and cannot fail.
#[verifier::external_body]
fn rfc3339_utc(secs: i64) -> (r: Option<String>)
    ensures
        match rfc3339_utc_of(secs) {
            Some(t) => r matches Some(s) && s@ == t,
            None => r is None,
        },
{
    match chrono::DateTime::from_timestamp(secs, 0) {
        Some(dt) => Some(dt.to_rfc3339()),
        None => None,
    }
}

/// One end of a workspace's time range as text: none for a time that is not
/// after the epoch; the RFC 3339 form, or the number itself when it has none.
pub open spec fn time_bound_spec(ts: i64) -> Option<Seq<char>> {
    if ts > 0 {
        Some(
            match rfc3339_utc_of(ts) {
                Some(t) => t,
                None => decimal(ts as nat),
            },
        )
    } else {
        None
    }
}

pub fn time_bound_text(ts: i64) -> (r: Option<String>)
    ensures
        match time_bound_spec(ts) {
            Some(t) => r matches Some(s) && s@ == t,
            None => r is None,
        },
{
    if ts > 0 {
        match rfc3339_utc(ts) {
            Some(t) => Some(t),
            None => {
                let mut s = String::new();
                push_decimal(&mut s, ts as u64);
                Some(s)
            },
        }
    } else {
        None
    }
}

/// The first and last log times of a workspace, and how many logs it holds.
pub struct WorkspaceTimeRange {
    pub min_timestamp: Option<String>,
    pub max_timestamp: Option<String>,
    pub total_logs: u64,
}

/// The time range answer from the index's earliest and latest times.
pub fn workspace_time_range(min_ts: i64, max_ts: i64, total_logs: u64) -> (r: WorkspaceTimeRange)
    ensures
        opt_view(r.min_timestamp) == time_bound_spec(min_ts),
        opt_view(r.max_timestamp) == time_bound_spec(max_ts),
        r.total_logs == total_logs,
{
    WorkspaceTimeRange {
        min_timestamp: time_bound_text(min_ts),
        max_timestamp: time_bound_text(max_ts),
        total_logs,
    }
}

/// A workspace keeps its content in the content-addressed store when its
/// directory holds the metadata database or the object store.
pub fn is_cas_workspace(has_metadata_db: bool, has_objects_dir: bool) -> (r: bool)
    ensures
        r == (has_metadata_db || has_objects_dir),
{
    has_metadata_db || has_objects_dir
}

/// The status of a workspace directory: `ready` when it holds both the
/// metadata database and the object store, else `incomplete`.
pub fn workspace_status(has_metadata_db: bool, has_objects_dir: bool) -> (s: &'static str)
    ensures
        (has_metadata_db && has_objects_dir) ==> s@ == "ready"@,
        !(has_metadata_db && has_objects_dir) ==> s@ == "incomplete"@,
{
    if has_metadata_db && has_objects_dir {
        "ready"
    } else {
        "incomplete"
    }
}

/// The record of a workspace directory: its saved name (the identifier when
/// none is saved), its status, and its file count, which is only asked of a
/// ready workspace (`counted`, with zero when the count failed) and is zero
/// otherwise.
pub fn workspace_info(
    id: String,
    saved_name: Option<String>,
    has_metadata_db: bool,
    has_objects_dir: bool,
    counted: Option<usize>,
) -> (r: WorkspaceInfo)
    ensures
        r.id@ == id@,
        r.name@ == match saved_name {
            Some(n) => n@,
            None => id@,
        },
        (has_metadata_db && has_objects_dir) ==> r.status@ == "ready"@ && r.file_count == match counted {
            Some(n) => n,
            None => 0usize,
        },
        !(has_metadata_db && has_objects_dir) ==> r.status@ == "incomplete"@ && r.file_count == 0,
{
    let name = match saved_name {
        Some(n) => n,
        None => id.as_str().to_string(),
    };
    let ready = has_metadata_db && has_objects_dir;
    let file_count = if ready {
        match counted {
            Some(n) => n,
            None => 0,
        }
    } else {
        0
    };
    WorkspaceInfo {
        id,
        name,
        file_count,
        status: workspace_status(has_metadata_db, has_objects_dir).to_string(),
    }
}

/// How many matches an HTTP search counts at most: the request's cap
/// (50000 when absent), never above 1000.
pub open spec fn http_max_results_spec(requested: Option<usize>) -> usize {
    let r = match requested {
        Some(n) => n,
        None => 50000,
    };
    if r > 1000 { 1000 } else { r }
}

pub fn http_max_results(requested: Option<usize>) -> (n: usize)
    ensures
        n == http_max_results_spec(requested),
{
    let r = match requested {
        Some(n) => n,
        None => 50000,
    };
    let r = if r > 100_000 { 100_000 } else { r };
    if r > 1000 {
        1000
    } else {
        r
    }
}

/// Counts matching lines onto `total` until it reaches `max`: each line
/// that matches adds one while the total is below the cap.
pub open spec fn tally_spec(total: nat, max: nat, matches: Seq<bool>) -> nat
    decreases matches.len(),
{
    if matches.len() == 0 {
        total
    } else {
        let t = tally_spec(total, max, matches.drop_last());
        if t < max && matches.last() { t + 1 } else { t }
    }
}

pub fn tally_matches(total: usize, max: usize, line_matches: &Vec<bool>) -> (r: usize)
    ensures
        r == tally_spec(total as nat, max as nat, line_matches@),
{
    let mut t = total;
    let mut i: usize = 0;
    while i < line_matches.len()
        invariant
            i <= line_matches.len(),
            t == tally_spec(total as nat, max as nat, line_matches@.take(i as int)),
            t <= if total > max { total } else { max },
        decreases line_matches.len() - i,
    {
        assert(line_matches@.take((i + 1) as int).drop_last() =~= line_matches@.take(i as int));
        if t < max && line_matches[i] {
            t = t + 1;
        }
        i = i + 1;
    }
    assert(line_matches@.take(line_matches.len() as int) =~= line_matches@);
    t
}

/// The count never passes the cap unless it started above it, and never
/// goes down.
pub proof fn law_tally_respects_cap(total: nat, max: nat, matches: Seq<bool>)
    ensures
        total <= max ==> tally_spec(total, max, matches) <= max,
        tally_spec(total, max, matches) >= total,
        tally_spec(total, max, matches) <= total + matches.len(),
    decreases matches.len(),
{
    if matches.len() > 0 {
        law_tally_respects_cap(total, max, matches.drop_last());
    }
}

/// The terms of an HTTP search query: split on every `|`, each trimmed,
/// blank ones left out.
pub open spec fn http_terms_spec(query: Seq<char>) -> Seq<Seq<char>>
    decreases query.len(),
{
    http_terms_from(query, Seq::empty())
}

/// Terms of `rest`, where `current` is the text of the term begun so far.
pub open spec fn http_terms_from(rest: Seq<char>, current: Seq<char>) -> Seq<Seq<char>>
    decreases rest.len(),
{
    if rest.len() == 0 {
        keep_term(current)
    } else if rest[0] == '|' {
        keep_term(current) + http_terms_from(rest.drop_first(), Seq::empty())
    } else {
        http_terms_from(rest.drop_first(), current.push(rest[0]))
    }
}

pub open spec fn keep_term(t: Seq<char>) -> Seq<Seq<char>> {
    if trim_spec(t).len() > 0 { seq![trim_spec(t)] } else { Seq::empty() }
}

pub open spec fn term_views(v: Seq<String>) -> Seq<Seq<char>> {
    v.map_values(|s: String| s@)
}

/// The terms of an HTTP search query (see `http_terms_spec`); none at all
/// is an error.
pub fn http_query_terms(query: &str) -> (r: Result<Vec<String>, String>)
    ensures
        http_terms_spec(query@).len() == 0 ==> (r matches Err(e) && e@
            == "Search query is empty after processing"@),
        http_terms_spec(query@).len() > 0 ==> (r matches Ok(v) && term_views(v@) == http_terms_spec(
            query@,
        )),
{
    let q = crate::text::chars_of(query);
    let mut terms: Vec<String> = Vec::new();
    let mut current: Vec<char> = Vec::new();
    let mut i: usize = 0;
    assert(q@.skip(0) =~= q@);
    while i < q.len()
        invariant
            i <= q.len(),
            q@ == query@,
            term_views(terms@) + http_terms_from(q@.skip(i as int), current@) == http_terms_spec(
                query@,
            ),
        decreases q.len() - i,
    {
        let ghost rest = q@.skip(i as int);
        assert(rest[0] == q@[i as int]);
        assert(rest.drop_first() =~= q@.skip(i + 1));
        let c = q[i];
        if c == '|' {
            let ghost before = term_views(terms@);
            let t = crate::text::trim_chars(&current);
            if t.len() > 0 {
                terms.push(crate::text::string_of(t.as_slice()));
                assert(term_views(terms@) =~= before + keep_term(current@));
            } else {
                assert(term_views(terms@) =~= before + keep_term(current@));
            }
            assert(term_views(terms@) + http_terms_from(q@.skip(i + 1), Seq::empty()) =~= before
                + (keep_term(current@) + http_terms_from(q@.skip(i + 1), Seq::empty())));
            current = Vec::new();
        } else {
            current.push(c);
        }
        i = i + 1;
    }
    let ghost before = term_views(terms@);
    let t = crate::text::trim_chars(&current);
    if t.len() > 0 {
        terms.push(crate::text::string_of(t.as_slice()));
    }
    assert(q@.skip(q.len() as int) =~= Seq::<char>::empty());
    assert(term_views(terms@) =~= before + keep_term(current@));
    if terms.len() == 0 {
        return Err("Search query is empty after processing".to_string());
    }
    Ok(terms)
}

/// The id of the `i`-th term of a query: `term_` and its number.
pub fn term_id(i: usize) -> (r: String)
    ensures
        r@ == "term_"@ + crate::text::decimal(i as nat),
{
    let mut r = String::new();
    push_str(&mut r, "term_");
    push_decimal(&mut r, i as u64);
    r
}

/// The workspaces being watched for changes.
pub struct WatchRegistry {
    watched: Vec<String>,
}

impl WatchRegistry {
    /// The identifiers of the watched workspaces, each once.
    pub closed spec fn ids(&self) -> Set<Seq<char>> {
        self.watched@.map_values(|s: String| s@).to_set()
    }

    pub closed spec fn wf(&self) -> bool {
        self.watched@.map_values(|s: String| s@).no_duplicates()
    }

    pub fn new() -> (r: Self)
        ensures
            r.wf(),
            r.ids() == Set::<Seq<char>>::empty(),
    {
        let r = WatchRegistry { watched: Vec::new() };
        assert(r.watched@.map_values(|s: String| s@) =~= Seq::<Seq<char>>::empty());
        r
    }

    fn position(&self, workspace_id: &str) -> (r: Option<usize>)
        ensures
            match r {
                Some(i) => i < self.watched@.len() && self.watched@[i as int]@ == workspace_id@,
                None => !self.ids().contains(workspace_id@),
            },
    {
        let mut i: usize = 0;
        while i < self.watched.len()
            invariant
                i <= self.watched@.len(),
                forall|k: int| 0 <= k < i ==> (#[trigger] self.watched@[k])@ != workspace_id@,
            decreases self.watched.len() - i,
        {
            if str_eq(self.watched[i].as_str(), workspace_id) {
                return Some(i);
            }
            i = i + 1;
        }
        proof {
            let v = self.watched@.map_values(|s: String| s@);
            if v.to_set().contains(workspace_id@) {
                let k = v.index_of(workspace_id@);
                assert(v[k] == self.watched@[k]@);
            }
        }
        None
    }

    pub fn is_watching(&self, workspace_id: &str) -> (r: bool)
        ensures
            r == self.ids().contains(workspace_id@),
    {
        match self.position(workspace_id) {
            Some(i) => {
                proof {
                    let v = self.watched@.map_values(|s: String| s@);
                    assert(v[i as int] == workspace_id@);
                }
                true
            },
            None => false,
        }
    }

    /// Starts watching a workspace; a workspace already watched is refused.
    pub fn start(&mut self, workspace_id: &str) -> (r: Result<(), String>)
        requires
            old(self).wf(),
        ensures
            final(self).wf(),
            old(self).ids().contains(workspace_id@) ==> (r matches Err(e) && e@
                == "Workspace is already being watched"@ && final(self).ids() == old(self).ids()),
            !old(self).ids().contains(workspace_id@) ==> (r is Ok && final(self).ids() == old(
                self,
            ).ids().insert(workspace_id@)),
    {
        if self.is_watching(workspace_id) {
            return Err("Workspace is already being watched".to_string());
        }
        let ghost before = self.watched@.map_values(|s: String| s@);
        self.watched.push(workspace_id.to_string());
        proof {
            let after = self.watched@.map_values(|s: String| s@);
            assert(after =~= before.push(workspace_id@));
            assert(!before.to_set().contains(workspace_id@));
            assert forall|y: Seq<char>| after.to_set().contains(y) <==> before.to_set().insert(
                workspace_id@,
            ).contains(y) by {
                if after.contains(y) {
                    let k = after.index_of(y);
                    if k < before.len() {
                        assert(before[k] == y);
                    }
                }
                if before.contains(y) {
                    let k = before.index_of(y);
                    assert(after[k] == y);
                }
                if y == workspace_id@ {
                    assert(after[before.len() as int] == y);
                }
            }
            assert(after.to_set() =~= before.to_set().insert(workspace_id@));
            assert forall|j: int, k: int|
                0 <= j < after.len() && 0 <= k < after.len() && j != k implies after[j] != after[k] by {
                if j < before.len() && k == before.len() {
                    assert(before.contains(before[j]));
                }
                if k < before.len() && j == before.len() {
                    assert(before.contains(before[k]));
                }
            }
        }
        Ok(())
    }

    /// Stops watching a workspace; one that is not watched is refused.
    pub fn stop(&mut self, workspace_id: &str) -> (r: Result<(), String>)
        requires
            old(self).wf(),
        ensures
            final(self).wf(),
            !old(self).ids().contains(workspace_id@) ==> (r matches Err(e) && e@
                == "No active watcher found for this workspace"@ && final(self).ids() == old(
                self,
            ).ids()),
            old(self).ids().contains(workspace_id@) ==> (r is Ok && final(self).ids() == old(
                self,
            ).ids().remove(workspace_id@)),
    {
        match self.position(workspace_id) {
            None => Err("No active watcher found for this workspace".to_string()),
            Some(i) => {
                let ghost before = self.watched@.map_values(|s: String| s@);
                self.watched.remove(i);
                proof {
                    let after = self.watched@.map_values(|s: String| s@);
                    assert(after =~= before.remove(i as int));
                    assert(before[i as int] == workspace_id@);
                    assert forall|j: int, k: int|
                        0 <= j < after.len() && 0 <= k < after.len() && j != k implies after[j]
                        != after[k] by {
                        let jj = if j < i { j } else { j + 1 };
                        let kk = if k < i { k } else { k + 1 };
                        assert(after[j] == before[jj]);
                        assert(after[k] == before[kk]);
                    }
                    assert forall|x: Seq<char>| after.to_set().contains(x) <==> before.to_set().remove(
                        workspace_id@,
                    ).contains(x) by {
                        if after.contains(x) {
                            let k = after.index_of(x);
                            if k < i {
                                assert(before[k] == x);
                            } else {
                                assert(before[k + 1] == x);
                            }
                        }
                        if before.contains(x) && x != workspace_id@ {
                            let k = before.index_of(x);
                            if k < i {
                                assert(after[k] == x);
                            } else {
                                assert(k != i);
                                assert(after[k - 1] == x);
                            }
                        }
                    }
                    assert(after.to_set() =~= before.to_set().remove(workspace_id@));
                }
                Ok(())
            },
        }
    }
}

/// Watching a workspace and then stopping leaves the watched set as it was.
pub proof fn law_watch_start_then_stop(ids: Set<Seq<char>>, workspace_id: Seq<char>)
    requires
        !ids.contains(workspace_id),
    ensures
        ids.insert(workspace_id).remove(workspace_id) == ids,
        ids.insert(workspace_id).contains(workspace_id),
{
    assert(ids.insert(workspace_id).remove(workspace_id) =~= ids);
}

/// Deleting a file or directory is tried this many times.
pub const MAX_DELETE_ATTEMPTS: usize = 3;

/// The wait before trying a deletion again after attempt number `attempt`
/// (from zero) failed: 100 ms times the attempts made, or none after the
/// last attempt.
pub fn retry_delay_ms(attempt: usize) -> (r: Option<u64>)
    ensures
        attempt + 1 < MAX_DELETE_ATTEMPTS ==> r == Some((100 * (attempt + 1)) as u64),
        attempt + 1 >= MAX_DELETE_ATTEMPTS ==> r is None,
{
    if attempt < MAX_DELETE_ATTEMPTS - 1 {
        Some(100 * (attempt as u64 + 1))
    } else {
        None
    }
}

/// The index files an older version kept for a workspace, compressed first.
pub fn legacy_index_file_names(workspace_id: &str) -> (r: (String, String))
    ensures
        r.0@ == workspace_id@ + ".idx.gz"@,
        r.1@ == workspace_id@ + ".idx"@,
{
    let mut a = String::new();
    push_str(&mut a, workspace_id);
    push_str(&mut a, ".idx.gz");
    let mut b = String::new();
    push_str(&mut b, workspace_id);
    push_str(&mut b, ".idx");
    (a, b)
}

/// The text that marks a cleanup failure as critical: the workspace
/// directory is still there.
pub open spec fn critical_marker() -> Seq<char> {
    "Failed to delete workspace directory"@
}

/// The failure recorded when the workspace directory could not be removed.
pub fn directory_delete_failure(dir: &str, reason: &str) -> (m: String)
    ensures
        m@ == critical_marker() + " "@ + dir@ + ": "@ + reason@,
{
    let mut m = String::new();
    push_str(&mut m, "Failed to delete workspace directory");
    push_str(&mut m, " ");
    push_str(&mut m, dir);
    push_str(&mut m, ": ");
    push_str(&mut m, reason);
    m
}

/// The failure recorded when the workspace directory survived its removal.
pub fn directory_still_exists(dir: &str) -> (m: String)
    ensures
        m@ == critical_marker() + " "@ + dir@ + " after cleanup"@,
{
    let mut m = String::new();
    push_str(&mut m, "Failed to delete workspace directory");
    push_str(&mut m, " ");
    push_str(&mut m, dir);
    push_str(&mut m, " after cleanup");
    m
}

/// Messages joined with `; `.
pub open spec fn joined(ms: Seq<Seq<char>>) -> Seq<char>
    decreases ms.len(),
{
    if ms.len() == 0 {
        Seq::empty()
    } else if ms.len() == 1 {
        ms[0]
    } else {
        joined(ms.drop_last()) + "; "@ + ms.last()
    }
}

pub open spec fn has_critical(ms: Seq<Seq<char>>) -> bool {
    exists|i: int| 0 <= i < ms.len() && seq_contains(#[trigger] ms[i], critical_marker())
}

/// The answer of a workspace cleanup from the failures it collected: none,
/// or only failures on auxiliary files, is success; a workspace directory
/// left behind is `CLEANUP_ERROR` with every failure in the details.
pub fn cleanup_outcome(errors: &Vec<String>) -> (r: Result<(), CommandError>)
    ensures
        !has_critical(term_views(errors@)) <==> r is Ok,
        has_critical(term_views(errors@)) ==> (r matches Err(e) && e.code@ == "CLEANUP_ERROR"@
            && e.message@ == "Workspace directory deletion failed"@ && (e.help matches Some(h)
            && h@ == "Please close all programs that may have files open and retry"@) && (
        e.details matches Some(d) && d@ == joined(term_views(errors@)))),
{
    let mut critical = false;
    let mut i: usize = 0;
    while i < errors.len()
        invariant
            i <= errors.len(),
            critical == exists|k: int| 0 <= k < i && seq_contains(
                #[trigger] term_views(errors@)[k],
                critical_marker(),
            ),
        decreases errors.len() - i,
    {
        if str_contains(errors[i].as_str(), "Failed to delete workspace directory") {
            critical = true;
            assert(term_views(errors@)[i as int] == errors@[i as int]@);
        }
        i = i + 1;
    }
    if !critical {
        return Ok(());
    }
    let mut details = String::new();
    let mut j: usize = 0;
    while j < errors.len()
        invariant
            j <= errors.len(),
            details@ == joined(term_views(errors@).take(j as int)),
        decreases errors.len() - j,
    {
        assert(term_views(errors@).take((j + 1) as int).drop_last() =~= term_views(errors@).take(
            j as int,
        ));
        if j > 0 {
            push_str(&mut details, "; ");
        }
        push_str(&mut details, errors[j].as_str());
        proof {
            if j == 0 {
                assert(term_views(errors@).take(1) =~= seq![errors@[0]@]);
                assert(details@ =~= errors@[0]@);
            }
        }
        j = j + 1;
    }
    assert(term_views(errors@).take(errors.len() as int) =~= term_views(errors@));
    Err(CommandError {
        code: "CLEANUP_ERROR".to_string(),
        message: "Workspace directory deletion failed".to_string(),
        help: Some("Please close all programs that may have files open and retry".to_string()),
        details: Some(details),
    })
}

/// A cleanup that recorded a surviving workspace directory never reports
/// success.
pub proof fn law_leftover_directory_fails_cleanup(ms: Seq<Seq<char>>, dir: Seq<char>, i: int)
    requires
        0 <= i < ms.len(),
        ms[i] == critical_marker() + " "@ + dir + " after cleanup"@,
    ensures
        has_critical(ms),
{
    assert(ms[i].subrange(0, critical_marker().len() as int) =~= critical_marker());
    assert(crate::text::occurs_at(ms[i], critical_marker(), 0));
}

/// The formats results can be exported in.
#[derive(PartialEq, Eq, Structural, Clone, Copy, Debug)]
pub enum ExportFormat {
    Csv,
    Json,
}

/// The export format named by the request: `csv` or `json`, anything else
/// refused.
pub fn export_format(format: &str) -> (r: Result<ExportFormat, CommandError>)
    ensures
        format@ == "csv"@ ==> r == Ok::<ExportFormat, CommandError>(ExportFormat::Csv),
        format@ == "json"@ ==> r == Ok::<ExportFormat, CommandError>(ExportFormat::Json),
        format@ != "csv"@ && format@ != "json"@ ==> (r matches Err(e) && e.code@
            == "UNSUPPORTED_EXPORT_FORMAT"@ && e.message@ == "Unsupported format: "@ + format@),
{
    proof {
        reveal_strlit("csv");
        reveal_strlit("json");
        assert("csv"@.len() != "json"@.len());
    }
    if str_eq(format, "csv") {
        Ok(ExportFormat::Csv)
    } else if str_eq(format, "json") {
        Ok(ExportFormat::Json)
    } else {
        let mut m = String::new();
        push_str(&mut m, "Unsupported format: ");
        push_str(&mut m, format);
        Err(CommandError { code: "UNSUPPORTED_EXPORT_FORMAT".to_string(), message: m, help: None, details: None })
    }
}

/// A CSV export starts with the UTF-8 byte order mark.
pub fn csv_byte_order_mark() -> (b: [u8; 3])
    ensures
        b@ == seq![0xEFu8, 0xBBu8, 0xBFu8],
{
    [0xEFu8, 0xBB, 0xBF]
}

/// A search history entry needs a query and a workspace that are not
/// blank; the query is kept trimmed.
pub fn validate_history_entry(query: &str, workspace_id: &str) -> (r: Result<String, String>)
    ensures
        trim_spec(query@).len() == 0 ==> (r matches Err(e) && e@ == "Search query cannot be empty"@),
        trim_spec(query@).len() > 0 && trim_spec(workspace_id@).len() == 0 ==> (r matches Err(e) && e@
            == "Workspace ID cannot be empty"@),
        trim_spec(query@).len() > 0 && trim_spec(workspace_id@).len() > 0 ==> (r matches Ok(q) && q@
            == trim_spec(query@)),
{
    let q = crate::text::trim_str(query);
    if q.as_str().is_empty() {
        return Err("Search query cannot be empty".to_string());
    }
    let w = crate::text::trim_str(workspace_id);
    if w.as_str().is_empty() {
        return Err("Workspace ID cannot be empty".to_string());
    }
    Ok(q)
}

/// Field problems written `field: message`, joined with `; `.
pub open spec fn field_problems(errors: Seq<(String, String)>) -> Seq<Seq<char>> {
    errors.map_values(|e: (String, String)| e.0@ + ": "@ + e.1@)
}

/// The refusal of a configuration that failed validation: what was being
/// saved, then every field problem.
pub fn validation_failure_message(prefix: &str, errors: &Vec<(String, String)>) -> (m: String)
    ensures
        m@ == prefix@ + ": "@ + joined(field_problems(errors@)),
{
    let mut m = String::new();
    push_str(&mut m, prefix);
    push_str(&mut m, ": ");
    let ghost start = m@;
    let mut i: usize = 0;
    while i < errors.len()
        invariant
            i <= errors.len(),
            start == prefix@ + ": "@,
            m@ == start + joined(field_problems(errors@).take(i as int)),
        decreases errors.len() - i,
    {
        let ghost before = m@;
        assert(field_problems(errors@).take((i + 1) as int).drop_last() =~= field_problems(errors@).take(
            i as int,
        ));
        if i > 0 {
            push_str(&mut m, "; ");
        }
        push_str(&mut m, errors[i].0.as_str());
        push_str(&mut m, ": ");
        push_str(&mut m, errors[i].1.as_str());
        proof {
            let fp = field_problems(errors@);
            assert(fp[i as int] == errors@[i as int].0@ + ": "@ + errors@[i as int].1@);
            if i == 0 {
                assert(fp.take(1) =~= seq![fp[0]]);
                assert(m@ =~= start + fp[0]);
            } else {
                assert(m@ =~= before + "; "@ + fp[i as int]);
            }
        }
        i = i + 1;
    }
    assert(field_problems(errors@).take(errors.len() as int) =~= field_problems(errors@));
    m
}

/// The log levels a user may pick, least to most severe.
pub fn get_available_log_levels() -> (r: Result<Vec<String>, CommandError>)
    ensures
        r matches Ok(v) && term_views(v@) == seq!["trace"@, "debug"@, "info"@, "warn"@, "error"@],
{
    let mut v: Vec<String> = Vec::new();
    v.push("trace".to_string());
    v.push("debug".to_string());
    v.push("info".to_string());
    v.push("warn".to_string());
    v.push("error".to_string());
    assert(term_views(v@) =~= seq!["trace"@, "debug"@, "info"@, "warn"@, "error"@]);
    Ok(v)
}

/// The logging presets.
#[derive(PartialEq, Eq, Structural, Clone, Copy, Debug)]
pub enum LogPreset {
    Production,
    Debug,
    Default,
}

/// The preset a name stands for; an unknown name is refused.
pub fn parse_log_preset(preset: &str) -> (r: Result<LogPreset, CommandError>)
    ensures
        preset@ == "production"@ ==> r == Ok::<LogPreset, CommandError>(LogPreset::Production),
        preset@ == "debug"@ ==> r == Ok::<LogPreset, CommandError>(LogPreset::Debug),
        preset@ == "default"@ ==> r == Ok::<LogPreset, CommandError>(LogPreset::Default),
        preset@ != "production"@ && preset@ != "debug"@ && preset@ != "default"@ ==> (r matches Err(e)
            && e.code@ == "UNKNOWN_LOG_PRESET"@ && e.message@ == "未知的预设: "@ + preset@),
{
    proof {
        reveal_strlit("production");
        reveal_strlit("debug");
        reveal_strlit("default");
        assert("production"@.len() != "debug"@.len());
        assert("production"@.len() != "default"@.len());
        assert("debug"@[2] != "default"@[2]);
    }
    if str_eq(preset, "production") {
        Ok(LogPreset::Production)
    } else if str_eq(preset, "debug") {
        Ok(LogPreset::Debug)
    } else if str_eq(preset, "default") {
        Ok(LogPreset::Default)
    } else {
        let mut m = String::new();
        push_str(&mut m, "未知的预设: ");
        push_str(&mut m, preset);
        Err(CommandError { code: "UNKNOWN_LOG_PRESET".to_string(), message: m, help: None, details: None })
    }
}

/// The refusal of a log level name that is not known.
pub fn invalid_log_level(level: &str) -> (e: CommandError)
    ensures
        e.code@ == "INVALID_LOG_LEVEL"@,
        e.message@ == "无效的日志级别: "@ + level@,
{
    let mut m = String::new();
    push_str(&mut m, "无效的日志级别: ");
    push_str(&mut m, level);
    CommandError { code: "INVALID_LOG_LEVEL".to_string(), message: m, help: None, details: None }
}

} // verus!
