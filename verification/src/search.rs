//! The decisions of a search run: request checks, the structured query
//! built from a text query, where each file's text is read from, and the
//! tally that caps, numbers and counts the results.
use vstd::prelude::*;
use crate::filters::CommandError;
use crate::query::{split_query_by_pipe, split_query_spec, views_of};
use crate::text::{chars_of, decimal, push_decimal, push_str, seq_starts_with, str_eq, trim_spec};

verus! {

fn command_error(code: &str, message: &str, help: &str) -> (e: CommandError)
    ensures
        e.code@ == code@,
        e.message@ == message@,
        e.help matches Some(h) && h@ == help@,
        e.details is None,
{
    CommandError {
        code: code.to_string(),
        message: message.to_string(),
        help: Some(help.to_string()),
        details: None,
    }
}

/// A search query must be present and at most 1000 bytes long.
pub fn validate_search_params(query: &str) -> (r: Result<(), CommandError>)
    ensures
        query@.len() == 0 ==> (r matches Err(e) && e.code@ == "VALIDATION_ERROR"@ && e.message@
            == "Search query cannot be empty"@ && (e.help matches Some(h) && h@
            == "Please enter at least one search term"@)),
        query@.len() > 0 && crate::paths::byte_len(query@) > 1000 ==> (r matches Err(e) && e.code@
            == "VALIDATION_ERROR"@ && e.message@ == "Search query too long (max 1000 characters)"@
            && (e.help matches Some(h) && h@ == "Try reducing the number of search terms"@)),
        query@.len() > 0 && crate::paths::byte_len(query@) <= 1000 ==> r is Ok,
{
    if query.is_empty() {
        return Err(
            command_error(
                "VALIDATION_ERROR",
                "Search query cannot be empty",
                "Please enter at least one search term",
            ),
        );
    }
    if query.len() > 1000 {
        return Err(
            command_error(
                "VALIDATION_ERROR",
                "Search query too long (max 1000 characters)",
                "Try reducing the number of search terms",
            ),
        );
    }
    Ok(())
}

/// The workspace a search runs in: the one asked for, else the first one
/// known; with neither, `NOT_FOUND`.
pub fn resolve_workspace_id(id_arg: Option<String>, workspace_ids: &Vec<String>) -> (r: Result<
    String,
    CommandError,
>)
    ensures
        id_arg matches Some(id) ==> r == Ok::<String, CommandError>(id),
        id_arg is None && workspace_ids@.len() > 0 ==> (r matches Ok(id) && id@ == workspace_ids@[0]@),
        id_arg is None && workspace_ids@.len() == 0 ==> (r matches Err(e) && e.code@ == "NOT_FOUND"@
            && e.message@ == "No workspaces available"@ && (e.help matches Some(h) && h@
            == "Create a workspace first"@)),
{
    if let Some(id) = id_arg {
        return Ok(id);
    }
    if workspace_ids.len() > 0 {
        Ok(workspace_ids[0].as_str().to_string())
    } else {
        Err(command_error("NOT_FOUND", "No workspaces available", "Create a workspace first"))
    }
}

/// The answer for a workspace that has no service.
pub fn workspace_not_found(workspace_id: &str) -> (e: CommandError)
    ensures
        e.code@ == "NOT_FOUND"@,
        e.message@ == "Workspace "@ + workspace_id@ + " not found"@,
        e.help matches Some(h) && h@ == "Try reloading the workspace"@,
{
    let mut m = String::new();
    push_str(&mut m, "Workspace ");
    push_str(&mut m, workspace_id);
    push_str(&mut m, " not found");
    CommandError {
        code: "NOT_FOUND".to_string(),
        message: m,
        help: Some("Try reloading the workspace".to_string()),
        details: None,
    }
}

#[derive(PartialEq, Eq, Structural, Clone, Copy, Debug)]
pub enum QueryOperator {
    And,
    Or,
    Not,
}

#[derive(PartialEq, Eq, Structural, Clone, Copy, Debug)]
pub enum TermSource {
    User,
    Preset,
}

/// One term of a structured query.
pub struct SearchTerm {
    pub id: String,
    pub value: String,
    pub operator: QueryOperator,
    pub source: TermSource,
    pub preset_group_id: Option<String>,
    pub is_regex: bool,
    pub priority: u32,
    pub enabled: bool,
    pub case_sensitive: bool,
}

/// Bookkeeping of a saved query.
pub struct QueryMetadata {
    pub created_at: i64,
    pub last_modified: i64,
    pub execution_count: u32,
    pub label: Option<String>,
}

/// A query made of terms joined by one operator.
pub struct SearchQuery {
    pub id: String,
    pub terms: Vec<SearchTerm>,
    pub global_operator: QueryOperator,
    pub metadata: QueryMetadata,
}

pub open spec fn fresh_metadata(m: QueryMetadata) -> bool {
    m.created_at == 0 && m.last_modified == 0 && m.execution_count == 0 && m.label is None
}

/// Term `i` of a query built from text: id `term_i`, the text, OR-joined,
/// typed by the user, priority one, enabled.
pub open spec fn is_user_term(t: SearchTerm, i: int, value: Seq<char>, is_regex: bool, case_sensitive: bool) -> bool {
    &&& t.id@ == "term_"@ + decimal(i as nat)
    &&& t.value@ == value
    &&& t.operator == QueryOperator::Or
    &&& t.source == TermSource::User
    &&& t.preset_group_id is None
    &&& t.is_regex == is_regex
    &&& t.priority == 1
    &&& t.enabled
    &&& t.case_sensitive == case_sensitive
}

/// Whether term `i` is taken as a regular expression, from the
/// classification given for the terms (a term past its end is literal).
pub open spec fn regex_flag(flags: Seq<bool>, i: int) -> bool {
    if 0 <= i < flags.len() { flags[i] } else { false }
}

fn query_empty_error() -> (e: CommandError)
    ensures
        e.code@ == "VALIDATION_ERROR"@,
        e.message@ == "Search query cannot be empty"@,
        e.help matches Some(h) && h@ == "Please enter at least one search term"@,
{
    command_error(
        "VALIDATION_ERROR",
        "Search query cannot be empty",
        "Please enter at least one search term",
    )
}

/// What building a structured query from the text `query` gives: a
/// validation error when it has no term; else its terms and the query made
/// of them.
pub open spec fn built_from_text(
    query: Seq<char>,
    case_sensitive: bool,
    query_id: Seq<char>,
    regex_flags: Seq<bool>,
    r: Result<(Vec<String>, SearchQuery), CommandError>,
) -> bool {
    &&& split_query_spec(query).len() == 0 ==> (r matches Err(e) && e.code@ == "VALIDATION_ERROR"@
        && e.message@ == "Search query cannot be empty"@)
    &&& split_query_spec(query).len() > 0 ==> (r matches Ok((raw, q)) && {
        &&& views_of(raw@) == split_query_spec(query)
        &&& q.id@ == query_id
        &&& q.global_operator == QueryOperator::Or
        &&& fresh_metadata(q.metadata)
        &&& q.terms@.len() == raw@.len()
        &&& forall|i: int|
            0 <= i < q.terms@.len() ==> is_user_term(
                #[trigger] q.terms@[i],
                i,
                raw@[i]@,
                regex_flag(regex_flags, i),
                case_sensitive,
            )
    })
}

/// The terms of a query typed as text, one per raw term.
fn user_terms(raw_terms: &Vec<String>, case_sensitive: bool, regex_flags: &Vec<bool>) -> (terms: Vec<SearchTerm>)
    ensures
        terms@.len() == raw_terms@.len(),
        forall|k: int|
            0 <= k < terms@.len() ==> is_user_term(
                #[trigger] terms@[k],
                k,
                raw_terms@[k]@,
                regex_flag(regex_flags@, k),
                case_sensitive,
            ),
{
    let mut terms: Vec<SearchTerm> = Vec::new();
    let mut i: usize = 0;
    while i < raw_terms.len()
        invariant
            i <= raw_terms.len(),
            terms@.len() == i,
            forall|k: int|
                0 <= k < i ==> is_user_term(
                    #[trigger] terms@[k],
                    k,
                    raw_terms@[k]@,
                    regex_flag(regex_flags@, k),
                    case_sensitive,
                ),
        decreases raw_terms.len() - i,
    {
        let mut id = String::new();
        push_str(&mut id, "term_");
        push_decimal(&mut id, i as u64);
        let is_regex = if i < regex_flags.len() {
            regex_flags[i]
        } else {
            false
        };
        terms.push(
            SearchTerm {
                id,
                value: raw_terms[i].as_str().to_string(),
                operator: QueryOperator::Or,
                source: TermSource::User,
                preset_group_id: None,
                is_regex,
                priority: 1,
                enabled: true,
                case_sensitive,
            },
        );
        i = i + 1;
    }
    terms
}

/// The query an HTTP search runs for its terms: literal, case-insensitive,
/// OR-joined user terms under the id `http_search_query`.
pub fn http_search_query(terms: &Vec<String>) -> (q: SearchQuery)
    ensures
        q.id@ == "http_search_query"@,
        q.global_operator == QueryOperator::Or,
        fresh_metadata(q.metadata),
        q.terms@.len() == terms@.len(),
        forall|i: int| 0 <= i < q.terms@.len() ==> is_user_term(#[trigger] q.terms@[i], i, terms@[i]@, false, false),
{
    let flags: Vec<bool> = Vec::new();
    let ts = user_terms(terms, false, &flags);
    assert forall|i: int| 0 <= i < ts@.len() implies is_user_term(#[trigger] ts@[i], i, terms@[i]@, false, false) by {
        assert(regex_flag(flags@, i) == false);
    }
    SearchQuery {
        id: "http_search_query".to_string(),
        terms: ts,
        global_operator: QueryOperator::Or,
        metadata: QueryMetadata { created_at: 0, last_modified: 0, execution_count: 0, label: None },
    }
}

/// The structured query for a text query: its `|`-separated terms, OR-joined,
/// each typed by the user; `regex_flags[i]` says whether term `i` reads as a
/// regular expression. No term at all is a validation error.
pub fn build_structured_search_query(
    query: &str,
    case_sensitive: bool,
    query_id: &str,
    regex_flags: &Vec<bool>,
) -> (r: Result<(Vec<String>, SearchQuery), CommandError>)
    ensures
        built_from_text(query@, case_sensitive, query_id@, regex_flags@, r),
{
    let raw_terms = split_query_by_pipe(query);
    if raw_terms.len() == 0 {
        return Err(query_empty_error());
    }
    let terms = user_terms(&raw_terms, case_sensitive, regex_flags);
    let q = SearchQuery {
        id: query_id.to_string(),
        terms,
        global_operator: QueryOperator::Or,
        metadata: QueryMetadata { created_at: 0, last_modified: 0, execution_count: 0, label: None },
    };
    Ok((raw_terms, q))
}

/// The texts of the enabled terms of a query, trimmed, blank ones left out.
pub open spec fn enabled_term_texts(ts: Seq<SearchTerm>) -> Seq<Seq<char>>
    decreases ts.len(),
{
    if ts.len() == 0 {
        Seq::empty()
    } else {
        let rest = enabled_term_texts(ts.drop_last());
        let t = ts.last();
        if t.enabled && trim_spec(t.value@).len() > 0 { rest.push(trim_spec(t.value@)) } else { rest }
    }
}

/// Only enabled terms are searched: every text taken from a structured
/// query is the trimmed, non-blank value of one of its enabled terms, every
/// enabled term with a non-blank value gives its trimmed text, and a query
/// whose enabled terms are all blank (or that has none) gives no text.
pub proof fn law_only_enabled_terms_are_searched(ts: Seq<SearchTerm>)
    ensures
        enabled_term_texts(ts).len() <= ts.len(),
        forall|i: int|
            0 <= i < enabled_term_texts(ts).len() ==> exists|j: int|
                0 <= j < ts.len() && (#[trigger] ts[j]).enabled && trim_spec(ts[j].value@).len() > 0
                    && trim_spec(ts[j].value@) == #[trigger] enabled_term_texts(ts)[i],
        forall|j: int|
            0 <= j < ts.len() && (#[trigger] ts[j]).enabled && trim_spec(ts[j].value@).len() > 0
                ==> enabled_term_texts(ts).contains(trim_spec(ts[j].value@)),
        (forall|j: int| 0 <= j < ts.len() ==> !(#[trigger] ts[j]).enabled || trim_spec(ts[j].value@).len()
            == 0) ==> enabled_term_texts(ts).len() == 0,
    decreases ts.len(),
{
    if ts.len() > 0 {
        let p = ts.drop_last();
        law_only_enabled_terms_are_searched(p);
        let rest = enabled_term_texts(p);
        let t = ts.last();
        let r = enabled_term_texts(ts);
        assert forall|i: int| 0 <= i < r.len() implies exists|j: int|
            0 <= j < ts.len() && (#[trigger] ts[j]).enabled && trim_spec(ts[j].value@).len() > 0
                && trim_spec(ts[j].value@) == #[trigger] r[i] by {
            if i < rest.len() {
                assert(r[i] == rest[i]);
                let j = choose|j: int|
                    0 <= j < p.len() && (#[trigger] p[j]).enabled && trim_spec(p[j].value@).len() > 0
                        && trim_spec(p[j].value@) == #[trigger] rest[i];
                assert(ts[j] == p[j]);
            } else {
                assert(ts[ts.len() - 1] == t);
            }
        }
        assert forall|j: int|
            0 <= j < ts.len() && (#[trigger] ts[j]).enabled && trim_spec(ts[j].value@).len() > 0
                implies r.contains(trim_spec(ts[j].value@)) by {
            if j < p.len() {
                assert(ts[j] == p[j]);
                assert(rest.contains(trim_spec(p[j].value@)));
                let i = choose|i: int| 0 <= i < rest.len() && rest[i] == trim_spec(p[j].value@);
                if t.enabled && trim_spec(t.value@).len() > 0 {
                    assert(r[i] == rest[i]);
                }
            } else {
                assert(ts[j] == t);
                assert(r[r.len() - 1] == trim_spec(t.value@));
            }
        }
        if forall|j: int| 0 <= j < ts.len() ==> !(#[trigger] ts[j]).enabled || trim_spec(ts[j].value@).len()
            == 0 {
            assert forall|j: int| 0 <= j < p.len() implies !(#[trigger] p[j]).enabled || trim_spec(
                p[j].value@,
            ).len() == 0 by {
                assert(ts[j] == p[j]);
            }
            assert(ts[ts.len() - 1] == t);
        }
    }
}

/// The query a search runs: a structured query, when one is given, renamed
/// to `query_id` with fresh bookkeeping and its terms kept as they are (it
/// must have an enabled, non-blank term); else the query built from the text.
pub fn resolve_search_query(
    query: &str,
    structured_query: Option<SearchQuery>,
    case_sensitive: bool,
    query_id: &str,
    regex_flags: &Vec<bool>,
) -> (r: Result<(Vec<String>, SearchQuery), CommandError>)
    ensures
        structured_query matches Some(sq) ==> {
            &&& enabled_term_texts(sq.terms@).len() == 0 ==> (r matches Err(e) && e.code@
                == "VALIDATION_ERROR"@ && e.message@ == "Search query cannot be empty"@)
            &&& enabled_term_texts(sq.terms@).len() > 0 ==> (r matches Ok((raw, q)) && views_of(
                raw@,
            ) == enabled_term_texts(sq.terms@) && q.id@ == query_id@ && q.terms == sq.terms
                && q.global_operator == sq.global_operator && fresh_metadata(q.metadata))
        },
        structured_query is None ==> built_from_text(
            query@,
            case_sensitive,
            query_id@,
            regex_flags@,
            r,
        ),
{
    match structured_query {
        Some(sq) => {
            let mut raw: Vec<String> = Vec::new();
            let mut i: usize = 0;
            while i < sq.terms.len()
                invariant
                    i <= sq.terms.len(),
                    views_of(raw@) == enabled_term_texts(sq.terms@.take(i as int)),
                decreases sq.terms.len() - i,
            {
                assert(sq.terms@.take((i + 1) as int).drop_last() =~= sq.terms@.take(i as int));
                let t = &sq.terms[i];
                if t.enabled {
                    let v = crate::text::trim_str(t.value.as_str());
                    if !v.as_str().is_empty() {
                        raw.push(v);
                        assert(views_of(raw@) =~= enabled_term_texts(sq.terms@.take((i + 1) as int)));
                    }
                }
                i = i + 1;
            }
            assert(sq.terms@.take(sq.terms.len() as int) =~= sq.terms@);
            if raw.len() == 0 {
                return Err(query_empty_error());
            }
            let q = SearchQuery {
                id: query_id.to_string(),
                terms: sq.terms,
                global_operator: sq.global_operator,
                metadata: QueryMetadata {
                    created_at: 0,
                    last_modified: 0,
                    execution_count: 0,
                    label: None,
                },
            };
            Ok((raw, q))
        },
        None => build_structured_search_query(query, case_sensitive, query_id, regex_flags),
    }
}

/// Where the text of a file to search comes from.
pub enum FileAccess {
    /// The file filter rules it out.
    Skip,
    /// Content-addressed storage, by hash.
    Cas { hash: String },
    /// A file on disk (older workspaces).
    Disk { path: String },
}

pub open spec fn cas_prefix() -> Seq<char> {
    "cas://"@
}

/// How the file behind `file_identifier` is read: identifiers `cas://HASH`
/// name stored content and are filtered by their virtual path; any other
/// identifier is a path on disk, filtered by the virtual and the real path.
pub fn file_access(file_identifier: &str, virtual_path: &str, filters: &crate::filters::CompiledSearchFilters)
    -> (a: FileAccess)
    ensures
        seq_starts_with(file_identifier@, cas_prefix()) ==> ({
            let m = match filters.file_matcher {
                None => true,
                Some(fm) => fm.matches_spec(virtual_path@),
            };
            &&& !m ==> a is Skip
            &&& m ==> (a matches FileAccess::Cas { hash } && hash@ == file_identifier@.skip(6))
        }),
        !seq_starts_with(file_identifier@, cas_prefix()) ==> ({
            let m = match filters.file_matcher {
                None => true,
                Some(fm) => fm.matches_spec(virtual_path@) || fm.matches_spec(file_identifier@),
            };
            &&& !m ==> a is Skip
            &&& m ==> (a matches FileAccess::Disk { path } && path@ == file_identifier@)
        }),
{
    let cs = chars_of(file_identifier);
    let prefix = chars_of("cas://");
    proof {
        reveal_strlit("cas://");
    }
    if crate::text::starts_with_chars(&cs, &prefix) {
        if !filters.matches_file(virtual_path, None) {
            return FileAccess::Skip;
        }
        let hash = crate::text::slice_chars(&cs, 6, cs.len());
        assert(hash@ =~= file_identifier@.skip(6));
        FileAccess::Cas { hash: crate::text::string_of(hash.as_slice()) }
    } else {
        if !filters.matches_file(virtual_path, Some(file_identifier)) {
            return FileAccess::Skip;
        }
        FileAccess::Disk { path: file_identifier.to_string() }
    }
}

/// Stored content larger than this is searched through a memory map.
pub const MAPPED_READ_THRESHOLD: u64 = 1024 * 1024;

pub fn use_mapped_read(object_size: u64) -> (r: bool)
    ensures
        r == (object_size > MAPPED_READ_THRESHOLD),
{
    object_size > MAPPED_READ_THRESHOLD
}

/// The text of the result that stands for a file whose content could not
/// be read.
pub fn read_failure_content(reason: &str) -> (s: String)
    ensures
        s@ == "[搜索系统: 无法读取文件内容 - "@ + reason@ + "]"@,
{
    let mut s = String::new();
    push_str(&mut s, "[搜索系统: 无法读取文件内容 - ");
    push_str(&mut s, reason);
    push_str(&mut s, "]");
    s
}

/// How many times `k` occurs among the keywords.
pub open spec fn occurrences(kws: Seq<String>, k: Seq<char>) -> nat
    decreases kws.len(),
{
    if kws.len() == 0 {
        0
    } else {
        occurrences(kws.drop_last(), k) + if kws.last()@ == k { 1nat } else { 0nat }
    }
}

/// The count kept for keyword `k` (zero when it has none).
pub open spec fn count_of(v: Seq<(String, usize)>, k: Seq<char>) -> nat
    decreases v.len(),
{
    if v.len() == 0 {
        0
    } else if v.last().0@ == k {
        v.last().1 as nat
    } else {
        count_of(v.drop_last(), k)
    }
}

pub open spec fn keys_distinct(v: Seq<(String, usize)>) -> bool {
    forall|i: int, j: int| 0 <= i < j < v.len() ==> (#[trigger] v[i]).0@ != (#[trigger] v[j]).0@
}

pub open spec fn counts_total(v: Seq<(String, usize)>) -> nat
    decreases v.len(),
{
    if v.len() == 0 { 0 } else { counts_total(v.drop_last()) + v.last().1 as nat }
}

/// The results of a search run as they are accepted: at most `max_results`,
/// numbered from zero, with the number of times each keyword matched.
pub struct SearchTally {
    results_count: usize,
    max_results: usize,
    truncated: bool,
    keyword_counts: Vec<(String, usize)>,
    keyword_total: usize,
}

impl SearchTally {
    pub closed spec fn count(&self) -> nat {
        self.results_count as nat
    }

    pub closed spec fn max(&self) -> nat {
        self.max_results as nat
    }

    pub closed spec fn was_truncated(&self) -> bool {
        self.truncated
    }

    /// The number of matches recorded for keyword `k`.
    pub closed spec fn keyword_count(&self, k: Seq<char>) -> nat {
        count_of(self.keyword_counts@, k)
    }

    /// All keyword matches recorded.
    pub closed spec fn keyword_total(&self) -> nat {
        self.keyword_total as nat
    }

    pub closed spec fn wf(&self) -> bool {
        &&& keys_distinct(self.keyword_counts@)
        &&& counts_total(self.keyword_counts@) == self.keyword_total
    }

    pub fn new(max_results: usize) -> (t: Self)
        ensures
            t.wf(),
            t.count() == 0,
            t.max() == max_results,
            !t.was_truncated(),
            t.keyword_total() == 0,
            forall|k: Seq<char>| t.keyword_count(k) == 0,
    {
        SearchTally {
            results_count: 0,
            max_results,
            truncated: false,
            keyword_counts: Vec::new(),
            keyword_total: 0,
        }
    }

    pub fn results_count(&self) -> (n: usize)
        ensures
            n == self.count(),
    {
        self.results_count
    }

    pub fn is_truncated(&self) -> (b: bool)
        ensures
            b == self.was_truncated(),
    {
        self.truncated
    }

    pub fn total_keyword_matches(&self) -> (n: usize)
        ensures
            n == self.keyword_total(),
    {
        self.keyword_total
    }

    /// Whether the cap is reached: no further result is taken.
    pub fn is_full(&self) -> (b: bool)
        ensures
            b == (self.count() >= self.max()),
    {
        self.results_count >= self.max_results
    }

    /// Marks the run as cut short by the cap.
    pub fn mark_truncated(&mut self)
        ensures
            final(self).was_truncated(),
            final(self).count() == old(self).count(),
            final(self).max() == old(self).max(),
            final(self).keyword_total() == old(self).keyword_total(),
            forall|k: Seq<char>| final(self).keyword_count(k) == old(self).keyword_count(k),
            old(self).wf() ==> final(self).wf(),
    {
        self.truncated = true;
    }

    /// Offers one more result with the keywords it matched. Below the cap it
    /// is taken and given the next number; at the cap it is refused and the
    /// run is marked truncated.
    pub fn accept(&mut self, keywords: &Option<Vec<String>>) -> (id: Option<usize>)
        requires
            old(self).wf(),
            keywords matches Some(kws) ==> old(self).keyword_total() + kws@.len() <= usize::MAX,
        ensures
            final(self).wf(),
            final(self).max() == old(self).max(),
            old(self).count() >= old(self).max() ==> {
                &&& id is None
                &&& final(self).was_truncated()
                &&& final(self).count() == old(self).count()
                &&& final(self).keyword_total() == old(self).keyword_total()
                &&& forall|k: Seq<char>| final(self).keyword_count(k) == old(self).keyword_count(k)
            },
            old(self).count() < old(self).max() ==> {
                &&& id == Some(old(self).count() as usize)
                &&& final(self).count() == old(self).count() + 1
                &&& final(self).was_truncated() == old(self).was_truncated()
                &&& forall|k: Seq<char>| #[trigger] final(self).keyword_count(k) == old(self).keyword_count(k)
                    + match keywords {
                    Some(kws) => occurrences(kws@, k),
                    None => 0,
                }
                &&& final(self).keyword_total() == old(self).keyword_total() + match keywords {
                    Some(kws) => kws@.len(),
                    None => 0,
                }
            },
    {
        if self.results_count >= self.max_results {
            self.truncated = true;
            return None;
        }
        let id = self.results_count;
        if let Some(kws) = keywords {
            let mut i: usize = 0;
            while i < kws.len()
                invariant
                    i <= kws.len(),
                    keys_distinct(self.keyword_counts@),
                    counts_total(self.keyword_counts@) == self.keyword_total,
                    self.keyword_total == old(self).keyword_total + i,
                    old(self).keyword_total + kws@.len() <= usize::MAX,
                    forall|k: Seq<char>| #[trigger] count_of(self.keyword_counts@, k) == count_of(
                        old(self).keyword_counts@,
                        k,
                    ) + occurrences(kws@.take(i as int), k),
                    self.results_count == old(self).results_count,
                    self.max_results == old(self).max_results,
                    self.truncated == old(self).truncated,
                decreases kws.len() - i,
            {
                assert(kws@.take((i + 1) as int).drop_last() =~= kws@.take(i as int));
                self.bump_keyword(kws[i].as_str());
                i = i + 1;
            }
            assert(kws@.take(kws.len() as int) =~= kws@);
        }
        self.results_count = self.results_count + 1;
        Some(id)
    }

    /// The matches recorded for `term`, zero when it never matched.
    pub fn count_for_keyword(&self, term: &str) -> (n: usize)
        ensures
            n == self.keyword_count(term@),
    {
        let v = &self.keyword_counts;
        let mut i = v.len();
        assert(v@.take(i as int) =~= v@);
        while i > 0
            invariant
                i <= v@.len(),
                v@ == self.keyword_counts@,
                count_of(v@, term@) == count_of(v@.take(i as int), term@),
            decreases i,
        {
            let ghost t = v@.take(i as int);
            assert(t.last() == v@[i - 1]);
            if str_eq(v[i - 1].0.as_str(), term) {
                return v[i - 1].1;
            }
            assert(t.drop_last() =~= v@.take(i - 1));
            i = i - 1;
        }
        0
    }

    /// One more match of keyword `k`.
    fn bump_keyword(&mut self, k: &str)
        requires
            keys_distinct(old(self).keyword_counts@),
            counts_total(old(self).keyword_counts@) == old(self).keyword_total,
            old(self).keyword_total < usize::MAX,
        ensures
            keys_distinct(final(self).keyword_counts@),
            counts_total(final(self).keyword_counts@) == final(self).keyword_total,
            final(self).keyword_total == old(self).keyword_total + 1,
            forall|j: Seq<char>| #[trigger] count_of(final(self).keyword_counts@, j) == count_of(
                old(self).keyword_counts@,
                j,
            ) + if j == k@ { 1nat } else { 0nat },
            final(self).results_count == old(self).results_count,
            final(self).max_results == old(self).max_results,
            final(self).truncated == old(self).truncated,
    {
        let n = self.keyword_counts.len();
        let mut i: usize = 0;
        while i < n
            invariant
                n == self.keyword_counts@.len(),
                i <= n,
                self.keyword_counts@ == old(self).keyword_counts@,
                keys_distinct(old(self).keyword_counts@),
                counts_total(old(self).keyword_counts@) == old(self).keyword_total,
                old(self).keyword_total < usize::MAX,
                self.keyword_total == old(self).keyword_total,
                self.results_count == old(self).results_count,
                self.max_results == old(self).max_results,
                self.truncated == old(self).truncated,
                forall|j: int| 0 <= j < i ==> (#[trigger] self.keyword_counts@[j]).0@ != k@,
            decreases n - i,
        {
            if str_eq(self.keyword_counts[i].0.as_str(), k) {
                let ghost before = self.keyword_counts@;
                proof {
                    lemma_count_of_at(before, i as int);
                    lemma_entry_below_total(before, i as int);
                }
                let c = self.keyword_counts[i].1;
                let key = self.keyword_counts[i].0.as_str().to_string();
                self.keyword_counts.set(i, (key, c + 1));
                proof {
                    lemma_count_of_after_bump(before, i as int, key, (c + 1) as usize);
                }
                self.keyword_total = self.keyword_total + 1;
                return;
            }
            i = i + 1;
        }
        let ghost before = self.keyword_counts@;
        proof {
            lemma_count_of_absent(before, k@);
        }
        self.keyword_counts.push((k.to_string(), 1));
        proof {
            let after = self.keyword_counts@;
            assert(after.drop_last() =~= before);
            assert forall|a: int, b: int| 0 <= a < b < after.len() implies (#[trigger] after[a]).0@
                != (#[trigger] after[b]).0@ by {
                if b == after.len() - 1 {
                    assert(before[a].0@ != k@);
                } else {
                    assert(before[a].0@ != before[b].0@);
                }
            }
        }
        self.keyword_total = self.keyword_total + 1;
    }
}

proof fn lemma_count_of_absent(v: Seq<(String, usize)>, k: Seq<char>)
    requires
        forall|j: int| 0 <= j < v.len() ==> (#[trigger] v[j]).0@ != k,
    ensures
        count_of(v, k) == 0,
    decreases v.len(),
{
    if v.len() > 0 {
        lemma_count_of_absent(v.drop_last(), k);
    }
}

proof fn lemma_count_of_at(v: Seq<(String, usize)>, i: int)
    requires
        0 <= i < v.len(),
        keys_distinct(v),
    ensures
        count_of(v, v[i].0@) == v[i].1,
    decreases v.len(),
{
    if i < v.len() - 1 {
        assert(v[i].0@ != v.last().0@);
        lemma_count_of_at(v.drop_last(), i);
    }
}

proof fn lemma_entry_below_total(v: Seq<(String, usize)>, i: int)
    requires
        0 <= i < v.len(),
    ensures
        v[i].1 <= counts_total(v),
    decreases v.len(),
{
    if i < v.len() - 1 {
        lemma_entry_below_total(v.drop_last(), i);
    }
}

proof fn lemma_count_of_after_bump(v: Seq<(String, usize)>, i: int, key: String, n: usize)
    requires
        0 <= i < v.len(),
        keys_distinct(v),
        key@ == v[i].0@,
        n == v[i].1 + 1,
    ensures
        ({
            let w = v.update(i, (key, n));
            &&& keys_distinct(w)
            &&& counts_total(w) == counts_total(v) + 1
            &&& forall|j: Seq<char>| #[trigger] count_of(w, j) == count_of(v, j) + if j == key@ {
                1nat
            } else {
                0nat
            }
        }),
    decreases v.len(),
{
    let w = v.update(i, (key, n));
    assert forall|a: int, b: int| 0 <= a < b < w.len() implies (#[trigger] w[a]).0@ != (
    #[trigger] w[b]).0@ by {
        assert(v[a].0@ != v[b].0@);
    }
    if i < v.len() - 1 {
        let vd = v.drop_last();
        assert(w.drop_last() =~= vd.update(i, (key, n)));
        assert(keys_distinct(vd));
        lemma_count_of_after_bump(vd, i, key, n);
        assert(w.last() == v.last());
        assert forall|j: Seq<char>| #[trigger] count_of(w, j) == count_of(v, j) + if j == key@ {
            1nat
        } else {
            0nat
        } by {
            if j == v.last().0@ {
                assert(v.last().0@ != v[i].0@);
            } else {
                assert(count_of(w, j) == count_of(w.drop_last(), j));
                assert(count_of(v, j) == count_of(vd, j));
                assert(count_of(vd.update(i, (key, n)), j) == count_of(vd, j) + if j == key@ {
                    1nat
                } else {
                    0nat
                });
            }
        }
    } else {
        assert(w.drop_last() =~= v.drop_last());
        assert(w.last() == (key, n));
        assert forall|j: Seq<char>| #[trigger] count_of(w, j) == count_of(v, j) + if j == key@ {
            1nat
        } else {
            0nat
        } by {
            if j == key@ {
                lemma_count_of_at(v, i);
            } else {
                assert(v.last().0@ != j);
            }
        }
    }
}

/// Whether an asynchronous search goes on to its next file: not once it was
/// cancelled, nor once it has run longer than its time limit.
pub fn search_guard(cancelled: bool, elapsed_nanos: u128, timeout_nanos: u128) -> (r: Result<(), String>)
    ensures
        cancelled ==> (r matches Err(e) && e@ == "Search cancelled"@),
        !cancelled && elapsed_nanos > timeout_nanos ==> (r matches Err(e) && e@ == "Search timed out"@),
        !cancelled && elapsed_nanos <= timeout_nanos ==> r is Ok,
{
    if cancelled {
        return Err("Search cancelled".to_string());
    }
    if elapsed_nanos > timeout_nanos {
        return Err("Search timed out".to_string());
    }
    Ok(())
}

/// Results are written to disk in batches of this many.
pub const SEARCH_BATCH_SIZE: usize = 2000;

/// A batch that cannot be written is tried this many times.
pub const MAX_APPEND_RETRIES: usize = 3;

/// Files are searched this many at a time.
pub const FILES_PER_ROUND: usize = 10;

/// Whether a batch of results is due to be written.
pub fn batch_full(len: usize) -> (r: bool)
    ensures
        r == (len >= SEARCH_BATCH_SIZE),
{
    len >= SEARCH_BATCH_SIZE
}

/// The offset that the results of the `index`-th file of a round are
/// numbered from, after `processed` files: ten thousand apart.
pub fn file_offset(processed: usize, index: usize) -> (r: usize)
    requires
        processed + index * 10000 <= usize::MAX,
    ensures
        r == processed + index * 10000,
{
    processed + index * 10000
}

/// The error a search reports when a batch could not be written.
pub fn append_failure_message(reason: &str) -> (m: String)
    ensures
        m@ == "Disk write failed after "@ + decimal(MAX_APPEND_RETRIES as nat) + " retries: "@ + reason@,
{
    let mut m = String::new();
    push_str(&mut m, "Disk write failed after ");
    push_decimal(&mut m, MAX_APPEND_RETRIES as u64);
    push_str(&mut m, " retries: ");
    push_str(&mut m, reason);
    m
}

/// The error a search reports when its query cannot be planned.
pub fn query_failure_message(reason: &str) -> (m: String)
    ensures
        m@ == "Query execution error: "@ + reason@,
{
    let mut m = String::new();
    push_str(&mut m, "Query execution error: ");
    push_str(&mut m, reason);
    m
}

/// The search settings read from the configuration.
#[derive(Clone, Copy, Debug)]
pub struct SearchRuntimeConfig {
    pub default_max_results: usize,
    pub timeout_seconds: u64,
    pub regex_cache_size: usize,
    pub case_sensitive: bool,
}

impl Default for SearchRuntimeConfig {
    /// A hundred thousand results, ten seconds, a thousand cached regexes,
    /// case ignored.
    fn default() -> (c: Self)
        ensures
            c.default_max_results == 100_000,
            c.timeout_seconds == 10,
            c.regex_cache_size == 1000,
            !c.case_sensitive,
    {
        SearchRuntimeConfig {
            default_max_results: 100_000,
            timeout_seconds: 10,
            regex_cache_size: 1000,
            case_sensitive: false,
        }
    }
}

impl SearchRuntimeConfig {
    /// The settings from the configuration's search section, or the defaults
    /// when there is none; the regex cache holds at least one entry.
    pub fn from_settings(settings: Option<(usize, u64, usize, bool)>) -> (c: Self)
        ensures
            match settings {
                Some((m, t, r, cs)) => c.default_max_results == m && c.timeout_seconds == t
                    && c.regex_cache_size == (if r >= 1 { r } else { 1 }) && c.case_sensitive == cs,
                None => c.default_max_results == 100_000 && c.timeout_seconds == 10 && c.regex_cache_size
                    == 1000 && !c.case_sensitive,
            },
    {
        match settings {
            Some((m, t, r, cs)) => SearchRuntimeConfig {
                default_max_results: m,
                timeout_seconds: t,
                regex_cache_size: if r >= 1 {
                    r
                } else {
                    1
                },
                case_sensitive: cs,
            },
            None => SearchRuntimeConfig::default(),
        }
    }

    /// How many results a search takes: the request's cap, else the
    /// configured one, never above a hundred thousand.
    pub fn max_results_for(&self, requested: Option<usize>) -> (n: usize)
        ensures
            n == ({
                let r = match requested {
                    Some(x) => x,
                    None => self.default_max_results,
                };
                if r > 100_000 { 100_000 } else { r }
            }),
    {
        let r = match requested {
            Some(x) => x,
            None => self.default_max_results,
        };
        if r > 100_000 {
            100_000
        } else {
            r
        }
    }
}

} // verus!
