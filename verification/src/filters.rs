//! Search filters: log levels, a time window and a file-name pattern, and the
//! segment-pruned scan that applies them to the lines of a file.
//!
//! Timestamps are carried as signed nanosecond counts, which order exactly as
//! the calendar date-times they stand for.
use vstd::prelude::*;
use regex::Regex;
use crate::text::{
    ascii_lower, ascii_lowercase_chars, chars_of, contains_chars, has_char, push_str, seq_contains,
    string_of, trim_chars, trim_spec, lemma_trim_idempotent, eq_chars,
};
use crate::query::{build_db_pattern, db_pattern_spec, level_mask_spec, level_to_mask};

verus! {

/// A validation failure reported to the front end: a code, a message and an
/// optional hint.
#[derive(Debug)]
pub struct CommandError {
    pub code: String,
    pub message: String,
    pub help: Option<String>,
    /// Further detail for the user interface.
    pub details: Option<String>,
}

/// The filters a search request carries, before they are checked.
pub struct SearchFilters {
    pub time_start: Option<String>,
    pub time_end: Option<String>,
    pub levels: Vec<String>,
    pub file_pattern: Option<String>,
}

/// Timestamp and level extracted from one log line.
pub struct ParsedLineMetadata {
    pub timestamp: String,
    pub level: String,
    pub level_normalized: String,
    /// The line's date-time, when it was needed and could be read.
    pub datetime: Option<i128>,
    pub level_mask: u8,
}

impl ParsedLineMetadata {
    /// Builds the metadata of a line from its parsed timestamp and level.
    pub fn from_parsed(timestamp: String, level: &str, datetime: Option<i128>) -> (m: Self)
        ensures
            m.timestamp == timestamp,
            m.level@ == level@,
            m.level_normalized@ == level@,
            m.datetime == datetime,
            m.level_mask == level_mask_spec(level@),
            m.is_consistent(),
    {
        ParsedLineMetadata {
            timestamp,
            level: level.to_string(),
            level_normalized: level.to_string(),
            datetime,
            level_mask: level_to_mask(level),
        }
    }

    /// The level bit agrees with the normalized level.
    pub open spec fn is_consistent(&self) -> bool {
        self.level_mask == level_mask_spec(self.level_normalized@)
    }
}

/// What a run of lines holds: the union of their level bits and the earliest
/// and latest date-time among them.
pub struct SearchSegmentSummary {
    pub min_datetime: Option<i128>,
    pub max_datetime: Option<i128>,
    pub level_mask: u8,
}

pub open spec fn empty_summary() -> SearchSegmentSummary {
    SearchSegmentSummary { min_datetime: None, max_datetime: None, level_mask: 0 }
}

pub open spec fn opt_min(o: Option<i128>, v: i128) -> Option<i128> {
    match o {
        Some(c) => Some(if c <= v { c } else { v }),
        None => Some(v),
    }
}

pub open spec fn opt_max(o: Option<i128>, v: i128) -> Option<i128> {
    match o {
        Some(c) => Some(if c >= v { c } else { v }),
        None => Some(v),
    }
}

/// The summary after one more line.
pub open spec fn record_spec(s: SearchSegmentSummary, m: ParsedLineMetadata) -> SearchSegmentSummary {
    SearchSegmentSummary {
        level_mask: s.level_mask | m.level_mask,
        min_datetime: match m.datetime {
            Some(dt) => opt_min(s.min_datetime, dt),
            None => s.min_datetime,
        },
        max_datetime: match m.datetime {
            Some(dt) => opt_max(s.max_datetime, dt),
            None => s.max_datetime,
        },
    }
}

impl Default for SearchSegmentSummary {
    fn default() -> (s: Self)
        ensures
            s == empty_summary(),
    {
        SearchSegmentSummary { min_datetime: None, max_datetime: None, level_mask: 0 }
    }
}

impl SearchSegmentSummary {
    /// Adds one line to the summary.
    pub fn record(&mut self, metadata: &ParsedLineMetadata)
        ensures
            *final(self) == record_spec(*old(self), *metadata),
    {
        self.level_mask = self.level_mask | metadata.level_mask;
        if let Some(dt) = metadata.datetime {
            self.min_datetime = match self.min_datetime {
                Some(c) => Some(if c <= dt { c } else { dt }),
                None => Some(dt),
            };
            self.max_datetime = match self.max_datetime {
                Some(c) => Some(if c >= dt { c } else { dt }),
                None => Some(dt),
            };
        }
    }
}

/// Is `c` one of the characters that regex syntax escapes?
pub open spec fn is_regex_meta(c: char) -> bool {
    c == '\\' || c == '.' || c == '+' || c == '*' || c == '?' || c == '(' || c == ')' || c == '|'
        || c == '[' || c == ']' || c == '{' || c == '}' || c == '^' || c == '$' || c == '#'
        || c == '&' || c == '-' || c == '~'
}

/// One character of a wildcard file pattern in regex form: `*` any run,
/// `?` any one character, every other character literal.
pub open spec fn wildcard_token(c: char) -> Seq<char> {
    if c == '*' {
        seq!['.', '*']
    } else if c == '?' {
        seq!['.']
    } else if is_regex_meta(c) {
        seq!['\\', c]
    } else {
        seq![c]
    }
}

pub open spec fn wildcard_body(p: Seq<char>) -> Seq<char>
    decreases p.len(),
{
    if p.len() == 0 {
        Seq::empty()
    } else {
        wildcard_body(p.drop_last()) + wildcard_token(p.last())
    }
}

/// The anchored regex that a wildcard file pattern compiles to.
pub open spec fn wildcard_regex(p: Seq<char>) -> Seq<char> {
    seq!['^'] + wildcard_body(p) + seq!['$']
}

/// What the regex crate says of `source` as a pattern: nothing when it
/// accepts it, else the text of its error.
pub uninterp spec fn regex_error_of(source: Seq<char>) -> Option<Seq<char>>;

/// Whether the regex crate accepts `source` as a pattern.
pub open spec fn regex_accepts(source: Seq<char>) -> bool {
    regex_error_of(source) is None
}

/// Whether the regex compiled from `source` matches somewhere in `text`.
pub uninterp spec fn regex_finds(source: Seq<char>, text: Seq<char>) -> bool;

/// A compiled regex together with the pattern it was compiled from.
pub struct CompiledRegex {
    source: String,
    re: Regex,
}

impl CompiledRegex {
    pub closed spec fn source(&self) -> Seq<char> {
        self.source@
    }

    /// `regex::Regex::new`; on failure the error's text (`to_string`).
    #[verifier::external_body]
    pub(crate) fn compile(source: &str) -> (r: Result<CompiledRegex, String>)
        ensures
            match regex_error_of(source@) {
                None => r matches Ok(c) && c.source() == source@,
                Some(e) => r matches Err(m) && m@ == e,
            },
    {
        match Regex::new(source) {
            Ok(re) => Ok(CompiledRegex { source: source.to_string(), re }),
            Err(e) => Err(e.to_string()),
        }
    }

    /// `regex::Regex::is_match`.
    #[verifier::external_body]
    pub(crate) fn is_match(&self, text: &str) -> (r: bool)
        ensures
            r == regex_finds(self.source(), text@),
    {
        self.re.is_match(text)
    }
}

#[verifier::external_type_specification]
#[verifier::external_body]
pub struct ExRegex(regex::Regex);

/// How a file-name filter matches: as a substring, or as a wildcard pattern.
pub enum FilePatternMatcher {
    Substring(String),
    Wildcard(CompiledRegex),
}

fn wildcard_regex_of(p: &Vec<char>) -> (r: Vec<char>)
    ensures
        r@ == wildcard_regex(p@),
{
    let mut r: Vec<char> = Vec::new();
    r.push('^');
    let mut i: usize = 0;
    while i < p.len()
        invariant
            i <= p.len(),
            r@ == seq!['^'] + wildcard_body(p@.take(i as int)),
        decreases p.len() - i,
    {
        let c = p[i];
        let ghost before = r@;
        if c == '*' {
            r.push('.');
            r.push('*');
        } else if c == '?' {
            r.push('.');
        } else if c == '\\' || c == '.' || c == '+' || c == '(' || c == ')' || c == '|' || c
            == '[' || c == ']' || c == '{' || c == '}' || c == '^' || c == '$' || c == '#' || c
            == '&' || c == '-' || c == '~' {
            r.push('\\');
            r.push(c);
        } else {
            r.push(c);
        }
        assert(r@ =~= before + wildcard_token(c));
        i = i + 1;
        assert(p@.take(i as int).drop_last() =~= p@.take((i - 1) as int));
        assert(seq!['^'] + wildcard_body(p@.take(i as int)) =~= seq!['^'] + wildcard_body(
            p@.take((i - 1) as int),
        ) + wildcard_token(c));
    }
    r.push('$');
    assert(p@.take(p.len() as int) =~= p@);
    r
}

proof fn lemma_body_dollars_escaped(p: Seq<char>)
    ensures
        forall|i: int|
            0 <= i < wildcard_body(p).len() && #[trigger] wildcard_body(p)[i] == '$' ==> i >= 1
                && wildcard_body(p)[i - 1] == '\\',
    decreases p.len(),
{
    if p.len() > 0 {
        let q = p.drop_last();
        lemma_body_dollars_escaped(q);
        let b = wildcard_body(q);
        let t = wildcard_token(p.last());
        assert(wildcard_body(p) == b + t);
        assert forall|i: int|
            0 <= i < wildcard_body(p).len() && #[trigger] wildcard_body(p)[i] == '$' implies i >= 1
                && wildcard_body(p)[i - 1] == '\\' by {
            if i < b.len() {
                assert(wildcard_body(p)[i] == b[i]);
                assert(wildcard_body(p)[i - 1] == b[i - 1]);
            } else {
                assert(wildcard_body(p)[i] == t[i - b.len()]);
                assert(i - b.len() == 1);
                assert(wildcard_body(p)[i - 1] == t[0]);
            }
        }
    }
}

/// A wildcard pattern matches whole names only: its regex begins with `^`,
/// ends with `$`, and every other `$` in it is escaped, so the end of the
/// name is the one place the regex is anchored at.
pub proof fn law_wildcard_patterns_are_anchored(p: Seq<char>)
    ensures
        ({
            let r = wildcard_regex(p);
            &&& r.len() >= 2
            &&& r[0] == '^'
            &&& r.last() == '$'
            &&& forall|i: int| 1 <= i < r.len() - 1 && #[trigger] r[i] == '$' ==> r[i - 1] == '\\'
        }),
{
    lemma_body_dollars_escaped(p);
    let r = wildcard_regex(p);
    let b = wildcard_body(p);
    assert forall|i: int| 1 <= i < r.len() - 1 && #[trigger] r[i] == '$' implies r[i - 1] == '\\' by {
        assert(r[i] == b[i - 1]);
        assert(i - 1 >= 1);
        assert(r[i - 1] == b[i - 2]);
    }
}

/// The message that a refused file pattern is reported with.
pub open spec fn invalid_pattern_message(pattern: Seq<char>, reason: Seq<char>) -> Seq<char> {
    "Invalid file pattern '"@ + pattern + "': "@ + reason
}

impl FilePatternMatcher {
    /// The pattern that a matcher was compiled from, for a trimmed raw pattern `t`.
    pub open spec fn compiled_from(&self, t: Seq<char>) -> bool {
        if t.contains('*') || t.contains('?') {
            self matches FilePatternMatcher::Wildcard(c) && c.source() == wildcard_regex(t)
        } else {
            self matches FilePatternMatcher::Substring(s) && s@ == t
        }
    }

    /// Compiles a file-name filter: with `*` or `?` it is an anchored wildcard
    /// pattern, otherwise a substring.
    pub fn compile(raw: &str) -> (r: Result<FilePatternMatcher, CommandError>)
        ensures
            r matches Ok(m) ==> m.compiled_from(trim_spec(raw@)),
            r is Err ==> {
                let t = trim_spec(raw@);
                &&& (t.contains('*') || t.contains('?'))
                &&& !regex_accepts(wildcard_regex(t))
            },
            (trim_spec(raw@).contains('*') || trim_spec(raw@).contains('?')) ==> (r is Ok
                <==> regex_accepts(wildcard_regex(trim_spec(raw@)))),
            !(trim_spec(raw@).contains('*') || trim_spec(raw@).contains('?')) ==> r is Ok,
            r matches Err(e) ==> e.code@ == "VALIDATION_ERROR"@ && e.message@ == invalid_pattern_message(
                trim_spec(raw@),
                regex_error_of(wildcard_regex(trim_spec(raw@)))->Some_0,
            ) && (e.help matches Some(h) && h@ == "Use '*.log' or 'service-error.log'"@) && e.details is None,
    {
        let v = chars_of(raw);
        let t = trim_chars(&v);
        if has_char(&t, '*') || has_char(&t, '?') {
            let re = wildcard_regex_of(&t);
            let src = string_of(re.as_slice());
            match CompiledRegex::compile(src.as_str()) {
                Ok(c) => Ok(FilePatternMatcher::Wildcard(c)),
                Err(reason) => {
                    let mut msg = String::new();
                    push_str(&mut msg, "Invalid file pattern '");
                    push_str(&mut msg, string_of(t.as_slice()).as_str());
                    push_str(&mut msg, "': ");
                    push_str(&mut msg, reason.as_str());
                    Err(CommandError {
                        code: "VALIDATION_ERROR".to_string(),
                        message: msg,
                        help: Some("Use '*.log' or 'service-error.log'".to_string()),
                        details: None,
                    })
                },
            }
        } else {
            Ok(FilePatternMatcher::Substring(string_of(t.as_slice())))
        }
    }

    pub open spec fn matches_spec(&self, value: Seq<char>) -> bool {
        match self {
            FilePatternMatcher::Substring(p) => seq_contains(value, p@),
            FilePatternMatcher::Wildcard(c) => regex_finds(c.source(), value),
        }
    }

    pub fn matches(&self, value: &str) -> (r: bool)
        ensures
            r == self.matches_spec(value@),
    {
        match self {
            FilePatternMatcher::Substring(p) => {
                let hv = chars_of(value);
                let pv = chars_of(p.as_str());
                contains_chars(&hv, &pv)
            },
            FilePatternMatcher::Wildcard(c) => c.is_match(value),
        }
    }
}

/// The filters of a search, checked and ready to apply.
pub struct CompiledSearchFilters {
    /// The requested levels, trimmed and lower-cased; `None` when no level was given.
    pub levels: Option<Vec<String>>,
    pub level_mask: Option<u8>,
    pub time_start: Option<i128>,
    pub time_end: Option<i128>,
    pub file_matcher: Option<FilePatternMatcher>,
    pub database_file_pattern: Option<String>,
}

pub open spec fn views(v: Seq<String>) -> Seq<Seq<char>> {
    v.map_values(|s: String| s@)
}

/// The requested levels as they are compared: trimmed, ASCII lower-cased,
/// blank ones left out.
pub open spec fn normalized_levels(raw: Seq<Seq<char>>) -> Seq<Seq<char>>
    decreases raw.len(),
{
    if raw.len() == 0 {
        Seq::empty()
    } else {
        let l = ascii_lower(trim_spec(raw.last()));
        let rest = normalized_levels(raw.drop_last());
        if l.len() > 0 { rest.push(l) } else { rest }
    }
}

/// The union of the level bits of `levels`.
pub open spec fn mask_of_levels(levels: Seq<Seq<char>>) -> u8
    decreases levels.len(),
{
    if levels.len() == 0 {
        0
    } else {
        mask_of_levels(levels.drop_last()) | level_mask_spec(levels.last())
    }
}

/// The trimmed text of an optional filter value, when it is not blank.
pub open spec fn present_text(v: Option<String>) -> Option<Seq<char>> {
    match v {
        Some(s) => if trim_spec(s@).len() > 0 { Some(trim_spec(s@)) } else { None },
        None => None,
    }
}

pub open spec fn invalid_time_message(label: Seq<char>, text: Seq<char>) -> Seq<char> {
    "Invalid "@ + label + " '"@ + text + "'"@
}

/// The remedy offered with a time that could not be read.
pub open spec fn time_format_help() -> Seq<char> {
    "Use '2024-01-15T10:30' or '2024-01-15 10:30:45'"@
}

impl CompiledSearchFilters {
    /// The compiled filters agree with themselves: a level mask exactly when
    /// levels are given, and then the union of their bits.
    pub open spec fn wf(&self) -> bool {
        match self.levels {
            Some(l) => l@.len() > 0 && self.level_mask == Some(mask_of_levels(views(l@))),
            None => self.level_mask is None,
        }
    }

    pub open spec fn has_level(&self, level: Seq<char>) -> bool {
        match self.levels {
            Some(l) => exists|k: int| 0 <= k < l@.len() && (#[trigger] l@[k])@ == level,
            None => true,
        }
    }

    pub open spec fn has_time_filter_spec(&self) -> bool {
        self.time_start is Some || self.time_end is Some
    }

    /// Whether a line with this metadata passes the level and time filters.
    pub open spec fn line_passes(&self, m: ParsedLineMetadata) -> bool {
        &&& self.has_level(m.level_normalized@)
        &&& (self.has_time_filter_spec() ==> match m.datetime {
            None => false,
            Some(dt) => {
                &&& (self.time_start matches Some(s) ==> s <= dt)
                &&& (self.time_end matches Some(e) ==> dt <= e)
            },
        })
    }

    /// Whether a run of lines with this summary may hold a line that passes.
    pub open spec fn segment_may_match_spec(&self, s: SearchSegmentSummary) -> bool {
        let fm = match self.level_mask { Some(m) => m, None => 0u8 };
        if self.levels is Some && fm == 0 {
            false
        } else if self.levels is Some && s.level_mask & fm == 0 {
            false
        } else if !self.has_time_filter_spec() {
            true
        } else {
            match (s.min_datetime, s.max_datetime) {
                (Some(mn), Some(mx)) => {
                    &&& (self.time_start matches Some(st) ==> st <= mx)
                    &&& (self.time_end matches Some(ed) ==> mn <= ed)
                },
                _ => true,
            }
        }
    }

    /// Checks and compiles the filters of a search. `start_parsed` and
    /// `end_parsed` are the date-times read from the trimmed start and end
    /// texts (`None` where a text could not be read).
    pub fn compile(filters: &SearchFilters, start_parsed: Option<i128>, end_parsed: Option<i128>)
        -> (r: Result<CompiledSearchFilters, CommandError>)
        ensures
            match r {
                Ok(c) => {
                    &&& c.wf()
                    &&& (c.levels matches Some(l) ==> views(l@) == normalized_levels(
                        views(filters.levels@),
                    ))
                    &&& (c.levels is None ==> normalized_levels(views(filters.levels@)).len()
                        == 0)
                    &&& c.time_start == (if present_text(filters.time_start) is Some {
                        start_parsed
                    } else {
                        None
                    })
                    &&& c.time_end == (if present_text(filters.time_end) is Some {
                        end_parsed
                    } else {
                        None
                    })
                    &&& (c.time_start matches Some(s) ==> (c.time_end matches Some(e) ==> s <= e))
                    &&& match present_text(filters.file_pattern) {
                        Some(t) => {
                            &&& c.file_matcher matches Some(m) && m.compiled_from(t)
                            &&& c.database_file_pattern matches Some(p) && p@ == db_pattern_spec(t)
                        },
                        None => c.file_matcher is None && c.database_file_pattern is None,
                    }
                },
                Err(e) => {
                    &&& e.code@ == "VALIDATION_ERROR"@
                    &&& ((present_text(filters.time_start) is Some && start_parsed is None) ==> e.message@
                        == invalid_time_message("start time"@, present_text(filters.time_start)->0)
                        && (e.help matches Some(h) && h@ == time_format_help()))
                    &&& ((!(present_text(filters.time_start) is Some && start_parsed is None)
                        && present_text(filters.time_end) is Some && end_parsed is None) ==> e.message@
                        == invalid_time_message("end time"@, present_text(filters.time_end)->0)
                        && (e.help matches Some(h) && h@ == time_format_help()))
                    &&& ((present_text(filters.time_start) is Some && present_text(filters.time_end) is Some
                        && start_parsed is Some && end_parsed is Some && start_parsed->0 > end_parsed->0)
                        ==> (e.message@ == "Start time cannot be later than end time"@ && (e.help matches Some(h)
                        && h@ == "Adjust the time range"@)))
                    &&& (!(present_text(filters.time_start) is Some && start_parsed is None)
                        && !(present_text(filters.time_end) is Some && end_parsed is None)
                        && !(present_text(filters.time_start) is Some && present_text(filters.time_end) is Some
                        && start_parsed is Some && end_parsed is Some && start_parsed->0 > end_parsed->0)
                        ==> (present_text(filters.file_pattern) matches Some(t) && e.message@
                        == invalid_pattern_message(t, regex_error_of(wildcard_regex(t))->Some_0)))
                },
            },
            r is Err <==> {
                ||| (present_text(filters.time_start) is Some && start_parsed is None)
                ||| (present_text(filters.time_end) is Some && end_parsed is None)
                ||| (present_text(filters.time_start) is Some && present_text(filters.time_end) is Some
                    && start_parsed is Some && end_parsed is Some && start_parsed->0 > end_parsed->0)
                ||| (present_text(filters.file_pattern) matches Some(t) && (t.contains('*')
                    || t.contains('?')) && !regex_accepts(wildcard_regex(t)))
            },
    {
        let levels = Self::compile_levels(&filters.levels);
        let level_mask = match &levels {
            Some(l) => Some(Self::mask_of(l)),
            None => None,
        };
        let time_start = match Self::present(&filters.time_start) {
            Some(t) => {
                match start_parsed {
                    Some(v) => Some(v),
                    None => {
                        return Err(Self::invalid_time("start time", t.as_str()));
                    },
                }
            },
            None => None,
        };
        let time_end = match Self::present(&filters.time_end) {
            Some(t) => {
                match end_parsed {
                    Some(v) => Some(v),
                    None => {
                        return Err(Self::invalid_time("end time", t.as_str()));
                    },
                }
            },
            None => None,
        };
        if let (Some(s), Some(e)) = (time_start, time_end) {
            if s > e {
                return Err(CommandError {
                    code: "VALIDATION_ERROR".to_string(),
                    message: "Start time cannot be later than end time".to_string(),
                    help: Some("Adjust the time range".to_string()),
                    details: None,
                });
            }
        }
        let (file_matcher, database_file_pattern) = match Self::present(&filters.file_pattern) {
            Some(t) => {
                proof {
                    lemma_trim_idempotent(filters.file_pattern->0@);
                }
                let m = match FilePatternMatcher::compile(t.as_str()) {
                    Ok(m) => m,
                    Err(e) => {
                        return Err(e);
                    },
                };
                let p = build_db_pattern(t.as_str());
                (Some(m), Some(p))
            },
            None => (None, None),
        };
        Ok(CompiledSearchFilters {
            levels,
            level_mask,
            time_start,
            time_end,
            file_matcher,
            database_file_pattern,
        })
    }

    fn present(v: &Option<String>) -> (r: Option<String>)
        ensures
            r matches Some(s) ==> present_text(*v) == Some(s@),
            r is None ==> present_text(*v) is None,
    {
        match v {
            Some(s) => {
                let c = chars_of(s.as_str());
                let t = trim_chars(&c);
                if t.len() > 0 {
                    Some(string_of(t.as_slice()))
                } else {
                    None
                }
            },
            None => None,
        }
    }

    fn invalid_time(label: &str, text: &str) -> (e: CommandError)
        ensures
            e.code@ == "VALIDATION_ERROR"@,
            e.message@ == invalid_time_message(label@, text@),
            e.help matches Some(h) && h@ == time_format_help(),
    {
        let mut msg = String::new();
        push_str(&mut msg, "Invalid ");
        push_str(&mut msg, label);
        push_str(&mut msg, " '");
        push_str(&mut msg, text);
        push_str(&mut msg, "'");
        assert(msg@ =~= invalid_time_message(label@, text@));
        CommandError {
            code: "VALIDATION_ERROR".to_string(),
            message: msg,
            help: Some("Use '2024-01-15T10:30' or '2024-01-15 10:30:45'".to_string()),
            details: None,
        }
    }

    fn compile_levels(raw: &Vec<String>) -> (r: Option<Vec<String>>)
        ensures
            r matches Some(l) ==> views(l@) == normalized_levels(views(raw@)) && l@.len() > 0,
            r is None ==> normalized_levels(views(raw@)).len() == 0,
    {
        let mut out: Vec<String> = Vec::new();
        let mut i: usize = 0;
        while i < raw.len()
            invariant
                i <= raw.len(),
                views(out@) == normalized_levels(views(raw@).take(i as int)),
            decreases raw.len() - i,
        {
            let c = chars_of(raw[i].as_str());
            let t = trim_chars(&c);
            let l = ascii_lowercase_chars(&t);
            let ghost prev = out@;
            if l.len() > 0 {
                out.push(string_of(l.as_slice()));
                assert(views(out@) =~= views(prev).push(l@));
            }
            i = i + 1;
            assert(views(raw@).take(i as int).drop_last() =~= views(raw@).take((i - 1) as int));
        }
        assert(views(raw@).take(raw.len() as int) =~= views(raw@));
        if out.len() > 0 {
            Some(out)
        } else {
            None
        }
    }

    fn mask_of(levels: &Vec<String>) -> (m: u8)
        ensures
            m == mask_of_levels(views(levels@)),
    {
        let mut m: u8 = 0;
        let mut i: usize = 0;
        while i < levels.len()
            invariant
                i <= levels.len(),
                m == mask_of_levels(views(levels@).take(i as int)),
            decreases levels.len() - i,
        {
            m = m | level_to_mask(levels[i].as_str());
            i = i + 1;
            assert(views(levels@).take(i as int).drop_last() =~= views(levels@).take((i - 1) as int));
        }
        assert(views(levels@).take(levels.len() as int) =~= views(levels@));
        m
    }

    pub fn has_time_filter(&self) -> (r: bool)
        ensures
            r == self.has_time_filter_spec(),
    {
        self.time_start.is_some() || self.time_end.is_some()
    }

    /// Whether the scan groups lines into segments that it may skip whole.
    pub fn needs_segment_pruning(&self) -> (r: bool)
        ensures
            r == (self.levels is Some || self.has_time_filter_spec()),
    {
        self.levels.is_some() || self.has_time_filter()
    }

    /// The GLOB pattern for narrowing the candidate files in the database.
    pub fn database_file_pattern(&self) -> (r: Option<String>)
        ensures
            r == self.database_file_pattern,
    {
        match &self.database_file_pattern {
            Some(p) => Some(p.clone()),
            None => None,
        }
    }

    /// Whether a file passes the file-name filter, by its virtual or its real path.
    pub fn matches_file(&self, virtual_path: &str, real_path: Option<&str>) -> (r: bool)
        ensures
            r == match self.file_matcher {
                None => true,
                Some(m) => m.matches_spec(virtual_path@) || (real_path matches Some(p)
                    && m.matches_spec(p@)),
            },
    {
        match &self.file_matcher {
            None => true,
            Some(m) => {
                if m.matches(virtual_path) {
                    true
                } else {
                    match real_path {
                        Some(p) => m.matches(p),
                        None => false,
                    }
                }
            },
        }
    }

    fn contains_level(levels: &Vec<String>, level: &str) -> (r: bool)
        ensures
            r == exists|k: int| 0 <= k < levels@.len() && (#[trigger] levels@[k])@ == level@,
    {
        let lv = chars_of(level);
        let mut i: usize = 0;
        while i < levels.len()
            invariant
                i <= levels.len(),
                lv@ == level@,
                forall|k: int| 0 <= k < i ==> (#[trigger] levels@[k])@ != level@,
            decreases levels.len() - i,
        {
            let c = chars_of(levels[i].as_str());
            if eq_chars(&c, &lv) {
                return true;
            }
            i = i + 1;
        }
        false
    }

    /// Whether a line passes the level and time filters.
    pub fn matches_parsed_line_metadata(&self, metadata: &ParsedLineMetadata) -> (r: bool)
        ensures
            r == self.line_passes(*metadata),
    {
        if let Some(levels) = &self.levels {
            if !Self::contains_level(levels, metadata.level_normalized.as_str()) {
                return false;
            }
        }
        if !self.has_time_filter() {
            return true;
        }
        let entry_dt = match metadata.datetime {
            Some(dt) => dt,
            None => {
                return false;
            },
        };
        if let Some(start) = self.time_start {
            if entry_dt < start {
                return false;
            }
        }
        if let Some(end) = self.time_end {
            if entry_dt > end {
                return false;
            }
        }
        true
    }

    /// Whether a segment with this summary may hold a matching line; a segment
    /// without any readable date-time is never skipped for time.
    pub fn segment_may_match(&self, summary: &SearchSegmentSummary) -> (r: bool)
        ensures
            r == self.segment_may_match_spec(*summary),
    {
        if self.levels.is_some() {
            let fm = match self.level_mask {
                Some(m) => m,
                None => 0,
            };
            if fm == 0 {
                return false;
            }
            if summary.level_mask & fm == 0 {
                return false;
            }
        }
        if !self.has_time_filter() {
            return true;
        }
        let (min_datetime, max_datetime) = match (summary.min_datetime, summary.max_datetime) {
            (Some(mn), Some(mx)) => (mn, mx),
            _ => {
                return true;
            },
        };
        if let Some(start) = self.time_start {
            if max_datetime < start {
                return false;
            }
        }
        if let Some(end) = self.time_end {
            if min_datetime > end {
                return false;
            }
        }
        true
    }
}


} // verus!

verus! {

/// The number of lines that the pruned scan summarizes at a time.
pub const SEARCH_SEGMENT_LINE_COUNT: usize = 256;

/// A line waiting for the filters: its position in the file, its metadata and
/// whether the search terms matched it.
pub struct SearchLineCandidate {
    pub index: usize,
    pub metadata: ParsedLineMetadata,
    pub matched: bool,
}

/// A line is selected when it passes the level and time filters and the terms match it.
pub open spec fn line_selected(f: CompiledSearchFilters, c: SearchLineCandidate) -> bool {
    f.line_passes(c.metadata) && c.matched
}

/// Positions in `[a, b)` of the selected lines, in order.
pub open spec fn selected_in(f: CompiledSearchFilters, lines: Seq<SearchLineCandidate>, a: int, b: int)
    -> Seq<usize>
    decreases b - a,
{
    if b <= a {
        Seq::empty()
    } else {
        selected_in(f, lines, a, b - 1) + (if line_selected(f, lines[b - 1]) {
            seq![(b - 1) as usize]
        } else {
            Seq::empty()
        })
    }
}

/// Positions in `[a, b)` of the lines the terms match, filters not consulted.
pub open spec fn matched_in(lines: Seq<SearchLineCandidate>, a: int, b: int) -> Seq<usize>
    decreases b - a,
{
    if b <= a {
        Seq::empty()
    } else {
        matched_in(lines, a, b - 1) + (if lines[b - 1].matched {
            seq![(b - 1) as usize]
        } else {
            Seq::empty()
        })
    }
}

/// The summary of the lines in `[a, b)`.
pub open spec fn summary_of(lines: Seq<SearchLineCandidate>, a: int, b: int) -> SearchSegmentSummary
    decreases b - a,
{
    if b <= a {
        empty_summary()
    } else {
        record_spec(summary_of(lines, a, b - 1), lines[b - 1].metadata)
    }
}

pub open spec fn segment_end(a: int, n: int) -> int {
    if n - a > SEARCH_SEGMENT_LINE_COUNT { a + SEARCH_SEGMENT_LINE_COUNT } else { n }
}

/// The selected lines of one segment, or none when its summary rules it out.
pub open spec fn segment_result(f: CompiledSearchFilters, lines: Seq<SearchLineCandidate>, a: int, b: int)
    -> Seq<usize> {
    if f.segment_may_match_spec(summary_of(lines, a, b)) {
        selected_in(f, lines, a, b)
    } else {
        Seq::empty()
    }
}

/// The pruned scan from position `a`: segments of `SEARCH_SEGMENT_LINE_COUNT` lines.
pub open spec fn pruned_from(f: CompiledSearchFilters, lines: Seq<SearchLineCandidate>, a: int) -> Seq<usize>
    decreases lines.len() - a,
{
    if a >= lines.len() || a < 0 {
        Seq::empty()
    } else {
        let b = segment_end(a, lines.len() as int);
        segment_result(f, lines, a, b) + pruned_from(f, lines, b)
    }
}

/// What the line scan returns: the pruned scan when level or time filters are
/// set, otherwise every line that the terms match.
pub open spec fn search_lines_spec(f: CompiledSearchFilters, lines: Seq<SearchLineCandidate>) -> Seq<usize> {
    if f.levels is Some || f.has_time_filter_spec() {
        pruned_from(f, lines, 0)
    } else {
        matched_in(lines, 0, lines.len() as int)
    }
}

fn summarize(lines: &Vec<SearchLineCandidate>, a: usize, b: usize) -> (s: SearchSegmentSummary)
    requires
        a <= b <= lines.len(),
    ensures
        s == summary_of(lines@, a as int, b as int),
{
    let mut s = SearchSegmentSummary::default();
    let mut k = a;
    while k < b
        invariant
            a <= k <= b <= lines.len(),
            s == summary_of(lines@, a as int, k as int),
        decreases b - k,
    {
        s.record(&lines[k].metadata);
        k = k + 1;
    }
    s
}

fn collect_selected(
    filters: &CompiledSearchFilters,
    lines: &Vec<SearchLineCandidate>,
    a: usize,
    b: usize,
    results: &mut Vec<usize>,
)
    requires
        a <= b <= lines.len(),
    ensures
        final(results)@ == old(results)@ + selected_in(*filters, lines@, a as int, b as int),
{
    let mut k = a;
    while k < b
        invariant
            a <= k <= b <= lines.len(),
            results@ == old(results)@ + selected_in(*filters, lines@, a as int, k as int),
        decreases b - k,
    {
        let ghost prev = results@;
        if filters.matches_parsed_line_metadata(&lines[k].metadata) && lines[k].matched {
            results.push(k);
        }
        k = k + 1;
        assert(results@ =~= old(results)@ + selected_in(*filters, lines@, a as int, k as int));
    }
}

fn collect_matched(lines: &Vec<SearchLineCandidate>) -> (r: Vec<usize>)
    ensures
        r@ == matched_in(lines@, 0, lines.len() as int),
{
    let mut r: Vec<usize> = Vec::new();
    let mut k: usize = 0;
    while k < lines.len()
        invariant
            k <= lines.len(),
            r@ == matched_in(lines@, 0, k as int),
        decreases lines.len() - k,
    {
        if lines[k].matched {
            r.push(k);
        }
        k = k + 1;
        assert(r@ =~= matched_in(lines@, 0, k as int));
    }
    r
}

/// Scans the candidate lines of a file and returns the positions of those to
/// report. With level or time filters the lines are taken in segments of
/// `SEARCH_SEGMENT_LINE_COUNT`; a segment whose summary cannot hold a passing
/// line is skipped whole, and in the others each line is checked.
pub fn search_lines_with_details(lines: &Vec<SearchLineCandidate>, filters: &CompiledSearchFilters)
    -> (r: Vec<usize>)
    ensures
        r@ == search_lines_spec(*filters, lines@),
{
    if !filters.needs_segment_pruning() {
        return collect_matched(lines);
    }
    let n = lines.len();
    let mut results: Vec<usize> = Vec::new();
    let mut a: usize = 0;
    while a < n
        invariant
            n == lines.len(),
            a <= n,
            results@ + pruned_from(*filters, lines@, a as int) == pruned_from(*filters, lines@, 0),
        decreases n - a,
    {
        let b = if n - a > SEARCH_SEGMENT_LINE_COUNT { a + SEARCH_SEGMENT_LINE_COUNT } else { n };
        let ghost before = results@;
        let summary = summarize(lines, a, b);
        if filters.segment_may_match(&summary) {
            collect_selected(filters, lines, a, b, &mut results);
        }
        assert(results@ =~= before + segment_result(*filters, lines@, a as int, b as int));
        assert(pruned_from(*filters, lines@, a as int) == segment_result(*filters, lines@, a as int, b as int)
            + pruned_from(*filters, lines@, b as int));
        assert(before + pruned_from(*filters, lines@, a as int) =~= results@ + pruned_from(
            *filters,
            lines@,
            b as int,
        ));
        a = b;
    }
    assert(results@ + pruned_from(*filters, lines@, n as int) =~= results@);
    results
}

// ---------------------------------------------------------------------------
// Why skipping segments loses nothing.

proof fn lemma_bits_or_keep(a: u8, b: u8, c: u8)
    ensures
        (a & b == a) ==> (a & (b | c) == a),
        c & (b | c) == c,
{
    assert((a & b == a) ==> (a & (b | c) == a)) by (bit_vector);
    assert(c & (b | c) == c) by (bit_vector);
}

proof fn lemma_bits_meet(x: u8, f: u8, s: u8)
    requires
        x != 0,
        x & f == x,
        x & s == x,
    ensures
        f != 0,
        s & f != 0,
{
    assert((x != 0 && x & f == x && x & s == x) ==> (f != 0 && s & f != 0)) by (bit_vector);
}

proof fn lemma_mask_of_levels_has(levels: Seq<Seq<char>>, i: int)
    requires
        0 <= i < levels.len(),
    ensures
        level_mask_spec(levels[i]) & mask_of_levels(levels) == level_mask_spec(levels[i]),
    decreases levels.len(),
{
    let p = levels.drop_last();
    if i < levels.len() - 1 {
        lemma_mask_of_levels_has(p, i);
        assert(p[i] == levels[i]);
        lemma_bits_or_keep(level_mask_spec(levels[i]), mask_of_levels(p), level_mask_spec(levels.last()));
    } else {
        lemma_bits_or_keep(0, mask_of_levels(p), level_mask_spec(levels.last()));
    }
}

proof fn lemma_summary_bounds(lines: Seq<SearchLineCandidate>, a: int, b: int, k: int)
    requires
        a <= k < b <= lines.len(),
    ensures
        lines[k].metadata.level_mask & summary_of(lines, a, b).level_mask == lines[k].metadata.level_mask,
        lines[k].metadata.datetime matches Some(d) ==> {
            &&& summary_of(lines, a, b).min_datetime matches Some(mn) && mn <= d
            &&& summary_of(lines, a, b).max_datetime matches Some(mx) && d <= mx
        },
    decreases b - a,
{
    let prev = summary_of(lines, a, b - 1);
    let m = lines[b - 1].metadata;
    if k < b - 1 {
        lemma_summary_bounds(lines, a, b - 1, k);
        lemma_bits_or_keep(lines[k].metadata.level_mask, prev.level_mask, m.level_mask);
    } else {
        lemma_bits_or_keep(0, prev.level_mask, m.level_mask);
    }
}

/// A line that passes the filters keeps the summary of any segment holding it
/// from ruling that segment out.
proof fn lemma_passing_line_keeps_segment(
    f: CompiledSearchFilters,
    lines: Seq<SearchLineCandidate>,
    a: int,
    b: int,
    k: int,
)
    requires
        f.wf(),
        a <= k < b <= lines.len(),
        lines[k].metadata.is_consistent(),
        lines[k].metadata.level_mask != 0,
        f.line_passes(lines[k].metadata),
    ensures
        f.segment_may_match_spec(summary_of(lines, a, b)),
{
    let s = summary_of(lines, a, b);
    let m = lines[k].metadata;
    lemma_summary_bounds(lines, a, b, k);
    if let Some(l) = f.levels {
        let i = choose|i: int| 0 <= i < l@.len() && (#[trigger] l@[i])@ == m.level_normalized@;
        lemma_mask_of_levels_has(views(l@), i);
        assert(views(l@)[i] == m.level_normalized@);
        lemma_bits_meet(m.level_mask, mask_of_levels(views(l@)), s.level_mask);
    }
}

proof fn lemma_none_selected(f: CompiledSearchFilters, lines: Seq<SearchLineCandidate>, a: int, b: int)
    requires
        forall|k: int| a <= k < b ==> !line_selected(f, #[trigger] lines[k]),
    ensures
        selected_in(f, lines, a, b) == Seq::<usize>::empty(),
    decreases b - a,
{
    if b > a {
        lemma_none_selected(f, lines, a, b - 1);
        assert(!line_selected(f, lines[b - 1]));
        assert(selected_in(f, lines, a, b) =~= Seq::<usize>::empty());
    }
}

proof fn lemma_selected_split(f: CompiledSearchFilters, lines: Seq<SearchLineCandidate>, a: int, b: int, c: int)
    requires
        a <= b <= c,
    ensures
        selected_in(f, lines, a, c) == selected_in(f, lines, a, b) + selected_in(f, lines, b, c),
    decreases c - b,
{
    if c > b {
        lemma_selected_split(f, lines, a, b, c - 1);
        assert(selected_in(f, lines, a, c) =~= selected_in(f, lines, a, b) + selected_in(f, lines, b, c));
    } else {
        assert(selected_in(f, lines, b, c) =~= Seq::<usize>::empty());
        assert(selected_in(f, lines, a, b) + selected_in(f, lines, b, c) =~= selected_in(f, lines, a, b));
    }
}

proof fn lemma_segment_exact(f: CompiledSearchFilters, lines: Seq<SearchLineCandidate>, a: int, b: int)
    requires
        f.wf(),
        0 <= a <= b <= lines.len(),
        forall|k: int| 0 <= k < lines.len() ==> (#[trigger] lines[k]).metadata.is_consistent(),
        forall|k: int| 0 <= k < lines.len() ==> (#[trigger] lines[k]).metadata.level_mask != 0,
    ensures
        segment_result(f, lines, a, b) == selected_in(f, lines, a, b),
{
    if !f.segment_may_match_spec(summary_of(lines, a, b)) {
        assert forall|k: int| a <= k < b implies !line_selected(f, #[trigger] lines[k]) by {
            if f.line_passes(lines[k].metadata) {
                lemma_passing_line_keeps_segment(f, lines, a, b, k);
            }
        }
        lemma_none_selected(f, lines, a, b);
    }
}

proof fn lemma_pruned_exact(f: CompiledSearchFilters, lines: Seq<SearchLineCandidate>, a: int)
    requires
        f.wf(),
        0 <= a <= lines.len(),
        forall|k: int| 0 <= k < lines.len() ==> (#[trigger] lines[k]).metadata.is_consistent(),
        forall|k: int| 0 <= k < lines.len() ==> (#[trigger] lines[k]).metadata.level_mask != 0,
    ensures
        pruned_from(f, lines, a) == selected_in(f, lines, a, lines.len() as int),
    decreases lines.len() - a,
{
    if a < lines.len() {
        let b = segment_end(a, lines.len() as int);
        lemma_pruned_exact(f, lines, b);
        lemma_segment_exact(f, lines, a, b);
        lemma_selected_split(f, lines, a, b, lines.len() as int);
    } else {
        assert(selected_in(f, lines, a, lines.len() as int) =~= Seq::<usize>::empty());
    }
}

proof fn lemma_unfiltered_is_matched(f: CompiledSearchFilters, lines: Seq<SearchLineCandidate>, b: int)
    requires
        f.levels is None,
        !f.has_time_filter_spec(),
        0 <= b <= lines.len(),
    ensures
        matched_in(lines, 0, b) == selected_in(f, lines, 0, b),
    decreases b,
{
    if b > 0 {
        lemma_unfiltered_is_matched(f, lines, b - 1);
    }
}

/// Skipping segments loses nothing and adds nothing: when every line's level
/// bit agrees with its level and the level is one the filters know, the scan
/// reports exactly the lines that pass the level and time filters and that the
/// terms match, in order.
pub proof fn law_segment_pruning_is_exact(f: CompiledSearchFilters, lines: Seq<SearchLineCandidate>)
    requires
        f.wf(),
        forall|k: int| 0 <= k < lines.len() ==> (#[trigger] lines[k]).metadata.is_consistent(),
        forall|k: int| 0 <= k < lines.len() ==> (#[trigger] lines[k]).metadata.level_mask != 0,
    ensures
        search_lines_spec(f, lines) == selected_in(f, lines, 0, lines.len() as int),
{
    if f.levels is Some || f.has_time_filter_spec() {
        lemma_pruned_exact(f, lines, 0);
    } else {
        lemma_unfiltered_is_matched(f, lines, lines.len() as int);
    }
}

/// A segment is never skipped when one of its lines passes the filters.
pub proof fn law_summary_never_hides_a_passing_line(
    f: CompiledSearchFilters,
    lines: Seq<SearchLineCandidate>,
    a: int,
    b: int,
    k: int,
)
    requires
        f.wf(),
        a <= k < b <= lines.len(),
        lines[k].metadata.is_consistent(),
        lines[k].metadata.level_mask != 0,
        f.line_passes(lines[k].metadata),
    ensures
        f.segment_may_match_spec(summary_of(lines, a, b)),
{
    lemma_passing_line_keeps_segment(f, lines, a, b, k);
}

} // verus!
