//! Progress of an extraction: when to report, what to say, and the counters
//! that the final summary is made from.
use vstd::prelude::*;
use std::time::Instant;
use crate::errors::{category_of, AppError, ErrorCategory};
use crate::text::{decimal, push_decimal, push_str};

verus! {

#[verifier::external_type_specification]
#[verifier::external_body]
pub struct ExInstant(std::time::Instant);

/// `Instant::now`; nothing is known of the value.
#[verifier::external_body]
fn instant_now() -> Instant {
    Instant::now()
}

/// Nanoseconds elapsed since `t` (`Instant::elapsed` then `as_nanos`). The
/// value depends on the clock; all that is stated is that a `Duration` holds
/// at most `u64::MAX` whole seconds.
#[verifier::external_body]
fn nanos_since(t: &Instant) -> (n: u128)
    ensures
        n < (u64::MAX as u128 + 1) * 1_000_000_000,
{
    t.elapsed().as_nanos()
}

/// Whole seconds elapsed since `t`, as `Duration::as_secs` counts them.
fn secs_since(t: &Instant) -> u64 {
    let n = nanos_since(t);
    (n / 1_000_000_000) as u64
}

/// Whole milliseconds elapsed since `t`, stuck at `u64::MAX`.
fn millis_since(t: &Instant) -> u64 {
    let m = nanos_since(t) / 1_000_000;
    if m > u64::MAX as u128 {
        u64::MAX
    } else {
        m as u64
    }
}

/// Decides how often extraction progress is reported.
pub struct ProgressReporter {
    pub total_entries: usize,
    pub processed_entries: usize,
    pub last_reported_percentage: u8,
    pub report_interval: u8,
    pub start_time: Instant,
    pub last_report_time: Instant,
}

/// Whole percent done, truncated to a byte as the report shows it.
pub open spec fn percentage_spec(processed: usize, total: usize) -> u8 {
    if total == 0 { 0 } else { ((processed * 100) / (total as int)) as u8 }
}

/// The progress line of a reporter with work to do, from the speed as it is
/// shown (entries per second, one decimal) and the whole seconds left.
pub open spec fn progress_message_spec(
    processed: usize,
    total: usize,
    speed_text: Seq<char>,
    remaining_secs: u64,
) -> Seq<char> {
    "正在解压... "@ + decimal(percentage_spec(processed, total) as nat) + "% ("@ + decimal(
        processed as nat,
    ) + "/"@ + decimal(total as nat) + " 文件, 速度: "@ + speed_text + "文件/秒, 预计剩余: "@
        + decimal(remaining_secs as nat) + "秒)"@
}

impl ProgressReporter {
    /// A reporter for `total_entries` entries that reports every
    /// `report_interval` percent.
    pub fn new(total_entries: usize, report_interval: u8) -> (r: Self)
        ensures
            r.total_entries == total_entries,
            r.processed_entries == 0,
            r.last_reported_percentage == 0,
            r.report_interval == report_interval,
    {
        let now = instant_now();
        ProgressReporter {
            total_entries,
            processed_entries: 0,
            last_reported_percentage: 0,
            report_interval,
            start_time: now,
            last_report_time: now,
        }
    }

    /// One more entry is done.
    pub fn inc(&mut self)
        requires
            old(self).processed_entries < usize::MAX,
        ensures
            final(self).processed_entries == old(self).processed_entries + 1,
            final(self).total_entries == old(self).total_entries,
            final(self).last_reported_percentage == old(self).last_reported_percentage,
            final(self).report_interval == old(self).report_interval,
    {
        self.processed_entries = self.processed_entries + 1;
    }

    /// Whole percent done; zero when there is nothing to do.
    pub fn percentage(&self) -> (p: u8)
        requires
            self.processed_entries * 100 <= usize::MAX,
        ensures
            p == percentage_spec(self.processed_entries, self.total_entries),
    {
        if self.total_entries == 0 {
            return 0;
        }
        ((self.processed_entries * 100) / self.total_entries) as u8
    }

    /// Whether to report now, given the whole seconds since the last report:
    /// never with nothing to do; otherwise when the percentage has moved by the
    /// interval, when two seconds have passed, or at the last entry.
    pub fn should_report_after(&self, secs_since_report: u64) -> (r: bool)
        requires
            self.processed_entries * 100 <= usize::MAX,
            self.last_reported_percentage + self.report_interval <= u8::MAX,
        ensures
            r == (self.total_entries != 0 && (percentage_spec(
                self.processed_entries,
                self.total_entries,
            ) >= self.last_reported_percentage + self.report_interval || secs_since_report >= 2
                || self.processed_entries == self.total_entries)),
    {
        if self.total_entries == 0 {
            return false;
        }
        let current_pct = self.percentage();
        let pct_changed = current_pct >= self.last_reported_percentage + self.report_interval;
        let time_elapsed = secs_since_report >= 2;
        let is_last = self.processed_entries == self.total_entries;
        pct_changed || time_elapsed || is_last
    }

    /// Whether to report now; the clock decides the two-second rule.
    pub fn should_report(&self) -> (r: bool)
        requires
            self.processed_entries * 100 <= usize::MAX,
            self.last_reported_percentage + self.report_interval <= u8::MAX,
        ensures
            self.total_entries == 0 ==> !r,
            (self.total_entries != 0 && (percentage_spec(self.processed_entries, self.total_entries)
                >= self.last_reported_percentage + self.report_interval || self.processed_entries
                == self.total_entries)) ==> r,
    {
        let secs = secs_since(&self.last_report_time);
        self.should_report_after(secs)
    }

    /// The progress line: a waiting line when there is nothing to do, else
    /// the percentage, the counts, the speed as `speed_text` shows it and the
    /// whole seconds left. The speed and the time left are worked out in
    /// floating point by the caller.
    pub fn progress_message_from(&self, speed_text: &str, remaining_secs: u64) -> (m: String)
        requires
            self.processed_entries * 100 <= usize::MAX,
        ensures
            self.total_entries == 0 ==> m@ == "正在处理..."@,
            self.total_entries != 0 ==> m@ == progress_message_spec(
                self.processed_entries,
                self.total_entries,
                speed_text@,
                remaining_secs,
            ),
    {
        if self.total_entries == 0 {
            return "正在处理...".to_string();
        }
        let pct = self.percentage();
        let mut s = String::new();
        push_str(&mut s, "正在解压... ");
        push_decimal(&mut s, pct as u64);
        push_str(&mut s, "% (");
        push_decimal(&mut s, self.processed_entries as u64);
        push_str(&mut s, "/");
        push_decimal(&mut s, self.total_entries as u64);
        push_str(&mut s, " 文件, 速度: ");
        push_str(&mut s, speed_text);
        push_str(&mut s, "文件/秒, 预计剩余: ");
        push_decimal(&mut s, remaining_secs);
        push_str(&mut s, "秒)");
        assert(s@ =~= progress_message_spec(
            self.processed_entries,
            self.total_entries,
            speed_text@,
            remaining_secs,
        ));
        s
    }

    /// Records that progress was just reported.
    pub fn mark_reported(&mut self)
        requires
            old(self).processed_entries * 100 <= usize::MAX,
        ensures
            final(self).last_reported_percentage == percentage_spec(
                old(self).processed_entries,
                old(self).total_entries,
            ),
            final(self).processed_entries == old(self).processed_entries,
            final(self).total_entries == old(self).total_entries,
            final(self).report_interval == old(self).report_interval,
    {
        self.last_reported_percentage = self.percentage();
        self.last_report_time = instant_now();
    }
}

/// Counters of an extraction run.
pub struct ProgressMetrics {
    pub files_processed: usize,
    pub bytes_processed: u64,
    pub current_depth: usize,
    pub max_depth_reached: usize,
    /// Errors seen per category, each category at most once.
    pub errors_by_category: Vec<(ErrorCategory, usize)>,
    pub path_shortenings_applied: usize,
    pub suspicious_files_detected: usize,
}

/// The count recorded for a category, zero when it has none.
pub open spec fn count_for(v: Seq<(ErrorCategory, usize)>, c: ErrorCategory) -> int
    decreases v.len(),
{
    if v.len() == 0 {
        0
    } else if v.last().0 == c {
        v.last().1 as int
    } else {
        count_for(v.drop_last(), c)
    }
}

pub open spec fn categories_distinct(v: Seq<(ErrorCategory, usize)>) -> bool {
    forall|i: int, j: int| 0 <= i < j < v.len() ==> (#[trigger] v[i]).0 != (#[trigger] v[j]).0
}

/// How many errors the per-category counts add up to.
pub open spec fn total_errors(v: Seq<(ErrorCategory, usize)>) -> nat
    decreases v.len(),
{
    if v.len() == 0 { 0 } else { total_errors(v.drop_last()) + v.last().1 as nat }
}

/// Every listed category has at least one error.
pub open spec fn counts_positive(v: Seq<(ErrorCategory, usize)>) -> bool {
    forall|i: int| 0 <= i < v.len() ==> (#[trigger] v[i]).1 > 0
}

impl ProgressMetrics {
    pub fn new() -> (m: Self)
        ensures
            m.files_processed == 0,
            m.bytes_processed == 0,
            m.current_depth == 0,
            m.max_depth_reached == 0,
            m.errors_by_category@.len() == 0,
            m.path_shortenings_applied == 0,
            m.suspicious_files_detected == 0,
    {
        ProgressMetrics {
            files_processed: 0,
            bytes_processed: 0,
            current_depth: 0,
            max_depth_reached: 0,
            errors_by_category: Vec::new(),
            path_shortenings_applied: 0,
            suspicious_files_detected: 0,
        }
    }

    /// One more file; returns the new count (wrapping as an atomic counter does).
    pub fn increment_files(&mut self) -> (n: usize)
        ensures
            n == final(self).files_processed,
            final(self).files_processed == old(self).files_processed.wrapping_add(1),
            *final(self) == (ProgressMetrics {
                files_processed: final(self).files_processed,
                ..*old(self)
            }),
    {
        self.files_processed = self.files_processed.wrapping_add(1);
        self.files_processed
    }

    /// More bytes; returns the new total (wrapping as an atomic counter does).
    pub fn add_bytes(&mut self, bytes: u64) -> (n: u64)
        ensures
            n == final(self).bytes_processed,
            final(self).bytes_processed == old(self).bytes_processed.wrapping_add(bytes),
            *final(self) == (ProgressMetrics {
                bytes_processed: final(self).bytes_processed,
                ..*old(self)
            }),
    {
        self.bytes_processed = self.bytes_processed.wrapping_add(bytes);
        self.bytes_processed
    }

    /// Enters a nesting depth; the deepest level seen is kept.
    pub fn set_current_depth(&mut self, depth: usize)
        ensures
            final(self).current_depth == depth,
            final(self).max_depth_reached == if depth > old(self).max_depth_reached {
                depth
            } else {
                old(self).max_depth_reached
            },
            *final(self) == (ProgressMetrics {
                current_depth: final(self).current_depth,
                max_depth_reached: final(self).max_depth_reached,
                ..*old(self)
            }),
    {
        self.current_depth = depth;
        if depth > self.max_depth_reached {
            self.max_depth_reached = depth;
        }
    }

    pub fn increment_path_shortenings(&mut self) -> (n: usize)
        ensures
            n == final(self).path_shortenings_applied,
            n == old(self).path_shortenings_applied.wrapping_add(1),
            *final(self) == (ProgressMetrics { path_shortenings_applied: n, ..*old(self) }),
    {
        self.path_shortenings_applied = self.path_shortenings_applied.wrapping_add(1);
        self.path_shortenings_applied
    }

    pub fn increment_suspicious_files(&mut self) -> (n: usize)
        ensures
            n == final(self).suspicious_files_detected,
            n == old(self).suspicious_files_detected.wrapping_add(1),
            *final(self) == (ProgressMetrics { suspicious_files_detected: n, ..*old(self) }),
    {
        self.suspicious_files_detected = self.suspicious_files_detected.wrapping_add(1);
        self.suspicious_files_detected
    }

    /// Counts one more error of a category.
    pub fn record_error_category(&mut self, category: ErrorCategory)
        requires
            categories_distinct(old(self).errors_by_category@),
            count_for(old(self).errors_by_category@, category) < usize::MAX,
        ensures
            categories_distinct(final(self).errors_by_category@),
            count_for(final(self).errors_by_category@, category) == count_for(
                old(self).errors_by_category@,
                category,
            ) + 1,
            forall|c: ErrorCategory| c != category ==> count_for(final(self).errors_by_category@, c)
                == count_for(old(self).errors_by_category@, c),
            total_errors(final(self).errors_by_category@) == total_errors(old(self).errors_by_category@)
                + 1,
            counts_positive(old(self).errors_by_category@) ==> counts_positive(
                final(self).errors_by_category@,
            ),
            final(self).files_processed == old(self).files_processed,
            final(self).bytes_processed == old(self).bytes_processed,
            final(self).current_depth == old(self).current_depth,
            final(self).max_depth_reached == old(self).max_depth_reached,
            final(self).path_shortenings_applied == old(self).path_shortenings_applied,
            final(self).suspicious_files_detected == old(self).suspicious_files_detected,
    {
        let n = self.errors_by_category.len();
        let mut i: usize = 0;
        while i < n
            invariant
                n == self.errors_by_category@.len(),
                i <= n,
                self.errors_by_category@ == old(self).errors_by_category@,
                self.files_processed == old(self).files_processed,
                self.bytes_processed == old(self).bytes_processed,
                self.current_depth == old(self).current_depth,
                self.max_depth_reached == old(self).max_depth_reached,
                self.path_shortenings_applied == old(self).path_shortenings_applied,
                self.suspicious_files_detected == old(self).suspicious_files_detected,
                categories_distinct(old(self).errors_by_category@),
                count_for(old(self).errors_by_category@, category) < usize::MAX,
                forall|k: int| 0 <= k < i ==> (#[trigger] self.errors_by_category@[k]).0 != category,
            decreases n - i,
        {
            if self.errors_by_category[i].0 == category {
                proof {
                    lemma_count_at(self.errors_by_category@, i as int);
                }
                let c = self.errors_by_category[i].1;
                let ghost before = self.errors_by_category@;
                self.errors_by_category.set(i, (category, c + 1));
                proof {
                    lemma_count_after_set(before, i as int, category, (c + 1) as usize);
                    lemma_total_after_set(before, i as int, (category, (c + 1) as usize));
                }
                return;
            }
            i = i + 1;
        }
        let ghost before = self.errors_by_category@;
        proof {
            lemma_count_absent(before, category);
        }
        self.errors_by_category.push((category, 1));
        proof {
            assert(self.errors_by_category@.drop_last() =~= before);
            assert forall|k: int| 0 <= k < self.errors_by_category@.len() && counts_positive(before) implies (
            #[trigger] self.errors_by_category@[k]).1 > 0 by {
                if k < before.len() {
                    assert(self.errors_by_category@[k] == before[k]);
                }
            }
            assert forall|c: ErrorCategory| c != category implies count_for(
                self.errors_by_category@,
                c,
            ) == count_for(before, c) by {}
        }
    }

    pub fn get_files_processed(&self) -> (n: usize)
        ensures
            n == self.files_processed,
    {
        self.files_processed
    }

    pub fn get_bytes_processed(&self) -> (n: u64)
        ensures
            n == self.bytes_processed,
    {
        self.bytes_processed
    }

    pub fn get_current_depth(&self) -> (n: usize)
        ensures
            n == self.current_depth,
    {
        self.current_depth
    }

    pub fn get_max_depth_reached(&self) -> (n: usize)
        ensures
            n == self.max_depth_reached,
    {
        self.max_depth_reached
    }

    pub fn get_path_shortenings(&self) -> (n: usize)
        ensures
            n == self.path_shortenings_applied,
    {
        self.path_shortenings_applied
    }

    pub fn get_suspicious_files(&self) -> (n: usize)
        ensures
            n == self.suspicious_files_detected,
    {
        self.suspicious_files_detected
    }

    /// Counts an error under its category.
    pub fn record_error(&mut self, error: &AppError)
        requires
            categories_distinct(old(self).errors_by_category@),
            count_for(old(self).errors_by_category@, category_of(*error)) < usize::MAX,
        ensures
            categories_distinct(final(self).errors_by_category@),
            count_for(final(self).errors_by_category@, category_of(*error)) == count_for(
                old(self).errors_by_category@,
                category_of(*error),
            ) + 1,
            forall|c: ErrorCategory| c != category_of(*error) ==> count_for(
                final(self).errors_by_category@,
                c,
            ) == count_for(old(self).errors_by_category@, c),
            total_errors(final(self).errors_by_category@) == total_errors(old(self).errors_by_category@)
                + 1,
            counts_positive(old(self).errors_by_category@) ==> counts_positive(
                final(self).errors_by_category@,
            ),
            final(self).files_processed == old(self).files_processed,
            final(self).bytes_processed == old(self).bytes_processed,
            final(self).current_depth == old(self).current_depth,
            final(self).max_depth_reached == old(self).max_depth_reached,
            final(self).path_shortenings_applied == old(self).path_shortenings_applied,
            final(self).suspicious_files_detected == old(self).suspicious_files_detected,
    {
        let category = ErrorCategory::from_error(error);
        self.record_error_category(category);
    }

    /// The progress event for `current_file`: the counters so far, where the
    /// file sits, and the estimate of the seconds left as the caller made it.
    pub fn progress_event(
        &self,
        workspace_id: &str,
        current_file: &str,
        current_depth: usize,
        parent_archive: Option<&str>,
        estimated_remaining_secs: Option<u64>,
    ) -> (e: ProgressEvent)
        ensures
            e.workspace_id@ == workspace_id@,
            e.current_file@ == current_file@,
            e.files_processed == self.files_processed,
            e.bytes_processed == self.bytes_processed,
            e.current_depth == current_depth,
            e.hierarchical_path@.map_values(|s: String| s@) == hierarchical_path_spec(
                match parent_archive {
                    Some(a) => Some(a@),
                    None => None,
                },
                current_depth as nat,
            ),
            e.estimated_remaining_secs == estimated_remaining_secs,
    {
        ProgressEvent {
            workspace_id: workspace_id.to_string(),
            current_file: current_file.to_string(),
            files_processed: self.files_processed,
            bytes_processed: self.bytes_processed,
            current_depth,
            estimated_remaining_secs,
            hierarchical_path: build_hierarchical_path(parent_archive, current_depth),
        }
    }

    /// The count recorded for a category.
    pub fn errors_in(&self, category: ErrorCategory) -> (n: usize)
        ensures
            n == count_for(self.errors_by_category@, category),
    {
        let mut i = self.errors_by_category.len();
        assert(self.errors_by_category@.take(i as int) =~= self.errors_by_category@);
        while i > 0
            invariant
                i <= self.errors_by_category@.len(),
                count_for(self.errors_by_category@, category) == count_for(
                    self.errors_by_category@.take(i as int),
                    category,
                ),
            decreases i,
        {
            let ghost t = self.errors_by_category@.take(i as int);
            if self.errors_by_category[i - 1].0 == category {
                return self.errors_by_category[i - 1].1;
            }
            assert(t.drop_last() =~= self.errors_by_category@.take(i - 1));
            i = i - 1;
        }
        0
    }
}

proof fn lemma_total_after_set(v: Seq<(ErrorCategory, usize)>, i: int, x: (ErrorCategory, usize))
    requires
        0 <= i < v.len(),
    ensures
        total_errors(v.update(i, x)) + v[i].1 == total_errors(v) + x.1,
    decreases v.len(),
{
    let w = v.update(i, x);
    if i < v.len() - 1 {
        assert(w.drop_last() =~= v.drop_last().update(i, x));
        lemma_total_after_set(v.drop_last(), i, x);
    } else {
        assert(w.drop_last() =~= v.drop_last());
    }
}

proof fn lemma_count_absent(v: Seq<(ErrorCategory, usize)>, c: ErrorCategory)
    requires
        forall|k: int| 0 <= k < v.len() ==> (#[trigger] v[k]).0 != c,
    ensures
        count_for(v, c) == 0,
    decreases v.len(),
{
    if v.len() > 0 {
        lemma_count_absent(v.drop_last(), c);
    }
}

proof fn lemma_count_at(v: Seq<(ErrorCategory, usize)>, i: int)
    requires
        0 <= i < v.len(),
        categories_distinct(v),
    ensures
        count_for(v, v[i].0) == v[i].1,
    decreases v.len(),
{
    if i < v.len() - 1 {
        assert(v[i].0 != v.last().0);
        lemma_count_at(v.drop_last(), i);
    }
}

proof fn lemma_count_after_set(v: Seq<(ErrorCategory, usize)>, i: int, c: ErrorCategory, n: usize)
    requires
        0 <= i < v.len(),
        categories_distinct(v),
        v[i].0 == c,
    ensures
        categories_distinct(v.update(i, (c, n))),
        count_for(v.update(i, (c, n)), c) == n,
        forall|d: ErrorCategory| d != c ==> count_for(v.update(i, (c, n)), d) == count_for(v, d),
    decreases v.len(),
{
    let w = v.update(i, (c, n));
    assert forall|a: int, b: int| 0 <= a < b < w.len() implies (#[trigger] w[a]).0 != (
    #[trigger] w[b]).0 by {
        assert(v[a].0 != v[b].0);
    }
    lemma_count_at(w, i);
    assert forall|d: ErrorCategory| d != c implies count_for(w, d) == count_for(v, d) by {
        lemma_count_other(v, i, c, n, d);
    }
}

proof fn lemma_count_other(v: Seq<(ErrorCategory, usize)>, i: int, c: ErrorCategory, n: usize, d: ErrorCategory)
    requires
        0 <= i < v.len(),
        v[i].0 == c,
        d != c,
    ensures
        count_for(v.update(i, (c, n)), d) == count_for(v, d),
    decreases v.len(),
{
    let w = v.update(i, (c, n));
    if i < v.len() - 1 {
        assert(w.drop_last() =~= v.drop_last().update(i, (c, n)));
        lemma_count_other(v.drop_last(), i, c, n, d);
    } else {
        assert(w.drop_last() =~= v.drop_last());
    }
}

/// A copy of the per-category counts.
fn copy_counts(v: &Vec<(ErrorCategory, usize)>) -> (w: Vec<(ErrorCategory, usize)>)
    ensures
        w@ == v@,
{
    let mut w: Vec<(ErrorCategory, usize)> = Vec::new();
    let mut i: usize = 0;
    while i < v.len()
        invariant
            i <= v.len(),
            w@ == v@.take(i as int),
        decreases v.len() - i,
    {
        let (c, n) = v[i];
        w.push((c, n));
        i = i + 1;
        assert(w@ =~= v@.take(i as int));
    }
    assert(v@.take(v.len() as int) =~= v@);
    w
}

/// The summary of a finished extraction.
pub struct ExtractionSummary {
    pub total_files: usize,
    pub total_bytes: u64,
    pub max_depth_reached: usize,
    pub errors_by_category: Vec<(ErrorCategory, usize)>,
    pub path_shortenings_applied: usize,
    pub suspicious_files_detected: usize,
    pub duration_ms: u64,
}

impl ExtractionSummary {
    /// The summary of a run from its counters and its duration.
    pub fn from_metrics(m: &ProgressMetrics, duration_ms: u64) -> (s: ExtractionSummary)
        ensures
            s.total_files == m.files_processed,
            s.total_bytes == m.bytes_processed,
            s.max_depth_reached == m.max_depth_reached,
            s.errors_by_category@ == m.errors_by_category@,
            s.path_shortenings_applied == m.path_shortenings_applied,
            s.suspicious_files_detected == m.suspicious_files_detected,
            s.duration_ms == duration_ms,
    {
        ExtractionSummary {
            total_files: m.files_processed,
            total_bytes: m.bytes_processed,
            max_depth_reached: m.max_depth_reached,
            errors_by_category: copy_counts(&m.errors_by_category),
            path_shortenings_applied: m.path_shortenings_applied,
            suspicious_files_detected: m.suspicious_files_detected,
            duration_ms,
        }
    }
}

/// A progress event of an extraction.
pub struct ProgressEvent {
    pub workspace_id: String,
    pub current_file: String,
    pub files_processed: usize,
    pub bytes_processed: u64,
    pub current_depth: usize,
    pub estimated_remaining_secs: Option<u64>,
    pub hierarchical_path: Vec<String>,
}

pub open spec fn hierarchical_path_spec(parent_archive: Option<Seq<char>>, depth: nat) -> Seq<Seq<char>> {
    let p = match parent_archive {
        Some(a) => seq![a],
        None => Seq::empty(),
    };
    if depth > 0 { p.push("depth_"@ + decimal(depth)) } else { p }
}

/// Where an event happened: the parent archive, then `depth_N` below the top level.
pub fn build_hierarchical_path(parent_archive: Option<&str>, current_depth: usize) -> (v: Vec<String>)
    ensures
        v@.map_values(|s: String| s@) == hierarchical_path_spec(
            match parent_archive {
                Some(a) => Some(a@),
                None => None,
            },
            current_depth as nat,
        ),
{
    let mut path: Vec<String> = Vec::new();
    if let Some(parent) = parent_archive {
        path.push(parent.to_string());
    }
    if current_depth > 0 {
        let mut s = String::new();
        push_str(&mut s, "depth_");
        push_decimal(&mut s, current_depth as u64);
        path.push(s);
    }
    assert(path@.map_values(|s: String| s@) =~= hierarchical_path_spec(
        match parent_archive {
            Some(a) => Some(a@),
            None => None,
        },
        current_depth as nat,
    ));
    path
}

/// The files an estimate of the time left is made for: none before the
/// first file is done and the first whole second has passed; otherwise the
/// files seen but not yet done (zero when none are left).
pub open spec fn files_left_spec(files_processed: usize, accumulated_files: usize, elapsed_secs: u64) -> Option<usize> {
    if files_processed == 0 || elapsed_secs < 1 {
        None
    } else if accumulated_files <= files_processed {
        Some(0usize)
    } else {
        Some((accumulated_files - files_processed) as usize)
    }
}

/// The files left to estimate the time for, as [`files_left_spec`] says.
/// The time itself is those files divided by the rate seen so far, worked
/// out in floating point by the caller.
pub fn files_left_to_estimate(files_processed: usize, accumulated_files: usize, elapsed_secs: u64) -> (r: Option<usize>)
    ensures
        r == files_left_spec(files_processed, accumulated_files, elapsed_secs),
{
    if files_processed == 0 || elapsed_secs < 1 {
        None
    } else if accumulated_files <= files_processed {
        Some(0)
    } else {
        Some(accumulated_files - files_processed)
    }
}

/// A progress event below the top level names where it is: the parent
/// archive first when there is one, and the depth last.
pub proof fn law_nested_events_show_their_place(parent_archive: Option<Seq<char>>, depth: nat)
    requires
        depth > 0,
    ensures
        hierarchical_path_spec(parent_archive, depth).len() >= 1,
        hierarchical_path_spec(parent_archive, depth).last() == "depth_"@ + decimal(depth),
        parent_archive matches Some(a) ==> hierarchical_path_spec(parent_archive, depth)[0] == a
            && hierarchical_path_spec(parent_archive, depth).len() == 2,
{
}

/// Follows an extraction: its counters and when it started.
pub struct ProgressTracker {
    pub metrics: ProgressMetrics,
    pub start_time: Instant,
}

impl ProgressTracker {
    pub fn new() -> (t: Self)
        ensures
            t.metrics.files_processed == 0,
            t.metrics.bytes_processed == 0,
            t.metrics.current_depth == 0,
            t.metrics.max_depth_reached == 0,
            t.metrics.errors_by_category@.len() == 0,
            t.metrics.path_shortenings_applied == 0,
            t.metrics.suspicious_files_detected == 0,
    {
        ProgressTracker { metrics: ProgressMetrics::new(), start_time: instant_now() }
    }

    /// The counters.
    pub fn metrics(&self) -> (m: &ProgressMetrics)
        ensures
            *m == self.metrics,
    {
        &self.metrics
    }

    /// Counts an error under its category.
    pub fn record_error(&mut self, error: &AppError)
        requires
            categories_distinct(old(self).metrics.errors_by_category@),
            count_for(old(self).metrics.errors_by_category@, category_of(*error)) < usize::MAX,
        ensures
            categories_distinct(final(self).metrics.errors_by_category@),
            count_for(final(self).metrics.errors_by_category@, category_of(*error)) == count_for(
                old(self).metrics.errors_by_category@,
                category_of(*error),
            ) + 1,
            forall|c: ErrorCategory| c != category_of(*error) ==> count_for(
                final(self).metrics.errors_by_category@,
                c,
            ) == count_for(old(self).metrics.errors_by_category@, c),
            total_errors(final(self).metrics.errors_by_category@) == total_errors(
                old(self).metrics.errors_by_category@,
            ) + 1,
            counts_positive(old(self).metrics.errors_by_category@) ==> counts_positive(
                final(self).metrics.errors_by_category@,
            ),
            final(self).metrics.files_processed == old(self).metrics.files_processed,
            final(self).metrics.bytes_processed == old(self).metrics.bytes_processed,
            final(self).metrics.current_depth == old(self).metrics.current_depth,
            final(self).metrics.max_depth_reached == old(self).metrics.max_depth_reached,
            final(self).metrics.path_shortenings_applied == old(
                self,
            ).metrics.path_shortenings_applied,
            final(self).metrics.suspicious_files_detected == old(
                self,
            ).metrics.suspicious_files_detected,
            final(self).start_time == old(self).start_time,
    {
        self.metrics.record_error(error);
    }

    /// The summary so far: the counters and the time since the start, in
    /// whole milliseconds.
    pub fn generate_summary(&self) -> (s: ExtractionSummary)
        ensures
            s.total_files == self.metrics.files_processed,
            s.total_bytes == self.metrics.bytes_processed,
            s.max_depth_reached == self.metrics.max_depth_reached,
            s.errors_by_category@ == self.metrics.errors_by_category@,
            s.path_shortenings_applied == self.metrics.path_shortenings_applied,
            s.suspicious_files_detected == self.metrics.suspicious_files_detected,
    {
        ExtractionSummary::from_metrics(&self.metrics, millis_since(&self.start_time))
    }

    /// The progress event for `current_file`, with the estimate of the
    /// seconds left that the caller made from the time since the start.
    pub fn emit_progress(
        &self,
        workspace_id: &str,
        current_file: &str,
        current_depth: usize,
        parent_archive: Option<&str>,
        estimated_remaining_secs: Option<u64>,
    ) -> (e: ProgressEvent)
        ensures
            e.workspace_id@ == workspace_id@,
            e.current_file@ == current_file@,
            e.files_processed == self.metrics.files_processed,
            e.bytes_processed == self.metrics.bytes_processed,
            e.current_depth == current_depth,
            e.hierarchical_path@.map_values(|s: String| s@) == hierarchical_path_spec(
                match parent_archive {
                    Some(a) => Some(a@),
                    None => None,
                },
                current_depth as nat,
            ),
            e.estimated_remaining_secs == estimated_remaining_secs,
    {
        self.metrics.progress_event(
            workspace_id,
            current_file,
            current_depth,
            parent_archive,
            estimated_remaining_secs,
        )
    }
}

/// How many times a category occurs in a list of recorded categories.
pub open spec fn occurrences(cats: Seq<ErrorCategory>, c: ErrorCategory) -> nat
    decreases cats.len(),
{
    if cats.len() == 0 {
        0
    } else {
        occurrences(cats.drop_last(), c) + if cats.last() == c {
            1nat
        } else {
            0nat
        }
    }
}

/// The counters say that `files` files were counted and that the errors of
/// the categories `cats` were recorded: each category listed once, with a
/// positive count equal to its occurrences, the counts adding up to the
/// number of errors.
pub open spec fn summary_matches(m: ProgressMetrics, cats: Seq<ErrorCategory>, files: nat) -> bool {
    &&& m.files_processed == files
    &&& categories_distinct(m.errors_by_category@)
    &&& counts_positive(m.errors_by_category@)
    &&& forall|c: ErrorCategory| #[trigger] count_for(m.errors_by_category@, c) == occurrences(cats, c)
    &&& total_errors(m.errors_by_category@) == cats.len()
}

/// Fresh counters have counted no file and recorded no error.
pub proof fn law_fresh_counters_summarize_nothing(m: ProgressMetrics)
    requires
        m.files_processed == 0,
        m.errors_by_category@.len() == 0,
    ensures
        summary_matches(m, Seq::empty(), 0),
{
    assert forall|c: ErrorCategory| #[trigger] count_for(m.errors_by_category@, c) == occurrences(
        Seq::<ErrorCategory>::empty(),
        c,
    ) by {}
}

/// Recording an error, as `record_error` and `record_error_category` do,
/// adds its category to what the counters summarize and leaves the file
/// count alone.
pub proof fn law_recorded_error_is_summarized(
    before: ProgressMetrics,
    after: ProgressMetrics,
    cats: Seq<ErrorCategory>,
    files: nat,
    category: ErrorCategory,
)
    requires
        summary_matches(before, cats, files),
        categories_distinct(after.errors_by_category@),
        count_for(after.errors_by_category@, category) == count_for(before.errors_by_category@, category)
            + 1,
        forall|c: ErrorCategory| c != category ==> count_for(after.errors_by_category@, c) == count_for(
            before.errors_by_category@,
            c,
        ),
        total_errors(after.errors_by_category@) == total_errors(before.errors_by_category@) + 1,
        counts_positive(before.errors_by_category@) ==> counts_positive(after.errors_by_category@),
        after.files_processed == before.files_processed,
    ensures
        summary_matches(after, cats.push(category), files),
{
    let cs = cats.push(category);
    assert(cs.drop_last() =~= cats);
    assert forall|c: ErrorCategory| #[trigger] count_for(after.errors_by_category@, c) == occurrences(
        cs,
        c,
    ) by {
        assert(count_for(before.errors_by_category@, c) == occurrences(cats, c));
    }
}

/// Counting a file, as `increment_files` does below the largest count,
/// adds one to the files summarized and leaves the errors alone.
pub proof fn law_counted_file_is_summarized(
    before: ProgressMetrics,
    after: ProgressMetrics,
    cats: Seq<ErrorCategory>,
    files: nat,
)
    requires
        summary_matches(before, cats, files),
        files < usize::MAX,
        after == (ProgressMetrics {
            files_processed: before.files_processed.wrapping_add(1),
            ..before
        }),
    ensures
        summary_matches(after, cats, files + 1),
{
    assert(before.files_processed.wrapping_add(1) == before.files_processed + 1);
}

/// A summary made from counters that have counted `files` files and
/// recorded the errors of the categories `cats` (as `generate_summary`
/// makes it) reports those files, lists each category once with a positive
/// count equal to its occurrences, and its counts add up to the errors.
pub proof fn law_summary_reports_what_was_recorded(
    m: ProgressMetrics,
    s: ExtractionSummary,
    cats: Seq<ErrorCategory>,
    files: nat,
)
    requires
        summary_matches(m, cats, files),
        s.total_files == m.files_processed,
        s.errors_by_category@ == m.errors_by_category@,
    ensures
        s.total_files == files,
        categories_distinct(s.errors_by_category@),
        forall|i: int| 0 <= i < s.errors_by_category@.len() ==> (#[trigger] s.errors_by_category@[i]).1 > 0,
        forall|c: ErrorCategory| #[trigger] count_for(s.errors_by_category@, c) == occurrences(cats, c),
        total_errors(s.errors_by_category@) == cats.len(),
{
}

} // verus!
