//! The integer rules of decompression-bomb screening: the running size
//! limit, the file-count alarm and the totals of an archive's entries.
//! (The ratio and risk-score rules work in floating point and are not here.)
use vstd::prelude::*;

verus! {

/// Kinds of security violation.
#[derive(PartialEq, Eq, Structural, Clone, Copy, Debug)]
pub enum ViolationType {
    ExcessiveCompressionRatio,
    CumulativeSizeExceeded,
    RiskScoreExceeded,
    SuspiciousPattern,
}

/// Severity of a security finding, least to most severe.
#[derive(PartialEq, Eq, Structural, Clone, Copy, Debug, PartialOrd, Ord)]
pub enum Severity {
    Low,
    Medium,
    High,
    Critical,
}

/// An entry of an archive, as screened before extraction.
#[derive(Clone, Debug)]
pub struct ArchiveEntry {
    pub path: String,
    pub compressed_size: u64,
    pub uncompressed_size: u64,
    pub is_directory: bool,
}

pub open spec fn sat_add(a: u64, b: u64) -> u64 {
    if a + b > u64::MAX { u64::MAX } else { (a + b) as u64 }
}

/// The extracted total after one more entry, stuck at `u64::MAX` rather
/// than wrapping.
pub fn cumulative_after(cumulative_size: u64, uncompressed_size: u64) -> (r: u64)
    ensures
        r == sat_add(cumulative_size, uncompressed_size),
{
    match cumulative_size.checked_add(uncompressed_size) {
        Some(s) => s,
        None => u64::MAX,
    }
}

/// The size rule: extraction stops when the running total, with this entry,
/// passes the limit. Gives the offending total when it does.
pub fn cumulative_limit_exceeded(cumulative_size: u64, uncompressed_size: u64, max_cumulative_size: u64)
    -> (r: Option<u64>)
    ensures
        sat_add(cumulative_size, uncompressed_size) > max_cumulative_size ==> r == Some(
            sat_add(cumulative_size, uncompressed_size),
        ),
        sat_add(cumulative_size, uncompressed_size) <= max_cumulative_size ==> r is None,
{
    let total = cumulative_after(cumulative_size, uncompressed_size);
    if total > max_cumulative_size {
        Some(total)
    } else {
        None
    }
}

/// The rule that stops an extraction, checked in order: the compression
/// ratio (high severity), then the risk score, then the running size (both
/// critical); none when no check failed.
pub open spec fn halting_rule_spec(ratio_exceeded: bool, risk_exceeded: bool, size_exceeded: bool)
    -> Option<(ViolationType, Severity)> {
    if ratio_exceeded {
        Some((ViolationType::ExcessiveCompressionRatio, Severity::High))
    } else if risk_exceeded {
        Some((ViolationType::RiskScoreExceeded, Severity::Critical))
    } else if size_exceeded {
        Some((ViolationType::CumulativeSizeExceeded, Severity::Critical))
    } else {
        None
    }
}

/// Which violation stops an extraction, given which checks failed; the
/// first failed check in the order of [`halting_rule_spec`] wins.
pub fn halting_rule(ratio_exceeded: bool, risk_exceeded: bool, size_exceeded: bool) -> (r: Option<
    (ViolationType, Severity),
>)
    ensures
        r == halting_rule_spec(ratio_exceeded, risk_exceeded, size_exceeded),
{
    if ratio_exceeded {
        Some((ViolationType::ExcessiveCompressionRatio, Severity::High))
    } else if risk_exceeded {
        Some((ViolationType::RiskScoreExceeded, Severity::Critical))
    } else if size_exceeded {
        Some((ViolationType::CumulativeSizeExceeded, Severity::Critical))
    } else {
        None
    }
}

/// Archives with more entries than this raise a warning.
pub const SUSPICIOUS_FILE_COUNT: usize = 10000;

/// Whether an archive has so many entries that it may be a bomb.
pub fn too_many_entries(file_count: usize) -> (r: bool)
    ensures
        r == (file_count > SUSPICIOUS_FILE_COUNT),
{
    file_count > SUSPICIOUS_FILE_COUNT
}

pub open spec fn total_compressed(es: Seq<ArchiveEntry>) -> nat
    decreases es.len(),
{
    if es.len() == 0 { 0 } else { total_compressed(es.drop_last()) + es.last().compressed_size as nat }
}

pub open spec fn total_uncompressed(es: Seq<ArchiveEntry>) -> nat
    decreases es.len(),
{
    if es.len() == 0 { 0 } else { total_uncompressed(es.drop_last()) + es.last().uncompressed_size as nat }
}

proof fn lemma_totals_monotone(es: Seq<ArchiveEntry>, i: int)
    requires
        0 <= i <= es.len(),
    ensures
        total_compressed(es.take(i)) <= total_compressed(es),
        total_uncompressed(es.take(i)) <= total_uncompressed(es),
    decreases es.len() - i,
{
    if i < es.len() {
        lemma_totals_monotone(es, i + 1);
        assert(es.take(i + 1).drop_last() =~= es.take(i));
    } else {
        assert(es.take(i) =~= es);
    }
}

/// The compressed and uncompressed totals of an archive's entries.
pub fn entry_totals(entries: &Vec<ArchiveEntry>) -> (r: (u64, u64))
    requires
        total_compressed(entries@) <= u64::MAX,
        total_uncompressed(entries@) <= u64::MAX,
    ensures
        r.0 == total_compressed(entries@),
        r.1 == total_uncompressed(entries@),
{
    let mut c: u64 = 0;
    let mut u: u64 = 0;
    let mut i: usize = 0;
    while i < entries.len()
        invariant
            i <= entries.len(),
            c == total_compressed(entries@.take(i as int)),
            u == total_uncompressed(entries@.take(i as int)),
            total_compressed(entries@) <= u64::MAX,
            total_uncompressed(entries@) <= u64::MAX,
        decreases entries.len() - i,
    {
        proof {
            lemma_totals_monotone(entries@, i + 1);
            assert(entries@.take(i + 1).drop_last() =~= entries@.take(i as int));
        }
        c = c + entries[i].compressed_size;
        u = u + entries[i].uncompressed_size;
        i = i + 1;
    }
    assert(entries@.take(entries.len() as int) =~= entries@);
    (c, u)
}

} // verus!
