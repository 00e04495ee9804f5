//! Synthetic inputs for the search benchmarks: log text made of ten
//! template lines, and numbered keywords.
use vstd::prelude::*;
use crate::text::{decimal, push_char, push_decimal, push_str};

verus! {

/// Runs the search benchmarks (the timing runs live with the application).
pub struct BenchmarkRunner;

/// The log lines the synthetic content cycles through.
pub open spec fn templates() -> Seq<Seq<char>> {
    seq![
        "2024-01-01 10:00:00 INFO Application started successfully"@,
        "2024-01-01 10:00:01 WARNING Low memory warning"@,
        "2024-01-01 10:00:02 ERROR Database connection failed"@,
        "2024-01-01 10:00:03 INFO User logged in: user123"@,
        "2024-01-01 10:00:04 DEBUG Processing request: GET /api/data"@,
        "2024-01-01 10:00:05 ERROR Timeout while processing request"@,
        "2024-01-01 10:00:06 INFO Data processed successfully"@,
        "2024-01-01 10:00:07 WARNING High CPU usage detected"@,
        "2024-01-01 10:00:08 ERROR File not found: /path/to/file"@,
        "2024-01-01 10:00:09 INFO Shutdown initiated"@,
    ]
}

fn template(k: usize) -> (t: &'static str)
    requires
        k < 10,
    ensures
        t@ == templates()[k as int],
{
    match k {
        0 => "2024-01-01 10:00:00 INFO Application started successfully",
        1 => "2024-01-01 10:00:01 WARNING Low memory warning",
        2 => "2024-01-01 10:00:02 ERROR Database connection failed",
        3 => "2024-01-01 10:00:03 INFO User logged in: user123",
        4 => "2024-01-01 10:00:04 DEBUG Processing request: GET /api/data",
        5 => "2024-01-01 10:00:05 ERROR Timeout while processing request",
        6 => "2024-01-01 10:00:06 INFO Data processed successfully",
        7 => "2024-01-01 10:00:07 WARNING High CPU usage detected",
        8 => "2024-01-01 10:00:08 ERROR File not found: /path/to/file",
        _ => "2024-01-01 10:00:09 INFO Shutdown initiated",
    }
}

/// `lines` lines of log text: line `i` is template `i mod 10`, each ended by
/// a line feed.
pub open spec fn test_content(lines: nat) -> Seq<char>
    decreases lines,
{
    if lines == 0 {
        Seq::empty()
    } else {
        let i = (lines - 1) as nat;
        test_content(i) + templates()[(i % 10) as int] + seq!['\n']
    }
}

pub fn generate_test_content(lines: usize) -> (s: String)
    ensures
        s@ == test_content(lines as nat),
{
    let mut content = String::new();
    let mut i: usize = 0;
    while i < lines
        invariant
            i <= lines,
            content@ == test_content(i as nat),
        decreases lines - i,
    {
        push_str(&mut content, template(i % 10));
        push_char(&mut content, '\n');
        i = i + 1;
        assert(content@ =~= test_content(i as nat));
    }
    content
}

/// The words the keywords are made from.
pub open spec fn base_keywords() -> Seq<Seq<char>> {
    seq![
        "error"@, "warning"@, "info"@, "debug"@, "critical"@, "fatal"@, "success"@, "failed"@,
        "timeout"@, "connection"@, "database"@, "memory"@, "cpu"@, "disk"@, "network"@,
        "request"@, "response"@, "status"@, "code"@, "message"@,
    ]
}

fn base_keyword(k: usize) -> (w: &'static str)
    requires
        k < 20,
    ensures
        w@ == base_keywords()[k as int],
{
    match k {
        0 => "error",
        1 => "warning",
        2 => "info",
        3 => "debug",
        4 => "critical",
        5 => "fatal",
        6 => "success",
        7 => "failed",
        8 => "timeout",
        9 => "connection",
        10 => "database",
        11 => "memory",
        12 => "cpu",
        13 => "disk",
        14 => "network",
        15 => "request",
        16 => "response",
        17 => "status",
        18 => "code",
        _ => "message",
    }
}

/// Keyword `i`: base word `i mod 20`, `_`, and `i`.
pub open spec fn keyword(i: nat) -> Seq<char> {
    base_keywords()[(i % 20) as int] + "_"@ + decimal(i)
}

pub fn generate_keywords(count: usize) -> (v: Vec<String>)
    ensures
        v@.len() == count,
        forall|i: int| 0 <= i < count ==> (#[trigger] v@[i])@ == keyword(i as nat),
{
    let mut keywords: Vec<String> = Vec::new();
    let mut i: usize = 0;
    while i < count
        invariant
            i <= count,
            keywords@.len() == i,
            forall|k: int| 0 <= k < i ==> (#[trigger] keywords@[k])@ == keyword(k as nat),
        decreases count - i,
    {
        let mut k = String::new();
        push_str(&mut k, base_keyword(i % 20));
        push_str(&mut k, "_");
        push_decimal(&mut k, i as u64);
        keywords.push(k);
        i = i + 1;
    }
    keywords
}

} // verus!
