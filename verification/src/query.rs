//! Search query parsing: splitting a user query on `|`, log-level masks and
//! SQLite GLOB patterns for file filters.
use vstd::prelude::*;
use crate::text::{
    ascii_lower, ascii_lower_char, ascii_lowercase_chars, char_is_whitespace, chars_of, has_char,
    lemma_trim_clean, is_clean_term, leading_ws, trailing_ws,
    string_of, trim_chars, trim_spec, eq_chars_slice,
};

verus! {

/// Parser state while scanning a query for top-level `|` separators.
pub struct SplitState {
    pub terms: Seq<Seq<char>>,
    pub current: Seq<char>,
    pub depth: nat,
    pub escaped: bool,
}

pub open spec fn is_open_bracket(c: char) -> bool {
    c == '(' || c == '[' || c == '{'
}

pub open spec fn is_close_bracket(c: char) -> bool {
    c == ')' || c == ']' || c == '}'
}

/// Closes the current term: it is kept, trimmed, unless it is blank.
pub open spec fn close_term(terms: Seq<Seq<char>>, current: Seq<char>) -> Seq<Seq<char>> {
    let t = trim_spec(current);
    if t.len() > 0 { terms.push(t) } else { terms }
}

/// One character of the splitting scan.
pub open spec fn split_step(st: SplitState, ch: char) -> SplitState {
    if st.escaped {
        SplitState {
            current: if ch == '|' { st.current.push('|') } else { st.current.push('\\').push(ch) },
            escaped: false,
            ..st
        }
    } else if ch == '\\' {
        SplitState { escaped: true, ..st }
    } else if is_open_bracket(ch) {
        SplitState { depth: st.depth + 1, current: st.current.push(ch), ..st }
    } else if is_close_bracket(ch) {
        SplitState {
            depth: if st.depth > 0 { (st.depth - 1) as nat } else { 0 },
            current: st.current.push(ch),
            ..st
        }
    } else if ch == '|' && st.depth == 0 {
        SplitState { terms: close_term(st.terms, st.current), current: Seq::empty(), ..st }
    } else {
        SplitState { current: st.current.push(ch), ..st }
    }
}

pub open spec fn split_init() -> SplitState {
    SplitState { terms: Seq::empty(), current: Seq::empty(), depth: 0, escaped: false }
}

/// The scan state after the characters of `s`.
pub open spec fn split_scan(s: Seq<char>) -> SplitState
    decreases s.len(),
{
    if s.len() == 0 {
        split_init()
    } else {
        split_step(split_scan(s.drop_last()), s.last())
    }
}

/// The terms of a query: top-level `|` separates terms, `\|` is a literal `|`,
/// a `|` inside `()`, `[]` or `{}` does not separate, other backslashes are kept,
/// and every term is trimmed and non-blank.
pub open spec fn split_query_spec(s: Seq<char>) -> Seq<Seq<char>> {
    let st = split_scan(s);
    let cur = if st.escaped { st.current.push('\\') } else { st.current };
    close_term(st.terms, cur)
}

pub open spec fn views_of(v: Seq<String>) -> Seq<Seq<char>> {
    v.map_values(|s: String| s@)
}

/// Splits a search query on top-level `|` into trimmed, non-blank terms.
pub fn split_query_by_pipe(query: &str) -> (terms: Vec<String>)
    ensures
        views_of(terms@) == split_query_spec(query@),
{
    let chars = chars_of(query);
    let mut terms: Vec<String> = Vec::new();
    let mut current: Vec<char> = Vec::new();
    let mut depth: u64 = 0;
    let mut escaped = false;
    let mut i: usize = 0;
    while i < chars.len()
        invariant
            i <= chars.len(),
            chars@ == query@,
            depth <= i,
            ({
                let st = split_scan(chars@.take(i as int));
                &&& views_of(terms@) == st.terms
                &&& current@ == st.current
                &&& depth as nat == st.depth
                &&& escaped == st.escaped
            }),
        decreases chars.len() - i,
    {
        let ch = chars[i];
        let ghost before = split_scan(chars@.take(i as int));
        assert(chars@.take(i + 1).drop_last() =~= chars@.take(i as int));
        if escaped {
            if ch == '|' {
                current.push('|');
            } else {
                current.push('\\');
                current.push(ch);
            }
            escaped = false;
        } else if ch == '\\' {
            escaped = true;
        } else if ch == '(' || ch == '[' || ch == '{' {
            depth = depth + 1;
            current.push(ch);
        } else if ch == ')' || ch == ']' || ch == '}' {
            if depth > 0 {
                depth = depth - 1;
            }
            current.push(ch);
        } else if ch == '|' && depth == 0 {
            let t = trim_chars(&current);
            if t.len() > 0 {
                let ghost old_terms = terms@;
                terms.push(string_of(t.as_slice()));
                assert(views_of(terms@) =~= views_of(old_terms).push(t@));
            }
            current = Vec::new();
        } else {
            current.push(ch);
        }
        i = i + 1;
    }
    assert(chars@.take(chars.len() as int) =~= chars@);
    if escaped {
        current.push('\\');
    }
    let t = trim_chars(&current);
    if t.len() > 0 {
        let ghost old_terms = terms@;
        terms.push(string_of(t.as_slice()));
        assert(views_of(terms@) =~= views_of(old_terms).push(t@));
    }
    terms
}

proof fn lemma_close_term_clean(terms: Seq<Seq<char>>, current: Seq<char>)
    requires
        forall|k: int| 0 <= k < terms.len() ==> is_clean_term(#[trigger] terms[k]),
    ensures
        forall|k: int|
            0 <= k < close_term(terms, current).len() ==> is_clean_term(
                #[trigger] close_term(terms, current)[k],
            ),
{
    lemma_trim_clean(current);
}

proof fn lemma_scan_clean(s: Seq<char>)
    ensures
        forall|k: int|
            0 <= k < split_scan(s).terms.len() ==> is_clean_term(#[trigger] split_scan(s).terms[k]),
    decreases s.len(),
{
    if s.len() > 0 {
        lemma_scan_clean(s.drop_last());
        lemma_close_term_clean(split_scan(s.drop_last()).terms, split_scan(s.drop_last()).current);
    }
}

/// Every term that the query splitter returns is non-empty and has no
/// whitespace at its start or end.
pub proof fn law_split_terms_are_clean(query: Seq<char>)
    ensures
        forall|k: int|
            0 <= k < split_query_spec(query).len() ==> is_clean_term(
                #[trigger] split_query_spec(query)[k],
            ),
{
    lemma_scan_clean(query);
    let st = split_scan(query);
    let cur = if st.escaped { st.current.push('\\') } else { st.current };
    lemma_close_term_clean(st.terms, cur);
}

proof fn lemma_scan_plain(s: Seq<char>)
    requires
        forall|k: int| 0 <= k < s.len() ==> !is_special(#[trigger] s[k]),
    ensures
        split_scan(s) == (SplitState { terms: Seq::empty(), current: s, depth: 0, escaped: false }),
    decreases s.len(),
{
    if s.len() > 0 {
        let p = s.drop_last();
        assert forall|k: int| 0 <= k < p.len() implies !is_special(#[trigger] p[k]) by {
            assert(p[k] == s[k]);
        }
        lemma_scan_plain(p);
        assert(!is_special(s[s.len() - 1]));
        assert(p.push(s.last()) =~= s);
    } else {
        assert(s =~= Seq::<char>::empty());
    }
}

pub open spec fn is_special(c: char) -> bool {
    c == '|' || c == '\\' || is_open_bracket(c) || is_close_bracket(c)
}

/// A query without `|`, backslashes or brackets is one term: the trimmed query,
/// or no term at all when it is blank.
pub proof fn law_split_plain_query(query: Seq<char>)
    requires
        forall|k: int| 0 <= k < query.len() ==> !is_special(#[trigger] query[k]),
    ensures
        split_query_spec(query) == close_term(Seq::empty(), query),
{
    lemma_scan_plain(query);
}

/// A character that neither separates terms nor opens or closes a group.
pub open spec fn is_term_char(c: char) -> bool {
    c != '|' && !is_open_bracket(c) && !is_close_bracket(c)
}

proof fn lemma_scan_keeps_backslashes(s: Seq<char>)
    requires
        forall|k: int| 0 <= k < s.len() ==> is_term_char(#[trigger] s[k]),
    ensures
        split_scan(s).terms == Seq::<Seq<char>>::empty(),
        split_scan(s).depth == 0,
        (if split_scan(s).escaped { split_scan(s).current.push('\\') } else { split_scan(s).current })
            == s,
    decreases s.len(),
{
    if s.len() > 0 {
        let p = s.drop_last();
        assert forall|k: int| 0 <= k < p.len() implies is_term_char(#[trigger] p[k]) by {
            assert(p[k] == s[k]);
        }
        lemma_scan_keeps_backslashes(p);
        assert(is_term_char(s[s.len() - 1]));
        assert(p.push(s.last()) =~= s);
        let st = split_scan(p);
        if st.escaped {
            assert(st.current.push('\\').push(s.last()) =~= p.push(s.last()));
        }
    } else {
        assert(s =~= Seq::<char>::empty());
    }
}

/// A query without `|` or brackets is one term, backslashes and all: the
/// trimmed query when it is not blank, else no term. A backslash that does
/// not come before `|` stays in the term's text.
pub proof fn law_split_keeps_backslashes(query: Seq<char>)
    requires
        forall|k: int| 0 <= k < query.len() ==> is_term_char(#[trigger] query[k]),
    ensures
        split_query_spec(query) == if trim_spec(query).len() > 0 {
            seq![trim_spec(query)]
        } else {
            Seq::<Seq<char>>::empty()
        },
{
    lemma_scan_keeps_backslashes(query);
    let st = split_scan(query);
    let cur = if st.escaped { st.current.push('\\') } else { st.current };
    assert(cur == query);
    if trim_spec(query).len() > 0 {
        assert(Seq::<Seq<char>>::empty().push(trim_spec(query)) =~= seq![trim_spec(query)]);
    }
}

/// The SQLite GLOB escape of one character.
pub open spec fn glob_escape_char(c: char) -> Seq<char> {
    if c == '*' {
        seq!['[', '*', ']']
    } else if c == '?' {
        seq!['[', '?', ']']
    } else if c == '[' {
        seq!['[', '[', ']']
    } else if c == ']' {
        seq!['[', ']', ']']
    } else {
        seq![c]
    }
}

/// Every character of `s` escaped for a SQLite GLOB pattern.
pub open spec fn glob_escape(s: Seq<char>) -> Seq<char>
    decreases s.len(),
{
    if s.len() == 0 {
        Seq::empty()
    } else {
        glob_escape(s.drop_last()) + glob_escape_char(s.last())
    }
}

/// The GLOB form of a wildcard file pattern: `*` and `?` stay wildcards,
/// `[` and `]` are escaped.
pub open spec fn glob_wildcard_char(c: char) -> Seq<char> {
    if c == '*' || c == '?' { seq![c] } else { glob_escape_char(c) }
}

pub open spec fn glob_wildcard(s: Seq<char>) -> Seq<char>
    decreases s.len(),
{
    if s.len() == 0 {
        Seq::empty()
    } else {
        glob_wildcard(s.drop_last()) + glob_wildcard_char(s.last())
    }
}

fn push_all(out: &mut Vec<char>, add: &[char])
    ensures
        final(out)@ == old(out)@ + add@,
{
    let mut i: usize = 0;
    while i < add.len()
        invariant
            i <= add.len(),
            out@ == old(out)@ + add@.take(i as int),
        decreases add.len() - i,
    {
        out.push(add[i]);
        i = i + 1;
        assert(out@ =~= old(out)@ + add@.take(i as int));
    }
    assert(add@.take(add.len() as int) =~= add@);
}

fn escape_char_into(out: &mut Vec<char>, c: char, keep_wildcards: bool)
    ensures
        final(out)@ == old(out)@ + (if keep_wildcards { glob_wildcard_char(c) } else {
            glob_escape_char(c)
        }),
{
    if c == '*' && !keep_wildcards {
        push_all(out, &['[', '*', ']']);
    } else if c == '?' && !keep_wildcards {
        push_all(out, &['[', '?', ']']);
    } else if c == '[' {
        push_all(out, &['[', '[', ']']);
    } else if c == ']' {
        push_all(out, &['[', ']', ']']);
    } else {
        out.push(c);
    }
    proof {
        let e = if keep_wildcards { glob_wildcard_char(c) } else { glob_escape_char(c) };
        assert(final(out)@ =~= old(out)@ + e) by {
            assert(old(out)@ + seq![c] =~= old(out)@.push(c));
        }
    }
}

fn escape_chars(v: &Vec<char>, keep_wildcards: bool) -> (r: Vec<char>)
    ensures
        r@ == (if keep_wildcards { glob_wildcard(v@) } else { glob_escape(v@) }),
{
    let mut r: Vec<char> = Vec::new();
    let mut i: usize = 0;
    while i < v.len()
        invariant
            i <= v.len(),
            r@ == (if keep_wildcards { glob_wildcard(v@.take(i as int)) } else {
                glob_escape(v@.take(i as int))
            }),
        decreases v.len() - i,
    {
        escape_char_into(&mut r, v[i], keep_wildcards);
        i = i + 1;
        assert(v@.take(i as int).drop_last() =~= v@.take((i - 1) as int));
    }
    assert(v@.take(v.len() as int) =~= v@);
    r
}

/// Escapes `*`, `?`, `[` and `]` so that a SQLite GLOB matches the text literally.
pub fn escape_sqlite_glob_literal(value: &str) -> (r: String)
    ensures
        r@ == glob_escape(value@),
{
    let v = chars_of(value);
    let e = escape_chars(&v, false);
    string_of(e.as_slice())
}

/// The database GLOB pattern for a file-name filter: a pattern with `*` or `?`
/// keeps them as wildcards (other GLOB syntax escaped); a plain pattern matches
/// as a substring.
pub open spec fn db_pattern_spec(p: Seq<char>) -> Seq<char> {
    if p.contains('*') || p.contains('?') {
        glob_wildcard(p)
    } else {
        seq!['*'] + glob_escape(p) + seq!['*']
    }
}

pub fn build_db_pattern(p: &str) -> (r: String)
    ensures
        r@ == db_pattern_spec(p@),
{
    let v = chars_of(p);
    if has_char(&v, '*') || has_char(&v, '?') {
        let e = escape_chars(&v, true);
        string_of(e.as_slice())
    } else {
        let e = escape_chars(&v, false);
        let mut out: Vec<char> = Vec::new();
        out.push('*');
        push_all(&mut out, e.as_slice());
        out.push('*');
        assert(out@ =~= seq!['*'] + glob_escape(v@) + seq!['*']);
        string_of(out.as_slice())
    }
}

/// The bit of a log level: error 1, warn/warning 2, info 4, debug 8, trace 16,
/// anything else 0. The level is compared trimmed and ASCII-lower-cased.
pub open spec fn level_bits(l: Seq<char>) -> u8 {
    if l == seq!['e', 'r', 'r', 'o', 'r'] {
        1
    } else if l == seq!['w', 'a', 'r', 'n'] || l == seq!['w', 'a', 'r', 'n', 'i', 'n', 'g'] {
        2
    } else if l == seq!['i', 'n', 'f', 'o'] {
        4
    } else if l == seq!['d', 'e', 'b', 'u', 'g'] {
        8
    } else if l == seq!['t', 'r', 'a', 'c', 'e'] {
        16
    } else {
        0
    }
}

pub open spec fn level_mask_spec(level: Seq<char>) -> u8 {
    level_bits(ascii_lower(trim_spec(level)))
}

proof fn lemma_lower_keeps_non_whitespace(c: char)
    ensures
        !char_is_whitespace(c) ==> !char_is_whitespace(ascii_lower_char(c)),
        ascii_lower_char(ascii_lower_char(c)) == ascii_lower_char(c),
{
}

/// Lower-casing a trimmed text leaves nothing to trim, and lower-casing it
/// again changes nothing.
proof fn lemma_trimmed_lowered_is_stable(s: Seq<char>)
    ensures
        ascii_lower(trim_spec(ascii_lower(trim_spec(s)))) == ascii_lower(trim_spec(s)),
{
    lemma_trim_clean(s);
    let t = trim_spec(s);
    let u = ascii_lower(t);
    if t.len() > 0 {
        lemma_lower_keeps_non_whitespace(t[0]);
        lemma_lower_keeps_non_whitespace(t.last());
        assert(u[0] == ascii_lower_char(t[0]));
        assert(u.last() == ascii_lower_char(t.last()));
    }
    assert(leading_ws(u) == 0);
    assert(u.skip(0) =~= u);
    assert(trailing_ws(u) == 0);
    assert(u.take(u.len() as int) =~= u);
    assert(trim_spec(u) =~= u);
    assert forall|i: int| 0 <= i < u.len() implies #[trigger] ascii_lower(u)[i] == u[i] by {
        lemma_lower_keeps_non_whitespace(t[i]);
    }
    assert(ascii_lower(u) =~= u);
}

/// A level's bit is one of the six level bits or zero; it is the same for
/// the level and for its trimmed, ASCII-lower-cased form; and it is zero
/// exactly when that form is none of `error`, `warn`, `warning`, `info`,
/// `debug`, `trace`.
pub proof fn law_level_mask_ignores_case_and_padding(level: Seq<char>)
    ensures
        ({
            let r = level_mask_spec(level);
            let l = ascii_lower(trim_spec(level));
            &&& r == 0 || r == 1 || r == 2 || r == 4 || r == 8 || r == 16
            &&& r == level_mask_spec(l)
            &&& (r != 0 <==> (l == seq!['e', 'r', 'r', 'o', 'r'] || l == seq!['w', 'a', 'r', 'n']
                || l == seq!['w', 'a', 'r', 'n', 'i', 'n', 'g'] || l == seq!['i', 'n', 'f', 'o']
                || l == seq!['d', 'e', 'b', 'u', 'g'] || l == seq!['t', 'r', 'a', 'c', 'e']))
        }),
{
    lemma_trimmed_lowered_is_stable(level);
}

/// The bit of a log level in a level mask.
pub fn level_to_mask(level: &str) -> (m: u8)
    ensures
        m == level_mask_spec(level@),
{
    let v = chars_of(level);
    let t = trim_chars(&v);
    let l = ascii_lowercase_chars(&t);
    let error: [char; 5] = ['e', 'r', 'r', 'o', 'r'];
    let warn: [char; 4] = ['w', 'a', 'r', 'n'];
    let warning: [char; 7] = ['w', 'a', 'r', 'n', 'i', 'n', 'g'];
    let info: [char; 4] = ['i', 'n', 'f', 'o'];
    let debug: [char; 5] = ['d', 'e', 'b', 'u', 'g'];
    let trace: [char; 5] = ['t', 'r', 'a', 'c', 'e'];
    assert(error@ =~= seq!['e', 'r', 'r', 'o', 'r']);
    assert(warn@ =~= seq!['w', 'a', 'r', 'n']);
    assert(warning@ =~= seq!['w', 'a', 'r', 'n', 'i', 'n', 'g']);
    assert(info@ =~= seq!['i', 'n', 'f', 'o']);
    assert(debug@ =~= seq!['d', 'e', 'b', 'u', 'g']);
    assert(trace@ =~= seq!['t', 'r', 'a', 'c', 'e']);
    if eq_chars_slice(&l, &error) {
        1
    } else if eq_chars_slice(&l, &warn) || eq_chars_slice(&l, &warning) {
        2
    } else if eq_chars_slice(&l, &info) {
        4
    } else if eq_chars_slice(&l, &debug) {
        8
    } else if eq_chars_slice(&l, &trace) {
        16
    } else {
        0
    }
}

} // verus!
