//! Checks on paths and identifiers that come from users or from archives:
//! virtual paths, paths that must stay inside a base directory, file
//! hashes, workspace identifiers, and which files are archives.
use vstd::prelude::*;
use crate::errors::AppError;
use crate::filters::CommandError;
use crate::handlers::extension_is;
use crate::pathname::{
    opt_view, parts_view, path_components, path_components_of, path_extension, path_extension_of,
    PathPart, PathPartView,
    path_file_name, path_file_name_of, path_is_absolute, path_is_absolute_of, path_join,
    path_join_of, path_starts_with, path_starts_with_of,
};
use crate::text::{
    ascii_lower, eq_ignore_ascii_case, is_ascii_alphanumeric, is_ascii_hexdigit, push_str,
    seq_contains, seq_ends_with, str_contains, str_ends_with, str_eq, to_lowercase,
    unicode_lowercase,
};

verus! {

/// The check a virtual path fails first, if any: a `..` anywhere, a leading
/// `/` or `\`, or a drive letter (`:` as the second character).
pub open spec fn virtual_path_problem(vp: Seq<char>) -> Option<Seq<char>> {
    if seq_contains(vp, ".."@) {
        Some("Path traversal detected in virtual path: "@ + vp)
    } else if vp.len() > 0 && (vp[0] == '/' || vp[0] == '\\') {
        Some("Virtual path should be relative, not absolute: "@ + vp)
    } else if vp.len() >= 2 && vp[1] == ':' {
        Some("Virtual path should not contain drive letters: "@ + vp)
    } else {
        None
    }
}

fn validation_message(prefix: &str, subject: &str) -> (e: AppError)
    ensures
        e matches AppError::Validation(m) && m@ == prefix@ + subject@,
{
    let mut m = String::new();
    push_str(&mut m, prefix);
    push_str(&mut m, subject);
    AppError::Validation(m)
}

/// Checks that a virtual path stays relative and inside its workspace.
pub fn validate_virtual_path(virtual_path: &str) -> (r: Result<(), AppError>)
    ensures
        virtual_path_problem(virtual_path@) is None <==> r is Ok,
        virtual_path_problem(virtual_path@) matches Some(msg) ==> (r matches Err(
            AppError::Validation(m),
        ) && m@ == msg),
{
    if str_contains(virtual_path, "..") {
        return Err(validation_message("Path traversal detected in virtual path: ", virtual_path));
    }
    let cs = crate::text::chars_of(virtual_path);
    if cs.len() > 0 && (cs[0] == '/' || cs[0] == '\\') {
        return Err(
            validation_message("Virtual path should be relative, not absolute: ", virtual_path),
        );
    }
    if cs.len() >= 2 && cs[1] == ':' {
        return Err(
            validation_message("Virtual path should not contain drive letters: ", virtual_path),
        );
    }
    Ok(())
}

/// The path whose canonical form is checked: `path` itself when absolute,
/// else `path` under the canonical base directory.
pub open spec fn full_path_spec(path: Seq<char>, canonical_base: Seq<char>) -> Seq<char> {
    if path_is_absolute_of(path) { path } else { path_join_of(canonical_base, path) }
}

/// The path to canonicalize before checking `path` against a base
/// directory whose canonical form is `canonical_base`.
pub fn full_path_for_check(path: &str, canonical_base: &str) -> (r: String)
    ensures
        r@ == full_path_spec(path@, canonical_base@),
{
    if path_is_absolute(path) {
        path.to_string()
    } else {
        path_join(canonical_base, path)
    }
}

/// A name that holds a traversal sequence or a separator.
pub open spec fn suspicious_name(n: Seq<char>) -> bool {
    seq_contains(n, ".."@) || seq_contains(n, "/"@) || seq_contains(n, "\\"@)
}

/// The name of the first component of a list that is a name (not a prefix,
/// the root, `.` or `..`) and is suspicious, if any.
pub open spec fn first_suspicious(cs: Seq<PathPartView>) -> Option<Seq<char>>
    decreases cs.len(),
{
    if cs.len() == 0 {
        None
    } else {
        match cs[0] {
            PathPartView::Normal(n) => if suspicious_name(n) {
                Some(n)
            } else {
                first_suspicious(cs.drop_first())
            },
            _ => first_suspicious(cs.drop_first()),
        }
    }
}

/// What the safety check of `path` under `base_dir` says, from the
/// canonical forms of both.
pub open spec fn path_safety_problem(
    path: Seq<char>,
    base_dir: Seq<char>,
    canonical_base: Seq<char>,
    canonical_path: Seq<char>,
) -> Option<Seq<char>> {
    if !path_starts_with_of(canonical_path, canonical_base) {
        Some(
            "Path traversal detected: "@ + path + " (resolved to "@ + canonical_path
                + ") is outside of "@ + base_dir,
        )
    } else {
        match first_suspicious(path_components_of(path)) {
            Some(c) => Some("Suspicious path component detected: "@ + c),
            None => None,
        }
    }
}

/// Checks that `path` stays inside `base_dir`, given the canonical forms of
/// the base directory and of the path to check (see `full_path_for_check`):
/// the canonical path must lie under the canonical base, and no name in
/// `path` may hold `..`, `/` or `\`.
pub fn validate_path_safety(path: &str, base_dir: &str, canonical_base: &str, canonical_path: &str)
    -> (r: Result<(), AppError>)
    ensures
        path_safety_problem(path@, base_dir@, canonical_base@, canonical_path@) is None <==> r is Ok,
        path_safety_problem(path@, base_dir@, canonical_base@, canonical_path@) matches Some(msg)
            ==> (r matches Err(AppError::Validation(m)) && m@ == msg),
{
    if !path_starts_with(canonical_path, canonical_base) {
        let mut m = String::new();
        push_str(&mut m, "Path traversal detected: ");
        push_str(&mut m, path);
        push_str(&mut m, " (resolved to ");
        push_str(&mut m, canonical_path);
        push_str(&mut m, ") is outside of ");
        push_str(&mut m, base_dir);
        return Err(AppError::Validation(m));
    }
    let cs = path_components(path);
    let ghost csv = parts_view(cs@);
    let mut i: usize = 0;
    assert(csv.skip(0) =~= csv);
    while i < cs.len()
        invariant
            i <= cs.len(),
            csv == parts_view(cs@),
            csv == path_components_of(path@),
            path_starts_with_of(canonical_path@, canonical_base@),
            first_suspicious(csv) == first_suspicious(csv.skip(i as int)),
        decreases cs.len() - i,
    {
        let ghost rest = csv.skip(i as int);
        assert(rest[0] == cs@[i as int]@);
        assert(rest.drop_first() =~= csv.skip(i + 1));
        if let PathPart::Normal(n) = &cs[i] {
            let c = n.as_str();
            if str_contains(c, "..") || str_contains(c, "/") || str_contains(c, "\\") {
                return Err(validation_message("Suspicious path component detected: ", c));
            }
        }
        i = i + 1;
    }
    assert(csv.skip(cs.len() as int) =~= Seq::<PathPartView>::empty());
    Ok(())
}

/// Extensions of the archive formats that are read: ZIP, RAR, 7z, TAR
/// (plain, `.tar.gz`, `.tgz`) and gzip.
pub open spec fn archive_extensions() -> Seq<Seq<char>> {
    seq!["zip"@, "rar"@, "7z"@, "tar"@, "tar.gz"@, "tgz"@, "gz"@]
}

fn archive_extension_list() -> (v: Vec<&'static str>)
    ensures
        v@.map_values(|s: &str| s@) == archive_extensions(),
{
    let mut v: Vec<&'static str> = Vec::new();
    v.push("zip");
    v.push("rar");
    v.push("7z");
    v.push("tar");
    v.push("tar.gz");
    v.push("tgz");
    v.push("gz");
    assert(v@.map_values(|s: &str| s@) =~= archive_extensions());
    v
}

/// A path names an archive under `ext` when its extension is `ext` (ASCII
/// case ignored), or its lower-cased file name ends in `.ext`.
pub open spec fn archive_under(path: Seq<char>, ext: Seq<char>) -> bool {
    extension_is(path_extension_of(path), ext) || match path_file_name_of(path) {
        Some(n) => seq_ends_with(unicode_lowercase(n), "."@ + ext),
        None => false,
    }
}

/// Whether a path names an archive of a format that is read.
pub fn is_archive_file(path: &str) -> (r: bool)
    ensures
        r == exists|i: int| 0 <= i < archive_extensions().len() && #[trigger] archive_under(
            path@,
            archive_extensions()[i],
        ),
{
    let exts = archive_extension_list();
    let ext = path_extension(path);
    let name = path_file_name(path);
    let lower_name: Option<String> = match &name {
        Some(n) => Some(to_lowercase(n.as_str())),
        None => None,
    };
    let mut i: usize = 0;
    while i < exts.len()
        invariant
            i <= exts.len(),
            exts@.map_values(|s: &str| s@) == archive_extensions(),
            opt_view(ext) == path_extension_of(path@),
            opt_view(name) == path_file_name_of(path@),
            lower_name is Some <==> name is Some,
            lower_name matches Some(l) ==> l@ == unicode_lowercase(name->Some_0@),
            forall|k: int| 0 <= k < i ==> !archive_under(path@, #[trigger] archive_extensions()[k]),
        decreases exts.len() - i,
    {
        let e = exts[i];
        assert(archive_extensions()[i as int] == e@);
        let by_ext = match &ext {
            Some(x) => eq_ignore_ascii_case(x.as_str(), e),
            None => false,
        };
        let by_name = match &lower_name {
            Some(l) => {
                let mut dotted = String::new();
                push_str(&mut dotted, ".");
                push_str(&mut dotted, e);
                str_ends_with(l.as_str(), dotted.as_str())
            },
            None => false,
        };
        if by_ext || by_name {
            assert(archive_under(path@, archive_extensions()[i as int]));
            return true;
        }
        i = i + 1;
    }
    false
}

/// The MIME type guessed from a file extension (lower-cased first).
pub open spec fn mime_type_spec(ext: Option<Seq<char>>) -> Option<Seq<char>> {
    match ext {
        Some(e) => {
            let l = unicode_lowercase(e);
            if l == "log"@ || l == "txt"@ {
                Some("text/plain"@)
            } else if l == "json"@ {
                Some("application/json"@)
            } else if l == "xml"@ {
                Some("application/xml"@)
            } else if l == "gz"@ {
                Some("application/gzip"@)
            } else if l == "zip"@ {
                Some("application/zip"@)
            } else {
                None
            }
        },
        None => None,
    }
}

/// The MIME type recorded for a stored file, from its extension.
pub fn mime_type_for_extension(ext: &Option<String>) -> (r: Option<String>)
    ensures
        opt_view(r) == mime_type_spec(opt_view(*ext)),
{
    match ext {
        Some(e) => {
            let l = to_lowercase(e.as_str());
            let l = l.as_str();
            if str_eq(l, "log") || str_eq(l, "txt") {
                Some("text/plain".to_string())
            } else if str_eq(l, "json") {
                Some("application/json".to_string())
            } else if str_eq(l, "xml") {
                Some("application/xml".to_string())
            } else if str_eq(l, "gz") {
                Some("application/gzip".to_string())
            } else if str_eq(l, "zip") {
                Some("application/zip".to_string())
            } else {
                None
            }
        },
        None => None,
    }
}

/// A SHA-256 hash as text: exactly 64 hexadecimal digits.
pub open spec fn is_sha256_hex(h: Seq<char>) -> bool {
    h.len() == 64 && forall|i: int| 0 <= i < h.len() ==> is_ascii_hexdigit(#[trigger] h[i])
}

/// Checks that a content hash is 64 hexadecimal digits.
pub fn validate_file_hash(hash: &str) -> (r: Result<(), String>)
    ensures
        is_sha256_hex(hash@) <==> r is Ok,
        r matches Err(m) ==> m@ == "Invalid file hash format"@,
{
    let cs = crate::text::chars_of(hash);
    let mut i: usize = 0;
    while i < cs.len()
        invariant
            i <= cs.len(),
            cs@ == hash@,
            forall|k: int| 0 <= k < i ==> is_ascii_hexdigit(#[trigger] cs@[k]),
        decreases cs.len() - i,
    {
        let c = cs[i];
        if !(('0' <= c && c <= '9') || ('a' <= c && c <= 'f') || ('A' <= c && c <= 'F')) {
            return Err("Invalid file hash format".to_string());
        }
        i = i + 1;
    }
    if cs.len() != 64 {
        return Err("Invalid file hash format".to_string());
    }
    Ok(())
}

/// A character allowed in a workspace identifier: ASCII letter or digit,
/// `_` or `-`.
pub open spec fn is_id_char(c: char) -> bool {
    is_ascii_alphanumeric(c) || c == '_' || c == '-'
}

/// A well-formed workspace identifier: 1 to 100 allowed characters (so
/// as many bytes).
pub open spec fn is_workspace_id(id: Seq<char>) -> bool {
    0 < id.len() <= 100 && forall|i: int| 0 <= i < id.len() ==> is_id_char(#[trigger] id[i])
}

/// Whether a workspace identifier has the accepted form.
pub fn validate_workspace_id_format(workspace_id: String) -> (r: Result<bool, String>)
    ensures
        r == Ok::<bool, String>(is_workspace_id(workspace_id@)),
{
    let cs = crate::text::chars_of(workspace_id.as_str());
    if cs.len() == 0 {
        return Ok(false);
    }
    let mut i: usize = 0;
    while i < cs.len()
        invariant
            i <= cs.len(),
            cs@ == workspace_id@,
            forall|k: int| 0 <= k < i ==> is_id_char(#[trigger] cs@[k]),
        decreases cs.len() - i,
    {
        let c = cs[i];
        if !(('0' <= c && c <= '9') || ('a' <= c && c <= 'z') || ('A' <= c && c <= 'Z') || c == '_'
            || c == '-') {
            return Ok(false);
        }
        i = i + 1;
    }
    Ok(cs.len() <= 100)
}

/// The outcome of a validation: messages per field, and how many problems
/// were found.
pub struct ValidationErrorReport {
    pub errors: Vec<(String, Vec<String>)>,
    pub error_count: usize,
}

pub open spec fn report_view(r: &ValidationErrorReport) -> Seq<(Seq<char>, Seq<Seq<char>>)> {
    r.errors@.map_values(|e: (String, Vec<String>)| (e.0@, e.1@.map_values(|m: String| m@)))
}

/// Length in bytes of the UTF-8 form of a text, as `str::len` gives it.
pub open spec fn byte_len(s: Seq<char>) -> usize {
    vstd::utf8::encode_utf8(s).len() as usize
}

/// The checks of a path that may be shown to the user, in the order they
/// are made, on this (non-Windows) platform: too long (over 500 bytes),
/// dangerous sequences (`..` or `~`), a parent-directory component.
pub open spec fn path_security_failures(path: Seq<char>) -> Seq<Seq<char>> {
    message_if(byte_len(path) > 500, "Path too long (max 500 characters)"@)
        + message_if(seq_contains(path, ".."@) || seq_contains(path, "~"@), "Path contains dangerous sequences"@)
        + message_if(path_components_of(path).contains(PathPartView::Parent), "Path contains parent directory references"@)
}

/// A one-message list when `cond` holds, else an empty one.
pub open spec fn message_if(cond: bool, msg: Seq<char>) -> Seq<Seq<char>> {
    if cond { seq![msg] } else { Seq::empty() }
}

/// Checks a path a user typed: an empty path is one error; otherwise each
/// failed check counts, and the `path` field keeps the message of the last.
pub fn validate_path_security(path: String) -> (r: Result<ValidationErrorReport, String>)
    ensures
        r matches Ok(rep) && ({
            if path@.len() == 0 {
                rep.error_count == 1 && report_view(&rep) == seq![
                    ("path"@, seq!["Path cannot be empty"@]),
                ]
            } else {
                let f = path_security_failures(path@);
                &&& rep.error_count == f.len()
                &&& f.len() == 0 ==> report_view(&rep) == Seq::<(Seq<char>, Seq<Seq<char>>)>::empty()
                &&& f.len() > 0 ==> report_view(&rep) == seq![("path"@, seq![f.last()])]
            }
        }),
{
    let p = path.as_str();
    if p.is_empty() {
        let mut msgs: Vec<String> = Vec::new();
        msgs.push("Path cannot be empty".to_string());
        let mut errors: Vec<(String, Vec<String>)> = Vec::new();
        errors.push(("path".to_string(), msgs));
        let rep = ValidationErrorReport { errors, error_count: 1 };
        assert(rep.errors@[0].1@.map_values(|m: String| m@) =~= seq!["Path cannot be empty"@]);
        assert(report_view(&rep) =~= seq![("path"@, seq!["Path cannot be empty"@])]);
        return Ok(rep);
    }
    let mut failures: Vec<&'static str> = Vec::new();
    let too_long = p.len() > 500;
    assert(too_long == (byte_len(path@) > 500));
    if too_long {
        failures.push("Path too long (max 500 characters)");
    }
    let dangerous = str_contains(p, "..") || str_contains(p, "~");
    if dangerous {
        failures.push("Path contains dangerous sequences");
    }
    assert(dangerous == (seq_contains(path@, ".."@) || seq_contains(path@, "~"@)));
    let cs = path_components(p);
    let mut has_parent = false;
    let mut i: usize = 0;
    while i < cs.len()
        invariant
            i <= cs.len(),
            has_parent == exists|k: int| 0 <= k < i && #[trigger] cs@[k]@ == PathPartView::Parent,
        decreases cs.len() - i,
    {
        let is_parent = match &cs[i] {
            PathPart::Parent => true,
            _ => false,
        };
        assert(is_parent == (cs@[i as int]@ == PathPartView::Parent));
        if is_parent {
            has_parent = true;
        }
        i = i + 1;
    }
    proof {
        let csv = parts_view(cs@);
        assert(csv == path_components_of(path@));
        if has_parent {
            let k = choose|k: int| 0 <= k < cs.len() && #[trigger] cs@[k]@ == PathPartView::Parent;
            assert(csv[k] == PathPartView::Parent);
        } else {
            assert forall|k: int| 0 <= k < csv.len() implies csv[k] != PathPartView::Parent by {
                assert(cs@[k]@ == csv[k]);
            }
        }
    }
    if has_parent {
        failures.push("Path contains parent directory references");
    }
    let ghost fv = failures@.map_values(|s: &str| s@);
    proof {
        let pa = message_if(too_long, "Path too long (max 500 characters)"@);
        let pb = message_if(dangerous, "Path contains dangerous sequences"@);
        let pc = message_if(has_parent, "Path contains parent directory references"@);
        assert(fv =~= pa + pb + pc);
        assert(has_parent == path_components_of(path@).contains(PathPartView::Parent));
        assert(too_long == (byte_len(path@) > 500));
        assert(path_security_failures(path@) =~= pa + pb + pc);
    }
    let count = failures.len();
    let mut errors: Vec<(String, Vec<String>)> = Vec::new();
    if count > 0 {
        let mut msgs: Vec<String> = Vec::new();
        msgs.push(failures[count - 1].to_string());
        errors.push(("path".to_string(), msgs));
    }
    let rep = ValidationErrorReport { errors, error_count: count };
    proof {
        if count > 0 {
            assert(fv.last() == failures@[count - 1]@);
            assert(rep.errors@[0].1@.map_values(|m: String| m@) =~= seq![fv.last()]);
            assert(report_view(&rep) =~= seq![("path"@, seq![fv.last()])]);
        } else {
            assert(report_view(&rep) =~= Seq::<(Seq<char>, Seq<Seq<char>>)>::empty());
        }
    }
    Ok(rep)
}

/// The size above which an archive import is reported as slow: 5 GB.
pub const LARGE_IMPORT_BYTES: u64 = 5_000_000_000;

/// The advisories given for an archive configuration that passed its field
/// checks: a size limit above [`LARGE_IMPORT_BYTES`] is reported under
/// `max_file_size`, an empty extension list under `allowed_extensions`, in
/// that order.
pub open spec fn archive_advisories(max_file_size: u64, no_extensions: bool) -> Seq<(Seq<char>, Seq<Seq<char>>)> {
    (if max_file_size > LARGE_IMPORT_BYTES {
        seq![("max_file_size"@, seq!["Large import size may take significant time"@])]
    } else {
        Seq::empty()
    }) + (if no_extensions {
        seq![("allowed_extensions"@, seq!["No file extensions specified"@])]
    } else {
        Seq::empty()
    })
}

/// The report for an archive configuration whose fields are valid: one
/// entry per advisory, and as many counted.
pub fn archive_config_advisories(max_file_size: u64, allowed_extensions: &Vec<String>) -> (r: ValidationErrorReport)
    ensures
        report_view(&r) == archive_advisories(max_file_size, allowed_extensions@.len() == 0),
        r.error_count == archive_advisories(max_file_size, allowed_extensions@.len() == 0).len(),
{
    let mut errors: Vec<(String, Vec<String>)> = Vec::new();
    let mut count: usize = 0;
    if max_file_size > LARGE_IMPORT_BYTES {
        let mut msgs: Vec<String> = Vec::new();
        msgs.push("Large import size may take significant time".to_string());
        assert(msgs@.map_values(|m: String| m@) =~= seq!["Large import size may take significant time"@]);
        errors.push(("max_file_size".to_string(), msgs));
        count = count + 1;
    }
    if allowed_extensions.len() == 0 {
        let mut msgs: Vec<String> = Vec::new();
        msgs.push("No file extensions specified".to_string());
        assert(msgs@.map_values(|m: String| m@) =~= seq!["No file extensions specified"@]);
        errors.push(("allowed_extensions".to_string(), msgs));
        count = count + 1;
    }
    let r = ValidationErrorReport { errors, error_count: count };
    assert(report_view(&r) =~= archive_advisories(max_file_size, allowed_extensions@.len() == 0));
    r
}

/// A character as it goes into a workspace slug: kept when it is an ASCII
/// letter or digit, `-` or `_`, else a `-`.
pub open spec fn slug_char(c: char) -> char {
    if is_id_char(c) { c } else { '-' }
}

/// Each run of `-` made into one.
pub open spec fn collapse_dashes(s: Seq<char>) -> Seq<char>
    decreases s.len(),
{
    if s.len() == 0 {
        s
    } else {
        let r = collapse_dashes(s.drop_last());
        if s.last() == '-' && r.len() > 0 && r.last() == '-' { r } else { r.push(s.last()) }
    }
}

pub open spec fn leading_dashes(s: Seq<char>) -> nat
    decreases s.len(),
{
    if s.len() > 0 && s[0] == '-' { 1 + leading_dashes(s.drop_first()) } else { 0 }
}

pub open spec fn trailing_dashes(s: Seq<char>) -> nat
    decreases s.len(),
{
    if s.len() > 0 && s.last() == '-' { 1 + trailing_dashes(s.drop_last()) } else { 0 }
}

/// `s` without `-` at either end.
pub open spec fn trim_dashes(s: Seq<char>) -> Seq<char> {
    let t = s.skip(leading_dashes(s) as int);
    t.take(t.len() - trailing_dashes(t))
}

pub open spec fn or_workspace(s: Seq<char>) -> Seq<char> {
    if s.len() == 0 { "workspace"@ } else { s }
}

/// The longest slug that fits an identifier of at most 50 characters.
pub open spec fn max_slug_len() -> nat {
    38
}

/// The slug of a workspace name: trimmed, lower-cased, every other
/// character made a `-`, runs of `-` made one, `-` stripped from the ends,
/// at most 38 characters, and `workspace` when nothing is left.
pub open spec fn workspace_slug(name: Seq<char>) -> Seq<char> {
    let mapped = unicode_lowercase(crate::text::trim_spec(name)).map_values(|c: char| slug_char(c));
    let s = or_workspace(trim_dashes(collapse_dashes(mapped)));
    let cut = if s.len() > max_slug_len() { s.take(max_slug_len() as int) } else { s };
    or_workspace(trim_dashes(cut))
}

/// The identifier of a new workspace: `ws-`, the slug, `-`, the suffix.
pub open spec fn workspace_id_spec(name: Seq<char>, suffix: Seq<char>) -> Seq<char> {
    "ws-"@ + workspace_slug(name) + "-"@ + suffix
}

proof fn lemma_dash_counts_bounded(s: Seq<char>)
    ensures
        leading_dashes(s) <= s.len(),
        trailing_dashes(s) <= s.len(),
    decreases s.len(),
{
    if s.len() > 0 {
        lemma_dash_counts_bounded(s.drop_first());
        lemma_dash_counts_bounded(s.drop_last());
    }
}

fn count_leading_dashes(v: &Vec<char>) -> (n: usize)
    ensures
        n == leading_dashes(v@),
{
    let mut i: usize = 0;
    assert(v@.skip(0) =~= v@);
    while i < v.len() && v[i] == '-'
        invariant
            i <= v.len(),
            leading_dashes(v@) == i + leading_dashes(v@.skip(i as int)),
        decreases v.len() - i,
    {
        assert(v@.skip(i as int).drop_first() =~= v@.skip((i + 1) as int));
        i = i + 1;
    }
    if i < v.len() {
        assert(v@.skip(i as int)[0] == v@[i as int]);
    } else {
        assert(v@.skip(i as int).len() == 0);
    }
    i
}

fn count_trailing_dashes(v: &Vec<char>) -> (n: usize)
    ensures
        n == trailing_dashes(v@),
{
    let mut i: usize = 0;
    assert(v@.take(v.len() as int) =~= v@);
    while i < v.len() && v[v.len() - 1 - i] == '-'
        invariant
            i <= v.len(),
            trailing_dashes(v@) == i + trailing_dashes(v@.take(v.len() - i)),
        decreases v.len() - i,
    {
        assert(v@.take(v.len() - i).drop_last() =~= v@.take(v.len() - i - 1));
        i = i + 1;
    }
    if i < v.len() {
        assert(v@.take(v.len() - i).last() == v@[v.len() - 1 - i]);
    } else {
        assert(v@.take(v.len() - i).len() == 0);
    }
    i
}

fn trim_dash_chars(v: &Vec<char>) -> (r: Vec<char>)
    ensures
        r@ == trim_dashes(v@),
{
    let a = count_leading_dashes(v);
    proof {
        lemma_dash_counts_bounded(v@);
    }
    let t = crate::text::slice_chars(v, a, v.len());
    assert(t@ =~= v@.skip(a as int));
    let b = count_trailing_dashes(&t);
    proof {
        lemma_dash_counts_bounded(t@);
    }
    let r = crate::text::slice_chars(&t, 0, t.len() - b);
    assert(r@ =~= t@.take(t.len() - b));
    r
}

fn collapse_dash_chars(v: &Vec<char>) -> (r: Vec<char>)
    ensures
        r@ == collapse_dashes(v@),
{
    let mut r: Vec<char> = Vec::new();
    let mut i: usize = 0;
    while i < v.len()
        invariant
            i <= v.len(),
            r@ == collapse_dashes(v@.take(i as int)),
        decreases v.len() - i,
    {
        assert(v@.take((i + 1) as int).drop_last() =~= v@.take(i as int));
        let c = v[i];
        let n = r.len();
        if !(c == '-' && n > 0 && r[n - 1] == '-') {
            r.push(c);
        }
        i = i + 1;
    }
    assert(v@.take(v.len() as int) =~= v@);
    r
}

fn workspace_fallback(v: Vec<char>) -> (r: Vec<char>)
    ensures
        r@ == or_workspace(v@),
{
    if v.len() == 0 {
        let r = crate::text::chars_of("workspace");
        r
    } else {
        v
    }
}

/// The slug of a workspace name (see `workspace_slug`).
pub fn slug_for_workspace(name: &str) -> (r: String)
    ensures
        r@ == workspace_slug(name@),
{
    let trimmed = crate::text::trim_str(name);
    let lower = to_lowercase(trimmed.as_str());
    let cs = crate::text::chars_of(lower.as_str());
    let mut mapped: Vec<char> = Vec::new();
    let mut i: usize = 0;
    while i < cs.len()
        invariant
            i <= cs.len(),
            mapped@ == cs@.take(i as int).map_values(|c: char| slug_char(c)),
        decreases cs.len() - i,
    {
        let c = cs[i];
        let keep = ('0' <= c && c <= '9') || ('a' <= c && c <= 'z') || ('A' <= c && c <= 'Z')
            || c == '-' || c == '_';
        mapped.push(if keep { c } else { '-' });
        i = i + 1;
        assert(mapped@ =~= cs@.take(i as int).map_values(|c: char| slug_char(c)));
    }
    assert(cs@.take(cs.len() as int) =~= cs@);
    let collapsed = collapse_dash_chars(&mapped);
    let s = workspace_fallback(trim_dash_chars(&collapsed));
    let cut = if s.len() > 38 {
        crate::text::slice_chars(&s, 0, 38)
    } else {
        s
    };
    proof {
        if s@.len() > 38 {
            assert(cut@ =~= s@.take(38));
        }
    }
    let r = workspace_fallback(trim_dash_chars(&cut));
    crate::text::string_of(r.as_slice())
}

/// A lower-case hexadecimal digit.
pub open spec fn is_lower_hex(c: char) -> bool {
    '0' <= c <= '9' || 'a' <= c <= 'f'
}

/// The hyphenated lower-case text of a version-4 UUID: groups of 8, 4, 4, 4
/// and 12 lower-case hexadecimal digits joined by `-`, the version digit
/// (the first of the third group) `4`, and the variant digit (the first of
/// the fourth group) one of `8`, `9`, `a`, `b`.
pub open spec fn is_uuid_v4_text(s: Seq<char>) -> bool {
    &&& s.len() == 36
    &&& forall|i: int|
        0 <= i < 36 ==> if i == 8 || i == 13 || i == 18 || i == 23 {
            #[trigger] s[i] == '-'
        } else {
            is_lower_hex(s[i])
        }
    &&& s[14] == '4'
    &&& (s[19] == '8' || s[19] == '9' || s[19] == 'a' || s[19] == 'b')
}

/// A version-4 UUID in its hyphenated lower-case form (`Uuid::new_v4`,
/// then `to_string`). It is random; what holds of every outcome is its
/// shape: the version and variant bits that `new_v4` sets, and the
/// hyphenated lower-case layout that its `Display` writes.
#[verifier::external_body]
pub(crate) fn new_uuid_v4_string() -> (s: String)
    ensures
        is_uuid_v4_text(s@),
        s@.len() == 36,
        forall|i: int| 0 <= i < 8 ==> ('0' <= #[trigger] s@[i] <= '9' || 'a' <= s@[i] <= 'f'),
{
    uuid::Uuid::new_v4().to_string()
}

/// The identifier for a workspace named `name` with the given suffix.
pub fn workspace_id_with_suffix(name: &str, suffix: &str) -> (r: String)
    ensures
        r@ == workspace_id_spec(name@, suffix@),
{
    let slug = slug_for_workspace(name);
    let mut r = String::new();
    push_str(&mut r, "ws-");
    push_str(&mut r, slug.as_str());
    push_str(&mut r, "-");
    push_str(&mut r, suffix);
    r
}

/// A fresh identifier for a workspace named `name`: its slug and the first
/// eight characters of a random UUID.
pub fn build_workspace_id(name: &str) -> (r: String)
    ensures
        exists|suffix: Seq<char>| #![trigger workspace_id_spec(name@, suffix)]
            suffix.len() == 8 && (forall|i: int| 0 <= i < 8 ==> is_id_char(#[trigger] suffix[i]))
                && r@ == workspace_id_spec(name@, suffix),
{
    let u = new_uuid_v4_string();
    let cs = crate::text::chars_of(u.as_str());
    let head = crate::text::slice_chars(&cs, 0, 8);
    let suffix = crate::text::string_of(head.as_slice());
    let r = workspace_id_with_suffix(name, suffix.as_str());
    assert(forall|i: int| 0 <= i < 8 ==> is_id_char(#[trigger] suffix@[i])) by {
        assert forall|i: int| 0 <= i < 8 implies is_id_char(#[trigger] suffix@[i]) by {
            assert(suffix@[i] == u@[i]);
        }
    }
    r
}

pub open spec fn all_id_chars(s: Seq<char>) -> bool {
    forall|i: int| 0 <= i < s.len() ==> is_id_char(#[trigger] s[i])
}

proof fn lemma_collapse_keeps_id_chars(s: Seq<char>)
    requires
        all_id_chars(s),
    ensures
        all_id_chars(collapse_dashes(s)),
        collapse_dashes(s).len() <= s.len(),
    decreases s.len(),
{
    if s.len() > 0 {
        assert(all_id_chars(s.drop_last()));
        lemma_collapse_keeps_id_chars(s.drop_last());
    }
}

proof fn lemma_trim_dashes_keeps_id_chars(s: Seq<char>)
    requires
        all_id_chars(s),
    ensures
        all_id_chars(trim_dashes(s)),
        trim_dashes(s).len() <= s.len(),
{
    lemma_dash_counts_bounded(s);
    let t = s.skip(leading_dashes(s) as int);
    lemma_dash_counts_bounded(t);
    assert(all_id_chars(t));
}

proof fn lemma_workspace_word()
    ensures
        all_id_chars("workspace"@),
        "workspace"@.len() == 9,
{
    reveal_strlit("workspace");
}

/// Every identifier made for a new workspace passes the identifier check:
/// it starts with `ws-`, has at most 50 characters, all of them ASCII
/// letters, digits, `_` or `-`.
pub proof fn law_built_ids_are_well_formed(name: Seq<char>, suffix: Seq<char>)
    requires
        suffix.len() == 8,
        all_id_chars(suffix),
    ensures
        is_workspace_id(workspace_id_spec(name, suffix)),
        workspace_id_spec(name, suffix).len() <= 50,
        crate::text::seq_starts_with(workspace_id_spec(name, suffix), "ws-"@),
{
    let mapped = unicode_lowercase(crate::text::trim_spec(name)).map_values(|c: char| slug_char(c));
    assert(all_id_chars(mapped));
    lemma_collapse_keeps_id_chars(mapped);
    let c = collapse_dashes(mapped);
    lemma_trim_dashes_keeps_id_chars(c);
    lemma_workspace_word();
    let s = or_workspace(trim_dashes(c));
    assert(all_id_chars(s));
    let cut = if s.len() > max_slug_len() { s.take(max_slug_len() as int) } else { s };
    assert(all_id_chars(cut));
    lemma_trim_dashes_keeps_id_chars(cut);
    let slug = or_workspace(trim_dashes(cut));
    assert(slug == workspace_slug(name));
    assert(all_id_chars(slug));
    assert(slug.len() <= 38);
    reveal_strlit("ws-");
    reveal_strlit("-");
    let id = workspace_id_spec(name, suffix);
    assert(id == "ws-"@ + slug + "-"@ + suffix);
    assert forall|i: int| 0 <= i < id.len() implies is_id_char(#[trigger] id[i]) by {
        if i < 3 {
        } else if i < 3 + slug.len() {
            assert(id[i] == slug[i - 3]);
        } else if i == 3 + slug.len() {
        } else {
            assert(id[i] == suffix[i - 4 - slug.len()]);
        }
    }
    assert(id.subrange(0, 3) =~= "ws-"@);
}

/// The first component that makes a configuration path unusable: the root
/// or a prefix (an absolute path, `true`) or `..` (a traversal, `false`).
/// Names and `.` are fine.
pub open spec fn config_path_problem(cs: Seq<PathPartView>) -> Option<bool>
    decreases cs.len(),
{
    if cs.len() == 0 {
        None
    } else {
        match cs[0] {
            PathPartView::Root => Some(true),
            PathPartView::Prefix(_) => Some(true),
            PathPartView::Parent => Some(false),
            _ => config_path_problem(cs.drop_first()),
        }
    }
}

/// Checks that a path meant to stay under an application directory is
/// relative and never climbs: its first root component is refused with
/// `ABSOLUTE_PATH_REJECTED` and `absolute_message`, its first `..` with
/// `PATH_TRAVERSAL_DETECTED` and `traversal_message`.
pub fn check_relative_path(path: &str, absolute_message: &str, traversal_message: &str) -> (r: Result<
    (),
    CommandError,
>)
    ensures
        config_path_problem(path_components_of(path@)) is None <==> r is Ok,
        config_path_problem(path_components_of(path@)) == Some(true) ==> (r matches Err(e)
            && e.code@ == "ABSOLUTE_PATH_REJECTED"@ && e.message@ == absolute_message@ && e.help is None),
        config_path_problem(path_components_of(path@)) == Some(false) ==> (r matches Err(e)
            && e.code@ == "PATH_TRAVERSAL_DETECTED"@ && e.message@ == traversal_message@ && e.help is None),
{
    let cs = path_components(path);
    let ghost csv = parts_view(cs@);
    let mut i: usize = 0;
    assert(csv.skip(0) =~= csv);
    while i < cs.len()
        invariant
            i <= cs.len(),
            csv == parts_view(cs@),
            csv == path_components_of(path@),
            config_path_problem(csv) == config_path_problem(csv.skip(i as int)),
        decreases cs.len() - i,
    {
        let ghost rest = csv.skip(i as int);
        assert(rest[0] == cs@[i as int]@);
        assert(rest.drop_first() =~= csv.skip(i + 1));
        let absolute = match &cs[i] {
            PathPart::Root => true,
            PathPart::Prefix(_) => true,
            _ => false,
        };
        let parent = match &cs[i] {
            PathPart::Parent => true,
            _ => false,
        };
        if absolute {
            return Err(CommandError {
                code: "ABSOLUTE_PATH_REJECTED".to_string(),
                message: absolute_message.to_string(),
                help: None,
                details: None,
            });
        }
        if parent {
            return Err(CommandError {
                code: "PATH_TRAVERSAL_DETECTED".to_string(),
                message: traversal_message.to_string(),
                help: None,
                details: None,
            });
        }
        i = i + 1;
    }
    assert(csv.skip(cs.len() as int) =~= Seq::<PathPartView>::empty());
    Ok(())
}

/// Checks that a log configuration path (already screened for traversal
/// text) is relative and never climbs.
pub fn check_log_config_path(safe_name: &str) -> (r: Result<(), CommandError>)
    ensures
        config_path_problem(path_components_of(safe_name@)) is None <==> r is Ok,
        config_path_problem(path_components_of(safe_name@)) == Some(true) ==> (r matches Err(e)
            && e.code@ == "ABSOLUTE_PATH_REJECTED"@ && e.message@ == "配置路径必须是相对路径"@
            && e.help is None),
        config_path_problem(path_components_of(safe_name@)) == Some(false) ==> (r matches Err(e)
            && e.code@ == "PATH_TRAVERSAL_DETECTED"@ && e.message@ == "配置路径包含非法路径遍历"@
            && e.help is None),
{
    check_relative_path(safe_name, "配置路径必须是相对路径", "配置路径包含非法路径遍历")
}

/// Checks that an export path is relative and never climbs.
pub fn check_export_path(save_path: &str) -> (r: Result<(), CommandError>)
    ensures
        config_path_problem(path_components_of(save_path@)) is None <==> r is Ok,
        config_path_problem(path_components_of(save_path@)) == Some(true) ==> (r matches Err(e)
            && e.code@ == "ABSOLUTE_PATH_REJECTED"@ && e.message@ == "导出路径不允许使用绝对路径"@),
        config_path_problem(path_components_of(save_path@)) == Some(false) ==> (r matches Err(e)
            && e.code@ == "PATH_TRAVERSAL_DETECTED"@ && e.message@ == "导出路径包含非法路径遍历"@),
{
    check_relative_path(save_path, "导出路径不允许使用绝对路径", "导出路径包含非法路径遍历")
}

/// Checks that an export stays in the download directory: when the target
/// already exists, its canonical path (`canonical_target`) must lie under
/// the canonical download directory.
pub fn check_export_target(canonical_target: Option<&str>, canonical_dir: &str) -> (r: Result<(), CommandError>)
    ensures
        (canonical_target matches Some(t) && !path_starts_with_of(t@, canonical_dir@)) ==> (r matches Err(e)
            && e.code@ == "EXPORT_PATH_ESCAPE"@ && e.message@ == "导出路径不允许超出下载目录范围"@),
        !(canonical_target matches Some(t) && !path_starts_with_of(t@, canonical_dir@)) ==> r is Ok,
{
    match canonical_target {
        Some(t) => {
            if !path_starts_with(t, canonical_dir) {
                return Err(
                    CommandError {
                        code: "EXPORT_PATH_ESCAPE".to_string(),
                        message: "导出路径不允许超出下载目录范围".to_string(),
                        help: None,
                        details: None,
                    },
                );
            }
            Ok(())
        },
        None => Ok(()),
    }
}

} // verus!
