//! The import pipeline's decisions: what to do with each path met while a
//! source is imported, how nested archives are named and bounded, and when
//! progress is checkpointed.
use vstd::prelude::*;
use crate::errors::AppError;
use crate::pathname::{
    opt_view, path_extension_of, path_is_absolute, path_is_absolute_of, path_join, path_join_of, path_strip_prefix,
    path_strip_prefix_of,
};
use crate::paths::virtual_path_problem;
use crate::text::{
    chars_of, decimal, push_char, push_decimal, push_str, seq_contains, str_contains, to_lowercase,
    unicode_lowercase,
};

verus! {

/// Archives nested deeper than this are not opened.
pub const MAX_NESTING_DEPTH: i32 = 10;

/// Whether an archive found at `depth` is still opened.
pub fn nesting_allowed(depth: i32) -> (r: bool)
    ensures
        r == (depth < MAX_NESTING_DEPTH),
{
    depth < MAX_NESTING_DEPTH
}

/// The nesting depth of a virtual path in the older pipeline: its number of `/`.
pub open spec fn slash_count(s: Seq<char>) -> nat
    decreases s.len(),
{
    if s.len() == 0 {
        0
    } else {
        slash_count(s.drop_last()) + if s.last() == '/' { 1nat } else { 0nat }
    }
}

pub fn legacy_nesting_depth(virtual_path: &str) -> (n: usize)
    ensures
        n == slash_count(virtual_path@),
{
    let cs = chars_of(virtual_path);
    let mut n: usize = 0;
    let mut i: usize = 0;
    while i < cs.len()
        invariant
            i <= cs.len(),
            n == slash_count(cs@.take(i as int)),
            n <= i,
        decreases cs.len() - i,
    {
        assert(cs@.take((i + 1) as int).drop_last() =~= cs@.take(i as int));
        if cs[i] == '/' {
            n = n + 1;
        }
        i = i + 1;
    }
    assert(cs@.take(cs.len() as int) =~= cs@);
    n
}

/// What to do with a path met during an import.
#[derive(PartialEq, Eq, Structural, Clone, Copy, Debug)]
pub enum EntryAction {
    /// Leave it: already imported, gone, or filtered out.
    Skip,
    /// A directory: go through its children.
    Descend,
    /// An archive: extract it and import what it holds.
    ExtractArchive,
    /// A plain file: store its content and record it.
    StoreFile,
}

/// The action for a path, from what is known of it: a path the checkpoint
/// already holds is skipped; a bad virtual path is an error; a path that is
/// gone is skipped; a directory is descended; an archive is extracted; any
/// other file is stored unless the import filter turns it away.
pub open spec fn entry_action_spec(
    already_extracted: bool,
    virtual_path: Seq<char>,
    exists: bool,
    is_dir: bool,
    is_archive: bool,
    import_allowed: bool,
) -> Result<EntryAction, Seq<char>> {
    if already_extracted {
        Ok(EntryAction::Skip)
    } else if virtual_path_problem(virtual_path) is Some {
        Err(virtual_path_problem(virtual_path)->Some_0)
    } else if !exists {
        Ok(EntryAction::Skip)
    } else if is_dir {
        Ok(EntryAction::Descend)
    } else if is_archive {
        Ok(EntryAction::ExtractArchive)
    } else if !import_allowed {
        Ok(EntryAction::Skip)
    } else {
        Ok(EntryAction::StoreFile)
    }
}

pub fn decide_entry(
    already_extracted: bool,
    virtual_path: &str,
    exists: bool,
    is_dir: bool,
    is_archive: bool,
    import_allowed: bool,
) -> (r: Result<EntryAction, AppError>)
    ensures
        match entry_action_spec(already_extracted, virtual_path@, exists, is_dir, is_archive, import_allowed) {
            Ok(a) => r == Ok::<EntryAction, AppError>(a),
            Err(m) => r matches Err(AppError::Validation(e)) && e@ == m,
        },
{
    if already_extracted {
        return Ok(EntryAction::Skip);
    }
    if let Err(e) = crate::paths::validate_virtual_path(virtual_path) {
        return Err(e);
    }
    if !exists {
        return Ok(EntryAction::Skip);
    }
    if is_dir {
        return Ok(EntryAction::Descend);
    }
    if is_archive {
        return Ok(EntryAction::ExtractArchive);
    }
    if !import_allowed {
        return Ok(EntryAction::Skip);
    }
    Ok(EntryAction::StoreFile)
}

/// The virtual path of a child: the parent's, `/`, the child's name.
pub fn child_virtual_path(virtual_path: &str, entry_name: &str) -> (r: String)
    ensures
        r@ == virtual_path@ + "/"@ + entry_name@,
{
    let mut r = String::new();
    push_str(&mut r, virtual_path);
    push_str(&mut r, "/");
    push_str(&mut r, entry_name);
    r
}

/// The virtual path of a file found in an archive: the archive's virtual
/// path, the archive's name, and the file's path inside it.
pub fn nested_virtual_path(virtual_path: &str, archive_name: &str, relative_path: &str) -> (r: String)
    ensures
        r@ == virtual_path@ + "/"@ + archive_name@ + "/"@ + relative_path@,
{
    let mut r = String::new();
    push_str(&mut r, virtual_path);
    push_str(&mut r, "/");
    push_str(&mut r, archive_name);
    push_str(&mut r, "/");
    push_str(&mut r, relative_path);
    r
}

/// The type recorded for an archive: its extension, lower-cased, or
/// `unknown`.
pub fn archive_type_of(ext: &Option<String>) -> (r: String)
    ensures
        r@ == match opt_view(*ext) {
            Some(e) => unicode_lowercase(e),
            None => "unknown"@,
        },
{
    match ext {
        Some(e) => to_lowercase(e.as_str()),
        None => "unknown".to_string(),
    }
}

/// `s` with every `.` made a `_`.
pub open spec fn dots_to_underscores(s: Seq<char>) -> Seq<char> {
    s.map_values(|c: char| if c == '.' { '_' } else { c })
}

/// The directory an archive is extracted into: its name with `.` made `_`,
/// then `_` and the time in milliseconds.
pub fn extraction_dir_name(file_name: &str, timestamp_ms: u64) -> (r: String)
    ensures
        r@ == dots_to_underscores(file_name@) + "_"@ + decimal(timestamp_ms as nat),
{
    let cs = chars_of(file_name);
    let mut r = String::new();
    let mut i: usize = 0;
    while i < cs.len()
        invariant
            i <= cs.len(),
            r@ == dots_to_underscores(cs@.take(i as int)),
        decreases cs.len() - i,
    {
        push_char(&mut r, if cs[i] == '.' { '_' } else { cs[i] });
        i = i + 1;
        assert(r@ =~= dots_to_underscores(cs@.take(i as int)));
    }
    assert(cs@.take(cs.len() as int) =~= cs@);
    push_str(&mut r, "_");
    push_decimal(&mut r, timestamp_ms);
    r
}

/// Where an extracted file is, relative to the extraction directory and in
/// full: an absolute path must lie under the directory; a relative one is
/// taken as it is and joined to the directory.
pub fn locate_extracted(extracted_file: &str, extract_dir: &str) -> (r: Result<(String, String), AppError>)
    ensures
        path_is_absolute_of(extracted_file@) ==> match path_strip_prefix_of(extracted_file@, extract_dir@) {
            Some(rel) => r matches Ok((a, b)) && a@ == rel && b@ == extracted_file@,
            None => r matches Err(AppError::Validation(m)) && m@
                == "Failed to compute relative path for "@ + extracted_file@,
        },
        !path_is_absolute_of(extracted_file@) ==> (r matches Ok((a, b)) && a@ == extracted_file@
            && b@ == path_join_of(extract_dir@, extracted_file@)),
{
    if path_is_absolute(extracted_file) {
        match path_strip_prefix(extracted_file, extract_dir) {
            Some(rel) => Ok((rel, extracted_file.to_string())),
            None => {
                let mut m = String::new();
                push_str(&mut m, "Failed to compute relative path for ");
                push_str(&mut m, extracted_file);
                Err(AppError::Validation(m))
            },
        }
    } else {
        Ok((extracted_file.to_string(), path_join(extract_dir, extracted_file)))
    }
}

/// Where an archive's processing stands, as the metadata records it.
#[derive(PartialEq, Eq, Structural, Clone, Copy, Debug)]
pub enum ArchiveStatus {
    Pending,
    Extracting,
    Completed,
    Failed,
}

impl ArchiveStatus {
    pub fn as_str(&self) -> (s: &'static str)
        ensures
            s@ == match self {
                ArchiveStatus::Pending => "pending"@,
                ArchiveStatus::Extracting => "extracting"@,
                ArchiveStatus::Completed => "completed"@,
                ArchiveStatus::Failed => "failed"@,
            },
    {
        match self {
            ArchiveStatus::Pending => "pending",
            ArchiveStatus::Extracting => "extracting",
            ArchiveStatus::Completed => "completed",
            ArchiveStatus::Failed => "failed",
        }
    }

    /// The status after extraction: a failed extraction is final; a
    /// successful one moves on to the import of what it gave.
    pub fn after_extraction(&self, succeeded: bool) -> (s: ArchiveStatus)
        requires
            *self == ArchiveStatus::Pending,
        ensures
            succeeded ==> s == ArchiveStatus::Extracting,
            !succeeded ==> s == ArchiveStatus::Failed,
    {
        if succeeded {
            ArchiveStatus::Extracting
        } else {
            ArchiveStatus::Failed
        }
    }
}

/// The folder an archive is unpacked into by the older pipeline: its name,
/// `_extracted_`, and a random version-4 UUID in hyphenated lower-case form.
pub fn extracted_folder_name(file_name: &str) -> (r: String)
    ensures
        exists|u: Seq<char>|
            #![trigger crate::paths::is_uuid_v4_text(u)]
            crate::paths::is_uuid_v4_text(u) && r@ == file_name@ + "_extracted_"@ + u,
{
    let u = crate::paths::new_uuid_v4_string();
    let mut r = String::new();
    push_str(&mut r, file_name);
    push_str(&mut r, "_extracted_");
    push_str(&mut r, u.as_str());
    assert(crate::paths::is_uuid_v4_text(u@) && r@ == file_name@ + "_extracted_"@ + u@);
    r
}

/// `s` with every backslash made a `/`.
pub open spec fn backslashes_to_slashes(s: Seq<char>) -> Seq<char> {
    s.map_values(|c: char| if c == '\\' { '/' } else { c })
}

/// The path a TAR entry is unpacked to, relative to the extraction folder:
/// a name containing `..` is refused; separators are made `/`.
pub fn tar_entry_path(entry_name: &str) -> (r: Result<String, String>)
    ensures
        seq_contains(entry_name@, ".."@) ==> (r matches Err(e) && e@ == "Unsafe path detected: "@
            + entry_name@),
        !seq_contains(entry_name@, ".."@) ==> (r matches Ok(p) && p@ == backslashes_to_slashes(
            entry_name@,
        )),
{
    if str_contains(entry_name, "..") {
        let mut e = String::new();
        push_str(&mut e, "Unsafe path detected: ");
        push_str(&mut e, entry_name);
        return Err(e);
    }
    let cs = chars_of(entry_name);
    let mut r = String::new();
    let mut i: usize = 0;
    while i < cs.len()
        invariant
            i <= cs.len(),
            cs@ == entry_name@,
            r@ == backslashes_to_slashes(cs@.take(i as int)),
        decreases cs.len() - i,
    {
        push_char(&mut r, if cs[i] == '\\' { '/' } else { cs[i] });
        i = i + 1;
        assert(r@ =~= backslashes_to_slashes(cs@.take(i as int)));
    }
    assert(cs@.take(cs.len() as int) =~= cs@);
    Ok(r)
}

/// The answer of a TAR extraction in the older pipeline: success when some
/// entry was unpacked or none failed; when all that were tried failed, the
/// first failure.
pub fn tar_extraction_outcome(success_count: usize, errors: &Vec<String>) -> (r: Result<(), String>)
    ensures
        (success_count > 0 || errors@.len() == 0) ==> r is Ok,
        (success_count == 0 && errors@.len() > 0) ==> (r matches Err(m) && m@
            == "All TAR entries failed to extract. First error: "@ + errors@[0]@),
{
    if success_count > 0 || errors.len() == 0 {
        Ok(())
    } else {
        let mut m = String::new();
        push_str(&mut m, "All TAR entries failed to extract. First error: ");
        push_str(&mut m, errors[0].as_str());
        Err(m)
    }
}

/// The switches of the import filter that decide whether it runs at all.
#[derive(Clone, Copy, Debug)]
pub struct FilterSwitches {
    pub enabled: bool,
    pub binary_detection_enabled: bool,
}

/// Whether the file filter has to look at a file: not when its settings
/// could not be loaded (every file is let through), nor when both of its
/// checks are off.
pub fn filter_applies(switches: &Result<FilterSwitches, String>) -> (r: bool)
    ensures
        r == filter_applies_spec(*switches),
{
    match switches {
        Ok(s) => s.enabled || s.binary_detection_enabled,
        Err(_) => false,
    }
}

/// Whether a file is imported, fail-safe: the filter's verdict when it gave
/// one, the file let through when the filter failed or does not apply.
pub fn should_import_file_defensive(switches: &Result<FilterSwitches, String>, verdict: &Result<bool, String>)
    -> (r: bool)
    ensures
        r == (!filter_applies_spec(*switches) || (*verdict matches Ok(b) && b) || *verdict is Err),
{
    if !filter_applies(switches) {
        return true;
    }
    match verdict {
        Ok(b) => *b,
        Err(_) => true,
    }
}

pub open spec fn filter_applies_spec(switches: Result<FilterSwitches, String>) -> bool {
    switches matches Ok(s) && (s.enabled || s.binary_detection_enabled)
}

/// Files and bytes imported since the last checkpoint was written.
pub struct CheckpointCounters {
    pub files_since_checkpoint: usize,
    pub bytes_since_checkpoint: u64,
}

impl CheckpointCounters {
    pub fn new() -> (c: Self)
        ensures
            c.files_since_checkpoint == 0,
            c.bytes_since_checkpoint == 0,
    {
        CheckpointCounters { files_since_checkpoint: 0, bytes_since_checkpoint: 0 }
    }

    /// One more file of `size` bytes was imported.
    pub fn record_file(&mut self, size: u64)
        requires
            old(self).files_since_checkpoint < usize::MAX,
            old(self).bytes_since_checkpoint + size <= u64::MAX,
        ensures
            final(self).files_since_checkpoint == old(self).files_since_checkpoint + 1,
            final(self).bytes_since_checkpoint == old(self).bytes_since_checkpoint + size,
    {
        self.files_since_checkpoint = self.files_since_checkpoint + 1;
        self.bytes_since_checkpoint = self.bytes_since_checkpoint + size;
    }

    /// A checkpoint was written: both counts start again.
    pub fn reset(&mut self)
        ensures
            final(self).files_since_checkpoint == 0,
            final(self).bytes_since_checkpoint == 0,
    {
        self.files_since_checkpoint = 0;
        self.bytes_since_checkpoint = 0;
    }
}

/// The SHA-256 digest of some bytes, in lower-case hexadecimal.
pub uninterp spec fn sha256_hex_of(bytes: Seq<u8>) -> Seq<char>;

/// `Sha256::digest`, written with `{:x}`: 32 bytes as 64 lower-case
/// hexadecimal digits.
#[verifier::external_body]
fn sha256_hex(bytes: &[u8]) -> (h: String)
    ensures
        h@ == sha256_hex_of(bytes@),
        h@.len() == 64,
        forall|i: int| 0 <= i < 64 ==> ('0' <= #[trigger] h@[i] <= '9' || 'a' <= h@[i] <= 'f'),
{
    format!("{:x}", <sha2::Sha256 as sha2::Digest>::digest(bytes))
}

/// The MIME type `mime_guess` gives a path by its extension, `text/plain`
/// when it knows none.
pub uninterp spec fn mime_guess_of(path: Seq<char>) -> Seq<char>;

/// `mime_guess::from_path(path).first_or_text_plain()`, as text. A path
/// without an extension has an empty guess, hence `text/plain`.
#[verifier::external_body]
fn guess_mime(path: &str) -> (m: String)
    ensures
        m@ == mime_guess_of(path@),
        path_extension_of(path@) is None ==> m@ == "text/plain"@,
{
    mime_guess::from_path(path).first_or_text_plain().to_string()
}

/// What is recorded of a file imported from a folder.
pub struct ImportedFile {
    pub sha256_hash: String,
    pub virtual_path: String,
    pub original_name: String,
    pub size: i64,
    pub modified_time: i64,
    pub mime_type: Option<String>,
    pub parent_archive_id: Option<i64>,
    pub depth_level: i32,
}

/// The record of a file read from a folder being imported: its content's
/// hash, its path below the source folder (its whole path when it is not
/// below it), its file name (`unknown` when it has none), its size, the
/// import time `now_secs`, and the MIME type guessed from its name.
pub fn imported_file_record(source_root: &str, path: &str, content: &[u8], now_secs: i64) -> (r: ImportedFile)
    requires
        content@.len() <= i64::MAX,
    ensures
        r.sha256_hash@ == sha256_hex_of(content@),
        crate::paths::is_sha256_hex(r.sha256_hash@),
        r.virtual_path@ == match path_strip_prefix_of(path@, source_root@) {
            Some(rel) => rel,
            None => path@,
        },
        r.original_name@ == match crate::pathname::path_file_name_of(path@) {
            Some(n) => n,
            None => "unknown"@,
        },
        r.size == content@.len(),
        r.modified_time == now_secs,
        r.mime_type matches Some(m) && m@ == mime_guess_of(path@),
        r.parent_archive_id is None,
        r.depth_level == 0,
{
    let hash = sha256_hex(content);
    let virtual_path = match path_strip_prefix(path, source_root) {
        Some(rel) => rel,
        None => path.to_string(),
    };
    let original_name = match crate::pathname::path_file_name(path) {
        Some(n) => n,
        None => "unknown".to_string(),
    };
    ImportedFile {
        sha256_hash: hash,
        virtual_path,
        original_name,
        size: content.len() as i64,
        modified_time: now_secs,
        mime_type: Some(guess_mime(path)),
        parent_archive_id: None,
        depth_level: 0,
    }
}

} // verus!
