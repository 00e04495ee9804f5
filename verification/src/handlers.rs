//! Archive formats: which handler takes a file, which entries an extraction
//! admits under its limits, how entry paths are screened, and what a read of
//! one entry gives back.
use vstd::prelude::*;
use crate::errors::AppError;
use crate::pathname::{
    opt_view, parts_view, path_components, path_components_of, path_extension, path_extension_of,
    PathPart, PathPartView,
    path_file_name, path_file_name_of, path_file_stem, path_file_stem_of, path_is_absolute,
    path_is_absolute_of,
};
use crate::text::{
    ascii_lower, decimal, eq_ignore_ascii_case, push_decimal, push_str, seq_contains, str_contains,
    str_eq, str_ends_with, seq_ends_with, to_lowercase, unicode_lowercase,
};

verus! {

/// The extension `ext` (if any) is `wanted`, ASCII case ignored.
pub open spec fn extension_is(ext: Option<Seq<char>>, wanted: Seq<char>) -> bool {
    match ext {
        Some(e) => ascii_lower(e) == ascii_lower(wanted),
        None => false,
    }
}

/// Whether an extension, as `Path::extension` gave it, is `wanted` with ASCII
/// case ignored.
pub fn has_extension(ext: &Option<String>, wanted: &str) -> (r: bool)
    ensures
        r == extension_is(opt_view(*ext), wanted@),
{
    match ext {
        Some(e) => eq_ignore_ascii_case(e.as_str(), wanted),
        None => false,
    }
}

/// ZIP archives.
pub struct ZipHandler {}

/// TAR archives, plain or gzip-compressed.
pub struct TarHandler {}

/// RAR archives; this build reads none.
pub struct RarHandler;

/// 7z archives.
pub struct SevenZHandler {}

impl ZipHandler {
    pub fn handler_name(&self) -> (n: &'static str)
        ensures
            n@ == "ZipHandler"@,
    {
        "ZipHandler"
    }

    pub fn supported_formats(&self) -> (v: Vec<&'static str>)
        ensures
            v@.len() == 1,
            v@[0]@ == "zip"@,
    {
        let mut v: Vec<&'static str> = Vec::new();
        v.push("zip");
        v
    }

    /// A file is a ZIP archive by its extension `zip`, in any ASCII case.
    pub fn can_handle(&self, path: &str) -> (r: bool)
        ensures
            r == extension_is(path_extension_of(path@), "zip"@),
    {
        has_extension(&path_extension(path), "zip")
    }

    pub fn file_extensions(&self) -> (v: Vec<&'static str>)
        ensures
            v@.len() == 1,
            v@[0]@ == "zip"@,
    {
        let mut v: Vec<&'static str> = Vec::new();
        v.push("zip");
        v
    }
}

impl RarHandler {
    /// A file is a RAR archive by its extension `rar`, in any ASCII case.
    pub fn can_handle(&self, path: &str) -> (r: bool)
        ensures
            r == extension_is(path_extension_of(path@), "rar"@),
    {
        has_extension(&path_extension(path), "rar")
    }

    pub fn file_extensions(&self) -> (v: Vec<&'static str>)
        ensures
            v@.len() == 1,
            v@[0]@ == "rar"@,
    {
        let mut v: Vec<&'static str> = Vec::new();
        v.push("rar");
        v
    }

    /// RAR extraction is not part of this build: every request is refused.
    pub fn extract_with_limits(&self, limits: ExtractionLimits) -> (r: Result<ArchiveExtractionSummary, AppError>)
        ensures
            r matches Err(AppError::Archive { message, path }) && message@
                == "RAR support is not enabled. Enable the 'rar-support' feature to extract RAR files."@
                && path is None,
    {
        Err(AppError::archive_error(
            "RAR support is not enabled. Enable the 'rar-support' feature to extract RAR files.",
            None,
        ))
    }
}

impl SevenZHandler {
    /// A file is a 7z archive by its extension `7z`, in any ASCII case.
    pub fn can_handle(&self, path: &str) -> (r: bool)
        ensures
            r == extension_is(path_extension_of(path@), "7z"@),
    {
        has_extension(&path_extension(path), "7z")
    }

    pub fn file_extensions(&self) -> (v: Vec<&'static str>)
        ensures
            v@.len() == 1,
            v@[0]@ == "7z"@,
    {
        let mut v: Vec<&'static str> = Vec::new();
        v.push("7z");
        v
    }
}

/// The TAR rule on a path's extension and stem: `tar` or `tgz` in any case,
/// or `gz` after a stem that ends in `.tar` (case as `to_lowercase` folds it).
pub open spec fn tar_by_name(ext: Option<Seq<char>>, stem: Option<Seq<char>>) -> bool {
    match ext {
        Some(e) => {
            let l = unicode_lowercase(e);
            l == "tar"@ || l == "tgz"@ || (l == "gz"@ && match stem {
                Some(s) => seq_ends_with(unicode_lowercase(s), ".tar"@),
                None => false,
            })
        },
        None => false,
    }
}

impl TarHandler {
    /// Whether a path names a TAR archive, from its extension and stem as
    /// `Path` gives them.
    pub fn is_tar_name(ext: &Option<String>, stem: &Option<String>) -> (r: bool)
        ensures
            r == tar_by_name(opt_view(*ext), opt_view(*stem)),
    {
        match ext {
            Some(e) => {
                let l = to_lowercase(e.as_str());
                if str_eq(l.as_str(), "tar") || str_eq(l.as_str(), "tgz") {
                    return true;
                }
                if str_eq(l.as_str(), "gz") {
                    match stem {
                        Some(s) => {
                            let ls = to_lowercase(s.as_str());
                            return str_ends_with(ls.as_str(), ".tar");
                        },
                        None => {
                            return false;
                        },
                    }
                }
                false
            },
            None => false,
        }
    }

    pub fn can_handle(&self, path: &str) -> (r: bool)
        ensures
            r == tar_by_name(path_extension_of(path@), path_file_stem_of(path@)),
    {
        let ext = path_extension(path);
        let stem = path_file_stem(path);
        Self::is_tar_name(&ext, &stem)
    }

    pub fn file_extensions(&self) -> (v: Vec<&'static str>)
        ensures
            v@.len() == 3,
            v@[0]@ == "tar"@,
            v@[1]@ == "tar.gz"@,
            v@[2]@ == "tgz"@,
    {
        let mut v: Vec<&'static str> = Vec::new();
        v.push("tar");
        v.push("tar.gz");
        v.push("tgz");
        v
    }

    /// A TAR file is read through gzip when its extension is `gz` or `tgz`,
    /// in any ASCII case.
    pub fn is_gzipped(path: &str) -> (r: bool)
        ensures
            r == (extension_is(path_extension_of(path@), "gz"@) || extension_is(
                path_extension_of(path@),
                "tgz"@,
            )),
    {
        let ext = path_extension(path);
        has_extension(&ext, "gz") || has_extension(&ext, "tgz")
    }
}

/// The limits an extraction works under.
#[derive(Clone, Copy, Debug)]
pub struct ExtractionLimits {
    pub max_file_size: u64,
    pub max_total_size: u64,
    pub max_file_count: usize,
}

/// What an extraction has done so far.
pub struct ArchiveExtractionSummary {
    pub files_extracted: usize,
    pub total_size: u64,
    pub errors: Vec<String>,
    pub extracted_files: Vec<String>,
}

/// The limits hold of what has been extracted.
pub open spec fn within_limits(files: nat, total: nat, limits: ExtractionLimits) -> bool {
    files <= limits.max_file_count && total <= limits.max_total_size
}

/// An entry of `size` bytes would break a limit: it is larger than one file
/// may be, or would take the total or the count past theirs.
pub open spec fn exceeds_limits(size: nat, files: nat, total: nat, limits: ExtractionLimits) -> bool {
    size > limits.max_file_size || total + size > limits.max_total_size || files + 1
        > limits.max_file_count
}

impl ArchiveExtractionSummary {
    pub fn new() -> (s: Self)
        ensures
            s.files_extracted == 0,
            s.total_size == 0,
            s.errors@.len() == 0,
            s.extracted_files@.len() == 0,
    {
        ArchiveExtractionSummary {
            files_extracted: 0,
            total_size: 0,
            errors: Vec::new(),
            extracted_files: Vec::new(),
        }
    }

    /// Records an extracted file.
    pub fn add_file(&mut self, path: String, size: u64)
        requires
            old(self).files_extracted < usize::MAX,
            old(self).total_size + size <= u64::MAX,
        ensures
            final(self).files_extracted == old(self).files_extracted + 1,
            final(self).total_size == old(self).total_size + size,
            final(self).extracted_files@ == old(self).extracted_files@.push(path),
            final(self).errors@ == old(self).errors@,
    {
        self.files_extracted = self.files_extracted + 1;
        self.total_size = self.total_size + size;
        self.extracted_files.push(path);
    }

    /// Records a problem with an entry.
    pub fn add_error(&mut self, message: String)
        ensures
            final(self).errors@ == old(self).errors@.push(message),
            final(self).files_extracted == old(self).files_extracted,
            final(self).total_size == old(self).total_size,
            final(self).extracted_files@ == old(self).extracted_files@,
    {
        self.errors.push(message);
    }

    /// Whether an entry of `size` bytes would break one of the limits.
    pub fn would_exceed_limits(&self, size: u64, limits: &ExtractionLimits) -> (r: bool)
        ensures
            r == exceeds_limits(size as nat, self.files_extracted as nat, self.total_size as nat, *limits),
    {
        size > limits.max_file_size || (self.total_size as u128) + (size as u128)
            > limits.max_total_size as u128 || (self.files_extracted as u128) + 1
            > limits.max_file_count as u128
    }

    /// Takes a file of `size` bytes into the summary unless it would break a
    /// limit; says whether it was taken.
    pub fn admit_file(&mut self, path: String, size: u64, limits: &ExtractionLimits) -> (taken: bool)
        ensures
            taken == !exceeds_limits(
                size as nat,
                old(self).files_extracted as nat,
                old(self).total_size as nat,
                *limits,
            ),
            taken ==> final(self).files_extracted == old(self).files_extracted + 1
                && final(self).total_size == old(self).total_size + size
                && final(self).extracted_files@ == old(self).extracted_files@.push(path),
            !taken ==> final(self).files_extracted == old(self).files_extracted
                && final(self).total_size == old(self).total_size
                && final(self).extracted_files@ == old(self).extracted_files@,
            final(self).errors@ == old(self).errors@,
    {
        if self.would_exceed_limits(size, limits) {
            false
        } else {
            self.add_file(path, size);
            true
        }
    }
}

/// An extraction that only takes what its limits admit stays within them,
/// and no extracted file is larger than one file may be.
pub proof fn law_admitted_files_stay_within_limits(
    files: nat,
    total: nat,
    size: nat,
    limits: ExtractionLimits,
)
    requires
        within_limits(files, total, limits),
    ensures
        !exceeds_limits(size, files, total, limits) ==> within_limits(files + 1, total + size, limits)
            && size <= limits.max_file_size,
        exceeds_limits(size, files, total, limits) ==> within_limits(files, total, limits),
{
}

/// What an extraction may write where.
#[derive(Clone, Debug)]
pub struct SecurityConfig {
    pub allow_absolute_paths: bool,
    pub allow_parent_traversal: bool,
    /// Entry paths that contain any of these are refused.
    pub path_blacklist: Vec<String>,
}

/// Why an entry path was refused.
#[derive(Debug)]
pub enum PathViolation {
    AbsolutePathNotAllowed { path: String },
    ParentTraversalNotAllowed { path: String },
    PathBlacklisted { path: String },
}

/// Net depth of a list of path components: a name goes one level down, `..`
/// one level up; a prefix, the root and `.` stay.
pub open spec fn component_depth(cs: Seq<PathPartView>) -> int
    decreases cs.len(),
{
    if cs.len() == 0 {
        0
    } else {
        component_depth(cs.drop_last()) + match cs.last() {
            PathPartView::Parent => -1int,
            PathPartView::Normal(_) => 1int,
            _ => 0int,
        }
    }
}

/// Some prefix of the components climbs above where the path starts.
pub open spec fn climbs_above_start(cs: Seq<PathPartView>) -> bool {
    exists|k: int| 1 <= k <= cs.len() && component_depth(#[trigger] cs.take(k)) < 0
}

/// Some blacklisted text occurs in the path.
pub open spec fn blacklisted(path: Seq<char>, list: Seq<String>) -> bool {
    exists|i: int| 0 <= i < list.len() && seq_contains(path, #[trigger] list[i]@)
}

/// The outcome of screening an entry path.
pub open spec fn path_screen(path: Seq<char>, config: SecurityConfig) -> Option<int> {
    if !config.allow_absolute_paths && path_is_absolute_of(path) {
        Some(0)
    } else if !config.allow_parent_traversal && climbs_above_start(path_components_of(path)) {
        Some(1)
    } else if blacklisted(path, config.path_blacklist@) {
        Some(2)
    } else {
        None
    }
}

impl ZipHandler {
    /// Screens an entry path: an absolute path (unless allowed), one that
    /// climbs above the extraction directory (unless allowed), or one that
    /// contains blacklisted text is refused, in that order.
    pub fn validate_path_static(path: &str, config: &SecurityConfig) -> (r: Result<(), PathViolation>)
        ensures
            path_screen(path@, *config) is None <==> r is Ok,
            path_screen(path@, *config) == Some(0int) <==> (r matches Err(
                PathViolation::AbsolutePathNotAllowed { path: p },
            ) && p@ == path@),
            path_screen(path@, *config) == Some(1int) <==> (r matches Err(
                PathViolation::ParentTraversalNotAllowed { path: p },
            ) && p@ == path@),
            path_screen(path@, *config) == Some(2int) <==> (r matches Err(
                PathViolation::PathBlacklisted { path: p },
            ) && p@ == path@),
    {
        if !config.allow_absolute_paths && path_is_absolute(path) {
            return Err(PathViolation::AbsolutePathNotAllowed { path: path.to_string() });
        }
        if !config.allow_parent_traversal {
            let cs = path_components(path);
            let ghost csv = parts_view(cs@);
            let mut depth: i128 = 0;
            let mut i: usize = 0;
            while i < cs.len()
                invariant
                    i <= cs.len(),
                    csv == parts_view(cs@),
                    csv == path_components_of(path@),
                    !config.allow_parent_traversal,
                    !(!config.allow_absolute_paths && path_is_absolute_of(path@)),
                    depth == component_depth(csv.take(i as int)),
                    -(i as int) <= depth <= i,
                    forall|k: int| 1 <= k <= i ==> component_depth(#[trigger] csv.take(k)) >= 0,
                decreases cs.len() - i,
            {
                assert(csv.take((i + 1) as int).drop_last() =~= csv.take(i as int));
                assert(csv.take((i + 1) as int).last() == cs@[i as int]@);
                match &cs[i] {
                    PathPart::Parent => {
                        depth = depth - 1;
                        if depth < 0 {
                            assert(component_depth(csv.take((i + 1) as int)) < 0);
                            return Err(
                                PathViolation::ParentTraversalNotAllowed { path: path.to_string() },
                            );
                        }
                    },
                    PathPart::Normal(_) => {
                        depth = depth + 1;
                    },
                    _ => {},
                }
                i = i + 1;
            }
            assert(csv.len() == cs.len());
            assert(!climbs_above_start(csv));
        }
        let mut j: usize = 0;
        while j < config.path_blacklist.len()
            invariant
                j <= config.path_blacklist.len(),
                !(!config.allow_absolute_paths && path_is_absolute_of(path@)),
                !(!config.allow_parent_traversal && climbs_above_start(path_components_of(path@))),
                forall|k: int| 0 <= k < j ==> !seq_contains(path@, #[trigger] config.path_blacklist@[k]@),
            decreases config.path_blacklist.len() - j,
        {
            if str_contains(path, config.path_blacklist[j].as_str()) {
                return Err(PathViolation::PathBlacklisted { path: path.to_string() });
            }
            j = j + 1;
        }
        Ok(())
    }
}

/// An entry of an archive listing.
#[derive(Clone, Debug)]
pub struct ArchiveEntry {
    pub name: String,
    pub path: String,
    pub is_dir: bool,
    pub size: u64,
    pub compressed_size: u64,
}

/// What reading one TAR header gave.
pub enum TarEntryRead {
    /// The entry could not be read.
    Unreadable,
    /// The entry's path (`None` when it could not be decoded), whether it is
    /// a directory, and its size when the header states one.
    Read { path: Option<String>, is_dir: bool, size: Option<u64> },
}

/// An entry as (name, path, is_dir, size, compressed size).
pub open spec fn entry_view(e: ArchiveEntry) -> (Seq<char>, Seq<char>, bool, u64, u64) {
    (e.name@, e.path@, e.is_dir, e.size, e.compressed_size)
}

pub open spec fn entries_view(v: Seq<ArchiveEntry>) -> Seq<(Seq<char>, Seq<char>, bool, u64, u64)> {
    v.map_values(|e: ArchiveEntry| entry_view(e))
}

/// The listing made of TAR headers: unreadable entries and undecodable paths
/// are left out; an entry is named by its file name, or by its whole path
/// when it has none; a missing size counts as zero; TAR stores no compressed
/// size, so the size stands for it.
pub open spec fn tar_listing(raws: Seq<TarEntryRead>) -> Seq<(Seq<char>, Seq<char>, bool, u64, u64)>
    decreases raws.len(),
{
    if raws.len() == 0 {
        Seq::empty()
    } else {
        let rest = tar_listing(raws.drop_last());
        match raws.last() {
            TarEntryRead::Read { path: Some(p), is_dir, size } => {
                let n = match path_file_name_of(p@) {
                    Some(f) => f,
                    None => p@,
                };
                let sz = match size {
                    Some(x) => x,
                    None => 0u64,
                };
                rest.push((n, p@, is_dir, sz, sz))
            },
            _ => rest,
        }
    }
}

/// The text that ends a truncated read, with the full size of the entry.
pub open spec fn truncation_notice(size: nat) -> Seq<char> {
    "\n\n[文件过大，已截断显示. 完整大小: "@ + decimal(size) + " bytes]"@
}

/// Content shown for an entry that was cut at the read limit.
pub fn with_truncation_notice(content: String, size: u64) -> (r: String)
    ensures
        r@ == content@ + truncation_notice(size as nat),
{
    let mut r = content;
    push_str(&mut r, "\n\n[文件过大，已截断显示. 完整大小: ");
    push_decimal(&mut r, size);
    push_str(&mut r, " bytes]");
    r
}

/// How much of an entry of `size` bytes a read takes: all of it up to
/// `max_size`, else the first `max_size` bytes (`Some`).
pub fn read_limit(size: u64, max_size: u64) -> (r: Option<u64>)
    ensures
        size > max_size ==> r == Some(max_size),
        size <= max_size ==> r is None,
{
    if size > max_size {
        Some(max_size)
    } else {
        None
    }
}

impl TarHandler {
    /// Lists the entries of a TAR archive from its headers; a failure to
    /// read the header list at all is an archive error.
    pub fn list_contents_sync(
        headers: Result<Vec<TarEntryRead>, String>,
        entries: &mut Vec<ArchiveEntry>,
    ) -> (r: Result<(), AppError>)
        ensures
            headers is Err ==> (r matches Err(AppError::Archive { message, path }) && message@
                == headers->Err_0@ && path is None) && final(entries)@ == old(entries)@,
            headers is Ok ==> r is Ok && entries_view(final(entries)@) == entries_view(
                old(entries)@,
            ) + tar_listing(headers->Ok_0@),
    {
        let raws = match headers {
            Ok(v) => v,
            Err(e) => {
                return Err(AppError::Archive { message: e, path: None });
            },
        };
        let ghost start = entries_view(entries@);
        let mut i: usize = 0;
        while i < raws.len()
            invariant
                i <= raws.len(),
                entries_view(entries@) == start + tar_listing(raws@.take(i as int)),
            decreases raws.len() - i,
        {
            assert(raws@.take((i + 1) as int).drop_last() =~= raws@.take(i as int));
            assert(raws@.take((i + 1) as int).last() == raws@[i as int]);
            match &raws[i] {
                TarEntryRead::Read { path: Some(p), is_dir, size } => {
                    let name = match path_file_name(p.as_str()) {
                        Some(f) => f,
                        None => p.as_str().to_string(),
                    };
                    let sz = match size {
                        Some(x) => *x,
                        None => 0u64,
                    };
                    let e = ArchiveEntry {
                        name,
                        path: p.as_str().to_string(),
                        is_dir: *is_dir,
                        size: sz,
                        compressed_size: sz,
                    };
                    let ghost before = entries@;
                    let ghost ev = entry_view(e);
                    assert(ev.0 == match path_file_name_of(p@) {
                        Some(f) => f,
                        None => p@,
                    });
                    assert(ev.1 == p@);
                    entries.push(e);
                    assert(entries_view(entries@) =~= entries_view(before).push(ev));
                    assert(tar_listing(raws@.take((i + 1) as int)) == tar_listing(raws@.take(i as int)).push(ev));
                    assert(entries_view(entries@) =~= start + tar_listing(raws@.take((i + 1) as int)));
                },
                TarEntryRead::Read { path: None, .. } => {
                    assert(entries_view(entries@) =~= start + tar_listing(raws@.take((i + 1) as int)));
                },
                TarEntryRead::Unreadable => {
                    assert(entries_view(entries@) =~= start + tar_listing(raws@.take((i + 1) as int)));
                },
            }
            i = i + 1;
        }
        assert(raws@.take(raws.len() as int) =~= raws@);
        Ok(())
    }

    /// A TAR entry is the one asked for when its whole path, or its file
    /// name, equals the name asked for.
    pub fn entry_matches(path: &str, wanted: &str) -> (r: bool)
        ensures
            r == (path@ == wanted@ || path_file_name_of(path@) == Some(wanted@)),
    {
        if str_eq(path, wanted) {
            return true;
        }
        match path_file_name(path) {
            Some(f) => str_eq(f.as_str(), wanted),
            None => false,
        }
    }

    /// The answer when no entry matched.
    pub fn not_found(file_name: &str) -> (e: AppError)
        ensures
            e matches AppError::Archive { message, path } && message@ == "File not found in archive: "@
                + file_name@ && path is None,
    {
        let mut m = String::new();
        push_str(&mut m, "File not found in archive: ");
        push_str(&mut m, file_name);
        AppError::Archive { message: m, path: None }
    }
}

/// What reading one ZIP entry's header gave.
pub enum ZipEntryRead {
    /// The entry could not be read.
    Unreadable,
    /// The entry's name in the archive, whether it is a directory, and its
    /// sizes.
    Read { name: String, is_dir: bool, size: u64, compressed_size: u64 },
}

/// The listing made of ZIP entries: unreadable entries are left out; an
/// entry is named by the file name of its path, or by nothing when its path
/// has none.
pub open spec fn zip_listing(raws: Seq<ZipEntryRead>) -> Seq<(Seq<char>, Seq<char>, bool, u64, u64)>
    decreases raws.len(),
{
    if raws.len() == 0 {
        Seq::empty()
    } else {
        let rest = zip_listing(raws.drop_last());
        match raws.last() {
            ZipEntryRead::Read { name, is_dir, size, compressed_size } => {
                let n = match path_file_name_of(name@) {
                    Some(f) => f,
                    None => Seq::empty(),
                };
                rest.push((n, name@, is_dir, size, compressed_size))
            },
            ZipEntryRead::Unreadable => rest,
        }
    }
}

/// What an extraction does with a ZIP entry.
pub enum ZipEntryStep {
    /// Its path was refused; the caller records why.
    Refused(PathViolation),
    /// It would break a limit; it is skipped, and the summary says so.
    OverLimits,
    /// A directory to create.
    MakeDir,
    /// A file to write, then to record in the summary.
    Extract,
}

/// The note recorded for an entry skipped by the limits.
pub open spec fn limits_note(name: Seq<char>) -> Seq<char> {
    "File skipped (limits exceeded): "@ + name
}

/// Where a ZIP entry failed.
#[derive(PartialEq, Eq, Structural, Clone, Copy, Debug)]
pub enum ZipFailure {
    /// The entry at an index could not be read.
    Entry,
    /// The output file could not be created.
    Creation,
    /// The entry's bytes could not be copied out.
    Extraction,
}

pub open spec fn failure_note(stage: ZipFailure, subject: Seq<char>, reason: Seq<char>) -> Seq<char> {
    match stage {
        ZipFailure::Entry => "Entry "@ + subject + ": "@ + reason,
        ZipFailure::Creation => "File creation failed for "@ + subject + ": "@ + reason,
        ZipFailure::Extraction => "Extraction failed for "@ + subject + ": "@ + reason,
    }
}

impl ZipHandler {
    /// Lists the entries of a ZIP archive from their headers.
    pub fn list_entries(raws: &Vec<ZipEntryRead>) -> (entries: Vec<ArchiveEntry>)
        ensures
            entries_view(entries@) == zip_listing(raws@),
    {
        let mut entries: Vec<ArchiveEntry> = Vec::new();
        let mut i: usize = 0;
        while i < raws.len()
            invariant
                i <= raws.len(),
                entries_view(entries@) == zip_listing(raws@.take(i as int)),
            decreases raws.len() - i,
        {
            assert(raws@.take((i + 1) as int).drop_last() =~= raws@.take(i as int));
            assert(raws@.take((i + 1) as int).last() == raws@[i as int]);
            match &raws[i] {
                ZipEntryRead::Read { name, is_dir, size, compressed_size } => {
                    let file_name = match path_file_name(name.as_str()) {
                        Some(f) => f,
                        None => String::new(),
                    };
                    let e = ArchiveEntry {
                        name: file_name,
                        path: name.as_str().to_string(),
                        is_dir: *is_dir,
                        size: *size,
                        compressed_size: *compressed_size,
                    };
                    let ghost before = entries@;
                    entries.push(e);
                    assert(entries_view(entries@) =~= entries_view(before).push(entry_view(e)));
                    assert(entries_view(entries@) =~= zip_listing(raws@.take((i + 1) as int)));
                },
                ZipEntryRead::Unreadable => {
                    assert(entries_view(entries@) =~= zip_listing(raws@.take((i + 1) as int)));
                },
            }
            i = i + 1;
        }
        assert(raws@.take(raws.len() as int) =~= raws@);
        entries
    }

    /// Decides what an extraction does with an entry: its path is screened
    /// first, then the limits are checked against what was extracted so far
    /// (an entry over them is noted and skipped), then a directory is made or
    /// a file written.
    pub fn entry_step(
        summary: &mut ArchiveExtractionSummary,
        name: &str,
        size: u64,
        is_dir: bool,
        config: &SecurityConfig,
        limits: &ExtractionLimits,
    ) -> (step: ZipEntryStep)
        ensures
            path_screen(name@, *config) is Some ==> (step matches ZipEntryStep::Refused(v) && (
            path_screen(name@, *config) == Some(0int) <==> v is AbsolutePathNotAllowed) && (path_screen(
                name@,
                *config,
            ) == Some(1int) <==> v is ParentTraversalNotAllowed)),
            path_screen(name@, *config) is None && exceeds_limits(
                size as nat,
                old(summary).files_extracted as nat,
                old(summary).total_size as nat,
                *limits,
            ) ==> step is OverLimits && final(summary).errors@.map_values(|e: String| e@)
                == old(summary).errors@.map_values(|e: String| e@).push(limits_note(name@)),
            path_screen(name@, *config) is None && !exceeds_limits(
                size as nat,
                old(summary).files_extracted as nat,
                old(summary).total_size as nat,
                *limits,
            ) ==> (if is_dir { step is MakeDir } else { step is Extract }),
            !(step is OverLimits) ==> final(summary).errors@ == old(summary).errors@,
            final(summary).files_extracted == old(summary).files_extracted,
            final(summary).total_size == old(summary).total_size,
            final(summary).extracted_files@ == old(summary).extracted_files@,
    {
        match ZipHandler::validate_path_static(name, config) {
            Err(v) => {
                return ZipEntryStep::Refused(v);
            },
            Ok(()) => {},
        }
        if summary.would_exceed_limits(size, limits) {
            let mut m = String::new();
            push_str(&mut m, "File skipped (limits exceeded): ");
            push_str(&mut m, name);
            let ghost before = summary.errors@;
            summary.add_error(m);
            assert(summary.errors@.map_values(|e: String| e@) =~= before.map_values(|e: String| e@).push(
                limits_note(name@),
            ));
            return ZipEntryStep::OverLimits;
        }
        if is_dir {
            ZipEntryStep::MakeDir
        } else {
            ZipEntryStep::Extract
        }
    }

    /// The note recorded when an entry fails at `stage`.
    pub fn failure_message(stage: ZipFailure, subject: &str, reason: &str) -> (m: String)
        ensures
            m@ == failure_note(stage, subject@, reason@),
    {
        let mut m = String::new();
        match stage {
            ZipFailure::Entry => push_str(&mut m, "Entry "),
            ZipFailure::Creation => push_str(&mut m, "File creation failed for "),
            ZipFailure::Extraction => push_str(&mut m, "Extraction failed for "),
        }
        push_str(&mut m, subject);
        push_str(&mut m, ": ");
        push_str(&mut m, reason);
        m
    }
}

/// A 7z entry as the reader reports it.
pub struct SevenZEntry {
    pub name: String,
    pub is_dir: bool,
    pub size: u64,
}

/// The listing of a 7z archive: an entry is named by the file name of its
/// path, or by its whole path when it has none; 7z gives no compressed size,
/// so the size stands for it.
pub open spec fn sevenz_listing(raws: Seq<SevenZEntry>) -> Seq<(Seq<char>, Seq<char>, bool, u64, u64)> {
    raws.map_values(
        |e: SevenZEntry|
            (
                match path_file_name_of(e.name@) {
                    Some(f) => f,
                    None => e.name@,
                },
                e.name@,
                e.is_dir,
                e.size,
                e.size,
            ),
    )
}

/// The entry a read asks for: of those whose whole path or file name is the
/// name asked for, the last one met.
pub open spec fn last_match_from(raws: Seq<SevenZEntry>, wanted: Seq<char>, n: int) -> Option<int>
    decreases n,
{
    if n <= 0 {
        None
    } else if raws[n - 1].name@ == wanted || path_file_name_of(raws[n - 1].name@) == Some(wanted) {
        Some(n - 1)
    } else {
        last_match_from(raws, wanted, n - 1)
    }
}

impl SevenZHandler {
    /// Lists the entries of a 7z archive.
    pub fn list_entries(raws: &Vec<SevenZEntry>) -> (entries: Vec<ArchiveEntry>)
        ensures
            entries_view(entries@) == sevenz_listing(raws@),
    {
        let mut entries: Vec<ArchiveEntry> = Vec::new();
        let mut i: usize = 0;
        while i < raws.len()
            invariant
                i <= raws.len(),
                entries_view(entries@) == sevenz_listing(raws@.take(i as int)),
            decreases raws.len() - i,
        {
            let r = &raws[i];
            let name = match path_file_name(r.name.as_str()) {
                Some(f) => f,
                None => r.name.as_str().to_string(),
            };
            let e = ArchiveEntry {
                name,
                path: r.name.as_str().to_string(),
                is_dir: r.is_dir,
                size: r.size,
                compressed_size: r.size,
            };
            let ghost before = entries@;
            entries.push(e);
            assert(raws@.take((i + 1) as int) =~= raws@.take(i as int).push(raws@[i as int]));
            assert(entries_view(entries@) =~= entries_view(before).push(entry_view(e)));
            assert(entries_view(entries@) =~= sevenz_listing(raws@.take((i + 1) as int)));
            i = i + 1;
        }
        assert(raws@.take(raws.len() as int) =~= raws@);
        entries
    }

    /// Finds the entry a read asks for and gives its path and size: the last
    /// entry whose path or file name matches. None matching is an archive
    /// error; an empty entry whose path ends in `/` is a directory and cannot
    /// be read.
    pub fn locate_entry(raws: &Vec<SevenZEntry>, file_name: &str) -> (r: Result<(String, u64), AppError>)
        ensures
            match last_match_from(raws@, file_name@, raws@.len() as int) {
                None => r matches Err(AppError::Archive { message, path }) && message@
                    == "File not found in archive: "@ + file_name@ && path is None,
                Some(k) => if raws@[k].size == 0 && seq_ends_with(raws@[k].name@, "/"@) {
                    r matches Err(AppError::Archive { message, path }) && message@ == "Cannot read directory"@
                        && path is None
                } else {
                    r matches Ok((n, sz)) && n@ == raws@[k].name@ && sz == raws@[k].size
                },
            },
    {
        let mut i: usize = raws.len();
        while i > 0
            invariant
                i <= raws.len(),
                last_match_from(raws@, file_name@, raws@.len() as int) == last_match_from(
                    raws@,
                    file_name@,
                    i as int,
                ),
            decreases i,
        {
            if TarHandler::entry_matches(raws[i - 1].name.as_str(), file_name) {
                let e = &raws[i - 1];
                if e.size == 0 && str_ends_with(e.name.as_str(), "/") {
                    return Err(AppError::Archive { message: "Cannot read directory".to_string(), path: None });
                }
                return Ok((e.name.as_str().to_string(), e.size));
            }
            i = i - 1;
        }
        let mut m = String::new();
        push_str(&mut m, "File not found in archive: ");
        push_str(&mut m, file_name);
        Err(AppError::Archive { message: m, path: None })
    }
}

/// What a TAR or 7z extraction does with an entry whose path was accepted.
#[derive(PartialEq, Eq, Structural, Clone, Copy, Debug)]
pub enum EntryStep {
    /// Leave it out.
    Skip,
    /// Create the directory.
    MakeDir,
    /// Write the file, then record it in the summary.
    Extract,
}

impl TarHandler {
    /// A regular file is extracted unless it would break a limit; a
    /// directory is created; anything else is left out.
    pub fn entry_step(summary: &ArchiveExtractionSummary, size: u64, is_file: bool, is_dir: bool, limits: &ExtractionLimits)
        -> (step: EntryStep)
        ensures
            is_file ==> step == if exceeds_limits(
                size as nat,
                summary.files_extracted as nat,
                summary.total_size as nat,
                *limits,
            ) {
                EntryStep::Skip
            } else {
                EntryStep::Extract
            },
            !is_file && is_dir ==> step == EntryStep::MakeDir,
            !is_file && !is_dir ==> step == EntryStep::Skip,
    {
        if is_file {
            if summary.would_exceed_limits(size, limits) {
                EntryStep::Skip
            } else {
                EntryStep::Extract
            }
        } else if is_dir {
            EntryStep::MakeDir
        } else {
            EntryStep::Skip
        }
    }
}

impl SevenZHandler {
    /// A directory is created whatever the limits; a file is extracted
    /// unless it would break one.
    pub fn entry_step(summary: &ArchiveExtractionSummary, size: u64, is_dir: bool, limits: &ExtractionLimits)
        -> (step: EntryStep)
        ensures
            is_dir ==> step == EntryStep::MakeDir,
            !is_dir ==> step == if exceeds_limits(
                size as nat,
                summary.files_extracted as nat,
                summary.total_size as nat,
                *limits,
            ) {
                EntryStep::Skip
            } else {
                EntryStep::Extract
            },
    {
        if is_dir {
            EntryStep::MakeDir
        } else if summary.would_exceed_limits(size, limits) {
            EntryStep::Skip
        } else {
            EntryStep::Extract
        }
    }
}

/// Which entry of a TAR archive a read takes, and how much of it.
pub struct TarReadPlan {
    /// Position of the entry among the headers.
    pub index: usize,
    /// Its size as the header states it (zero when it states none).
    pub size: u64,
    /// The number of bytes to read when the entry is cut, else `None`.
    pub limit: Option<u64>,
}

/// The entry a read of `wanted` takes, from position `i` on: the first
/// readable entry with a decodable path that is, or whose file name is, the
/// name asked for.
pub open spec fn first_tar_match_from(raws: Seq<TarEntryRead>, wanted: Seq<char>, i: int) -> Option<int>
    decreases raws.len() - i,
{
    if i < 0 || i >= raws.len() {
        None
    } else if raws[i] matches TarEntryRead::Read { path: Some(p), .. } && (p@ == wanted
        || path_file_name_of(p@) == Some(wanted)) {
        Some(i)
    } else {
        first_tar_match_from(raws, wanted, i + 1)
    }
}

impl TarHandler {
    /// Plans the read of one entry: the first matching entry, read whole up
    /// to `max_size` bytes and cut there beyond it; none matching is an
    /// archive error.
    pub fn read_file_sync(headers: &Vec<TarEntryRead>, file_name: &str, max_size: u64) -> (r: Result<
        TarReadPlan,
        AppError,
    >)
        ensures
            match first_tar_match_from(headers@, file_name@, 0) {
                None => r matches Err(AppError::Archive { message, path }) && message@
                    == "File not found in archive: "@ + file_name@ && path is None,
                Some(k) => r matches Ok(plan) && plan.index == k && (headers@[k] matches TarEntryRead::Read {
                    size,
                    ..
                } && plan.size == match size {
                    Some(n) => n,
                    None => 0u64,
                }) && (plan.size > max_size ==> plan.limit == Some(max_size)) && (plan.size <= max_size
                    ==> plan.limit is None),
            },
    {
        let mut i: usize = 0;
        while i < headers.len()
            invariant
                i <= headers.len(),
                first_tar_match_from(headers@, file_name@, 0) == first_tar_match_from(headers@, file_name@, i as int),
            decreases headers.len() - i,
        {
            if let TarEntryRead::Read { path: Some(p), size, .. } = &headers[i] {
                if TarHandler::entry_matches(p.as_str(), file_name) {
                    let sz = match size {
                        Some(n) => *n,
                        None => 0u64,
                    };
                    return Ok(TarReadPlan { index: i, size: sz, limit: read_limit(sz, max_size) });
                }
            }
            i = i + 1;
        }
        Err(TarHandler::not_found(file_name))
    }
}

} // verus!
