//! Errors of the extraction pipeline: the internal error, its category for
//! statistics, and the public extraction error with a code and a remedy.
use vstd::prelude::*;
use crate::text::{push_str, seq_contains, str_contains};

verus! {

/// An internal error of the application.
#[derive(Debug)]
pub enum AppError {
    InvalidPath(String),
    Archive { message: String, path: Option<String> },
    Io { permission_denied: bool, message: String },
    Validation(String),
    Other(String),
}

impl AppError {
    pub fn validation_error(message: &str) -> (e: AppError)
        ensures
            e matches AppError::Validation(m) && m@ == message@,
    {
        AppError::Validation(message.to_string())
    }

    pub fn archive_error(message: &str, path: Option<String>) -> (e: AppError)
        ensures
            e matches AppError::Archive { message: m, path: p } && m@ == message@ && p == path,
    {
        AppError::Archive { message: message.to_string(), path }
    }

    /// The text the error displays.
    pub open spec fn message_spec(&self) -> Seq<char> {
        match self {
            AppError::InvalidPath(m) => "Invalid path: "@ + m@,
            AppError::Archive { message, .. } => "Archive error: "@ + message@,
            AppError::Io { message, .. } => "IO error: "@ + message@,
            AppError::Validation(m) => "Validation error: "@ + m@,
            AppError::Other(m) => m@,
        }
    }

    /// The text the error displays.
    pub fn to_message(&self) -> (s: String)
        ensures
            s@ == self.message_spec(),
    {
        let mut s = String::new();
        match self {
            AppError::InvalidPath(m) => {
                push_str(&mut s, "Invalid path: ");
                push_str(&mut s, m.as_str());
            },
            AppError::Archive { message, .. } => {
                push_str(&mut s, "Archive error: ");
                push_str(&mut s, message.as_str());
            },
            AppError::Io { message, .. } => {
                push_str(&mut s, "IO error: ");
                push_str(&mut s, message.as_str());
            },
            AppError::Validation(m) => {
                push_str(&mut s, "Validation error: ");
                push_str(&mut s, m.as_str());
            },
            AppError::Other(m) => {
                push_str(&mut s, m.as_str());
            },
        }
        s
    }
}

/// What kind of failure an extraction error was, for the statistics.
#[derive(PartialEq, Eq, Structural, Clone, Copy, Debug, Hash)]
pub enum ErrorCategory {
    PathTooLong,
    UnsupportedFormat,
    CorruptedArchive,
    PermissionDenied,
    ZipBombDetected,
    DepthLimitExceeded,
    DiskSpaceExhausted,
    CancellationRequested,
    IoError,
    Other,
}

/// The category of an archive error by the words of its message.
pub open spec fn archive_message_category(m: Seq<char>) -> ErrorCategory {
    if seq_contains(m, "unsupported"@) || seq_contains(m, "Unsupported"@) {
        ErrorCategory::UnsupportedFormat
    } else if seq_contains(m, "corrupted"@) || seq_contains(m, "Corrupted"@) {
        ErrorCategory::CorruptedArchive
    } else if seq_contains(m, "zip bomb"@) || seq_contains(m, "Zip bomb"@) {
        ErrorCategory::ZipBombDetected
    } else if seq_contains(m, "depth"@) || seq_contains(m, "Depth"@) {
        ErrorCategory::DepthLimitExceeded
    } else if seq_contains(m, "space"@) || seq_contains(m, "Space"@) {
        ErrorCategory::DiskSpaceExhausted
    } else {
        ErrorCategory::Other
    }
}

pub open spec fn category_of(e: AppError) -> ErrorCategory {
    match e {
        AppError::InvalidPath(_) => ErrorCategory::PathTooLong,
        AppError::Archive { message, .. } => archive_message_category(message@),
        AppError::Io { permission_denied, .. } => if permission_denied {
            ErrorCategory::PermissionDenied
        } else {
            ErrorCategory::IoError
        },
        _ => ErrorCategory::Other,
    }
}

impl ErrorCategory {
    /// The category of an error.
    pub fn from_error(error: &AppError) -> (c: ErrorCategory)
        ensures
            c == category_of(*error),
    {
        match error {
            AppError::InvalidPath(_) => ErrorCategory::PathTooLong,
            AppError::Archive { message, .. } => {
                let m = message.as_str();
                if str_contains(m, "unsupported") || str_contains(m, "Unsupported") {
                    ErrorCategory::UnsupportedFormat
                } else if str_contains(m, "corrupted") || str_contains(m, "Corrupted") {
                    ErrorCategory::CorruptedArchive
                } else if str_contains(m, "zip bomb") || str_contains(m, "Zip bomb") {
                    ErrorCategory::ZipBombDetected
                } else if str_contains(m, "depth") || str_contains(m, "Depth") {
                    ErrorCategory::DepthLimitExceeded
                } else if str_contains(m, "space") || str_contains(m, "Space") {
                    ErrorCategory::DiskSpaceExhausted
                } else {
                    ErrorCategory::Other
                }
            },
            AppError::Io { permission_denied, .. } => {
                if *permission_denied {
                    ErrorCategory::PermissionDenied
                } else {
                    ErrorCategory::IoError
                }
            },
            _ => ErrorCategory::Other,
        }
    }
}

/// Error codes of the public extraction interface.
#[derive(PartialEq, Eq, Structural, Clone, Copy, Debug)]
pub enum ErrorCode {
    PathTooLong,
    UnsupportedFormat,
    CorruptedArchive,
    PermissionDenied,
    ZipBombDetected,
    DepthLimitExceeded,
    DiskSpaceExhausted,
    CancellationRequested,
    InvalidConfiguration,
    InternalError,
}

/// The code of an error by the words of its message, first rule that applies.
pub open spec fn error_code_for(m: Seq<char>) -> ErrorCode {
    if seq_contains(m, "path"@) && seq_contains(m, "long"@) {
        ErrorCode::PathTooLong
    } else if seq_contains(m, "unsupported"@) || seq_contains(m, "format"@) {
        ErrorCode::UnsupportedFormat
    } else if seq_contains(m, "corrupt"@) {
        ErrorCode::CorruptedArchive
    } else if seq_contains(m, "permission"@) || seq_contains(m, "denied"@) {
        ErrorCode::PermissionDenied
    } else if seq_contains(m, "zip bomb"@) || seq_contains(m, "compression"@) {
        ErrorCode::ZipBombDetected
    } else if seq_contains(m, "depth"@) {
        ErrorCode::DepthLimitExceeded
    } else if seq_contains(m, "disk space"@) || seq_contains(m, "space"@) {
        ErrorCode::DiskSpaceExhausted
    } else if seq_contains(m, "cancel"@) {
        ErrorCode::CancellationRequested
    } else if seq_contains(m, "validation"@) || seq_contains(m, "invalid"@) {
        ErrorCode::InvalidConfiguration
    } else {
        ErrorCode::InternalError
    }
}

/// The suggested remedy for each code.
pub open spec fn remediation_for(c: ErrorCode) -> Seq<char> {
    match c {
        ErrorCode::PathTooLong => "Enable long path support in configuration or use path shortening"@,
        ErrorCode::UnsupportedFormat => "Verify the archive format is supported (ZIP, RAR, TAR, GZ)"@,
        ErrorCode::CorruptedArchive => "Verify the archive file is not corrupted and try re-downloading"@,
        ErrorCode::PermissionDenied => "Check file permissions and ensure the application has necessary access rights"@,
        ErrorCode::ZipBombDetected => "Review the archive for malicious content or adjust security thresholds"@,
        ErrorCode::DepthLimitExceeded => "Increase max_depth in configuration or extract nested archives manually"@,
        ErrorCode::DiskSpaceExhausted => "Free up disk space or extract to a different location"@,
        ErrorCode::CancellationRequested => "Restart the extraction operation if needed"@,
        ErrorCode::InvalidConfiguration => "Review and correct the configuration file"@,
        ErrorCode::InternalError => "Check logs for details and report the issue if it persists"@,
    }
}

/// The name a code is printed with.
pub open spec fn code_name(c: ErrorCode) -> Seq<char> {
    match c {
        ErrorCode::PathTooLong => "PathTooLong"@,
        ErrorCode::UnsupportedFormat => "UnsupportedFormat"@,
        ErrorCode::CorruptedArchive => "CorruptedArchive"@,
        ErrorCode::PermissionDenied => "PermissionDenied"@,
        ErrorCode::ZipBombDetected => "ZipBombDetected"@,
        ErrorCode::DepthLimitExceeded => "DepthLimitExceeded"@,
        ErrorCode::DiskSpaceExhausted => "DiskSpaceExhausted"@,
        ErrorCode::CancellationRequested => "CancellationRequested"@,
        ErrorCode::InvalidConfiguration => "InvalidConfiguration"@,
        ErrorCode::InternalError => "InternalError"@,
    }
}

impl ErrorCode {
    /// The code chosen for an error message.
    pub fn for_message(m: &str) -> (c: ErrorCode)
        ensures
            c == error_code_for(m@),
    {
        if str_contains(m, "path") && str_contains(m, "long") {
            ErrorCode::PathTooLong
        } else if str_contains(m, "unsupported") || str_contains(m, "format") {
            ErrorCode::UnsupportedFormat
        } else if str_contains(m, "corrupt") {
            ErrorCode::CorruptedArchive
        } else if str_contains(m, "permission") || str_contains(m, "denied") {
            ErrorCode::PermissionDenied
        } else if str_contains(m, "zip bomb") || str_contains(m, "compression") {
            ErrorCode::ZipBombDetected
        } else if str_contains(m, "depth") {
            ErrorCode::DepthLimitExceeded
        } else if str_contains(m, "disk space") || str_contains(m, "space") {
            ErrorCode::DiskSpaceExhausted
        } else if str_contains(m, "cancel") {
            ErrorCode::CancellationRequested
        } else if str_contains(m, "validation") || str_contains(m, "invalid") {
            ErrorCode::InvalidConfiguration
        } else {
            ErrorCode::InternalError
        }
    }

    pub fn remediation(&self) -> (s: String)
        ensures
            s@ == remediation_for(*self),
    {
        match self {
            ErrorCode::PathTooLong => "Enable long path support in configuration or use path shortening".to_string(),
            ErrorCode::UnsupportedFormat => "Verify the archive format is supported (ZIP, RAR, TAR, GZ)".to_string(),
            ErrorCode::CorruptedArchive => "Verify the archive file is not corrupted and try re-downloading".to_string(),
            ErrorCode::PermissionDenied => "Check file permissions and ensure the application has necessary access rights".to_string(),
            ErrorCode::ZipBombDetected => "Review the archive for malicious content or adjust security thresholds".to_string(),
            ErrorCode::DepthLimitExceeded => "Increase max_depth in configuration or extract nested archives manually".to_string(),
            ErrorCode::DiskSpaceExhausted => "Free up disk space or extract to a different location".to_string(),
            ErrorCode::CancellationRequested => "Restart the extraction operation if needed".to_string(),
            ErrorCode::InvalidConfiguration => "Review and correct the configuration file".to_string(),
            ErrorCode::InternalError => "Check logs for details and report the issue if it persists".to_string(),
        }
    }

    pub fn name(&self) -> (s: &'static str)
        ensures
            s@ == code_name(*self),
    {
        match self {
            ErrorCode::PathTooLong => "PathTooLong",
            ErrorCode::UnsupportedFormat => "UnsupportedFormat",
            ErrorCode::CorruptedArchive => "CorruptedArchive",
            ErrorCode::PermissionDenied => "PermissionDenied",
            ErrorCode::ZipBombDetected => "ZipBombDetected",
            ErrorCode::DepthLimitExceeded => "DepthLimitExceeded",
            ErrorCode::DiskSpaceExhausted => "DiskSpaceExhausted",
            ErrorCode::CancellationRequested => "CancellationRequested",
            ErrorCode::InvalidConfiguration => "InvalidConfiguration",
            ErrorCode::InternalError => "InternalError",
        }
    }
}

/// Every error code has a remedy to suggest and a name to print.
pub proof fn law_every_code_has_remediation(c: ErrorCode)
    ensures
        remediation_for(c).len() > 0,
        code_name(c).len() > 0,
{
    match c {
        ErrorCode::PathTooLong => {
            reveal_strlit("Enable long path support in configuration or use path shortening");
            reveal_strlit("PathTooLong");
        },
        ErrorCode::UnsupportedFormat => {
            reveal_strlit("Verify the archive format is supported (ZIP, RAR, TAR, GZ)");
            reveal_strlit("UnsupportedFormat");
        },
        ErrorCode::CorruptedArchive => {
            reveal_strlit("Verify the archive file is not corrupted and try re-downloading");
            reveal_strlit("CorruptedArchive");
        },
        ErrorCode::PermissionDenied => {
            reveal_strlit("Check file permissions and ensure the application has necessary access rights");
            reveal_strlit("PermissionDenied");
        },
        ErrorCode::ZipBombDetected => {
            reveal_strlit("Review the archive for malicious content or adjust security thresholds");
            reveal_strlit("ZipBombDetected");
        },
        ErrorCode::DepthLimitExceeded => {
            reveal_strlit("Increase max_depth in configuration or extract nested archives manually");
            reveal_strlit("DepthLimitExceeded");
        },
        ErrorCode::DiskSpaceExhausted => {
            reveal_strlit("Free up disk space or extract to a different location");
            reveal_strlit("DiskSpaceExhausted");
        },
        ErrorCode::CancellationRequested => {
            reveal_strlit("Restart the extraction operation if needed");
            reveal_strlit("CancellationRequested");
        },
        ErrorCode::InvalidConfiguration => {
            reveal_strlit("Review and correct the configuration file");
            reveal_strlit("InvalidConfiguration");
        },
        ErrorCode::InternalError => {
            reveal_strlit("Check logs for details and report the issue if it persists");
            reveal_strlit("InternalError");
        },
    }
}

/// The text of an error names its kind, so it is never empty; only an
/// error of no particular kind shows its message alone.
pub proof fn law_error_messages_are_not_empty(e: AppError)
    ensures
        !(e is Other) ==> e.message_spec().len() > 0,
{
    reveal_strlit("Invalid path: ");
    reveal_strlit("Archive error: ");
    reveal_strlit("IO error: ");
    reveal_strlit("Validation error: ");
}

/// The error of the public extraction interface.
pub struct ExtractionError {
    pub error_code: ErrorCode,
    pub error_message: String,
    pub failed_file_path: Option<String>,
    pub suggested_remediation: String,
    /// Extra facts, as key and value pairs.
    pub context: Vec<(String, String)>,
}

impl ExtractionError {
    /// The public error for an internal one: the code is chosen by the words
    /// of the message, the remedy by the code, and the context records the
    /// message it came from under `original_error`.
    pub fn from(error: AppError) -> (e: ExtractionError)
        ensures
            e.error_message@ == error.message_spec(),
            e.error_code == error_code_for(error.message_spec()),
            e.suggested_remediation@ == remediation_for(e.error_code),
            e.failed_file_path is None,
            e.context@.len() == 1,
            e.context@[0].0@ == "original_error"@,
            e.context@[0].1@ == error.message_spec(),
    {
        let error_message = error.to_message();
        let error_code = ErrorCode::for_message(error_message.as_str());
        let suggested_remediation = error_code.remediation();
        let mut context: Vec<(String, String)> = Vec::new();
        context.push(("original_error".to_string(), error_message.clone()));
        ExtractionError {
            error_code,
            error_message,
            failed_file_path: None,
            suggested_remediation,
            context,
        }
    }

    /// The first value recorded under `key` in the context.
    pub fn context_get(&self, key: &str) -> (r: Option<&String>)
        ensures
            r matches Some(v) ==> exists|i: int|
                0 <= i < self.context@.len() && (#[trigger] self.context@[i]).0@ == key@
                    && self.context@[i].1 == *v && forall|k: int|
                    0 <= k < i ==> (#[trigger] self.context@[k]).0@ != key@,
            r is None ==> forall|i: int|
                0 <= i < self.context@.len() ==> (#[trigger] self.context@[i]).0@ != key@,
    {
        let mut i: usize = 0;
        while i < self.context.len()
            invariant
                i <= self.context@.len(),
                forall|k: int| 0 <= k < i ==> (#[trigger] self.context@[k]).0@ != key@,
            decreases self.context.len() - i,
        {
            if crate::text::str_eq(self.context[i].0.as_str(), key) {
                return Some(&self.context[i].1);
            }
            i = i + 1;
        }
        None
    }

    /// The text the error displays: `[Code] message: remedy`.
    pub fn to_display_string(&self) -> (s: String)
        ensures
            s@ == "["@ + code_name(self.error_code) + "] "@ + self.error_message@ + ": "@
                + self.suggested_remediation@,
    {
        let mut s = String::new();
        push_str(&mut s, "[");
        push_str(&mut s, self.error_code.name());
        push_str(&mut s, "] ");
        push_str(&mut s, self.error_message.as_str());
        push_str(&mut s, ": ");
        push_str(&mut s, self.suggested_remediation.as_str());
        s
    }
}

/// What a warning of an extraction is about.
#[derive(PartialEq, Eq, Structural, Clone, Copy, Debug)]
pub enum WarningCategory {
    PathShortened,
    DepthLimitReached,
    HighCompressionRatio,
    DuplicateFilename,
    UnicodeNormalization,
    InsufficientDiskSpace,
    SecurityViolation,
    ExtractionError,
    PathError,
}

/// The kinds of warning the extraction engine reports.
#[derive(PartialEq, Eq, Structural, Clone, Copy, Debug)]
pub enum EngineWarningKind {
    DepthLimitReached,
    PathShortened,
    HighCompressionRatio,
    FileSkipped,
    SecurityEvent,
    ArchiveError,
    PathResolutionError,
}

impl WarningCategory {
    /// The public category of an engine warning: a skipped file is reported
    /// as a duplicate file name, a security event as a security violation,
    /// an archive error as an extraction error, a path resolution error as a
    /// path error; the others keep their name.
    pub fn from_engine(kind: EngineWarningKind) -> (c: WarningCategory)
        ensures
            c == WarningCategory::from_engine_spec(kind),
    {
        match kind {
            EngineWarningKind::DepthLimitReached => WarningCategory::DepthLimitReached,
            EngineWarningKind::PathShortened => WarningCategory::PathShortened,
            EngineWarningKind::HighCompressionRatio => WarningCategory::HighCompressionRatio,
            EngineWarningKind::FileSkipped => WarningCategory::DuplicateFilename,
            EngineWarningKind::SecurityEvent => WarningCategory::SecurityViolation,
            EngineWarningKind::ArchiveError => WarningCategory::ExtractionError,
            EngineWarningKind::PathResolutionError => WarningCategory::PathError,
        }
    }
}

/// A warning raised during an extraction.
#[derive(Clone, Debug)]
pub struct ExtractionWarning {
    pub category: WarningCategory,
    pub message: String,
    pub file_path: Option<String>,
    /// Seconds since the Unix epoch when it was raised.
    pub timestamp_secs: u64,
}

impl ExtractionWarning {
    /// The public form of an engine warning, stamped with `timestamp_secs`.
    pub fn from_engine(kind: EngineWarningKind, message: String, file_path: Option<String>, timestamp_secs: u64)
        -> (w: ExtractionWarning)
        ensures
            w.category == WarningCategory::from_engine_spec(kind),
            w.message == message,
            w.file_path == file_path,
            w.timestamp_secs == timestamp_secs,
    {
        ExtractionWarning { category: WarningCategory::from_engine(kind), message, file_path, timestamp_secs }
    }
}

impl WarningCategory {
    pub open spec fn from_engine_spec(kind: EngineWarningKind) -> WarningCategory {
        match kind {
            EngineWarningKind::DepthLimitReached => WarningCategory::DepthLimitReached,
            EngineWarningKind::PathShortened => WarningCategory::PathShortened,
            EngineWarningKind::HighCompressionRatio => WarningCategory::HighCompressionRatio,
            EngineWarningKind::FileSkipped => WarningCategory::DuplicateFilename,
            EngineWarningKind::SecurityEvent => WarningCategory::SecurityViolation,
            EngineWarningKind::ArchiveError => WarningCategory::ExtractionError,
            EngineWarningKind::PathResolutionError => WarningCategory::PathError,
        }
    }
}

/// Kinds of security event an extraction can report.
#[derive(PartialEq, Eq, Structural, Clone, Copy, Debug)]
pub enum SecurityEventType {
    ZipBombDetected,
    PathTraversalAttempt,
    ForbiddenExtension,
    ExcessiveCompressionRatio,
    DepthLimitExceeded,
}

/// How severe a security event is.
#[derive(PartialEq, Eq, Structural, Clone, Copy, Debug)]
pub enum Severity {
    Low,
    Medium,
    High,
    Critical,
}

} // verus!
