//! Error kinds an ingestion run can surface.

use vstd::prelude::*;

verus! {

/// Why an engine operation failed.
///
/// Engine-level conditions (`InsufficientSpace`, `Cancelled`, `MissingField`)
/// abort a whole run; the remaining kinds describe per-file conditions that
/// the orchestration loop downgrades to best-effort skips.
#[derive(Debug, Clone, Copy, PartialEq, Eq, Structural)]
pub enum ErrorKind {
    /// The filesystem layer reported a failure.
    IOError,
    /// A file claimed to be under a source root is not.
    StripPrefixError,
    /// The space preflight found too little room on a destination volume.
    InsufficientSpace,
    /// The cooperative cancellation flag was observed.
    Cancelled,
    /// A required builder field was never set.
    MissingField,
    /// The path has no extension where one is required.
    MissingExtension,
    /// The path has no file stem where one is required.
    MissingStem,
    /// The path has no file name where one is required.
    MissingFileName,
    /// No like-named JPEG exists beside the file.
    NoAccompanyingJpeg,
    /// A JPEG cannot have an accompanying JPEG of its own.
    JpegHasNoCompanion,
    /// The backup destination was queried but none is configured.
    BackupUnset,
    /// The rename counter cannot advance past its largest value.
    SequenceExhausted,
}

} // verus!
