//! Plain-data pictures of the filesystem, gathered by the unverified runner:
//! what the depth-bounded, name-sorted walk of the sources found, and what
//! the destination volumes look like. Also the copy operations the engine
//! plans, for the runner to perform.

use vstd::prelude::*;

use crate::path::FsPath;

verus! {

/// One entry the source walk yielded.
#[derive(Debug)]
pub struct SourceEntry {
    /// The source root under which the entry was found.
    pub root: FsPath,
    /// The entry's path.
    pub path: FsPath,
    /// The file's size in bytes (0 for directories).
    pub size: u64,
    /// Whether the entry is a directory.
    pub is_dir: bool,
    /// Whether a like-named file with extension `jpg` exists beside it.
    pub has_jpg: bool,
    /// Whether a like-named file with extension `jpeg` exists beside it.
    pub has_jpeg: bool,
    /// Whether a like-named file with a different extension exists beside
    /// it — for a JPEG, the raw mate it may be paired with.
    pub has_mate: bool,
}

/// What a destination volume looks like.
#[derive(Debug)]
pub struct VolumeStatus {
    /// Free bytes on the volume.
    pub free: u64,
    /// The file paths that already exist under the destination root.
    pub existing: Vec<FsPath>,
}

/// Everything the engine needs to know about the filesystem for one run.
#[derive(Debug)]
pub struct Snapshot {
    /// The walk of all source roots: grouped by root in source order, each
    /// group sorted by file name, pruned and depth-bounded by the runner.
    pub entries: Vec<SourceEntry>,
    /// The primary destination volume.
    pub target: VolumeStatus,
    /// The backup destination volume, when a backup is configured.
    pub backup: Option<VolumeStatus>,
    /// Whether target and backup lie on the same physical volume; meaningful
    /// only when a backup is configured.
    pub same_disk: bool,
}

/// What role a planned copy plays.
#[derive(Debug, Clone, Copy, PartialEq, Eq, Structural)]
pub enum CopyKind {
    /// The authoritative copy of a matched file.
    Primary,
    /// The best-effort copy of a like-named `.xmp` sidecar; the source may
    /// not exist, and failure is ignored.
    XmpSidecar,
    /// The best-effort copy of the accompanying JPEG of a raw file.
    JpegCompanion,
}

/// One copy for the runner to perform, in plan order. The runner creates the
/// output's parent directories, checks the cancellation flag before each
/// copy, and ignores failures of the sidecar kinds.
#[derive(Debug, PartialEq, Eq)]
pub struct CopyOp {
    /// The file to copy.
    pub input: FsPath,
    /// Where to copy it to.
    pub output: FsPath,
    /// The role of this copy.
    pub kind: CopyKind,
}

/// The mathematical content of a copy operation.
pub struct OpV {
    /// The file to copy.
    pub input: Seq<Seq<char>>,
    /// Where to copy it to.
    pub output: Seq<Seq<char>>,
    /// The role of this copy.
    pub kind: CopyKind,
}

impl View for CopyOp {
    type V = OpV;

    open spec fn view(&self) -> OpV {
        OpV { input: self.input@, output: self.output@, kind: self.kind }
    }
}

impl DeepView for CopyOp {
    type V = OpV;

    open spec fn deep_view(&self) -> OpV {
        self.view()
    }
}

} // verus!
