//! The ingestion engine: routes each walked entry through the filter, the
//! layout policy and the sidecar pairing, resolves collisions, and plans the
//! copy operations of the primary pass and the optional backup pass.
//!
//! The engine is pure: it reads a `Snapshot` of the filesystem and produces
//! the ordered copy operations for the runner to perform. Destination paths
//! the plan creates are tracked, so collision avoidance sees both what
//! existed and what the run itself will have written.

use vstd::prelude::*;

use crate::collision::{avoid_v, exists_plus_one};
use crate::errors::ErrorKind;
use crate::filter::{matches_v, Filter, FilterV};
use crate::path::{with_ext_v, FsPath};
use crate::pathset::{insert_path_v, remove_path_v, PathSet};
use crate::rename::{Position, Rename};
use crate::path::IsJpeg;
use crate::sidecar::{accompanying_jpeg, accompanying_v};
use crate::snapshot::{CopyKind, CopyOp, OpV};

verus! {

/// The layout policy for target paths.
#[derive(Debug)]
pub enum Structure {
    /// Sequential renaming into the target root; carries its own counter.
    Rename(Rename),
    /// Flatten: the original file name directly under the target root.
    Preserve,
    /// Mirror the path relative to the source root under the target root.
    Retain,
}

/// The layout policy without its payload.
#[derive(Debug, Clone, Copy, PartialEq, Eq, Structural)]
pub enum StructureKind {
    /// Mirror relative paths.
    Retain,
    /// Sequential renaming.
    Renamed,
    /// Flatten to file names.
    Preserved,
}

impl Clone for Structure {
    fn clone(&self) -> (r: Self)
        ensures
            structure_kind(&r) == structure_kind(self),
            rename_base_name(&r) == rename_base_name(self),
            rename_position(&r) == rename_position(self),
            rename_zeroes(&r) == rename_zeroes(self),
            init_sequence(&r) == init_sequence(self),
    {
        match self {
            Structure::Rename(r) => Structure::Rename(r.clone()),
            Structure::Preserve => Structure::Preserve,
            Structure::Retain => Structure::Retain,
        }
    }
}

impl Default for Structure {
    /// The default layout mirrors the source structure.
    fn default() -> (r: Structure)
        ensures
            r matches Structure::Retain,
    {
        Structure::Retain
    }
}

/// The kind of a layout value.
pub open spec fn structure_kind(s: &Structure) -> StructureKind {
    match s {
        Structure::Rename(_) => StructureKind::Renamed,
        Structure::Preserve => StructureKind::Preserved,
        Structure::Retain => StructureKind::Retain,
    }
}

/// The stem override the embedded rename carries, if any.
pub open spec fn rename_base_name(s: &Structure) -> Option<Seq<char>> {
    match s {
        Structure::Rename(r) => r@.name,
        _ => None,
    }
}

/// The position the embedded rename places the counter at.
pub open spec fn rename_position(s: &Structure) -> Position {
    match s {
        Structure::Rename(r) => r.position,
        _ => Position::Prefix,
    }
}

/// The zero-pad width of the embedded rename.
pub open spec fn rename_zeroes(s: &Structure) -> u8 {
    match s {
        Structure::Rename(r) => r.zeroes,
        _ => 0,
    }
}

/// The sequence number each pass starts from.
pub open spec fn init_sequence(s: &Structure) -> int {
    match s {
        Structure::Rename(r) => r.sequence as int,
        _ => 0,
    }
}

impl Structure {
    /// Whether the layout mirrors relative paths.
    pub fn is_retained(&self) -> (r: bool)
        ensures
            r == (structure_kind(self) == StructureKind::Retain),
    {
        match self {
            Structure::Retain => true,
            _ => false,
        }
    }

    /// Whether the layout renames sequentially.
    pub fn is_renamed(&self) -> (r: bool)
        ensures
            r == (structure_kind(self) == StructureKind::Renamed),
    {
        match self {
            Structure::Rename(_) => true,
            _ => false,
        }
    }

    /// Whether the layout flattens to file names.
    pub fn is_preserved(&self) -> (r: bool)
        ensures
            r == (structure_kind(self) == StructureKind::Preserved),
    {
        match self {
            Structure::Preserve => true,
            _ => false,
        }
    }
}

/// The run configuration a pass works under.
#[verifier::ext_equal]
pub struct CfgV {
    /// The destination root of the pass.
    pub target: Seq<Seq<char>>,
    /// The layout policy.
    pub kind: StructureKind,
    /// The stem override of the rename policy.
    pub rename_name: Option<Seq<char>>,
    /// Where the rename policy puts the counter.
    pub position: Position,
    /// The zero-pad width of the rename policy.
    pub zeroes: u8,
    /// Whether like-named `.xmp` sidecars are copied along.
    pub copy_xmp: bool,
    /// Whether accompanying JPEGs are copied along under the rename policy.
    pub copy_jpg: bool,
    /// The filter.
    pub filter: FilterV,
}

/// The state a single copy reads and writes: the pending-sidecar list, the
/// destination paths known to exist, and the planned operations.
#[verifier::ext_equal]
pub struct CopyStV {
    /// Companion paths sighted once and awaiting their mate, in sighting
    /// order.
    pub pending: Seq<Seq<Seq<char>>>,
    /// Destination paths that exist or that the plan will have created.
    pub created: Seq<Seq<Seq<char>>>,
    /// The copy operations planned so far.
    pub ops: Seq<OpV>,
}

/// What one call of `ingest_copy` does to the copy state: resolve the output
/// against the known destination paths (a failure leaves everything
/// unchanged); plan the best-effort `.xmp` sidecar copy when enabled; under
/// the rename policy with companion copying enabled, toggle the companion's
/// pending membership and plan its best-effort copy; then plan the
/// authoritative copy and record the output as created. The `.xmp` output is
/// not recorded: whether that copy succeeds is unknown (the sidecar may not
/// exist), and no later planned output can collide with an `.xmp` name, as
/// the junk-extension table keeps `.xmp` files from ever matching the
/// filter.
pub open spec fn spec_ingest_copy(
    cfg: CfgV,
    st: CopyStV,
    input: Seq<Seq<char>>,
    out0: Seq<Seq<char>>,
    has_jpg: bool,
    has_jpeg: bool,
) -> CopyStV {
    match avoid_v(out0, st.created) {
        Err(_) => st,
        Ok(out) => {
            let ops1 = if cfg.copy_xmp {
                st.ops.push(
                    OpV {
                        input: with_ext_v(input, "xmp"@),
                        output: with_ext_v(out, "xmp"@),
                        kind: CopyKind::XmpSidecar,
                    },
                )
            } else {
                st.ops
            };
            let companion = if cfg.kind == StructureKind::Renamed && cfg.copy_jpg {
                accompanying_v(input, has_jpg, has_jpeg)
            } else {
                Err(ErrorKind::NoAccompanyingJpeg)
            };
            let st2 = match companion {
                Ok(jp) => CopyStV {
                    pending: if st.pending.contains(jp) {
                        remove_path_v(st.pending, jp)
                    } else {
                        st.pending.push(jp)
                    },
                    created: insert_path_v(st.created, with_ext_v(out, "jpg"@)),
                    ops: ops1.push(
                        OpV {
                            input: jp,
                            output: with_ext_v(out, "jpg"@),
                            kind: CopyKind::JpegCompanion,
                        },
                    ),
                },
                Err(_) => CopyStV { pending: st.pending, created: st.created, ops: ops1 },
            };
            CopyStV {
                pending: st2.pending,
                created: insert_path_v(st2.created, out),
                ops: st2.ops.push(OpV { input: input, output: out, kind: CopyKind::Primary }),
            }
        },
    }
}

/// The ingestion engine's aggregate state.
#[derive(Debug)]
pub struct Ingestor {
    /// The layout policy.
    pub structure: Structure,
    /// The primary destination root.
    pub target: FsPath,
    /// The backup destination root, consumed when the backup pass starts.
    pub backup: Option<FsPath>,
    /// The source roots, in walk order.
    pub sources: Vec<FsPath>,
    /// The filter.
    pub filter: Filter,
    /// Whether like-named `.xmp` sidecars are copied along.
    pub copy_xmp: bool,
    /// Whether accompanying JPEGs are copied along under the rename policy.
    pub copy_jpg: bool,
    /// Attempts counter: grows by one per surviving entry before it is
    /// processed, and per replayed sidecar; saturates instead of wrapping.
    pub progress: u64,
    /// The maximum traversal depth the runner walks to.
    pub depth: usize,
    /// Companion paths sighted once and awaiting their mate. Maintained by
    /// the engine; constructed empty.
    pub pending: PathSet,
}

impl Ingestor {
    /// The engine's internal invariant: the pending-sidecar list holds no
    /// duplicates.
    pub open spec fn wf(&self) -> bool {
        self.pending.wf()
    }

    /// The pending-sidecar list, in sighting order.
    pub open spec fn pending_view(&self) -> Seq<Seq<Seq<char>>> {
        self.pending@
    }

    /// The configuration a pass running against the current target works
    /// under.
    pub open spec fn cfg(&self) -> CfgV {
        CfgV {
            target: self.target@,
            kind: structure_kind(&self.structure),
            rename_name: rename_base_name(&self.structure),
            position: rename_position(&self.structure),
            zeroes: rename_zeroes(&self.structure),
            copy_xmp: self.copy_xmp,
            copy_jpg: self.copy_jpg,
            filter: self.filter@,
        }
    }

    /// The parts of the configuration a backup pass keeps: everything but
    /// the destination roots.
    pub open spec fn same_policy(&self, other: &Ingestor) -> bool {
        &&& structure_kind(&self.structure) == structure_kind(&other.structure)
        &&& rename_base_name(&self.structure) == rename_base_name(&other.structure)
        &&& rename_position(&self.structure) == rename_position(&other.structure)
        &&& rename_zeroes(&self.structure) == rename_zeroes(&other.structure)
        &&& init_sequence(&self.structure) == init_sequence(&other.structure)
        &&& self.sources == other.sources
        &&& self.filter@ == other.filter@
        &&& self.copy_xmp == other.copy_xmp
        &&& self.copy_jpg == other.copy_jpg
        &&& self.depth == other.depth
    }

    /// Everything a copy does not touch: the whole configuration.
    pub open spec fn same_config(&self, other: &Ingestor) -> bool {
        &&& self.same_policy(other)
        &&& self.target@ == other.target@
        &&& self.backup == other.backup
    }

    /// Performs one planned transfer: resolves the output to a collision-free
    /// path, plans the sidecar copies the flags call for, toggles the
    /// pending-sidecar list for an accompanying JPEG, and plans the
    /// authoritative copy. Returns the resolved output path; fails exactly
    /// when collision avoidance fails, leaving all state unchanged.
    pub fn ingest_copy(
        &mut self,
        input: &FsPath,
        output: &FsPath,
        has_jpg: bool,
        has_jpeg: bool,
        created: &mut PathSet,
        ops: &mut Vec<CopyOp>,
    ) -> (r: Result<FsPath, ErrorKind>)
        requires
            old(self).wf(),
            old(created).wf(),
        ensures
            final(self).wf(),
            final(created).wf(),
            old(self).same_config(final(self)),
            final(self).progress == old(self).progress,
            (CopyStV {
                pending: final(self).pending_view(),
                created: final(created)@,
                ops: final(ops).deep_view(),
            }) == spec_ingest_copy(
                old(self).cfg(),
                CopyStV {
                    pending: old(self).pending_view(),
                    created: old(created)@,
                    ops: old(ops).deep_view(),
                },
                input@,
                output@,
                has_jpg,
                has_jpeg,
            ),
            r.is_ok() == avoid_v(output@, old(created)@).is_ok(),
            r matches Ok(q) ==> avoid_v(output@, old(created)@) == Ok::<Seq<Seq<char>>, ErrorKind>(
                q@,
            ),
            r matches Err(e) ==> avoid_v(output@, old(created)@) == Err::<
                Seq<Seq<char>>,
                ErrorKind,
            >(e),
    {
        let out = match exists_plus_one(output, created) {
            Ok(o) => o,
            Err(e) => {
                proof {
                    assert((CopyStV {
                        pending: self.pending_view(),
                        created: created@,
                        ops: ops.deep_view(),
                    }) =~= spec_ingest_copy(
                        old(self).cfg(),
                        CopyStV {
                            pending: old(self).pending_view(),
                            created: old(created)@,
                            ops: old(ops).deep_view(),
                        },
                        input@,
                        output@,
                        has_jpg,
                        has_jpeg,
                    ));
                }
                return Err(e);
            },
        };
        if self.copy_xmp {
            let op = CopyOp {
                input: input.with_extension("xmp"),
                output: out.with_extension("xmp"),
                kind: CopyKind::XmpSidecar,
            };
            ops.push(op);
            proof {
                assert(ops.deep_view() =~= old(ops).deep_view().push(
                    OpV {
                        input: with_ext_v(input@, "xmp"@),
                        output: with_ext_v(out@, "xmp"@),
                        kind: CopyKind::XmpSidecar,
                    },
                ));
            }
        }
        let ghost ops1 = ops.deep_view();
        if self.structure.is_renamed() && self.copy_jpg {
            match accompanying_jpeg(input, has_jpg, has_jpeg) {
                Ok(jp) => {
                    if self.pending.contains(&jp) {
                        self.pending.remove(&jp);
                    } else {
                        self.pending.insert(jp.clone());
                    }
                    let op = CopyOp {
                        input: jp,
                        output: out.with_extension("jpg"),
                        kind: CopyKind::JpegCompanion,
                    };
                    ops.push(op);
                    created.insert(out.with_extension("jpg"));
                    proof {
                        assert(ops.deep_view() =~= ops1.push(
                            OpV {
                                input: accompanying_v(input@, has_jpg, has_jpeg).unwrap(),
                                output: with_ext_v(out@, "jpg"@),
                                kind: CopyKind::JpegCompanion,
                            },
                        ));
                    }
                },
                Err(_) => {},
            }
        }
        let ghost ops2 = ops.deep_view();
        let op = CopyOp { input: input.clone(), output: out.clone(), kind: CopyKind::Primary };
        ops.push(op);
        created.insert(out.clone());
        proof {
            assert(ops.deep_view() =~= ops2.push(
                OpV { input: input@, output: out@, kind: CopyKind::Primary },
            ));
            assert((CopyStV {
                pending: self.pending_view(),
                created: created@,
                ops: ops.deep_view(),
            }) =~= spec_ingest_copy(
                old(self).cfg(),
                CopyStV {
                    pending: old(self).pending_view(),
                    created: old(created)@,
                    ops: old(ops).deep_view(),
                },
                input@,
                output@,
                has_jpg,
                has_jpeg,
            ));
        }
        Ok(out)
    }
}

/// What the renamed copy would write to, before collision avoidance: the
/// formatted stem joined to the path's raw extension, under the target root.
pub open spec fn renamed_out0_v(cfg: CfgV, sequence: int, path: Seq<Seq<char>>) -> Seq<Seq<char>> {
    cfg.target.push(
        crate::rename::rename_format_v(
            crate::rename::stem_source_v(cfg.rename_name, path).unwrap(),
            sequence,
            cfg.zeroes as nat,
            cfg.position,
        ) + seq!['.'] + crate::path::path_ext_v(path).unwrap(),
    )
}

/// What one renamed transfer does: a path without an extension, an exhausted
/// counter, or a missing stem leave everything unchanged; otherwise the
/// counter advances by one and the copy runs against the formatted name.
pub open spec fn spec_renamed(
    cfg: CfgV,
    sequence: int,
    c: CopyStV,
    path: Seq<Seq<char>>,
    has_jpg: bool,
    has_jpeg: bool,
) -> (int, CopyStV) {
    if crate::path::path_ext_v(path).is_none() {
        (sequence, c)
    } else if sequence >= i32::MAX as int {
        (sequence, c)
    } else if crate::rename::stem_source_v(cfg.rename_name, path).is_none() {
        (sequence, c)
    } else {
        (
            sequence + 1,
            spec_ingest_copy(cfg, c, path, renamed_out0_v(cfg, sequence, path), has_jpg, has_jpeg),
        )
    }
}

/// What one mirrored transfer does: the path relative to its source root is
/// joined under the target; a path outside its root leaves everything
/// unchanged.
pub open spec fn spec_retain(
    cfg: CfgV,
    c: CopyStV,
    root: Seq<Seq<char>>,
    path: Seq<Seq<char>>,
    has_jpg: bool,
    has_jpeg: bool,
) -> CopyStV {
    if crate::path::is_prefix_v(root, path) {
        spec_ingest_copy(cfg, c, path, cfg.target + path.skip(root.len() as int), has_jpg, has_jpeg)
    } else {
        c
    }
}

/// What one flattened transfer does: the file name alone is joined under the
/// target; a path without a file name leaves everything unchanged.
pub open spec fn spec_preserve(
    cfg: CfgV,
    c: CopyStV,
    path: Seq<Seq<char>>,
    has_jpg: bool,
    has_jpeg: bool,
) -> CopyStV {
    match crate::path::file_name_v(path) {
        None => c,
        Some(nm) => spec_ingest_copy(cfg, c, path, cfg.target.push(nm), has_jpg, has_jpeg),
    }
}

/// How one surviving entry is routed: mirrored or flattened directly; under
/// the rename policy a JPEG that has a mate (a like-named file with another
/// extension) toggles the pending list first — its second sighting removes
/// it and skips the copy (the pairing already copied it beside its raw
/// mate), its first sighting marks it as awaiting its mate and the copy
/// proceeds.
pub open spec fn spec_map_entry(
    cfg: CfgV,
    sequence: int,
    c: CopyStV,
    e: &crate::snapshot::SourceEntry,
) -> (int, CopyStV) {
    match cfg.kind {
        StructureKind::Retain => (
            sequence,
            spec_retain(cfg, c, e.root@, e.path@, e.has_jpg, e.has_jpeg),
        ),
        StructureKind::Renamed => {
            if crate::path::jpeg_v(e.path@) && e.has_mate {
                if c.pending.contains(e.path@) {
                    (sequence, CopyStV { pending: remove_path_v(c.pending, e.path@), ..c })
                } else {
                    spec_renamed(
                        cfg,
                        sequence,
                        CopyStV { pending: c.pending.push(e.path@), ..c },
                        e.path@,
                        e.has_jpg,
                        e.has_jpeg,
                    )
                }
            } else {
                spec_renamed(cfg, sequence, c, e.path@, e.has_jpg, e.has_jpeg)
            }
        },
        StructureKind::Preserved => (
            sequence,
            spec_preserve(cfg, c, e.path@, e.has_jpg, e.has_jpeg),
        ),
    }
}

/// Whether the working rename generator carries the same static parts as the
/// layout policy's embedded one.
pub open spec fn rename_matches_cfg(r: &Rename, cfg: CfgV) -> bool {
    &&& r@.name == cfg.rename_name
    &&& r.position == cfg.position
    &&& r.zeroes == cfg.zeroes
}

impl Ingestor {
    /// Mirrors one file: its path relative to the source root, joined under
    /// the target. Fails when the path does not lie under the root or when
    /// collision avoidance fails; per-file callers discard the failure.
    fn ingest_file(
        &mut self,
        source: &FsPath,
        path: &FsPath,
        has_jpg: bool,
        has_jpeg: bool,
        created: &mut PathSet,
        ops: &mut Vec<CopyOp>,
    ) -> (r: Result<(), ErrorKind>)
        requires
            old(self).wf(),
            old(created).wf(),
        ensures
            final(self).wf(),
            final(created).wf(),
            old(self).same_config(final(self)),
            final(self).progress == old(self).progress,
            (CopyStV {
                pending: final(self).pending_view(),
                created: final(created)@,
                ops: final(ops).deep_view(),
            }) == spec_retain(
                old(self).cfg(),
                CopyStV {
                    pending: old(self).pending_view(),
                    created: old(created)@,
                    ops: old(ops).deep_view(),
                },
                source@,
                path@,
                has_jpg,
                has_jpeg,
            ),
            !crate::path::is_prefix_v(source@, path@) ==> r == Err::<(), ErrorKind>(
                ErrorKind::StripPrefixError,
            ),
            crate::path::is_prefix_v(source@, path@) ==> (r is Ok <==> avoid_v(
                old(self).cfg().target + path@.skip(source@.len() as int),
                old(created)@,
            ) is Ok),
    {
        let rel = match path.strip_prefix(source) {
            Ok(rel) => rel,
            Err(e) => {
                return Err(e);
            },
        };
        let out0 = self.target.join(&rel);
        match self.ingest_copy(path, &out0, has_jpg, has_jpeg, created, ops) {
            Ok(_) => Ok(()),
            Err(e) => Err(e),
        }
    }

    /// Renames one file: advances the generator, joins the formatted stem
    /// and the file's own extension under the target, and copies. A file
    /// without an extension fails before the counter moves; an exhausted
    /// counter fails likewise.
    pub fn ingest_file_renamed(
        &mut self,
        path: &FsPath,
        rename: &mut Rename,
        has_jpg: bool,
        has_jpeg: bool,
        created: &mut PathSet,
        ops: &mut Vec<CopyOp>,
    ) -> (r: Result<(), ErrorKind>)
        requires
            old(self).wf(),
            old(created).wf(),
            rename_matches_cfg(old(rename), old(self).cfg()),
        ensures
            final(self).wf(),
            final(created).wf(),
            old(self).same_config(final(self)),
            final(self).progress == old(self).progress,
            rename_matches_cfg(final(rename), old(self).cfg()),
            (final(rename).sequence as int, CopyStV {
                pending: final(self).pending_view(),
                created: final(created)@,
                ops: final(ops).deep_view(),
            }) == spec_renamed(
                old(self).cfg(),
                old(rename).sequence as int,
                CopyStV {
                    pending: old(self).pending_view(),
                    created: old(created)@,
                    ops: old(ops).deep_view(),
                },
                path@,
                has_jpg,
                has_jpeg,
            ),
            crate::path::path_ext_v(path@).is_none() ==> r == Err::<(), ErrorKind>(
                ErrorKind::MissingExtension,
            ),
            crate::path::path_ext_v(path@).is_some() && old(rename).sequence == i32::MAX ==> r
                == Err::<(), ErrorKind>(ErrorKind::SequenceExhausted),
            crate::path::path_ext_v(path@).is_some() && old(rename).sequence < i32::MAX ==> (
            r is Ok <==> avoid_v(
                renamed_out0_v(old(self).cfg(), old(rename).sequence as int, path@),
                old(created)@,
            ) is Ok),
    {
        let ext = match path.extension() {
            Some(e) => e,
            None => {
                return Err(ErrorKind::MissingExtension);
            },
        };
        if rename.sequence == i32::MAX {
            return Err(ErrorKind::SequenceExhausted);
        }
        let stem = match rename.next(path) {
            Ok(s) => s,
            Err(e) => {
                return Err(e);
            },
        };
        let mut name = stem;
        crate::strutil::push_char(&mut name, '.');
        name.append(ext.as_str());
        proof {
            assert(name@ =~= crate::rename::rename_format_v(
                crate::rename::stem_source_v(old(rename)@.name, path@).unwrap(),
                old(rename).sequence as int,
                old(rename).zeroes as nat,
                old(rename).position,
            ) + seq!['.'] + crate::path::path_ext_v(path@).unwrap());
        }
        let out0 = self.target.child(name);
        proof {
            assert(out0@ == renamed_out0_v(
                old(self).cfg(),
                old(rename).sequence as int,
                path@,
            ));
        }
        match self.ingest_copy(path, &out0, has_jpg, has_jpeg, created, ops) {
            Ok(_) => Ok(()),
            Err(e) => Err(e),
        }
    }

    /// Flattens one file: its file name alone, joined under the target.
    /// Fails when the path has no file name or when collision avoidance
    /// fails.
    pub fn ingest_file_preserve(
        &mut self,
        path: &FsPath,
        has_jpg: bool,
        has_jpeg: bool,
        created: &mut PathSet,
        ops: &mut Vec<CopyOp>,
    ) -> (r: Result<(), ErrorKind>)
        requires
            old(self).wf(),
            old(created).wf(),
        ensures
            final(self).wf(),
            final(created).wf(),
            old(self).same_config(final(self)),
            final(self).progress == old(self).progress,
            (CopyStV {
                pending: final(self).pending_view(),
                created: final(created)@,
                ops: final(ops).deep_view(),
            }) == spec_preserve(
                old(self).cfg(),
                CopyStV {
                    pending: old(self).pending_view(),
                    created: old(created)@,
                    ops: old(ops).deep_view(),
                },
                path@,
                has_jpg,
                has_jpeg,
            ),
            crate::path::file_name_v(path@) is None ==> r == Err::<(), ErrorKind>(
                ErrorKind::MissingFileName,
            ),
            crate::path::file_name_v(path@) matches Some(nm) ==> (r is Ok <==> avoid_v(
                old(self).cfg().target.push(nm),
                old(created)@,
            ) is Ok),
    {
        let name = match path.file_name() {
            Some(n) => n.clone(),
            None => {
                return Err(ErrorKind::MissingFileName);
            },
        };
        let out0 = self.target.child(name);
        match self.ingest_copy(path, &out0, has_jpg, has_jpeg, created, ops) {
            Ok(_) => Ok(()),
            Err(e) => Err(e),
        }
    }

    /// Routes one surviving entry through the layout policy and the sidecar
    /// pairing. Failures of the transfer itself are deliberately discarded:
    /// one unreadable file must not abort the batch.
    pub fn map_entry(
        &mut self,
        entry: &crate::snapshot::SourceEntry,
        rename: &mut Rename,
        created: &mut PathSet,
        ops: &mut Vec<CopyOp>,
    ) -> (r: Result<(), ErrorKind>)
        requires
            old(self).wf(),
            old(created).wf(),
            rename_matches_cfg(old(rename), old(self).cfg()),
        ensures
            final(self).wf(),
            final(created).wf(),
            old(self).same_config(final(self)),
            final(self).progress == old(self).progress,
            rename_matches_cfg(final(rename), old(self).cfg()),
            r matches Ok(u) && u == (),
            (final(rename).sequence as int, CopyStV {
                pending: final(self).pending_view(),
                created: final(created)@,
                ops: final(ops).deep_view(),
            }) == spec_map_entry(
                old(self).cfg(),
                old(rename).sequence as int,
                CopyStV {
                    pending: old(self).pending_view(),
                    created: old(created)@,
                    ops: old(ops).deep_view(),
                },
                entry,
            ),
    {
        if self.structure.is_retained() {
            let _ = self.ingest_file(&entry.root, &entry.path, entry.has_jpg, entry.has_jpeg, created, ops);
        } else if self.structure.is_renamed() {
            if entry.path.is_jpeg() && entry.has_mate {
                if self.pending.contains(&entry.path) {
                    self.pending.remove(&entry.path);
                    return Ok(());
                } else {
                    self.pending.insert(entry.path.clone());
                }
            }
            let _ = self.ingest_file_renamed(&entry.path, rename, entry.has_jpg, entry.has_jpeg, created, ops);
        } else {
            let _ = self.ingest_file_preserve(&entry.path, entry.has_jpg, entry.has_jpeg, created, ops);
        }
        Ok(())
    }
}

/// The full state one pass threads along: the rename counter, the attempts
/// counter, and the copy state.
#[verifier::ext_equal]
pub struct PassStV {
    /// The rename counter.
    pub sequence: int,
    /// The attempts counter.
    pub progress: int,
    /// The copy state.
    pub copy: CopyStV,
}

/// The attempts counter after one more attempt: it saturates instead of
/// wrapping.
pub open spec fn bump_v(p: int) -> int {
    if p < u64::MAX {
        p + 1
    } else {
        p
    }
}

/// What one walked entry does to the pass state: directories and entries the
/// filter rejects change nothing; a surviving entry counts one attempt and is
/// routed through the layout policy.
pub open spec fn spec_walk_step(cfg: CfgV, st: PassStV, e: &crate::snapshot::SourceEntry) -> PassStV {
    if e.is_dir || !matches_v(cfg.filter, e.path@, e.size) {
        st
    } else {
        let (seq2, c2) = spec_map_entry(cfg, st.sequence, st.copy, e);
        PassStV { sequence: seq2, progress: bump_v(st.progress), copy: c2 }
    }
}

/// The walk phase of a pass: every entry from position `i` on, in order.
pub open spec fn spec_walk(
    cfg: CfgV,
    entries: Seq<crate::snapshot::SourceEntry>,
    st: PassStV,
    i: int,
) -> PassStV
    decreases entries.len() - i,
{
    if i < 0 || i >= entries.len() {
        st
    } else {
        spec_walk(cfg, entries, spec_walk_step(cfg, st, &entries[i]), i + 1)
    }
}

/// The configuration of the drain phase: sidecar copying switched off, so a
/// replayed sidecar cannot re-trigger sidecar lookups of its own.
pub open spec fn drain_cfg(cfg: CfgV) -> CfgV {
    CfgV { copy_xmp: false, copy_jpg: false, ..cfg }
}

/// What one replayed sidecar does: one attempt is counted and the path is
/// ingested under the rename policy with sidecar copying off.
pub open spec fn spec_drain_step(cfg: CfgV, st: PassStV, p: Seq<Seq<char>>) -> PassStV {
    let (seq2, c2) = spec_renamed(drain_cfg(cfg), st.sequence, st.copy, p, false, false);
    PassStV { sequence: seq2, progress: bump_v(st.progress), copy: c2 }
}

/// The drain phase of a pass: every captured residual sidecar from position
/// `i` on, in sighting order.
pub open spec fn spec_drain(
    cfg: CfgV,
    captured: Seq<Seq<Seq<char>>>,
    st: PassStV,
    i: int,
) -> PassStV
    decreases captured.len() - i,
{
    if i < 0 || i >= captured.len() {
        st
    } else {
        spec_drain(cfg, captured, spec_drain_step(cfg, st, captured[i]), i + 1)
    }
}

/// One whole pass: the walk over all entries, then the drain of what the
/// walk left pending (the pending list is emptied when the drain captures
/// it, and the drain itself adds nothing to it).
pub open spec fn spec_pass(
    cfg: CfgV,
    entries: Seq<crate::snapshot::SourceEntry>,
    st: PassStV,
) -> PassStV {
    let w = spec_walk(cfg, entries, st, 0);
    let captured = w.copy.pending;
    spec_drain(
        cfg,
        captured,
        PassStV {
            sequence: w.sequence,
            progress: w.progress,
            copy: CopyStV { pending: Seq::empty(), created: w.copy.created, ops: w.copy.ops },
        },
        0,
    )
}

/// The drain phase never adds to the pending list: with sidecar copying
/// switched off, no replay can sight a new companion.
proof fn lemma_drain_keeps_pending(
    cfg: CfgV,
    captured: Seq<Seq<Seq<char>>>,
    st: PassStV,
    i: int,
)
    ensures
        spec_drain(cfg, captured, st, i).copy.pending == st.copy.pending,
    decreases captured.len() - i,
{
    if 0 <= i < captured.len() {
        assert(spec_drain_step(cfg, st, captured[i]).copy.pending == st.copy.pending);
        lemma_drain_keeps_pending(cfg, captured, spec_drain_step(cfg, st, captured[i]), i + 1);
    }
}

/// The walk phase never lowers the attempts counter or the rename counter.
proof fn lemma_walk_counters_monotone(
    cfg: CfgV,
    entries: Seq<crate::snapshot::SourceEntry>,
    st: PassStV,
    i: int,
)
    ensures
        spec_walk(cfg, entries, st, i).progress >= st.progress,
        spec_walk(cfg, entries, st, i).sequence >= st.sequence,
    decreases entries.len() - i,
{
    if 0 <= i < entries.len() {
        let st2 = spec_walk_step(cfg, st, &entries[i]);
        assert(st2.progress >= st.progress);
        assert(st2.sequence >= st.sequence);
        lemma_walk_counters_monotone(cfg, entries, st2, i + 1);
    }
}

/// The drain phase never lowers the attempts counter or the rename counter.
proof fn lemma_drain_counters_monotone(
    cfg: CfgV,
    captured: Seq<Seq<Seq<char>>>,
    st: PassStV,
    i: int,
)
    ensures
        spec_drain(cfg, captured, st, i).progress >= st.progress,
        spec_drain(cfg, captured, st, i).sequence >= st.sequence,
    decreases captured.len() - i,
{
    if 0 <= i < captured.len() {
        let st2 = spec_drain_step(cfg, st, captured[i]);
        assert(st2.progress >= st.progress);
        assert(st2.sequence >= st.sequence);
        lemma_drain_counters_monotone(cfg, captured, st2, i + 1);
    }
}

/// The counters only grow: no pass ever lowers or resets the attempts
/// counter, and the rename counter advances monotonically — one step per
/// successful stem, never backwards — across the walk and the drain alike.
pub proof fn lemma_pass_progress_monotone(
    cfg: CfgV,
    entries: Seq<crate::snapshot::SourceEntry>,
    st: PassStV,
)
    ensures
        spec_pass(cfg, entries, st).progress >= st.progress,
        spec_pass(cfg, entries, st).sequence >= st.sequence,
{
    lemma_walk_counters_monotone(cfg, entries, st, 0);
    let w = spec_walk(cfg, entries, st, 0);
    let emptied = PassStV {
        sequence: w.sequence,
        progress: w.progress,
        copy: CopyStV { pending: Seq::empty(), created: w.copy.created, ops: w.copy.ops },
    };
    lemma_drain_counters_monotone(cfg, w.copy.pending, emptied, 0);
}

/// At the end of any pass the pending-sidecar list is fully drained: the
/// walk's residue is captured and replayed, and the replays leave nothing
/// behind.
pub proof fn lemma_pass_drains_pending(
    cfg: CfgV,
    entries: Seq<crate::snapshot::SourceEntry>,
    st: PassStV,
)
    ensures
        spec_pass(cfg, entries, st).copy.pending.len() == 0,
{
    let w = spec_walk(cfg, entries, st, 0);
    let emptied = PassStV {
        sequence: w.sequence,
        progress: w.progress,
        copy: CopyStV { pending: Seq::empty(), created: w.copy.created, ops: w.copy.ops },
    };
    lemma_drain_keeps_pending(cfg, w.copy.pending, emptied, 0);
}

/// Law: a raw file and its accompanying JPEG, walked in that order under the
/// rename policy with companion copying on, yield exactly one planned
/// transfer of the JPEG. The raw's transfer plans the companion copy and
/// marks the companion as awaiting its mate; the JPEG's own entry then finds
/// the mark, removes it, and plans nothing — no second, independent copy,
/// and the pending list nets out to what it was.
pub proof fn lemma_pair_plans_jpeg_once(
    cfg: CfgV,
    st: PassStV,
    raw: &crate::snapshot::SourceEntry,
    jpeg: &crate::snapshot::SourceEntry,
)
    requires
        cfg.kind == StructureKind::Renamed,
        cfg.copy_jpg,
        !raw.is_dir,
        matches_v(cfg.filter, raw.path@, raw.size),
        st.sequence < i32::MAX as int,
        crate::path::path_ext_v(raw.path@).is_some(),
        crate::rename::stem_source_v(cfg.rename_name, raw.path@).is_some(),
        avoid_v(renamed_out0_v(cfg, st.sequence, raw.path@), st.copy.created) is Ok,
        accompanying_v(raw.path@, raw.has_jpg, raw.has_jpeg) == Ok::<Seq<Seq<char>>, ErrorKind>(
            jpeg.path@,
        ),
        !jpeg.is_dir,
        matches_v(cfg.filter, jpeg.path@, jpeg.size),
        crate::path::jpeg_v(jpeg.path@),
        jpeg.has_mate,
        !st.copy.pending.contains(jpeg.path@),
    ensures
        ({
            let st1 = spec_walk_step(cfg, st, raw);
            let st2 = spec_walk_step(cfg, st1, jpeg);
            let out = avoid_v(
                renamed_out0_v(cfg, st.sequence, raw.path@),
                st.copy.created,
            ).unwrap();
            &&& st1.copy.ops.len() >= 2
            &&& st1.copy.ops[st1.copy.ops.len() - 2] == (OpV {
                input: jpeg.path@,
                output: with_ext_v(out, "jpg"@),
                kind: CopyKind::JpegCompanion,
            })
            &&& st2.copy.ops == st1.copy.ops
            &&& st2.copy.created == st1.copy.created
            &&& st2.sequence == st1.sequence
            &&& st2.copy.pending == st.copy.pending
        }),
{
    let jp = jpeg.path@;
    // The raw is no JPEG itself: its companion lookup succeeded.
    assert(!crate::path::jpeg_v(raw.path@));
    let st1 = spec_walk_step(cfg, st, raw);
    let out0 = renamed_out0_v(cfg, st.sequence, raw.path@);
    let c1 = spec_ingest_copy(cfg, st.copy, raw.path@, out0, raw.has_jpg, raw.has_jpeg);
    assert(st1.copy == c1);
    assert(st1.sequence == st.sequence + 1);
    assert(c1.pending == st.copy.pending.push(jp));
    // The JPEG's own entry finds the mark and removes it, planning nothing.
    let st2 = spec_walk_step(cfg, st1, jpeg);
    assert(st1.copy.pending[st1.copy.pending.len() - 1] == jp);
    assert(st1.copy.pending.contains(jp));
    assert(st2.copy.pending == remove_path_v(st1.copy.pending, jp));
    // Removing the first occurrence takes out exactly the mark the raw left.
    st1.copy.pending.index_of_first_ensures(jp);
    let idx = st1.copy.pending.index_of_first(jp).unwrap();
    if idx < st.copy.pending.len() {
        assert(st.copy.pending[idx] == jp);
        assert(st.copy.pending.contains(jp));
    }
    assert(idx == st1.copy.pending.len() - 1);
    assert(st2.copy.pending =~= st.copy.pending);
}

impl Ingestor {
    /// Counts one attempt; the counter saturates instead of wrapping.
    fn bump_progress(&mut self)
        requires
            old(self).wf(),
        ensures
            final(self).wf(),
            old(self).same_config(final(self)),
            final(self).pending_view() == old(self).pending_view(),
            final(self).progress as int == bump_v(old(self).progress as int),
    {
        if self.progress < u64::MAX {
            self.progress = self.progress + 1;
        }
    }

    /// Runs one pass against the current target: walks the entries, routing
    /// each surviving one, then drains the pending sidecars with sidecar
    /// copying switched off and the flags restored afterwards.
    fn run_pass(
        &mut self,
        entries: &Vec<crate::snapshot::SourceEntry>,
        rename: &mut Rename,
        created: &mut PathSet,
        ops: &mut Vec<CopyOp>,
    )
        requires
            old(self).wf(),
            old(created).wf(),
            rename_matches_cfg(old(rename), old(self).cfg()),
        ensures
            final(self).wf(),
            final(created).wf(),
            old(self).same_config(final(self)),
            rename_matches_cfg(final(rename), old(self).cfg()),
            (PassStV {
                sequence: final(rename).sequence as int,
                progress: final(self).progress as int,
                copy: CopyStV {
                    pending: final(self).pending_view(),
                    created: final(created)@,
                    ops: final(ops).deep_view(),
                },
            }) == spec_pass(
                old(self).cfg(),
                entries@,
                PassStV {
                    sequence: old(rename).sequence as int,
                    progress: old(self).progress as int,
                    copy: CopyStV {
                        pending: old(self).pending_view(),
                        created: old(created)@,
                        ops: old(ops).deep_view(),
                    },
                },
            ),
    {
        let ghost cfg = old(self).cfg();
        let ghost st0 = PassStV {
            sequence: old(rename).sequence as int,
            progress: old(self).progress as int,
            copy: CopyStV {
                pending: old(self).pending_view(),
                created: old(created)@,
                ops: old(ops).deep_view(),
            },
        };
        let n = entries.len();
        let mut i: usize = 0;
        while i < n
            invariant
                i <= n,
                n == entries@.len(),
                self.wf(),
                created.wf(),
                old(self).same_config(self),
                self.cfg() == cfg,
                cfg == old(self).cfg(),
                rename_matches_cfg(rename, cfg),
                spec_walk(
                    cfg,
                    entries@,
                    PassStV {
                        sequence: rename.sequence as int,
                        progress: self.progress as int,
                        copy: CopyStV {
                            pending: self.pending_view(),
                            created: created@,
                            ops: ops.deep_view(),
                        },
                    },
                    i as int,
                ) == spec_walk(cfg, entries@, st0, 0),
                st0 == (PassStV {
                    sequence: old(rename).sequence as int,
                    progress: old(self).progress as int,
                    copy: CopyStV {
                        pending: old(self).pending_view(),
                        created: old(created)@,
                        ops: old(ops).deep_view(),
                    },
                }),
            decreases n - i,
        {
            let ghost before = PassStV {
                sequence: rename.sequence as int,
                progress: self.progress as int,
                copy: CopyStV {
                    pending: self.pending_view(),
                    created: created@,
                    ops: ops.deep_view(),
                },
            };
            let e = &entries[i];
            if !e.is_dir && self.filter.matches(&e.path, e.size) {
                self.bump_progress();
                let _ = self.map_entry(e, rename, created, ops);
            }
            proof {
                let after = PassStV {
                    sequence: rename.sequence as int,
                    progress: self.progress as int,
                    copy: CopyStV {
                        pending: self.pending_view(),
                        created: created@,
                        ops: ops.deep_view(),
                    },
                };
                assert(after =~= spec_walk_step(cfg, before, &entries@[i as int]));
                assert(self.cfg() =~= cfg);
            }
            i = i + 1;
        }
        let saved_xmp = self.copy_xmp;
        let saved_jpg = self.copy_jpg;
        self.copy_xmp = false;
        self.copy_jpg = false;
        proof {
            assert(self.cfg() =~= drain_cfg(cfg));
        }
        let ghost walked = spec_walk(cfg, entries@, st0, 0);
        let captured: Vec<FsPath> = self.pending.drain();
        proof {
            assert(captured.deep_view() == walked.copy.pending);
        }
        let m = captured.len();
        let mut j: usize = 0;
        while j < m
            invariant
                j <= m,
                m == captured.deep_view().len(),
                self.wf(),
                created.wf(),
                self.copy_xmp == false,
                self.copy_jpg == false,
                self.cfg() == drain_cfg(cfg),
                cfg == old(self).cfg(),
                rename_matches_cfg(rename, cfg),
                spec_drain(
                    cfg,
                    captured.deep_view(),
                    PassStV {
                        sequence: rename.sequence as int,
                        progress: self.progress as int,
                        copy: CopyStV {
                            pending: self.pending_view(),
                            created: created@,
                            ops: ops.deep_view(),
                        },
                    },
                    j as int,
                ) == spec_pass(cfg, entries@, st0),
                structure_kind(&self.structure) == cfg.kind,
                rename_base_name(&self.structure) == cfg.rename_name,
                rename_position(&self.structure) == cfg.position,
                rename_zeroes(&self.structure) == cfg.zeroes,
                self.target@ == cfg.target,
                self.filter@ == cfg.filter,
                self.backup == old(self).backup,
                self.sources == old(self).sources,
                self.depth == old(self).depth,
                init_sequence(&self.structure) == init_sequence(&old(self).structure),
            decreases m - j,
        {
            let ghost before = PassStV {
                sequence: rename.sequence as int,
                progress: self.progress as int,
                copy: CopyStV {
                    pending: self.pending_view(),
                    created: created@,
                    ops: ops.deep_view(),
                },
            };
            let p = &captured[j];
            self.bump_progress();
            proof {
                assert(rename_matches_cfg(rename, self.cfg()));
            }
            let _ = self.ingest_file_renamed(p, rename, false, false, created, ops);
            proof {
                let after = PassStV {
                    sequence: rename.sequence as int,
                    progress: self.progress as int,
                    copy: CopyStV {
                        pending: self.pending_view(),
                        created: created@,
                        ops: ops.deep_view(),
                    },
                };
                assert(after =~= spec_drain_step(cfg, before, captured.deep_view()[j as int]));
                assert(self.cfg() =~= drain_cfg(cfg));
            }
            j = j + 1;
        }
        self.copy_xmp = saved_xmp;
        self.copy_jpg = saved_jpg;
        proof {
            assert(old(self).same_config(self));
            assert((PassStV {
                sequence: rename.sequence as int,
                progress: self.progress as int,
                copy: CopyStV {
                    pending: self.pending_view(),
                    created: created@,
                    ops: ops.deep_view(),
                },
            }) =~= spec_pass(old(self).cfg(), entries@, st0));
        }
    }
}

/// The fold summing the sizes of the filter-matching files among the entries
/// from position `i` on.
pub open spec fn total_fold(
    f: FilterV,
    entries: Seq<crate::snapshot::SourceEntry>,
    acc: int,
    i: int,
) -> int
    decreases entries.len() - i,
{
    if i < 0 || i >= entries.len() {
        acc
    } else {
        let add: int = if !entries[i].is_dir && matches_v(f, entries[i].path@, entries[i].size) {
            entries[i].size as int
        } else {
            0
        };
        total_fold(f, entries, acc + add, i + 1)
    }
}

/// The bytes an ingestion of the entries requires: the sizes of all
/// filter-matching files, summed.
pub open spec fn total_size_v(f: FilterV, entries: Seq<crate::snapshot::SourceEntry>) -> int {
    total_fold(f, entries, 0, 0)
}

/// The fold collecting the paths of the filter-matching files among the
/// entries from position `i` on.
pub open spec fn files_fold(
    f: FilterV,
    entries: Seq<crate::snapshot::SourceEntry>,
    acc: Seq<Seq<Seq<char>>>,
    i: int,
) -> Seq<Seq<Seq<char>>>
    decreases entries.len() - i,
{
    if i < 0 || i >= entries.len() {
        acc
    } else {
        let acc2 = if !entries[i].is_dir && matches_v(f, entries[i].path@, entries[i].size) {
            acc.push(entries[i].path@)
        } else {
            acc
        };
        files_fold(f, entries, acc2, i + 1)
    }
}

/// The paths of the filter-matching files, in walk order.
pub open spec fn files_v(f: FilterV, entries: Seq<crate::snapshot::SourceEntry>) -> Seq<
    Seq<Seq<char>>,
> {
    files_fold(f, entries, Seq::empty(), 0)
}

/// The fold collecting the directories among the entries from position `i`
/// on.
pub open spec fn folders_fold(
    entries: Seq<crate::snapshot::SourceEntry>,
    acc: Seq<Seq<Seq<char>>>,
    i: int,
) -> Seq<Seq<Seq<char>>>
    decreases entries.len() - i,
{
    if i < 0 || i >= entries.len() {
        acc
    } else {
        let acc2 = if entries[i].is_dir {
            acc.push(entries[i].path@)
        } else {
            acc
        };
        folders_fold(entries, acc2, i + 1)
    }
}

/// The paths of the walked directories, in walk order.
pub open spec fn folders_v(entries: Seq<crate::snapshot::SourceEntry>) -> Seq<Seq<Seq<char>>> {
    folders_fold(entries, Seq::empty(), 0)
}

impl Ingestor {
    /// The required bytes, exactly; internal form without the saturation of
    /// the public query.
    fn total_size_wide(&self, entries: &Vec<crate::snapshot::SourceEntry>) -> (r: u128)
        ensures
            r as int == total_size_v(self.filter@, entries@),
            r as int <= entries@.len() * (u64::MAX as int),
    {
        let n = entries.len();
        let mut acc: u128 = 0;
        let mut i: usize = 0;
        while i < n
            invariant
                i <= n,
                n == entries@.len(),
                acc as int <= i as int * (u64::MAX as int),
                total_fold(self.filter@, entries@, acc as int, i as int) == total_size_v(
                    self.filter@,
                    entries@,
                ),
            decreases n - i,
        {
            let e = &entries[i];
            if !e.is_dir && self.filter.matches(&e.path, e.size) {
                proof {
                    assert(acc + e.size <= (i as int + 1) * (u64::MAX as int)) by (nonlinear_arith)
                        requires
                            acc as int <= i as int * (u64::MAX as int),
                            e.size <= u64::MAX,
                            i >= 0,
                    ;
                    assert((i as int + 1) * (u64::MAX as int) < u128::MAX) by (nonlinear_arith)
                        requires
                            i as int + 1 <= usize::MAX as int + 1,
                            usize::MAX as int <= u64::MAX as int,
                    ;
                }
                acc = acc + e.size as u128;
            }
            proof {
                assert(acc as int <= (i as int + 1) * (u64::MAX as int)) by (nonlinear_arith)
                    requires
                        acc as int <= i as int * (u64::MAX as int) + u64::MAX as int,
                        i >= 0,
                ;
            }
            i = i + 1;
        }
        acc
    }

    /// The total size of the files the run would copy: the sizes of all
    /// filter-matching files among the entries, summed, saturating at the
    /// largest representable value.
    pub fn total_size(&self, entries: &Vec<crate::snapshot::SourceEntry>) -> (r: u64)
        ensures
            total_size_v(self.filter@, entries@) <= u64::MAX ==> r as int == total_size_v(
                self.filter@,
                entries@,
            ),
            total_size_v(self.filter@, entries@) > u64::MAX ==> r == u64::MAX,
    {
        let wide = self.total_size_wide(entries);
        if wide > u64::MAX as u128 {
            u64::MAX
        } else {
            wide as u64
        }
    }

    /// Whether the destination volumes fit the run's requirement raised by
    /// `extra` spare bytes. `free` is the target volume's free byte count;
    /// `backup` is the backup volume's report when a backup is configured.
    pub fn fits_with(
        &self,
        entries: &Vec<crate::snapshot::SourceEntry>,
        free: u64,
        backup: &Option<crate::space::BackupNeeds>,
        extra: u64,
    ) -> (r: bool)
        ensures
            r == crate::space::fits_v(
                total_size_v(self.filter@, entries@),
                free as int,
                *backup,
                extra as int,
            ),
    {
        let total = self.total_size_wide(entries);
        let n = entries.len();
        proof {
            assert(total + extra <= u128::MAX) by (nonlinear_arith)
                requires
                    total as int <= n as int * (u64::MAX as int),
                    n <= usize::MAX,
                    usize::MAX as int <= u64::MAX as int,
                    extra <= u64::MAX,
            ;
        }
        let need = total + extra as u128;
        match backup {
            None => (free as u128) > need,
            Some(b) => {
                if b.same_disk {
                    if total > u64::MAX as u128 {
                        false
                    } else {
                        (free as u128) > 2 * total + extra as u128
                    }
                } else {
                    (free as u128) > need && (b.free as u128) > need
                }
            },
        }
    }

    /// Whether the destination volumes fit the run exactly as required.
    pub fn fits(
        &self,
        entries: &Vec<crate::snapshot::SourceEntry>,
        free: u64,
        backup: &Option<crate::space::BackupNeeds>,
    ) -> (r: bool)
        ensures
            r == crate::space::fits_v(
                total_size_v(self.filter@, entries@),
                free as int,
                *backup,
                0,
            ),
    {
        self.fits_with(entries, free, backup, 0)
    }

    /// The read-only snapshot of what the run requires and what is
    /// available, for display; nothing is mutated.
    pub fn needs(
        &self,
        entries: &Vec<crate::snapshot::SourceEntry>,
        free: u64,
        backup: Option<crate::space::BackupNeeds>,
    ) -> (r: crate::space::Needs)
        ensures
            total_size_v(self.filter@, entries@) <= u64::MAX ==> r.total as int == total_size_v(
                self.filter@,
                entries@,
            ),
            total_size_v(self.filter@, entries@) > u64::MAX ==> r.total == u64::MAX,
            r.free == free,
            r.backup == backup,
    {
        crate::space::Needs { total: self.total_size(entries), free, backup }
    }

    /// The paths of the files the filter accepts, in walk order.
    pub fn files(&self, entries: &Vec<crate::snapshot::SourceEntry>) -> (r: Vec<FsPath>)
        ensures
            r.deep_view() == files_v(self.filter@, entries@),
    {
        let n = entries.len();
        let mut r: Vec<FsPath> = Vec::new();
        proof {
            assert(r.deep_view() =~= Seq::<Seq<Seq<char>>>::empty());
        }
        let mut i: usize = 0;
        while i < n
            invariant
                i <= n,
                n == entries@.len(),
                files_fold(self.filter@, entries@, r.deep_view(), i as int) == files_v(
                    self.filter@,
                    entries@,
                ),
            decreases n - i,
        {
            let e = &entries[i];
            if !e.is_dir && self.filter.matches(&e.path, e.size) {
                let ghost before = r.deep_view();
                r.push(e.path.clone());
                proof {
                    assert(r.deep_view() =~= before.push(entries@[i as int].path@));
                }
            }
            i = i + 1;
        }
        r
    }

    /// What the backup volume reports for the preflight, when a backup is
    /// configured.
    pub open spec fn backup_report(&self, snap: &crate::snapshot::Snapshot) -> Option<
        crate::space::BackupNeeds,
    > {
        if self.backup.is_some() {
            Some(
                crate::space::BackupNeeds {
                    free: snap.backup.unwrap().free,
                    same_disk: snap.same_disk,
                },
            )
        } else {
            None
        }
    }

    /// The state a pass starts from: the counter the layout policy embeds,
    /// the current attempts counter and pending list, the destination paths
    /// that already exist (first occurrences kept), and the operations
    /// planned so far.
    pub open spec fn pass_start(&self, existing: Seq<Seq<Seq<char>>>, ops0: Seq<OpV>) -> PassStV {
        PassStV {
            sequence: init_sequence(&self.structure),
            progress: self.progress as int,
            copy: CopyStV {
                pending: self.pending_view(),
                created: crate::pathset::dedup_v(existing),
                ops: ops0,
            },
        }
    }

    /// Runs the backup pass, appending its operations to `ops`: without a
    /// configured backup nothing happens; otherwise the target moves to the
    /// backup root and the backup field is consumed (a backup is never backed
    /// up again), the preflight demands strictly more free bytes on the
    /// backup volume than the run requires, and one full pass runs against
    /// the new target. The counter restarts from the layout policy's own, so
    /// both destinations receive the same names.
    pub fn backup(
        &mut self,
        snap: &crate::snapshot::Snapshot,
        cancelled: bool,
        ops: &mut Vec<CopyOp>,
    ) -> (r: Result<(), ErrorKind>)
        requires
            old(self).wf(),
            old(self).backup is Some ==> snap.backup is Some,
        ensures
            final(self).wf(),
            old(self).same_policy(final(self)),
            final(self).progress >= old(self).progress,
            old(self).backup is None ==> r == Ok::<(), ErrorKind>(()) && *final(self) == *old(self)
                && *final(ops) == *old(ops),
            old(self).backup is Some && cancelled ==> r == Err::<(), ErrorKind>(
                ErrorKind::Cancelled,
            ) && *final(self) == *old(self) && *final(ops) == *old(ops),
            old(self).backup is Some && !cancelled ==> final(self).target@ == old(
                self,
            ).backup.unwrap()@ && final(self).backup is None,
            old(self).backup is Some && !cancelled && !crate::space::fits_v(
                total_size_v(old(self).filter@, snap.entries@),
                snap.backup.unwrap().free as int,
                None,
                0,
            ) ==> r == Err::<(), ErrorKind>(ErrorKind::InsufficientSpace) && *final(ops) == *old(
                ops,
            ) && final(self).progress == old(self).progress && final(self).pending_view() == old(
                self,
            ).pending_view(),
            old(self).backup is Some && !cancelled && crate::space::fits_v(
                total_size_v(old(self).filter@, snap.entries@),
                snap.backup.unwrap().free as int,
                None,
                0,
            ) ==> r == Ok::<(), ErrorKind>(()) && ({
                let p = spec_pass(
                    CfgV { target: old(self).backup.unwrap()@, ..old(self).cfg() },
                    snap.entries@,
                    old(self).pass_start(
                        snap.backup.unwrap().existing.deep_view(),
                        old(ops).deep_view(),
                    ),
                );
                &&& final(self).progress as int == p.progress
                &&& final(self).pending_view() == p.copy.pending
                &&& final(self).pending_view().len() == 0
                &&& final(ops).deep_view() == p.copy.ops
            }),
    {
        let bk = match &self.backup {
            Some(b) => b.clone(),
            None => {
                return Ok(());
            },
        };
        if cancelled {
            return Err(ErrorKind::Cancelled);
        }
        self.target = bk;
        self.backup = None;
        let vol = match &snap.backup {
            Some(v) => v,
            None => {
                proof {
                    assert(false);
                }
                return Err(ErrorKind::IOError);
            },
        };
        if !self.fits(&snap.entries, vol.free, &None) {
            return Err(ErrorKind::InsufficientSpace);
        }
        let mut rename: Rename = match &self.structure {
            Structure::Rename(r) => r.clone(),
            _ => Rename::default(),
        };
        let mut created = PathSet::from_vec(&vol.existing);
        proof {
            assert(self.cfg() =~= (CfgV {
                target: old(self).backup.unwrap()@,
                ..old(self).cfg()
            }));
        }
        self.run_pass(&snap.entries, &mut rename, &mut created, ops);
        proof {
            lemma_pass_drains_pending(
                CfgV { target: old(self).backup.unwrap()@, ..old(self).cfg() },
                snap.entries@,
                old(self).pass_start(
                    snap.backup.unwrap().existing.deep_view(),
                    old(ops).deep_view(),
                ),
            );
            lemma_pass_progress_monotone(
                CfgV { target: old(self).backup.unwrap()@, ..old(self).cfg() },
                snap.entries@,
                old(self).pass_start(
                    snap.backup.unwrap().existing.deep_view(),
                    old(ops).deep_view(),
                ),
            );
        }
        Ok(())
    }

    /// Runs the whole ingestion, appending the planned operations to `ops`.
    /// A set cancellation flag fails immediately with `Cancelled` and plans
    /// nothing. A failed preflight fails with `InsufficientSpace` before any
    /// copy is planned. Otherwise one pass runs against the target, and, when
    /// a backup is configured, the backup pass of `backup` follows.
    pub fn ingest(
        &mut self,
        snap: &crate::snapshot::Snapshot,
        cancelled: bool,
        ops: &mut Vec<CopyOp>,
    ) -> (r: Result<(), ErrorKind>)
        requires
            old(self).wf(),
            old(self).backup is Some ==> snap.backup is Some,
        ensures
            final(self).wf(),
            old(self).same_policy(final(self)),
            final(self).progress >= old(self).progress,
            cancelled ==> r == Err::<(), ErrorKind>(ErrorKind::Cancelled) && *final(self) == *old(
                self,
            ) && *final(ops) == *old(ops),
            !cancelled && !crate::space::fits_v(
                total_size_v(old(self).filter@, snap.entries@),
                snap.target.free as int,
                old(self).backup_report(snap),
                0,
            ) ==> r == Err::<(), ErrorKind>(ErrorKind::InsufficientSpace) && *final(self) == *old(
                self,
            ) && *final(ops) == *old(ops),
            !cancelled && crate::space::fits_v(
                total_size_v(old(self).filter@, snap.entries@),
                snap.target.free as int,
                old(self).backup_report(snap),
                0,
            ) ==> ({
                let p1 = spec_pass(
                    old(self).cfg(),
                    snap.entries@,
                    old(self).pass_start(snap.target.existing.deep_view(), old(ops).deep_view()),
                );
                match old(self).backup {
                    None => {
                        &&& r == Ok::<(), ErrorKind>(())
                        &&& final(self).target@ == old(self).target@
                        &&& final(self).backup is None
                        &&& final(self).progress as int == p1.progress
                        &&& final(self).pending_view() == p1.copy.pending
                        &&& final(self).pending_view().len() == 0
                        &&& final(ops).deep_view() == p1.copy.ops
                    },
                    Some(b) => {
                        &&& final(self).target@ == b@
                        &&& final(self).backup is None
                        &&& if crate::space::fits_v(
                            total_size_v(old(self).filter@, snap.entries@),
                            snap.backup.unwrap().free as int,
                            None,
                            0,
                        ) {
                            let p2 = spec_pass(
                                CfgV { target: b@, ..old(self).cfg() },
                                snap.entries@,
                                PassStV {
                                    sequence: init_sequence(&old(self).structure),
                                    progress: p1.progress,
                                    copy: CopyStV {
                                        pending: p1.copy.pending,
                                        created: crate::pathset::dedup_v(
                                            snap.backup.unwrap().existing.deep_view(),
                                        ),
                                        ops: p1.copy.ops,
                                    },
                                },
                            );
                            &&& r == Ok::<(), ErrorKind>(())
                            &&& final(self).progress as int == p2.progress
                            &&& final(self).pending_view() == p2.copy.pending
                            &&& final(self).pending_view().len() == 0
                            &&& final(ops).deep_view() == p2.copy.ops
                        } else {
                            &&& r == Err::<(), ErrorKind>(ErrorKind::InsufficientSpace)
                            &&& final(self).progress as int == p1.progress
                            &&& final(self).pending_view() == p1.copy.pending
                            &&& final(self).pending_view().len() == 0
                            &&& final(ops).deep_view() == p1.copy.ops
                        }
                    },
                }
            }),
    {
        if cancelled {
            return Err(ErrorKind::Cancelled);
        }
        let report: Option<crate::space::BackupNeeds> = if self.backup.is_some() {
            match &snap.backup {
                Some(v) => Some(
                    crate::space::BackupNeeds { free: v.free, same_disk: snap.same_disk },
                ),
                None => None,
            }
        } else {
            None
        };
        proof {
            assert(report == old(self).backup_report(snap));
        }
        if !self.fits(&snap.entries, snap.target.free, &report) {
            return Err(ErrorKind::InsufficientSpace);
        }
        let mut rename: Rename = match &self.structure {
            Structure::Rename(r) => r.clone(),
            _ => Rename::default(),
        };
        let mut created = PathSet::from_vec(&snap.target.existing);
        self.run_pass(&snap.entries, &mut rename, &mut created, ops);
        proof {
            lemma_pass_drains_pending(
                old(self).cfg(),
                snap.entries@,
                old(self).pass_start(snap.target.existing.deep_view(), old(ops).deep_view()),
            );
            lemma_pass_progress_monotone(
                old(self).cfg(),
                snap.entries@,
                old(self).pass_start(snap.target.existing.deep_view(), old(ops).deep_view()),
            );
        }
        match self.backup(snap, cancelled, ops) {
            Ok(_) => Ok(()),
            Err(e) => Err(e),
        }
    }

    /// A fresh builder.
    pub fn builder() -> (r: crate::builder::IngestorBuilder)
        ensures
            r.structure is None,
            r.target is None,
            r.backup is None,
            r.sources is None,
            r.filter is None,
            r.copy_xmp is None,
            r.copy_jpg is None,
            r.ignore_hidden is None,
            r.progress is None,
            r.depth is None,
    {
        crate::builder::IngestorBuilder::new()
    }

    /// The paths of the walked directories, in walk order.
    pub fn folders(&self, entries: &Vec<crate::snapshot::SourceEntry>) -> (r: Vec<FsPath>)
        ensures
            r.deep_view() == folders_v(entries@),
    {
        let n = entries.len();
        let mut r: Vec<FsPath> = Vec::new();
        proof {
            assert(r.deep_view() =~= Seq::<Seq<Seq<char>>>::empty());
        }
        let mut i: usize = 0;
        while i < n
            invariant
                i <= n,
                n == entries@.len(),
                folders_fold(entries@, r.deep_view(), i as int) == folders_v(entries@),
            decreases n - i,
        {
            let e = &entries[i];
            if e.is_dir {
                let ghost before = r.deep_view();
                r.push(e.path.clone());
                proof {
                    assert(r.deep_view() =~= before.push(entries@[i as int].path@));
                }
            }
            i = i + 1;
        }
        r
    }
}

} // verus!
