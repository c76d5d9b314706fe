//! The builder for an ingestion engine. Four fields are required: the layout
//! policy, the target root, the sources and the filter; building without one
//! of them fails with a missing-field error. The sidecar flags default to on,
//! the traversal depth to unlimited, the attempts counter to zero.

use vstd::prelude::*;

use crate::errors::ErrorKind;
use crate::filter::Filter;
use crate::ingestor::{init_sequence, rename_base_name, rename_position, rename_zeroes,
    structure_kind, Ingestor, Structure};
use crate::path::{clone_paths, FsPath};
use crate::pathset::PathSet;

verus! {

/// Collects the configuration of an `Ingestor` before it is built.
#[derive(Debug)]
pub struct IngestorBuilder {
    /// The layout policy; required.
    pub structure: Option<Structure>,
    /// The destination root; required.
    pub target: Option<FsPath>,
    /// The optional secondary destination root.
    pub backup: Option<FsPath>,
    /// The source roots; required.
    pub sources: Option<Vec<FsPath>>,
    /// The filter; required.
    pub filter: Option<Filter>,
    /// Whether like-named `.xmp` sidecars are copied along; defaults to on.
    pub copy_xmp: Option<bool>,
    /// Whether accompanying JPEGs are copied along; defaults to on.
    pub copy_jpg: Option<bool>,
    /// Kept for configuration completeness; the filter carries its own
    /// hidden-file switch.
    pub ignore_hidden: Option<bool>,
    /// The starting value of the attempts counter; defaults to zero.
    pub progress: Option<u64>,
    /// The maximum traversal depth; defaults to unlimited.
    pub depth: Option<usize>,
}

impl Default for IngestorBuilder {
    /// A builder with nothing set.
    fn default() -> (r: IngestorBuilder)
        ensures
            r.structure is None,
            r.target is None,
            r.backup is None,
            r.sources is None,
            r.filter is None,
            r.copy_xmp is None,
            r.copy_jpg is None,
            r.ignore_hidden is None,
            r.progress is None,
            r.depth is None,
    {
        IngestorBuilder {
            structure: None,
            target: None,
            backup: None,
            sources: None,
            filter: None,
            copy_xmp: None,
            copy_jpg: None,
            ignore_hidden: None,
            progress: None,
            depth: None,
        }
    }
}

impl IngestorBuilder {
    /// A builder with nothing set.
    pub fn new() -> (r: IngestorBuilder)
        ensures
            r.structure is None,
            r.target is None,
            r.backup is None,
            r.sources is None,
            r.filter is None,
            r.copy_xmp is None,
            r.copy_jpg is None,
            r.ignore_hidden is None,
            r.progress is None,
            r.depth is None,
    {
        Self::default()
    }

    /// A builder preloaded with the stock image filter.
    pub fn images() -> (r: IngestorBuilder)
        ensures
            r.structure is None,
            r.target is None,
            r.backup is None,
            r.sources is None,
            r.filter matches Some(f) && f@.extensions == crate::filter::raw_exts_v()
                + crate::filter::lossy_exts_v() && f@.min_size == 0 && f@.max_size == u64::MAX
                && f@.ignore_hidden == true,
            r.copy_xmp is None,
            r.copy_jpg is None,
            r.ignore_hidden is None,
            r.progress is None,
            r.depth is None,
    {
        IngestorBuilder { filter: Some(Filter::images()), ..Self::default() }
    }

    /// Sets the layout policy.
    pub fn with_structure(&mut self, structure: Structure) -> (r: &mut Self)
        ensures
            *r == (IngestorBuilder { structure: Some(structure), ..*old(self) }),
            *final(self) == *final(r),
    {
        self.structure = Some(structure);
        self
    }

    /// Sets the maximum traversal depth.
    pub fn with_depth(&mut self, depth: usize) -> (r: &mut Self)
        ensures
            *r == (IngestorBuilder { depth: Some(depth), ..*old(self) }),
            *final(self) == *final(r),
    {
        self.depth = Some(depth);
        self
    }

    /// Sets the destination root.
    pub fn with_target(&mut self, target: FsPath) -> (r: &mut Self)
        ensures
            *r == (IngestorBuilder { target: Some(target), ..*old(self) }),
            *final(self) == *final(r),
    {
        self.target = Some(target);
        self
    }

    /// Sets the source roots, in walk order.
    pub fn with_source(&mut self, sources: Vec<FsPath>) -> (r: &mut Self)
        ensures
            *r == (IngestorBuilder { sources: Some(sources), ..*old(self) }),
            *final(self) == *final(r),
    {
        self.sources = Some(sources);
        self
    }

    /// Sets the filter.
    pub fn with_filter(&mut self, filter: Filter) -> (r: &mut Self)
        ensures
            *r == (IngestorBuilder { filter: Some(filter), ..*old(self) }),
            *final(self) == *final(r),
    {
        self.filter = Some(filter);
        self
    }

    /// Sets the starting value of the attempts counter.
    pub fn progress(&mut self, progress: u64) -> (r: &mut Self)
        ensures
            *r == (IngestorBuilder { progress: Some(progress), ..*old(self) }),
            *final(self) == *final(r),
    {
        self.progress = Some(progress);
        self
    }

    /// Switches the `.xmp` sidecar copying on or off.
    pub fn copy_xmp(&mut self, copy_xmp: bool) -> (r: &mut Self)
        ensures
            *r == (IngestorBuilder { copy_xmp: Some(copy_xmp), ..*old(self) }),
            *final(self) == *final(r),
    {
        self.copy_xmp = Some(copy_xmp);
        self
    }

    /// Switches the accompanying-JPEG copying on or off.
    pub fn copy_jpg(&mut self, copy_jpg: bool) -> (r: &mut Self)
        ensures
            *r == (IngestorBuilder { copy_jpg: Some(copy_jpg), ..*old(self) }),
            *final(self) == *final(r),
    {
        self.copy_jpg = Some(copy_jpg);
        self
    }

    /// Sets the secondary destination root.
    pub fn backup(&mut self, backup: FsPath) -> (r: &mut Self)
        ensures
            *r == (IngestorBuilder { backup: Some(backup), ..*old(self) }),
            *final(self) == *final(r),
    {
        self.backup = Some(backup);
        self
    }

    /// Builds the engine. Fails with a missing-field error unless the layout
    /// policy, the target, the sources and the filter are all set; the other
    /// fields take their defaults. The engine starts with an empty
    /// pending-sidecar list.
    pub fn build(&self) -> (r: Result<Ingestor, ErrorKind>)
        ensures
            (self.structure is Some && self.target is Some && self.sources is Some
                && self.filter is Some) <==> r is Ok,
            r matches Err(e) ==> e == ErrorKind::MissingField,
            r matches Ok(ing) ==> {
                &&& structure_kind(&ing.structure) == structure_kind(&self.structure.unwrap())
                &&& rename_base_name(&ing.structure) == rename_base_name(&self.structure.unwrap())
                &&& rename_position(&ing.structure) == rename_position(&self.structure.unwrap())
                &&& rename_zeroes(&ing.structure) == rename_zeroes(&self.structure.unwrap())
                &&& init_sequence(&ing.structure) == init_sequence(&self.structure.unwrap())
                &&& ing.target@ == self.target.unwrap()@
                &&& (ing.backup is Some <==> self.backup is Some)
                &&& (ing.backup matches Some(b) ==> b@ == self.backup.unwrap()@)
                &&& ing.sources.deep_view() == self.sources.unwrap().deep_view()
                &&& ing.filter@ == self.filter.unwrap()@
                &&& ing.copy_xmp == if self.copy_xmp is Some {
                    self.copy_xmp.unwrap()
                } else {
                    true
                }
                &&& ing.copy_jpg == if self.copy_jpg is Some {
                    self.copy_jpg.unwrap()
                } else {
                    true
                }
                &&& ing.progress == if self.progress is Some {
                    self.progress.unwrap()
                } else {
                    0u64
                }
                &&& ing.depth == if self.depth is Some {
                    self.depth.unwrap()
                } else {
                    usize::MAX
                }
                &&& ing.pending_view() == Seq::<Seq<Seq<char>>>::empty()
                &&& ing.wf()
            },
    {
        let structure = match &self.structure {
            Some(s) => s.clone(),
            None => {
                return Err(ErrorKind::MissingField);
            },
        };
        let target = match &self.target {
            Some(t) => t.clone(),
            None => {
                return Err(ErrorKind::MissingField);
            },
        };
        let sources = match &self.sources {
            Some(s) => clone_paths(s),
            None => {
                return Err(ErrorKind::MissingField);
            },
        };
        let filter = match &self.filter {
            Some(f) => f.clone(),
            None => {
                return Err(ErrorKind::MissingField);
            },
        };
        let backup = match &self.backup {
            Some(b) => Some(b.clone()),
            None => None,
        };
        let copy_xmp = match self.copy_xmp {
            Some(v) => v,
            None => true,
        };
        let copy_jpg = match self.copy_jpg {
            Some(v) => v,
            None => true,
        };
        let progress = match self.progress {
            Some(v) => v,
            None => 0,
        };
        let depth = match self.depth {
            Some(v) => v,
            None => usize::MAX,
        };
        Ok(
            Ingestor {
                structure,
                target,
                backup,
                sources,
                filter,
                copy_xmp,
                copy_jpg,
                progress,
                depth,
                pending: PathSet::new(),
            },
        )
    }
}

} // verus!
