//! Verified media-ingestion engine.
//!
//! The library decides everything about an ingestion run — which files the
//! filter accepts, how sequential renaming numbers them, how RAW/JPEG pairs
//! and XMP sidecars are handled, whether the destination volumes have room,
//! and which copy operations to perform in which order — as pure, verified
//! code over plain data. The filesystem itself (directory walking, metadata,
//! free-space queries, the copies) is a collaborator: an unverified runner
//! gathers a snapshot of the sources and destinations, hands it to the
//! engine, and performs the copy operations the engine returns.

pub mod builder;
pub mod collision;
pub mod errors;
pub mod filter;
pub mod fname;
pub mod ingestor;
pub mod path;
pub mod pathset;
pub mod rename;
pub mod sidecar;
pub mod snapshot;
pub mod space;
pub mod strutil;

pub use builder::IngestorBuilder;
pub use collision::exists_plus_one;
pub use errors::ErrorKind;
pub use filter::Filter;
pub use ingestor::{Ingestor, Structure, StructureKind};
pub use path::{FsPath, IsHidden, IsJpeg};
pub use pathset::PathSet;
pub use rename::{Position, Rename};
pub use sidecar::accompanying_jpeg;
pub use snapshot::{CopyKind, CopyOp, Snapshot, SourceEntry, VolumeStatus};
pub use space::{BackupNeeds, Needs};
