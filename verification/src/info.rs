//! The data the operations exchange with the surrounding process.
//!
//! The process observes a path once per request and reports what it
//! saw as a [`PathStatus`]: the path was missing, its metadata could be
//! read, or it exists but the metadata query failed.  The operations
//! turn such an observation into a [`FileInfo`] snapshot or a decision;
//! no state survives from one request to the next.

use vstd::prelude::*;

verus! {

/// What a successful metadata query reported about a path.
#[derive(Clone, Copy, Debug)]
pub struct Metadata {
    /// The path resolves to a regular file.
    pub is_file: bool,
    /// The path resolves to a directory.
    pub is_dir: bool,
    /// Size in bytes.
    pub len: u64,
    /// The read-only permission flag.
    pub readonly: bool,
    /// Last-modified time in seconds since the epoch, when available.
    pub modified_secs: Option<u64>,
}

impl Metadata {
    /// No path resolves to a regular file and a directory at once.
    pub open spec fn wf(self) -> bool {
        !(self.is_file && self.is_dir)
    }
}

/// One observation of a path, made fresh for the request at hand.
#[derive(Clone, Debug)]
pub enum PathStatus {
    /// The path does not exist.
    Missing,
    /// The path exists and its metadata could be read.
    Found(Metadata),
    /// The path exists but the metadata query failed, with this cause.
    Inaccessible(String),
}

impl PathStatus {
    /// An observation is well formed when any metadata it carries is.
    pub open spec fn wf(self) -> bool {
        match self {
            PathStatus::Found(m) => m.wf(),
            _ => true,
        }
    }
}

/// A snapshot describing a path, handed back to the front end.
///
/// Immutable once constructed, and discarded after the request.
#[derive(Clone, Debug, PartialEq, Eq)]
pub struct FileInfo {
    /// The path exists.
    pub exists: bool,
    /// The path resolves to a regular file.
    pub is_file: bool,
    /// The path resolves to a directory.
    pub is_dir: bool,
    /// Size in bytes; zero when the path does not exist.
    pub size: u64,
    /// Last-modified time in seconds since the epoch, as text.
    pub last_modified: Option<String>,
    /// The read-only permission flag.
    pub readonly: bool,
    /// The path the snapshot describes.
    pub path: String,
}

impl FileInfo {
    /// A snapshot never flags a path as both a regular file and a
    /// directory, and one of a missing path carries only the existence
    /// flag and the path itself; every other field is at its default.
    pub open spec fn wf(self) -> bool {
        &&& !(self.is_file && self.is_dir)
        &&& !self.exists ==> {
            &&& !self.is_file
            &&& !self.is_dir
            &&& self.size == 0
            &&& self.last_modified is None
            &&& !self.readonly
        }
    }
}

} // verus!
