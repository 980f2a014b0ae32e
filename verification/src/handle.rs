//! Open-handle state, directory entries, read plans, and the engine's
//! error vocabulary.

use vstd::prelude::*;

verus! {

use crate::attr::FileAttr;
use crate::attr::FileKind;
use crate::attr::PatchHeader;

/// The fixed error vocabulary of the engine.
#[derive(Clone, Copy, Debug, PartialEq, Eq, Structural)]
pub enum FsError {
    /// Unknown path, unknown handle, or a handle of the wrong kind.
    NotFound,
    /// An operation outside the supported read-only set.
    NotSupported,
    /// Materialization failed; the affected read may be retried.
    IOFailure,
}

/// One open session token's state. A `File` handle caches the materialized
/// bytes from the first successful read until release.
#[derive(Debug)]
pub enum Handle {
    Directory { attr: FileAttr },
    File { attr: FileAttr, header: PatchHeader, data: Option<Vec<u8>> },
}

/// One row of a directory listing.
#[derive(Debug)]
pub struct DirEntry {
    pub name: Vec<u8>,
    pub kind: FileKind,
}

/// What a read needs next: either the bytes are cached and a slice can be
/// served, or the caller must run the patch codec on the returned header
/// and hand the outcome back.
#[derive(Debug)]
pub enum ReadPlan {
    Serve(Vec<u8>),
    Materialize(PatchHeader),
}

/// The attributes stored in a handle, of either kind.
pub open spec fn handle_attr(h: Handle) -> FileAttr {
    match h {
        Handle::Directory { attr } => attr,
        Handle::File { attr, .. } => attr,
    }
}

/// Whether a handle is a directory handle.
pub open spec fn is_dir_handle(h: Handle) -> bool {
    h is Directory
}

/// Whether a handle is a file handle.
pub open spec fn is_file_handle(h: Handle) -> bool {
    h is File
}

/// The patch header of a file handle.
pub open spec fn file_header(h: Handle) -> PatchHeader
    recommends
        is_file_handle(h),
{
    match h {
        Handle::File { header, .. } => header,
        Handle::Directory { .. } => arbitrary(),
    }
}

/// The cached materialized bytes of a file handle, if any.
pub open spec fn file_cache(h: Handle) -> Option<Seq<u8>> {
    match h {
        Handle::File { data: Some(bytes), .. } => Some(bytes@),
        _ => None,
    }
}

} // verus!
