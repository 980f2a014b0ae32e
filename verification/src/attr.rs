//! Plain-value filesystem metadata: timestamps, file kinds, attribute
//! records, and the patch headers that attributes are synthesized from.

use vstd::prelude::*;

verus! {

/// A point in time as seconds and nanoseconds since the Unix epoch.
#[derive(Clone, Copy, Debug, PartialEq, Eq, Structural)]
pub struct TimeSpec {
    pub sec: i64,
    pub nsec: i32,
}

/// The kind of a directory entry: the namespace is flat, so only the root
/// directory and regular files ever occur.
#[derive(Clone, Copy, Debug, PartialEq, Eq, Structural)]
pub enum FileKind {
    Directory,
    RegularFile,
}

/// Synthesized metadata for one node, as the protocol layer reports it.
#[derive(Clone, Copy, Debug, PartialEq, Eq, Structural)]
pub struct FileAttr {
    pub size: u64,
    pub blocks: u64,
    pub atime: TimeSpec,
    pub mtime: TimeSpec,
    pub ctime: TimeSpec,
    pub crtime: TimeSpec,
    pub kind: FileKind,
    pub perm: u16,
    pub nlink: u32,
    pub uid: u32,
    pub gid: u32,
    pub rdev: u32,
    pub flags: u32,
}

/// Per-entry patch metadata: the size of the patched image and its
/// timestamps. Whatever else the codec needs to materialize the bytes is
/// owned by the codec; this record is what the engine reads. Immutable once
/// loaded into the registry.
#[derive(Clone, Copy, Debug, PartialEq, Eq, Structural)]
pub struct PatchHeader {
    pub target_size: u64,
    pub create_time: TimeSpec,
    pub modify_time: TimeSpec,
    pub access_time: TimeSpec,
}

/// The zero timestamp, used for the synthesized root directory.
pub open spec fn spec_epoch() -> TimeSpec {
    TimeSpec { sec: 0, nsec: 0 }
}

/// The fixed validity window attached to every attribute reply.
pub open spec fn spec_ttl() -> TimeSpec {
    TimeSpec { sec: 1, nsec: 0 }
}

/// The synthesized attributes of the root directory: empty, read-only,
/// zero timestamps, owned by the given user and group.
pub open spec fn spec_root_attr(uid: u32, gid: u32) -> FileAttr {
    FileAttr {
        size: 0,
        blocks: 0,
        atime: spec_epoch(),
        mtime: spec_epoch(),
        ctime: spec_epoch(),
        crtime: spec_epoch(),
        kind: FileKind::Directory,
        perm: 0o444,
        nlink: 1,
        uid,
        gid,
        rdev: 0,
        flags: 0,
    }
}

/// The synthesized attributes of one virtual file: size and timestamps come
/// from the patch header, the rest is fixed read-only metadata.
pub open spec fn spec_file_attr(header: PatchHeader, uid: u32, gid: u32) -> FileAttr {
    FileAttr {
        size: header.target_size,
        blocks: 0,
        atime: header.access_time,
        mtime: header.modify_time,
        ctime: header.modify_time,
        crtime: header.create_time,
        kind: FileKind::RegularFile,
        perm: 0o444,
        nlink: 1,
        uid,
        gid,
        rdev: 0,
        flags: 0,
    }
}

/// Returns the zero timestamp.
pub fn epoch() -> (t: TimeSpec)
    ensures
        t == spec_epoch(),
{
    TimeSpec { sec: 0, nsec: 0 }
}

/// Returns the attribute-reply validity window.
pub fn attr_ttl() -> (t: TimeSpec)
    ensures
        t == spec_ttl(),
{
    TimeSpec { sec: 1, nsec: 0 }
}

} // verus!
