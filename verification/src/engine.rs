//! The virtual filesystem engine: translates protocol calls into registry
//! lookups and handle-table updates, synthesizes attributes, and drives the
//! lazy per-handle materialization protocol.

use vstd::prelude::*;

verus! {

broadcast use vstd::std_specs::hash::group_hash_axioms;

use std::collections::HashMap;

use crate::attr::FileAttr;
use crate::attr::PatchHeader;
use crate::attr::TimeSpec;
use crate::attr::attr_ttl;
use crate::attr::spec_file_attr;
use crate::attr::spec_root_attr;
use crate::attr::spec_ttl;
use crate::bytes::is_root;
use crate::bytes::norm;
use crate::bytes::clamped_slice;
use crate::bytes::copy_bytes;
use crate::bytes::spec_clamp;
use crate::bytes::spec_norm;
use crate::handle::DirEntry;
use crate::handle::FsError;
use crate::handle::Handle;
use crate::handle::ReadPlan;
use crate::handle::file_cache;
use crate::handle::file_header;
use crate::handle::handle_attr;
use crate::handle::is_dir_handle;
use crate::handle::is_file_handle;
use crate::registry::Registry;
use crate::registry::RegistryEntry;
use crate::registry::names_unique;
use crate::registry::spec_lookup;

/// The name at position `i` of a root-directory listing: `.`, `..`, then
/// the registry names in order.
pub open spec fn listing_name(entries: Seq<RegistryEntry>, i: int) -> Seq<u8> {
    if i == 0 {
        seq![46u8]
    } else if i == 1 {
        seq![46u8, 46u8]
    } else {
        entries[i - 2].name@
    }
}

/// The kind at position `i` of a root-directory listing: the two dot
/// entries are directories, every registry entry is a regular file.
pub open spec fn listing_kind(i: int) -> crate::attr::FileKind {
    if i < 2 {
        crate::attr::FileKind::Directory
    } else {
        crate::attr::FileKind::RegularFile
    }
}

/// Row `k` of `rows` is what a root-directory listing of `entries` holds
/// there: the listing name and the listing kind.
pub open spec fn listing_row_ok(entries: Seq<RegistryEntry>, rows: Seq<DirEntry>, k: int) -> bool {
    rows[k].name@ == listing_name(entries, k) && rows[k].kind == listing_kind(k)
}

/// One mount session's engine. It owns the registry (read-only after
/// construction), the handle table, and the monotone handle counter.
pub struct Engine {
    registry: Registry,
    table: HashMap<u64, Handle>,
    next: u64,
    uid: u32,
    gid: u32,
}

impl Engine {
    /// The registry entries this session serves.
    pub closed spec fn registry(&self) -> Seq<RegistryEntry> {
        self.registry.entries()
    }

    /// The open handles, keyed by identifier.
    pub closed spec fn handles(&self) -> Map<u64, Handle> {
        self.table@
    }

    /// The identifier the next successful open or opendir will return.
    pub closed spec fn next_handle(&self) -> u64 {
        self.next
    }

    /// The user id reported in synthesized attributes.
    pub closed spec fn uid(&self) -> u32 {
        self.uid
    }

    /// The group id reported in synthesized attributes.
    pub closed spec fn gid(&self) -> u32 {
        self.gid
    }

    /// Well-formed: registry names are unique, the counter was never
    /// exhausted below its start, and every open handle was issued before
    /// the counter's current value.
    pub open spec fn wf(&self) -> bool {
        &&& names_unique(self.registry())
        &&& self.next_handle() >= 1
        &&& forall|h: u64| #[trigger] self.handles().contains_key(h) ==> h < self.next_handle()
    }

    /// Everything a call leaves alone: the registry and the reported ids.
    pub open spec fn same_session(pre: Engine, post: Engine) -> bool {
        &&& post.registry() == pre.registry()
        &&& post.uid() == pre.uid()
        &&& post.gid() == pre.gid()
    }

    /// A successful open or opendir: it hands out the counter's value,
    /// advances the counter, and stores `h` under the fresh identifier.
    pub open spec fn allocates(pre: Engine, post: Engine, fh: u64, h: Handle) -> bool {
        &&& pre.next_handle() < u64::MAX
        &&& fh == pre.next_handle()
        &&& post.next_handle() == pre.next_handle() + 1
        &&& post.handles() == pre.handles().insert(fh, h)
        &&& Engine::same_session(pre, post)
    }

    /// A new engine for one mount session: the given registry, no open
    /// handles, identifiers starting at 1, attributes owned by `uid`/`gid`.
    pub fn new(registry: Registry, uid: u32, gid: u32) -> (e: Engine)
        requires
            registry.wf(),
        ensures
            e.wf(),
            e.registry() == registry.entries(),
            e.handles() == Map::<u64, Handle>::empty(),
            e.next_handle() == 1,
            e.uid() == uid,
            e.gid() == gid,
    {
        Engine { registry, table: HashMap::new(), next: 1, uid, gid }
    }

    /// The synthesized attributes of the root directory.
    pub fn get_root_attr(&self) -> (a: FileAttr)
        ensures
            a == spec_root_attr(self.uid(), self.gid()),
    {
        FileAttr {
            size: 0,
            blocks: 0,
            atime: crate::attr::epoch(),
            mtime: crate::attr::epoch(),
            ctime: crate::attr::epoch(),
            crtime: crate::attr::epoch(),
            kind: crate::attr::FileKind::Directory,
            perm: 0o444,
            nlink: 1,
            uid: self.uid,
            gid: self.gid,
            rdev: 0,
            flags: 0,
        }
    }

    /// The synthesized attributes of one virtual file, from its header.
    pub fn get_file_attr(&self, header: &PatchHeader) -> (a: FileAttr)
        ensures
            a == spec_file_attr(*header, self.uid(), self.gid()),
    {
        FileAttr {
            size: header.target_size,
            blocks: 0,
            atime: header.access_time,
            mtime: header.modify_time,
            ctime: header.modify_time,
            crtime: header.create_time,
            kind: crate::attr::FileKind::RegularFile,
            perm: 0o444,
            nlink: 1,
            uid: self.uid,
            gid: self.gid,
            rdev: 0,
            flags: 0,
        }
    }

    /// Opens the root directory. Succeeds only for the root path; any other
    /// path is unknown, the namespace being flat. A counter that would wrap
    /// is refused rather than reused: identifiers stay unique per session.
    pub fn opendir(&mut self, path: &[u8]) -> (r: Result<u64, FsError>)
        requires
            old(self).wf(),
        ensures
            final(self).wf(),
            final(self).next_handle() >= old(self).next_handle(),
            match r {
                Ok(fh) => is_root(path@) && Engine::allocates(
                    *old(self),
                    *final(self),
                    fh,
                    (Handle::Directory {
                        attr: spec_root_attr(old(self).uid(), old(self).gid()),
                    }),
                ),
                Err(e) => *final(self) == *old(self) && if is_root(path@) {
                    e == FsError::NotSupported && old(self).next_handle() == u64::MAX
                } else {
                    e == FsError::NotFound
                },
            },
    {
        let p = norm(path);
        if p.len() == 0 {
            if self.next == u64::MAX {
                return Err(FsError::NotSupported);
            }
            let fh = self.next;
            self.next = self.next + 1;
            let attr = self.get_root_attr();
            self.table.insert(fh, Handle::Directory { attr });
            proof {
                assert forall|h: u64| #[trigger] self.handles().contains_key(h) implies h
                    < self.next_handle() by {
                    if h != fh {
                        assert(old(self).handles().contains_key(h));
                    }
                }
            }
            Ok(fh)
        } else {
            Err(FsError::NotFound)
        }
    }

    /// Closes a directory handle. Fails NotFound if the identifier is
    /// unknown or names a file handle.
    pub fn releasedir(&mut self, fh: u64) -> (r: Result<(), FsError>)
        requires
            old(self).wf(),
        ensures
            final(self).wf(),
            Engine::same_session(*old(self), *final(self)),
            final(self).next_handle() == old(self).next_handle(),
            match r {
                Ok(()) => old(self).handles().contains_key(fh) && is_dir_handle(
                    old(self).handles()[fh],
                ) && final(self).handles() == old(self).handles().remove(fh),
                Err(e) => *final(self) == *old(self) && e == FsError::NotFound && !(old(
                    self,
                ).handles().contains_key(fh) && is_dir_handle(old(self).handles()[fh])),
            },
    {
        let found = match self.table.get(&fh) {
            Some(Handle::Directory { .. }) => true,
            _ => false,
        };
        if found {
            self.table.remove(&fh);
            proof {
                assert forall|h: u64| #[trigger] self.handles().contains_key(h) implies h
                    < self.next_handle() by {
                    assert(old(self).handles().contains_key(h));
                }
            }
            Ok(())
        } else {
            Err(FsError::NotFound)
        }
    }

    /// Lists the root directory through an open directory handle: `.`,
    /// `..`, then one regular-file row per registry entry, in registry
    /// order. Fails NotFound if the identifier is unknown or names a file.
    pub fn readdir(&self, fh: u64) -> (r: Result<Vec<DirEntry>, FsError>)
        ensures
            match r {
                Ok(rows) => {
                    &&& self.handles().contains_key(fh)
                    &&& is_dir_handle(self.handles()[fh])
                    &&& rows@.len() == 2 + self.registry().len()
                    &&& forall|i: int|
                        0 <= i < rows@.len() ==> #[trigger] listing_row_ok(
                            self.registry(),
                            rows@,
                            i,
                        )
                },
                Err(e) => e == FsError::NotFound && !(self.handles().contains_key(fh)
                    && is_dir_handle(self.handles()[fh])),
            },
    {
        let found = match self.table.get(&fh) {
            Some(Handle::Directory { .. }) => true,
            _ => false,
        };
        if !found {
            return Err(FsError::NotFound);
        }
        let mut rows: Vec<DirEntry> = Vec::new();
        let dot: Vec<u8> = vec![46u8];
        assert(dot@ =~= listing_name(self.registry(), 0));
        rows.push(DirEntry { name: dot, kind: crate::attr::FileKind::Directory });
        let dotdot: Vec<u8> = vec![46u8, 46u8];
        assert(dotdot@ =~= listing_name(self.registry(), 1));
        rows.push(DirEntry { name: dotdot, kind: crate::attr::FileKind::Directory });
        assert(listing_row_ok(self.registry(), rows@, 0));
        assert(listing_row_ok(self.registry(), rows@, 1));
        let n = self.registry.len();
        let mut i: usize = 0;
        while i < n
            invariant
                n == self.registry().len(),
                i <= n,
                rows@.len() == 2 + i,
                forall|k: int|
                    0 <= k < rows@.len() ==> #[trigger] listing_row_ok(self.registry(), rows@, k),
            decreases n - i,
        {
            let ghost prev = rows@;
            let entry = self.registry.entry_at(i);
            let name = copy_bytes(entry.name.as_slice());
            rows.push(DirEntry { name, kind: crate::attr::FileKind::RegularFile });
            proof {
                assert forall|k: int|
                    0 <= k < rows@.len() implies #[trigger] listing_row_ok(
                    self.registry(),
                    rows@,
                    k,
                ) by {
                    if k < prev.len() {
                        assert(listing_row_ok(self.registry(), prev, k));
                        assert(rows@[k] == prev[k]);
                    } else {
                        assert(rows@[k].name@ =~= listing_name(self.registry(), k));
                    }
                }
            }
            i += 1;
        }
        Ok(rows)
    }

    /// Reports attributes: through a handle of either kind if one is given,
    /// else for the root or for a registry name resolved from the path.
    /// Every reply carries the fixed validity window.
    pub fn getattr(&self, path: &[u8], fh: Option<u64>) -> (r: Result<
        (TimeSpec, FileAttr),
        FsError,
    >)
        ensures
            match r {
                Ok((ttl, a)) => ttl == spec_ttl() && match fh {
                    Some(h) => self.handles().contains_key(h) && a == handle_attr(
                        self.handles()[h],
                    ),
                    None => if is_root(path@) {
                        a == spec_root_attr(self.uid(), self.gid())
                    } else {
                        &&& spec_lookup(self.registry(), spec_norm(path@)) matches Some(hdr)
                        &&& a == spec_file_attr(hdr, self.uid(), self.gid())
                    },
                },
                Err(e) => e == FsError::NotFound && match fh {
                    Some(h) => !self.handles().contains_key(h),
                    None => !is_root(path@) && spec_lookup(self.registry(), spec_norm(path@))
                        is None,
                },
            },
    {
        match fh {
            Some(h) => match self.table.get(&h) {
                Some(Handle::Directory { attr }) => Ok((attr_ttl(), *attr)),
                Some(Handle::File { attr, .. }) => Ok((attr_ttl(), *attr)),
                None => Err(FsError::NotFound),
            },
            None => {
                let p = norm(path);
                if p.len() == 0 {
                    Ok((attr_ttl(), self.get_root_attr()))
                } else {
                    match self.registry.lookup(p) {
                        Some(header) => Ok((attr_ttl(), self.get_file_attr(header))),
                        None => Err(FsError::NotFound),
                    }
                }
            },
        }
    }

    /// Opens a virtual file. A registry name yields a fresh file handle
    /// with header-derived attributes and an empty cache; an unknown path
    /// fails NotFound. A counter that would wrap is refused.
    pub fn open(&mut self, path: &[u8]) -> (r: Result<u64, FsError>)
        requires
            old(self).wf(),
        ensures
            final(self).wf(),
            final(self).next_handle() >= old(self).next_handle(),
            match r {
                Ok(fh) => {
                    &&& spec_lookup(old(self).registry(), spec_norm(path@)) matches Some(hdr)
                    &&& Engine::allocates(
                        *old(self),
                        *final(self),
                        fh,
                        (Handle::File {
                            attr: spec_file_attr(hdr, old(self).uid(), old(self).gid()),
                            header: hdr,
                            data: None,
                        }),
                    )
                },
                Err(e) => *final(self) == *old(self) && if spec_lookup(
                    old(self).registry(),
                    spec_norm(path@),
                ) is Some {
                    e == FsError::NotSupported && old(self).next_handle() == u64::MAX
                } else {
                    e == FsError::NotFound
                },
            },
    {
        let p = norm(path);
        let hdr: PatchHeader = match self.registry.lookup(p) {
            Some(header) => *header,
            None => {
                return Err(FsError::NotFound);
            },
        };
        if self.next == u64::MAX {
            return Err(FsError::NotSupported);
        }
        let fh = self.next;
        self.next = self.next + 1;
        let attr = self.get_file_attr(&hdr);
        self.table.insert(fh, Handle::File { attr, header: hdr, data: None });
        proof {
            assert forall|h: u64| #[trigger] self.handles().contains_key(h) implies h
                < self.next_handle() by {
                if h != fh {
                    assert(old(self).handles().contains_key(h));
                }
            }
        }
        Ok(fh)
    }

    /// Begins a read on a file handle: serves straight from the cache when
    /// the bytes are already materialized, otherwise asks the caller to run
    /// the codec on the handle's header. Fails NotFound if the identifier
    /// is unknown or names a directory.
    pub fn read_begin(&self, fh: u64, offset: u64, size: u32) -> (r: Result<ReadPlan, FsError>)
        ensures
            match r {
                Ok(plan) => {
                    &&& self.handles().contains_key(fh)
                    &&& is_file_handle(self.handles()[fh])
                    &&& match plan {
                        ReadPlan::Serve(bytes) => {
                            &&& file_cache(self.handles()[fh]) matches Some(c)
                            &&& bytes@ == spec_clamp(c, offset, size)
                        },
                        ReadPlan::Materialize(hdr) => file_cache(self.handles()[fh]) is None
                            && hdr == file_header(self.handles()[fh]),
                    }
                },
                Err(e) => e == FsError::NotFound && !(self.handles().contains_key(fh)
                    && is_file_handle(self.handles()[fh])),
            },
    {
        match self.table.get(&fh) {
            Some(Handle::File { data: Some(cached), .. }) => Ok(
                ReadPlan::Serve(clamped_slice(cached, offset, size)),
            ),
            Some(Handle::File { header, data: None, .. }) => Ok(ReadPlan::Materialize(*header)),
            _ => Err(FsError::NotFound),
        }
    }

    /// Completes a read after the caller ran the codec. A still-empty cache
    /// is filled, whole, with a successful outcome before the slice is
    /// served; a failed outcome leaves it empty, so a later read retries. A
    /// cache filled in the meantime wins: the outcome is dropped and the
    /// cached bytes are served, so one handle never caches two
    /// materializations. Fails NotFound if the identifier is unknown or
    /// names a directory.
    pub fn read_complete(
        &mut self,
        fh: u64,
        offset: u64,
        size: u32,
        materialized: Option<Vec<u8>>,
    ) -> (r: Result<Vec<u8>, FsError>)
        requires
            old(self).wf(),
        ensures
            final(self).wf(),
            Engine::same_session(*old(self), *final(self)),
            final(self).next_handle() == old(self).next_handle(),
            match r {
                Ok(bytes) => {
                    &&& old(self).handles().contains_key(fh)
                    &&& is_file_handle(old(self).handles()[fh])
                    &&& match file_cache(old(self).handles()[fh]) {
                        Some(c) => *final(self) == *old(self) && bytes@ == spec_clamp(
                            c,
                            offset,
                            size,
                        ),
                        None => {
                            &&& materialized matches Some(m)
                            &&& final(self).handles() == old(self).handles().insert(
                                fh,
                                (Handle::File {
                                    attr: handle_attr(old(self).handles()[fh]),
                                    header: file_header(old(self).handles()[fh]),
                                    data: Some(m),
                                }),
                            )
                            &&& bytes@ == spec_clamp(m@, offset, size)
                        },
                    }
                },
                Err(e) => *final(self) == *old(self) && match e {
                    FsError::NotFound => !(old(self).handles().contains_key(fh) && is_file_handle(
                        old(self).handles()[fh],
                    )),
                    FsError::IOFailure => old(self).handles().contains_key(fh) && is_file_handle(
                        old(self).handles()[fh],
                    ) && file_cache(old(self).handles()[fh]) is None && materialized is None,
                    FsError::NotSupported => false,
                },
            },
    {
        if let Some(Handle::File { data: Some(cached), .. }) = self.table.get(&fh) {
            return Ok(clamped_slice(cached, offset, size));
        }
        let info: Option<(FileAttr, PatchHeader)> = match self.table.get(&fh) {
            Some(Handle::File { attr, header, data: None }) => Some((*attr, *header)),
            _ => None,
        };
        match info {
            None => Err(FsError::NotFound),
            Some((attr, header)) => match materialized {
                None => Err(FsError::IOFailure),
                Some(m) => {
                    let bytes = clamped_slice(&m, offset, size);
                    self.table.insert(fh, Handle::File { attr, header, data: Some(m) });
                    proof {
                        assert forall|h: u64| #[trigger] self.handles().contains_key(h) implies h
                            < self.next_handle() by {
                            if h != fh {
                                assert(old(self).handles().contains_key(h));
                            }
                        }
                    }
                    Ok(bytes)
                },
            },
        }
    }

    /// Closes a file handle, discarding its cache. Fails NotFound if the
    /// identifier is unknown or names a directory handle.
    pub fn release(&mut self, fh: u64) -> (r: Result<(), FsError>)
        requires
            old(self).wf(),
        ensures
            final(self).wf(),
            Engine::same_session(*old(self), *final(self)),
            final(self).next_handle() == old(self).next_handle(),
            match r {
                Ok(()) => old(self).handles().contains_key(fh) && is_file_handle(
                    old(self).handles()[fh],
                ) && final(self).handles() == old(self).handles().remove(fh),
                Err(e) => *final(self) == *old(self) && e == FsError::NotFound && !(old(
                    self,
                ).handles().contains_key(fh) && is_file_handle(old(self).handles()[fh])),
            },
    {
        let found = match self.table.get(&fh) {
            Some(Handle::File { .. }) => true,
            _ => false,
        };
        if found {
            self.table.remove(&fh);
            proof {
                assert forall|h: u64| #[trigger] self.handles().contains_key(h) implies h
                    < self.next_handle() by {
                    assert(old(self).handles().contains_key(h));
                }
            }
            Ok(())
        } else {
            Err(FsError::NotFound)
        }
    }

    /// Access control is not enforced: every access query succeeds.
    pub fn access(&self, _path: &[u8], _mask: u32) -> (r: Result<(), FsError>)
        ensures
            r == Ok::<(), FsError>(()),
    {
        Ok(())
    }
}

} // verus!
