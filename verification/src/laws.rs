//! Session-wide laws of the engine, stated over the same spec-level
//! predicates the operation contracts use.

use vstd::prelude::*;

verus! {

use crate::attr::PatchHeader;
use crate::attr::spec_file_attr;
use crate::bytes::spec_clamp;
use crate::bytes::spec_norm;
use crate::engine::Engine;
use crate::engine::listing_name;
use crate::handle::Handle;
use crate::handle::file_cache;
use crate::handle::handle_attr;
use crate::registry::RegistryEntry;
use crate::registry::names_unique;
use crate::registry::spec_lookup;

/// Law: a successful open of a registered path hands out a handle whose
/// stored attributes — the ones `getattr` reports through that handle —
/// carry exactly the header's target size.
pub proof fn lemma_open_reports_target_size(
    pre: Engine,
    post: Engine,
    path: Seq<u8>,
    fh: u64,
    hdr: PatchHeader,
)
    requires
        spec_lookup(pre.registry(), spec_norm(path)) == Some(hdr),
        Engine::allocates(
            pre,
            post,
            fh,
            (Handle::File {
                attr: spec_file_attr(hdr, pre.uid(), pre.gid()),
                header: hdr,
                data: None,
            }),
        ),
    ensures
        post.handles().contains_key(fh),
        handle_attr(post.handles()[fh]).size == hdr.target_size,
{
}

/// Law: a root-directory listing has no duplicate names: `.`, `..` and the
/// registry names are pairwise distinct, as long as no registry entry is
/// itself named `.` or `..` — names that a registry built from real file
/// names never contains.
pub proof fn lemma_listing_no_duplicates(entries: Seq<RegistryEntry>, i: int, j: int)
    requires
        names_unique(entries),
        forall|k: int|
            0 <= k < entries.len() ==> (#[trigger] entries[k].name@) != seq![46u8]
                && entries[k].name@ != seq![46u8, 46u8],
        0 <= i < j < entries.len() + 2,
    ensures
        listing_name(entries, i) != listing_name(entries, j),
{
    if i == 0 && j == 1 {
        assert(listing_name(entries, 0).len() != listing_name(entries, 1).len());
    }
}

/// Law: handle identifiers are pairwise distinct for the session. Two
/// successful allocations — any two opens or opendirs, in any order, with
/// any other operations between them — return different identifiers,
/// because every operation keeps the counter monotone.
pub proof fn lemma_handles_pairwise_distinct(
    s0: Engine,
    s1: Engine,
    s2: Engine,
    s3: Engine,
    h1: Handle,
    h2: Handle,
    fh1: u64,
    fh2: u64,
)
    requires
        Engine::allocates(s0, s1, fh1, h1),
        s1.next_handle() <= s2.next_handle(),
        Engine::allocates(s2, s3, fh2, h2),
    ensures
        fh1 != fh2,
{
}

/// Law: a released identifier is gone from the table, so every later call
/// on it meets the `!contains_key` side of each operation's contract and
/// fails NotFound until a fresh allocation reuses the number space —
/// which the monotone counter never does within a session.
pub proof fn lemma_release_invalidates(pre: Engine, post: Engine, fh: u64)
    requires
        post.handles() == pre.handles().remove(fh),
    ensures
        !post.handles().contains_key(fh),
{
}

/// Law: installing a materialization fills the handle's cache with exactly
/// those bytes.
pub proof fn lemma_install_sets_cache(
    pre: Engine,
    post: Engine,
    fh: u64,
    attr: crate::attr::FileAttr,
    hdr: PatchHeader,
    m: Vec<u8>,
)
    requires
        post.handles() == pre.handles().insert(
            fh,
            (Handle::File { attr, header: hdr, data: Some(m) }),
        ),
    ensures
        post.handles().contains_key(fh),
        file_cache(post.handles()[fh]) == Some(m@),
{
}

/// Law: all reads served from one cache agree byte for byte wherever their
/// ranges overlap — in particular across the first materialization, since
/// the cache holds the materialized bytes unchanged from then on.
pub proof fn lemma_overlapping_reads_agree(
    data: Seq<u8>,
    off1: u64,
    size1: u32,
    off2: u64,
    size2: u32,
    p: int,
)
    requires
        off1 <= p < off1 + size1,
        off2 <= p < off2 + size2,
        p < data.len(),
    ensures
        spec_clamp(data, off1, size1)[p - off1] == data[p],
        spec_clamp(data, off2, size2)[p - off2] == data[p],
{
}

/// Law: two sequential reads on one handle, straddling the first
/// materialization — the first installing the bytes, the second served
/// from the cache the installation left behind — return byte-identical
/// content wherever their ranges overlap.
pub proof fn lemma_sequential_reads_identical(
    pre: Engine,
    post: Engine,
    fh: u64,
    attr: crate::attr::FileAttr,
    hdr: PatchHeader,
    m: Vec<u8>,
    off1: u64,
    size1: u32,
    off2: u64,
    size2: u32,
    p: int,
)
    requires
        post.handles() == pre.handles().insert(
            fh,
            (Handle::File { attr, header: hdr, data: Some(m) }),
        ),
        off1 <= p < off1 + size1,
        off2 <= p < off2 + size2,
        p < m@.len(),
    ensures
        file_cache(post.handles()[fh]) == Some(m@),
        spec_clamp(m@, off1, size1)[p - off1] == spec_clamp(m@, off2, size2)[p - off2],
{
    lemma_install_sets_cache(pre, post, fh, attr, hdr, m);
    lemma_overlapping_reads_agree(m@, off1, size1, off2, size2, p);
}

/// Law: a read at or past end-of-file yields the empty byte string, and a
/// read whose window crosses end-of-file yields exactly the bytes up to it
/// — short, never an error.
pub proof fn lemma_read_past_eof(data: Seq<u8>, offset: u64, size: u32)
    ensures
        offset >= data.len() ==> spec_clamp(data, offset, size) == Seq::<u8>::empty(),
        offset < data.len() && offset + size > data.len() ==> spec_clamp(data, offset, size)
            == data.skip(offset as int),
{
    if offset >= data.len() {
        assert(spec_clamp(data, offset, size) =~= Seq::<u8>::empty());
    }
    if offset < data.len() && offset + size > data.len() {
        assert(spec_clamp(data, offset, size) =~= data.skip(offset as int));
    }
}

} // verus!
