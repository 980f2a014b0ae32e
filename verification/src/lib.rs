//! A read-only virtual filesystem engine for patched ROM images.
//!
//! The engine synthesizes a flat, single-level namespace from a registry of
//! patch headers: each registry entry appears as one regular file under the
//! root directory. File contents are materialized lazily, on first read, by
//! an external patch codec; the engine owns the per-handle byte cache and the
//! handle lifecycle, and reports failures with a fixed error vocabulary.

mod attr;
mod bytes;
mod engine;
mod handle;
mod laws;
mod registry;

pub use attr::FileAttr;
pub use attr::FileKind;
pub use attr::PatchHeader;
pub use attr::TimeSpec;
pub use attr::attr_ttl;
pub use attr::epoch;
pub use attr::spec_epoch;
pub use attr::spec_file_attr;
pub use attr::spec_root_attr;
pub use attr::spec_ttl;
pub use bytes::bytes_eq;
pub use bytes::clamped_slice;
pub use bytes::copy_bytes;
pub use bytes::is_root;
pub use bytes::norm;
pub use bytes::spec_clamp;
pub use bytes::spec_norm;
pub use engine::Engine;
pub use engine::listing_kind;
pub use engine::listing_name;
pub use engine::listing_row_ok;
pub use handle::DirEntry;
pub use handle::FsError;
pub use handle::Handle;
pub use handle::ReadPlan;
pub use handle::file_cache;
pub use handle::file_header;
pub use handle::handle_attr;
pub use handle::is_dir_handle;
pub use handle::is_file_handle;
pub use laws::lemma_handles_pairwise_distinct;
pub use laws::lemma_install_sets_cache;
pub use laws::lemma_listing_no_duplicates;
pub use laws::lemma_open_reports_target_size;
pub use laws::lemma_overlapping_reads_agree;
pub use laws::lemma_read_past_eof;
pub use laws::lemma_release_invalidates;
pub use laws::lemma_sequential_reads_identical;
pub use registry::Registry;
pub use registry::RegistryEntry;
pub use registry::lemma_lookup_none;
pub use registry::names_unique;
pub use registry::spec_lookup;
