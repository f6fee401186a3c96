//! Real (on-disk) size of a file, as distinct from its logical byte length.
//!
//! Filesystems may allocate less storage than a file's logical length
//! suggests: sparse files have unallocated holes that read as zeros, and
//! compressing filesystems store fewer bytes than the file appears to hold.
//! This crate computes the storage actually consumed, from the plain fields
//! of a filesystem metadata snapshot, with one backend per platform
//! convention:
//!
//! - [`unix`]: the allocated size is the reported 512-byte block count times
//!   512, whatever the filesystem's own block size.
//! - [`windows`]: the allocated (compressed) size comes back from a platform
//!   query as a high/low pair of 32-bit words, with a sentinel low word that
//!   must be disambiguated from a failed call by the error code.
//! - [`fallback`]: no on-disk accounting is available and the logical length
//!   is returned unchanged.
//!
//! The crate itself performs no filesystem access: callers obtain a metadata
//! snapshot (or, for the Windows backend, the raw outcome of the platform
//! query) and hand its fields in as plain values. The top-level
//! [`file_real_size`] and [`file_real_size_fast`] use the backend of the
//! platform this crate is built for.

use vstd::prelude::*;

pub mod fallback;
pub mod unix;
pub mod windows;

verus! {

/// The fields of a filesystem metadata snapshot that the size computation
/// reads: the logical byte length of the file, and the number of 512-byte
/// blocks the filesystem reports as allocated to it.
#[derive(Clone, Copy, Debug, PartialEq, Eq, Structural)]
pub struct FileMetadata {
    /// Logical (apparent) length of the file in bytes.
    pub len: u64,
    /// Number of allocated 512-byte blocks. Holes in a sparse file
    /// contribute no blocks; a compressing filesystem allocates fewer
    /// blocks than the logical length would need.
    pub blocks: u64,
}

/// On-disk size that [`file_real_size`] reports for a metadata snapshot,
/// on the backend of the platform this crate is built for.
pub open spec fn real_size_spec(m: FileMetadata) -> int {
    crate::unix::real_size_spec(m)
}

/// On-disk size that [`file_real_size_fast`] reports for a metadata
/// snapshot, on the backend of the platform this crate is built for.
pub open spec fn real_size_fast_spec(m: FileMetadata) -> int {
    crate::unix::real_size_fast_spec(m)
}

/// On-disk size of the file whose metadata snapshot is `metadata`.
pub fn file_real_size(metadata: &FileMetadata) -> (size: u64)
    requires
        metadata.blocks * crate::unix::BLOCK_UNIT <= u64::MAX,
    ensures
        size == real_size_spec(*metadata),
{
    crate::unix::file_real_size(metadata)
}

/// On-disk size of the file whose metadata snapshot is `metadata`, reusing
/// the caller's snapshot where the platform allows it. Intended for callers
/// such as directory traversals that hold metadata anyway.
pub fn file_real_size_fast(metadata: &FileMetadata) -> (size: u64)
    requires
        metadata.blocks * crate::unix::BLOCK_UNIT <= u64::MAX,
    ensures
        size == real_size_fast_spec(*metadata),
{
    crate::unix::file_real_size_fast(metadata)
}

/// Reusing an existing metadata snapshot reports the same size as a fresh
/// query of the same snapshot: the fast variant agrees with the full one.
pub proof fn lemma_fast_agrees_with_full(m: FileMetadata)
    ensures
        real_size_fast_spec(m) == real_size_spec(m),
{
}

/// The real size is never negative and fits in 64 bits whenever the
/// allocated byte count itself does.
pub proof fn lemma_real_size_fits_u64(m: FileMetadata)
    requires
        m.blocks * crate::unix::BLOCK_UNIT <= u64::MAX,
    ensures
        0 <= real_size_spec(m) <= u64::MAX,
{
}

} // verus!
