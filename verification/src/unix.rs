//! Unix backend: on-disk size from the metadata block count.
//!
//! Unix metadata reports the number of blocks allocated to a file, always
//! expressed in 512-byte units regardless of the filesystem's own block
//! size. Multiplying by 512 recovers the allocated bytes, including the
//! effect of sparse regions (holes contribute zero blocks) and of
//! filesystem compression (fewer blocks than the logical length implies).

use vstd::prelude::*;

use crate::FileMetadata;

verus! {

/// Size in bytes of one reported block unit. The block count in metadata
/// is always in 512-byte units, whatever the filesystem's block size.
pub const BLOCK_UNIT: u64 = 512;

/// On-disk size this backend reports for a metadata snapshot.
pub open spec fn real_size_spec(m: FileMetadata) -> int {
    m.blocks * BLOCK_UNIT
}

/// On-disk size the metadata-reusing variant reports for a snapshot. On
/// this backend the fresh query would only fetch the same snapshot again,
/// so the computation is the same.
pub open spec fn real_size_fast_spec(m: FileMetadata) -> int {
    m.blocks * BLOCK_UNIT
}

/// On-disk size of the file whose metadata snapshot is `metadata`: the
/// allocated block count times the 512-byte unit.
pub fn file_real_size(metadata: &FileMetadata) -> (size: u64)
    requires
        metadata.blocks * BLOCK_UNIT <= u64::MAX,
    ensures
        size == real_size_spec(*metadata),
{
    metadata.blocks * BLOCK_UNIT
}

/// On-disk size of the file whose metadata snapshot is `metadata`, reusing
/// the caller's snapshot instead of querying afresh.
pub fn file_real_size_fast(metadata: &FileMetadata) -> (size: u64)
    requires
        metadata.blocks * BLOCK_UNIT <= u64::MAX,
    ensures
        size == real_size_fast_spec(*metadata),
{
    metadata.blocks * BLOCK_UNIT
}

/// The metadata-reusing variant agrees with the full query on this backend.
pub proof fn lemma_fast_agrees_with_full(m: FileMetadata)
    ensures
        real_size_fast_spec(m) == real_size_spec(m),
{
}

/// A file composed entirely of holes has no allocated blocks, so its
/// on-disk size is zero whatever its logical length.
pub proof fn lemma_sparse_file_size_zero(m: FileMetadata)
    requires
        m.blocks == 0,
    ensures
        real_size_spec(m) == 0,
{
}

/// A file whose allocated bytes fall short of its logical length — as with
/// actual compression on a supporting filesystem — reports an on-disk size
/// strictly below its logical size.
pub proof fn lemma_compressed_below_logical(m: FileMetadata)
    requires
        m.blocks * BLOCK_UNIT < m.len,
    ensures
        real_size_spec(m) < m.len,
{
}

} // verus!
