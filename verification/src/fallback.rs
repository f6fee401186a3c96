//! Fallback backend: platforms with no on-disk accounting.
//!
//! Where neither the Unix block count nor the Windows compressed-size query
//! is available, the logical length is returned unchanged. This is an
//! explicit capability gap of such platforms, not an error.

use vstd::prelude::*;

use crate::FileMetadata;

verus! {

/// On-disk size this backend reports for a metadata snapshot: the logical
/// length, since nothing better is available.
pub open spec fn real_size_spec(m: FileMetadata) -> int {
    m.len as int
}

/// On-disk size the metadata-reusing variant reports for a snapshot.
pub open spec fn real_size_fast_spec(m: FileMetadata) -> int {
    m.len as int
}

/// On-disk size of the file whose metadata snapshot is `metadata`: on this
/// backend, its logical length unchanged.
pub fn file_real_size(metadata: &FileMetadata) -> (size: u64)
    ensures
        size == real_size_spec(*metadata),
{
    metadata.len
}

/// On-disk size of the file whose metadata snapshot is `metadata`, reusing
/// the caller's snapshot instead of querying afresh.
pub fn file_real_size_fast(metadata: &FileMetadata) -> (size: u64)
    ensures
        size == real_size_fast_spec(*metadata),
{
    metadata.len
}

/// The metadata-reusing variant agrees with the full query on this backend.
pub proof fn lemma_fast_agrees_with_full(m: FileMetadata)
    ensures
        real_size_fast_spec(m) == real_size_spec(m),
{
}

/// On a platform without on-disk accounting the reported size always equals
/// the logical size.
pub proof fn lemma_real_size_is_logical(m: FileMetadata)
    ensures
        real_size_spec(m) == m.len,
{
}

} // verus!
