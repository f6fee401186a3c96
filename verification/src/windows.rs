//! Windows backend: on-disk size from the compressed-size query.
//!
//! The platform query for a file's compressed (allocated) size returns a
//! 64-bit value split into a low 32-bit word, returned directly, and a high
//! 32-bit word, written through an out-parameter. A failed call is signalled
//! by a sentinel in the low word — but the sentinel is also a valid bit
//! pattern for a genuine size whose low word happens to equal it, so the
//! error code fetched right after the call must disambiguate the two. This
//! module holds that interpretation; the caller performs the query itself
//! and hands in its raw outcome.

use vstd::prelude::*;

verus! {

/// Low word returned by the platform query when the call may have failed.
/// It is also a valid low word of a genuine size, so seeing it does not by
/// itself mean failure.
pub const INVALID_FILE_SIZE: u32 = 0xFFFF_FFFF;

/// Error code meaning that no error occurred.
pub const NO_ERROR: u32 = 0;

/// Weight of the high word in the assembled 64-bit size.
pub const HIGH_WORD_UNIT: u64 = 0x1_0000_0000;

/// The 64-bit size assembled from the high/low pair of 32-bit words.
pub open spec fn real_size_spec(high: u32, low: u32) -> int {
    (high as int) * (HIGH_WORD_UNIT as int) + (low as int)
}

/// Whether a query outcome means the call failed: the low word holds the
/// sentinel and the error code fetched after the call reports an actual
/// error. `None` stands for a platform that reports no code, which counts
/// as no error.
pub open spec fn call_failed(low: u32, last_os_error: Option<u32>) -> bool {
    &&& low == INVALID_FILE_SIZE
    &&& match last_os_error {
        Some(code) => code != NO_ERROR,
        None => false,
    }
}

/// Assemble the 64-bit size from its high and low 32-bit words.
pub fn compose_size(high: u32, low: u32) -> (size: u64)
    ensures
        size == real_size_spec(high, low),
{
    (high as u64) * HIGH_WORD_UNIT + (low as u64)
}

/// On-disk size from the raw outcome of the platform query: `low` is the
/// word the query returned, `high` the word it wrote through its
/// out-parameter, and `last_os_error` the error code fetched right after
/// the call (`None` where the platform reports no code). Fails exactly when
/// the low word holds the sentinel and the error code reports an actual
/// error; the failing code is returned so the caller can surface it.
pub fn file_real_size(low: u32, high: u32, last_os_error: Option<u32>) -> (r: Result<u64, u32>)
    ensures
        call_failed(low, last_os_error) ==> (r matches Err(code) && last_os_error == Some(code)),
        !call_failed(low, last_os_error) ==> (r matches Ok(size) && size == real_size_spec(
            high,
            low,
        )),
{
    if low == INVALID_FILE_SIZE {
        if let Some(code) = last_os_error {
            if code != NO_ERROR {
                return Err(code);
            }
        }
    }
    Ok(compose_size(high, low))
}

/// The metadata-reusing variant on this backend: generic metadata does not
/// expose the compression state, so a fresh query is made regardless and
/// its outcome is interpreted exactly as by [`file_real_size`].
pub fn file_real_size_fast(low: u32, high: u32, last_os_error: Option<u32>) -> (r: Result<
    u64,
    u32,
>)
    ensures
        call_failed(low, last_os_error) ==> (r matches Err(code) && last_os_error == Some(code)),
        !call_failed(low, last_os_error) ==> (r matches Ok(size) && size == real_size_spec(
            high,
            low,
        )),
{
    file_real_size(low, high, last_os_error)
}

/// Any size assembled from a high/low pair is non-negative and fits in 64
/// bits.
pub proof fn lemma_real_size_fits_u64(high: u32, low: u32)
    ensures
        0 <= real_size_spec(high, low) <= u64::MAX,
{
}

} // verus!
