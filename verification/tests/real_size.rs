use filesize::{file_real_size, file_real_size_fast, FileMetadata};

#[test]
fn fast_agrees_with_full() {
    let m = FileMetadata { len: 1234, blocks: 8 };
    assert_eq!(file_real_size(&m), file_real_size_fast(&m));
    let m = FileMetadata { len: 0, blocks: 0 };
    assert_eq!(file_real_size(&m), file_real_size_fast(&m));
    let m = FileMetadata { len: 7, blocks: 1024 };
    assert_eq!(file_real_size(&m), file_real_size_fast(&m));
}

#[test]
fn plain_file_rounds_up_to_granularity() {
    // A 1000-byte file on a filesystem with 4096-byte allocation granularity
    // gets one granule: eight 512-byte blocks.
    let m = FileMetadata { len: 1000, blocks: 8 };
    assert_eq!(file_real_size(&m), 4096);
    // A length that is an exact multiple of the granularity rounds to itself.
    let m = FileMetadata { len: 8192, blocks: 16 };
    assert_eq!(file_real_size(&m), 8192);
}

#[test]
fn sparse_file_uses_no_blocks() {
    // A file made entirely of holes: a huge logical length, nothing allocated.
    let m = FileMetadata {
        len: 1 << 40,
        blocks: 0,
    };
    assert_eq!(file_real_size(&m), 0);
    assert_eq!(file_real_size_fast(&m), 0);
}

#[test]
fn compressed_file_below_logical() {
    // A compressing filesystem allocated 100 blocks for a megabyte of data.
    let m = FileMetadata {
        len: 1_000_000,
        blocks: 100,
    };
    let size = file_real_size(&m);
    assert_eq!(size, 51_200);
    assert!(size < m.len);
}

#[test]
fn zero_length_file() {
    let m = FileMetadata { len: 0, blocks: 0 };
    assert_eq!(file_real_size(&m), 0);
}

#[test]
fn largest_representable_size() {
    // The largest block count whose byte count still fits in 64 bits.
    let blocks = u64::MAX / 512;
    let m = FileMetadata {
        len: u64::MAX,
        blocks,
    };
    assert_eq!(file_real_size(&m), blocks * 512);
    assert_eq!(file_real_size_fast(&m), blocks * 512);
}

#[test]
fn unix_backend_multiplies_blocks() {
    let m = FileMetadata { len: 100, blocks: 3 };
    assert_eq!(filesize::unix::file_real_size(&m), 1536);
    assert_eq!(filesize::unix::file_real_size_fast(&m), 1536);
}

#[test]
fn fallback_reports_logical_length() {
    let m = FileMetadata {
        len: 123_456,
        blocks: 77,
    };
    assert_eq!(filesize::fallback::file_real_size(&m), 123_456);
    assert_eq!(filesize::fallback::file_real_size_fast(&m), 123_456);
}
