use blkadapter::buffer::{copy_staging_prefix, validate_buffer, BLOCK_SIZE, WORD_BYTES};
use blkadapter::errors::{BlkError, BufferError, ErrorDetail};

#[test]
fn block_and_word_sizes() {
    assert_eq!(BLOCK_SIZE, 512);
    assert_eq!(WORD_BYTES, 4);
}

#[test]
fn undersized_buffers_are_size_classified() {
    for len in [0usize, 4, 511] {
        assert_eq!(
            validate_buffer(0x1000, len),
            Err(BlkError::Other(ErrorDetail::Buffer(BufferError::InvalidSize {
                expected: 512,
                actual: len,
            })))
        );
    }
}

#[test]
fn misaligned_buffers_are_alignment_classified() {
    // Start misaligned by each possible remainder.
    for off in [1usize, 2, 3] {
        assert_eq!(
            validate_buffer(0x1000 + off, 512),
            Err(BlkError::Other(ErrorDetail::Buffer(BufferError::InvalidAlignment)))
        );
    }
    // Aligned start, end off a word boundary.
    for extra in [1usize, 2, 3] {
        assert_eq!(
            validate_buffer(0x1000, 512 + extra),
            Err(BlkError::Other(ErrorDetail::Buffer(BufferError::InvalidAlignment)))
        );
    }
}

#[test]
fn word_aligned_buffers_of_block_size_pass() {
    assert_eq!(validate_buffer(0x1000, 512), Ok(()));
    assert_eq!(validate_buffer(0, 512), Ok(()));
    assert_eq!(validate_buffer(0x2004, 1024), Ok(()));
    // The size check comes first: a short misaligned buffer reports its size.
    assert_eq!(
        validate_buffer(0x1001, 100),
        Err(BlkError::Other(ErrorDetail::Buffer(BufferError::InvalidSize {
            expected: 512,
            actual: 100,
        })))
    );
}

#[test]
fn staging_copy_truncates_to_the_shorter_side() {
    let src: Vec<u32> = vec![10, 20, 30, 40];
    let mut dst: Vec<u32> = vec![0, 0];
    copy_staging_prefix(&mut dst, &src);
    assert_eq!(dst, vec![10, 20]);

    let mut dst: Vec<u32> = vec![5, 5, 5, 5, 5, 5];
    copy_staging_prefix(&mut dst, &src);
    assert_eq!(dst, vec![10, 20, 30, 40, 5, 5]);

    let mut dst: Vec<u32> = Vec::new();
    copy_staging_prefix(&mut dst, &src);
    assert!(dst.is_empty());

    let empty: Vec<u32> = Vec::new();
    let mut dst: Vec<u32> = vec![8, 8];
    copy_staging_prefix(&mut dst, &empty);
    assert_eq!(dst, vec![8, 8]);
}
