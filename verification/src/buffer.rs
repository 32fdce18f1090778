//! Validation of caller buffers: size and native-word alignment, and the
//! truncating copy from a staging region into the caller's buffer.

use vstd::prelude::*;

use crate::errors::{BlkError, BufferError, ErrorDetail};

verus! {

/// Bytes in one block of persistent storage.
pub const BLOCK_SIZE: usize = 512;

/// Bytes in one native word: transfers reinterpret buffers as words.
pub const WORD_BYTES: usize = 4;

/// A byte range starting at `addr` of `len` bytes begins and ends on a
/// native-word boundary.
pub open spec fn word_aligned(addr: int, len: int) -> bool {
    addr % (WORD_BYTES as int) == 0 && (addr + len) % (WORD_BYTES as int) == 0
}

/// What buffer validation decides for a buffer at address `addr` holding
/// `len` bytes: too small, mis-aligned, or acceptable.
pub open spec fn spec_validate_buffer(addr: usize, len: usize) -> Result<(), BlkError> {
    if len < BLOCK_SIZE {
        Err(BlkError::Other(ErrorDetail::Buffer(BufferError::InvalidSize {
            expected: BLOCK_SIZE,
            actual: len,
        })))
    } else if !word_aligned(addr as int, len as int) {
        Err(BlkError::Other(ErrorDetail::Buffer(BufferError::InvalidAlignment)))
    } else {
        Ok(())
    }
}

/// Rejects a caller buffer that holds fewer bytes than one block, or whose
/// start or end does not fall on a native-word boundary; accepts the rest.
///
/// A rejected buffer is reported, never silently truncated or padded, and the
/// caller must not touch the hardware for it.
pub fn validate_buffer(addr: usize, len: usize) -> (r: Result<(), BlkError>)
    ensures
        r == spec_validate_buffer(addr, len),
        r is Ok <==> len >= BLOCK_SIZE && word_aligned(addr as int, len as int),
{
    if len < BLOCK_SIZE {
        return Err(BlkError::Other(ErrorDetail::Buffer(BufferError::InvalidSize {
            expected: BLOCK_SIZE,
            actual: len,
        })));
    }
    if addr % WORD_BYTES != 0 || len % WORD_BYTES != 0 {
        return Err(BlkError::Other(ErrorDetail::Buffer(BufferError::InvalidAlignment)));
    }
    Ok(())
}

/// Copies the first `min(src.len(), dst.len())` words of `src` into `dst`,
/// leaving the rest of `dst` as it was: the staged read output truncated to
/// the caller's length.
pub fn copy_staging_prefix(dst: &mut Vec<u32>, src: &Vec<u32>)
    ensures
        final(dst).len() == old(dst).len(),
        forall|i: int|
            0 <= i < vstd::math::min(src.len() as int, old(dst).len() as int) ==> final(dst)[i]
                == src[i],
        forall|i: int|
            vstd::math::min(src.len() as int, old(dst).len() as int) <= i < old(dst).len()
                ==> final(dst)[i] == old(dst)[i],
{
    let copy_len: usize = if src.len() < dst.len() {
        src.len()
    } else {
        dst.len()
    };
    let mut i: usize = 0;
    while i < copy_len
        invariant
            copy_len == vstd::math::min(src.len() as int, old(dst).len() as int),
            i <= copy_len,
            dst.len() == old(dst).len(),
            forall|j: int| 0 <= j < i ==> dst[j] == src[j],
            forall|j: int| i <= j < old(dst).len() ==> dst[j] == old(dst)[j],
        decreases copy_len - i,
    {
        let v: u32 = src[i];
        dst.set(i, v);
        i = i + 1;
    }
}

} // verus!
