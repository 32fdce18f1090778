//! The queue-adapter core: reserved-offset translation and the request
//! preparation that every submitted read or write goes through before any
//! hardware transfer.

use vstd::prelude::*;

use crate::buffer::{
    copy_staging_prefix, spec_validate_buffer, validate_buffer, word_aligned, BLOCK_SIZE,
};
use crate::errors::{
    spec_map_mci_error, spec_map_sd_error, BlkError, MciHostError, SdError,
};
use crate::errors::{map_mci_error_to_blk_error, map_sd_error_to_blk_error};

verus! {

/// Reserved-region offset of the SD-card board, in blocks: the byte offset
/// of the usable area divided by the block size.
pub const SD_RESERVED_OFFSET: usize = 0x400_0000 / 512;

/// Reserved-region offset of the eMMC board, in blocks.
pub const EMMC_RESERVED_OFFSET: usize = 0x7_A000;

/// Opaque token handed back for a submitted request. Every request completes
/// synchronously inside submission, so the token is always the same
/// placeholder: there is no deferred-completion registry to key into.
#[derive(Clone, Copy, Debug, PartialEq, Eq, Structural)]
pub struct RequestId(pub usize);

impl RequestId {
    /// Wraps a raw token value.
    pub fn new(raw: usize) -> (r: RequestId)
        ensures
            r.0 == raw,
    {
        RequestId(raw)
    }
}

/// One synchronous transfer as handed to the vendor host-controller library:
/// a physical start block and a block count.
#[derive(Clone, Copy, Debug, PartialEq, Eq, Structural)]
pub struct Transfer {
    pub start_block: u32,
    pub block_count: u32,
}

/// Buffer placement rules reported to the platform block subsystem.
#[derive(Clone, Copy, Debug, PartialEq, Eq, Structural)]
pub struct BuffConfig {
    pub dma_mask: u64,
    pub align: usize,
    pub size: usize,
}

/// Adds the board's reserved-region offset to a logical block id.
pub fn translate_block_id(block_id: usize, reserved_offset: usize) -> (physical: u32)
    requires
        block_id + reserved_offset <= u32::MAX,
    ensures
        physical == block_id + reserved_offset,
{
    (block_id + reserved_offset) as u32
}

/// Validates the caller buffer and translates the logical block id; what every
/// submitted request goes through before the hardware is touched.
///
/// A validation failure short-circuits: no `Transfer` exists for the request,
/// so nothing can be handed downstream. On success the transfer starts at the
/// logical id plus the board's reserved offset and covers exactly one block.
pub fn prepare_transfer(
    block_id: usize,
    reserved_offset: usize,
    buf_addr: usize,
    buf_len: usize,
) -> (r: Result<Transfer, BlkError>)
    requires
        block_id + reserved_offset <= u32::MAX,
    ensures
        r is Ok <==> buf_len >= BLOCK_SIZE && word_aligned(buf_addr as int, buf_len as int),
        r matches Ok(t) ==> t.start_block == block_id + reserved_offset && t.block_count == 1,
        r matches Err(e) ==> spec_validate_buffer(buf_addr, buf_len) == Err::<(), BlkError>(e),
{
    let physical = translate_block_id(block_id, reserved_offset);
    match validate_buffer(buf_addr, buf_len) {
        Ok(()) => Ok(Transfer { start_block: physical, block_count: 1 }),
        Err(e) => Err(e),
    }
}

/// The buffer placement rules for a device with the given block size: no
/// addressing restriction, page alignment, one block per buffer.
pub fn buff_config_for(block_size: usize) -> (c: BuffConfig)
    ensures
        c.dma_mask == u64::MAX,
        c.align == 0x1000,
        c.size == block_size,
{
    BuffConfig { dma_mask: u64::MAX, align: 0x1000, size: block_size }
}

/// Queue front-end for the SD-card board. A queue carries no state of its
/// own: it stands for one logical queue over the shared device handle, and
/// every request it prepares completes synchronously.
#[derive(Clone, Copy, Debug, PartialEq, Eq, Structural)]
pub struct SdCardQueue;

impl SdCardQueue {
    /// The identifier of this logical queue; the board serves one.
    pub fn id(&self) -> (r: usize)
        ensures
            r == 0,
    {
        0
    }

    /// Buffer placement rules for a device reporting the given block size.
    pub fn buff_config(&self, block_size: usize) -> (c: BuffConfig)
        ensures
            c.dma_mask == u64::MAX,
            c.align == 0x1000,
            c.size == block_size,
    {
        buff_config_for(block_size)
    }

    /// Validates the caller buffer and translates the logical block id with
    /// this board's reserved offset; any failure short-circuits before the
    /// hardware is touched.
    pub fn prepare_request(&self, block_id: usize, buf_addr: usize, buf_len: usize) -> (r: Result<
        Transfer,
        BlkError,
    >)
        requires
            block_id + SD_RESERVED_OFFSET <= u32::MAX,
        ensures
            r is Ok <==> buf_len >= BLOCK_SIZE && word_aligned(buf_addr as int, buf_len as int),
            r matches Ok(t) ==> t.start_block == block_id + SD_RESERVED_OFFSET && t.block_count
                == 1,
            r matches Err(e) ==> spec_validate_buffer(buf_addr, buf_len) == Err::<(), BlkError>(e),
    {
        prepare_transfer(block_id, SD_RESERVED_OFFSET, buf_addr, buf_len)
    }

    /// Finishes a read: on success the staged words are copied into the
    /// caller's words, truncated to the caller's length, and the constant
    /// token is returned; on failure the vendor code is classified and the
    /// caller's buffer is untouched.
    pub fn complete_read(
        &self,
        outcome: Result<Vec<u32>, MciHostError>,
        caller_words: &mut Vec<u32>,
    ) -> (r: Result<RequestId, BlkError>)
        ensures
            final(caller_words).len() == old(caller_words).len(),
            outcome matches Ok(staged) ==> {
                &&& r == Ok::<RequestId, BlkError>(RequestId(0))
                &&& forall|i: int|
                    0 <= i < vstd::math::min(staged.len() as int, old(caller_words).len() as int)
                        ==> final(caller_words)[i] == staged[i]
                &&& forall|i: int|
                    vstd::math::min(staged.len() as int, old(caller_words).len() as int) <= i < old(
                        caller_words,
                    ).len() ==> final(caller_words)[i] == old(caller_words)[i]
            },
            outcome matches Err(e) ==> r == Err::<RequestId, BlkError>(spec_map_mci_error(e))
                && *final(caller_words) == *old(caller_words),
    {
        match outcome {
            Ok(staged) => {
                copy_staging_prefix(caller_words, &staged);
                Ok(RequestId::new(0))
            },
            Err(e) => Err(map_mci_error_to_blk_error(e)),
        }
    }

    /// Finishes a write: success yields the constant token, a failure is
    /// classified into the outward taxonomy.
    pub fn complete_write(&self, outcome: Result<(), MciHostError>) -> (r: Result<
        RequestId,
        BlkError,
    >)
        ensures
            outcome is Ok ==> r == Ok::<RequestId, BlkError>(RequestId(0)),
            outcome matches Err(e) ==> r == Err::<RequestId, BlkError>(spec_map_mci_error(e)),
    {
        match outcome {
            Ok(()) => Ok(RequestId::new(0)),
            Err(e) => Err(map_mci_error_to_blk_error(e)),
        }
    }

    /// Always succeeds immediately, for any token, with no observable effect:
    /// every request already completed inside submission, so there is nothing
    /// to wait for.
    pub fn poll_request(&mut self, _request: RequestId) -> (r: Result<(), BlkError>)
        ensures
            r == Ok::<(), BlkError>(()),
            *final(self) == *old(self),
    {
        Ok(())
    }
}

/// Queue front-end for the eMMC board; reads and writes move directly through
/// the caller's buffer, with no staging region.
#[derive(Clone, Copy, Debug, PartialEq, Eq, Structural)]
pub struct EmmcQueue;

impl EmmcQueue {
    /// The identifier of this logical queue; the board serves one.
    pub fn id(&self) -> (r: usize)
        ensures
            r == 0,
    {
        0
    }

    /// Buffer placement rules for a device reporting the given block size.
    pub fn buff_config(&self, block_size: usize) -> (c: BuffConfig)
        ensures
            c.dma_mask == u64::MAX,
            c.align == 0x1000,
            c.size == block_size,
    {
        buff_config_for(block_size)
    }

    /// Validates the caller buffer and translates the logical block id with
    /// this board's reserved offset; any failure short-circuits before the
    /// hardware is touched.
    pub fn prepare_request(&self, block_id: usize, buf_addr: usize, buf_len: usize) -> (r: Result<
        Transfer,
        BlkError,
    >)
        requires
            block_id + EMMC_RESERVED_OFFSET <= u32::MAX,
        ensures
            r is Ok <==> buf_len >= BLOCK_SIZE && word_aligned(buf_addr as int, buf_len as int),
            r matches Ok(t) ==> t.start_block == block_id + EMMC_RESERVED_OFFSET && t.block_count
                == 1,
            r matches Err(e) ==> spec_validate_buffer(buf_addr, buf_len) == Err::<(), BlkError>(e),
    {
        prepare_transfer(block_id, EMMC_RESERVED_OFFSET, buf_addr, buf_len)
    }

    /// Finishes a read or write: success yields the constant token, a failure
    /// is classified into the outward taxonomy.
    pub fn complete_request(&self, outcome: Result<(), SdError>) -> (r: Result<
        RequestId,
        BlkError,
    >)
        ensures
            outcome is Ok ==> r == Ok::<RequestId, BlkError>(RequestId(0)),
            outcome matches Err(e) ==> r == Err::<RequestId, BlkError>(spec_map_sd_error(e)),
    {
        match outcome {
            Ok(()) => Ok(RequestId::new(0)),
            Err(e) => Err(map_sd_error_to_blk_error(e)),
        }
    }

    /// Always succeeds immediately, for any token, with no observable effect:
    /// every request already completed inside submission, so there is nothing
    /// to wait for.
    pub fn poll_request(&mut self, _request: RequestId) -> (r: Result<(), BlkError>)
        ensures
            r == Ok::<(), BlkError>(()),
            *final(self) == *old(self),
    {
        Ok(())
    }
}

} // verus!
