//! The address space of the card: 1024 frames of 128 bytes, in 16 blocks
//! of 64 frames.

use vstd::prelude::*;
use crate::errors::PSXError;

verus! {

/// Bytes in one frame.
pub const FRAME_LEN: usize = 128;

/// Frames on one card.
pub const FRAME_COUNT: u16 = 0x400;

/// Frames in one block.
pub const BLOCK_FRAMES: u16 = 64;

/// Blocks on one card.
pub const BLOCK_COUNT: u16 = 16;

/// Accepts a frame offset that lies on the card.
pub fn frame_ofs(offset: u16) -> (r: Result<u16, PSXError>)
    ensures
        offset <= 0x3ff ==> r == Ok::<u16, PSXError>(offset),
        offset > 0x3ff ==> r == Err::<u16, PSXError>(PSXError::FrameOfs),
{
    if offset > 0x3ff {
        return Err(PSXError::FrameOfs);
    }
    Ok(offset)
}

/// Turns a block offset into the offset of the block's first frame.
pub fn block_ofs(offset: u16) -> (r: Result<u16, PSXError>)
    ensures
        offset <= 15 ==> r == Ok::<u16, PSXError>((offset * 64) as u16),
        offset > 15 ==> r == Err::<u16, PSXError>(PSXError::BlockOfs),
{
    if offset > 15 {
        return Err(PSXError::BlockOfs);
    }
    Ok(offset * 64)
}

/// Every frame of a valid block lies on the card.
pub proof fn lemma_block_on_card(block: u16, i: u16)
    requires
        block <= 15,
        i < 64,
    ensures
        block * 64 + i <= 0x3ff,
{
}

} // verus!
