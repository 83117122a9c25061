//! Status of the two flash chips in dual flash mode.
//!
//! A status read returns two logical bytes: the status register of bank 1
//! in bits [7:0] of the data word and that of bank 2 in bits [15:8]. Their
//! write-in-progress (WIP) bits (bit 0 of each status register) are folded
//! into one byte, bank 1's at bit 0 and bank 2's at bit 4, so that
//! `status & 0x11 == 0` means both chips are idle.

use vstd::prelude::*;

verus! {

/// Mask of the two WIP positions in a folded status byte.
pub const WIP_MASK: u8 = 0x11;

/// The folded status byte for the data word `word`: bank 1's WIP bit at
/// bit 0, bank 2's WIP bit at bit 4, every other bit clear.
pub open spec fn packed_status(word: u32) -> u8 {
    ((word & 1) | (((word >> 8u32) & 1) << 4u32)) as u8
}

/// Whether a folded status byte holds either chip back.
pub open spec fn status_busy(status: u8) -> bool {
    status & WIP_MASK != 0
}

/// Folds the data word of a dual-bank status read into one status byte.
pub fn pack_status(word: u32) -> (r: u8)
    ensures
        r == packed_status(word),
{
    let bk1_wip: u32 = word & 1;
    let bk2_wip: u32 = (word >> 8) & 1;
    let folded: u32 = bk1_wip | (bk2_wip << 4);
    assert(folded < 256) by (bit_vector)
        requires folded == (word & 1) | (((word >> 8u32) & 1) << 4u32);
    folded as u8
}

/// Whether the folded status still reports a write in progress.
pub fn wip_pending(status: u8) -> (r: bool)
    ensures
        r == status_busy(status),
        r <==> (status & 1 != 0 || status & 0x10 != 0),
{
    assert((status & 0x11 != 0) == (status & 1 != 0 || status & 0x10 != 0)) by (bit_vector);
    (status & WIP_MASK) != 0
}

/// The folded byte carries bank 1's WIP bit at bit 0, bank 2's WIP bit at
/// bit 4 and nothing else; it depends only on those two bits of the data
/// word. The wait therefore ends exactly when neither chip reports a write
/// in progress, whatever the other status bits (write enable latch, block
/// protection) hold.
pub proof fn lemma_status_fold(word: u32)
    ensures
        packed_status(word) & 1 == word & 1,
        (packed_status(word) >> 4u8) & 1 == (word >> 8u32) & 1,
        packed_status(word) & !WIP_MASK == 0,
        packed_status(word) == packed_status(word & 0x101),
        status_busy(packed_status(word)) <==> word & 0x101 != 0,
{
    assert({
        let p: u8 = ((word & 1) | (((word >> 8u32) & 1) << 4u32)) as u8;
        let q: u8 = (((word & 0x101) & 1) | ((((word & 0x101) >> 8u32) & 1) << 4u32)) as u8;
        &&& p & 1 == word & 1
        &&& (p >> 4u8) & 1 == (word >> 8u32) & 1
        &&& p & !0x11u8 == 0
        &&& p == q
        &&& (p & 0x11 != 0) == (word & 0x101 != 0)
    }) by (bit_vector);
}

} // verus!
