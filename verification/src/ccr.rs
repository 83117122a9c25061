//! Encoding of the QUADSPI communication configuration register (CCR).
//!
//! Field layout used here:
//! `[7:0]` INSTRUCTION, `[9:8]` IMODE, `[11:10]` ADMODE, `[13:12]` ADSIZE,
//! `[22:18]` DCYC (dummy cycles), `[25:24]` DMODE, `[27:26]` FMODE. All
//! other fields are left zero.

use vstd::prelude::*;

verus! {

/// Line mode of a phase: the phase is skipped.
pub const MODE_NONE: u32 = 0b00;

/// Line mode of a phase: one data line.
pub const MODE_SINGLE: u32 = 0b01;

/// Line mode of a phase: four data lines (per chip).
pub const MODE_QUAD: u32 = 0b11;

/// Address size field value for 32-bit addresses.
pub const ADSIZE_32BIT: u32 = 0b11;

/// Functional mode: indirect write.
pub const FMODE_INDIRECT_WRITE: u32 = 0b00;

/// Functional mode: indirect read.
pub const FMODE_INDIRECT_READ: u32 = 0b01;

/// Functional mode: memory-mapped.
pub const FMODE_MEMORY_MAPPED: u32 = 0b11;

/// Dummy cycles of the four-byte quad output fast read at full speed.
pub const FAST_READ_DUMMY_CYCLES: u32 = 8;

/// The CCR word with the given instruction byte and field values.
pub open spec fn ccr_word(
    instr: u8,
    imode: u32,
    admode: u32,
    adsize: u32,
    dcyc: u32,
    dmode: u32,
    fmode: u32,
) -> u32 {
    (instr as u32) | (imode << 8u32) | (admode << 10u32) | (adsize << 12u32) | (dcyc << 18u32) | (dmode
        << 24u32) | (fmode << 26u32)
}

/// Instruction byte held by a CCR word.
pub open spec fn instruction_of(w: u32) -> u32 {
    w & 0xFF
}

/// IMODE field of a CCR word.
pub open spec fn imode_of(w: u32) -> u32 {
    (w >> 8u32) & 3
}

/// ADMODE field of a CCR word.
pub open spec fn admode_of(w: u32) -> u32 {
    (w >> 10u32) & 3
}

/// ADSIZE field of a CCR word.
pub open spec fn adsize_of(w: u32) -> u32 {
    (w >> 12u32) & 3
}

/// DCYC field of a CCR word.
pub open spec fn dcyc_of(w: u32) -> u32 {
    (w >> 18u32) & 0x1F
}

/// DMODE field of a CCR word.
pub open spec fn dmode_of(w: u32) -> u32 {
    (w >> 24u32) & 3
}

/// FMODE field of a CCR word.
pub open spec fn fmode_of(w: u32) -> u32 {
    (w >> 26u32) & 3
}

/// Bits of a CCR word outside the seven fields above (alternate bytes,
/// DDR, SIOO and the like).
pub open spec fn other_bits_of(w: u32) -> u32 {
    w & 0xF083_C000
}

/// Decoding a CCR word built from fields gives those fields back, and no
/// other CCR field is touched.
pub proof fn lemma_ccr_fields_roundtrip(
    instr: u8,
    imode: u32,
    admode: u32,
    adsize: u32,
    dcyc: u32,
    dmode: u32,
    fmode: u32,
)
    requires
        imode < 4,
        admode < 4,
        adsize < 4,
        dcyc < 32,
        dmode < 4,
        fmode < 4,
    ensures
        ({
            let w = ccr_word(instr, imode, admode, adsize, dcyc, dmode, fmode);
            &&& instruction_of(w) == instr as u32
            &&& imode_of(w) == imode
            &&& admode_of(w) == admode
            &&& adsize_of(w) == adsize
            &&& dcyc_of(w) == dcyc
            &&& dmode_of(w) == dmode
            &&& fmode_of(w) == fmode
            &&& other_bits_of(w) == 0
        }),
{
    let i: u32 = instr as u32;
    assert({
        let w = i | (imode << 8u32) | (admode << 10u32) | (adsize << 12u32) | (dcyc << 18u32) | (dmode
            << 24u32) | (fmode << 26u32);
        &&& w & 0xFF == i
        &&& (w >> 8u32) & 3 == imode
        &&& (w >> 10u32) & 3 == admode
        &&& (w >> 12u32) & 3 == adsize
        &&& (w >> 18u32) & 0x1F == dcyc
        &&& (w >> 24u32) & 3 == dmode
        &&& (w >> 26u32) & 3 == fmode
        &&& w & 0xF083_C000 == 0
    }) by (bit_vector)
        requires
            i < 256,
            imode < 4,
            admode < 4,
            adsize < 4,
            dcyc < 32,
            dmode < 4,
            fmode < 4,
    ;
}

/// CCR word for an instruction-only command on one line in indirect write
/// mode (no address, no data), such as write enable or bulk erase.
pub fn ccr_cmd1(instr: u8) -> (r: u32)
    ensures
        r == ccr_word(instr, MODE_SINGLE, MODE_NONE, 0, 0, MODE_NONE, FMODE_INDIRECT_WRITE),
{
    let i: u32 = instr as u32;
    assert((i | (0b01u32 << 8u32)) == (i | (1u32 << 8u32) | (0u32 << 10u32) | (0u32 << 12u32) | (0u32 << 18u32) | (0u32 << 24u32) | (0u32 << 26u32))) by (bit_vector);
    i | (0b01 << 8)
}

/// CCR word for a one-line instruction followed by one-line data in
/// indirect read mode, without an address phase (status register read).
pub fn ccr_read1(instr: u8) -> (r: u32)
    ensures
        r == ccr_word(instr, MODE_SINGLE, MODE_NONE, 0, 0, MODE_SINGLE, FMODE_INDIRECT_READ),
{
    let i: u32 = instr as u32;
    assert((i | (0b01u32 << 8u32) | (0b01u32 << 24u32) | (0b01u32 << 26u32)) == (i | (1u32 << 8u32) | (0u32 << 10u32) | (0u32 << 12u32) | (0u32 << 18u32) | (1u32 << 24u32) | (1u32 << 26u32))) by (bit_vector);
    i | (0b01 << 8) | (0b01 << 24) | (0b01 << 26)
}

/// CCR word for a one-line instruction, a one-line 32-bit address and
/// one-line data in indirect write mode (four-byte page program).
pub fn ccr_write4b(instr: u8) -> (r: u32)
    ensures
        r == ccr_word(instr, MODE_SINGLE, MODE_SINGLE, ADSIZE_32BIT, 0, MODE_SINGLE, FMODE_INDIRECT_WRITE),
{
    let i: u32 = instr as u32;
    assert((i | (0b01u32 << 8u32) | (0b01u32 << 10u32) | (0b11u32 << 12u32) | (0b01u32 << 24u32)) == (i | (1u32 << 8u32) | (1u32 << 10u32) | (3u32 << 12u32) | (0u32 << 18u32) | (1u32 << 24u32) | (0u32 << 26u32))) by (bit_vector);
    i | (0b01 << 8) | (0b01 << 10) | (0b11 << 12) | (0b01 << 24)
}

/// CCR word for a one-line instruction with a one-line 32-bit address and
/// no data in indirect write mode (four-byte subsector erase).
pub fn ccr_erase4b(instr: u8) -> (r: u32)
    ensures
        r == ccr_word(instr, MODE_SINGLE, MODE_SINGLE, ADSIZE_32BIT, 0, MODE_NONE, FMODE_INDIRECT_WRITE),
{
    let i: u32 = instr as u32;
    assert((i | (0b01u32 << 8u32) | (0b01u32 << 10u32) | (0b11u32 << 12u32)) == (i | (1u32 << 8u32) | (1u32 << 10u32) | (3u32 << 12u32) | (0u32 << 18u32) | (0u32 << 24u32) | (0u32 << 26u32))) by (bit_vector);
    i | (0b01 << 8) | (0b01 << 10) | (0b11 << 12)
}

/// CCR word for memory-mapped reads: one-line instruction, one-line 32-bit
/// address, 8 dummy cycles and four-line data (four-byte quad output fast
/// read).
pub fn ccr_mmap4b(instr: u8) -> (r: u32)
    ensures
        r == ccr_word(instr, MODE_SINGLE, MODE_SINGLE, ADSIZE_32BIT, FAST_READ_DUMMY_CYCLES, MODE_QUAD, FMODE_MEMORY_MAPPED),
{
    let i: u32 = instr as u32;
    assert((i | (0b01u32 << 8u32) | (0b01u32 << 10u32) | (0b11u32 << 12u32) | (8u32 << 18u32) | (0b11u32 << 24u32) | (0b11u32 << 26u32)) == (i | (1u32 << 8u32) | (1u32 << 10u32) | (3u32 << 12u32) | (8u32 << 18u32) | (3u32 << 24u32) | (3u32 << 26u32))) by (bit_vector);
    i | (0b01 << 8) | (0b01 << 10) | (0b11 << 12) | (8 << 18) | (0b11 << 24) | (0b11 << 26)
}

} // verus!
