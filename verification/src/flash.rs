//! The flash algorithm: register sequences for initialisation, chip erase,
//! sector erase and page programming of the two chips in dual flash mode.
//!
//! In dual flash mode the QUADSPI sends `AR[31:1]` to each chip, so the
//! logical offset from the start of the flash window is written to AR as
//! it is: the hardware halves it.
//!
//! Outside of these sequences the QUADSPI stays in memory-mapped mode, so
//! the flash window at `0x9000_0000` reads through the four-byte quad
//! output fast read. Erase and program sequences leave memory-mapped mode
//! (abort) first, since CCR cannot be written while it is active, and
//! return to it at the end.

use vstd::prelude::*;
use crate::bus::{
    BusOp, written_words, written_bytes, lemma_written_words_append, lemma_written_bytes_append,
    reg_effects, lemma_reg_effects_append,
};
use crate::ccr::{
    lemma_ccr_fields_roundtrip, instruction_of, imode_of, admode_of, adsize_of, dcyc_of, dmode_of,
    fmode_of, ccr_word, ccr_cmd1, ccr_read1, ccr_write4b, ccr_erase4b, ccr_mmap4b, MODE_NONE,
    MODE_SINGLE, MODE_QUAD, ADSIZE_32BIT, FAST_READ_DUMMY_CYCLES, FMODE_INDIRECT_READ,
    FMODE_INDIRECT_WRITE, FMODE_MEMORY_MAPPED,
};
use crate::cmds::Cmds;
use crate::gpio::{
    PinAf, pins_plan, qspi_pin_table, qspi_pins, setup_pins, pin_configured, afr_offset,
    lemma_qspi_pins_configured, GPIO_AFRH, GPIO_MODER, GPIO_OSPEEDR,
};
use crate::regs::{
    QSPI_SR, QSPI_FCR, QSPI_DLR, QSPI_CCR, QSPI_AR, QSPI_DR, QSPI_CR, QSPI_DCR, SR_BUSY, SR_TCF,
    SR_FTF, FCR_CLEAR_ALL, STATUS_READ_DLR, CR_ABORT, CR_CONFIG, DCR_CONFIG, RCC_AHB3ENR,
    RCC_AHB4ENR, AHB3ENR_QSPIEN, AHB4ENR_GPIO_BDE, FLASH_BASE,
};

verus! {

// ---- single operations ----

/// Poll until the QUADSPI is no longer busy.
pub open spec fn wait_busy_op() -> BusOp {
    BusOp::WaitClear { addr: QSPI_SR, mask: SR_BUSY }
}

/// Clear every QUADSPI flag.
pub open spec fn clear_flags_op() -> BusOp {
    BusOp::Write32 { addr: QSPI_FCR, value: FCR_CLEAR_ALL }
}

/// The bus operation that waits for the QUADSPI to go idle.
pub fn wait_busy() -> (op: BusOp)
    ensures
        op == wait_busy_op(),
{
    BusOp::WaitClear { addr: QSPI_SR, mask: SR_BUSY }
}

/// The bus operation that clears the QUADSPI flags.
pub fn clear_flags() -> (op: BusOp)
    ensures
        op == clear_flags_op(),
{
    BusOp::Write32 { addr: QSPI_FCR, value: FCR_CLEAR_ALL }
}

/// CCR word of an instruction-only command.
pub open spec fn cmd1_word(instr: u8) -> u32 {
    ccr_word(instr, MODE_SINGLE, MODE_NONE, 0, 0, MODE_NONE, FMODE_INDIRECT_WRITE)
}

/// CCR word of a status register read from both chips.
pub open spec fn read1_word(instr: u8) -> u32 {
    ccr_word(instr, MODE_SINGLE, MODE_NONE, 0, 0, MODE_SINGLE, FMODE_INDIRECT_READ)
}

/// CCR word of a four-byte-address program with one-line data.
pub open spec fn write4b_word(instr: u8) -> u32 {
    ccr_word(instr, MODE_SINGLE, MODE_SINGLE, ADSIZE_32BIT, 0, MODE_SINGLE, FMODE_INDIRECT_WRITE)
}

/// CCR word of a four-byte-address erase.
pub open spec fn erase4b_word(instr: u8) -> u32 {
    ccr_word(instr, MODE_SINGLE, MODE_SINGLE, ADSIZE_32BIT, 0, MODE_NONE, FMODE_INDIRECT_WRITE)
}

/// CCR word of memory-mapped reads: four-byte address, 8 dummy cycles,
/// four-line data.
pub open spec fn mmap_word(instr: u8) -> u32 {
    ccr_word(
        instr,
        MODE_SINGLE,
        MODE_SINGLE,
        ADSIZE_32BIT,
        FAST_READ_DUMMY_CYCLES,
        MODE_QUAD,
        FMODE_MEMORY_MAPPED,
    )
}

/// Issue an instruction-only command: wait until idle, clear the flags,
/// start the command, wait until it has been sent.
pub open spec fn send_cmd_plan(instr: u8) -> Seq<BusOp> {
    seq![
        wait_busy_op(),
        clear_flags_op(),
        BusOp::Write32 { addr: QSPI_CCR, value: cmd1_word(instr) },
        wait_busy_op(),
    ]
}

/// Read the status registers of both chips: one byte from each, two
/// logical bytes in all. The word captured from DR is folded by
/// [`crate::status::pack_status`].
pub open spec fn read_status_plan() -> Seq<BusOp> {
    seq![
        wait_busy_op(),
        clear_flags_op(),
        BusOp::Write32 { addr: QSPI_DLR, value: STATUS_READ_DLR },
        BusOp::Write32 { addr: QSPI_CCR, value: read1_word(Cmds::ReadStatusRegister.opcode_spec()) },
        BusOp::WaitSet { addr: QSPI_SR, mask: SR_TCF },
        BusOp::Capture { addr: QSPI_DR },
        clear_flags_op(),
    ]
}

/// Bus operations that issue the instruction-only command `instr`.
pub fn send_cmd(instr: u8) -> (ops: Vec<BusOp>)
    ensures
        ops@ == send_cmd_plan(instr),
{
    let mut ops: Vec<BusOp> = Vec::new();
    ops.push(wait_busy());
    ops.push(clear_flags());
    ops.push(BusOp::Write32 { addr: QSPI_CCR, value: ccr_cmd1(instr) });
    ops.push(wait_busy());
    assert(ops@ =~= send_cmd_plan(instr));
    ops
}

/// Bus operations of one status read of both chips. The word loaded by its
/// `Capture` step is the status data: folded by
/// [`crate::status::pack_status`], the wait for the chips ends when
/// [`crate::status::wip_pending`] is false.
pub fn read_status() -> (ops: Vec<BusOp>)
    ensures
        ops@ == read_status_plan(),
{
    let mut ops: Vec<BusOp> = Vec::new();
    ops.push(wait_busy());
    ops.push(clear_flags());
    // 2 logical bytes (BK1 status + BK2 status)
    ops.push(BusOp::Write32 { addr: QSPI_DLR, value: STATUS_READ_DLR });
    ops.push(BusOp::Write32 { addr: QSPI_CCR, value: ccr_read1(Cmds::ReadStatusRegister.opcode()) });
    ops.push(BusOp::WaitSet { addr: QSPI_SR, mask: SR_TCF });
    ops.push(BusOp::Capture { addr: QSPI_DR });
    ops.push(clear_flags());
    assert(ops@ =~= read_status_plan());
    ops
}

/// The bus operation that waits until neither chip has a write in
/// progress: it repeats [`read_status`] until the folded status of the
/// captured word clears (see [`crate::bus::poll_done`]).
pub fn wait_wip() -> (op: BusOp)
    ensures
        op == BusOp::WaitReady,
{
    BusOp::WaitReady
}

// ---- memory-mapped mode ----

/// Leave memory-mapped mode: request an abort and wait until it is done.
pub open spec fn leave_mmap_plan() -> Seq<BusOp> {
    seq![
        BusOp::Modify { addr: QSPI_CR, clear: 0, set: CR_ABORT },
        BusOp::WaitClear { addr: QSPI_CR, mask: CR_ABORT },
    ]
}

/// CCR word that maps the flash: four-byte quad output fast read.
pub open spec fn mmap_ccr() -> u32 {
    mmap_word(Cmds::FourByteQuadOutputFastRead.opcode_spec())
}

/// The CCR store that enters memory-mapped mode.
pub open spec fn mmap_ccr_op() -> BusOp {
    BusOp::Write32 { addr: QSPI_CCR, value: mmap_ccr() }
}

/// Enter memory-mapped mode with the four-byte quad output fast read.
pub open spec fn enter_mmap_plan() -> Seq<BusOp> {
    seq![
        wait_busy_op(),
        clear_flags_op(),
        mmap_ccr_op(),
    ]
}

/// Bus operations that stop memory-mapped reads so that commands can be
/// issued.
pub fn leave_memory_mapped() -> (ops: Vec<BusOp>)
    ensures
        ops@ == leave_mmap_plan(),
{
    let mut ops: Vec<BusOp> = Vec::new();
    ops.push(BusOp::Modify { addr: QSPI_CR, clear: 0, set: CR_ABORT });
    ops.push(BusOp::WaitClear { addr: QSPI_CR, mask: CR_ABORT });
    assert(ops@ =~= leave_mmap_plan());
    ops
}

/// Bus operations that map the flash into the address space: reads of the
/// window use the four-byte quad output fast read (0x6C) with 8 dummy
/// cycles.
pub fn enter_memory_mapped() -> (ops: Vec<BusOp>)
    ensures
        ops@ == enter_mmap_plan(),
{
    let mut ops: Vec<BusOp> = Vec::new();
    ops.push(wait_busy());
    ops.push(clear_flags());
    ops.push(
        BusOp::Write32 { addr: QSPI_CCR, value: ccr_mmap4b(Cmds::FourByteQuadOutputFastRead.opcode()) },
    );
    assert(ops@ =~= enter_mmap_plan());
    ops
}

/// End of every erase or program: wait for both chips, then map the flash
/// again.
pub open spec fn finish_plan() -> Seq<BusOp> {
    seq![BusOp::WaitReady] + enter_mmap_plan()
}

// ---- whole operations ----

/// Offset of `address` from the start of the flash window, as written to
/// AR (not halved: in dual flash mode the QUADSPI halves it itself).
pub open spec fn flash_offset(address: u32) -> u32 {
    (address - FLASH_BASE) as u32
}

/// The data bytes pushed into the FIFO one by one, each after the FIFO
/// has room (FTF) or the transfer has completed (TCF).
pub open spec fn fifo_plan(data: Seq<u8>) -> Seq<BusOp>
    decreases data.len(),
{
    if data.len() == 0 {
        seq![]
    } else {
        fifo_plan(data.drop_last()) + seq![
            BusOp::WaitSet { addr: QSPI_SR, mask: SR_FTF | SR_TCF },
            BusOp::Write8 { addr: QSPI_DR, byte: data.last() },
        ]
    }
}

/// Start-up, first part: clocks of GPIO B, D, E and QUADSPI on.
pub open spec fn clock_enable_plan() -> Seq<BusOp> {
    seq![
        BusOp::Modify { addr: RCC_AHB4ENR, clear: 0, set: AHB4ENR_GPIO_BDE },
        BusOp::Modify { addr: RCC_AHB3ENR, clear: 0, set: AHB3ENR_QSPIEN },
        BusOp::Read { addr: RCC_AHB3ENR },
    ]
}

/// Start-up, QUADSPI part: abort any transfer, disable, configure DCR,
/// enable in dual flash mode, wait until idle.
pub open spec fn qspi_config_plan() -> Seq<BusOp> {
    seq![
        BusOp::Modify { addr: QSPI_CR, clear: 0, set: CR_ABORT },
        BusOp::WaitClear { addr: QSPI_CR, mask: CR_ABORT },
        BusOp::Write32 { addr: QSPI_CR, value: 0 },
        BusOp::Write32 { addr: QSPI_DCR, value: DCR_CONFIG },
        BusOp::Write32 { addr: QSPI_CR, value: CR_CONFIG },
        wait_busy_op(),
    ]
}

/// Start-up: clocks of GPIO B, D, E and QUADSPI on, QUADSPI pins in
/// alternate-function mode, the QUADSPI configured for the dual-chip flash
/// and enabled, and the flash mapped into the address space.
pub open spec fn init_plan() -> Seq<BusOp> {
    clock_enable_plan() + pins_plan(qspi_pin_table()) + qspi_config_plan() + enter_mmap_plan()
}

/// Chip erase: leave memory-mapped mode, write enable, bulk erase, wait for
/// both chips, map the flash again.
pub open spec fn erase_all_plan() -> Seq<BusOp> {
    leave_mmap_plan() + send_cmd_plan(Cmds::WriteEnable.opcode_spec()) + send_cmd_plan(
        Cmds::BulkErase.opcode_spec(),
    ) + finish_plan()
}

/// Sector erase, the command itself: four-byte 4 KB subsector erase in
/// each chip at the logical offset of `address`.
pub open spec fn erase_body_plan(address: u32) -> Seq<BusOp> {
    seq![
        wait_busy_op(),
        clear_flags_op(),
        BusOp::Write32 {
            addr: QSPI_CCR,
            value: erase4b_word(Cmds::FourByte4KbSubsectorErase.opcode_spec()),
        },
        BusOp::Write32 { addr: QSPI_AR, value: flash_offset(address) },
        wait_busy_op(),
    ]
}

/// Sector erase: leave memory-mapped mode, write enable, subsector erase at
/// the logical offset of `address`, wait for both chips, map the flash
/// again.
pub open spec fn erase_sector_plan(address: u32) -> Seq<BusOp> {
    leave_mmap_plan() + send_cmd_plan(Cmds::WriteEnable.opcode_spec()) + erase_body_plan(address)
        + finish_plan()
}

/// DLR value for a transfer of `data`: its length (as a 32-bit count) less one.
pub open spec fn data_length_word(data: Seq<u8>) -> u32 {
    ((data.len() as u32) - 1) as u32
}

/// Page program, the part between the write enable and the data.
pub open spec fn program_head_plan(address: u32, data: Seq<u8>) -> Seq<BusOp> {
    seq![
        wait_busy_op(),
        clear_flags_op(),
        BusOp::Write32 { addr: QSPI_DLR, value: data_length_word(data) },
        BusOp::Write32 {
            addr: QSPI_CCR,
            value: write4b_word(Cmds::FourBytePageProgram.opcode_spec()),
        },
        BusOp::Write32 { addr: QSPI_AR, value: flash_offset(address) },
    ]
}

/// Page program, the part after the data: wait for the transfer to
/// complete, clear the flags, wait until idle.
pub open spec fn program_tail_plan() -> Seq<BusOp> {
    seq![
        BusOp::WaitSet { addr: QSPI_SR, mask: SR_TCF },
        clear_flags_op(),
        wait_busy_op(),
    ]
}

/// Page program: leave memory-mapped mode, write enable, four-byte page
/// program (one data line) at the logical offset of `address` with `data` pushed
/// through the FIFO, wait for the transfer and then for both chips, map
/// the flash again.
pub open spec fn program_page_plan(address: u32, data: Seq<u8>) -> Seq<BusOp> {
    leave_mmap_plan() + send_cmd_plan(Cmds::WriteEnable.opcode_spec()) + program_head_plan(
        address,
        data,
    ) + fifo_plan(data) + program_tail_plan() + finish_plan()
}

/// The flash algorithm for the two MT25QL512ABB chips in dual flash mode.
/// It keeps no state: each operation is the register sequence that carries
/// it out.
#[derive(Clone, Copy, Debug)]
pub struct Algorithm;

impl Algorithm {
    /// The algorithm and the register sequence that initialises the clocks,
    /// the QUADSPI pins and the QUADSPI itself, and maps the flash.
    pub fn new() -> (r: (Algorithm, Vec<BusOp>))
        ensures
            r.1@ == init_plan(),
    {
        let mut ops: Vec<BusOp> = Vec::new();
        // RCC: enable GPIOB, GPIOD, GPIOE, QSPI
        ops.push(BusOp::Modify { addr: RCC_AHB4ENR, clear: 0, set: AHB4ENR_GPIO_BDE });
        ops.push(BusOp::Modify { addr: RCC_AHB3ENR, clear: 0, set: AHB3ENR_QSPIEN });
        // ensure the clocks propagate (read-back)
        ops.push(BusOp::Read { addr: RCC_AHB3ENR });
        let pins = qspi_pins();
        assert forall|i: int| 0 <= i < pins.len() implies #[trigger] pins[i].pin < 16 && pins[i].port
            <= u32::MAX - GPIO_AFRH by {
            assert(pins@ == qspi_pin_table());
        }
        let mut gpio = setup_pins(&pins);
        ops.append(&mut gpio);
        // abort any ongoing transaction
        ops.push(BusOp::Modify { addr: QSPI_CR, clear: 0, set: CR_ABORT });
        ops.push(BusOp::WaitClear { addr: QSPI_CR, mask: CR_ABORT });
        // disable, configure, enable in dual flash mode
        ops.push(BusOp::Write32 { addr: QSPI_CR, value: 0 });
        ops.push(BusOp::Write32 { addr: QSPI_DCR, value: DCR_CONFIG });
        ops.push(BusOp::Write32 { addr: QSPI_CR, value: CR_CONFIG });
        ops.push(wait_busy());
        let mut mapped = enter_memory_mapped();
        ops.append(&mut mapped);
        assert(ops@ =~= init_plan());
        (Algorithm, ops)
    }

    /// Register sequence that erases both chips entirely.
    pub fn erase_all(&self) -> (ops: Vec<BusOp>)
        ensures
            ops@ == erase_all_plan(),
    {
        let mut ops = leave_memory_mapped();
        let mut wren = send_cmd(Cmds::WriteEnable.opcode());
        ops.append(&mut wren);
        let mut erase = send_cmd(Cmds::BulkErase.opcode());
        ops.append(&mut erase);
        ops.push(wait_wip());
        let mut mapped = enter_memory_mapped();
        ops.append(&mut mapped);
        assert(ops@ =~= erase_all_plan());
        ops
    }

    /// Register sequence that erases the logical sector at `address` (a 4 KB
    /// subsector in each chip).
    pub fn erase_sector(&self, address: u32) -> (ops: Vec<BusOp>)
        requires
            address >= FLASH_BASE,
        ensures
            ops@ == erase_sector_plan(address),
    {
        // The logical offset goes to AR unchanged: the QUADSPI already halves
        // it in dual flash mode, a manual division would shift twice.
        let offset: u32 = address - FLASH_BASE;
        let mut ops = leave_memory_mapped();
        let mut wren = send_cmd(Cmds::WriteEnable.opcode());
        ops.append(&mut wren);
        ops.push(wait_busy());
        ops.push(clear_flags());
        ops.push(
            BusOp::Write32 { addr: QSPI_CCR, value: ccr_erase4b(Cmds::FourByte4KbSubsectorErase.opcode()) },
        );
        ops.push(BusOp::Write32 { addr: QSPI_AR, value: offset });
        ops.push(wait_busy());
        ops.push(wait_wip());
        let mut mapped = enter_memory_mapped();
        ops.append(&mut mapped);
        assert(ops@ =~= erase_sector_plan(address));
        ops
    }

    /// Register sequence that programs `data` at `address` with the
    /// four-byte page program.
    pub fn program_page(&self, address: u32, data: &[u8]) -> (ops: Vec<BusOp>)
        requires
            address >= FLASH_BASE,
            data@.len() as u32 >= 1,
        ensures
            ops@ == program_page_plan(address, data@),
    {
        let offset: u32 = address - FLASH_BASE;
        let mut ops = leave_memory_mapped();
        let mut wren = send_cmd(Cmds::WriteEnable.opcode());
        ops.append(&mut wren);
        ops.push(wait_busy());
        ops.push(clear_flags());
        let len: u32 = data.len() as u32;
        ops.push(BusOp::Write32 { addr: QSPI_DLR, value: len - 1 });
        ops.push(
            BusOp::Write32 {
                addr: QSPI_CCR,
                value: ccr_write4b(Cmds::FourBytePageProgram.opcode()),
            },
        );
        ops.push(BusOp::Write32 { addr: QSPI_AR, value: offset });
        let ghost head = ops@;
        // write the data into the FIFO
        let mut i: usize = 0;
        while i < data.len()
            invariant
                i <= data.len(),
                ops@ == head + fifo_plan(data@.take(i as int)),
            decreases data.len() - i,
        {
            ops.push(BusOp::WaitSet { addr: QSPI_SR, mask: SR_FTF | SR_TCF });
            ops.push(BusOp::Write8 { addr: QSPI_DR, byte: data[i] });
            proof {
                let t = data@.take(i as int + 1);
                assert(t.drop_last() =~= data@.take(i as int));
                assert(t.last() == data@[i as int]);
                assert(ops@ =~= head + fifo_plan(t));
            }
            i = i + 1;
        }
        assert(data@.take(i as int) =~= data@);
        ops.push(BusOp::WaitSet { addr: QSPI_SR, mask: SR_TCF });
        ops.push(clear_flags());
        ops.push(wait_busy());
        ops.push(wait_wip());
        let mut mapped = enter_memory_mapped();
        ops.append(&mut mapped);
        assert(ops@ =~= program_page_plan(address, data@));
        ops
    }
}

// ---- the sequences, operation by operation ----

/// The CCR words the sequences use, as numbers.
pub proof fn lemma_ccr_values()
    ensures
        cmd1_word(0x06) == 0x0000_0106,
        cmd1_word(0xC7) == 0x0000_01C7,
        erase4b_word(0x21) == 0x0000_3521,
        write4b_word(0x12) == 0x0100_3512,
        read1_word(0x05) == 0x0500_0105,
        mmap_word(0x6C) == 0x0F20_356C,
        mmap_ccr() == 0x0F20_356C,
        SR_FTF | SR_TCF == 6,
{
    assert({
        &&& (6u8 as u32) | (1u32 << 8u32) | (0u32 << 10u32) | (0u32 << 12u32) | (0u32 << 18u32) | (0u32 << 24u32) | (0u32 << 26u32) == 0x106
        &&& (0xC7u8 as u32) | (1u32 << 8u32) | (0u32 << 10u32) | (0u32 << 12u32) | (0u32 << 18u32) | (0u32 << 24u32) | (0u32 << 26u32) == 0x1C7
        &&& (0x21u8 as u32) | (1u32 << 8u32) | (1u32 << 10u32) | (3u32 << 12u32) | (0u32 << 18u32) | (0u32 << 24u32) | (0u32 << 26u32) == 0x3521
        &&& (0x12u8 as u32) | (1u32 << 8u32) | (1u32 << 10u32) | (3u32 << 12u32) | (0u32 << 18u32) | (1u32 << 24u32) | (0u32 << 26u32) == 0x0100_3512
        &&& (5u8 as u32) | (1u32 << 8u32) | (0u32 << 10u32) | (0u32 << 12u32) | (0u32 << 18u32) | (1u32 << 24u32) | (1u32 << 26u32) == 0x0500_0105
        &&& (0x6Cu8 as u32) | (1u32 << 8u32) | (1u32 << 10u32) | (3u32 << 12u32) | (8u32 << 18u32) | (3u32 << 24u32) | (3u32 << 26u32) == 0x0F20_356C
        &&& (1u32 << 2u32) | (1u32 << 1u32) == 6
    }) by (bit_vector);
}

/// An instruction-only command, operation by operation: wait until the
/// QUADSPI is idle, clear the flags, store the instruction with a one-line
/// instruction phase in CCR (which starts it), wait until it is sent.
pub proof fn lemma_send_cmd_sequence(instr: u8)
    ensures
        ({
            let p = send_cmd_plan(instr);
            &&& p.len() == 4
            &&& p[0] == BusOp::WaitClear { addr: QSPI_SR, mask: SR_BUSY }
            &&& p[1] == BusOp::Write32 { addr: QSPI_FCR, value: 0x1F }
            &&& p[2] == BusOp::Write32 { addr: QSPI_CCR, value: (instr as u32) | 0x100 }
            &&& p[3] == BusOp::WaitClear { addr: QSPI_SR, mask: SR_BUSY }
        }),
{
    let i: u32 = instr as u32;
    assert((i | (1u32 << 8u32) | (0u32 << 10u32) | (0u32 << 12u32) | (0u32 << 18u32) | (0u32 << 24u32)
        | (0u32 << 26u32)) == i | 0x100) by (bit_vector);
}

/// A status read, operation by operation: the status data word is
/// captured only after the transfer-complete flag is set, and the data
/// length and read command are stored before.
pub proof fn lemma_read_status_sequence()
    ensures
        ({
            let p = read_status_plan();
            &&& p.len() == 7
            &&& p[0] == BusOp::WaitClear { addr: QSPI_SR, mask: SR_BUSY }
            &&& p[1] == BusOp::Write32 { addr: QSPI_FCR, value: 0x1F }
            &&& p[2] == BusOp::Write32 { addr: QSPI_DLR, value: 1 }
            &&& p[3] == BusOp::Write32 { addr: QSPI_CCR, value: 0x0500_0105 }
            &&& p[4] == BusOp::WaitSet { addr: QSPI_SR, mask: SR_TCF }
            &&& p[5] == BusOp::Capture { addr: QSPI_DR }
            &&& p[6] == BusOp::Write32 { addr: QSPI_FCR, value: 0x1F }
        }),
{
    lemma_ccr_values();
}

/// Chip erase, operation by operation: abort memory-mapped mode, write
/// enable, bulk erase, wait for both chips, map the flash again.
pub proof fn lemma_erase_all_sequence()
    ensures
        ({
            let p = erase_all_plan();
            &&& p.len() == 14
            &&& p[0] == BusOp::Modify { addr: QSPI_CR, clear: 0, set: CR_ABORT }
            &&& p[1] == BusOp::WaitClear { addr: QSPI_CR, mask: CR_ABORT }
            &&& p[2] == BusOp::WaitClear { addr: QSPI_SR, mask: SR_BUSY }
            &&& p[3] == BusOp::Write32 { addr: QSPI_FCR, value: 0x1F }
            &&& p[4] == BusOp::Write32 { addr: QSPI_CCR, value: 0x106 }
            &&& p[5] == BusOp::WaitClear { addr: QSPI_SR, mask: SR_BUSY }
            &&& p[6] == BusOp::WaitClear { addr: QSPI_SR, mask: SR_BUSY }
            &&& p[7] == BusOp::Write32 { addr: QSPI_FCR, value: 0x1F }
            &&& p[8] == BusOp::Write32 { addr: QSPI_CCR, value: 0x1C7 }
            &&& p[9] == BusOp::WaitClear { addr: QSPI_SR, mask: SR_BUSY }
            &&& p[10] == BusOp::WaitReady
            &&& p[11] == BusOp::WaitClear { addr: QSPI_SR, mask: SR_BUSY }
            &&& p[12] == BusOp::Write32 { addr: QSPI_FCR, value: 0x1F }
            &&& p[13] == BusOp::Write32 { addr: QSPI_CCR, value: 0x0F20_356C }
        }),
{
    lemma_ccr_values();
}

/// Sector erase, operation by operation. The erase word goes to CCR first
/// and the raw logical offset to AR right after it: with an address phase
/// and no data phase the QUADSPI starts the command on that AR store, so
/// the erase is sent to both chips at `address - 0x9000_0000`.
pub proof fn lemma_erase_sector_sequence(address: u32)
    requires
        address >= FLASH_BASE,
    ensures
        ({
            let p = erase_sector_plan(address);
            &&& p.len() == 15
            &&& p[0] == BusOp::Modify { addr: QSPI_CR, clear: 0, set: CR_ABORT }
            &&& p[1] == BusOp::WaitClear { addr: QSPI_CR, mask: CR_ABORT }
            &&& p[2] == BusOp::WaitClear { addr: QSPI_SR, mask: SR_BUSY }
            &&& p[3] == BusOp::Write32 { addr: QSPI_FCR, value: 0x1F }
            &&& p[4] == BusOp::Write32 { addr: QSPI_CCR, value: 0x106 }
            &&& p[5] == BusOp::WaitClear { addr: QSPI_SR, mask: SR_BUSY }
            &&& p[6] == BusOp::WaitClear { addr: QSPI_SR, mask: SR_BUSY }
            &&& p[7] == BusOp::Write32 { addr: QSPI_FCR, value: 0x1F }
            &&& p[8] == BusOp::Write32 { addr: QSPI_CCR, value: 0x3521 }
            &&& p[9] == BusOp::Write32 { addr: QSPI_AR, value: (address - 0x9000_0000) as u32 }
            &&& p[10] == BusOp::WaitClear { addr: QSPI_SR, mask: SR_BUSY }
            &&& p[11] == BusOp::WaitReady
            &&& p[12] == BusOp::WaitClear { addr: QSPI_SR, mask: SR_BUSY }
            &&& p[13] == BusOp::Write32 { addr: QSPI_FCR, value: 0x1F }
            &&& p[14] == BusOp::Write32 { addr: QSPI_CCR, value: 0x0F20_356C }
        }),
{
    lemma_ccr_values();
}

/// The FIFO part of a page program, operation by operation: for each byte
/// of `data` in order, a wait for FIFO room or transfer completion, then
/// the byte stored in DR.
pub proof fn lemma_fifo_sequence(data: Seq<u8>)
    ensures
        fifo_plan(data).len() == 2 * data.len(),
        forall|k: int| 0 <= k < data.len() ==> fifo_plan(data)[2 * k] == (BusOp::WaitSet {
            addr: QSPI_SR,
            mask: 6,
        }) && fifo_plan(data)[2 * k + 1] == (BusOp::Write8 { addr: QSPI_DR, byte: #[trigger] data[k] }),
    decreases data.len(),
{
    lemma_ccr_values();
    if data.len() > 0 {
        let d = data.drop_last();
        lemma_fifo_sequence(d);
        let f = fifo_plan(data);
        assert forall|k: int| 0 <= k < data.len() implies f[2 * k] == (BusOp::WaitSet {
            addr: QSPI_SR,
            mask: 6,
        }) && f[2 * k + 1] == (BusOp::Write8 { addr: QSPI_DR, byte: #[trigger] data[k] }) by {
            if k < d.len() {
                assert(d[k] == data[k]);
            }
        }
    }
}

/// Page program, operation by operation: abort memory-mapped mode, write
/// enable, then the data length, the program word and the raw logical
/// offset (in that order, so the command starts with its address set),
/// then each byte of `data` after a wait for FIFO room, then the waits for
/// the transfer and for both chips, and the flash mapped again.
pub proof fn lemma_program_page_sequence(address: u32, data: Seq<u8>)
    requires
        address >= FLASH_BASE,
        data.len() as u32 >= 1,
    ensures
        ({
            let p = program_page_plan(address, data);
            let n = data.len() as int;
            &&& p.len() == 18 + 2 * n
            &&& p[0] == BusOp::Modify { addr: QSPI_CR, clear: 0, set: CR_ABORT }
            &&& p[1] == BusOp::WaitClear { addr: QSPI_CR, mask: CR_ABORT }
            &&& p[2] == BusOp::WaitClear { addr: QSPI_SR, mask: SR_BUSY }
            &&& p[3] == BusOp::Write32 { addr: QSPI_FCR, value: 0x1F }
            &&& p[4] == BusOp::Write32 { addr: QSPI_CCR, value: 0x106 }
            &&& p[5] == BusOp::WaitClear { addr: QSPI_SR, mask: SR_BUSY }
            &&& p[6] == BusOp::WaitClear { addr: QSPI_SR, mask: SR_BUSY }
            &&& p[7] == BusOp::Write32 { addr: QSPI_FCR, value: 0x1F }
            &&& p[8] == BusOp::Write32 { addr: QSPI_DLR, value: ((data.len() as u32) - 1) as u32 }
            &&& p[9] == BusOp::Write32 { addr: QSPI_CCR, value: 0x0100_3512 }
            &&& p[10] == BusOp::Write32 { addr: QSPI_AR, value: (address - 0x9000_0000) as u32 }
            &&& (forall|k: int| 0 <= k < n ==> p[11 + 2 * k] == BusOp::WaitSet { addr: QSPI_SR, mask: 6 }
                && p[12 + 2 * k] == BusOp::Write8 { addr: QSPI_DR, byte: #[trigger] data[k] })
            &&& p[11 + 2 * n] == BusOp::WaitSet { addr: QSPI_SR, mask: SR_TCF }
            &&& p[12 + 2 * n] == BusOp::Write32 { addr: QSPI_FCR, value: 0x1F }
            &&& p[13 + 2 * n] == BusOp::WaitClear { addr: QSPI_SR, mask: SR_BUSY }
            &&& p[14 + 2 * n] == BusOp::WaitReady
            &&& p[15 + 2 * n] == BusOp::WaitClear { addr: QSPI_SR, mask: SR_BUSY }
            &&& p[16 + 2 * n] == BusOp::Write32 { addr: QSPI_FCR, value: 0x1F }
            &&& p[17 + 2 * n] == BusOp::Write32 { addr: QSPI_CCR, value: 0x0F20_356C }
        }),
{
    lemma_ccr_values();
    lemma_fifo_sequence(data);
    let n = data.len() as int;
    let a = leave_mmap_plan() + send_cmd_plan(Cmds::WriteEnable.opcode_spec()) + program_head_plan(address, data);
    let f = fifo_plan(data);
    let b = program_tail_plan() + finish_plan();
    assert(program_page_plan(address, data) == a + f + b);
    let p = a + f + b;
    assert(a.len() == 11);
    assert forall|k: int| 0 <= k < n implies p[11 + 2 * k] == (BusOp::WaitSet { addr: QSPI_SR, mask: 6 })
        && p[12 + 2 * k] == (BusOp::Write8 { addr: QSPI_DR, byte: #[trigger] data[k] }) by {
        assert(p[11 + 2 * k] == f[2 * k]);
        assert(p[12 + 2 * k] == f[2 * k + 1]);
    }
    assert(p[11 + 2 * n] == b[0]);
    assert(p[17 + 2 * n] == b[6]);
}

proof fn lemma_pins_plan_len(pins: Seq<PinAf>)
    ensures
        pins_plan(pins).len() == 3 * pins.len(),
    decreases pins.len(),
{
    if pins.len() > 0 {
        lemma_pins_plan_len(pins.drop_last());
    }
}

/// Start-up, operation by operation, apart from the pin setup (see
/// `lemma_init_configures_pins`): the clocks are enabled first, then, after
/// the pins, any transfer is aborted, the QUADSPI is disabled, DCR set,
/// CR set to the dual-flash configuration, and the flash mapped with the
/// four-byte quad output fast read.
pub proof fn lemma_init_sequence()
    ensures
        ({
            let p = init_plan();
            &&& p.len() == 42
            &&& p[0] == BusOp::Modify { addr: RCC_AHB4ENR, clear: 0, set: 0b1_1010 }
            &&& p[1] == BusOp::Modify { addr: RCC_AHB3ENR, clear: 0, set: 0x4000 }
            &&& p[2] == BusOp::Read { addr: RCC_AHB3ENR }
            &&& p[33] == BusOp::Modify { addr: QSPI_CR, clear: 0, set: CR_ABORT }
            &&& p[34] == BusOp::WaitClear { addr: QSPI_CR, mask: CR_ABORT }
            &&& p[35] == BusOp::Write32 { addr: QSPI_CR, value: 0 }
            &&& p[36] == BusOp::Write32 { addr: QSPI_DCR, value: 0x001A_0100 }
            &&& p[37] == BusOp::Write32 { addr: QSPI_CR, value: 0x0100_0041 }
            &&& p[38] == BusOp::WaitClear { addr: QSPI_SR, mask: SR_BUSY }
            &&& p[39] == BusOp::WaitClear { addr: QSPI_SR, mask: SR_BUSY }
            &&& p[40] == BusOp::Write32 { addr: QSPI_FCR, value: 0x1F }
            &&& p[41] == BusOp::Write32 { addr: QSPI_CCR, value: 0x0F20_356C }
        }),
{
    lemma_ccr_values();
    lemma_pins_plan_len(qspi_pin_table());
    assert(AHB4ENR_GPIO_BDE == 0b1_1010 && AHB3ENR_QSPIEN == 0x4000 && DCR_CONFIG == 0x001A_0100 && CR_CONFIG == 0x0100_0041)
        by (bit_vector);
    let c = clock_enable_plan();
    let g = pins_plan(qspi_pin_table());
    let q = qspi_config_plan() + enter_mmap_plan();
    assert(init_plan() =~= c + g + q);
    assert(g.len() == 30);
    let p = c + g + q;
    assert(p[33] == q[0] && p[34] == q[1] && p[35] == q[2] && p[36] == q[3] && p[37] == q[4]);
    assert(p[38] == q[5] && p[39] == q[6] && p[40] == q[7] && p[41] == q[8]);
    assert(p[0] == c[0] && p[1] == c[1] && p[2] == c[2]);
    assert(q[8] == mmap_ccr_op());
    assert(q.len() == 9);
}

// ---- what each sequence sends ----

/// Pushing `data` through the FIFO writes exactly the bytes of `data`, in
/// order, to DR and stores no 32-bit word anywhere.
pub proof fn lemma_fifo_writes_data(data: Seq<u8>, addr: u32)
    ensures
        written_bytes(fifo_plan(data), QSPI_DR) == data,
        written_words(fifo_plan(data), addr) == Seq::<u32>::empty(),
    decreases data.len(),
{
    if data.len() > 0 {
        lemma_fifo_writes_data(data.drop_last(), addr);
        let tail = seq![
            BusOp::WaitSet { addr: QSPI_SR, mask: SR_FTF | SR_TCF },
            BusOp::Write8 { addr: QSPI_DR, byte: data.last() },
        ];
        lemma_written_words_append(fifo_plan(data.drop_last()), tail, addr);
        lemma_written_bytes_append(fifo_plan(data.drop_last()), tail, QSPI_DR);
        reveal_with_fuel(written_words, 3);
        reveal_with_fuel(written_bytes, 3);
        assert(data.drop_last().push(data.last()) =~= data);
    }
}

/// What the fixed pieces of the sequences write to CCR, AR and DLR, and
/// to the FIFO.
proof fn lemma_piece_writes(instr: u8, address: u32, data: Seq<u8>)
    ensures
        written_words(send_cmd_plan(instr), QSPI_CCR) == seq![cmd1_word(instr)],
        written_words(send_cmd_plan(instr), QSPI_AR) == Seq::<u32>::empty(),
        written_words(send_cmd_plan(instr), QSPI_DLR) == Seq::<u32>::empty(),
        written_bytes(send_cmd_plan(instr), QSPI_DR) == Seq::<u8>::empty(),
        written_words(leave_mmap_plan(), QSPI_CCR) == Seq::<u32>::empty(),
        written_words(leave_mmap_plan(), QSPI_AR) == Seq::<u32>::empty(),
        written_words(leave_mmap_plan(), QSPI_DLR) == Seq::<u32>::empty(),
        written_bytes(leave_mmap_plan(), QSPI_DR) == Seq::<u8>::empty(),
        written_words(finish_plan(), QSPI_CCR) == seq![
            mmap_ccr(),
        ],
        written_words(finish_plan(), QSPI_AR) == Seq::<u32>::empty(),
        written_words(finish_plan(), QSPI_DLR) == Seq::<u32>::empty(),
        written_bytes(finish_plan(), QSPI_DR) == Seq::<u8>::empty(),
        written_words(erase_body_plan(address), QSPI_CCR) == seq![
            erase4b_word(Cmds::FourByte4KbSubsectorErase.opcode_spec()),
        ],
        written_words(erase_body_plan(address), QSPI_AR) == seq![flash_offset(address)],
        written_words(program_head_plan(address, data), QSPI_CCR) == seq![
            write4b_word(Cmds::FourBytePageProgram.opcode_spec()),
        ],
        written_words(program_head_plan(address, data), QSPI_AR) == seq![flash_offset(address)],
        written_words(program_head_plan(address, data), QSPI_DLR) == seq![data_length_word(data)],
        written_bytes(program_head_plan(address, data), QSPI_DR) == Seq::<u8>::empty(),
        written_words(program_tail_plan(), QSPI_CCR) == Seq::<u32>::empty(),
        written_words(program_tail_plan(), QSPI_AR) == Seq::<u32>::empty(),
        written_words(program_tail_plan(), QSPI_DLR) == Seq::<u32>::empty(),
        written_bytes(program_tail_plan(), QSPI_DR) == Seq::<u8>::empty(),
{
    reveal_with_fuel(written_words, 6);
    reveal_with_fuel(written_bytes, 6);
    let f = finish_plan();
    assert(f =~= seq![
        BusOp::WaitReady,
        wait_busy_op(),
        clear_flags_op(),
        mmap_ccr_op(),
    ]);
}

/// A status read starts one single-line read of the status register with
/// a two-byte data length.
pub proof fn lemma_read_status_protocol()
    ensures
        written_words(read_status_plan(), QSPI_CCR) == seq![
            read1_word(Cmds::ReadStatusRegister.opcode_spec()),
        ],
        written_words(read_status_plan(), QSPI_DLR) == seq![STATUS_READ_DLR],
        written_words(read_status_plan(), QSPI_AR) == Seq::<u32>::empty(),
        read_status_plan().contains(BusOp::Capture { addr: QSPI_DR }),
{
    reveal_with_fuel(written_words, 8);
    assert(read_status_plan()[5] == BusOp::Capture { addr: QSPI_DR });
}

/// Chip erase sends write enable and then bulk erase, writes no address,
/// waits for both chips and then maps the flash again.
pub proof fn lemma_erase_all_protocol()
    ensures
        written_words(erase_all_plan(), QSPI_CCR) == seq![
            cmd1_word(Cmds::WriteEnable.opcode_spec()),
            cmd1_word(Cmds::BulkErase.opcode_spec()),
            mmap_ccr(),
        ],
        written_words(erase_all_plan(), QSPI_AR) == Seq::<u32>::empty(),
        erase_all_plan()[erase_all_plan().len() - 4] == BusOp::WaitReady,
        erase_all_plan().last() == mmap_ccr_op(),
{
    let leave = leave_mmap_plan();
    let wren = send_cmd_plan(Cmds::WriteEnable.opcode_spec());
    let bulk = send_cmd_plan(Cmds::BulkErase.opcode_spec());
    let fin = finish_plan();
    lemma_piece_writes(Cmds::WriteEnable.opcode_spec(), 0, seq![]);
    lemma_piece_writes(Cmds::BulkErase.opcode_spec(), 0, seq![]);
    lemma_written_words_append(leave, wren, QSPI_CCR);
    lemma_written_words_append(leave + wren, bulk, QSPI_CCR);
    lemma_written_words_append(leave + wren + bulk, fin, QSPI_CCR);
    lemma_written_words_append(leave, wren, QSPI_AR);
    lemma_written_words_append(leave + wren, bulk, QSPI_AR);
    lemma_written_words_append(leave + wren + bulk, fin, QSPI_AR);
    let e = Seq::<u32>::empty();
    assert(e + seq![cmd1_word(Cmds::WriteEnable.opcode_spec())] + seq![cmd1_word(Cmds::BulkErase.opcode_spec())]
        + seq![mmap_ccr()] =~= seq![
        cmd1_word(Cmds::WriteEnable.opcode_spec()),
        cmd1_word(Cmds::BulkErase.opcode_spec()),
        mmap_ccr(),
    ]);
    assert(e + e + e + e =~= e);
}

/// Sector erase sends write enable and then a four-byte subsector erase
/// whose only address is the raw logical offset of `address` from the
/// flash window, waits for both chips and then maps the flash again.
pub proof fn lemma_erase_sector_protocol(address: u32)
    requires
        address >= FLASH_BASE,
    ensures
        written_words(erase_sector_plan(address), QSPI_CCR) == seq![
            cmd1_word(Cmds::WriteEnable.opcode_spec()),
            erase4b_word(Cmds::FourByte4KbSubsectorErase.opcode_spec()),
            mmap_ccr(),
        ],
        written_words(erase_sector_plan(address), QSPI_AR) == seq![flash_offset(address)],
        flash_offset(address) == address - FLASH_BASE,
        erase_sector_plan(address)[erase_sector_plan(address).len() - 4] == BusOp::WaitReady,
        erase_sector_plan(address).last() == mmap_ccr_op(),
{
    let leave = leave_mmap_plan();
    let wren = send_cmd_plan(Cmds::WriteEnable.opcode_spec());
    let body = erase_body_plan(address);
    let fin = finish_plan();
    lemma_piece_writes(Cmds::WriteEnable.opcode_spec(), address, seq![]);
    lemma_written_words_append(leave, wren, QSPI_CCR);
    lemma_written_words_append(leave + wren, body, QSPI_CCR);
    lemma_written_words_append(leave + wren + body, fin, QSPI_CCR);
    lemma_written_words_append(leave, wren, QSPI_AR);
    lemma_written_words_append(leave + wren, body, QSPI_AR);
    lemma_written_words_append(leave + wren + body, fin, QSPI_AR);
    let e = Seq::<u32>::empty();
    assert(e + seq![cmd1_word(Cmds::WriteEnable.opcode_spec())] + seq![
        erase4b_word(Cmds::FourByte4KbSubsectorErase.opcode_spec()),
    ] + seq![mmap_ccr()] =~= seq![
        cmd1_word(Cmds::WriteEnable.opcode_spec()),
        erase4b_word(Cmds::FourByte4KbSubsectorErase.opcode_spec()),
        mmap_ccr(),
    ]);
    assert(e + e + seq![flash_offset(address)] + e =~= seq![flash_offset(address)]);
}

/// Page program sends write enable and then a four-byte page program
/// whose only address is the raw logical offset of `address`, whose data
/// length register holds the byte count less one, and whose FIFO receives
/// exactly `data` in order; it waits for both chips and then maps the
/// flash again.
pub proof fn lemma_program_page_protocol(address: u32, data: Seq<u8>)
    requires
        address >= FLASH_BASE,
        data.len() as u32 >= 1,
    ensures
        written_words(program_page_plan(address, data), QSPI_CCR) == seq![
            cmd1_word(Cmds::WriteEnable.opcode_spec()),
            write4b_word(Cmds::FourBytePageProgram.opcode_spec()),
            mmap_ccr(),
        ],
        written_words(program_page_plan(address, data), QSPI_AR) == seq![flash_offset(address)],
        written_words(program_page_plan(address, data), QSPI_DLR) == seq![data_length_word(data)],
        written_bytes(program_page_plan(address, data), QSPI_DR) == data,
        program_page_plan(address, data)[program_page_plan(address, data).len() - 4]
            == BusOp::WaitReady,
        program_page_plan(address, data).last() == mmap_ccr_op(),
{
    let leave = leave_mmap_plan();
    let wren = send_cmd_plan(Cmds::WriteEnable.opcode_spec());
    let head = program_head_plan(address, data);
    let fifo = fifo_plan(data);
    let tail = program_tail_plan();
    let fin = finish_plan();
    lemma_piece_writes(Cmds::WriteEnable.opcode_spec(), address, data);
    lemma_fifo_writes_data(data, QSPI_CCR);
    lemma_fifo_writes_data(data, QSPI_AR);
    lemma_fifo_writes_data(data, QSPI_DLR);
    lemma_written_words_append(leave, wren, QSPI_CCR);
    lemma_written_words_append(leave + wren, head, QSPI_CCR);
    lemma_written_words_append(leave + wren + head, fifo, QSPI_CCR);
    lemma_written_words_append(leave + wren + head + fifo, tail, QSPI_CCR);
    lemma_written_words_append(leave + wren + head + fifo + tail, fin, QSPI_CCR);
    lemma_written_words_append(leave, wren, QSPI_AR);
    lemma_written_words_append(leave + wren, head, QSPI_AR);
    lemma_written_words_append(leave + wren + head, fifo, QSPI_AR);
    lemma_written_words_append(leave + wren + head + fifo, tail, QSPI_AR);
    lemma_written_words_append(leave + wren + head + fifo + tail, fin, QSPI_AR);
    lemma_written_words_append(leave, wren, QSPI_DLR);
    lemma_written_words_append(leave + wren, head, QSPI_DLR);
    lemma_written_words_append(leave + wren + head, fifo, QSPI_DLR);
    lemma_written_words_append(leave + wren + head + fifo, tail, QSPI_DLR);
    lemma_written_words_append(leave + wren + head + fifo + tail, fin, QSPI_DLR);
    lemma_written_bytes_append(leave, wren, QSPI_DR);
    lemma_written_bytes_append(leave + wren, head, QSPI_DR);
    lemma_written_bytes_append(leave + wren + head, fifo, QSPI_DR);
    lemma_written_bytes_append(leave + wren + head + fifo, tail, QSPI_DR);
    lemma_written_bytes_append(leave + wren + head + fifo + tail, fin, QSPI_DR);
    let e32 = Seq::<u32>::empty();
    let e8 = Seq::<u8>::empty();
    assert(e8 + e8 + e8 + data + e8 + e8 =~= data);
    assert(e32 + e32 + seq![flash_offset(address)] + e32 + e32 + e32 =~= seq![flash_offset(address)]);
    assert(e32 + e32 + seq![data_length_word(data)] + e32 + e32 + e32 =~= seq![data_length_word(data)]);
    assert(e32 + seq![cmd1_word(Cmds::WriteEnable.opcode_spec())] + seq![
        write4b_word(Cmds::FourBytePageProgram.opcode_spec()),
    ] + e32 + e32 + seq![mmap_ccr()] =~= seq![
        cmd1_word(Cmds::WriteEnable.opcode_spec()),
        write4b_word(Cmds::FourBytePageProgram.opcode_spec()),
        mmap_ccr(),
    ]);
}

/// The commands of the data sheet that the algorithm relies on, and the
/// CCR fields they are sent with: four-byte page program (0x12) with a
/// single-line 32-bit address and single-line data, 4 KB subsector erase
/// (0x21) with a single-line 32-bit address, status read (0x05) as a
/// single-line indirect read without address, write enable (0x06) and bulk
/// erase (0xC7) as bare instructions, and memory-mapped reads through the
/// four-byte quad output fast read (0x6C) with a 32-bit address, 8 dummy
/// cycles and four-line data.
pub proof fn lemma_command_words()
    ensures
        Cmds::FourBytePageProgram.opcode_spec() == 0x12,
        Cmds::FourByte4KbSubsectorErase.opcode_spec() == 0x21,
        Cmds::ReadStatusRegister.opcode_spec() == 0x05,
        Cmds::WriteEnable.opcode_spec() == 0x06,
        Cmds::BulkErase.opcode_spec() == 0xC7,
        Cmds::FourByteQuadOutputFastRead.opcode_spec() == 0x6C,
        instruction_of(write4b_word(0x12)) == 0x12,
        adsize_of(write4b_word(0x12)) == ADSIZE_32BIT,
        admode_of(write4b_word(0x12)) == MODE_SINGLE,
        dmode_of(write4b_word(0x12)) == MODE_SINGLE,
        fmode_of(write4b_word(0x12)) == FMODE_INDIRECT_WRITE,
        instruction_of(erase4b_word(0x21)) == 0x21,
        adsize_of(erase4b_word(0x21)) == ADSIZE_32BIT,
        admode_of(erase4b_word(0x21)) == MODE_SINGLE,
        dmode_of(erase4b_word(0x21)) == MODE_NONE,
        fmode_of(erase4b_word(0x21)) == FMODE_INDIRECT_WRITE,
        instruction_of(read1_word(0x05)) == 0x05,
        admode_of(read1_word(0x05)) == MODE_NONE,
        dmode_of(read1_word(0x05)) == MODE_SINGLE,
        fmode_of(read1_word(0x05)) == FMODE_INDIRECT_READ,
        instruction_of(cmd1_word(0x06)) == 0x06,
        instruction_of(cmd1_word(0xC7)) == 0xC7,
        imode_of(cmd1_word(0x06)) == MODE_SINGLE,
        admode_of(cmd1_word(0x06)) == MODE_NONE,
        dmode_of(cmd1_word(0x06)) == MODE_NONE,
        instruction_of(mmap_word(0x6C)) == 0x6C,
        imode_of(mmap_word(0x6C)) == MODE_SINGLE,
        admode_of(mmap_word(0x6C)) == MODE_SINGLE,
        adsize_of(mmap_word(0x6C)) == ADSIZE_32BIT,
        dcyc_of(mmap_word(0x6C)) == 8,
        dmode_of(mmap_word(0x6C)) == MODE_QUAD,
        fmode_of(mmap_word(0x6C)) == FMODE_MEMORY_MAPPED,
{
    lemma_ccr_fields_roundtrip(0x12, MODE_SINGLE, MODE_SINGLE, ADSIZE_32BIT, 0, MODE_SINGLE, FMODE_INDIRECT_WRITE);
    lemma_ccr_fields_roundtrip(0x21, MODE_SINGLE, MODE_SINGLE, ADSIZE_32BIT, 0, MODE_NONE, FMODE_INDIRECT_WRITE);
    lemma_ccr_fields_roundtrip(0x05, MODE_SINGLE, MODE_NONE, 0, 0, MODE_SINGLE, FMODE_INDIRECT_READ);
    lemma_ccr_fields_roundtrip(0x06, MODE_SINGLE, MODE_NONE, 0, 0, MODE_NONE, FMODE_INDIRECT_WRITE);
    lemma_ccr_fields_roundtrip(0xC7, MODE_SINGLE, MODE_NONE, 0, 0, MODE_NONE, FMODE_INDIRECT_WRITE);
    lemma_ccr_fields_roundtrip(0x6C, MODE_SINGLE, MODE_SINGLE, ADSIZE_32BIT, FAST_READ_DUMMY_CYCLES, MODE_QUAD, FMODE_MEMORY_MAPPED);
}

/// Pin setup only updates GPIO registers by read-modify-write: it stores
/// no plain word anywhere.
proof fn lemma_pins_plan_stores_nothing(pins: Seq<PinAf>, addr: u32)
    ensures
        written_words(pins_plan(pins), addr) == Seq::<u32>::empty(),
    decreases pins.len(),
{
    if pins.len() > 0 {
        lemma_pins_plan_stores_nothing(pins.drop_last(), addr);
        let last = pins.last();
        lemma_written_words_append(
            pins_plan(pins.drop_last()),
            crate::gpio::gpio_af_plan(last.port, last.pin, last.af),
            addr,
        );
        reveal_with_fuel(written_words, 4);
    }
}

proof fn lemma_init_parts(addr: u32)
    ensures
        written_words(clock_enable_plan(), addr) == Seq::<u32>::empty(),
        written_words(qspi_config_plan(), QSPI_CR) == seq![0u32, CR_CONFIG],
        written_words(qspi_config_plan(), QSPI_DCR) == seq![DCR_CONFIG],
        written_words(qspi_config_plan(), QSPI_CCR) == Seq::<u32>::empty(),
        written_words(enter_mmap_plan(), QSPI_CR) == Seq::<u32>::empty(),
        written_words(enter_mmap_plan(), QSPI_DCR) == Seq::<u32>::empty(),
        written_words(enter_mmap_plan(), QSPI_CCR) == seq![
            mmap_ccr(),
        ],
{
    reveal_with_fuel(written_words, 7);
}

/// Start-up leaves the QUADSPI disabled while DCR is set, then writes the
/// dual-flash configuration to CR, and finally puts the QUADSPI in
/// memory-mapped mode with the four-byte quad output fast read; that last
/// CCR write is the only one.
pub proof fn lemma_init_protocol()
    ensures
        written_words(init_plan(), QSPI_CR) == seq![0u32, CR_CONFIG],
        written_words(init_plan(), QSPI_DCR) == seq![DCR_CONFIG],
        written_words(init_plan(), QSPI_CCR) == seq![
            mmap_ccr(),
        ],
        init_plan().last() == mmap_ccr_op(),
{
    let clocks = clock_enable_plan();
    let pins = pins_plan(qspi_pin_table());
    let qspi = qspi_config_plan();
    let mm = enter_mmap_plan();
    lemma_init_parts(QSPI_CR);
    lemma_init_parts(QSPI_DCR);
    lemma_init_parts(QSPI_CCR);
    lemma_pins_plan_stores_nothing(qspi_pin_table(), QSPI_CR);
    lemma_pins_plan_stores_nothing(qspi_pin_table(), QSPI_DCR);
    lemma_pins_plan_stores_nothing(qspi_pin_table(), QSPI_CCR);
    lemma_written_words_append(clocks, pins, QSPI_CR);
    lemma_written_words_append(clocks + pins, qspi, QSPI_CR);
    lemma_written_words_append(clocks + pins + qspi, mm, QSPI_CR);
    lemma_written_words_append(clocks, pins, QSPI_DCR);
    lemma_written_words_append(clocks + pins, qspi, QSPI_DCR);
    lemma_written_words_append(clocks + pins + qspi, mm, QSPI_DCR);
    lemma_written_words_append(clocks, pins, QSPI_CCR);
    lemma_written_words_append(clocks + pins, qspi, QSPI_CCR);
    lemma_written_words_append(clocks + pins + qspi, mm, QSPI_CCR);
    let e = Seq::<u32>::empty();
    assert(e + e + seq![0u32, CR_CONFIG] + e =~= seq![0u32, CR_CONFIG]);
    assert(e + e + seq![DCR_CONFIG] + e =~= seq![DCR_CONFIG]);
    assert(e + e + e + seq![mmap_ccr()] =~= seq![
        mmap_ccr(),
    ]);
}

/// The QUADSPI part of start-up and the switch to memory-mapped mode
/// change no register outside the QUADSPI block.
proof fn lemma_qspi_steps_stay_in_qspi(regs: Map<u32, u32>, a: u32)
    requires
        a < QSPI_CR || a > QSPI_DR,
    ensures
        reg_effects(regs, qspi_config_plan())[a] == regs[a],
        reg_effects(regs, enter_mmap_plan())[a] == regs[a],
{
    reveal_with_fuel(reg_effects, 7);
}

/// Start-up leaves every QUADSPI pin of the board in alternate-function
/// mode at very high speed with its alternate function, whatever the
/// registers held before.
pub proof fn lemma_init_configures_pins(regs: Map<u32, u32>)
    ensures
        forall|i: int| 0 <= i < qspi_pin_table().len() ==> pin_configured(
            reg_effects(regs, init_plan()),
            #[trigger] qspi_pin_table()[i],
        ),
{
    let clocks = clock_enable_plan();
    let pins = pins_plan(qspi_pin_table());
    let qspi = qspi_config_plan();
    let mm = enter_mmap_plan();
    lemma_reg_effects_append(regs, clocks + pins + qspi, mm);
    lemma_reg_effects_append(regs, clocks + pins, qspi);
    lemma_reg_effects_append(regs, clocks, pins);
    let r0 = reg_effects(regs, clocks);
    let r1 = reg_effects(r0, pins);
    let r2 = reg_effects(r1, qspi);
    let r3 = reg_effects(r2, mm);
    assert(reg_effects(regs, init_plan()) == r3);
    lemma_qspi_pins_configured(r0);
    assert forall|i: int| 0 <= i < qspi_pin_table().len() implies pin_configured(
        r3,
        #[trigger] qspi_pin_table()[i],
    ) by {
        let p = qspi_pin_table()[i];
        assert(pin_configured(r1, p));
        let am = (p.port + GPIO_MODER) as u32;
        let ao = (p.port + GPIO_OSPEEDR) as u32;
        let af = (p.port + afr_offset(p.pin)) as u32;
        lemma_qspi_steps_stay_in_qspi(r1, am);
        lemma_qspi_steps_stay_in_qspi(r1, ao);
        lemma_qspi_steps_stay_in_qspi(r1, af);
        lemma_qspi_steps_stay_in_qspi(r2, am);
        lemma_qspi_steps_stay_in_qspi(r2, ao);
        lemma_qspi_steps_stay_in_qspi(r2, af);
    }
}

} // verus!
