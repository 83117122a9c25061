use stm32h750xx_mt25_ql512_dfm::bus::BusOp;
use stm32h750xx_mt25_ql512_dfm::cmds::Cmds;
use stm32h750xx_mt25_ql512_dfm::flash::{
    clear_flags, enter_memory_mapped, leave_memory_mapped, read_status, send_cmd, wait_busy, wait_wip,
};
use stm32h750xx_mt25_ql512_dfm::regs::{
    CR_ABORT, CR_CONFIG, DCR_CONFIG, QSPI_AR, QSPI_CCR, QSPI_CR, QSPI_DCR, QSPI_DLR, QSPI_DR,
    QSPI_FCR, QSPI_SR, SR_BUSY, SR_FTF, SR_TCF,
};
use stm32h750xx_mt25_ql512_dfm::Algorithm;

fn words_to(ops: &[BusOp], reg: u32) -> Vec<u32> {
    ops.iter()
        .filter_map(|op| match *op {
            BusOp::Write32 { addr, value } if addr == reg => Some(value),
            _ => None,
        })
        .collect()
}

fn bytes_to(ops: &[BusOp], reg: u32) -> Vec<u8> {
    ops.iter()
        .filter_map(|op| match *op {
            BusOp::Write8 { addr, byte } if addr == reg => Some(byte),
            _ => None,
        })
        .collect()
}

#[test]
fn single_operations() {
    assert_eq!(wait_busy(), BusOp::WaitClear { addr: QSPI_SR, mask: SR_BUSY });
    assert_eq!(clear_flags(), BusOp::Write32 { addr: QSPI_FCR, value: 0x1F });
    assert_eq!(wait_wip(), BusOp::WaitReady);
}

#[test]
fn send_cmd_sequence() {
    let ops = send_cmd(0x06);
    assert_eq!(
        ops,
        vec![
            BusOp::WaitClear { addr: QSPI_SR, mask: SR_BUSY },
            BusOp::Write32 { addr: QSPI_FCR, value: 0x1F },
            BusOp::Write32 { addr: QSPI_CCR, value: 0x106 },
            BusOp::WaitClear { addr: QSPI_SR, mask: SR_BUSY },
        ]
    );
}

#[test]
fn read_status_sequence() {
    let ops = read_status();
    assert_eq!(
        ops,
        vec![
            BusOp::WaitClear { addr: QSPI_SR, mask: SR_BUSY },
            BusOp::Write32 { addr: QSPI_FCR, value: 0x1F },
            BusOp::Write32 { addr: QSPI_DLR, value: 1 },
            BusOp::Write32 { addr: QSPI_CCR, value: 0x0500_0105 },
            BusOp::WaitSet { addr: QSPI_SR, mask: SR_TCF },
            BusOp::Capture { addr: QSPI_DR },
            BusOp::Write32 { addr: QSPI_FCR, value: 0x1F },
        ]
    );
}

const MMAP: u32 = 0x0F20_356C;

#[test]
fn memory_mapped_mode_sequences() {
    assert_eq!(
        leave_memory_mapped(),
        vec![
            BusOp::Modify { addr: QSPI_CR, clear: 0, set: CR_ABORT },
            BusOp::WaitClear { addr: QSPI_CR, mask: CR_ABORT },
        ]
    );
    assert_eq!(
        enter_memory_mapped(),
        vec![
            BusOp::WaitClear { addr: QSPI_SR, mask: SR_BUSY },
            BusOp::Write32 { addr: QSPI_FCR, value: 0x1F },
            BusOp::Write32 { addr: QSPI_CCR, value: MMAP },
        ]
    );
}

#[test]
fn erase_sector_writes_raw_logical_offset() {
    let (alg, _) = Algorithm::new();
    let ops = alg.erase_sector(0x9000_2000);
    // DFM: the logical offset goes to AR unshifted
    assert_eq!(words_to(&ops, QSPI_AR), vec![0x2000]);
    assert_eq!(words_to(&ops, QSPI_CCR), vec![0x106, 0x3521, MMAP]);
    assert_eq!(ops[0], BusOp::Modify { addr: QSPI_CR, clear: 0, set: CR_ABORT });
    assert_eq!(ops[ops.len() - 4], BusOp::WaitReady);
    assert_eq!(*ops.last().unwrap(), BusOp::Write32 { addr: QSPI_CCR, value: MMAP });
    assert_eq!(ops.len(), 15);
}

#[test]
fn erase_sector_at_end_of_flash() {
    let (alg, _) = Algorithm::new();
    let ops = alg.erase_sector(0x97FF_E000);
    assert_eq!(words_to(&ops, QSPI_AR), vec![0x07FF_E000]);
}

#[test]
fn erase_all_sequence() {
    let (alg, _) = Algorithm::new();
    let ops = alg.erase_all();
    assert_eq!(words_to(&ops, QSPI_CCR), vec![0x106, 0x1C7, MMAP]);
    assert!(words_to(&ops, QSPI_AR).is_empty());
    let mut expected = leave_memory_mapped();
    expected.extend(send_cmd(0x06));
    expected.extend(send_cmd(0xC7));
    expected.push(BusOp::WaitReady);
    expected.extend(enter_memory_mapped());
    assert_eq!(ops, expected);
}

#[test]
fn program_page_sequence() {
    let (alg, _) = Algorithm::new();
    let data = [0xDE, 0xAD, 0xBE, 0xEF];
    let ops = alg.program_page(0x9000_0200, &data);
    assert_eq!(words_to(&ops, QSPI_AR), vec![0x200]);
    assert_eq!(words_to(&ops, QSPI_DLR), vec![3]);
    // write enable, four-byte page program (0x12), memory-mapped read
    assert_eq!(words_to(&ops, QSPI_CCR), vec![0x106, 0x0100_3512, MMAP]);
    assert_eq!(bytes_to(&ops, QSPI_DR), data.to_vec());
    // each byte waits for FIFO room or completion first
    for (i, op) in ops.iter().enumerate() {
        if let BusOp::Write8 { .. } = op {
            assert_eq!(ops[i - 1], BusOp::WaitSet { addr: QSPI_SR, mask: SR_FTF | SR_TCF });
        }
    }
    let n = ops.len();
    assert_eq!(ops[n - 7], BusOp::WaitSet { addr: QSPI_SR, mask: SR_TCF });
    assert_eq!(ops[n - 6], BusOp::Write32 { addr: QSPI_FCR, value: 0x1F });
    assert_eq!(ops[n - 5], BusOp::WaitClear { addr: QSPI_SR, mask: SR_BUSY });
    assert_eq!(ops[n - 4], BusOp::WaitReady);
    assert_eq!(n, 2 + 4 + 5 + 2 * data.len() + 3 + 4);
}

#[test]
fn program_page_at_0x400() {
    let (alg, _) = Algorithm::new();
    let data = [0xABu8; 512];
    let ops = alg.program_page(0x9000_0400, &data);
    assert_eq!(words_to(&ops, QSPI_AR), vec![0x400]);
    assert_eq!(words_to(&ops, QSPI_DLR), vec![511]);
    assert_eq!(words_to(&ops, QSPI_CCR), vec![0x106, 0x0100_3512, MMAP]);
    assert_eq!(bytes_to(&ops, QSPI_DR), data.to_vec());
}

#[test]
fn program_full_page() {
    let (alg, _) = Algorithm::new();
    let data: Vec<u8> = (0..512u32).map(|i| i as u8).collect();
    let ops = alg.program_page(0x9000_0000, &data);
    assert_eq!(words_to(&ops, QSPI_DLR), vec![511]);
    assert_eq!(words_to(&ops, QSPI_AR), vec![0]);
    assert_eq!(bytes_to(&ops, QSPI_DR), data);
}

#[test]
fn program_single_byte() {
    let (alg, _) = Algorithm::new();
    let ops = alg.program_page(0x9000_0001, &[0x5A]);
    assert_eq!(words_to(&ops, QSPI_DLR), vec![0]);
    assert_eq!(words_to(&ops, QSPI_AR), vec![1]);
    assert_eq!(bytes_to(&ops, QSPI_DR), vec![0x5A]);
}

#[test]
fn init_sequence() {
    let (_, ops) = Algorithm::new();
    assert_eq!(ops.len(), 3 + 3 * 10 + 6 + 3);
    assert_eq!(words_to(&ops, QSPI_CR), vec![0, CR_CONFIG]);
    assert_eq!(words_to(&ops, QSPI_DCR), vec![DCR_CONFIG]);
    // start-up ends in memory-mapped mode with the quad output fast read
    assert_eq!(words_to(&ops, QSPI_CCR), vec![MMAP]);
    assert_eq!(ops[33], BusOp::Modify { addr: QSPI_CR, clear: 0, set: CR_ABORT });
    assert_eq!(ops[34], BusOp::WaitClear { addr: QSPI_CR, mask: CR_ABORT });
    assert_eq!(ops[38], BusOp::WaitClear { addr: QSPI_SR, mask: SR_BUSY });
    assert_eq!(*ops.last().unwrap(), BusOp::Write32 { addr: QSPI_CCR, value: MMAP });
    assert_eq!(ops[0], BusOp::Modify { addr: 0x5802_44E0, clear: 0, set: 0b1_1010 });
    assert_eq!(ops[1], BusOp::Modify { addr: 0x5802_44D4, clear: 0, set: 1 << 14 });
    assert_eq!(ops[2], BusOp::Read { addr: 0x5802_44D4 });
}

#[test]
fn command_opcodes() {
    assert_eq!(Cmds::WriteEnable.opcode(), 0x06);
    assert_eq!(Cmds::BulkErase.opcode(), 0xC7);
    assert_eq!(Cmds::FourByte4KbSubsectorErase.opcode(), 0x21);
    assert_eq!(Cmds::FourBytePageProgram.opcode(), 0x12);
    assert_eq!(Cmds::FourByteQuadInputFastProGram.opcode(), 0x34);
    assert_eq!(Cmds::ReadStatusRegister.opcode(), 0x05);
    assert_eq!(Cmds::FourByteQuadOutputFastRead.opcode(), 0x6C);
    assert_eq!(Cmds::InterfaceActivation.opcode(), 0x9B);
    assert_eq!(Cmds::ResetEnable.opcode(), 0x66);
}

#[test]
fn poll_decisions() {
    let busy = BusOp::WaitClear { addr: QSPI_SR, mask: SR_BUSY };
    assert!(!busy.poll_complete(SR_BUSY));
    assert!(busy.poll_complete(0));
    let room = BusOp::WaitSet { addr: QSPI_SR, mask: SR_FTF | SR_TCF };
    assert!(!room.poll_complete(0));
    assert!(room.poll_complete(SR_FTF));
    assert!(room.poll_complete(SR_TCF));
    // the chip wait looks only at the two WIP bits of the status word
    assert!(BusOp::WaitReady.poll_complete(0x0000_1C1E));
    assert!(!BusOp::WaitReady.poll_complete(0x0000_0001));
    assert!(!BusOp::WaitReady.poll_complete(0x0000_0100));
}
