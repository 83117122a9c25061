use stm32h750xx_mt25_ql512_dfm::ccr::{ccr_cmd1, ccr_erase4b, ccr_mmap4b, ccr_read1, ccr_write4b};
use stm32h750xx_mt25_ql512_dfm::status::{pack_status, wip_pending};

#[test]
fn ccr_cmd1_write_enable() {
    // instruction 0x06, IMODE = 01
    assert_eq!(ccr_cmd1(0x06), 0x0000_0106);
}

#[test]
fn ccr_cmd1_bulk_erase() {
    assert_eq!(ccr_cmd1(0xC7), 0x0000_01C7);
}

#[test]
fn ccr_read1_status() {
    // IMODE = 01, DMODE = 01, FMODE = 01 (indirect read)
    assert_eq!(ccr_read1(0x05), 0x0500_0105);
}

#[test]
fn ccr_write4b_page_program() {
    // IMODE = 01, ADMODE = 01, ADSIZE = 11, DMODE = 01
    assert_eq!(ccr_write4b(0x12), 0x0100_3512);
    // the program word is the erase word plus a one-line data phase
    for i in [0x00u8, 0x12, 0x21, 0xFF] {
        assert_eq!(ccr_write4b(i), ccr_erase4b(i) | (1 << 24));
        assert_eq!(ccr_erase4b(i), (i as u32) | 0x3500);
    }
}

#[test]
fn ccr_mmap4b_quad_output_fast_read() {
    // IMODE = 01, ADMODE = 01, ADSIZE = 11, DCYC = 8, DMODE = 11, FMODE = 11
    assert_eq!(ccr_mmap4b(0x6C), 0x0F20_356C);
    let w = ccr_mmap4b(0x6C);
    assert_eq!((w >> 18) & 0x1F, 8);
    assert_eq!((w >> 26) & 3, 3);
}

#[test]
fn ccr_erase4b_subsector() {
    // IMODE = 01, ADMODE = 01, ADSIZE = 11, no data
    assert_eq!(ccr_erase4b(0x21), 0x0000_3521);
}

#[test]
fn ccr_fields_decode() {
    let w = ccr_write4b(0x12);
    assert_eq!(w & 0xFF, 0x12);
    assert_eq!((w >> 8) & 3, 1);
    assert_eq!((w >> 10) & 3, 1);
    assert_eq!((w >> 12) & 3, 3);
    assert_eq!((w >> 18) & 0x1F, 0);
    assert_eq!((w >> 24) & 3, 1);
    assert_eq!((w >> 26) & 3, 0);
    assert_eq!(w & 0xF083_C000, 0);
}

#[test]
fn status_both_idle() {
    assert_eq!(pack_status(0x0000_0000), 0x00);
    assert!(!wip_pending(pack_status(0x0000_0000)));
}

#[test]
fn status_bank1_busy() {
    assert_eq!(pack_status(0x0000_0001), 0x01);
    assert!(wip_pending(pack_status(0x0000_0001)));
}

#[test]
fn status_bank2_busy() {
    // bank 2's WIP (bit 8 of the word) lands at bit 4
    assert_eq!(pack_status(0x0000_0100), 0x10);
    assert!(wip_pending(pack_status(0x0000_0100)));
}

#[test]
fn status_write_enable_latch_only() {
    // WEL (bit 1) set in both chips, no write in progress
    assert_eq!(pack_status(0x0000_0202), 0x00);
    assert!(!wip_pending(pack_status(0x0000_0202)));
}

#[test]
fn status_only_wip_bits_kept() {
    // bank 1 = 0x13 (WIP set), bank 2 = 0xAB (WIP set)
    assert_eq!(pack_status(0x0000_AB13), 0x11);
    // upper half of the word is ignored
    assert_eq!(pack_status(0xFFFF_0000), 0x00);
}

#[test]
fn status_block_protect_does_not_hold_wait() {
    // bank 1 status 0x10: BP2 set, no write in progress
    assert_eq!(pack_status(0x0000_0010), 0x00);
    assert!(!wip_pending(pack_status(0x0000_0010)));
    // bank 2 status 0x1C: protection bits only
    assert!(!wip_pending(pack_status(0x0000_1C00)));
}

