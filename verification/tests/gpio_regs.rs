use stm32h750xx_mt25_ql512_dfm::bus::BusOp;
use stm32h750xx_mt25_ql512_dfm::gpio::{gpio_setup_af, qspi_pins, setup_pins, PinAf};
use stm32h750xx_mt25_ql512_dfm::regs::{
    CHIP_COUNT, CHIP_PAGE_SIZE, CHIP_SIZE, CHIP_SUBSECTOR_SIZE, CR_CONFIG, DCR_CONFIG, FLASH_BASE,
    FLASH_SIZE, GPIOB_BASE, GPIOD_BASE, GPIOE_BASE, PAGE_SIZE, QSPI_AR, QSPI_CCR, QSPI_CR,
    QSPI_DCR, QSPI_DLR, QSPI_DR, QSPI_FCR, QSPI_SR, SECTOR_SIZE,
};

fn apply(op: &BusOp, v: u32) -> u32 {
    op.modified(v)
}

#[test]
fn gpio_low_pin_uses_afrl() {
    let ops = gpio_setup_af(GPIOB_BASE, 2, 9);
    assert_eq!(ops.len(), 3);
    assert_eq!(ops[0], BusOp::Modify { addr: GPIOB_BASE, clear: 0b11 << 4, set: 0b10 << 4 });
    assert_eq!(ops[1], BusOp::Modify { addr: GPIOB_BASE + 0x08, clear: 0, set: 0b11 << 4 });
    assert_eq!(ops[2], BusOp::Modify { addr: GPIOB_BASE + 0x20, clear: 0xF << 8, set: 9 << 8 });
}

#[test]
fn gpio_high_pin_uses_afrh() {
    let ops = gpio_setup_af(GPIOE_BASE, 10, 10);
    assert_eq!(ops[0], BusOp::Modify { addr: GPIOE_BASE, clear: 0b11 << 20, set: 0b10 << 20 });
    assert_eq!(ops[1], BusOp::Modify { addr: GPIOE_BASE + 0x08, clear: 0, set: 0b11 << 20 });
    // pin 10 is field 2 of AFRH
    assert_eq!(ops[2], BusOp::Modify { addr: GPIOE_BASE + 0x24, clear: 0xF << 8, set: 10 << 8 });
}

#[test]
fn gpio_fields_set_and_others_kept() {
    let ops = gpio_setup_af(GPIOD_BASE, 11, 9);
    let moder = apply(&ops[0], 0xFFFF_FFFF);
    assert_eq!(moder, 0xFFBF_FFFF);
    let moder0 = apply(&ops[0], 0);
    assert_eq!(moder0, 0b10 << 22);
    let speed = apply(&ops[1], 0x1234_5678);
    assert_eq!(speed, 0x1234_5678 | (0b11 << 22));
    let afrh = apply(&ops[2], 0x7654_3210);
    // pin 11 is field 3 of AFRH
    assert_eq!(afrh, 0x7654_9210);
}

#[test]
fn qspi_pin_table_matches_board() {
    let pins = qspi_pins();
    let expected = [
        (GPIOB_BASE, 2, 9),
        (GPIOB_BASE, 6, 10),
        (GPIOD_BASE, 11, 9),
        (GPIOD_BASE, 12, 9),
        (GPIOD_BASE, 13, 9),
        (GPIOE_BASE, 2, 9),
        (GPIOE_BASE, 7, 10),
        (GPIOE_BASE, 8, 10),
        (GPIOE_BASE, 9, 10),
        (GPIOE_BASE, 10, 10),
    ];
    assert_eq!(pins.len(), expected.len());
    for (p, e) in pins.iter().zip(expected.iter()) {
        assert_eq!(*p, PinAf { port: e.0, pin: e.1, af: e.2 });
    }
}

#[test]
fn setup_pins_concatenates() {
    let pins = vec![PinAf { port: GPIOB_BASE, pin: 2, af: 9 }, PinAf { port: GPIOE_BASE, pin: 10, af: 10 }];
    let ops = setup_pins(&pins);
    let mut expected = gpio_setup_af(GPIOB_BASE, 2, 9);
    expected.extend(gpio_setup_af(GPIOE_BASE, 10, 10));
    assert_eq!(ops, expected);
}

#[test]
fn register_addresses() {
    assert_eq!(QSPI_CR, 0x5200_5000);
    assert_eq!(QSPI_DCR, 0x5200_5004);
    assert_eq!(QSPI_SR, 0x5200_5008);
    assert_eq!(QSPI_FCR, 0x5200_500C);
    assert_eq!(QSPI_DLR, 0x5200_5010);
    assert_eq!(QSPI_CCR, 0x5200_5014);
    assert_eq!(QSPI_AR, 0x5200_5018);
    assert_eq!(QSPI_DR, 0x5200_5020);
}

#[test]
fn configuration_words() {
    // FSIZE = 26 in DCR[20:16], CSHT = 1 in DCR[10:8]
    assert_eq!(DCR_CONFIG, 0x001A_0100);
    // prescaler 1, DFM, EN
    assert_eq!(CR_CONFIG, 0x0100_0041);
}

#[test]
fn flash_geometry() {
    assert_eq!(FLASH_BASE, 0x9000_0000);
    assert_eq!(FLASH_SIZE, 0x0800_0000);
    assert_eq!(PAGE_SIZE, CHIP_COUNT * CHIP_PAGE_SIZE);
    assert_eq!(SECTOR_SIZE, CHIP_COUNT * CHIP_SUBSECTOR_SIZE);
    assert_eq!(FLASH_SIZE, CHIP_COUNT * CHIP_SIZE);
    assert_eq!(1u64 << (26 + 1), FLASH_SIZE as u64);
}

fn perform(regs: &mut std::collections::HashMap<u32, u32>, ops: &[BusOp]) {
    for op in ops {
        match *op {
            BusOp::Write32 { addr, value } => {
                regs.insert(addr, value);
            }
            BusOp::Modify { addr, .. } => {
                let v = *regs.get(&addr).unwrap_or(&0);
                regs.insert(addr, op.modified(v));
            }
            _ => {}
        }
    }
}

fn seeded() -> std::collections::HashMap<u32, u32> {
    let mut regs = std::collections::HashMap::new();
    for (i, base) in [GPIOB_BASE, GPIOD_BASE, GPIOE_BASE].iter().enumerate() {
        for off in [0x00u32, 0x08, 0x20, 0x24] {
            regs.insert(base + off, 0x5A5A_5A5A ^ (i as u32 * 0x1111_1111) ^ off);
        }
    }
    regs
}

#[test]
fn gpio_setup_twice_same_as_once() {
    let ops = gpio_setup_af(GPIOD_BASE, 12, 9);
    let mut once = seeded();
    perform(&mut once, &ops);
    let mut twice = once.clone();
    perform(&mut twice, &ops);
    assert_eq!(once, twice);
}

#[test]
fn gpio_setups_of_two_pins_commute() {
    let a = gpio_setup_af(GPIOE_BASE, 7, 10);
    let b = gpio_setup_af(GPIOE_BASE, 2, 9);
    let c = gpio_setup_af(GPIOE_BASE, 9, 10);
    let mut ab = seeded();
    perform(&mut ab, &a);
    perform(&mut ab, &b);
    let mut ba = seeded();
    perform(&mut ba, &b);
    perform(&mut ba, &a);
    assert_eq!(ab, ba);
    let mut ac = seeded();
    perform(&mut ac, &a);
    perform(&mut ac, &c);
    let mut ca = seeded();
    perform(&mut ca, &c);
    perform(&mut ca, &a);
    assert_eq!(ac, ca);
}

#[test]
fn start_up_configures_every_qspi_pin() {
    let (_, ops) = stm32h750xx_mt25_ql512_dfm::Algorithm::new();
    let mut regs = seeded();
    perform(&mut regs, &ops);
    for p in qspi_pins() {
        let pin = p.pin as u32;
        assert_eq!((regs[&p.port] >> (2 * pin)) & 3, 0b10);
        assert_eq!((regs[&(p.port + 0x08)] >> (2 * pin)) & 3, 0b11);
        let afr = if pin < 8 { p.port + 0x20 } else { p.port + 0x24 };
        assert_eq!((regs[&afr] >> (4 * (pin % 8))) & 0xF, p.af as u32);
    }
}
