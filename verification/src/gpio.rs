//! GPIO alternate-function setup for the QUADSPI pins.
//!
//! Each pin has a 2-bit field in MODER and OSPEEDR and a 4-bit field in
//! AFRL (pins 0-7) or AFRH (pins 8-15).

use vstd::prelude::*;
use crate::bus::{
    BusOp, modify_result, reg_effects, lemma_modify_idempotent, lemma_modify_commute,
    lemma_reg_effects_append,
};
use crate::regs::{GPIOB_BASE, GPIOD_BASE, GPIOE_BASE};

verus! {

/// Offset of the mode register in a GPIO port.
pub const GPIO_MODER: u32 = 0x00;

/// Offset of the output speed register in a GPIO port.
pub const GPIO_OSPEEDR: u32 = 0x08;

/// Offset of the alternate function register for pins 0-7.
pub const GPIO_AFRL: u32 = 0x20;

/// Offset of the alternate function register for pins 8-15.
pub const GPIO_AFRH: u32 = 0x24;

/// MODER field value: alternate function.
pub const MODE_ALTERNATE: u32 = 0b10;

/// OSPEEDR field value: very high speed.
pub const SPEED_VERY_HIGH: u32 = 0b11;

/// A pin of a GPIO port routed to an alternate function.
#[derive(Clone, Copy, Debug, PartialEq, Eq, Structural)]
pub struct PinAf {
    /// Base address of the GPIO port.
    pub port: u32,
    /// Pin number within the port.
    pub pin: u8,
    /// Alternate function number.
    pub af: u8,
}

/// The 2-bit field of `pin` in a MODER or OSPEEDR value.
pub open spec fn field2(v: u32, pin: u32) -> u32 {
    (v >> (pin * 2) as u32) & 3
}

/// The 4-bit field of `pin` (taken modulo 8) in an AFRL or AFRH value.
pub open spec fn field4(v: u32, pin: u32) -> u32 {
    (v >> ((pin % 8) * 4) as u32) & 0xF
}

/// Offset of the alternate function register that holds `pin`.
pub open spec fn afr_offset(pin: u8) -> u32 {
    if pin < 8 {
        GPIO_AFRL
    } else {
        GPIO_AFRH
    }
}

/// Register updates that put `pin` of the port at `base` into alternate
/// function `af` at very high speed.
pub open spec fn gpio_af_plan(base: u32, pin: u8, af: u8) -> Seq<BusOp> {
    let s2 = (pin * 2) as u32;
    let s4 = ((pin % 8) * 4) as u32;
    seq![
        BusOp::Modify { addr: (base + GPIO_MODER) as u32, clear: 0b11u32 << s2, set: 0b10u32 << s2 },
        BusOp::Modify { addr: (base + GPIO_OSPEEDR) as u32, clear: 0, set: 0b11u32 << s2 },
        BusOp::Modify { addr: (base + afr_offset(pin)) as u32, clear: 0xFu32 << s4, set: (af as u32) << s4 },
    ]
}

/// Register updates that route `pin` of the port at `base` to alternate
/// function `af`, with the output driver at very high speed.
pub fn gpio_setup_af(base: u32, pin: u8, af: u8) -> (ops: Vec<BusOp>)
    requires
        pin < 16,
        base <= u32::MAX - GPIO_AFRH,
    ensures
        ops@ == gpio_af_plan(base, pin, af),
{
    let s2: u32 = (pin as u32) * 2;
    let mut ops: Vec<BusOp> = Vec::new();
    // MODER: alternate function
    ops.push(BusOp::Modify { addr: base + GPIO_MODER, clear: 0b11 << s2, set: 0b10 << s2 });
    // OSPEEDR: very high speed
    ops.push(BusOp::Modify { addr: base + GPIO_OSPEEDR, clear: 0, set: 0b11 << s2 });
    // AFR: 4-bit field per pin
    if pin < 8 {
        let s4: u32 = (pin as u32) * 4;
        ops.push(BusOp::Modify { addr: base + GPIO_AFRL, clear: 0xF << s4, set: (af as u32) << s4 });
    } else {
        let p: u32 = (pin as u32) - 8;
        let s4: u32 = p * 4;
        ops.push(BusOp::Modify { addr: base + GPIO_AFRH, clear: 0xF << s4, set: (af as u32) << s4 });
    }
    assert(ops@ =~= gpio_af_plan(base, pin, af));
    ops
}

/// Applying the setup of `pin` to any register contents leaves the pin in
/// alternate-function mode at very high speed with alternate function
/// `af` (when `af` fits its 4-bit field), and leaves every other pin's
/// fields in those registers as they were.
pub proof fn lemma_gpio_setup_fields(base: u32, pin: u8, af: u8, moder: u32, ospeedr: u32, afr: u32)
    requires
        pin < 16,
        af < 16,
    ensures
        ({
            let plan = gpio_af_plan(base, pin, af);
            let new_moder = modify_result(moder, plan[0]->clear, plan[0]->set);
            let new_ospeedr = modify_result(ospeedr, plan[1]->clear, plan[1]->set);
            let new_afr = modify_result(afr, plan[2]->clear, plan[2]->set);
            &&& field2(new_moder, pin as u32) == MODE_ALTERNATE
            &&& field2(new_ospeedr, pin as u32) == SPEED_VERY_HIGH
            &&& field4(new_afr, pin as u32) == af as u32
            &&& forall|q: u32| q < 16 && q != pin ==> #[trigger] field2(new_moder, q) == field2(moder, q)
            &&& forall|q: u32| q < 16 && q != pin ==> #[trigger] field2(new_ospeedr, q) == field2(ospeedr, q)
            &&& forall|q: u32| q < 16 && q % 8 != pin % 8 ==> #[trigger] field4(new_afr, q) == field4(afr, q)
        }),
{
    let p: u32 = pin as u32;
    let r: u32 = (pin % 8) as u32;
    let a: u32 = af as u32;
    let nm: u32 = (moder & !(3u32 << (p * 2))) | (2u32 << (p * 2));
    let ns: u32 = (ospeedr & !0u32) | (3u32 << (p * 2));
    let na: u32 = (afr & !(15u32 << (r * 4))) | (a << (r * 4));
    assert(forall|q: u32| q < 16 && q != p ==> #[trigger] field2(nm, q) == field2(moder, q))
        by (bit_vector)
        requires p < 16, nm == (moder & !(3u32 << (p * 2))) | (2u32 << (p * 2));
    assert(forall|q: u32| q < 16 && q != p ==> #[trigger] field2(ns, q) == field2(ospeedr, q))
        by (bit_vector)
        requires p < 16, ns == (ospeedr & !0u32) | (3u32 << (p * 2));
    assert(forall|q: u32| q < 16 && q % 8 != r ==> #[trigger] field4(na, q) == field4(afr, q))
        by (bit_vector)
        requires r < 8, a < 16, na == (afr & !(15u32 << (r * 4))) | (a << (r * 4));
    assert({
        &&& (((moder & !(3u32 << (p * 2))) | (2u32 << (p * 2))) >> (p * 2)) & 3 == 2
        &&& (((ospeedr & !0u32) | (3u32 << (p * 2))) >> (p * 2)) & 3 == 3
        &&& (((afr & !(15u32 << (r * 4))) | (a << (r * 4))) >> (r * 4)) & 15 == a
    }) by (bit_vector)
        requires p < 16, r < 8, a < 16;
    let plan = gpio_af_plan(base, pin, af);
    assert(plan[0]->clear == 3u32 << (p * 2) && plan[0]->set == 2u32 << (p * 2));
    assert(plan[1]->clear == 0 && plan[1]->set == 3u32 << (p * 2));
    assert(plan[2]->clear == 15u32 << (r * 4) && plan[2]->set == a << (r * 4));
}

/// Setting up a pin a second time leaves every register as the first
/// setup left it.
pub proof fn lemma_gpio_setup_idempotent(regs: Map<u32, u32>, base: u32, pin: u8, af: u8)
    requires
        pin < 16,
        base <= u32::MAX - GPIO_AFRH,
    ensures
        reg_effects(reg_effects(regs, gpio_af_plan(base, pin, af)), gpio_af_plan(base, pin, af))
            == reg_effects(regs, gpio_af_plan(base, pin, af)),
{
    let plan = gpio_af_plan(base, pin, af);
    reveal_with_fuel(reg_effects, 4);
    let once = reg_effects(regs, plan);
    let twice = reg_effects(once, plan);
    let a0 = plan[0]->Modify_addr;
    let a1 = plan[1]->Modify_addr;
    let a2 = plan[2]->Modify_addr;
    assert(a0 != a1 && a0 != a2 && a1 != a2);
    lemma_modify_idempotent(regs[a0], plan[0]->clear, plan[0]->set);
    lemma_modify_idempotent(regs[a1], plan[1]->clear, plan[1]->set);
    lemma_modify_idempotent(regs[a2], plan[2]->clear, plan[2]->set);
    assert(twice =~= once);
}

/// Setting up two different pins of one port gives the same registers in
/// either order (for alternate functions that fit their 4-bit field).
pub proof fn lemma_gpio_setups_commute(
    regs: Map<u32, u32>,
    base: u32,
    p1: u8,
    af1: u8,
    p2: u8,
    af2: u8,
)
    requires
        p1 < 16,
        p2 < 16,
        p1 != p2,
        af1 < 16,
        af2 < 16,
        base <= u32::MAX - GPIO_AFRH,
    ensures
        reg_effects(reg_effects(regs, gpio_af_plan(base, p1, af1)), gpio_af_plan(base, p2, af2))
            == reg_effects(reg_effects(regs, gpio_af_plan(base, p2, af2)), gpio_af_plan(base, p1, af1)),
{
    let x = gpio_af_plan(base, p1, af1);
    let y = gpio_af_plan(base, p2, af2);
    reveal_with_fuel(reg_effects, 4);
    let xy = reg_effects(reg_effects(regs, x), y);
    let yx = reg_effects(reg_effects(regs, y), x);
    let q1: u32 = p1 as u32;
    let q2: u32 = p2 as u32;
    let r1: u32 = (p1 % 8) as u32;
    let r2: u32 = (p2 % 8) as u32;
    let f1: u32 = af1 as u32;
    let f2: u32 = af2 as u32;
    assert({
        &&& (2u32 << (q1 * 2)) & (3u32 << (q2 * 2)) == 0
        &&& (2u32 << (q2 * 2)) & (3u32 << (q1 * 2)) == 0
        &&& (3u32 << (q1 * 2)) & 0u32 == 0
        &&& (3u32 << (q2 * 2)) & 0u32 == 0
    }) by (bit_vector)
        requires q1 < 16, q2 < 16, q1 != q2;
    if afr_offset(p1) == afr_offset(p2) {
        assert(r1 != r2);
        assert({
            &&& (f1 << (r1 * 4)) & (15u32 << (r2 * 4)) == 0
            &&& (f2 << (r2 * 4)) & (15u32 << (r1 * 4)) == 0
        }) by (bit_vector)
            requires r1 < 8, r2 < 8, r1 != r2, f1 < 16, f2 < 16;
        lemma_modify_commute(regs[x[2]->Modify_addr], x[2]->clear, x[2]->set, y[2]->clear, y[2]->set);
    }
    lemma_modify_commute(regs[x[0]->Modify_addr], x[0]->clear, x[0]->set, y[0]->clear, y[0]->set);
    lemma_modify_commute(regs[x[1]->Modify_addr], x[1]->clear, x[1]->set, y[1]->clear, y[1]->set);
    assert(xy =~= yx);
}

/// The QUADSPI pins of the board and their alternate functions.
pub open spec fn qspi_pin_table() -> Seq<PinAf> {
    seq![
        PinAf { port: GPIOB_BASE, pin: 2, af: 9 },   // CLK
        PinAf { port: GPIOB_BASE, pin: 6, af: 10 },  // BK1_NCS
        PinAf { port: GPIOD_BASE, pin: 11, af: 9 },  // BK1_IO0
        PinAf { port: GPIOD_BASE, pin: 12, af: 9 },  // BK1_IO1
        PinAf { port: GPIOD_BASE, pin: 13, af: 9 },  // BK1_IO3
        PinAf { port: GPIOE_BASE, pin: 2, af: 9 },   // BK1_IO2
        PinAf { port: GPIOE_BASE, pin: 7, af: 10 },  // BK2_IO0
        PinAf { port: GPIOE_BASE, pin: 8, af: 10 },  // BK2_IO1
        PinAf { port: GPIOE_BASE, pin: 9, af: 10 },  // BK2_IO2
        PinAf { port: GPIOE_BASE, pin: 10, af: 10 }, // BK2_IO3
    ]
}

/// The QUADSPI pins of the board and their alternate functions, in the
/// order they are configured.
pub fn qspi_pins() -> (pins: Vec<PinAf>)
    ensures
        pins@ == qspi_pin_table(),
{
    let pins = vec![
        PinAf { port: GPIOB_BASE, pin: 2, af: 9 },
        PinAf { port: GPIOB_BASE, pin: 6, af: 10 },
        PinAf { port: GPIOD_BASE, pin: 11, af: 9 },
        PinAf { port: GPIOD_BASE, pin: 12, af: 9 },
        PinAf { port: GPIOD_BASE, pin: 13, af: 9 },
        PinAf { port: GPIOE_BASE, pin: 2, af: 9 },
        PinAf { port: GPIOE_BASE, pin: 7, af: 10 },
        PinAf { port: GPIOE_BASE, pin: 8, af: 10 },
        PinAf { port: GPIOE_BASE, pin: 9, af: 10 },
        PinAf { port: GPIOE_BASE, pin: 10, af: 10 },
    ];
    assert(pins@ =~= qspi_pin_table());
    pins
}

/// Register updates for every pin of `pins`, pin after pin.
pub open spec fn pins_plan(pins: Seq<PinAf>) -> Seq<BusOp>
    decreases pins.len(),
{
    if pins.len() == 0 {
        seq![]
    } else {
        pins_plan(pins.drop_last()) + gpio_af_plan(pins.last().port, pins.last().pin, pins.last().af)
    }
}

/// Register updates that route every pin of `pins` to its alternate
/// function.
pub fn setup_pins(pins: &Vec<PinAf>) -> (ops: Vec<BusOp>)
    requires
        forall|i: int| 0 <= i < pins.len() ==> #[trigger] pins[i].pin < 16 && pins[i].port <= u32::MAX - GPIO_AFRH,
    ensures
        ops@ == pins_plan(pins@),
{
    let mut ops: Vec<BusOp> = Vec::new();
    let mut i: usize = 0;
    while i < pins.len()
        invariant
            i <= pins.len(),
            forall|j: int| 0 <= j < pins.len() ==> #[trigger] pins[j].pin < 16 && pins[j].port <= u32::MAX - GPIO_AFRH,
            ops@ == pins_plan(pins@.take(i as int)),
        decreases pins.len() - i,
    {
        let p = pins[i];
        let mut step = gpio_setup_af(p.port, p.pin, p.af);
        ops.append(&mut step);
        assert(pins@.take(i as int + 1).drop_last() =~= pins@.take(i as int));
        i = i + 1;
    }
    assert(pins@.take(i as int) =~= pins@);
    ops
}

/// Whether `p` is in alternate-function mode at very high speed with its
/// alternate function, according to the register contents `regs`.
pub open spec fn pin_configured(regs: Map<u32, u32>, p: PinAf) -> bool {
    &&& field2(regs[(p.port + GPIO_MODER) as u32], p.pin as u32) == MODE_ALTERNATE
    &&& field2(regs[(p.port + GPIO_OSPEEDR) as u32], p.pin as u32) == SPEED_VERY_HIGH
    &&& field4(regs[(p.port + if p.pin < 8 { GPIO_AFRL } else { GPIO_AFRH }) as u32], p.pin as u32)
        == p.af as u32
}

/// A pin of one of the QUADSPI ports with a pin number and an alternate
/// function that fit their fields.
pub open spec fn pin_valid(p: PinAf) -> bool {
    &&& p.port == GPIOB_BASE || p.port == GPIOD_BASE || p.port == GPIOE_BASE
    &&& p.pin < 16
    &&& p.af < 16
}

proof fn lemma_setup_configures(regs: Map<u32, u32>, q: PinAf)
    requires
        pin_valid(q),
    ensures
        pin_configured(reg_effects(regs, gpio_af_plan(q.port, q.pin, q.af)), q),
{
    let plan = gpio_af_plan(q.port, q.pin, q.af);
    reveal_with_fuel(reg_effects, 4);
    lemma_gpio_setup_fields(
        q.port,
        q.pin,
        q.af,
        regs[plan[0]->Modify_addr],
        regs[plan[1]->Modify_addr],
        regs[plan[2]->Modify_addr],
    );
}

proof fn lemma_setup_keeps(regs: Map<u32, u32>, q: PinAf, p: PinAf)
    requires
        pin_valid(q),
        pin_valid(p),
        p.port != q.port || p.pin != q.pin,
        pin_configured(regs, p),
    ensures
        pin_configured(reg_effects(regs, gpio_af_plan(q.port, q.pin, q.af)), p),
{
    let plan = gpio_af_plan(q.port, q.pin, q.af);
    reveal_with_fuel(reg_effects, 4);
    let after = reg_effects(regs, plan);
    lemma_gpio_setup_fields(
        q.port,
        q.pin,
        q.af,
        regs[plan[0]->Modify_addr],
        regs[plan[1]->Modify_addr],
        regs[plan[2]->Modify_addr],
    );
    let pm = (p.port + GPIO_MODER) as u32;
    let ps = (p.port + GPIO_OSPEEDR) as u32;
    let pa = (p.port + afr_offset(p.pin)) as u32;
    if p.port == q.port {
        assert(field2(after[pm], p.pin as u32) == field2(regs[pm], p.pin as u32));
        assert(field2(after[ps], p.pin as u32) == field2(regs[ps], p.pin as u32));
        if afr_offset(p.pin) == afr_offset(q.pin) {
            assert((p.pin as u32) % 8 != (q.pin as u32) % 8);
            assert(field4(after[pa], p.pin as u32) == field4(regs[pa], p.pin as u32));
        }
    }
}

/// Setting up a list of distinct pins, pin after pin, leaves every one of
/// them configured: a later setup never undoes an earlier one.
pub proof fn lemma_pins_plan_configures(regs: Map<u32, u32>, pins: Seq<PinAf>)
    requires
        forall|i: int| 0 <= i < pins.len() ==> pin_valid(#[trigger] pins[i]),
        forall|i: int, j: int| 0 <= i < j < pins.len() ==> (#[trigger] pins[i]).port != (#[trigger] pins[j]).port
            || pins[i].pin != pins[j].pin,
    ensures
        forall|i: int| 0 <= i < pins.len() ==> pin_configured(reg_effects(regs, pins_plan(pins)), #[trigger] pins[i]),
    decreases pins.len(),
{
    if pins.len() > 0 {
        let prefix = pins.drop_last();
        let q = pins.last();
        lemma_pins_plan_configures(regs, prefix);
        let mid = reg_effects(regs, pins_plan(prefix));
        let plan = gpio_af_plan(q.port, q.pin, q.af);
        lemma_reg_effects_append(regs, pins_plan(prefix), plan);
        assert(pin_valid(pins[pins.len() - 1]));
        lemma_setup_configures(mid, q);
        assert forall|i: int| 0 <= i < pins.len() implies pin_configured(
            reg_effects(regs, pins_plan(pins)),
            #[trigger] pins[i],
        ) by {
            if i < pins.len() - 1 {
                assert(prefix[i] == pins[i]);
                assert(pin_valid(pins[i]));
                assert(pins[i].port != pins[pins.len() - 1].port || pins[i].pin != pins[pins.len() - 1].pin);
                lemma_setup_keeps(mid, q, pins[i]);
            }
        }
    }
}

/// After the QUADSPI pin setup, every pin of the board's table is in
/// alternate-function mode at very high speed with its alternate
/// function, whatever the GPIO registers held before.
pub proof fn lemma_qspi_pins_configured(regs: Map<u32, u32>)
    ensures
        forall|i: int| 0 <= i < qspi_pin_table().len() ==> pin_configured(
            reg_effects(regs, pins_plan(qspi_pin_table())),
            #[trigger] qspi_pin_table()[i],
        ),
{
    let t = qspi_pin_table();
    assert forall|i: int| 0 <= i < t.len() implies pin_valid(#[trigger] t[i]) by {}
    assert forall|i: int, j: int| 0 <= i < j < t.len() implies (#[trigger] t[i]).port != (#[trigger] t[j]).port
        || t[i].pin != t[j].pin by {}
    lemma_pins_plan_configures(regs, t);
}

} // verus!
