use pcal6416a::hl::command::RegisterChange;
use pcal6416a::hl::{idx_to_mask_be, split_pins, Pins};
use pcal6416a::ll::{value_from_bytes, Register};
use pcal6416a::Blocking;

fn change(register: Register, level: bool) -> RegisterChange {
    RegisterChange { register, level }
}

const REGISTERS: [Register; 8] = [
    Register::Input,
    Register::Output,
    Register::Configuration,
    Register::InputLatch,
    Register::PullUpDownEnable,
    Register::PullUpDownSelection,
    Register::InterruptMask,
    Register::InterruptStatus,
];

fn slot(r: Register) -> usize {
    REGISTERS.iter().position(|x| *x == r).unwrap()
}

#[test]
fn masks_of_port0_are_the_high_byte() {
    for idx in 0u16..8 {
        assert_eq!(idx_to_mask_be(idx), 1u16 << (idx + 8));
    }
    for idx in 8u16..16 {
        assert_eq!(idx_to_mask_be(idx), 1u16 << (idx - 8));
    }
    assert_eq!(idx_to_mask_be(0), 0x0100);
    assert_eq!(idx_to_mask_be(15), 0x0080);
}

#[test]
fn masks_partition_the_register() {
    let mut all = 0u16;
    for idx in 0u16..16 {
        let m = idx_to_mask_be(idx);
        assert_eq!(m.count_ones(), 1);
        assert_eq!(all & m, 0);
        all |= m;
    }
    assert_eq!(all, 0xffff);
}

#[test]
fn pin_in_port_byte() {
    let pins: Pins<Blocking> = split_pins();
    // Port 0 byte 0b0000_0100 sets P0_2, port 1 byte 0b1000_0000 sets P1_7.
    let input = value_from_bytes([0b0000_0100, 0b1000_0000]);
    assert!(pins.p0_2.is_high(input));
    assert!(pins.p1_7.is_high(input));
    assert!(pins.p0_0.is_low(input));
    assert!(pins.p1_2.is_low(input));
}

#[test]
fn split_numbers_the_pins() {
    let p: Pins<Blocking> = split_pins();
    let idx = [
        p.p0_0.idx(),
        p.p0_1.idx(),
        p.p0_2.idx(),
        p.p0_3.idx(),
        p.p0_4.idx(),
        p.p0_5.idx(),
        p.p0_6.idx(),
        p.p0_7.idx(),
        p.p1_0.idx(),
        p.p1_1.idx(),
        p.p1_2.idx(),
        p.p1_3.idx(),
        p.p1_4.idx(),
        p.p1_5.idx(),
        p.p1_6.idx(),
        p.p1_7.idx(),
    ];
    for (i, x) in idx.iter().enumerate() {
        assert_eq!(*x as usize, i);
    }
    assert_eq!(p.p1_3.mask_be(), idx_to_mask_be(11));
}

#[test]
fn set_bit_sets_and_clears_one_pin() {
    let pins: Pins<Blocking> = split_pins();
    let p = pins.p0_1;
    assert_eq!(p.set_bit(0x0000, true), 0x0200);
    assert_eq!(p.set_bit(0xffff, false), 0xfdff);
    assert_eq!(p.set_bit(0x1234, true), 0x1234 | 0x0200);
    let q = pins.p1_0;
    assert_eq!(q.set_bit(0x0000, true), 0x0001);
    assert_eq!(q.set_bit(0x0001, false), 0x0000);
}

#[test]
fn set_bit_reads_back() {
    let pins: Pins<Blocking> = split_pins();
    let p = pins.p0_5;
    for v in [0u16, 0xffff, 0x5a5a, 0x2000] {
        for b in [false, true] {
            let w = p.set_bit(v, b);
            assert_eq!(p.is_high(w), b);
            assert_eq!(w & !p.mask_be(), v & !p.mask_be());
        }
    }
}

#[test]
fn set_bit_last_write_wins() {
    let pins: Pins<Blocking> = split_pins();
    let p = pins.p1_4;
    let v = 0x1357;
    assert_eq!(p.set_bit(p.set_bit(v, true), false), p.set_bit(v, false));
    assert_eq!(p.set_bit(p.set_bit(v, false), true), p.set_bit(v, true));
    assert_eq!(p.set_bit(v, p.is_high(v)), v);
}

#[test]
fn set_bit_commutes_across_pins() {
    let pins: Pins<Blocking> = split_pins();
    let (a, b) = (pins.p0_3, pins.p1_6);
    let v = 0xc0de;
    assert_eq!(a.set_bit(b.set_bit(v, true), false), b.set_bit(a.set_bit(v, false), true));
}

#[test]
fn is_high_and_is_low() {
    let pins: Pins<Blocking> = split_pins();
    assert!(pins.p0_0.is_high(0x0100));
    assert!(!pins.p0_0.is_low(0x0100));
    assert!(pins.p0_0.is_low(0x00ff));
    assert!(pins.p1_0.is_high(0x0001));
}

#[test]
fn into_input_plan() {
    let pins: Pins<Blocking> = split_pins();
    let (out, _) = pins.p0_4.into_output(true);
    let (inp, changes) = out.into_input();
    assert_eq!(inp.idx(), 4);
    assert_eq!(
        changes,
        vec![change(Register::PullUpDownEnable, false), change(Register::Configuration, true)]
    );
}

#[test]
fn into_output_plan_writes_value_before_direction() {
    let pins: Pins<Blocking> = split_pins();
    let (out, changes) = pins.p1_1.into_output(true);
    assert_eq!(out.idx(), 9);
    assert_eq!(
        changes,
        vec![change(Register::Output, true), change(Register::Configuration, false)]
    );
    let (_, changes) = pins.p1_2.into_output(false);
    assert_eq!(changes[0], change(Register::Output, false));
}

#[test]
fn input_plans() {
    let pins: Pins<Blocking> = split_pins();
    let p = pins.p0_7;
    assert_eq!(p.set_input_latch(true), vec![change(Register::InputLatch, true)]);
    assert_eq!(p.set_input_latch(false), vec![change(Register::InputLatch, false)]);
    assert_eq!(
        p.configure_interrupt(true),
        vec![change(Register::InputLatch, true), change(Register::InterruptMask, false)]
    );
    assert_eq!(
        p.configure_interrupt(false),
        vec![change(Register::InputLatch, false), change(Register::InterruptMask, true)]
    );
    let (up, changes) = p.into_pull_up();
    assert_eq!(up.idx(), 7);
    assert_eq!(
        changes,
        vec![change(Register::PullUpDownSelection, true), change(Register::PullUpDownEnable, true)]
    );
    let (down, changes) = up.into_pull_down();
    assert_eq!(
        changes,
        vec![change(Register::PullUpDownSelection, false), change(Register::PullUpDownEnable, true)]
    );
    let (floating, changes) = down.into_pull_floating();
    assert_eq!(floating.idx(), 7);
    assert_eq!(changes, vec![change(Register::PullUpDownEnable, false)]);
}

#[test]
fn output_plan() {
    let pins: Pins<Blocking> = split_pins();
    let (out, _) = pins.p0_0.into_output(false);
    assert_eq!(out.set_value(true), vec![change(Register::Output, true)]);
    assert_eq!(out.set_value(false), vec![change(Register::Output, false)]);
}

#[test]
fn running_a_plan_touches_only_the_pin() {
    let pins: Pins<Blocking> = split_pins();
    let mut regs = [0x5555u16, 0xaaaa, 0xffff, 0x0000, 0x1234, 0x4321, 0xffff, 0x0f0f];
    let before = regs;
    let (out, changes) = pins.p1_5.into_output(true);
    for c in &changes {
        let s = slot(c.register);
        regs[s] = out.set_bit(regs[s], c.level);
    }
    let m = out.mask_be();
    assert_eq!(m, 0x0020);
    assert!(out_level(regs[slot(Register::Output)], m));
    assert!(!out_level(regs[slot(Register::Configuration)], m));
    for r in REGISTERS {
        let s = slot(r);
        assert_eq!(regs[s] & !m, before[s] & !m);
        if r != Register::Output && r != Register::Configuration {
            assert_eq!(regs[s], before[s]);
        }
    }
}

fn out_level(v: u16, m: u16) -> bool {
    v & m != 0
}

#[test]
fn interrupt_on_then_off() {
    let pins: Pins<Blocking> = split_pins();
    let p = pins.p1_0;
    let m = p.mask_be();
    let mut latch = 0x00f0u16 | m;
    let mut mask = 0xff0fu16;
    let (latch0, mask0) = (latch, mask);
    for enabled in [true, false] {
        for c in p.configure_interrupt(enabled) {
            let reg = match c.register {
                Register::InputLatch => &mut latch,
                Register::InterruptMask => &mut mask,
                _ => panic!("unexpected register"),
            };
            *reg = p.set_bit(*reg, c.level);
        }
        assert_eq!(p.is_high(latch), enabled);
        assert_eq!(p.is_high(mask), !enabled);
    }
    assert_eq!(latch, latch0 & !m);
    assert_eq!(mask, mask0 | m);
}
