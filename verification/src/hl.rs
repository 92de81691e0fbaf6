//! High level: pins, what each pin operation writes to the expander, and the
//! handling of interrupts.
use vstd::prelude::*;

use core::marker::PhantomData;

use crate::ll::register_value;
use crate::Mode;

pub mod command;
pub mod interrupt;

verus! {

/// Direction marker: the pin is an input, with the pull resistor `T`.
pub struct Input<T>(PhantomData<T>);

/// Direction marker: the pin drives its level.
pub struct Output;

/// Pull marker: the input is pulled up.
pub struct PullUp;

/// Pull marker: the input is pulled down.
pub struct PullDown;

/// Pull marker: the input has no pull resistor.
pub struct Floating;

/// The bit of a 16-bit port register that belongs to pin `idx`.
///
/// Pins 0 to 7 are P0_0 to P0_7, pins 8 to 15 are P1_0 to P1_7. A register's
/// value is read big-endian, port 0 first, so port 0 is the high byte.
pub open spec fn pin_bit(idx: u16) -> u16 {
    if idx < 8 {
        (idx + 8) as u16
    } else {
        (idx - 8) as u16
    }
}

/// The mask that selects pin `idx` in a 16-bit port register.
pub open spec fn pin_mask(idx: u16) -> u16 {
    1u16 << pin_bit(idx)
}

/// Whether pin `idx` is set in the port register value `value`.
pub open spec fn pin_level(value: u16, idx: u16) -> bool {
    value & pin_mask(idx) != 0
}

/// `value` with the bit of pin `idx` set to `level` and every other bit kept.
pub open spec fn with_pin_level(value: u16, idx: u16, level: bool) -> u16 {
    (value & !pin_mask(idx)) | (if level {
        pin_mask(idx)
    } else {
        0u16
    })
}

/// Calls `u16::rotate_left`, which shifts the bits of `x` left by `n` and
/// moves the bits shifted out back in at the low end; a rotation by `n` is
/// one by `n % 16`.
#[verifier::external_body]
fn u16_rotate_left(x: u16, n: u32) -> (r: u16)
    ensures
        n % 16 == 0 ==> r == x,
        n % 16 != 0 ==> r == (x << (n % 16)) | (x >> ((16 - n % 16) as u32)),
{
    x.rotate_left(n)
}

/// The mask of pin `idx` in a big-endian port register.
pub fn idx_to_mask_be(idx: u16) -> (mask: u16)
    requires
        idx < 16,
    ensures
        mask == pin_mask(idx),
{
    let single: u16 = 1u16 << idx;
    let mask = u16_rotate_left(single, 8);
    assert(((1u16 << idx) << 8u32) | ((1u16 << idx) >> 8u32) == pin_mask(idx)) by (bit_vector)
        requires
            idx < 16,
    ;
    mask
}

/// Facts about one pin's bit in a port register value.
proof fn lemma_pin_bits(value: u16, i: u16, j: u16, level: bool)
    requires
        i < 16,
        j < 16,
    ensures
        pin_level(with_pin_level(value, i, level), i) == level,
        i != j ==> pin_level(with_pin_level(value, i, level), j) == pin_level(value, j),
        i != j ==> pin_mask(i) & pin_mask(j) == 0,
{
    assert(pin_level(with_pin_level(value, i, level), i) == level) by (bit_vector)
        requires
            i < 16,
    ;
    assert(i != j ==> pin_level(with_pin_level(value, i, level), j) == pin_level(value, j))
        by (bit_vector)
        requires
            i < 16,
            j < 16,
    ;
    assert(i != j ==> pin_mask(i) & pin_mask(j) == 0) by (bit_vector)
        requires
            i < 16,
            j < 16,
    ;
}

/// Law: every bit of a port register belongs to exactly one pin. The masks of
/// two different pins share no bit, and bit `k` is the mask of pin
/// `pin_bit(k)`, whose bit is `k` again.
pub proof fn law_pins_partition_register(i: u16, j: u16, k: u16)
    requires
        i < 16,
        j < 16,
        k < 16,
    ensures
        pin_mask(i) != 0,
        i != j ==> pin_mask(i) & pin_mask(j) == 0,
        pin_bit(k) < 16,
        pin_bit(pin_bit(k)) == k,
        pin_mask(pin_bit(k)) == 1u16 << k,
{
    lemma_pin_bits(0, i, j, false);
    assert(pin_mask(i) != 0) by (bit_vector)
        requires
            i < 16,
    ;
    assert(pin_mask(pin_bit(k)) == 1u16 << k) by (bit_vector)
        requires
            k < 16,
    ;
}

/// Law: pins 0 to 7 are the bits of the port 0 byte and pins 8 to 15 those of
/// the port 1 byte, each at its own position within the byte.
pub proof fn law_pin_in_port_byte(port0: u8, port1: u8, idx: u16)
    requires
        idx < 16,
    ensures
        pin_level(register_value(port0, port1), idx) == if idx < 8 {
            (port0 >> idx) & 1 == 1
        } else {
            (port1 >> ((idx - 8) as u16)) & 1 == 1
        },
{
    assert(pin_level(register_value(port0, port1), idx) == if idx < 8 {
        (port0 >> idx) & 1 == 1
    } else {
        (port1 >> ((idx - 8) as u16)) & 1 == 1
    }) by (bit_vector)
        requires
            idx < 16,
    ;
}

/// Law: of two writes to the same pin's bit the last one wins, and writing
/// the level that a pin already has changes nothing.
pub proof fn law_pin_write_overwrites(value: u16, idx: u16, first: bool, second: bool)
    requires
        idx < 16,
    ensures
        with_pin_level(with_pin_level(value, idx, first), idx, second) == with_pin_level(
            value,
            idx,
            second,
        ),
        pin_level(value, idx) == first ==> with_pin_level(value, idx, first) == value,
{
    assert(with_pin_level(with_pin_level(value, idx, first), idx, second) == with_pin_level(
        value,
        idx,
        second,
    )) by (bit_vector)
        requires
            idx < 16,
    ;
    assert(pin_level(value, idx) == first ==> with_pin_level(value, idx, first) == value)
        by (bit_vector)
        requires
            idx < 16,
    ;
}

/// Law: writes to the bits of two different pins do not depend on each
/// other's order.
pub proof fn law_pin_writes_commute(value: u16, i: u16, a: bool, j: u16, b: bool)
    requires
        i < 16,
        j < 16,
        i != j,
    ensures
        with_pin_level(with_pin_level(value, i, a), j, b) == with_pin_level(
            with_pin_level(value, j, b),
            i,
            a,
        ),
{
    assert(with_pin_level(with_pin_level(value, i, a), j, b) == with_pin_level(
        with_pin_level(value, j, b),
        i,
        a,
    )) by (bit_vector)
        requires
            i < 16,
            j < 16,
            i != j,
    ;
}

/// One pin of the expander, with its direction `DIR` and bus mode `MODE`.
pub struct Pin<DIR, MODE: Mode> {
    idx: u8,
    _dir: PhantomData<DIR>,
    _mode: PhantomData<MODE>,
}

impl<DIR, MODE: Mode> Pin<DIR, MODE> {
    #[verifier::type_invariant]
    spec fn pin_in_range(self) -> bool {
        self.idx < 16
    }

    /// The pin's number: 0 to 7 for P0_0 to P0_7, 8 to 15 for P1_0 to P1_7.
    pub closed spec fn index(self) -> u16 {
        self.idx as u16
    }

    fn new(idx: u8) -> (pin: Self)
        requires
            idx < 16,
        ensures
            pin.index() == idx,
    {
        Pin { idx, _dir: PhantomData, _mode: PhantomData }
    }

    /// The pin's number.
    pub fn idx(&self) -> (i: u8)
        ensures
            i == self.index(),
            i < 16,
    {
        proof {
            use_type_invariant(self);
        }
        self.idx
    }

    /// The mask of this pin in a port register.
    pub fn mask_be(&self) -> (mask: u16)
        ensures
            mask == pin_mask(self.index()),
    {
        proof {
            use_type_invariant(self);
        }
        idx_to_mask_be(self.idx as u16)
    }

    /// `value` with this pin's bit set to `bit` and every other pin's bit
    /// kept.
    pub fn set_bit(&self, value: u16, bit: bool) -> (r: u16)
        ensures
            r == with_pin_level(value, self.index(), bit),
            pin_level(r, self.index()) == bit,
            forall|j: u16|
                #![trigger pin_level(r, j)]
                j < 16 && j != self.index() ==> pin_level(r, j) == pin_level(value, j),
    {
        proof {
            use_type_invariant(self);
        }
        let mask = self.mask_be();
        let value_mask: u16 = if bit {
            mask
        } else {
            0u16
        };
        let r = value & !mask | value_mask;
        proof {
            assert forall|j: u16| j < 16 && j != self.index() implies pin_level(r, j) == pin_level(
                value,
                j,
            ) by {
                lemma_pin_bits(value, self.index(), j, bit);
            }
            lemma_pin_bits(value, self.index(), self.index(), bit);
        }
        r
    }

    /// The same pin with another direction.
    fn transform<NEWDIR>(self) -> (pin: Pin<NEWDIR, MODE>)
        ensures
            pin.index() == self.index(),
    {
        proof {
            use_type_invariant(&self);
        }
        Pin { idx: self.idx, _dir: PhantomData, _mode: PhantomData }
    }
}

impl<PULLUPDOWN, MODE: Mode> Pin<Input<PULLUPDOWN>, MODE> {
    /// Whether the pin reads high, given the value of the input register.
    pub fn is_high(&self, input: u16) -> (high: bool)
        ensures
            high == pin_level(input, self.index()),
    {
        input & self.mask_be() != 0
    }

    /// Whether the pin reads low, given the value of the input register.
    pub fn is_low(&self, input: u16) -> (low: bool)
        ensures
            low == !pin_level(input, self.index()),
    {
        !self.is_high(input)
    }
}

/// The sixteen pins of the expander, each a floating input, as they are
/// when the driver starts.
pub struct Pins<MODE: Mode> {
    pub p0_0: Pin<Input<Floating>, MODE>,
    pub p0_1: Pin<Input<Floating>, MODE>,
    pub p0_2: Pin<Input<Floating>, MODE>,
    pub p0_3: Pin<Input<Floating>, MODE>,
    pub p0_4: Pin<Input<Floating>, MODE>,
    pub p0_5: Pin<Input<Floating>, MODE>,
    pub p0_6: Pin<Input<Floating>, MODE>,
    pub p0_7: Pin<Input<Floating>, MODE>,
    pub p1_0: Pin<Input<Floating>, MODE>,
    pub p1_1: Pin<Input<Floating>, MODE>,
    pub p1_2: Pin<Input<Floating>, MODE>,
    pub p1_3: Pin<Input<Floating>, MODE>,
    pub p1_4: Pin<Input<Floating>, MODE>,
    pub p1_5: Pin<Input<Floating>, MODE>,
    pub p1_6: Pin<Input<Floating>, MODE>,
    pub p1_7: Pin<Input<Floating>, MODE>,
}

/// Hands out every pin of the expander once: `p0_x` is pin `x`, `p1_x` is
/// pin `8 + x`.
pub fn split_pins<MODE: Mode>() -> (pins: Pins<MODE>)
    ensures
        pins.p0_0.index() == 0,
        pins.p0_1.index() == 1,
        pins.p0_2.index() == 2,
        pins.p0_3.index() == 3,
        pins.p0_4.index() == 4,
        pins.p0_5.index() == 5,
        pins.p0_6.index() == 6,
        pins.p0_7.index() == 7,
        pins.p1_0.index() == 8,
        pins.p1_1.index() == 9,
        pins.p1_2.index() == 10,
        pins.p1_3.index() == 11,
        pins.p1_4.index() == 12,
        pins.p1_5.index() == 13,
        pins.p1_6.index() == 14,
        pins.p1_7.index() == 15,
{
    Pins {
        p0_0: Pin::new(0),
        p0_1: Pin::new(1),
        p0_2: Pin::new(2),
        p0_3: Pin::new(3),
        p0_4: Pin::new(4),
        p0_5: Pin::new(5),
        p0_6: Pin::new(6),
        p0_7: Pin::new(7),
        p1_0: Pin::new(8),
        p1_1: Pin::new(9),
        p1_2: Pin::new(10),
        p1_3: Pin::new(11),
        p1_4: Pin::new(12),
        p1_5: Pin::new(13),
        p1_6: Pin::new(14),
        p1_7: Pin::new(15),
    }
}

} // verus!
