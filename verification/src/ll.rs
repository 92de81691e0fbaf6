//! Low level: the bus interface, the framing of register transactions, the
//! register map and the encoding of a register's value on the bus.
use vstd::prelude::*;

use crate::Address;

verus! {

/// The largest I2C write that a register transaction makes: one command byte
/// and at most four data bytes.
pub const MAX_TRANSACTION_SIZE: usize = 5;

/// The bus behind the driver together with the address of the expander on it.
pub struct Interface<I2C> {
    i2c: I2C,
    address: Address,
}

impl<I2C> Interface<I2C> {
    /// The bus that this interface talks over.
    pub closed spec fn bus(&self) -> I2C {
        self.i2c
    }

    /// The address of the expander on that bus.
    pub closed spec fn device(&self) -> Address {
        self.address
    }

    /// The interface that [`Interface::new`] builds from a bus and an address.
    pub closed spec fn spec_new(i2c: I2C, address: Address) -> Self {
        Interface { i2c, address }
    }

    /// Wraps a bus and the expander's address on it.
    pub fn new(i2c: I2C, address: Address) -> (r: Self)
        ensures
            r == Self::spec_new(i2c, address),
            r.bus() == i2c,
            r.device() == address,
    {
        Self { i2c, address }
    }

    /// Gives the bus back.
    pub fn take(self) -> (i2c: I2C)
        ensures
            i2c == self.bus(),
    {
        self.i2c
    }

    /// Lends the bus out for one transaction; the address stays as it is.
    pub fn bus_mut(&mut self) -> (i2c: &mut I2C)
        ensures
            *i2c == old(self).bus(),
            final(self).bus() == *final(i2c),
            final(self).device() == old(self).device(),
    {
        &mut self.i2c
    }

    /// The 7-bit bus address that every transaction of this interface goes to.
    pub fn i2c_address(&self) -> (a: u8)
        ensures
            a == self.device().address_byte(),
    {
        self.address.addr()
    }

    /// The bytes of the I2C write that stores `data` in the register at
    /// `address`: the command byte, then the data.
    ///
    /// The transaction buffer has room for [`MAX_TRANSACTION_SIZE`] bytes, so
    /// at most four data bytes fit.
    pub fn write_register_frame(address: u8, data: &[u8]) -> (frame: Vec<u8>)
        requires
            data@.len() + 1 <= MAX_TRANSACTION_SIZE,
        ensures
            frame@ == seq![address] + data@,
    {
        let mut frame: Vec<u8> = Vec::new();
        frame.push(address);
        let mut i: usize = 0;
        while i < data.len()
            invariant
                i <= data@.len(),
                frame@ == seq![address] + data@.subrange(0, i as int),
            decreases data@.len() - i,
        {
            frame.push(data[i]);
            i = i + 1;
            assert(data@.subrange(0, i as int) == data@.subrange(0, i - 1).push(data@[i - 1]));
        }
        assert(data@.subrange(0, data@.len() as int) == data@);
        frame
    }

    /// The bytes of the I2C write that selects the register at `address`
    /// before its value is read back.
    pub fn read_register_command(address: u8) -> (command: [u8; 1])
        ensures
            command@ == seq![address],
    {
        [address]
    }
}

/// Law: [`Interface::take`] gives back exactly the bus that
/// [`Interface::new`] was given.
pub proof fn law_take_returns_bus<I2C>(i2c: I2C, address: Address)
    ensures
        Interface::<I2C>::spec_new(i2c, address).bus() == i2c,
        Interface::<I2C>::spec_new(i2c, address).device() == address,
{
}

/// The registers of the expander that the driver reads or writes. Each holds
/// one bit per pin: the byte for port 0 (pins P0_0 to P0_7) at the register's
/// address, the byte for port 1 (pins P1_0 to P1_7) at the next address.
#[derive(Clone, Copy, Debug, PartialEq, Eq, Structural)]
pub enum Register {
    /// The level on each pin (read only).
    Input,
    /// The level that each output pin drives.
    Output,
    /// Set: the pin is an input; clear: the pin is an output.
    Configuration,
    /// Set: the pin's interrupt stays latched until the input is read.
    InputLatch,
    /// Set: the pin's pull-up or pull-down resistor is connected.
    PullUpDownEnable,
    /// Set: the resistor pulls up; clear: it pulls down.
    PullUpDownSelection,
    /// Set: a change on the pin raises no interrupt.
    InterruptMask,
    /// Set: the pin is the source of a pending interrupt (read only).
    InterruptStatus,
}

impl Register {
    /// The command byte that selects the register's port 0 byte.
    pub open spec fn command_byte(self) -> u8 {
        match self {
            Register::Input => 0x00,
            Register::Output => 0x02,
            Register::Configuration => 0x06,
            Register::InputLatch => 0x44,
            Register::PullUpDownEnable => 0x46,
            Register::PullUpDownSelection => 0x48,
            Register::InterruptMask => 0x4a,
            Register::InterruptStatus => 0x4c,
        }
    }

    /// The command byte that selects the register's port 0 byte.
    pub fn address(self) -> (a: u8)
        ensures
            a == self.command_byte(),
    {
        match self {
            Register::Input => 0x00,
            Register::Output => 0x02,
            Register::Configuration => 0x06,
            Register::InputLatch => 0x44,
            Register::PullUpDownEnable => 0x46,
            Register::PullUpDownSelection => 0x48,
            Register::InterruptMask => 0x4a,
            Register::InterruptStatus => 0x4c,
        }
    }
}

/// The number of bytes that a register's value takes on the bus.
pub const REGISTER_SIZE: usize = 2;

/// The value of a register whose port 0 byte is `port0` and port 1 byte is
/// `port1`: the bytes are read big-endian, port 0 first.
pub open spec fn register_value(port0: u8, port1: u8) -> u16 {
    (port0 as int * 256 + port1 as int) as u16
}

/// Decodes a register's value from the two bytes read from the bus.
pub fn value_from_bytes(bytes: [u8; 2]) -> (value: u16)
    ensures
        value == register_value(bytes@[0], bytes@[1]),
{
    let hi: u8 = bytes[0];
    let lo: u8 = bytes[1];
    let v: u16 = ((hi as u16) << 8u16) | (lo as u16);
    assert(((hi as u16) << 8u16) | (lo as u16) == (hi as int * 256 + lo as int) as u16)
        by (bit_vector);
    v
}

/// Encodes a register's value as the two bytes written to the bus, port 0
/// first.
pub fn value_to_bytes(value: u16) -> (bytes: [u8; 2])
    ensures
        register_value(bytes@[0], bytes@[1]) == value,
        bytes@.len() == REGISTER_SIZE,
{
    let hi: u8 = (value >> 8u16) as u8;
    let lo: u8 = (value & 0xffu16) as u8;
    assert(((value >> 8u16) as u8 as int * 256 + (value & 0xffu16) as u8 as int) as u16 == value)
        by (bit_vector);
    [hi, lo]
}

/// Law: decoding the bytes that encode a value gives the value back, and
/// every value has exactly one encoding.
pub proof fn law_register_encoding_round_trip(value: u16, port0: u8, port1: u8)
    ensures
        register_value(port0, port1) == value <==> (port0 == (value >> 8u16) as u8 && port1
            == (value & 0xffu16) as u8),
{
    assert(register_value(port0, port1) == value <==> (port0 == (value >> 8u16) as u8 && port1
        == (value & 0xffu16) as u8)) by (bit_vector);
}

} // verus!
