//! Verified core of a driver for the NXP PCAL6416A 16-bit I2C I/O expander.
//!
//! The library holds what the driver decides: the bus address, the framing of
//! register transactions, the register encoding, which bit of a 16-bit port
//! register belongs to which pin, the register updates that each pin
//! operation performs, how interrupt status is turned into per-pin events and
//! when a wait for a pin level or edge is over. Bus traffic, locking and the
//! channels between tasks are left to the caller.
use vstd::prelude::*;

pub mod hl;
pub mod ll;

verus! {

/// The I2C address of the expander, chosen by how its ADDR pin is wired.
#[derive(Clone, Copy, Debug, PartialEq, Eq, Structural)]
pub enum Address {
    /// ADDR tied low: 0x20.
    Default0,
    /// ADDR tied high: 0x21.
    Alternative1,
}

impl Address {
    /// The 7-bit bus address that this choice stands for.
    pub open spec fn address_byte(self) -> u8 {
        match self {
            Address::Default0 => 0x20,
            Address::Alternative1 => 0x21,
        }
    }

    /// The 7-bit bus address of the expander.
    pub fn addr(self) -> (a: u8)
        ensures
            a == self.address_byte(),
    {
        match self {
            Address::Default0 => 0b0100000,
            Address::Alternative1 => 0b0100001,
        }
    }
}

trait SealedMode {
}

/// Whether the bus behind the driver is blocking or asynchronous.
#[allow(private_bounds)]
pub trait Mode: SealedMode {
}

/// The bus is driven asynchronously.
pub struct Async;

/// The bus is driven with blocking calls.
pub struct Blocking;

impl SealedMode for Async {
}

impl SealedMode for Blocking {
}

impl Mode for Async {
}

impl Mode for Blocking {
}

} // verus!
