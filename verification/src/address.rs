//! The two-wire bus address of the sensor.

use vstd::prelude::*;

verus! {

/// Factory-default bus address of the LIS2MDL.
pub const DEFAULT_DEVICE_ID: u8 = 0x1E;

/// A device address on the two-wire bus.
///
/// Immutable once a driver is constructed with it; the raw byte is read
/// through the view `@`.
#[derive(Debug, Copy, Clone, PartialEq, Eq, Hash, Structural)]
pub struct Address(u8);

impl View for Address {
    type V = u8;

    closed spec fn view(&self) -> u8 {
        self.0
    }
}

impl Address {
    /// The factory-default address.
    pub fn seq() -> (r: Self)
        ensures
            r@ == DEFAULT_DEVICE_ID,
    {
        Address(DEFAULT_DEVICE_ID)
    }

    /// The raw address byte.
    pub fn byte(&self) -> (r: u8)
        ensures
            r == self@,
    {
        self.0
    }
}

impl Default for Address {
    /// The factory-default address.
    fn default() -> (r: Self)
        ensures
            r@ == DEFAULT_DEVICE_ID,
    {
        Address(DEFAULT_DEVICE_ID)
    }
}

impl From<u8> for Address {
    /// An address from its raw byte.
    fn from(value: u8) -> (r: Self)
        ensures
            r@ == value,
    {
        Address(value)
    }
}

impl vstd::std_specs::convert::FromSpecImpl<u8> for Address {
    open spec fn obeys_from_spec() -> bool {
        true
    }

    closed spec fn from_spec(value: u8) -> Self {
        Address(value)
    }
}

} // verus!
