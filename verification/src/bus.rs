//! Capabilities the driver is constructed over: a two-wire bus and a delay
//! provider.
//!
//! The driver never touches hardware itself; it is generic over these two
//! traits, and records every operation it issues through them in its own
//! ghost log of [`BusEvent`]s, so that its contracts can state exactly which
//! transactions and delays a call performs, in order.

use vstd::prelude::*;

verus! {

/// One completed bus operation, as recorded in the driver's ghost log.
pub enum BusEvent {
    /// An atomic write of `data` to the device at `addr`.
    Write { addr: u8, data: Seq<u8> },
    /// An atomic write of `written` to the device at `addr`, followed by a
    /// read that returned `returned`.
    WriteRead { addr: u8, written: Seq<u8>, returned: Seq<u8> },
}

/// A two-wire bus: atomic writes and combined write-then-read transactions
/// addressed to a device. Either operation may fail with a transport error.
pub trait Bus {
    /// The transport's own error type.
    type BusError;

    /// Write `data` to the device at `addr` as one atomic transaction.
    fn write(&mut self, addr: u8, data: &[u8]) -> (r: Result<(), Self::BusError>);

    /// Write `data` to the device at `addr`, then read `read_len` bytes
    /// back, as one atomic transaction. A successful read returns exactly
    /// `read_len` bytes.
    fn write_read(&mut self, addr: u8, data: &[u8], read_len: usize) -> (r: Result<
        Vec<u8>,
        Self::BusError,
    >)
        ensures
            r matches Ok(returned) ==> returned@.len() == read_len,
    ;
}

/// A delay provider: blocks the caller for at least the requested number of
/// nanoseconds. Infallible.
pub trait Delay {
    /// Block for at least `ns` nanoseconds.
    fn delay_ns(&mut self, ns: u32);
}

} // verus!
