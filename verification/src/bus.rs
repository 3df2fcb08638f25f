//! Contracts for the blocking bus primitives the adapters are built on.
//!
//! Each bus keeps a ghost log of the transactions it has performed; every
//! method's contract says exactly what one call appends to that log. A failed
//! call appends nothing and leaves any buffer it was handed unchanged, so a
//! caller knows the full wire-level story on every path.

use vstd::prelude::*;

verus! {

/// The error a mock bus reports when a transaction is made to fail.
#[derive(Clone, Copy, PartialEq, Eq, Structural, Debug)]
pub struct BusFault;

/// A transaction observed on the clocked serial bus.
pub enum SerialTx {
    /// A full-duplex transfer: `out` was clocked out while `back` was clocked
    /// in, byte for byte.
    Transfer { out: Seq<u8>, back: Seq<u8> },
    /// A write-only transfer of `bytes`.
    Write { bytes: Seq<u8> },
}

/// A blocking clocked-serial bus primitive.
///
/// The bus knows nothing of select lines or registers: it clocks bytes and
/// records each completed transaction in its log.
pub trait SerialBus {
    type Error;

    /// The transactions this bus has completed, oldest first.
    spec fn log(&self) -> Seq<SerialTx>;

    /// The device's reply to clocking out `out` while the bus is in its
    /// current state, byte for byte.
    spec fn response(&self, out: Seq<u8>) -> Seq<u8>;

    /// Full-duplex transfer in place: the bytes of `buf` are clocked out and
    /// the device's reply overwrites them.
    fn transfer(&mut self, buf: &mut Vec<u8>) -> (r: Result<(), Self::Error>)
        ensures
            r is Ok ==> {
                &&& final(buf)@ == old(self).response(old(buf)@)
                &&& final(buf)@.len() == old(buf)@.len()
                &&& final(self).log() == old(self).log().push(
                    SerialTx::Transfer { out: old(buf)@, back: final(buf)@ },
                )
            },
            r is Err ==> final(buf)@ == old(buf)@ && final(self).log() == old(self).log(),
    ;

    /// Write-only transfer of `bytes`.
    fn write(&mut self, bytes: &Vec<u8>) -> (r: Result<(), Self::Error>)
        ensures
            r is Ok ==> final(self).log() == old(self).log().push(
                SerialTx::Write { bytes: bytes@ },
            ),
            r is Err ==> final(self).log() == old(self).log(),
    ;
}

/// A digital output pin driving a chip-select line.
///
/// The select line is active low: driving it low opens a transaction window,
/// driving it high closes one.
pub trait SelectLine {
    /// The levels this pin has been driven to, oldest first;
    /// `false` is low (asserted), `true` is high (deasserted).
    spec fn history(&self) -> Seq<bool>;

    fn set_low(&mut self)
        ensures
            final(self).history() == old(self).history().push(false),
    ;

    fn set_high(&mut self)
        ensures
            final(self).history() == old(self).history().push(true),
    ;
}

/// A transaction observed on the addressed two-wire bus.
pub enum TwoWireTx {
    /// A write of `bytes` to the peripheral at `addr`.
    Write { addr: u8, bytes: Seq<u8> },
    /// A combined transaction against the peripheral at `addr`: `out` was
    /// written, then `back` was read, without releasing the bus in between.
    WriteRead { addr: u8, out: Seq<u8>, back: Seq<u8> },
}

/// A blocking two-wire bus primitive with built-in peripheral addressing.
pub trait TwoWireBus {
    type Error;

    /// The transactions this bus has completed, oldest first.
    spec fn log(&self) -> Seq<TwoWireTx>;

    /// The `n` bytes the peripheral at `addr` answers with after `out` has
    /// been written to it, while the bus is in its current state.
    spec fn read_response(&self, addr: u8, out: Seq<u8>, n: nat) -> Seq<u8>;

    /// Writes `bytes` to the peripheral at `addr`.
    fn write(&mut self, addr: u8, bytes: &Vec<u8>) -> (r: Result<(), Self::Error>)
        ensures
            r is Ok ==> final(self).log() == old(self).log().push(
                TwoWireTx::Write { addr, bytes: bytes@ },
            ),
            r is Err ==> final(self).log() == old(self).log(),
    ;

    /// Combined transaction: writes `out` to the peripheral at `addr`, then
    /// reads `buf.len()` bytes into `buf`.
    fn write_read(&mut self, addr: u8, out: &Vec<u8>, buf: &mut Vec<u8>) -> (r: Result<
        (),
        Self::Error,
    >)
        ensures
            r is Ok ==> {
                &&& final(buf)@ == old(self).read_response(addr, out@, old(buf)@.len())
                &&& final(buf)@.len() == old(buf)@.len()
                &&& final(self).log() == old(self).log().push(
                    TwoWireTx::WriteRead { addr, out: out@, back: final(buf)@ },
                )
            },
            r is Err ==> final(buf)@ == old(buf)@ && final(self).log() == old(self).log(),
    ;
}

} // verus!
