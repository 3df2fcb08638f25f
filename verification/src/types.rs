//! The transport capability consumed by the register-level driver.

use vstd::prelude::*;
use crate::register::Register;

verus! {

/// Marker trait for the sensor's operating mode.
pub(crate) trait MpuMode {

}

/// Accelerometer + Gyroscope + Temperature Sensor
pub struct Imu;

impl MpuMode for Imu {

}

/// Magnetometer + Accelerometer + Gyroscope + Temperature Sensor
pub struct Marg;

impl MpuMode for Marg {

}

/// One register-level transaction, as the register driver sees it: the
/// bus-specific framing (device addressing, select-line toggles, direction
/// bits) is already erased.
pub enum Tx {
    /// A block read of `n` bytes starting at `reg`; `data` is the block the
    /// device answered with, in device byte order.
    Read { reg: Register, n: nat, data: Seq<u8> },
    /// A single-byte write of `val` to `reg`.
    Write { reg: Register, val: u8 },
}

/// Generic interface for communicating with the sensor.
///
/// Both bus adapters implement this capability. Its contract speaks only of
/// the abstract transaction trace: each successful call appends exactly one
/// transaction, each failed call appends none and surfaces the bus error
/// verbatim. How a transaction is framed on the wire is stated by the
/// stronger contracts on each adapter's own implementation.
pub trait Interface<E> {
    /// The register-level transactions completed so far, oldest first.
    spec fn trace(&self) -> Seq<Tx>;

    /// Requests a block read of `buf.len()` bytes starting at `reg`'s read
    /// address. The caller fixes the block size by the buffer it passes; on
    /// success the buffer holds the device's response.
    fn read_many(&mut self, reg: Register, buf: &mut Vec<u8>) -> (r: Result<(), E>)
        requires
            reg.wf(),
            old(buf)@.len() >= 1,
        ensures
            final(buf)@.len() == old(buf)@.len(),
            r is Ok ==> final(self).trace() == old(self).trace().push(
                Tx::Read { reg, n: old(buf)@.len(), data: final(buf)@ },
            ),
            r is Err ==> final(self).trace() == old(self).trace(),
    ;

    /// Writes the single byte `val` to `reg`.
    fn write(&mut self, reg: Register, val: u8) -> (r: Result<(), E>)
        requires
            reg.wf(),
        ensures
            r is Ok ==> final(self).trace() == old(self).trace().push(Tx::Write { reg, val }),
            r is Err ==> final(self).trace() == old(self).trace(),
    ;
}

} // verus!
