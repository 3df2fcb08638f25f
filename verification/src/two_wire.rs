//! The adapter for the addressed two-wire bus.
//!
//! The two-wire protocol addresses the peripheral itself, so no select line
//! is needed: a block read is one combined write-then-read transaction, a
//! write is one plain write transaction against the fixed peripheral
//! address.

use vstd::prelude::*;
use crate::buffer::zero_fill;
use crate::bus::TwoWireBus;
use crate::bus::TwoWireTx;
use crate::register::Register;
use crate::types::Interface;
use crate::types::Tx;

verus! {

/// The payload of a two-wire single-byte write: the register's *read*
/// address followed by the value.
///
/// Using the read address here is deliberate: it preserves the wire
/// behaviour this adapter has always had for the target device family,
/// rather than silently switching to the write address. The contract of
/// [`Interface::write`] below pins this choice down.
pub open spec fn write_payload(reg: Register, val: u8) -> Seq<u8> {
    seq![reg.spec_read_address(), val]
}

/// The two-wire adapter: owns the bus handle and the peripheral address.
pub struct TwoWire<B> {
    /// The two-wire bus handle.
    pub bus: B,
    /// The fixed address of the peripheral on the bus; never changed after
    /// construction.
    pub dev: u8,
    /// The register-level transactions completed, oldest first.
    pub txs: Ghost<Seq<Tx>>,
}

impl<B: TwoWireBus> TwoWire<B> {
    pub fn new(bus: B, dev: u8) -> (r: Self)
        ensures
            r.bus == bus,
            r.dev == dev,
            r.txs@ == Seq::<Tx>::empty(),
    {
        TwoWire { bus, dev, txs: Ghost(Seq::empty()) }
    }
}

impl<B: TwoWireBus> Interface<<B as TwoWireBus>::Error> for TwoWire<B> {
    open spec fn trace(&self) -> Seq<Tx> {
        self.txs@
    }

    /// Issues one combined transaction against the peripheral: write the
    /// register's read address, then read the block. The stored peripheral
    /// address is never changed. The buffer is zero-filled first, so on
    /// failure it holds only zeros.
    fn read_many(&mut self, reg: Register, buf: &mut Vec<u8>) -> (r: Result<
        (),
        <B as TwoWireBus>::Error,
    >)
        ensures
            final(self).dev == old(self).dev,
            r is Ok ==> {
                &&& final(buf)@ == old(self).bus.read_response(
                    old(self).dev,
                    seq![reg.spec_read_address()],
                    old(buf)@.len(),
                )
                &&& final(self).bus.log() == old(self).bus.log().push(
                    (TwoWireTx::WriteRead {
                        addr: old(self).dev,
                        out: seq![reg.spec_read_address()],
                        back: final(buf)@,
                    }),
                )
            },
            r is Err ==> {
                &&& final(buf)@ == crate::buffer::zeros(old(buf)@.len())
                &&& final(self).bus.log() == old(self).bus.log()
                &&& final(self).txs@ == old(self).txs@
            },
    {
        zero_fill(buf);
        let ghost n0 = buf@.len();
        let mut out: Vec<u8> = Vec::new();
        out.push(reg.read_address());
        proof {
            assert(out@ =~= seq![reg.spec_read_address()]);
        }
        let dev = self.dev;
        let res = self.bus.write_read(dev, &out, buf);
        match res {
            Ok(_) => {
                self.txs = Ghost(self.txs@.push(Tx::Read { reg, n: n0, data: buf@ }));
                Ok(())
            },
            Err(e) => Err(e),
        }
    }

    /// Issues one write transaction whose payload is
    /// `[reg's read address, val]` — see [`write_payload`] for why the read
    /// address is used. The stored peripheral address is never changed.
    fn write(&mut self, reg: Register, val: u8) -> (r: Result<(), <B as TwoWireBus>::Error>)
        ensures
            final(self).dev == old(self).dev,
            r is Ok ==> final(self).bus.log() == old(self).bus.log().push(
                (TwoWireTx::Write { addr: old(self).dev, bytes: write_payload(reg, val) }),
            ),
            r is Err ==> final(self).bus.log() == old(self).bus.log() && final(self).txs@ == old(
                self,
            ).txs@,
    {
        let mut bytes: Vec<u8> = Vec::new();
        bytes.push(reg.read_address());
        bytes.push(val);
        proof {
            assert(bytes@ =~= write_payload(reg, val));
        }
        let dev = self.dev;
        let res = self.bus.write(dev, &bytes);
        match res {
            Ok(_) => {
                self.txs = Ghost(self.txs@.push(Tx::Write { reg, val }));
                Ok(())
            },
            Err(e) => Err(e),
        }
    }
}

} // verus!
