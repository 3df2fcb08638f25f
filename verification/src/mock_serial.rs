//! Mock implementations of the clocked-serial primitives.
//!
//! [`MockPin`] records every level it is driven to; [`MockSerialBus`]
//! emulates the register-file device of [`crate::mock_device`] and keeps a
//! runtime record of every transaction, so tests can inspect the exact bytes
//! that went over the wire.

use vstd::prelude::*;
use crate::buffer::copy_bytes;
use crate::buffer::zeroed;
use crate::bus::BusFault;
use crate::bus::SelectLine;
use crate::bus::SerialBus;
use crate::bus::SerialTx;
use crate::mock_device::mock_reg_at;
use crate::mock_device::mock_regs_after_write;
use crate::mock_device::apply_write;
use crate::mock_device::reg_lookup;
use crate::mock_device::reg_select;
use crate::register::Register;
use crate::serial::read_frame;
use crate::serial::write_frame;

verus! {

/// A select-line pin that records the levels driven to it.
pub struct MockPin {
    /// Every level this pin was driven to, oldest first.
    pub levels: Vec<bool>,
}

impl MockPin {
    pub fn new() -> (r: MockPin)
        ensures
            r.levels@ == Seq::<bool>::empty(),
    {
        MockPin { levels: Vec::new() }
    }
}

impl SelectLine for MockPin {
    open spec fn history(&self) -> Seq<bool> {
        self.levels@
    }

    fn set_low(&mut self) {
        self.levels.push(false);
    }

    fn set_high(&mut self) {
        self.levels.push(true);
    }
}

/// One recorded serial transaction, kept as runtime data for tests.
pub struct SerialRecord {
    /// `true` for a write-only transfer, `false` for a full-duplex one.
    pub write_only: bool,
    /// The bytes clocked out.
    pub out: Vec<u8>,
    /// The bytes clocked in (empty for a write-only transfer).
    pub back: Vec<u8>,
}

impl View for SerialRecord {
    type V = SerialTx;

    open spec fn view(&self) -> SerialTx {
        if self.write_only {
            SerialTx::Write { bytes: self.out@ }
        } else {
            SerialTx::Transfer { out: self.out@, back: self.back@ }
        }
    }
}

/// The device's reply to a full-duplex transfer of `out`: byte zero is a
/// don't-care zero, and from byte one on the device streams consecutive
/// registers starting at the one `out`'s first byte selects.
pub open spec fn mock_serial_response(regs: Seq<u8>, out: Seq<u8>) -> Seq<u8> {
    Seq::new(
        out.len(),
        |i: int|
            if i == 0 {
                0u8
            } else {
                mock_reg_at(regs, reg_select(out[0]) + i - 1)
            },
    )
}

/// A clocked-serial bus wired to the mock register-file device.
pub struct MockSerialBus {
    /// The device's register bank.
    pub regs: Vec<u8>,
    /// Every completed transaction, oldest first.
    pub records: Vec<SerialRecord>,
    /// While set, every transaction fails with [`BusFault`].
    pub fail: bool,
}

impl MockSerialBus {
    /// A mock device with 128 zeroed registers.
    pub fn new() -> (r: MockSerialBus)
        ensures
            r.regs@ == crate::buffer::zeros(128),
            r.records@ == Seq::<SerialRecord>::empty(),
            !r.fail,
    {
        MockSerialBus { regs: zeroed(128), records: Vec::new(), fail: false }
    }
}

impl SerialBus for MockSerialBus {
    type Error = BusFault;

    open spec fn log(&self) -> Seq<SerialTx> {
        self.records@.map_values(|rec: SerialRecord| rec@)
    }

    open spec fn response(&self, out: Seq<u8>) -> Seq<u8> {
        mock_serial_response(self.regs@, out)
    }

    /// Succeeds exactly while the fault flag is clear; never touches the
    /// register bank.
    fn transfer(&mut self, buf: &mut Vec<u8>) -> (r: Result<(), BusFault>)
        ensures
            r is Ok <==> !old(self).fail,
            final(self).regs@ == old(self).regs@,
            final(self).fail == old(self).fail,
            r is Err ==> *final(self) == *old(self),
    {
        if self.fail {
            return Err(BusFault);
        }
        let ghost out0 = buf@;
        let out_copy = copy_bytes(buf);
        let n = buf.len();
        if n > 0 {
            let start = buf[0];
            buf.set(0, 0);
            let mut i: usize = 1;
            while i < n
                invariant
                    1 <= i <= n,
                    n == buf@.len(),
                    n == out0.len(),
                    start == out0[0],
                    forall|j: int|
                        0 <= j < i ==> buf@[j] == mock_serial_response(self.regs@, out0)[j],
                decreases n - i,
            {
                let v = reg_lookup(&self.regs, start, i - 1);
                buf.set(i, v);
                i += 1;
            }
        }
        proof {
            assert(buf@ =~= mock_serial_response(self.regs@, out0));
        }
        let back_copy = copy_bytes(buf);
        let ghost log0 = self.log();
        self.records.push(SerialRecord { write_only: false, out: out_copy, back: back_copy });
        proof {
            assert(self.log() =~= log0.push(SerialTx::Transfer { out: out0, back: buf@ }));
        }
        Ok(())
    }

    /// Succeeds exactly while the fault flag is clear; a two-byte payload
    /// updates the register bank as the device's register pointer would.
    fn write(&mut self, bytes: &Vec<u8>) -> (r: Result<(), BusFault>)
        ensures
            r is Ok <==> !old(self).fail,
            final(self).fail == old(self).fail,
            r is Ok ==> final(self).regs@ == mock_regs_after_write(old(self).regs@, bytes@),
            r is Err ==> *final(self) == *old(self),
    {
        if self.fail {
            return Err(BusFault);
        }
        apply_write(&mut self.regs, bytes);
        let ghost log0 = self.log();
        self.records.push(SerialRecord { write_only: true, out: copy_bytes(bytes), back: Vec::new() });
        proof {
            assert(self.log() =~= log0.push(SerialTx::Write { bytes: bytes@ }));
        }
        Ok(())
    }
}

/// Round trip over the mock device: writing `val` to a register with the
/// serial write frame and then reading a block back with the serial read
/// frame yields `val` as the first data byte after the don't-care byte.
pub proof fn lemma_serial_round_trip(regs: Seq<u8>, reg: Register, val: u8, n: nat)
    requires
        regs.len() == 128,
        reg.wf(),
        2 <= n,
    ensures
        mock_serial_response(mock_regs_after_write(regs, write_frame(reg, val)), read_frame(reg, n))[1]
            == val,
{
    let a = reg.addr;
    assert((a | 0x80) % 128 == a % 128) by (bit_vector);
    vstd::arithmetic::div_mod::lemma_small_mod(a as nat, 128);
    assert(reg_select(reg.spec_read_address()) == a as int);
    assert(reg_select(reg.spec_write_address()) == a as int);
    let written = mock_regs_after_write(regs, write_frame(reg, val));
    assert(written == regs.update(a as int, val));
    assert(written[a as int] == val);
    assert(mock_serial_response(written, read_frame(reg, n))[1] == mock_reg_at(written, a as int));
}

} // verus!
