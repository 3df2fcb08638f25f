//! Mock implementation of the two-wire bus primitive.
//!
//! [`MockTwoWireBus`] emulates the register-file device of
//! [`crate::mock_device`] behind two-wire addressing and keeps a runtime
//! record of every transaction for tests to inspect.

use vstd::prelude::*;
use crate::buffer::copy_bytes;
use crate::buffer::zeroed;
use crate::bus::BusFault;
use crate::bus::TwoWireBus;
use crate::bus::TwoWireTx;
use crate::mock_device::mock_reg_at;
use crate::mock_device::mock_regs_after_write;
use crate::mock_device::apply_write;
use crate::mock_device::reg_lookup;
use crate::mock_device::reg_select;
use crate::register::Register;
use crate::two_wire::write_payload;

verus! {

/// One recorded two-wire transaction, kept as runtime data for tests.
pub struct TwoWireRecord {
    /// `true` for a combined write-then-read, `false` for a plain write.
    pub combined: bool,
    /// The peripheral address the transaction was directed at.
    pub addr: u8,
    /// The bytes written.
    pub out: Vec<u8>,
    /// The bytes read back (empty for a plain write).
    pub back: Vec<u8>,
}

impl View for TwoWireRecord {
    type V = TwoWireTx;

    open spec fn view(&self) -> TwoWireTx {
        if self.combined {
            TwoWireTx::WriteRead { addr: self.addr, out: self.out@, back: self.back@ }
        } else {
            TwoWireTx::Write { addr: self.addr, bytes: self.out@ }
        }
    }
}

/// The device's answer to a combined transaction: after `out` set its
/// register pointer, it streams `n` consecutive registers starting there.
pub open spec fn mock_two_wire_response(regs: Seq<u8>, out: Seq<u8>, n: nat) -> Seq<u8> {
    Seq::new(
        n,
        |i: int|
            mock_reg_at(
                regs,
                (if out.len() > 0 {
                    reg_select(out[0])
                } else {
                    0
                }) + i,
            ),
    )
}

/// A two-wire bus wired to the mock register-file device.
pub struct MockTwoWireBus {
    /// The device's register bank.
    pub regs: Vec<u8>,
    /// Every completed transaction, oldest first.
    pub records: Vec<TwoWireRecord>,
    /// While set, every transaction fails with [`BusFault`].
    pub fail: bool,
}

impl MockTwoWireBus {
    /// A mock device with 128 zeroed registers.
    pub fn new() -> (r: MockTwoWireBus)
        ensures
            r.regs@ == crate::buffer::zeros(128),
            r.records@ == Seq::<TwoWireRecord>::empty(),
            !r.fail,
    {
        MockTwoWireBus { regs: zeroed(128), records: Vec::new(), fail: false }
    }
}

impl TwoWireBus for MockTwoWireBus {
    type Error = BusFault;

    open spec fn log(&self) -> Seq<TwoWireTx> {
        self.records@.map_values(|rec: TwoWireRecord| rec@)
    }

    open spec fn read_response(&self, addr: u8, out: Seq<u8>, n: nat) -> Seq<u8> {
        mock_two_wire_response(self.regs@, out, n)
    }

    /// Succeeds exactly while the fault flag is clear; a two-byte payload
    /// updates the register bank as the device's register pointer would.
    fn write(&mut self, addr: u8, bytes: &Vec<u8>) -> (r: Result<(), BusFault>)
        ensures
            r is Ok <==> !old(self).fail,
            final(self).fail == old(self).fail,
            r is Ok ==> final(self).regs@ == mock_regs_after_write(old(self).regs@, bytes@),
            r is Err ==> *final(self) == *old(self),
    {
        if self.fail {
            return Err(BusFault);
        }
        apply_write(&mut self.regs, bytes);
        let ghost log0 = self.log();
        self.records.push(
            TwoWireRecord { combined: false, addr, out: copy_bytes(bytes), back: Vec::new() },
        );
        proof {
            assert(self.log() =~= log0.push(TwoWireTx::Write { addr, bytes: bytes@ }));
        }
        Ok(())
    }

    /// Succeeds exactly while the fault flag is clear; never touches the
    /// register bank.
    fn write_read(&mut self, addr: u8, out: &Vec<u8>, buf: &mut Vec<u8>) -> (r: Result<
        (),
        BusFault,
    >)
        ensures
            r is Ok <==> !old(self).fail,
            final(self).regs@ == old(self).regs@,
            final(self).fail == old(self).fail,
            r is Err ==> *final(self) == *old(self),
    {
        if self.fail {
            return Err(BusFault);
        }
        let start: u8 = if out.len() > 0 {
            out[0]
        } else {
            0
        };
        let ghost n0 = buf@.len();
        let n = buf.len();
        let mut i: usize = 0;
        while i < n
            invariant
                i <= n,
                n == buf@.len(),
                forall|j: int|
                    0 <= j < i ==> buf@[j] == mock_two_wire_response(self.regs@, out@, n as nat)[j],
                n == n0,
                start == (if out@.len() > 0 {
                    out@[0]
                } else {
                    0u8
                }),
            decreases n - i,
        {
            let v = reg_lookup(&self.regs, start, i);
            buf.set(i, v);
            i += 1;
        }
        proof {
            assert(reg_select(0u8) == 0);
            assert(buf@ =~= mock_two_wire_response(self.regs@, out@, n0));
        }
        let ghost log0 = self.log();
        self.records.push(
            TwoWireRecord { combined: true, addr, out: copy_bytes(out), back: copy_bytes(buf) },
        );
        proof {
            assert(self.log() =~= log0.push(TwoWireTx::WriteRead { addr, out: out@, back: buf@ }));
        }
        Ok(())
    }
}

/// Round trip over the mock device: a two-wire write of `val` with the
/// adapter's payload and a subsequent block read starting at the same
/// register yield `val` as the first byte of the block.
pub proof fn lemma_two_wire_round_trip(regs: Seq<u8>, reg: Register, val: u8, n: nat)
    requires
        regs.len() == 128,
        reg.wf(),
        1 <= n,
    ensures
        mock_two_wire_response(
            mock_regs_after_write(regs, write_payload(reg, val)),
            seq![reg.spec_read_address()],
            n,
        )[0] == val,
{
    let a = reg.addr;
    assert((a | 0x80) % 128 == a % 128) by (bit_vector);
    vstd::arithmetic::div_mod::lemma_small_mod(a as nat, 128);
    assert(reg_select(reg.spec_read_address()) == a as int);
    let written = mock_regs_after_write(regs, write_payload(reg, val));
    assert(written == regs.update(a as int, val));
    assert(written[a as int] == val);
    assert(mock_two_wire_response(written, seq![reg.spec_read_address()], n)[0] == mock_reg_at(
        written,
        a as int,
    ));
}

} // verus!
