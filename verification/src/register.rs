//! Register addresses and their per-bus encodings.

use vstd::prelude::*;

verus! {

/// The address of a sensor register.
///
/// A register is named by a 7-bit address. The wire protocol derives two
/// byte values from it: the *read address*, which carries the direction bit
/// (the most significant bit set), and the *write address*, which is the bare
/// 7-bit address.
#[derive(Clone, Copy, PartialEq, Eq, Structural, Debug)]
pub struct Register {
    pub addr: u8,
}

impl Register {
    /// A register address is well formed when it fits in 7 bits, leaving the
    /// most significant bit free for the read/write direction flag.
    pub open spec fn wf(self) -> bool {
        self.addr < 0x80
    }

    /// The byte that addresses this register for a read: the 7-bit address
    /// with the direction bit set.
    pub open spec fn spec_read_address(self) -> u8 {
        self.addr | 0x80
    }

    /// The byte that addresses this register for a write: the bare 7-bit
    /// address.
    pub open spec fn spec_write_address(self) -> u8 {
        self.addr
    }

    pub fn new(addr: u8) -> (r: Register)
        requires
            addr < 0x80,
        ensures
            r.wf(),
            r.addr == addr,
    {
        Register { addr }
    }

    pub fn read_address(&self) -> (r: u8)
        ensures
            r == self.spec_read_address(),
            self.wf() ==> r == self.spec_write_address() + 0x80,
    {
        proof {
            let a = self.addr;
            assert(a < 0x80 ==> (a | 0x80) == a + 0x80) by (bit_vector);
        }
        self.addr | 0x80
    }

    pub fn write_address(&self) -> (r: u8)
        ensures
            r == self.spec_write_address(),
    {
        self.addr
    }
}

} // verus!
