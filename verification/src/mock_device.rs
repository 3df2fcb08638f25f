//! The register file that both mock buses emulate.
//!
//! A mock device holds a bank of byte registers. A write transaction whose
//! payload is `[address byte, value]` stores the value under the 7-bit
//! register number of the address byte (the direction bit is ignored, as the
//! device's register pointer would); a read starting at an address byte
//! returns consecutive registers from that register number on, wrapping
//! around the bank.

use vstd::prelude::*;

verus! {

/// The register the device's pointer selects for an address byte: its low
/// seven bits.
pub open spec fn reg_select(address_byte: u8) -> int {
    address_byte as int % 128
}

/// The byte the device answers for register number `idx`, wrapping around
/// the bank; an empty bank answers zero.
pub open spec fn mock_reg_at(regs: Seq<u8>, idx: int) -> u8 {
    if regs.len() == 0 {
        0u8
    } else {
        regs[idx % regs.len() as int]
    }
}

/// The register bank after a write transaction with payload `bytes`: a
/// two-byte payload `[address byte, value]` stores the value, anything else
/// is ignored by the device.
pub open spec fn mock_regs_after_write(regs: Seq<u8>, bytes: Seq<u8>) -> Seq<u8> {
    if bytes.len() == 2 && regs.len() > 0 {
        regs.update(reg_select(bytes[0]) % regs.len() as int, bytes[1])
    } else {
        regs
    }
}

/// Reads the register `offset` places after the one `address_byte` selects.
pub fn reg_lookup(regs: &Vec<u8>, address_byte: u8, offset: usize) -> (r: u8)
    ensures
        r == mock_reg_at(regs@, reg_select(address_byte) + offset),
{
    if regs.len() == 0 {
        0
    } else {
        let start = (address_byte as usize) % 128;
        let big: u128 = start as u128 + offset as u128;
        let len = regs.len();
        let m: u128 = big % (len as u128);
        assert(m < len as u128);
        regs[m as usize]
    }
}

/// Applies a write transaction with payload `bytes` to the register bank.
pub fn apply_write(regs: &mut Vec<u8>, bytes: &Vec<u8>)
    ensures
        final(regs)@ == mock_regs_after_write(old(regs)@, bytes@),
{
    if bytes.len() == 2 && regs.len() > 0 {
        let idx = ((bytes[0] as usize) % 128) % regs.len();
        regs.set(idx, bytes[1]);
    }
}

} // verus!
