//! Big-endian byte readers over raw buffers, plus a little-endian 16-bit
//! writer used when packing values back into a byte buffer.

use vstd::prelude::*;

verus! {

/// The big-endian 16-bit value stored at byte offset `addr` of `mem`.
pub open spec fn spec_read_u16(mem: Seq<u8>, addr: int) -> u16
    recommends
        0 <= addr,
        addr + 2 <= mem.len(),
{
    ((mem[addr] as u16) << 8) | (mem[addr + 1] as u16)
}

/// The big-endian signed 16-bit value stored at byte offset `addr` of `mem`.
pub open spec fn spec_read_i16(mem: Seq<u8>, addr: int) -> i16
    recommends
        0 <= addr,
        addr + 2 <= mem.len(),
{
    spec_read_u16(mem, addr) as i16
}

/// Writes `value` into `mem` at byte offset `addr`, little-endian.
pub fn write_u16(mem: &mut Vec<u8>, addr: usize, value: u16)
    requires
        addr + 2 <= old(mem)@.len(),
    ensures
        final(mem)@ == old(mem)@
            .update(addr as int, value as u8)
            .update(addr + 1, (value >> 8) as u8),
{
    let lo: u8 = #[verifier::truncate] (value as u8);
    let hi: u8 = #[verifier::truncate] ((value >> 8) as u8);
    // Pins the buffer length into the usize range for the index sum.
    let n = mem.len();
    mem[addr] = lo;
    mem[addr + 1] = hi;
}

/// Reads the big-endian 16-bit value at `addr`.
pub fn read_u16(mem: &[u8], addr: u16) -> (r: u16)
    requires
        addr + 2 <= mem@.len(),
    ensures
        r == spec_read_u16(mem@, addr as int),
{
    let b0 = mem[addr as usize];
    let b1 = mem[addr as usize + 1];
    ((b0 as u16) << 8) | (b1 as u16)
}

/// Reads the byte at `addr`.
pub fn read_u8(mem: &[u8], addr: u16) -> (r: u8)
    requires
        addr < mem@.len(),
    ensures
        r == mem@[addr as int],
{
    mem[addr as usize]
}

/// Reads the big-endian signed 16-bit value at `addr`.
pub fn read_i16(mem: &[u8], addr: u16) -> (r: i16)
    requires
        addr + 2 <= mem@.len(),
    ensures
        r == spec_read_i16(mem@, addr as int),
{
    let u = read_u16(mem, addr);
    #[verifier::truncate] (u as i16)
}

} // verus!
