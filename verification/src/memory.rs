//! The machine's memory: a fixed-size, byte-addressable buffer backing the
//! whole address space. Registers, program code, program data and the call
//! stack all live in this one linear space.
//!
//! Word-granular access requires a 4-byte-aligned address; any access
//! requires an address inside `[0, len)`. Callers that cannot establish
//! those bounds check them first and raise the matching [`crate::Fault`].

use vstd::prelude::*;

verus! {

/// The byte buffer that models the whole address space. It is created once
/// from the contents of the image file and mutated in place for the whole
/// run; its view is the byte sequence it holds.
pub struct VirtualMemory {
    bytes: Vec<u8>,
}

impl View for VirtualMemory {
    type V = Seq<u8>;

    closed spec fn view(&self) -> Seq<u8> {
        self.bytes@
    }
}

impl VirtualMemory {
    /// Wraps the image contents, already read by the caller, as the
    /// machine's address space.
    pub fn new(bytes: Vec<u8>) -> (r: Self)
        ensures
            r@ == bytes@,
    {
        VirtualMemory { bytes }
    }

    /// The size of the address space: the image file's size.
    pub fn len(&self) -> (n: usize)
        ensures
            n == self@.len(),
    {
        self.bytes.len()
    }

    /// The whole buffer, for handing the final contents back to the caller.
    pub fn as_bytes(&self) -> (r: &Vec<u8>)
        ensures
            r@ == self@,
    {
        &self.bytes
    }

    /// Reads the byte at `addr`.
    pub fn read_byte(&self, addr: u32) -> (b: u8)
        requires
            addr < self@.len(),
        ensures
            b == self@[addr as int],
    {
        self.bytes[addr as usize]
    }

    /// Writes `val` at `addr`.
    pub fn write_byte(&mut self, addr: u32, val: u8)
        requires
            addr < old(self)@.len(),
        ensures
            final(self)@ == old(self)@.update(addr as int, val),
    {
        self.bytes[addr as usize] = val;
    }

    /// Reads the four bytes of the aligned word at `addr`.
    pub fn read_word(&self, addr: u32) -> (w: [u8; 4])
        requires
            addr % 4 == 0,
            addr + 4 <= self@.len(),
        ensures
            w@ == self@.subrange(addr as int, addr + 4),
    {
        let a = addr as usize;
        let w = [self.bytes[a], self.bytes[a + 1], self.bytes[a + 2], self.bytes[a + 3]];
        proof {
            assert(w@ =~= self@.subrange(addr as int, addr + 4));
        }
        w
    }

    /// Writes the four bytes of `value` as the aligned word at `addr`.
    pub fn write_word(&mut self, addr: u32, value: &[u8; 4])
        requires
            addr % 4 == 0,
            addr + 4 <= old(self)@.len(),
        ensures
            final(self)@ == old(self)@.update(addr as int, value@[0]).update(
                addr + 1,
                value@[1],
            ).update(addr + 2, value@[2]).update(addr + 3, value@[3]),
    {
        let a = addr as usize;
        self.bytes[a] = value[0];
        self.bytes[a + 1] = value[1];
        self.bytes[a + 2] = value[2];
        self.bytes[a + 3] = value[3];
    }
}

} // verus!
