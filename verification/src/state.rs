//! The register file, viewed over the low region of memory.
//!
//! Each register is a reserved 4-byte-aligned word address in the first 32
//! bytes of the address space. Because registers are ordinary memory words,
//! any instruction that addresses memory in `[0, 32)` aliases a register;
//! this aliasing is by design and every contract here states register
//! values as little-endian word reads of the one shared byte sequence.

use vstd::prelude::*;

use crate::memory::VirtualMemory;
use crate::words::{lemma_with_word_len, lemma_word_frame, lemma_word_roundtrip, with_word, word_at};
use crate::Fault;

verus! {

broadcast use lemma_with_word_len, lemma_word_roundtrip, lemma_word_frame;

/// The eight named 32-bit registers, in address order.
#[derive(Clone, Copy, Debug, PartialEq, Eq, Structural)]
pub enum Register {
    /// Instruction pointer: address of the next instruction to fetch.
    IP,
    /// General-purpose register 0.
    R0,
    /// General-purpose register 1.
    R1,
    /// General-purpose register 2.
    R2,
    /// General-purpose register 3.
    R3,
    /// Comparison flag, set by `EQ`/`LT`/`LE`, read by conditional jumps.
    CMP,
    /// Halt flag: a non-zero value stops the control loop.
    END,
    /// Stack pointer: address of the next free stack slot.
    SP,
}

impl Register {
    /// The fixed memory address of this register's word.
    pub open spec fn spec_addr(self) -> u32 {
        match self {
            Register::IP => 0,
            Register::R0 => 4,
            Register::R1 => 8,
            Register::R2 => 12,
            Register::R3 => 16,
            Register::CMP => 20,
            Register::END => 24,
            Register::SP => 28,
        }
    }

    /// Whether `addr` is the address of some register.
    pub open spec fn spec_is_register_addr(addr: u32) -> bool {
        addr % 4 == 0 && addr < 32
    }

    /// The fixed memory address of this register's word.
    pub fn as_addr(&self) -> (a: u32)
        ensures
            a == self.spec_addr(),
    {
        match self {
            Register::IP => 0,
            Register::R0 => 4,
            Register::R1 => 8,
            Register::R2 => 12,
            Register::R3 => 16,
            Register::CMP => 20,
            Register::END => 24,
            Register::SP => 28,
        }
    }

    /// The register whose word sits at `addr`.
    pub fn from_addr(addr: u32) -> (r: Self)
        requires
            Register::spec_is_register_addr(addr),
        ensures
            r == spec_register_of(addr),
            r.spec_addr() == addr,
    {
        if addr == 0 {
            Register::IP
        } else if addr == 4 {
            Register::R0
        } else if addr == 8 {
            Register::R1
        } else if addr == 12 {
            Register::R2
        } else if addr == 16 {
            Register::R3
        } else if addr == 20 {
            Register::CMP
        } else if addr == 24 {
            Register::END
        } else {
            Register::SP
        }
    }
}

/// The register whose word sits at `addr`.
pub open spec fn spec_register_of(addr: u32) -> Register
    recommends
        Register::spec_is_register_addr(addr),
{
    if addr == 0 {
        Register::IP
    } else if addr == 4 {
        Register::R0
    } else if addr == 8 {
        Register::R1
    } else if addr == 12 {
        Register::R2
    } else if addr == 16 {
        Register::R3
    } else if addr == 20 {
        Register::CMP
    } else if addr == 24 {
        Register::END
    } else {
        Register::SP
    }
}

/// The value of register `r` in memory `m`: the little-endian word at its
/// fixed address.
pub open spec fn reg_val(m: Seq<u8>, r: Register) -> u32 {
    word_at(m, r.spec_addr() as int)
}

/// `m` with register `r` set to `v`.
pub open spec fn set_reg(m: Seq<u8>, r: Register, v: u32) -> Seq<u8> {
    with_word(m, r.spec_addr() as int, v)
}

/// What a push of register `r` does to memory: the word at `SP` receives
/// the register's value, then `SP` grows by 4 (the stack grows toward
/// higher addresses). A misaligned or out-of-range `SP` faults with memory
/// unchanged.
pub open spec fn push_spec(m: Seq<u8>, r: Register) -> Result<Seq<u8>, Fault> {
    let sp = reg_val(m, Register::SP);
    if sp % 4 != 0 {
        Err(Fault::MisalignedAccess(sp))
    } else if sp + 4 > m.len() {
        Err(Fault::OutOfBounds(sp))
    } else {
        Ok(set_reg(with_word(m, sp as int, reg_val(m, r)), Register::SP, (sp + 4) as u32))
    }
}

/// What a pop into register `r` does to memory: `SP` shrinks by 4, then the
/// word at the new `SP` is stored into `r` (in that order, so `POP SP`
/// receives the stack value). A new `SP` below zero, misaligned, or out of
/// range faults with memory unchanged.
pub open spec fn pop_spec(m: Seq<u8>, r: Register) -> Result<Seq<u8>, Fault> {
    let sp = reg_val(m, Register::SP);
    if sp < 4 {
        Err(Fault::AddressOverflow)
    } else {
        let ns = (sp - 4) as u32;
        if ns % 4 != 0 {
            Err(Fault::MisalignedAccess(ns))
        } else if ns + 4 > m.len() {
            Err(Fault::OutOfBounds(ns))
        } else {
            let m1 = set_reg(m, Register::SP, ns);
            Ok(set_reg(m1, r, word_at(m1, ns as int)))
        }
    }
}

/// Register aliasing: the register file is ordinary memory. Writing `R0`
/// through the register interface is exactly writing the little-endian
/// word at memory address 4 — the very same bytes — and a word written
/// directly at address 4 reads back unchanged through the register
/// interface.
pub proof fn lemma_register_aliasing(m: Seq<u8>, x: u32)
    requires
        32 <= m.len(),
    ensures
        set_reg(m, Register::R0, x) == with_word(m, 4, x),
        word_at(set_reg(m, Register::R0, x), 4) == x,
        reg_val(with_word(m, 4, x), Register::R0) == x,
{
}

/// The machine state: the one memory buffer, addressed both as registers
/// and as raw bytes.
pub struct State {
    memory: VirtualMemory,
}

impl View for State {
    type V = Seq<u8>;

    closed spec fn view(&self) -> Seq<u8> {
        self.memory@
    }
}

impl State {
    /// Well-formed: memory holds at least the 32-byte register file, and
    /// every byte is reachable through a 32-bit address.
    pub open spec fn wf(self) -> bool {
        32 <= self@.len() && self@.len() <= u32::MAX
    }

    /// Wraps `memory` as the machine state.
    pub fn new(memory: VirtualMemory) -> (r: Self)
        ensures
            r@ == memory@,
    {
        State { memory }
    }

    /// Reads the little-endian word at the aligned address `addr`.
    pub fn read_word(&self, addr: u32) -> (v: u32)
        requires
            addr % 4 == 0,
            addr + 4 <= self@.len(),
        ensures
            v == word_at(self@, addr as int),
    {
        let w = self.memory.read_word(addr);
        (w[0] as u32) | ((w[1] as u32) << 8) | ((w[2] as u32) << 16) | ((w[3] as u32) << 24)
    }

    /// Writes `value` as the little-endian word at the aligned address
    /// `addr`.
    pub fn write_word(&mut self, addr: u32, value: u32)
        requires
            addr % 4 == 0,
            addr + 4 <= old(self)@.len(),
        ensures
            final(self)@ == with_word(old(self)@, addr as int, value),
    {
        let bytes: [u8; 4] = [
            (value & 0xFF) as u8,
            ((value >> 8) & 0xFF) as u8,
            ((value >> 16) & 0xFF) as u8,
            ((value >> 24) & 0xFF) as u8,
        ];
        self.memory.write_word(addr, &bytes);
        proof {
            assert(final(self)@ =~= with_word(old(self)@, addr as int, value));
        }
    }

    /// The current value of `register`.
    pub fn register_value(&self, register: Register) -> (v: u32)
        requires
            self.wf(),
        ensures
            v == reg_val(self@, register),
    {
        self.read_word(register.as_addr())
    }

    /// Sets `register` to `value`.
    pub fn set_register_value(&mut self, register: Register, value: u32)
        requires
            old(self).wf(),
        ensures
            final(self)@ == set_reg(old(self)@, register, value),
            final(self).wf(),
    {
        self.write_word(register.as_addr(), value);
    }

    /// Pushes the value of `register` onto the stack, as [`push_spec`]
    /// says; on a fault the state is unchanged.
    pub fn push_to_stack(&mut self, register: Register) -> (r: Result<(), Fault>)
        requires
            old(self).wf(),
        ensures
            final(self).wf(),
            match push_spec(old(self)@, register) {
                Ok(m2) => r is Ok && final(self)@ == m2,
                Err(f) => r == Err::<(), Fault>(f) && final(self)@ == old(self)@,
            },
    {
        let sp_value = self.register_value(Register::SP);
        if sp_value % 4 != 0 {
            return Err(Fault::MisalignedAccess(sp_value));
        }
        let len = self.memory.len();
        if (sp_value as u64) + 4 > (len as u64) {
            return Err(Fault::OutOfBounds(sp_value));
        }
        let register_value = self.register_value(register);
        self.write_word(sp_value, register_value);
        self.set_register_value(Register::SP, sp_value + 4);
        Ok(())
    }

    /// Pops the top of the stack into `register`, as [`pop_spec`] says; on
    /// a fault the state is unchanged.
    pub fn pop_from_stack(&mut self, register: Register) -> (r: Result<(), Fault>)
        requires
            old(self).wf(),
        ensures
            final(self).wf(),
            match pop_spec(old(self)@, register) {
                Ok(m2) => r is Ok && final(self)@ == m2,
                Err(f) => r == Err::<(), Fault>(f) && final(self)@ == old(self)@,
            },
    {
        let sp = self.register_value(Register::SP);
        if sp < 4 {
            return Err(Fault::AddressOverflow);
        }
        let sp_value = sp - 4;
        if sp_value % 4 != 0 {
            return Err(Fault::MisalignedAccess(sp_value));
        }
        let len = self.memory.len();
        if (sp_value as u64) + 4 > (len as u64) {
            return Err(Fault::OutOfBounds(sp_value));
        }
        self.set_register_value(Register::SP, sp_value);
        let stack_value = self.read_word(sp_value);
        self.set_register_value(register, stack_value);
        Ok(())
    }

    /// Shared access to the underlying memory.
    pub fn get_memory_handler(&self) -> (r: &VirtualMemory)
        ensures
            r@ == self@,
    {
        &self.memory
    }

    /// Exclusive access to the underlying memory.
    pub fn get_mut_memory_handler(&mut self) -> (r: &mut VirtualMemory)
        ensures
            r@ == old(self)@,
            final(self)@ == final(r)@,
    {
        &mut self.memory
    }
}

} // verus!
