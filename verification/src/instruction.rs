//! The instruction set: one small value object per opcode, parsed from its
//! 4-byte encoding.
//!
//! Every instruction word is 4 bytes: byte 0 selects the opcode, bytes 1-3
//! hold register addresses, immediates or a 16-bit signed offset, little
//! endian throughout. Each instruction has a `step` spec function giving
//! its exact transition on the machine view, and an `execute` method
//! proved to implement it. The [`Effect`] it returns tells the control
//! loop whether to add 4 to `IP` afterward; instructions that already
//! redirected `IP` hold it, and input instructions with a dry buffer pause
//! the machine instead.

use vstd::prelude::*;

use crate::controller::{Controller, MachV};
use crate::numeral::{dec_repr, parse_u32_spec, u32_to_decimal};
use crate::state::{pop_spec, push_spec, reg_val, set_reg, spec_register_of, Register};
use crate::words::{
    jump_dest, lemma_with_word_len, lemma_word_frame, lemma_word_roundtrip, lemma_wrap_add_eq,
    lemma_wrap_mul_eq, lemma_wrap_sub_eq, offset16, read_offset16, read_word16, word16, wrap_add,
    wrap_mul, wrap_sub,
};
use crate::Fault;

verus! {

broadcast use lemma_with_word_len, lemma_word_roundtrip, lemma_word_frame;

/// What the control loop does after an instruction ran: advance `IP` by
/// one word, hold the `IP` the instruction set, or pause until the caller
/// supplies a line of input.
#[derive(Clone, Copy, Debug, PartialEq, Eq, Structural)]
pub enum Effect {
    /// The instruction did not redirect `IP`: add 4 to it.
    Advance,
    /// The instruction already redirected `IP` (or halted): leave it.
    Hold,
    /// An input opcode found the buffer dry and nothing supplied yet: the
    /// machine is unchanged but for the paused flag, and the same
    /// instruction runs again once a line arrives.
    AwaitInput,
}

/// Sums the numbers in two registers into a third, with wraparound on
/// overflow and no overflow signal.
///
/// Encoding: opcode, then the addresses of `first_register`,
/// `second_register` and `third_register`; the result is stored in
/// `third_register`.
#[derive(Clone, Copy, Debug, PartialEq, Eq, Structural)]
pub struct AddInstruction {
    /// Register holding the left operand.
    pub first_register: Register,
    /// Register holding the right operand.
    pub second_register: Register,
    /// Register receiving the result.
    pub third_register: Register,
}

impl AddInstruction {
    /// Parses the three register operands of the 4-byte encoding.
    pub fn new(code: &[u8]) -> (r: Self)
        requires
            code@.len() == 4,
            Register::spec_is_register_addr(code@[1] as u32),
            Register::spec_is_register_addr(code@[2] as u32),
            Register::spec_is_register_addr(code@[3] as u32),
        ensures
            r == (AddInstruction {
                first_register: spec_register_of(code@[1] as u32),
                second_register: spec_register_of(code@[2] as u32),
                third_register: spec_register_of(code@[3] as u32),
            }),
    {
        AddInstruction {
            first_register: Register::from_addr(code[1] as u32),
            second_register: Register::from_addr(code[2] as u32),
            third_register: Register::from_addr(code[3] as u32),
        }
    }

    /// The transition: the third register receives `(a + b) mod 2^32`;
    /// the instruction never faults and the loop advances.
    pub open spec fn step(self, v: MachV) -> (MachV, Result<Effect, Fault>) {
        (
            v.with_mem(
                set_reg(
                    v.mem,
                    self.third_register,
                    wrap_add(
                        reg_val(v.mem, self.first_register),
                        reg_val(v.mem, self.second_register),
                    ),
                ),
            ),
            Ok(Effect::Advance),
        )
    }

    /// Runs the instruction, exactly as [`Self::step`] says.
    pub fn execute(&self, controller: &mut Controller) -> (r: Result<Effect, Fault>)
        requires
            old(controller).wf(),
        ensures
            final(controller).wf(),
            final(controller)@ == self.step(old(controller)@).0,
            r == self.step(old(controller)@).1,
    {
        let state = controller.mut_state();
        let first_value = state.register_value(self.first_register);
        let second_value = state.register_value(self.second_register);
        let result = first_value.wrapping_add(second_value);
        proof {
            lemma_wrap_add_eq(first_value, second_value);
        }
        state.set_register_value(self.third_register, result);
        Ok(Effect::Advance)
    }
}

/// Subtracts the numbers in two registers into a third, with wraparound.
///
/// Encoding: opcode, then the addresses of `first_register`,
/// `second_register` and `third_register`; the result is stored in
/// `third_register`.
#[derive(Clone, Copy, Debug, PartialEq, Eq, Structural)]
pub struct SubInstruction {
    /// Register holding the left operand.
    pub first_register: Register,
    /// Register holding the right operand.
    pub second_register: Register,
    /// Register receiving the result.
    pub third_register: Register,
}

impl SubInstruction {
    /// Parses the three register operands of the 4-byte encoding.
    pub fn new(code: &[u8]) -> (r: Self)
        requires
            code@.len() == 4,
            Register::spec_is_register_addr(code@[1] as u32),
            Register::spec_is_register_addr(code@[2] as u32),
            Register::spec_is_register_addr(code@[3] as u32),
        ensures
            r == (SubInstruction {
                first_register: spec_register_of(code@[1] as u32),
                second_register: spec_register_of(code@[2] as u32),
                third_register: spec_register_of(code@[3] as u32),
            }),
    {
        SubInstruction {
            first_register: Register::from_addr(code[1] as u32),
            second_register: Register::from_addr(code[2] as u32),
            third_register: Register::from_addr(code[3] as u32),
        }
    }

    /// The transition: the third register receives `(a - b) mod 2^32`;
    /// the instruction never faults and the loop advances.
    pub open spec fn step(self, v: MachV) -> (MachV, Result<Effect, Fault>) {
        (
            v.with_mem(
                set_reg(
                    v.mem,
                    self.third_register,
                    wrap_sub(
                        reg_val(v.mem, self.first_register),
                        reg_val(v.mem, self.second_register),
                    ),
                ),
            ),
            Ok(Effect::Advance),
        )
    }

    /// Runs the instruction, exactly as [`Self::step`] says.
    pub fn execute(&self, controller: &mut Controller) -> (r: Result<Effect, Fault>)
        requires
            old(controller).wf(),
        ensures
            final(controller).wf(),
            final(controller)@ == self.step(old(controller)@).0,
            r == self.step(old(controller)@).1,
    {
        let state = controller.mut_state();
        let first_value = state.register_value(self.first_register);
        let second_value = state.register_value(self.second_register);
        let result = first_value.wrapping_sub(second_value);
        proof {
            lemma_wrap_sub_eq(first_value, second_value);
        }
        state.set_register_value(self.third_register, result);
        Ok(Effect::Advance)
    }
}

/// Multiplies the numbers in two registers into a third, with wraparound.
///
/// Encoding: opcode, then the addresses of `first_register`,
/// `second_register` and `third_register`; the result is stored in
/// `third_register`.
#[derive(Clone, Copy, Debug, PartialEq, Eq, Structural)]
pub struct MulInstruction {
    /// Register holding the left operand.
    pub first_register: Register,
    /// Register holding the right operand.
    pub second_register: Register,
    /// Register receiving the result.
    pub third_register: Register,
}

impl MulInstruction {
    /// Parses the three register operands of the 4-byte encoding.
    pub fn new(code: &[u8]) -> (r: Self)
        requires
            code@.len() == 4,
            Register::spec_is_register_addr(code@[1] as u32),
            Register::spec_is_register_addr(code@[2] as u32),
            Register::spec_is_register_addr(code@[3] as u32),
        ensures
            r == (MulInstruction {
                first_register: spec_register_of(code@[1] as u32),
                second_register: spec_register_of(code@[2] as u32),
                third_register: spec_register_of(code@[3] as u32),
            }),
    {
        MulInstruction {
            first_register: Register::from_addr(code[1] as u32),
            second_register: Register::from_addr(code[2] as u32),
            third_register: Register::from_addr(code[3] as u32),
        }
    }

    /// The transition: the third register receives `(a * b) mod 2^32`;
    /// the instruction never faults and the loop advances.
    pub open spec fn step(self, v: MachV) -> (MachV, Result<Effect, Fault>) {
        (
            v.with_mem(
                set_reg(
                    v.mem,
                    self.third_register,
                    wrap_mul(
                        reg_val(v.mem, self.first_register),
                        reg_val(v.mem, self.second_register),
                    ),
                ),
            ),
            Ok(Effect::Advance),
        )
    }

    /// Runs the instruction, exactly as [`Self::step`] says.
    pub fn execute(&self, controller: &mut Controller) -> (r: Result<Effect, Fault>)
        requires
            old(controller).wf(),
        ensures
            final(controller).wf(),
            final(controller)@ == self.step(old(controller)@).0,
            r == self.step(old(controller)@).1,
    {
        let state = controller.mut_state();
        let first_value = state.register_value(self.first_register);
        let second_value = state.register_value(self.second_register);
        let result = first_value.wrapping_mul(second_value);
        proof {
            lemma_wrap_mul_eq(first_value, second_value);
        }
        state.set_register_value(self.third_register, result);
        Ok(Effect::Advance)
    }
}

/// Divides the numbers in two registers into a third; integer division,
/// truncating toward zero, with a fatal fault on a zero divisor.
///
/// Encoding: opcode, then the addresses of `first_register`,
/// `second_register` and `third_register`; the result is stored in
/// `third_register`.
#[derive(Clone, Copy, Debug, PartialEq, Eq, Structural)]
pub struct DivInstruction {
    /// Register holding the dividend.
    pub first_register: Register,
    /// Register holding the divisor.
    pub second_register: Register,
    /// Register receiving the quotient.
    pub third_register: Register,
}

impl DivInstruction {
    /// Parses the three register operands of the 4-byte encoding.
    pub fn new(code: &[u8]) -> (r: Self)
        requires
            code@.len() == 4,
            Register::spec_is_register_addr(code@[1] as u32),
            Register::spec_is_register_addr(code@[2] as u32),
            Register::spec_is_register_addr(code@[3] as u32),
        ensures
            r == (DivInstruction {
                first_register: spec_register_of(code@[1] as u32),
                second_register: spec_register_of(code@[2] as u32),
                third_register: spec_register_of(code@[3] as u32),
            }),
    {
        DivInstruction {
            first_register: Register::from_addr(code[1] as u32),
            second_register: Register::from_addr(code[2] as u32),
            third_register: Register::from_addr(code[3] as u32),
        }
    }

    /// The transition: a zero divisor faults with the machine unchanged
    /// (in particular the destination register is never written);
    /// otherwise the third register receives the integer quotient.
    pub open spec fn step(self, v: MachV) -> (MachV, Result<Effect, Fault>) {
        if reg_val(v.mem, self.second_register) == 0 {
            (v, Err(Fault::DivisionByZero))
        } else {
            (
                v.with_mem(
                    set_reg(
                        v.mem,
                        self.third_register,
                        reg_val(v.mem, self.first_register) / reg_val(
                            v.mem,
                            self.second_register,
                        ),
                    ),
                ),
                Ok(Effect::Advance),
            )
        }
    }

    /// Runs the instruction, exactly as [`Self::step`] says.
    pub fn execute(&self, controller: &mut Controller) -> (r: Result<Effect, Fault>)
        requires
            old(controller).wf(),
        ensures
            final(controller).wf(),
            final(controller)@ == self.step(old(controller)@).0,
            r == self.step(old(controller)@).1,
    {
        let state = controller.mut_state();
        let first_value = state.register_value(self.first_register);
        let second_value = state.register_value(self.second_register);
        if second_value == 0 {
            return Err(Fault::DivisionByZero);
        }
        let result = first_value / second_value;
        state.set_register_value(self.third_register, result);
        Ok(Effect::Advance)
    }
}

/// Moves `IP` by a signed offset; the loop does not advance afterward, so
/// the next fetch happens exactly at the destination.
///
/// Encoding: opcode, then the offset in bytes 1-2 as little-endian signed
/// 16 bits; byte 3 is unused.
#[derive(Clone, Copy, Debug, PartialEq, Eq, Structural)]
pub struct JumpInstruction {
    /// The signed offset added to `IP`.
    pub offset: i16,
}

impl JumpInstruction {
    /// Parses the 16-bit signed offset of the 4-byte encoding.
    pub fn new(code: &[u8]) -> (r: Self)
        requires
            code@.len() == 4,
        ensures
            r == (JumpInstruction { offset: offset16(code@[1], code@[2]) }),
    {
        JumpInstruction { offset: read_offset16(code[1], code[2]) }
    }

    /// The transition: `IP` becomes `IP + offset`, as signed 32-bit
    /// arithmetic against the unsigned pointer; never faults, never
    /// advances.
    pub open spec fn step(self, v: MachV) -> (MachV, Result<Effect, Fault>) {
        (
            v.with_mem(
                set_reg(
                    v.mem,
                    Register::IP,
                    jump_dest(reg_val(v.mem, Register::IP), self.offset),
                ),
            ),
            Ok(Effect::Hold),
        )
    }

    /// Runs the instruction, exactly as [`Self::step`] says.
    pub fn execute(&self, controller: &mut Controller) -> (r: Result<Effect, Fault>)
        requires
            old(controller).wf(),
        ensures
            final(controller).wf(),
            final(controller)@ == self.step(old(controller)@).0,
            r == self.step(old(controller)@).1,
    {
        controller.jump(self.offset);
        Ok(Effect::Hold)
    }
}

/// Halts the machine: sets the `END` register to 1, which stops the
/// control loop; the loop does not advance `IP` afterward.
///
/// Encoding: opcode only; bytes 1-3 are unused.
#[derive(Clone, Copy, Debug, PartialEq, Eq, Structural)]
pub struct FinishInstruction;

impl FinishInstruction {
    /// Ignores the operand bytes of the 4-byte encoding.
    pub fn new(code: &[u8]) -> (r: Self)
        requires
            code@.len() == 4,
        ensures
            r == FinishInstruction,
    {
        let _ = code;
        FinishInstruction {  }
    }

    /// The transition: `END` becomes 1; never faults, never advances.
    pub open spec fn step(self, v: MachV) -> (MachV, Result<Effect, Fault>) {
        (v.with_mem(set_reg(v.mem, Register::END, 1)), Ok(Effect::Hold))
    }

    /// Runs the instruction, exactly as [`Self::step`] says.
    pub fn execute(&self, controller: &mut Controller) -> (r: Result<Effect, Fault>)
        requires
            old(controller).wf(),
        ensures
            final(controller).wf(),
            final(controller)@ == self.step(old(controller)@).0,
            r == self.step(old(controller)@).1,
    {
        controller.mut_state().set_register_value(Register::END, 1);
        Ok(Effect::Hold)
    }
}

/// Compares two registers for equality: `CMP` receives 1 when the values
/// are equal, else 0.
///
/// Encoding: opcode, then the addresses of `left` and `right`; byte 3 is
/// unused.
#[derive(Clone, Copy, Debug, PartialEq, Eq, Structural)]
pub struct EqualInstruction {
    /// Register holding the left value.
    pub left: Register,
    /// Register holding the right value.
    pub right: Register,
}

impl EqualInstruction {
    /// Parses the two register operands of the 4-byte encoding.
    pub fn new(code: &[u8]) -> (r: Self)
        requires
            code@.len() == 4,
            Register::spec_is_register_addr(code@[1] as u32),
            Register::spec_is_register_addr(code@[2] as u32),
        ensures
            r == (EqualInstruction {
                left: spec_register_of(code@[1] as u32),
                right: spec_register_of(code@[2] as u32),
            }),
    {
        EqualInstruction {
            left: Register::from_addr(code[1] as u32),
            right: Register::from_addr(code[2] as u32),
        }
    }

    /// The transition: `CMP` becomes 1 when the two values are equal,
    /// else 0; never faults, advances.
    pub open spec fn step(self, v: MachV) -> (MachV, Result<Effect, Fault>) {
        (
            v.with_mem(
                set_reg(
                    v.mem,
                    Register::CMP,
                    if reg_val(v.mem, self.left) == reg_val(v.mem, self.right) {
                        1
                    } else {
                        0
                    },
                ),
            ),
            Ok(Effect::Advance),
        )
    }

    /// Runs the instruction, exactly as [`Self::step`] says.
    pub fn execute(&self, controller: &mut Controller) -> (r: Result<Effect, Fault>)
        requires
            old(controller).wf(),
        ensures
            final(controller).wf(),
            final(controller)@ == self.step(old(controller)@).0,
            r == self.step(old(controller)@).1,
    {
        let left_value = controller.state().register_value(self.left);
        let right_value = controller.state().register_value(self.right);
        let flag: u32 = if left_value == right_value {
            1
        } else {
            0
        };
        controller.mut_state().set_register_value(Register::CMP, flag);
        Ok(Effect::Advance)
    }
}

/// Compares two registers as unsigned values: `CMP` receives 1 when the
/// left is strictly below the right, else 0.
///
/// Encoding: opcode, then the addresses of `left` and `right`; byte 3 is
/// unused.
#[derive(Clone, Copy, Debug, PartialEq, Eq, Structural)]
pub struct LessInstruction {
    /// Register holding the left value.
    pub left: Register,
    /// Register holding the right value.
    pub right: Register,
}

impl LessInstruction {
    /// Parses the two register operands of the 4-byte encoding.
    pub fn new(code: &[u8]) -> (r: Self)
        requires
            code@.len() == 4,
            Register::spec_is_register_addr(code@[1] as u32),
            Register::spec_is_register_addr(code@[2] as u32),
        ensures
            r == (LessInstruction {
                left: spec_register_of(code@[1] as u32),
                right: spec_register_of(code@[2] as u32),
            }),
    {
        LessInstruction {
            left: Register::from_addr(code[1] as u32),
            right: Register::from_addr(code[2] as u32),
        }
    }

    /// The transition: `CMP` becomes 1 when left < right as unsigned
    /// 32-bit values, else 0; never faults, advances.
    pub open spec fn step(self, v: MachV) -> (MachV, Result<Effect, Fault>) {
        (
            v.with_mem(
                set_reg(
                    v.mem,
                    Register::CMP,
                    if reg_val(v.mem, self.left) < reg_val(v.mem, self.right) {
                        1
                    } else {
                        0
                    },
                ),
            ),
            Ok(Effect::Advance),
        )
    }

    /// Runs the instruction, exactly as [`Self::step`] says.
    pub fn execute(&self, controller: &mut Controller) -> (r: Result<Effect, Fault>)
        requires
            old(controller).wf(),
        ensures
            final(controller).wf(),
            final(controller)@ == self.step(old(controller)@).0,
            r == self.step(old(controller)@).1,
    {
        let left_value = controller.state().register_value(self.left);
        let right_value = controller.state().register_value(self.right);
        let flag: u32 = if left_value < right_value {
            1
        } else {
            0
        };
        controller.mut_state().set_register_value(Register::CMP, flag);
        Ok(Effect::Advance)
    }
}

/// Compares two registers as unsigned values: `CMP` receives 1 when the
/// left is below or equal to the right, else 0.
///
/// Encoding: opcode, then the addresses of `left` and `right`; byte 3 is
/// unused.
#[derive(Clone, Copy, Debug, PartialEq, Eq, Structural)]
pub struct LessEqualInstruction {
    /// Register holding the left value.
    pub left: Register,
    /// Register holding the right value.
    pub right: Register,
}

impl LessEqualInstruction {
    /// Parses the two register operands of the 4-byte encoding.
    pub fn new(code: &[u8]) -> (r: Self)
        requires
            code@.len() == 4,
            Register::spec_is_register_addr(code@[1] as u32),
            Register::spec_is_register_addr(code@[2] as u32),
        ensures
            r == (LessEqualInstruction {
                left: spec_register_of(code@[1] as u32),
                right: spec_register_of(code@[2] as u32),
            }),
    {
        LessEqualInstruction {
            left: Register::from_addr(code[1] as u32),
            right: Register::from_addr(code[2] as u32),
        }
    }

    /// The transition: `CMP` becomes 1 when left <= right as unsigned
    /// 32-bit values, else 0; never faults, advances.
    pub open spec fn step(self, v: MachV) -> (MachV, Result<Effect, Fault>) {
        (
            v.with_mem(
                set_reg(
                    v.mem,
                    Register::CMP,
                    if reg_val(v.mem, self.left) <= reg_val(v.mem, self.right) {
                        1
                    } else {
                        0
                    },
                ),
            ),
            Ok(Effect::Advance),
        )
    }

    /// Runs the instruction, exactly as [`Self::step`] says.
    pub fn execute(&self, controller: &mut Controller) -> (r: Result<Effect, Fault>)
        requires
            old(controller).wf(),
        ensures
            final(controller).wf(),
            final(controller)@ == self.step(old(controller)@).0,
            r == self.step(old(controller)@).1,
    {
        let left_value = controller.state().register_value(self.left);
        let right_value = controller.state().register_value(self.right);
        let flag: u32 = if left_value <= right_value {
            1
        } else {
            0
        };
        controller.mut_state().set_register_value(Register::CMP, flag);
        Ok(Effect::Advance)
    }
}

/// Loads a 16-bit immediate, zero-extended to 32 bits, into a register.
///
/// Encoding: opcode, the register address, then the immediate in bytes
/// 2-3 as little-endian unsigned 16 bits.
#[derive(Clone, Copy, Debug, PartialEq, Eq, Structural)]
pub struct LoadAbsoluteInstruction {
    /// Register receiving the immediate.
    pub register: Register,
    /// The immediate, already zero-extended.
    pub value: u32,
}

impl LoadAbsoluteInstruction {
    /// Parses the register operand and the 16-bit immediate of the 4-byte
    /// encoding.
    pub fn new(code: &[u8]) -> (r: Self)
        requires
            code@.len() == 4,
            Register::spec_is_register_addr(code@[1] as u32),
        ensures
            r == (LoadAbsoluteInstruction {
                register: spec_register_of(code@[1] as u32),
                value: word16(code@[2], code@[3]) as u32,
            }),
    {
        LoadAbsoluteInstruction {
            register: Register::from_addr(code[1] as u32),
            value: read_word16(code[2], code[3]) as u32,
        }
    }

    /// The transition: the register receives the immediate; never faults,
    /// advances.
    pub open spec fn step(self, v: MachV) -> (MachV, Result<Effect, Fault>) {
        (v.with_mem(set_reg(v.mem, self.register, self.value)), Ok(Effect::Advance))
    }

    /// Runs the instruction, exactly as [`Self::step`] says.
    pub fn execute(&self, controller: &mut Controller) -> (r: Result<Effect, Fault>)
        requires
            old(controller).wf(),
        ensures
            final(controller).wf(),
            final(controller)@ == self.step(old(controller)@).0,
            r == self.step(old(controller)@).1,
    {
        controller.mut_state().set_register_value(self.register, self.value);
        Ok(Effect::Advance)
    }
}

/// Does nothing; useful as a label placeholder.
///
/// Encoding: opcode only; bytes 1-3 are unused.
#[derive(Clone, Copy, Debug, PartialEq, Eq, Structural)]
pub struct SkipInstruction {}

impl SkipInstruction {
    /// Ignores the operand bytes of the 4-byte encoding.
    pub fn new(code: &[u8]) -> (r: Self)
        requires
            code@.len() == 4,
        ensures
            r == (SkipInstruction {  }),
    {
        let _ = code;
        SkipInstruction {  }
    }

    /// The transition: nothing changes; never faults, advances.
    pub open spec fn step(self, v: MachV) -> (MachV, Result<Effect, Fault>) {
        (v, Ok(Effect::Advance))
    }

    /// Runs the instruction, exactly as [`Self::step`] says.
    pub fn execute(&self, controller: &mut Controller) -> (r: Result<Effect, Fault>)
        requires
            old(controller).wf(),
        ensures
            final(controller).wf(),
            final(controller)@ == self.step(old(controller)@).0,
            r == self.step(old(controller)@).1,
    {
        let _ = controller;
        Ok(Effect::Advance)
    }
}

/// Copies the value of one register into another.
///
/// Encoding: opcode, then the addresses of the source `first_register`
/// and the destination `second_register`; byte 3 is unused.
#[derive(Clone, Copy, Debug, PartialEq, Eq, Structural)]
pub struct MoveInstruction {
    /// Source register.
    pub first_register: Register,
    /// Destination register.
    pub second_register: Register,
}

impl MoveInstruction {
    /// Parses the two register operands of the 4-byte encoding.
    pub fn new(code: &[u8]) -> (r: Self)
        requires
            code@.len() == 4,
            Register::spec_is_register_addr(code@[1] as u32),
            Register::spec_is_register_addr(code@[2] as u32),
        ensures
            r == (MoveInstruction {
                first_register: spec_register_of(code@[1] as u32),
                second_register: spec_register_of(code@[2] as u32),
            }),
    {
        MoveInstruction {
            first_register: Register::from_addr(code[1] as u32),
            second_register: Register::from_addr(code[2] as u32),
        }
    }

    /// The transition: the destination receives the source's value; never
    /// faults, advances.
    pub open spec fn step(self, v: MachV) -> (MachV, Result<Effect, Fault>) {
        (
            v.with_mem(
                set_reg(v.mem, self.second_register, reg_val(v.mem, self.first_register)),
            ),
            Ok(Effect::Advance),
        )
    }

    /// Runs the instruction, exactly as [`Self::step`] says.
    pub fn execute(&self, controller: &mut Controller) -> (r: Result<Effect, Fault>)
        requires
            old(controller).wf(),
        ensures
            final(controller).wf(),
            final(controller)@ == self.step(old(controller)@).0,
            r == self.step(old(controller)@).1,
    {
        let value = controller.state().register_value(self.first_register);
        controller.mut_state().set_register_value(self.second_register, value);
        Ok(Effect::Advance)
    }
}

/// Moves `IP` by a signed offset when the `CMP` flag is non-zero;
/// otherwise the loop advances normally.
///
/// Encoding: opcode, then the offset in bytes 1-2 as little-endian signed
/// 16 bits; byte 3 is unused.
#[derive(Clone, Copy, Debug, PartialEq, Eq, Structural)]
pub struct JumpCompareInstruction {
    /// The signed offset added to `IP` when the jump fires.
    pub offset: i16,
}

impl JumpCompareInstruction {
    /// Parses the 16-bit signed offset of the 4-byte encoding.
    pub fn new(code: &[u8]) -> (r: Self)
        requires
            code@.len() == 4,
        ensures
            r == (JumpCompareInstruction { offset: offset16(code@[1], code@[2]) }),
    {
        JumpCompareInstruction { offset: read_offset16(code[1], code[2]) }
    }

    /// The transition: with `CMP` zero nothing changes and the loop
    /// advances; otherwise `IP` moves by the offset and the loop holds.
    pub open spec fn step(self, v: MachV) -> (MachV, Result<Effect, Fault>) {
        if reg_val(v.mem, Register::CMP) == 0 {
            (v, Ok(Effect::Advance))
        } else {
            (
                v.with_mem(
                    set_reg(
                        v.mem,
                        Register::IP,
                        jump_dest(reg_val(v.mem, Register::IP), self.offset),
                    ),
                ),
                Ok(Effect::Hold),
            )
        }
    }

    /// Runs the instruction, exactly as [`Self::step`] says.
    pub fn execute(&self, controller: &mut Controller) -> (r: Result<Effect, Fault>)
        requires
            old(controller).wf(),
        ensures
            final(controller).wf(),
            final(controller)@ == self.step(old(controller)@).0,
            r == self.step(old(controller)@).1,
    {
        if controller.state().register_value(Register::CMP) == 0 {
            return Ok(Effect::Advance);
        }
        controller.jump(self.offset);
        Ok(Effect::Hold)
    }
}

/// Moves `IP` by a signed offset when the `CMP` flag is zero; otherwise
/// the loop advances normally.
///
/// Encoding: opcode, then the offset in bytes 1-2 as little-endian signed
/// 16 bits; byte 3 is unused.
#[derive(Clone, Copy, Debug, PartialEq, Eq, Structural)]
pub struct JumpNotCompareInstruction {
    /// The signed offset added to `IP` when the jump fires.
    pub offset: i16,
}

impl JumpNotCompareInstruction {
    /// Parses the 16-bit signed offset of the 4-byte encoding.
    pub fn new(code: &[u8]) -> (r: Self)
        requires
            code@.len() == 4,
        ensures
            r == (JumpNotCompareInstruction { offset: offset16(code@[1], code@[2]) }),
    {
        JumpNotCompareInstruction { offset: read_offset16(code[1], code[2]) }
    }

    /// The transition: with `CMP` non-zero nothing changes and the loop
    /// advances; otherwise `IP` moves by the offset and the loop holds.
    pub open spec fn step(self, v: MachV) -> (MachV, Result<Effect, Fault>) {
        if reg_val(v.mem, Register::CMP) != 0 {
            (v, Ok(Effect::Advance))
        } else {
            (
                v.with_mem(
                    set_reg(
                        v.mem,
                        Register::IP,
                        jump_dest(reg_val(v.mem, Register::IP), self.offset),
                    ),
                ),
                Ok(Effect::Hold),
            )
        }
    }

    /// Runs the instruction, exactly as [`Self::step`] says.
    pub fn execute(&self, controller: &mut Controller) -> (r: Result<Effect, Fault>)
        requires
            old(controller).wf(),
        ensures
            final(controller).wf(),
            final(controller)@ == self.step(old(controller)@).0,
            r == self.step(old(controller)@).1,
    {
        if controller.state().register_value(Register::CMP) != 0 {
            return Ok(Effect::Advance);
        }
        controller.jump(self.offset);
        Ok(Effect::Hold)
    }
}

/// Arithmetic wraparound, the sum: for all 32-bit operand values, `ADD`
/// leaves `(a + b) mod 2^32` in its destination register and never
/// faults.
pub proof fn lemma_add_wraparound(i: AddInstruction, v: MachV)
    requires
        v.wf(),
    ensures
        i.step(v).1 == Ok::<Effect, Fault>(Effect::Advance),
        reg_val(i.step(v).0.mem, i.third_register) == (reg_val(v.mem, i.first_register)
            + reg_val(v.mem, i.second_register)) % 0x1_0000_0000,
{
}

/// Arithmetic wraparound, the difference: for all 32-bit operand values,
/// `SUB` leaves `(a - b) mod 2^32` in its destination register and never
/// faults.
pub proof fn lemma_sub_wraparound(i: SubInstruction, v: MachV)
    requires
        v.wf(),
    ensures
        i.step(v).1 == Ok::<Effect, Fault>(Effect::Advance),
        reg_val(i.step(v).0.mem, i.third_register) == (reg_val(v.mem, i.first_register)
            - reg_val(v.mem, i.second_register) + 0x1_0000_0000) % 0x1_0000_0000,
{
}

/// Arithmetic wraparound, the product: for all 32-bit operand values,
/// `MUL` leaves `(a * b) mod 2^32` in its destination register and never
/// faults.
pub proof fn lemma_mul_wraparound(i: MulInstruction, v: MachV)
    requires
        v.wf(),
    ensures
        i.step(v).1 == Ok::<Effect, Fault>(Effect::Advance),
        reg_val(i.step(v).0.mem, i.third_register) == (reg_val(v.mem, i.first_register)
            * reg_val(v.mem, i.second_register)) % 0x1_0000_0000,
{
}

/// Division fault: `DIV` with a zero divisor always faults, and a
/// faulting division leaves the whole machine — the destination register
/// included — unchanged.
pub proof fn lemma_division_fault(i: DivInstruction, v: MachV)
    requires
        reg_val(v.mem, i.second_register) == 0,
    ensures
        i.step(v).1 == Err::<Effect, Fault>(Fault::DivisionByZero),
        i.step(v).0 == v,
{
}

/// Whether `v` is a Unicode scalar value, the code points a character can
/// hold: below the surrogate range, or between it and the last code
/// point.
pub open spec fn is_scalar_value(v: u32) -> bool {
    v < 0xD800 || (0xE000 <= v && v <= 0x10FFFF)
}

/// Relies on `char::from_u32`: it returns `Some` exactly on Unicode
/// scalar values, and the returned character has the given code point.
#[verifier::external_body]
fn char_from_u32(v: u32) -> (r: Option<char>)
    ensures
        match r {
            Some(c) => c == v as char && is_scalar_value(v),
            None => !is_scalar_value(v),
        },
{
    char::from_u32(v)
}

/// The NUL-terminated string stored in `m` from address `a` on, one
/// character per byte, or `None` when memory ends before a NUL byte.
pub open spec fn cstr_at(m: Seq<u8>, a: int) -> Option<Seq<char>>
    decreases m.len() - a,
    when 0 <= a
{
    if a >= m.len() {
        None
    } else if m[a] == 0 {
        Some(Seq::empty())
    } else {
        match cstr_at(m, a + 1) {
            Some(s) => Some(seq![m[a] as char] + s),
            None => None,
        }
    }
}

/// The bytes of `m` in `[a, b)`, one character each.
pub open spec fn bytes_chars(m: Seq<u8>, a: int, b: int) -> Seq<char> {
    Seq::new(
        if a <= b {
            (b - a) as nat
        } else {
            0
        },
        |i: int| m[a + i] as char,
    )
}

/// With no NUL byte between `a` and the end of memory, there is no string
/// at `a`.
proof fn lemma_cstr_none(m: Seq<u8>, a: int)
    requires
        0 <= a,
        forall|k: int| a <= k < m.len() ==> m[k] != 0,
    ensures
        cstr_at(m, a) is None,
    decreases m.len() - a,
{
    if a < m.len() {
        lemma_cstr_none(m, a + 1);
    }
}

/// With the first NUL byte at `b`, the string at `a` is exactly the bytes
/// before it.
proof fn lemma_cstr_some(m: Seq<u8>, a: int, b: int)
    requires
        0 <= a <= b < m.len(),
        m[b] == 0,
        forall|k: int| a <= k < b ==> m[k] != 0,
    ensures
        cstr_at(m, a) == Some(bytes_chars(m, a, b)),
    decreases b - a,
{
    if a == b {
        assert(bytes_chars(m, a, b) =~= Seq::<char>::empty());
    } else {
        lemma_cstr_some(m, a + 1, b);
        assert(bytes_chars(m, a, b) =~= seq![m[a] as char] + bytes_chars(m, a + 1, b));
    }
}

/// Prints the NUL-terminated byte string found at the address held in a
/// register, one character per byte. Memory ending before a NUL is an
/// out-of-bounds fault, with the characters before it already printed.
///
/// Encoding: opcode, then the register address; bytes 2-3 are unused.
#[derive(Clone, Copy, Debug, PartialEq, Eq, Structural)]
pub struct OutInstruction {
    /// Register holding the string's address.
    pub register: Register,
}

impl OutInstruction {
    /// Parses the register operand of the 4-byte encoding.
    pub fn new(code: &[u8]) -> (r: Self)
        requires
            code@.len() == 4,
            Register::spec_is_register_addr(code@[1] as u32),
        ensures
            r == (OutInstruction { register: spec_register_of(code@[1] as u32) }),
    {
        OutInstruction { register: Register::from_addr(code[1] as u32) }
    }

    /// The transition: the string at the addressed bytes is appended to
    /// the output; if memory ends first, every byte up to the end is
    /// printed and the first address past the string faults.
    pub open spec fn step(self, v: MachV) -> (MachV, Result<Effect, Fault>) {
        let addr = reg_val(v.mem, self.register);
        match cstr_at(v.mem, addr as int) {
            Some(s) => (v.with_outbuf(v.outbuf + s), Ok(Effect::Advance)),
            None => (
                v.with_outbuf(v.outbuf + bytes_chars(v.mem, addr as int, v.mem.len() as int)),
                Err(
                    Fault::OutOfBounds(
                        if addr as int >= v.mem.len() {
                            addr
                        } else {
                            v.mem.len() as u32
                        },
                    ),
                ),
            ),
        }
    }

    /// Runs the instruction, exactly as [`Self::step`] says.
    pub fn execute(&self, controller: &mut Controller) -> (r: Result<Effect, Fault>)
        requires
            old(controller).wf(),
        ensures
            final(controller).wf(),
            final(controller)@ == self.step(old(controller)@).0,
            r == self.step(old(controller)@).1,
    {
        let addr0 = controller.state().register_value(self.register);
        let ghost v0 = controller@;
        let mut address = addr0;
        loop
            invariant
                old(controller)@ == v0,
                reg_val(v0.mem, self.register) == addr0,
                controller.wf(),
                controller@.mem == v0.mem,
                controller@.inbuf == v0.inbuf,
                controller@.awaiting == v0.awaiting,
                controller@.init_ip == v0.init_ip,
                controller@.outbuf == v0.outbuf + bytes_chars(v0.mem, addr0 as int, address as int),
                addr0 <= address,
                address == addr0 || address as int <= v0.mem.len(),
                forall|k: int| addr0 <= k < address ==> v0.mem[k] != 0,
            decreases v0.mem.len() - address,
        {
            let mem_len = controller.state().get_memory_handler().len();
            if (address as u64) >= (mem_len as u64) {
                proof {
                    lemma_cstr_none(v0.mem, addr0 as int);
                    assert(bytes_chars(v0.mem, addr0 as int, address as int) =~= bytes_chars(
                        v0.mem,
                        addr0 as int,
                        v0.mem.len() as int,
                    ));
                }
                return Err(Fault::OutOfBounds(address));
            }
            let byte = controller.state().get_memory_handler().read_byte(address);
            if byte == 0 {
                proof {
                    lemma_cstr_some(v0.mem, addr0 as int, address as int);
                }
                return Ok(Effect::Advance);
            }
            controller.mut_display().print(byte as char);
            proof {
                assert(bytes_chars(v0.mem, addr0 as int, address + 1) =~= bytes_chars(
                    v0.mem,
                    addr0 as int,
                    address as int,
                ).push(v0.mem[address as int] as char));
            }
            address = address + 1;
        }
    }
}

/// Prints the single character whose code point is a register's value; a
/// value that is no Unicode scalar value faults.
///
/// Encoding: opcode, then the register address; bytes 2-3 are unused.
#[derive(Clone, Copy, Debug, PartialEq, Eq, Structural)]
pub struct OutFromRegisterInstruction {
    /// Register holding the code point.
    pub register: Register,
}

impl OutFromRegisterInstruction {
    /// Parses the register operand of the 4-byte encoding.
    pub fn new(code: &[u8]) -> (r: Self)
        requires
            code@.len() == 4,
            Register::spec_is_register_addr(code@[1] as u32),
        ensures
            r == (OutFromRegisterInstruction { register: spec_register_of(code@[1] as u32) }),
    {
        OutFromRegisterInstruction { register: Register::from_addr(code[1] as u32) }
    }

    /// The transition: the character with the register's code point is
    /// appended to the output; a non-scalar value faults unchanged.
    pub open spec fn step(self, v: MachV) -> (MachV, Result<Effect, Fault>) {
        let val = reg_val(v.mem, self.register);
        if is_scalar_value(val) {
            (v.with_outbuf(v.outbuf.push(val as char)), Ok(Effect::Advance))
        } else {
            (v, Err(Fault::InvalidCodePoint(val)))
        }
    }

    /// Runs the instruction, exactly as [`Self::step`] says.
    pub fn execute(&self, controller: &mut Controller) -> (r: Result<Effect, Fault>)
        requires
            old(controller).wf(),
        ensures
            final(controller).wf(),
            final(controller)@ == self.step(old(controller)@).0,
            r == self.step(old(controller)@).1,
    {
        let val = controller.state().register_value(self.register);
        match char_from_u32(val) {
            Some(c) => {
                controller.mut_display().print(c);
                Ok(Effect::Advance)
            },
            None => Err(Fault::InvalidCodePoint(val)),
        }
    }
}

/// Prints the decimal digits of a register's unsigned value.
///
/// Encoding: opcode, then the register address; bytes 2-3 are unused.
#[derive(Clone, Copy, Debug, PartialEq, Eq, Structural)]
pub struct OutNumberInstruction {
    /// Register holding the number to print.
    pub register: Register,
}

impl OutNumberInstruction {
    /// Parses the register operand of the 4-byte encoding.
    pub fn new(code: &[u8]) -> (r: Self)
        requires
            code@.len() == 4,
            Register::spec_is_register_addr(code@[1] as u32),
        ensures
            r == (OutNumberInstruction { register: spec_register_of(code@[1] as u32) }),
    {
        OutNumberInstruction { register: Register::from_addr(code[1] as u32) }
    }

    /// The transition: the decimal representation of the register's value
    /// is appended to the output; never faults, advances.
    pub open spec fn step(self, v: MachV) -> (MachV, Result<Effect, Fault>) {
        (
            v.with_outbuf(v.outbuf + dec_repr(reg_val(v.mem, self.register) as nat)),
            Ok(Effect::Advance),
        )
    }

    /// Runs the instruction, exactly as [`Self::step`] says.
    pub fn execute(&self, controller: &mut Controller) -> (r: Result<Effect, Fault>)
        requires
            old(controller).wf(),
        ensures
            final(controller).wf(),
            final(controller)@ == self.step(old(controller)@).0,
            r == self.step(old(controller)@).1,
    {
        let number = controller.state().register_value(self.register);
        let digits = u32_to_decimal(number);
        let ghost v0 = controller@;
        let k = digits.len();
        let mut i: usize = 0;
        while i < k
            invariant
                0 <= i <= k,
                k == digits@.len(),
                controller.wf(),
                controller@.mem == v0.mem,
                controller@.inbuf == v0.inbuf,
                controller@.awaiting == v0.awaiting,
                controller@.init_ip == v0.init_ip,
                controller@.outbuf == v0.outbuf + digits@.take(i as int),
            decreases k - i,
        {
            controller.mut_display().print(digits[i]);
            proof {
                assert(digits@.take(i + 1) =~= digits@.take(i as int).push(digits@[i as int]));
            }
            i = i + 1;
        }
        proof {
            assert(digits@.take(k as int) =~= digits@);
        }
        Ok(Effect::Advance)
    }
}

/// Loads the single byte at `IP + offset`, zero-extended to 32 bits, into
/// a register. An effective address outside the non-negative signed
/// 32-bit range overflows; one past the end of memory is out of bounds.
///
/// Encoding: opcode, the register address, then the offset in bytes 2-3
/// as little-endian signed 16 bits.
#[derive(Clone, Copy, Debug, PartialEq, Eq, Structural)]
pub struct LoadInstruction {
    /// Register receiving the loaded byte.
    pub register: Register,
    /// The signed offset added to `IP`.
    pub offset: i16,
}

impl LoadInstruction {
    /// Parses the register operand and the 16-bit signed offset of the
    /// 4-byte encoding.
    pub fn new(code: &[u8]) -> (r: Self)
        requires
            code@.len() == 4,
            Register::spec_is_register_addr(code@[1] as u32),
        ensures
            r == (LoadInstruction {
                register: spec_register_of(code@[1] as u32),
                offset: offset16(code@[2], code@[3]),
            }),
    {
        LoadInstruction {
            register: Register::from_addr(code[1] as u32),
            offset: read_offset16(code[2], code[3]),
        }
    }

    /// The transition: with `IP` and `IP + offset` both inside the
    /// non-negative signed 32-bit range, the byte at `IP + offset` is
    /// zero-extended into the register; otherwise the address computation
    /// faults, and an address past the end of memory is out of bounds.
    pub open spec fn step(self, v: MachV) -> (MachV, Result<Effect, Fault>) {
        let ip = reg_val(v.mem, Register::IP);
        if ip > 0x7FFF_FFFF {
            (v, Err(Fault::AddressOverflow))
        } else {
            let e = ip + self.offset;
            if e < 0 || e > 0x7FFF_FFFF {
                (v, Err(Fault::AddressOverflow))
            } else if e >= v.mem.len() {
                (v, Err(Fault::OutOfBounds(e as u32)))
            } else {
                (v.with_mem(set_reg(v.mem, self.register, v.mem[e] as u32)), Ok(Effect::Advance))
            }
        }
    }

    /// Runs the instruction, exactly as [`Self::step`] says.
    pub fn execute(&self, controller: &mut Controller) -> (r: Result<Effect, Fault>)
        requires
            old(controller).wf(),
        ensures
            final(controller).wf(),
            final(controller)@ == self.step(old(controller)@).0,
            r == self.step(old(controller)@).1,
    {
        let ip_value = controller.state().register_value(Register::IP);
        if ip_value > 0x7FFF_FFFF {
            return Err(Fault::AddressOverflow);
        }
        let e: i64 = (ip_value as i64) + (self.offset as i64);
        if e < 0 || e > 0x7FFF_FFFF {
            return Err(Fault::AddressOverflow);
        }
        let address = e as u32;
        let mem_len = controller.state().get_memory_handler().len();
        if (address as u64) >= (mem_len as u64) {
            return Err(Fault::OutOfBounds(address));
        }
        let value = controller.state().get_memory_handler().read_byte(address) as u32;
        controller.mut_state().set_register_value(self.register, value);
        Ok(Effect::Advance)
    }
}

/// Reads one character from input into a register, as its code point.
/// With the buffer dry it pauses for a line; if the supplied line left the
/// buffer empty, input is exhausted and the machine faults.
///
/// Encoding: opcode, then the register address; bytes 2-3 are unused.
#[derive(Clone, Copy, Debug, PartialEq, Eq, Structural)]
pub struct InputInstruction {
    /// Register receiving the code point.
    pub register: Register,
}

impl InputInstruction {
    /// Parses the register operand of the 4-byte encoding.
    pub fn new(code: &[u8]) -> (r: Self)
        requires
            code@.len() == 4,
            Register::spec_is_register_addr(code@[1] as u32),
        ensures
            r == (InputInstruction { register: spec_register_of(code@[1] as u32) }),
    {
        InputInstruction { register: Register::from_addr(code[1] as u32) }
    }

    /// The transition: an empty buffer pauses the machine once and faults
    /// the second time; otherwise the first pending character's code
    /// point lands in the register and the pause flag clears.
    pub open spec fn step(self, v: MachV) -> (MachV, Result<Effect, Fault>) {
        if v.inbuf.len() == 0 {
            if !v.awaiting {
                (v.with_awaiting(true), Ok(Effect::AwaitInput))
            } else {
                (v, Err(Fault::InputExhausted))
            }
        } else {
            (
                v.with_mem(set_reg(v.mem, self.register, v.inbuf[0] as u32)).with_inbuf(
                    v.inbuf.skip(1),
                ).with_awaiting(false),
                Ok(Effect::Advance),
            )
        }
    }

    /// Runs the instruction, exactly as [`Self::step`] says.
    pub fn execute(&self, controller: &mut Controller) -> (r: Result<Effect, Fault>)
        requires
            old(controller).wf(),
        ensures
            final(controller).wf(),
            final(controller)@ == self.step(old(controller)@).0,
            r == self.step(old(controller)@).1,
    {
        if controller.display().buffer_is_empty() {
            if controller.is_awaiting_input() {
                return Err(Fault::InputExhausted);
            }
            controller.set_awaiting_input(true);
            return Ok(Effect::AwaitInput);
        }
        let c = controller.mut_display().get();
        controller.mut_state().set_register_value(self.register, c as u32);
        controller.set_awaiting_input(false);
        Ok(Effect::Advance)
    }
}

/// Reads a whole decimal number from input into a register. With the
/// buffer dry it pauses for a line; then the entire buffered content is
/// consumed as one unsigned decimal numeral, and anything unparsable
/// faults.
///
/// Encoding: opcode, then the register address; bytes 2-3 are unused.
#[derive(Clone, Copy, Debug, PartialEq, Eq, Structural)]
pub struct InputNumberInstruction {
    /// Register receiving the number.
    pub register: Register,
}

impl InputNumberInstruction {
    /// Parses the register operand of the 4-byte encoding.
    pub fn new(code: &[u8]) -> (r: Self)
        requires
            code@.len() == 4,
            Register::spec_is_register_addr(code@[1] as u32),
        ensures
            r == (InputNumberInstruction { register: spec_register_of(code@[1] as u32) }),
    {
        InputNumberInstruction { register: Register::from_addr(code[1] as u32) }
    }

    /// The transition: an empty buffer with nothing supplied yet pauses
    /// the machine; otherwise the whole buffer is parsed as an unsigned
    /// decimal, landing in the register with the buffer cleared, or
    /// faulting as malformed with the machine unchanged.
    pub open spec fn step(self, v: MachV) -> (MachV, Result<Effect, Fault>) {
        if v.inbuf.len() == 0 && !v.awaiting {
            (v.with_awaiting(true), Ok(Effect::AwaitInput))
        } else {
            match parse_u32_spec(v.inbuf) {
                Some(n) => (
                    v.with_mem(set_reg(v.mem, self.register, n)).with_inbuf(
                        Seq::empty(),
                    ).with_awaiting(false),
                    Ok(Effect::Advance),
                ),
                None => (v, Err(Fault::MalformedNumber)),
            }
        }
    }

    /// Runs the instruction, exactly as [`Self::step`] says.
    pub fn execute(&self, controller: &mut Controller) -> (r: Result<Effect, Fault>)
        requires
            old(controller).wf(),
        ensures
            final(controller).wf(),
            final(controller)@ == self.step(old(controller)@).0,
            r == self.step(old(controller)@).1,
    {
        if controller.display().buffer_is_empty() && !controller.is_awaiting_input() {
            controller.set_awaiting_input(true);
            return Ok(Effect::AwaitInput);
        }
        let num = match controller.mut_display().get_num() {
            Ok(n) => n,
            Err(f) => {
                return Err(f);
            },
        };
        controller.mut_state().set_register_value(self.register, num);
        controller.set_awaiting_input(false);
        Ok(Effect::Advance)
    }
}

/// Pushes a register's value onto the stack: the word at `SP` receives
/// it, then `SP` grows by 4.
///
/// Encoding: opcode, then the register address; bytes 2-3 are unused.
#[derive(Clone, Copy, Debug, PartialEq, Eq, Structural)]
pub struct PushToStackInstruction {
    /// Register whose value is pushed.
    pub register: Register,
}

impl PushToStackInstruction {
    /// Parses the register operand of the 4-byte encoding.
    pub fn new(code: &[u8]) -> (r: Self)
        requires
            code@.len() == 4,
            Register::spec_is_register_addr(code@[1] as u32),
        ensures
            r == (PushToStackInstruction { register: spec_register_of(code@[1] as u32) }),
    {
        PushToStackInstruction { register: Register::from_addr(code[1] as u32) }
    }

    /// The transition: exactly [`push_spec`] on the register, advancing
    /// on success and faulting unchanged otherwise.
    pub open spec fn step(self, v: MachV) -> (MachV, Result<Effect, Fault>) {
        match push_spec(v.mem, self.register) {
            Ok(m2) => (v.with_mem(m2), Ok(Effect::Advance)),
            Err(f) => (v, Err(f)),
        }
    }

    /// Runs the instruction, exactly as [`Self::step`] says.
    pub fn execute(&self, controller: &mut Controller) -> (r: Result<Effect, Fault>)
        requires
            old(controller).wf(),
        ensures
            final(controller).wf(),
            final(controller)@ == self.step(old(controller)@).0,
            r == self.step(old(controller)@).1,
    {
        match controller.mut_state().push_to_stack(self.register) {
            Ok(()) => Ok(Effect::Advance),
            Err(f) => Err(f),
        }
    }
}

/// Pops the top of the stack into a register: `SP` shrinks by 4, then the
/// word at the new `SP` is stored into the register.
///
/// Encoding: opcode, then the register address; bytes 2-3 are unused.
#[derive(Clone, Copy, Debug, PartialEq, Eq, Structural)]
pub struct PopFromStackInstruction {
    /// Register receiving the popped value.
    pub register: Register,
}

impl PopFromStackInstruction {
    /// Parses the register operand of the 4-byte encoding.
    pub fn new(code: &[u8]) -> (r: Self)
        requires
            code@.len() == 4,
            Register::spec_is_register_addr(code@[1] as u32),
        ensures
            r == (PopFromStackInstruction { register: spec_register_of(code@[1] as u32) }),
    {
        PopFromStackInstruction { register: Register::from_addr(code[1] as u32) }
    }

    /// The transition: exactly [`pop_spec`] on the register, advancing on
    /// success and faulting unchanged otherwise.
    pub open spec fn step(self, v: MachV) -> (MachV, Result<Effect, Fault>) {
        match pop_spec(v.mem, self.register) {
            Ok(m2) => (v.with_mem(m2), Ok(Effect::Advance)),
            Err(f) => (v, Err(f)),
        }
    }

    /// Runs the instruction, exactly as [`Self::step`] says.
    pub fn execute(&self, controller: &mut Controller) -> (r: Result<Effect, Fault>)
        requires
            old(controller).wf(),
        ensures
            final(controller).wf(),
            final(controller)@ == self.step(old(controller)@).0,
            r == self.step(old(controller)@).1,
    {
        match controller.mut_state().pop_from_stack(self.register) {
            Ok(()) => Ok(Effect::Advance),
            Err(f) => Err(f),
        }
    }
}

/// Calls a subroutine: pushes the current `IP` (the address of this call)
/// onto the stack, then moves `IP` by the signed offset; the loop does
/// not advance afterward.
///
/// Encoding: opcode, then the offset in bytes 1-2 as little-endian signed
/// 16 bits; byte 3 is unused.
#[derive(Clone, Copy, Debug, PartialEq, Eq, Structural)]
pub struct CallInstruction {
    /// The signed offset added to `IP` after the push.
    pub offset: i16,
}

impl CallInstruction {
    /// Parses the 16-bit signed offset of the 4-byte encoding.
    pub fn new(code: &[u8]) -> (r: Self)
        requires
            code@.len() == 4,
        ensures
            r == (CallInstruction { offset: offset16(code@[1], code@[2]) }),
    {
        CallInstruction { offset: read_offset16(code[1], code[2]) }
    }

    /// The transition: [`push_spec`] on `IP`, then `IP` moves by the
    /// offset from whatever the push left in it; a failed push faults
    /// unchanged. Never advances.
    pub open spec fn step(self, v: MachV) -> (MachV, Result<Effect, Fault>) {
        match push_spec(v.mem, Register::IP) {
            Ok(m2) => (
                v.with_mem(
                    set_reg(m2, Register::IP, jump_dest(reg_val(m2, Register::IP), self.offset)),
                ),
                Ok(Effect::Hold),
            ),
            Err(f) => (v, Err(f)),
        }
    }

    /// Runs the instruction, exactly as [`Self::step`] says.
    pub fn execute(&self, controller: &mut Controller) -> (r: Result<Effect, Fault>)
        requires
            old(controller).wf(),
        ensures
            final(controller).wf(),
            final(controller)@ == self.step(old(controller)@).0,
            r == self.step(old(controller)@).1,
    {
        match controller.mut_state().push_to_stack(Register::IP) {
            Ok(()) => {},
            Err(f) => {
                return Err(f);
            },
        }
        controller.jump(self.offset);
        Ok(Effect::Hold)
    }
}

/// Returns from a subroutine: pops the stack into `IP`. The loop then
/// advances, so control resumes one word after the original call.
///
/// Encoding: opcode only; bytes 1-3 are unused.
#[derive(Clone, Copy, Debug, PartialEq, Eq, Structural)]
pub struct RetInstruction {}

impl RetInstruction {
    /// Ignores the operand bytes of the 4-byte encoding.
    pub fn new(code: &[u8]) -> (r: Self)
        requires
            code@.len() == 4,
        ensures
            r == (RetInstruction {  }),
    {
        let _ = code;
        RetInstruction {  }
    }

    /// The transition: exactly [`pop_spec`] on `IP`, advancing on success
    /// and faulting unchanged otherwise.
    pub open spec fn step(self, v: MachV) -> (MachV, Result<Effect, Fault>) {
        match pop_spec(v.mem, Register::IP) {
            Ok(m2) => (v.with_mem(m2), Ok(Effect::Advance)),
            Err(f) => (v, Err(f)),
        }
    }

    /// Runs the instruction, exactly as [`Self::step`] says.
    pub fn execute(&self, controller: &mut Controller) -> (r: Result<Effect, Fault>)
        requires
            old(controller).wf(),
        ensures
            final(controller).wf(),
            final(controller)@ == self.step(old(controller)@).0,
            r == self.step(old(controller)@).1,
    {
        match controller.mut_state().pop_from_stack(Register::IP) {
            Ok(()) => Ok(Effect::Advance),
            Err(f) => Err(f),
        }
    }
}

/// Dereferences a pointer: reads the word at a source register's value
/// plus a signed byte offset, and stores its raw bytes at the destination
/// register's fixed word address, bypassing the register-write path.
///
/// This instruction is fully implemented but deliberately not registered
/// in the decoder's dispatch table, so no opcode reaches it; it is kept
/// as a shelved feature, exactly as wired in the instruction set.
///
/// Encoding: opcode, the destination register address, the source
/// register address, then a signed byte offset.
#[derive(Clone, Copy, Debug, PartialEq, Eq, Structural)]
pub struct DerefInstruction {
    /// Register whose word address receives the copied bytes.
    pub dest: Register,
    /// Register holding the address to dereference.
    pub source: Register,
    /// The signed byte offset added to the source address.
    pub offset: i8,
}

impl DerefInstruction {
    /// Parses the two register operands and the signed byte offset of the
    /// 4-byte encoding.
    pub fn new(code: &[u8]) -> (r: Self)
        requires
            code@.len() == 4,
            Register::spec_is_register_addr(code@[1] as u32),
            Register::spec_is_register_addr(code@[2] as u32),
        ensures
            r == (DerefInstruction {
                dest: spec_register_of(code@[1] as u32),
                source: spec_register_of(code@[2] as u32),
                offset: code@[3] as i8,
            }),
    {
        DerefInstruction {
            dest: Register::from_addr(code[1] as u32),
            source: Register::from_addr(code[2] as u32),
            offset: code[3] as i8,
        }
    }

    /// The transition: the source value is read as a signed 32-bit
    /// address, the offset added (faulting when the sum leaves the signed
    /// range), the sum reinterpreted as unsigned; the aligned, in-range
    /// word there is copied byte for byte onto the destination register's
    /// word.
    pub open spec fn step(self, v: MachV) -> (MachV, Result<Effect, Fault>) {
        let s = reg_val(v.mem, self.source);
        let si: int = if s >= 0x8000_0000 {
            s - 0x1_0000_0000
        } else {
            s as int
        };
        let sum = si + self.offset;
        if sum > 0x7FFF_FFFF || sum < -0x8000_0000 {
            (v, Err(Fault::AddressOverflow))
        } else {
            let a = ((sum + 0x1_0000_0000) % 0x1_0000_0000) as u32;
            if a % 4 != 0 {
                (v, Err(Fault::MisalignedAccess(a)))
            } else if a + 4 > v.mem.len() {
                (v, Err(Fault::OutOfBounds(a)))
            } else {
                let d = self.dest.spec_addr() as int;
                let b = a as int;
                (
                    v.with_mem(
                        v.mem.update(d, v.mem[b]).update(d + 1, v.mem[b + 1]).update(
                            d + 2,
                            v.mem[b + 2],
                        ).update(d + 3, v.mem[b + 3]),
                    ),
                    Ok(Effect::Advance),
                )
            }
        }
    }

    /// Runs the instruction, exactly as [`Self::step`] says.
    pub fn execute(&self, controller: &mut Controller) -> (r: Result<Effect, Fault>)
        requires
            old(controller).wf(),
        ensures
            final(controller).wf(),
            final(controller)@ == self.step(old(controller)@).0,
            r == self.step(old(controller)@).1,
    {
        let s = controller.state().register_value(self.source);
        let si: i64 = if s >= 0x8000_0000 {
            (s as i64) - 0x1_0000_0000
        } else {
            s as i64
        };
        let sum: i64 = si + (self.offset as i64);
        if sum > 0x7FFF_FFFF || sum < -0x8000_0000 {
            return Err(Fault::AddressOverflow);
        }
        let a: u32 = if sum >= 0 {
            sum as u32
        } else {
            (sum + 0x1_0000_0000) as u32
        };
        proof {
            if sum >= 0 {
                vstd::arithmetic::div_mod::lemma_mod_multiples_vanish(1, sum as int, 0x1_0000_0000);
                vstd::arithmetic::div_mod::lemma_small_mod(sum as nat, 0x1_0000_0000);
            } else {
                vstd::arithmetic::div_mod::lemma_small_mod(
                    (sum + 0x1_0000_0000) as nat,
                    0x1_0000_0000,
                );
            }
        }
        if a % 4 != 0 {
            return Err(Fault::MisalignedAccess(a));
        }
        let mem_len = controller.state().get_memory_handler().len();
        if (a as u64) + 4 > (mem_len as u64) {
            return Err(Fault::OutOfBounds(a));
        }
        let word = controller.state().get_memory_handler().read_word(a);
        let dest_addr = self.dest.as_addr();
        controller.mut_state().get_mut_memory_handler().write_word(dest_addr, &word);
        Ok(Effect::Advance)
    }
}

} // verus!
