//! The decoder: maps the first byte of a fetched 4-byte instruction word
//! to exactly one opcode handler, built fresh from the word's operand
//! bytes. An unrecognized opcode byte, or an operand byte that names no
//! register, is a fatal decode fault.

use vstd::prelude::*;

use crate::instruction::{
    AddInstruction, CallInstruction, DivInstruction, Effect, EqualInstruction, FinishInstruction,
    InputInstruction, InputNumberInstruction, JumpCompareInstruction, JumpInstruction,
    JumpNotCompareInstruction, LessEqualInstruction, LessInstruction, LoadAbsoluteInstruction,
    LoadInstruction, MoveInstruction, MulInstruction, OutFromRegisterInstruction, OutInstruction,
    OutNumberInstruction, PopFromStackInstruction, PushToStackInstruction, RetInstruction,
    SkipInstruction, SubInstruction,
};
use crate::controller::{Controller, MachV};
use crate::state::{spec_register_of, Register};
use crate::words::{offset16, word16};
use crate::Fault;

verus! {

/// One decoded instruction: a closed set with exactly one case per
/// opcode. The shelved pointer-dereference instruction is deliberately
/// not in this set, since no opcode byte maps to it.
#[derive(Clone, Copy, Debug, PartialEq, Eq, Structural)]
#[allow(missing_docs)]
pub enum Instruction {
    Add(AddInstruction),
    Sub(SubInstruction),
    Mul(MulInstruction),
    Div(DivInstruction),
    Jump(JumpInstruction),
    Load(LoadInstruction),
    Finish(FinishInstruction),
    Out(OutInstruction),
    Equal(EqualInstruction),
    Less(LessInstruction),
    LessEqual(LessEqualInstruction),
    LoadAbsolute(LoadAbsoluteInstruction),
    Input(InputInstruction),
    JumpCompare(JumpCompareInstruction),
    JumpNotCompare(JumpNotCompareInstruction),
    OutFromRegister(OutFromRegisterInstruction),
    Skip(SkipInstruction),
    OutNumber(OutNumberInstruction),
    Move(MoveInstruction),
    InputNumber(InputNumberInstruction),
    PushToStack(PushToStackInstruction),
    PopFromStack(PopFromStackInstruction),
    Call(CallInstruction),
    Ret(RetInstruction),
}

impl Instruction {
    /// The transition of this instruction on the machine view: the case's
    /// own `step`.
    pub open spec fn step(self, v: MachV) -> (MachV, Result<Effect, Fault>) {
        match self {
            Instruction::Add(i) => i.step(v),
            Instruction::Sub(i) => i.step(v),
            Instruction::Mul(i) => i.step(v),
            Instruction::Div(i) => i.step(v),
            Instruction::Jump(i) => i.step(v),
            Instruction::Load(i) => i.step(v),
            Instruction::Finish(i) => i.step(v),
            Instruction::Out(i) => i.step(v),
            Instruction::Equal(i) => i.step(v),
            Instruction::Less(i) => i.step(v),
            Instruction::LessEqual(i) => i.step(v),
            Instruction::LoadAbsolute(i) => i.step(v),
            Instruction::Input(i) => i.step(v),
            Instruction::JumpCompare(i) => i.step(v),
            Instruction::JumpNotCompare(i) => i.step(v),
            Instruction::OutFromRegister(i) => i.step(v),
            Instruction::Skip(i) => i.step(v),
            Instruction::OutNumber(i) => i.step(v),
            Instruction::Move(i) => i.step(v),
            Instruction::InputNumber(i) => i.step(v),
            Instruction::PushToStack(i) => i.step(v),
            Instruction::PopFromStack(i) => i.step(v),
            Instruction::Call(i) => i.step(v),
            Instruction::Ret(i) => i.step(v),
        }
    }

    /// Runs this instruction, exactly as [`Self::step`] says.
    #[verifier::rlimit(100)]
    pub fn execute(&self, controller: &mut Controller) -> (r: Result<Effect, Fault>)
        requires
            old(controller).wf(),
        ensures
            final(controller).wf(),
            final(controller)@ == self.step(old(controller)@).0,
            r == self.step(old(controller)@).1,
    {
        match self {
            Instruction::Add(i) => i.execute(controller),
            Instruction::Sub(i) => i.execute(controller),
            Instruction::Mul(i) => i.execute(controller),
            Instruction::Div(i) => i.execute(controller),
            Instruction::Jump(i) => i.execute(controller),
            Instruction::Load(i) => i.execute(controller),
            Instruction::Finish(i) => i.execute(controller),
            Instruction::Out(i) => i.execute(controller),
            Instruction::Equal(i) => i.execute(controller),
            Instruction::Less(i) => i.execute(controller),
            Instruction::LessEqual(i) => i.execute(controller),
            Instruction::LoadAbsolute(i) => i.execute(controller),
            Instruction::Input(i) => i.execute(controller),
            Instruction::JumpCompare(i) => i.execute(controller),
            Instruction::JumpNotCompare(i) => i.execute(controller),
            Instruction::OutFromRegister(i) => i.execute(controller),
            Instruction::Skip(i) => i.execute(controller),
            Instruction::OutNumber(i) => i.execute(controller),
            Instruction::Move(i) => i.execute(controller),
            Instruction::InputNumber(i) => i.execute(controller),
            Instruction::PushToStack(i) => i.execute(controller),
            Instruction::PopFromStack(i) => i.execute(controller),
            Instruction::Call(i) => i.execute(controller),
            Instruction::Ret(i) => i.execute(controller),
        }
    }
}

/// Whether `b` names a register address.
pub open spec fn spec_reg_byte_ok(b: u8) -> bool {
    Register::spec_is_register_addr(b as u32)
}

/// The register named by operand byte 1, or the fault naming the byte.
pub open spec fn spec_reg1(w: Seq<u8>) -> Result<Register, Fault> {
    if !spec_reg_byte_ok(w[1]) {
        Err(Fault::InvalidRegister(w[1]))
    } else {
        Ok(spec_register_of(w[1] as u32))
    }
}

/// The registers named by operand bytes 1 and 2, checked in order, or the
/// fault naming the first bad byte.
pub open spec fn spec_regs2(w: Seq<u8>) -> Result<(Register, Register), Fault> {
    if !spec_reg_byte_ok(w[1]) {
        Err(Fault::InvalidRegister(w[1]))
    } else if !spec_reg_byte_ok(w[2]) {
        Err(Fault::InvalidRegister(w[2]))
    } else {
        Ok((spec_register_of(w[1] as u32), spec_register_of(w[2] as u32)))
    }
}

/// The registers named by operand bytes 1, 2 and 3, checked in order, or
/// the fault naming the first bad byte.
pub open spec fn spec_regs3(w: Seq<u8>) -> Result<(Register, Register, Register), Fault> {
    if !spec_reg_byte_ok(w[1]) {
        Err(Fault::InvalidRegister(w[1]))
    } else if !spec_reg_byte_ok(w[2]) {
        Err(Fault::InvalidRegister(w[2]))
    } else if !spec_reg_byte_ok(w[3]) {
        Err(Fault::InvalidRegister(w[3]))
    } else {
        Ok(
            (
                spec_register_of(w[1] as u32),
                spec_register_of(w[2] as u32),
                spec_register_of(w[3] as u32),
            ),
        )
    }
}

/// What decoding a 4-byte instruction word yields: the opcode byte picks
/// the case, the operand bytes fill it, and an unknown opcode or bad
/// register byte is the matching fault.
pub open spec fn decode_spec(w: Seq<u8>) -> Result<Instruction, Fault>
    recommends
        w.len() == 4,
{
    let op = w[0];
    if op == 0x01 {
        match spec_regs3(w) {
            Ok((a, b, c)) => Ok(
                Instruction::Add(
                    AddInstruction { first_register: a, second_register: b, third_register: c },
                ),
            ),
            Err(f) => Err(f),
        }
    } else if op == 0x02 {
        match spec_regs3(w) {
            Ok((a, b, c)) => Ok(
                Instruction::Sub(
                    SubInstruction { first_register: a, second_register: b, third_register: c },
                ),
            ),
            Err(f) => Err(f),
        }
    } else if op == 0x03 {
        match spec_regs3(w) {
            Ok((a, b, c)) => Ok(
                Instruction::Mul(
                    MulInstruction { first_register: a, second_register: b, third_register: c },
                ),
            ),
            Err(f) => Err(f),
        }
    } else if op == 0x04 {
        match spec_regs3(w) {
            Ok((a, b, c)) => Ok(
                Instruction::Div(
                    DivInstruction { first_register: a, second_register: b, third_register: c },
                ),
            ),
            Err(f) => Err(f),
        }
    } else if op == 0x05 {
        Ok(Instruction::Jump(JumpInstruction { offset: offset16(w[1], w[2]) }))
    } else if op == 0x06 {
        match spec_reg1(w) {
            Ok(r) => Ok(
                Instruction::Load(LoadInstruction { register: r, offset: offset16(w[2], w[3]) }),
            ),
            Err(f) => Err(f),
        }
    } else if op == 0x07 {
        Ok(Instruction::Finish(FinishInstruction))
    } else if op == 0x08 {
        match spec_reg1(w) {
            Ok(r) => Ok(Instruction::Out(OutInstruction { register: r })),
            Err(f) => Err(f),
        }
    } else if op == 0x09 {
        match spec_regs2(w) {
            Ok((a, b)) => Ok(Instruction::Equal(EqualInstruction { left: a, right: b })),
            Err(f) => Err(f),
        }
    } else if op == 0x0A {
        match spec_regs2(w) {
            Ok((a, b)) => Ok(Instruction::Less(LessInstruction { left: a, right: b })),
            Err(f) => Err(f),
        }
    } else if op == 0x0B {
        match spec_regs2(w) {
            Ok((a, b)) => Ok(Instruction::LessEqual(LessEqualInstruction { left: a, right: b })),
            Err(f) => Err(f),
        }
    } else if op == 0x0C {
        match spec_reg1(w) {
            Ok(r) => Ok(
                Instruction::LoadAbsolute(
                    LoadAbsoluteInstruction { register: r, value: word16(w[2], w[3]) as u32 },
                ),
            ),
            Err(f) => Err(f),
        }
    } else if op == 0x0D {
        match spec_reg1(w) {
            Ok(r) => Ok(Instruction::Input(InputInstruction { register: r })),
            Err(f) => Err(f),
        }
    } else if op == 0x0E {
        Ok(Instruction::JumpCompare(JumpCompareInstruction { offset: offset16(w[1], w[2]) }))
    } else if op == 0x0F {
        Ok(
            Instruction::JumpNotCompare(
                JumpNotCompareInstruction { offset: offset16(w[1], w[2]) },
            ),
        )
    } else if op == 0x10 {
        match spec_reg1(w) {
            Ok(r) => Ok(Instruction::OutFromRegister(OutFromRegisterInstruction { register: r })),
            Err(f) => Err(f),
        }
    } else if op == 0x11 {
        Ok(Instruction::Skip(SkipInstruction {  }))
    } else if op == 0x12 {
        match spec_reg1(w) {
            Ok(r) => Ok(Instruction::OutNumber(OutNumberInstruction { register: r })),
            Err(f) => Err(f),
        }
    } else if op == 0x13 {
        match spec_regs2(w) {
            Ok((a, b)) => Ok(
                Instruction::Move(MoveInstruction { first_register: a, second_register: b }),
            ),
            Err(f) => Err(f),
        }
    } else if op == 0x14 {
        match spec_reg1(w) {
            Ok(r) => Ok(Instruction::InputNumber(InputNumberInstruction { register: r })),
            Err(f) => Err(f),
        }
    } else if op == 0x15 {
        match spec_reg1(w) {
            Ok(r) => Ok(Instruction::PushToStack(PushToStackInstruction { register: r })),
            Err(f) => Err(f),
        }
    } else if op == 0x16 {
        match spec_reg1(w) {
            Ok(r) => Ok(Instruction::PopFromStack(PopFromStackInstruction { register: r })),
            Err(f) => Err(f),
        }
    } else if op == 0x17 {
        Ok(Instruction::Call(CallInstruction { offset: offset16(w[1], w[2]) }))
    } else if op == 0x18 {
        Ok(Instruction::Ret(RetInstruction {  }))
    } else {
        Err(Fault::InvalidOpcode(op))
    }
}

/// Whether `b` names a register address.
fn reg_byte_ok(b: u8) -> (r: bool)
    ensures
        r == spec_reg_byte_ok(b),
{
    b % 4 == 0 && b < 32
}

/// Decodes a 4-byte instruction word, exactly as [`decode_spec`] says.
pub fn decode(code: &[u8]) -> (r: Result<Instruction, Fault>)
    requires
        code@.len() == 4,
    ensures
        r == decode_spec(code@),
{
    let op = code[0];
    if op == 0x01 || op == 0x02 || op == 0x03 || op == 0x04 {
        if !reg_byte_ok(code[1]) {
            return Err(Fault::InvalidRegister(code[1]));
        }
        if !reg_byte_ok(code[2]) {
            return Err(Fault::InvalidRegister(code[2]));
        }
        if !reg_byte_ok(code[3]) {
            return Err(Fault::InvalidRegister(code[3]));
        }
        if op == 0x01 {
            Ok(Instruction::Add(AddInstruction::new(code)))
        } else if op == 0x02 {
            Ok(Instruction::Sub(SubInstruction::new(code)))
        } else if op == 0x03 {
            Ok(Instruction::Mul(MulInstruction::new(code)))
        } else {
            Ok(Instruction::Div(DivInstruction::new(code)))
        }
    } else if op == 0x09 || op == 0x0A || op == 0x0B || op == 0x13 {
        if !reg_byte_ok(code[1]) {
            return Err(Fault::InvalidRegister(code[1]));
        }
        if !reg_byte_ok(code[2]) {
            return Err(Fault::InvalidRegister(code[2]));
        }
        if op == 0x09 {
            Ok(Instruction::Equal(EqualInstruction::new(code)))
        } else if op == 0x0A {
            Ok(Instruction::Less(LessInstruction::new(code)))
        } else if op == 0x0B {
            Ok(Instruction::LessEqual(LessEqualInstruction::new(code)))
        } else {
            Ok(Instruction::Move(MoveInstruction::new(code)))
        }
    } else if op == 0x06 || op == 0x08 || op == 0x0C || op == 0x0D || op == 0x10 || op == 0x12
        || op == 0x14 || op == 0x15 || op == 0x16 {
        if !reg_byte_ok(code[1]) {
            return Err(Fault::InvalidRegister(code[1]));
        }
        if op == 0x06 {
            Ok(Instruction::Load(LoadInstruction::new(code)))
        } else if op == 0x08 {
            Ok(Instruction::Out(OutInstruction::new(code)))
        } else if op == 0x0C {
            Ok(Instruction::LoadAbsolute(LoadAbsoluteInstruction::new(code)))
        } else if op == 0x0D {
            Ok(Instruction::Input(InputInstruction::new(code)))
        } else if op == 0x10 {
            Ok(Instruction::OutFromRegister(OutFromRegisterInstruction::new(code)))
        } else if op == 0x12 {
            Ok(Instruction::OutNumber(OutNumberInstruction::new(code)))
        } else if op == 0x14 {
            Ok(Instruction::InputNumber(InputNumberInstruction::new(code)))
        } else if op == 0x15 {
            Ok(Instruction::PushToStack(PushToStackInstruction::new(code)))
        } else {
            Ok(Instruction::PopFromStack(PopFromStackInstruction::new(code)))
        }
    } else if op == 0x05 {
        Ok(Instruction::Jump(JumpInstruction::new(code)))
    } else if op == 0x07 {
        Ok(Instruction::Finish(FinishInstruction::new(code)))
    } else if op == 0x0E {
        Ok(Instruction::JumpCompare(JumpCompareInstruction::new(code)))
    } else if op == 0x0F {
        Ok(Instruction::JumpNotCompare(JumpNotCompareInstruction::new(code)))
    } else if op == 0x11 {
        Ok(Instruction::Skip(SkipInstruction::new(code)))
    } else if op == 0x17 {
        Ok(Instruction::Call(CallInstruction::new(code)))
    } else if op == 0x18 {
        Ok(Instruction::Ret(RetInstruction::new(code)))
    } else {
        Err(Fault::InvalidOpcode(op))
    }
}

} // verus!
