//! The controller: owns the machine state and the console, and runs the
//! fetch, decode, execute, advance loop until the program halts.
//!
//! The whole machine is specified through one view, [`MachV`]: the memory
//! bytes, the console's two character streams, the paused-for-input flag,
//! and the entry address captured at construction. Each instruction's
//! contract is a function from one view to the next; the loop's contract
//! composes them.

use vstd::prelude::*;

use crate::decoder::{decode, decode_spec, Instruction};
use crate::display::SystemDisplay;
use crate::instruction::{CallInstruction, Effect, JumpInstruction, RetInstruction};
use crate::state::{pop_spec, push_spec, reg_val, set_reg, Register, State};
use crate::words::{
    jump_dest, lemma_jump_dest_eq, lemma_with_word_len, lemma_word_frame, lemma_word_roundtrip,
    with_word, word_at,
};
use crate::Fault;
use crate::ARCH_BYTES;

verus! {

broadcast use lemma_with_word_len, lemma_word_roundtrip, lemma_word_frame,
    vstd::array::axiom_spec_array_as_slice;

/// The machine as contracts see it: one byte sequence holding registers,
/// code, data and stack; the console's pending input and printed output;
/// whether the machine is paused waiting for an input line; and the entry
/// address captured when the controller was built.
pub struct MachV {
    /// The contents of the whole address space.
    pub mem: Seq<u8>,
    /// Pending input characters, front first.
    pub inbuf: Seq<char>,
    /// Every character printed so far, oldest first.
    pub outbuf: Seq<char>,
    /// Whether an input opcode has already asked for a line and not yet
    /// consumed it.
    pub awaiting: bool,
    /// The value the instruction pointer held at construction: where a
    /// finished run is reset to.
    pub init_ip: u32,
}

impl MachV {
    /// Well-formed: memory holds at least the 32-byte register file and
    /// every byte is reachable through a 32-bit address.
    pub open spec fn wf(self) -> bool {
        32 <= self.mem.len() <= u32::MAX
    }

    /// This view with the memory replaced.
    pub open spec fn with_mem(self, m: Seq<u8>) -> MachV {
        MachV { mem: m, ..self }
    }

    /// This view with the pending input replaced.
    pub open spec fn with_inbuf(self, b: Seq<char>) -> MachV {
        MachV { inbuf: b, ..self }
    }

    /// This view with the printed output replaced.
    pub open spec fn with_outbuf(self, o: Seq<char>) -> MachV {
        MachV { outbuf: o, ..self }
    }

    /// This view with the paused-for-input flag replaced.
    pub open spec fn with_awaiting(self, a: bool) -> MachV {
        MachV { awaiting: a, ..self }
    }
}

/// The controller: the machine state, the console, and the entry address
/// it restarts from after a halt.
pub struct Controller {
    state: State,
    display: SystemDisplay,
    initial_ip_value: u32,
    awaiting_input: bool,
}

impl View for Controller {
    type V = MachV;

    closed spec fn view(&self) -> MachV {
        MachV {
            mem: self.state@,
            inbuf: self.display@.buffer,
            outbuf: self.display@.output,
            awaiting: self.awaiting_input,
            init_ip: self.initial_ip_value,
        }
    }
}

impl Controller {
    /// Well-formed: see [`MachV::wf`].
    pub open spec fn wf(self) -> bool {
        self@.wf()
    }

    /// Builds the machine around `state` with a fresh console, capturing
    /// the current instruction pointer as the entry address.
    pub fn new(state: State) -> (r: Self)
        requires
            state.wf(),
        ensures
            r.wf(),
            r@.mem == state@,
            r@.inbuf == Seq::<char>::empty(),
            r@.outbuf == Seq::<char>::empty(),
            r@.awaiting == false,
            r@.init_ip == reg_val(state@, Register::IP),
    {
        let initial_ip_value = state.register_value(Register::IP);
        Controller {
            state,
            display: SystemDisplay::new(),
            initial_ip_value,
            awaiting_input: false,
        }
    }

    /// Shared access to the machine state.
    pub fn state(&self) -> (r: &State)
        ensures
            r@ == self@.mem,
    {
        &self.state
    }

    /// Exclusive access to the machine state; only the memory part of the
    /// view can change through it.
    pub fn mut_state(&mut self) -> (r: &mut State)
        ensures
            r@ == old(self)@.mem,
            final(self)@ == old(self)@.with_mem(final(r)@),
    {
        &mut self.state
    }

    /// Shared access to the console.
    pub fn display(&self) -> (r: &SystemDisplay)
        ensures
            r@.buffer == self@.inbuf,
            r@.output == self@.outbuf,
    {
        &self.display
    }

    /// Exclusive access to the console; only the console part of the view
    /// can change through it.
    pub fn mut_display(&mut self) -> (r: &mut SystemDisplay)
        ensures
            r@.buffer == old(self)@.inbuf,
            r@.output == old(self)@.outbuf,
            final(self)@ == old(self)@.with_inbuf(final(r)@.buffer).with_outbuf(
                final(r)@.output,
            ),
    {
        &mut self.display
    }

    /// Whether an input opcode is paused waiting for a line.
    pub(crate) fn is_awaiting_input(&self) -> (b: bool)
        ensures
            b == self@.awaiting,
    {
        self.awaiting_input
    }

    /// Records whether an input opcode is paused waiting for a line.
    pub(crate) fn set_awaiting_input(&mut self, b: bool)
        ensures
            final(self)@ == old(self)@.with_awaiting(b),
    {
        self.awaiting_input = b;
    }

    /// Hands one line of input, newline already stripped, to the paused
    /// machine.
    pub fn provide_line(&mut self, line: Vec<char>)
        ensures
            final(self)@ == old(self)@.with_inbuf(old(self)@.inbuf + line@),
    {
        self.display.supply(line);
    }

    /// Sets the instruction pointer to `ip_value`.
    pub fn jump_abs(&mut self, ip_value: u32)
        requires
            old(self).wf(),
        ensures
            final(self).wf(),
            final(self)@ == old(self)@.with_mem(set_reg(old(self)@.mem, Register::IP, ip_value)),
    {
        self.mut_state().set_register_value(Register::IP, ip_value);
    }

    /// Moves the instruction pointer by `offset`, applied as signed 32-bit
    /// arithmetic against the unsigned pointer.
    pub fn jump(&mut self, offset: i16)
        requires
            old(self).wf(),
        ensures
            final(self).wf(),
            final(self)@ == old(self)@.with_mem(
                set_reg(
                    old(self)@.mem,
                    Register::IP,
                    jump_dest(reg_val(old(self)@.mem, Register::IP), offset),
                ),
            ),
    {
        let ip_value = self.state().register_value(Register::IP);
        let address = ip_value.wrapping_add_signed(offset as i32);
        proof {
            lemma_jump_dest_eq(ip_value, offset);
        }
        self.jump_abs(address);
    }

    /// Whether the halt flag is set.
    pub fn is_finished(&self) -> (b: bool)
        requires
            self.wf(),
        ensures
            b == (reg_val(self@.mem, Register::END) != 0),
    {
        self.state.register_value(Register::END) != 0
    }

    /// Advances the instruction pointer by one word; an advance past the
    /// 32-bit address space faults with the machine unchanged.
    fn next(&mut self) -> (r: Result<(), Fault>)
        requires
            old(self).wf(),
        ensures
            final(self).wf(),
            reg_val(old(self)@.mem, Register::IP) + 4 <= u32::MAX ==> r is Ok && final(self)@
                == old(self)@.with_mem(
                set_reg(
                    old(self)@.mem,
                    Register::IP,
                    (reg_val(old(self)@.mem, Register::IP) + 4) as u32,
                ),
            ),
            reg_val(old(self)@.mem, Register::IP) + 4 > u32::MAX ==> r == Err::<(), Fault>(
                Fault::AddressOverflow,
            ) && final(self)@ == old(self)@,
    {
        let ip_value = self.state.register_value(Register::IP);
        if ip_value > u32::MAX - ARCH_BYTES {
            return Err(Fault::AddressOverflow);
        }
        self.state.set_register_value(Register::IP, ip_value + ARCH_BYTES);
        Ok(())
    }

    /// Resets the lifecycle registers after a halt: `IP` back to the
    /// entry address, `END` cleared. Nothing else is touched.
    fn reset_machine(&mut self)
        requires
            old(self).wf(),
        ensures
            final(self).wf(),
            final(self)@ == reset_spec(old(self)@),
    {
        let init = self.initial_ip_value;
        self.state.set_register_value(Register::IP, init);
        self.state.set_register_value(Register::END, 0);
    }

    /// Runs one iteration of the control loop, exactly as [`step_spec`]
    /// says: fetch the word at `IP`, decode it, execute it, and advance
    /// `IP` unless the instruction redirected it or paused for input.
    pub fn step(&mut self) -> (r: Result<StepOutcome, Fault>)
        requires
            old(self).wf(),
        ensures
            final(self).wf(),
            final(self)@ == step_spec(old(self)@).0,
            r == step_spec(old(self)@).1,
    {
        let ip_value = self.state.register_value(Register::IP);
        if ip_value % 4 != 0 {
            return Err(Fault::MisalignedAccess(ip_value));
        }
        let mem_len = self.state.get_memory_handler().len();
        if (ip_value as u64) + 4 > (mem_len as u64) {
            return Err(Fault::OutOfBounds(ip_value));
        }
        let word = self.state.get_memory_handler().read_word(ip_value);
        let instruction = match decode(word.as_slice()) {
            Ok(i) => i,
            Err(f) => {
                return Err(f);
            },
        };
        let effect = match instruction.execute(self) {
            Ok(e) => e,
            Err(f) => {
                return Err(f);
            },
        };
        match effect {
            Effect::AwaitInput => Ok(StepOutcome::AwaitInput),
            Effect::Hold => Ok(StepOutcome::Ran),
            Effect::Advance => match self.next() {
                Ok(()) => Ok(StepOutcome::Ran),
                Err(f) => Err(f),
            },
        }
    }

    /// Runs the machine until the program halts, pauses for input, or
    /// `max_steps` further instructions have run, exactly as [`run_spec`]
    /// says.
    ///
    /// On a halt the lifecycle registers are reset — `IP` back to the
    /// entry address, `END` cleared — and everything else is left as the
    /// program last set it, so calling this again restarts the program.
    /// On a pause the caller supplies a line through
    /// [`Self::provide_line`] and calls this again to continue; on an
    /// exhausted budget calling again simply continues the run.
    pub fn execute(&mut self, max_steps: u64) -> (r: Result<RunOutcome, Fault>)
        requires
            old(self).wf(),
        ensures
            final(self).wf(),
            final(self)@.init_ip == old(self)@.init_ip,
            final(self)@ == run_spec(old(self)@, max_steps as nat).0,
            r == run_spec(old(self)@, max_steps as nat).1,
            r == Ok::<RunOutcome, Fault>(RunOutcome::Halted) ==> reg_val(
                final(self)@.mem,
                Register::IP,
            ) == old(self)@.init_ip && reg_val(final(self)@.mem, Register::END) == 0,
    {
        let mut remaining = max_steps;
        loop
            invariant
                self.wf(),
                self@.init_ip == old(self)@.init_ip,
                run_spec(old(self)@, max_steps as nat) == run_spec(self@, remaining as nat),
            decreases remaining,
        {
            let ghost vprev = self@;
            if self.is_finished() {
                self.reset_machine();
                return Ok(RunOutcome::Halted);
            }
            match self.step() {
                Ok(StepOutcome::Ran) => {
                    proof {
                        lemma_step_keeps_init(vprev);
                    }
                    if remaining == 0 {
                        return Ok(RunOutcome::StillRunning);
                    }
                    proof {
                        assert(run_spec(vprev, remaining as nat) == run_spec(
                            self@,
                            (remaining - 1) as nat,
                        ));
                    }
                    remaining = remaining - 1;
                },
                Ok(StepOutcome::AwaitInput) => {
                    proof {
                        lemma_step_keeps_init(vprev);
                    }
                    return Ok(RunOutcome::AwaitingInput);
                },
                Err(fault) => {
                    proof {
                        lemma_step_keeps_init(vprev);
                    }
                    return Err(fault);
                },
            }
        }
    }
}

/// What one iteration of the control loop reports: the machine ran one
/// instruction, or it paused for a line of input.
#[derive(Clone, Copy, Debug, PartialEq, Eq, Structural)]
pub enum StepOutcome {
    /// One instruction ran to completion.
    Ran,
    /// An input opcode paused for a line; nothing ran.
    AwaitInput,
}

/// What a whole run reports: the program halted (and the machine was
/// reset, ready to restart), or it paused for a line of input.
#[derive(Clone, Copy, Debug, PartialEq, Eq, Structural)]
pub enum RunOutcome {
    /// The halt opcode ran; `IP` is back at the entry address and `END`
    /// is cleared.
    Halted,
    /// An input opcode paused for a line; supply one and run again.
    AwaitingInput,
    /// The step budget ran out first; run again to continue.
    StillRunning,
}

/// The complete transition of one control-loop iteration on view `v`:
/// fetch the word at `IP` (a misaligned or out-of-range `IP` faults),
/// decode it, run the instruction's own transition, then add 4 to `IP`
/// unless the instruction redirected it or paused. The returned view
/// holds in every case, fault or not.
pub open spec fn step_spec(v: MachV) -> (MachV, Result<StepOutcome, Fault>) {
    let ip = reg_val(v.mem, Register::IP);
    if ip % 4 != 0 {
        (v, Err(Fault::MisalignedAccess(ip)))
    } else if ip + 4 > v.mem.len() {
        (v, Err(Fault::OutOfBounds(ip)))
    } else {
        match decode_spec(v.mem.subrange(ip as int, ip + 4)) {
            Err(f) => (v, Err(f)),
            Ok(instr) => {
                let t = instr.step(v);
                match t.1 {
                    Err(f) => (t.0, Err(f)),
                    Ok(Effect::AwaitInput) => (t.0, Ok(StepOutcome::AwaitInput)),
                    Ok(Effect::Hold) => (t.0, Ok(StepOutcome::Ran)),
                    Ok(Effect::Advance) => {
                        let ip2 = reg_val(t.0.mem, Register::IP);
                        if ip2 + 4 > u32::MAX {
                            (t.0, Err(Fault::AddressOverflow))
                        } else {
                            (
                                t.0.with_mem(set_reg(t.0.mem, Register::IP, (ip2 + 4) as u32)),
                                Ok(StepOutcome::Ran),
                            )
                        }
                    },
                }
            },
        }
    }
}

/// The partial reset after a halt: `IP` back to the captured entry
/// address, `END` cleared, everything else untouched.
pub open spec fn reset_spec(v: MachV) -> MachV {
    v.with_mem(set_reg(set_reg(v.mem, Register::IP, v.init_ip), Register::END, 0))
}

/// What a whole run from `v` produces: with the halt flag set it is the
/// reset machine; otherwise one step runs, and a fault, a pause, or —
/// with budget left — the rest of the run follows. A run still going
/// once the budget is spent reports so, with the machine exactly where
/// the steps taken left it.
pub open spec fn run_spec(v: MachV, fuel: nat) -> (MachV, Result<RunOutcome, Fault>)
    decreases fuel,
{
    if reg_val(v.mem, Register::END) != 0 {
        (reset_spec(v), Ok(RunOutcome::Halted))
    } else {
        let t = step_spec(v);
        match t.1 {
            Err(f) => (t.0, Err(f)),
            Ok(StepOutcome::AwaitInput) => (t.0, Ok(RunOutcome::AwaitingInput)),
            Ok(StepOutcome::Ran) => if fuel == 0 {
                (t.0, Ok(RunOutcome::StillRunning))
            } else {
                run_spec(t.0, (fuel - 1) as nat)
            },
        }
    }
}

/// One instruction transition never changes the captured entry address.
proof fn lemma_instr_keeps_init(instr: Instruction, v: MachV)
    ensures
        instr.step(v).0.init_ip == v.init_ip,
{
    match instr {
        Instruction::Add(_) => {},
        Instruction::Sub(_) => {},
        Instruction::Mul(_) => {},
        Instruction::Div(_) => {},
        Instruction::Jump(_) => {},
        Instruction::Load(_) => {},
        Instruction::Finish(_) => {},
        Instruction::Out(_) => {},
        Instruction::Equal(_) => {},
        Instruction::Less(_) => {},
        Instruction::LessEqual(_) => {},
        Instruction::LoadAbsolute(_) => {},
        Instruction::Input(_) => {},
        Instruction::JumpCompare(_) => {},
        Instruction::JumpNotCompare(_) => {},
        Instruction::OutFromRegister(_) => {},
        Instruction::Skip(_) => {},
        Instruction::OutNumber(_) => {},
        Instruction::Move(_) => {},
        Instruction::InputNumber(_) => {},
        Instruction::PushToStack(_) => {},
        Instruction::PopFromStack(_) => {},
        Instruction::Call(_) => {},
        Instruction::Ret(_) => {},
    }
}

/// Jump determinism: a fetched `JMP` with offset `k` from `IP = p` moves
/// `IP` to exactly `p + k` (as signed 32-bit arithmetic), never faults,
/// and never auto-advances — the machine's next fetch happens at `p + k`,
/// not `p + k + 4`.
pub proof fn lemma_jump_determinism(v: MachV, k: i16)
    requires
        v.wf(),
        reg_val(v.mem, Register::IP) % 4 == 0,
        reg_val(v.mem, Register::IP) + 4 <= v.mem.len(),
        decode_spec(
            v.mem.subrange(
                reg_val(v.mem, Register::IP) as int,
                reg_val(v.mem, Register::IP) + 4,
            ),
        ) == Ok::<Instruction, Fault>(Instruction::Jump(JumpInstruction { offset: k })),
    ensures
        step_spec(v).1 == Ok::<StepOutcome, Fault>(StepOutcome::Ran),
        step_spec(v).0 == v.with_mem(
            set_reg(v.mem, Register::IP, jump_dest(reg_val(v.mem, Register::IP), k)),
        ),
        reg_val(step_spec(v).0.mem, Register::IP) == jump_dest(reg_val(v.mem, Register::IP), k),
{
}

/// Call/return symmetry: a `CALL` fetched at address `p` pushes `p` onto
/// the stack and jumps by its offset. Any later machine state that
/// reaches a `RET` with the stack balanced — `SP` back at its post-call
/// value and the pushed slot intact — resumes execution at `p + 4`,
/// regardless of what happened between the call and the return. (The
/// stack slot is required to lie in the program region, outside the
/// register file.)
pub proof fn lemma_call_ret_symmetry(v: MachV, k: i16, w: MachV)
    requires
        v.wf(),
        w.wf(),
        reg_val(v.mem, Register::IP) % 4 == 0,
        reg_val(v.mem, Register::IP) + 4 <= v.mem.len(),
        decode_spec(
            v.mem.subrange(
                reg_val(v.mem, Register::IP) as int,
                reg_val(v.mem, Register::IP) + 4,
            ),
        ) == Ok::<Instruction, Fault>(Instruction::Call(CallInstruction { offset: k })),
        32 <= reg_val(v.mem, Register::SP),
        reg_val(v.mem, Register::SP) % 4 == 0,
        reg_val(v.mem, Register::SP) + 4 <= v.mem.len(),
        reg_val(w.mem, Register::IP) % 4 == 0,
        reg_val(w.mem, Register::IP) + 4 <= w.mem.len(),
        decode_spec(
            w.mem.subrange(
                reg_val(w.mem, Register::IP) as int,
                reg_val(w.mem, Register::IP) + 4,
            ),
        ) == Ok::<Instruction, Fault>(Instruction::Ret(RetInstruction {  })),
        reg_val(w.mem, Register::SP) == reg_val(v.mem, Register::SP) + 4,
        reg_val(w.mem, Register::SP) <= w.mem.len(),
        word_at(w.mem, reg_val(v.mem, Register::SP) as int) == reg_val(v.mem, Register::IP),
    ensures
        step_spec(v).1 == Ok::<StepOutcome, Fault>(StepOutcome::Ran),
        word_at(step_spec(v).0.mem, reg_val(v.mem, Register::SP) as int) == reg_val(
            v.mem,
            Register::IP,
        ),
        reg_val(step_spec(v).0.mem, Register::SP) == reg_val(v.mem, Register::SP) + 4,
        reg_val(step_spec(v).0.mem, Register::IP) == jump_dest(
            reg_val(v.mem, Register::IP),
            k,
        ),
        step_spec(w).1 == Ok::<StepOutcome, Fault>(StepOutcome::Ran),
        reg_val(step_spec(w).0.mem, Register::IP) == reg_val(v.mem, Register::IP) + 4,
{
    let p = reg_val(v.mem, Register::IP);
    let sp = reg_val(v.mem, Register::SP);
    assert(push_spec(v.mem, Register::IP) == Ok::<Seq<u8>, Fault>(
        set_reg(with_word(v.mem, sp as int, p), Register::SP, (sp + 4) as u32),
    ));
    assert(reg_val(set_reg(with_word(v.mem, sp as int, p), Register::SP, (sp + 4) as u32),
        Register::IP) == p);
    let ns = (reg_val(w.mem, Register::SP) - 4) as u32;
    assert(ns == sp);
    let m1 = set_reg(w.mem, Register::SP, ns);
    assert(word_at(m1, ns as int) == word_at(w.mem, sp as int));
    assert(pop_spec(w.mem, Register::IP) == Ok::<Seq<u8>, Fault>(
        set_reg(m1, Register::IP, word_at(m1, ns as int)),
    ));
    assert(reg_val(set_reg(m1, Register::IP, word_at(m1, ns as int)), Register::IP) == p);
}

/// Halt/restart idempotence, the reset half: the reset after a halt
/// touches only the lifecycle registers. `IP` returns to the captured
/// entry address and `END` clears, while every other register, all
/// memory beyond the register file, and the console streams keep exactly
/// their last values.
pub proof fn lemma_reset_partial(v: MachV)
    requires
        v.wf(),
    ensures
        reg_val(reset_spec(v).mem, Register::IP) == v.init_ip,
        reg_val(reset_spec(v).mem, Register::END) == 0,
        forall|r: Register|
            r != Register::IP && r != Register::END ==> #[trigger] reg_val(reset_spec(v).mem, r)
                == reg_val(v.mem, r),
        forall|i: int| 32 <= i < v.mem.len() ==> reset_spec(v).mem[i] == v.mem[i],
        reset_spec(v).mem.len() == v.mem.len(),
        reset_spec(v).inbuf == v.inbuf,
        reset_spec(v).outbuf == v.outbuf,
        reset_spec(v).awaiting == v.awaiting,
        reset_spec(v).init_ip == v.init_ip,
{
    broadcast use crate::words::lemma_with_word_frame_byte;

}

/// One whole control-loop step never changes the captured entry address.
pub proof fn lemma_step_keeps_init(v: MachV)
    ensures
        step_spec(v).0.init_ip == v.init_ip,
{
    let ip = reg_val(v.mem, Register::IP);
    if ip % 4 == 0 && ip + 4 <= v.mem.len() {
        match decode_spec(v.mem.subrange(ip as int, ip + 4)) {
            Ok(instr) => {
                lemma_instr_keeps_init(instr, v);
            },
            Err(_) => {},
        }
    }
}

} // verus!
