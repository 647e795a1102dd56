use bytevm::controller::{Controller, RunOutcome};
use bytevm::memory::VirtualMemory;
use bytevm::state::{Register, State};
use bytevm::Fault;

const STEPS: u64 = 100_000;

/// Builds an image: a 32-byte register file (entry point in the `IP`
/// slot), then the program bytes from address 32 on.
fn image(code: &[u8]) -> Vec<u8> {
    let mut img = vec![0u8; 32];
    img[0..4].copy_from_slice(&32u32.to_le_bytes());
    img.extend_from_slice(code);
    img
}

fn set_word(img: &mut [u8], addr: usize, value: u32) {
    img[addr..addr + 4].copy_from_slice(&value.to_le_bytes());
}

fn machine(img: Vec<u8>) -> Controller {
    Controller::new(State::new(VirtualMemory::new(img)))
}

#[test]
fn scenario_sum_of_immediates() {
    // LDABS R0, 7; LDABS R1, 5; ADD R0, R1, R2; FIN
    let img = image(&[
        0x0C, 4, 7, 0, // LDABS R0, 7
        0x0C, 8, 5, 0, // LDABS R1, 5
        0x01, 4, 8, 12, // ADD R0, R1, R2
        0x07, 0, 0, 0, // FIN
    ]);
    let mut c = machine(img);
    assert_eq!(c.execute(STEPS), Ok(RunOutcome::Halted));
    assert_eq!(c.state().register_value(Register::R2), 12);
    assert_eq!(c.state().register_value(Register::END), 0);
    assert_eq!(c.state().register_value(Register::IP), 32);
}

#[test]
fn scenario_out_prints_hi() {
    // OUT R0 with R0 pointing at "Hi\0", then FIN
    let mut img = image(&[
        0x08, 4, 0, 0, // OUT R0
        0x07, 0, 0, 0, // FIN
        b'H', b'i', 0, 0, // the string at address 40
    ]);
    set_word(&mut img, 4, 40); // R0 = 40
    let mut c = machine(img);
    assert_eq!(c.execute(STEPS), Ok(RunOutcome::Halted));
    assert_eq!(c.display().output_chars(), &vec!['H', 'i']);
}

#[test]
fn add_wraps_around() {
    let mut img = image(&[
        0x01, 4, 8, 12, // ADD R0, R1, R2
        0x07, 0, 0, 0, // FIN
    ]);
    set_word(&mut img, 4, u32::MAX);
    set_word(&mut img, 8, 1);
    let mut c = machine(img);
    assert_eq!(c.execute(STEPS), Ok(RunOutcome::Halted));
    assert_eq!(c.state().register_value(Register::R2), 0);
}

#[test]
fn sub_wraps_around() {
    let mut img = image(&[
        0x02, 4, 8, 12, // SUB R0, R1, R2
        0x07, 0, 0, 0, // FIN
    ]);
    set_word(&mut img, 4, 0);
    set_word(&mut img, 8, 1);
    let mut c = machine(img);
    assert_eq!(c.execute(STEPS), Ok(RunOutcome::Halted));
    assert_eq!(c.state().register_value(Register::R2), u32::MAX);
}

#[test]
fn mul_wraps_around() {
    let mut img = image(&[
        0x03, 4, 8, 12, // MUL R0, R1, R2
        0x07, 0, 0, 0, // FIN
    ]);
    set_word(&mut img, 4, 0x8000_0001);
    set_word(&mut img, 8, 2);
    let mut c = machine(img);
    assert_eq!(c.execute(STEPS), Ok(RunOutcome::Halted));
    assert_eq!(c.state().register_value(Register::R2), 2);
}

#[test]
fn div_truncates_toward_zero() {
    let mut img = image(&[
        0x04, 4, 8, 12, // DIV R0, R1, R2
        0x07, 0, 0, 0, // FIN
    ]);
    set_word(&mut img, 4, 7);
    set_word(&mut img, 8, 2);
    let mut c = machine(img);
    assert_eq!(c.execute(STEPS), Ok(RunOutcome::Halted));
    assert_eq!(c.state().register_value(Register::R2), 3);
}

#[test]
fn div_by_zero_faults_without_touching_destination() {
    let mut img = image(&[
        0x04, 4, 8, 12, // DIV R0, R1, R2 with R1 = 0
        0x07, 0, 0, 0, // FIN
    ]);
    set_word(&mut img, 4, 7);
    set_word(&mut img, 12, 77); // sentinel in R2
    let mut c = machine(img);
    assert_eq!(c.execute(STEPS), Err(Fault::DivisionByZero));
    assert_eq!(c.state().register_value(Register::R2), 77);
}

#[test]
fn jump_skips_and_does_not_auto_advance() {
    let img = image(&[
        0x05, 8, 0, 0, // JMP +8: next fetch at 40, not 36 and not 44
        0x0C, 4, 1, 0, // LDABS R0, 1 (skipped)
        0x07, 0, 0, 0, // FIN at 40
    ]);
    let mut c = machine(img);
    assert_eq!(c.execute(STEPS), Ok(RunOutcome::Halted));
    assert_eq!(c.state().register_value(Register::R0), 0);
}

#[test]
fn jump_with_negative_offset() {
    let img = image(&[
        0x05, 12, 0, 0, // 32: JMP +12 -> 44
        0x0C, 4, 9, 0, // 36: LDABS R0, 9
        0x07, 0, 0, 0, // 40: FIN
        0x05, 0xF8, 0xFF, 0, // 44: JMP -8 -> 36
    ]);
    let mut c = machine(img);
    assert_eq!(c.execute(STEPS), Ok(RunOutcome::Halted));
    assert_eq!(c.state().register_value(Register::R0), 9);
}

#[test]
fn jump_wraps_past_zero_and_faults_out_of_bounds() {
    // JMP -36 from 32 wraps the instruction pointer to 0xFFFFFFFC
    let img = image(&[
        0x05, 0xDC, 0xFF, 0, // JMP -36
    ]);
    let mut c = machine(img);
    assert_eq!(c.execute(STEPS), Err(Fault::OutOfBounds(0xFFFF_FFFC)));
}

#[test]
fn call_and_ret_resume_after_call() {
    let mut img = image(&[
        0x17, 8, 0, 0, // 32: CALL +8 -> push 32, jump to 40
        0x07, 0, 0, 0, // 36: FIN
        0x0C, 4, 3, 0, // 40: LDABS R0, 3
        0x18, 0, 0, 0, // 44: RET -> pop 32, advance to 36
    ]);
    set_word(&mut img, 28, 64); // SP = 64
    img.resize(128, 0);
    let mut c = machine(img);
    assert_eq!(c.execute(STEPS), Ok(RunOutcome::Halted));
    assert_eq!(c.state().register_value(Register::R0), 3);
    assert_eq!(c.state().register_value(Register::SP), 64);
    // the call site is still in the stack slot
    assert_eq!(c.state().read_word(64), 32);
}

#[test]
fn push_pop_through_opcodes() {
    let mut img = image(&[
        0x15, 4, 0, 0, // PUSH R0
        0x16, 8, 0, 0, // POP R1
        0x07, 0, 0, 0, // FIN
    ]);
    set_word(&mut img, 4, 5);
    set_word(&mut img, 28, 64); // SP
    img.resize(128, 0);
    let mut c = machine(img);
    assert_eq!(c.execute(STEPS), Ok(RunOutcome::Halted));
    assert_eq!(c.state().register_value(Register::R1), 5);
    assert_eq!(c.state().register_value(Register::SP), 64);
}

#[test]
fn push_with_misaligned_stack_pointer_faults() {
    let mut img = image(&[
        0x15, 4, 0, 0, // PUSH R0
    ]);
    set_word(&mut img, 28, 33); // SP misaligned
    img.resize(128, 0);
    let mut c = machine(img);
    assert_eq!(c.execute(STEPS), Err(Fault::MisalignedAccess(33)));
}

#[test]
fn push_past_end_of_memory_faults() {
    let mut img = image(&[
        0x15, 4, 0, 0, // PUSH R0
    ]);
    let len = img.len() as u32; // 36, aligned
    set_word(&mut img, 28, len);
    let mut c = machine(img);
    assert_eq!(c.execute(STEPS), Err(Fault::OutOfBounds(len)));
}

#[test]
fn pop_below_zero_overflows() {
    let img = image(&[
        0x16, 4, 0, 0, // POP R0 with SP = 0
    ]);
    let mut c = machine(img);
    assert_eq!(c.execute(STEPS), Err(Fault::AddressOverflow));
}

#[test]
fn halt_then_restart_keeps_other_registers() {
    // each run adds 1 to R0
    let img = image(&[
        0x0C, 8, 1, 0, // LDABS R1, 1
        0x01, 4, 8, 4, // ADD R0, R1, R0
        0x07, 0, 0, 0, // FIN
    ]);
    let mut c = machine(img);
    assert_eq!(c.execute(STEPS), Ok(RunOutcome::Halted));
    assert_eq!(c.state().register_value(Register::R0), 1);
    assert_eq!(c.state().register_value(Register::END), 0);
    assert_eq!(c.state().register_value(Register::IP), 32);
    assert_eq!(c.execute(STEPS), Ok(RunOutcome::Halted));
    assert_eq!(c.state().register_value(Register::R0), 2);
    assert_eq!(c.state().register_value(Register::END), 0);
    assert_eq!(c.state().register_value(Register::IP), 32);
}

#[test]
fn compare_and_conditional_jumps() {
    // EQ R0,R1 (equal -> CMP=1); JEQ +8 skips the LDABS
    let mut img = image(&[
        0x09, 4, 8, 0, // 32: EQ R0, R1
        0x0E, 8, 0, 0, // 36: JEQ +8 -> 44
        0x0C, 12, 1, 0, // 40: LDABS R2, 1 (skipped)
        0x07, 0, 0, 0, // 44: FIN
    ]);
    set_word(&mut img, 4, 9);
    set_word(&mut img, 8, 9);
    let mut c = machine(img);
    assert_eq!(c.execute(STEPS), Ok(RunOutcome::Halted));
    assert_eq!(c.state().register_value(Register::CMP), 1);
    assert_eq!(c.state().register_value(Register::R2), 0);
}

#[test]
fn less_and_jne_not_taken() {
    // LT R0,R1 with 5 < 3 false -> CMP=0; JEQ falls through; LDABS runs
    let mut img = image(&[
        0x0A, 4, 8, 0, // LT R0, R1
        0x0E, 8, 0, 0, // JEQ +8 (not taken, CMP == 0)
        0x0C, 12, 1, 0, // LDABS R2, 1
        0x07, 0, 0, 0, // FIN
    ]);
    set_word(&mut img, 4, 5);
    set_word(&mut img, 8, 3);
    let mut c = machine(img);
    assert_eq!(c.execute(STEPS), Ok(RunOutcome::Halted));
    assert_eq!(c.state().register_value(Register::CMP), 0);
    assert_eq!(c.state().register_value(Register::R2), 1);
}

#[test]
fn less_equal_sets_flag() {
    let mut img = image(&[
        0x0B, 4, 8, 0, // LE R0, R1
        0x07, 0, 0, 0, // FIN
    ]);
    set_word(&mut img, 4, 3);
    set_word(&mut img, 8, 3);
    let mut c = machine(img);
    assert_eq!(c.execute(STEPS), Ok(RunOutcome::Halted));
    assert_eq!(c.state().register_value(Register::CMP), 1);
}

#[test]
fn jne_taken_when_flag_clear() {
    // CMP starts 0; JNE +8 jumps over the LDABS
    let img = image(&[
        0x0F, 8, 0, 0, // 32: JNE +8 -> 40
        0x0C, 12, 1, 0, // 36: LDABS R2, 1 (skipped)
        0x07, 0, 0, 0, // 40: FIN
    ]);
    let mut c = machine(img);
    assert_eq!(c.execute(STEPS), Ok(RunOutcome::Halted));
    assert_eq!(c.state().register_value(Register::R2), 0);
}

#[test]
fn move_copies_between_registers() {
    let mut img = image(&[
        0x13, 4, 16, 0, // MOV R0 -> R3
        0x07, 0, 0, 0, // FIN
    ]);
    set_word(&mut img, 4, 31337);
    let mut c = machine(img);
    assert_eq!(c.execute(STEPS), Ok(RunOutcome::Halted));
    assert_eq!(c.state().register_value(Register::R3), 31337);
}

#[test]
fn load_reads_byte_relative_to_ip() {
    let img = image(&[
        0x06, 4, 8, 0, // 32: LD R0, +8 -> byte at 40
        0x07, 0, 0, 0, // 36: FIN
        100, 0, 0, 0, // 40: data
    ]);
    let mut c = machine(img);
    assert_eq!(c.execute(STEPS), Ok(RunOutcome::Halted));
    assert_eq!(c.state().register_value(Register::R0), 100);
}

#[test]
fn load_with_negative_address_overflows() {
    let img = image(&[
        0x06, 4, 0x9C, 0xFF, // LD R0, -100 -> address -68
    ]);
    let mut c = machine(img);
    assert_eq!(c.execute(STEPS), Err(Fault::AddressOverflow));
}

#[test]
fn out_number_prints_decimal_digits() {
    let mut img = image(&[
        0x12, 4, 0, 0, // OUTNUM R0
        0x12, 8, 0, 0, // OUTNUM R1
        0x07, 0, 0, 0, // FIN
    ]);
    set_word(&mut img, 4, 4059);
    set_word(&mut img, 8, 0);
    let mut c = machine(img);
    assert_eq!(c.execute(STEPS), Ok(RunOutcome::Halted));
    assert_eq!(c.display().output_chars(), &vec!['4', '0', '5', '9', '0']);
}

#[test]
fn out_from_register_prints_one_char() {
    let mut img = image(&[
        0x10, 4, 0, 0, // OUTR R0
        0x07, 0, 0, 0, // FIN
    ]);
    set_word(&mut img, 4, 'A' as u32);
    let mut c = machine(img);
    assert_eq!(c.execute(STEPS), Ok(RunOutcome::Halted));
    assert_eq!(c.display().output_chars(), &vec!['A']);
}

#[test]
fn out_from_register_rejects_surrogate_code_point() {
    let mut img = image(&[
        0x10, 4, 0, 0, // OUTR R0
    ]);
    set_word(&mut img, 4, 0xD800);
    let mut c = machine(img);
    assert_eq!(c.execute(STEPS), Err(Fault::InvalidCodePoint(0xD800)));
}

#[test]
fn out_without_nul_prints_prefix_then_faults() {
    let mut img = image(&[
        0x08, 4, 0, 0, // OUT R0
        b'a', b'b', b'c', b'd', // 36..40: no NUL before the end
    ]);
    set_word(&mut img, 4, 36);
    let len = img.len() as u32; // 40
    let mut c = machine(img);
    assert_eq!(c.execute(STEPS), Err(Fault::OutOfBounds(len)));
    assert_eq!(c.display().output_chars(), &vec!['a', 'b', 'c', 'd']);
}

#[test]
fn input_pauses_then_reads_char() {
    let img = image(&[
        0x0D, 4, 0, 0, // IN R0
        0x07, 0, 0, 0, // FIN
    ]);
    let mut c = machine(img);
    assert_eq!(c.execute(STEPS), Ok(RunOutcome::AwaitingInput));
    c.provide_line(vec!['x', 'y']);
    assert_eq!(c.execute(STEPS), Ok(RunOutcome::Halted));
    assert_eq!(c.state().register_value(Register::R0), 'x' as u32);
}

#[test]
fn input_on_empty_line_exhausts() {
    let img = image(&[
        0x0D, 4, 0, 0, // IN R0
    ]);
    let mut c = machine(img);
    assert_eq!(c.execute(STEPS), Ok(RunOutcome::AwaitingInput));
    c.provide_line(Vec::new());
    assert_eq!(c.execute(STEPS), Err(Fault::InputExhausted));
}

#[test]
fn input_number_pauses_then_parses() {
    let img = image(&[
        0x14, 4, 0, 0, // INNUM R0
        0x07, 0, 0, 0, // FIN
    ]);
    let mut c = machine(img);
    assert_eq!(c.execute(STEPS), Ok(RunOutcome::AwaitingInput));
    c.provide_line(vec!['4', '2']);
    assert_eq!(c.execute(STEPS), Ok(RunOutcome::Halted));
    assert_eq!(c.state().register_value(Register::R0), 42);
}

#[test]
fn input_number_consumes_whole_buffer() {
    // IN takes '1'; INNUM then consumes the rest of the same line ("23")
    let img = image(&[
        0x0D, 4, 0, 0, // IN R0
        0x14, 8, 0, 0, // INNUM R1
        0x07, 0, 0, 0, // FIN
    ]);
    let mut c = machine(img);
    assert_eq!(c.execute(STEPS), Ok(RunOutcome::AwaitingInput));
    c.provide_line(vec!['1', '2', '3']);
    assert_eq!(c.execute(STEPS), Ok(RunOutcome::Halted));
    assert_eq!(c.state().register_value(Register::R0), '1' as u32);
    assert_eq!(c.state().register_value(Register::R1), 23);
}

#[test]
fn input_number_malformed_faults() {
    let img = image(&[
        0x14, 4, 0, 0, // INNUM R0
    ]);
    let mut c = machine(img);
    assert_eq!(c.execute(STEPS), Ok(RunOutcome::AwaitingInput));
    c.provide_line(vec!['4', 'a', '2']);
    assert_eq!(c.execute(STEPS), Err(Fault::MalformedNumber));
}

#[test]
fn unknown_opcode_faults() {
    let img = image(&[0xFF, 0, 0, 0]);
    let mut c = machine(img);
    assert_eq!(c.execute(STEPS), Err(Fault::InvalidOpcode(0xFF)));
}

#[test]
fn bad_register_byte_faults() {
    let img = image(&[0x01, 3, 8, 12]); // ADD with operand byte 3
    let mut c = machine(img);
    assert_eq!(c.execute(STEPS), Err(Fault::InvalidRegister(3)));
}

#[test]
fn misaligned_entry_point_faults() {
    let mut img = image(&[0x07, 0, 0, 0]);
    set_word(&mut img, 0, 34);
    let mut c = machine(img);
    assert_eq!(c.execute(STEPS), Err(Fault::MisalignedAccess(34)));
}

#[test]
fn entry_point_past_end_faults() {
    let mut img = image(&[0x07, 0, 0, 0]);
    let len = img.len() as u32; // 36
    set_word(&mut img, 0, len);
    let mut c = machine(img);
    assert_eq!(c.execute(STEPS), Err(Fault::OutOfBounds(len)));
}

#[test]
fn skip_does_nothing() {
    let img = image(&[
        0x11, 0, 0, 0, // SKIP
        0x07, 0, 0, 0, // FIN
    ]);
    let mut c = machine(img);
    assert_eq!(c.execute(STEPS), Ok(RunOutcome::Halted));
    assert_eq!(c.state().register_value(Register::R0), 0);
}

#[test]
fn step_budget_reports_still_running() {
    // a two-instruction loop that never halts
    let img = image(&[
        0x11, 0, 0, 0, // SKIP
        0x05, 0xFC, 0xFF, 0, // JMP -4
    ]);
    let mut c = machine(img);
    assert_eq!(c.execute(10), Ok(RunOutcome::StillRunning));
    assert_eq!(c.execute(11), Ok(RunOutcome::StillRunning));
}

#[test]
fn program_can_overwrite_its_own_entry_via_aliasing() {
    // LDABS writes the IP register directly: jumps to 44
    let img = image(&[
        0x0C, 0, 44, 0, // LDABS IP, 44 -> next fetch at 48 (auto-advance adds 4)
        0x0C, 12, 1, 0, // 36: LDABS R2, 1 (skipped)
        0x0C, 12, 2, 0, // 40: LDABS R2, 2 (skipped)
        0x0C, 12, 3, 0, // 44: skipped too: LDABS advanced IP to 48
        0x07, 0, 0, 0, // 48: FIN
    ]);
    let mut c = machine(img);
    assert_eq!(c.execute(STEPS), Ok(RunOutcome::Halted));
    assert_eq!(c.state().register_value(Register::R2), 0);
}
