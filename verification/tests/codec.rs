use bytevm::controller::Controller;
use bytevm::decoder::{decode, Instruction};
use bytevm::instruction::{
    AddInstruction, CallInstruction, DerefInstruction, JumpInstruction, LoadAbsoluteInstruction,
};
use bytevm::memory::VirtualMemory;
use bytevm::numeral::{parse_u32, u32_to_decimal};
use bytevm::state::{Register, State};
use bytevm::Fault;

fn chars(s: &str) -> Vec<char> {
    s.chars().collect()
}

#[test]
fn parse_accepts_plain_and_signed_decimals() {
    assert_eq!(parse_u32(&chars("0")), Some(0));
    assert_eq!(parse_u32(&chars("42")), Some(42));
    assert_eq!(parse_u32(&chars("+123")), Some(123));
    assert_eq!(parse_u32(&chars("042")), Some(42));
    assert_eq!(parse_u32(&chars("4294967295")), Some(u32::MAX));
}

#[test]
fn parse_rejects_malformed_and_overflowing_input() {
    assert_eq!(parse_u32(&chars("")), None);
    assert_eq!(parse_u32(&chars("+")), None);
    assert_eq!(parse_u32(&chars("12a")), None);
    assert_eq!(parse_u32(&chars("-1")), None);
    assert_eq!(parse_u32(&chars(" 1")), None);
    assert_eq!(parse_u32(&chars("4294967296")), None);
    assert_eq!(parse_u32(&chars("99999999999")), None);
}

#[test]
fn format_produces_decimal_digits() {
    assert_eq!(u32_to_decimal(0), chars("0"));
    assert_eq!(u32_to_decimal(7), chars("7"));
    assert_eq!(u32_to_decimal(4059), chars("4059"));
    assert_eq!(u32_to_decimal(1000), chars("1000"));
    assert_eq!(u32_to_decimal(u32::MAX), chars("4294967295"));
}

#[test]
fn decode_builds_the_matching_handler() {
    assert_eq!(
        decode(&[0x01, 4, 8, 12]),
        Ok(Instruction::Add(AddInstruction {
            first_register: Register::R0,
            second_register: Register::R1,
            third_register: Register::R2,
        }))
    );
    assert_eq!(
        decode(&[0x05, 0xF8, 0xFF, 0]),
        Ok(Instruction::Jump(JumpInstruction { offset: -8 }))
    );
    assert_eq!(
        decode(&[0x0C, 4, 0x34, 0x12]),
        Ok(Instruction::LoadAbsolute(LoadAbsoluteInstruction {
            register: Register::R0,
            value: 0x1234,
        }))
    );
    assert_eq!(
        decode(&[0x17, 4, 0, 0]),
        Ok(Instruction::Call(CallInstruction { offset: 4 }))
    );
}

#[test]
fn decode_rejects_unknown_opcode_and_bad_register() {
    assert_eq!(decode(&[0x00, 0, 0, 0]), Err(Fault::InvalidOpcode(0x00)));
    assert_eq!(decode(&[0x19, 0, 0, 0]), Err(Fault::InvalidOpcode(0x19)));
    assert_eq!(decode(&[0x01, 4, 8, 32]), Err(Fault::InvalidRegister(32)));
    assert_eq!(decode(&[0x13, 5, 8, 0]), Err(Fault::InvalidRegister(5)));
}

#[test]
fn instruction_constructors_parse_operand_bytes() {
    let add = AddInstruction::new(&[0x01, 4, 8, 12]);
    assert_eq!(add.first_register, Register::R0);
    assert_eq!(add.second_register, Register::R1);
    assert_eq!(add.third_register, Register::R2);
    let jump = JumpInstruction::new(&[0x05, 0x00, 0x80, 0]);
    assert_eq!(jump.offset, i16::MIN);
}

#[test]
fn deref_copies_a_word_onto_a_register_slot() {
    // the shelved dereference handler, run directly: R1 holds 40,
    // memory at 40 holds a word; the copy lands on R0's word address
    let mut img = vec![0u8; 64];
    img[0..4].copy_from_slice(&32u32.to_le_bytes());
    img[8..12].copy_from_slice(&40u32.to_le_bytes()); // R1 = 40
    img[40..44].copy_from_slice(&[1, 2, 3, 4]);
    let mut c = Controller::new(State::new(VirtualMemory::new(img)));
    let deref = DerefInstruction::new(&[0x19, 4, 8, 0]);
    deref.execute(&mut c).unwrap();
    assert_eq!(c.state().register_value(Register::R0), 0x0403_0201);
}
