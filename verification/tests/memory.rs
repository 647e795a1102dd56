use bytevm::memory::VirtualMemory;
use bytevm::state::{Register, State};

#[test]
fn it_works() {
    let mut buffer = vec![0u8; 256];
    let data = [18u8, 52, 0, 0];
    for (i, elem) in data.into_iter().enumerate() {
        buffer[i] = elem;
    }

    let mut memory_handler = VirtualMemory::new(buffer);

    assert_eq!(memory_handler.read_word(0), [18, 52, 0, 0]);

    memory_handler.write_byte(5, 12);
    assert_eq!(memory_handler.read_byte(5), 12);

    memory_handler.write_byte(5, 0);
}

#[test]
fn memory_it_works() {
    let mut buffer = vec![0u8; 256];
    let data = [18u8, 52, 0, 0];
    for (i, elem) in data.into_iter().enumerate() {
        buffer[i] = elem;
    }

    let mut memory_handler = VirtualMemory::new(buffer);

    assert_eq!(memory_handler.read_word(0), [18, 52, 0, 0]);

    memory_handler.write_byte(5, 12);
    assert_eq!(memory_handler.read_byte(5), 12);

    memory_handler.write_byte(5, 0);
}

#[test]
fn word_write_read_roundtrip() {
    let mut memory = VirtualMemory::new(vec![0u8; 64]);
    memory.write_word(40, &[0xDD, 0xCC, 0xBB, 0xAA]);
    assert_eq!(memory.read_word(40), [0xDD, 0xCC, 0xBB, 0xAA]);
    assert_eq!(memory.read_byte(40), 0xDD);
    assert_eq!(memory.read_byte(43), 0xAA);
}

#[test]
fn register_aliasing_write_register_read_memory() {
    let memory = VirtualMemory::new(vec![0u8; 64]);
    let mut state = State::new(memory);
    state.set_register_value(Register::R0, 0xAABB_CCDD);
    let bytes = state.get_memory_handler().read_word(4);
    assert_eq!(bytes, [0xDD, 0xCC, 0xBB, 0xAA]);
    assert_eq!(state.read_word(4), 0xAABB_CCDD);
}

#[test]
fn register_aliasing_write_memory_read_register() {
    let memory = VirtualMemory::new(vec![0u8; 64]);
    let mut state = State::new(memory);
    state.get_mut_memory_handler().write_word(4, &[0xDD, 0xCC, 0xBB, 0xAA]);
    assert_eq!(state.register_value(Register::R0), 0xAABB_CCDD);
}

#[test]
fn register_addresses_are_fixed() {
    let regs = [
        (Register::IP, 0u32),
        (Register::R0, 4),
        (Register::R1, 8),
        (Register::R2, 12),
        (Register::R3, 16),
        (Register::CMP, 20),
        (Register::END, 24),
        (Register::SP, 28),
    ];
    for (r, a) in regs {
        assert_eq!(r.as_addr(), a);
        assert_eq!(Register::from_addr(a).as_addr(), a);
    }
}

#[test]
fn push_and_pop_round_trip() {
    let mut image = vec![0u8; 128];
    image[28] = 64; // SP
    let mut state = State::new(VirtualMemory::new(image));
    state.set_register_value(Register::R0, 12345);
    state.push_to_stack(Register::R0).unwrap();
    assert_eq!(state.register_value(Register::SP), 68);
    assert_eq!(state.read_word(64), 12345);
    state.pop_from_stack(Register::R1).unwrap();
    assert_eq!(state.register_value(Register::SP), 64);
    assert_eq!(state.register_value(Register::R1), 12345);
}
