use chip8::instruction::Instruction;
use chip8::rom::Rom;

fn dec(w: u16) -> Instruction {
    Instruction::decode(w)
}

#[test]
fn decodes_system_group() {
    assert_eq!(dec(0x00E0), Instruction::CLS);
    assert_eq!(dec(0x00EE), Instruction::RET);
    assert_eq!(dec(0x0123), Instruction::SYS(0x123));
}

#[test]
fn decodes_jumps_and_calls() {
    assert_eq!(dec(0x1ABC), Instruction::JP(0xABC));
    assert_eq!(dec(0x2300), Instruction::CALL(0x300));
    assert_eq!(dec(0xB123), Instruction::JP3N(0x123));
}

#[test]
fn decodes_skips() {
    assert_eq!(dec(0x3A42), Instruction::SIREB(0xA, 0x42));
    assert_eq!(dec(0x4A42), Instruction::SIRNEB(0xA, 0x42));
    assert_eq!(dec(0x5AB0), Instruction::SIRER(0xA, 0xB));
    assert_eq!(dec(0x9AB0), Instruction::SIRNER(0xA, 0xB));
    assert_eq!(dec(0xE59E), Instruction::SKP(5));
    assert_eq!(dec(0xE5A1), Instruction::SKNP(5));
}

#[test]
fn decodes_loads_and_adds() {
    assert_eq!(dec(0x6A0C), Instruction::LDBR(0xA, 0x0C));
    assert_eq!(dec(0x7A0C), Instruction::ADDBR(0xA, 0x0C));
    assert_eq!(dec(0xA2F0), Instruction::LD3NI(0x2F0));
    assert_eq!(dec(0xC3F0), Instruction::RND(3, 0xF0));
    assert_eq!(dec(0xD125), Instruction::DRW(1, 2, 5));
}

#[test]
fn decodes_alu_group() {
    assert_eq!(dec(0x8120), Instruction::LDRR(1, 2));
    assert_eq!(dec(0x8121), Instruction::OR(1, 2));
    assert_eq!(dec(0x8122), Instruction::AND(1, 2));
    assert_eq!(dec(0x8123), Instruction::XOR(1, 2));
    assert_eq!(dec(0x8124), Instruction::ADDRR(1, 2));
    assert_eq!(dec(0x8125), Instruction::SUB(1, 2));
    assert_eq!(dec(0x8126), Instruction::SHR(1));
    assert_eq!(dec(0x8127), Instruction::SUBN(1, 2));
    assert_eq!(dec(0x812E), Instruction::SHL(1));
}

#[test]
fn decodes_f_group() {
    assert_eq!(dec(0xF707), Instruction::LDDTR(7));
    assert_eq!(dec(0xF715), Instruction::LDRDT(7));
    assert_eq!(dec(0xF70A), Instruction::LDKR(7));
    assert_eq!(dec(0xF718), Instruction::LDRST(7));
    assert_eq!(dec(0xF729), Instruction::LDSI(7));
    assert_eq!(dec(0xF733), Instruction::LDRBCDL(7));
    assert_eq!(dec(0xF755), Instruction::LDRRL(7));
    assert_eq!(dec(0xF765), Instruction::LDLRR(7));
    assert_eq!(dec(0xF71E), Instruction::ADDRI(7));
}

#[test]
fn unmapped_words_decode_to_err() {
    assert_eq!(dec(0x5AB1), Instruction::ERR(0x5AB1));
    assert_eq!(dec(0x9AB3), Instruction::ERR(0x9AB3));
    assert_eq!(dec(0x8128), Instruction::ERR(0x8128));
    assert_eq!(dec(0xE500), Instruction::ERR(0xE500));
    assert_eq!(dec(0xF700), Instruction::ERR(0xF700));
}

#[test]
fn decoding_twice_gives_equal_instructions() {
    for w in 0..=u16::MAX {
        let bytes = [(w >> 8) as u8, w as u8];
        assert_eq!(Instruction::from(bytes), Instruction::from(bytes));
        assert_eq!(Instruction::from(bytes), dec(w));
    }
}

#[test]
fn rom_decodes_instruction_at_address() {
    let rom = Rom::new(vec![0x00, 0xE0, 0x6A, 0x0C]);
    assert_eq!(rom.offset(), 0x200);
    assert_eq!(rom.instruction(0), Instruction::CLS);
    assert_eq!(rom.instruction(2), Instruction::LDBR(0xA, 0x0C));
    assert_eq!(rom.instruction(1), Instruction::ERR(0xE06A));
}
