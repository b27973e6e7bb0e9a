use emu_8080::disassembler::{decode, Condition, Instruction, Register, RegisterPair, StackPair};

#[test]
fn decode_is_total_with_valid_size_and_cycles() {
    for opcode in 0..=255u8 {
        let instruction = decode(opcode);
        let size = instruction.size();
        assert!(
            (1..=3).contains(&size),
            "opcode {:#04x} decodes to a size of {}",
            opcode,
            size
        );
        assert!(
            instruction.cycles() > 0,
            "opcode {:#04x} decodes to zero cycles",
            opcode
        );
    }
}

#[test]
fn three_byte_instructions_carry_a_16_bit_operand() {
    for opcode in [0x01, 0x11, 0x21, 0x31, 0x22, 0x2A, 0x32, 0x3A, 0xC3, 0xC2, 0xCD, 0xFC] {
        assert_eq!(decode(opcode).size(), 3, "opcode {:#04x}", opcode);
    }
}

#[test]
fn two_byte_instructions_carry_an_8_bit_immediate() {
    for opcode in [0x06, 0x0E, 0x36, 0x3E, 0xC6, 0xCE, 0xD6, 0xDE, 0xE6, 0xEE, 0xF6, 0xFE, 0xD3, 0xDB] {
        assert_eq!(decode(opcode).size(), 2, "opcode {:#04x}", opcode);
    }
}

#[test]
fn single_byte_instructions_have_no_operand() {
    for opcode in [0x00, 0x07, 0x27, 0x40, 0x76, 0x80, 0xC1, 0xC5, 0xC9, 0xE3, 0xE9, 0xF9, 0xFB] {
        assert_eq!(decode(opcode).size(), 1, "opcode {:#04x}", opcode);
    }
}

#[test]
fn cycle_costs_match_the_datasheet() {
    assert_eq!(decode(0x00).cycles(), 4); // NOP
    assert_eq!(decode(0x41).cycles(), 5); // MOV B,C
    assert_eq!(decode(0x46).cycles(), 7); // MOV B,M
    assert_eq!(decode(0x70).cycles(), 7); // MOV M,B
    assert_eq!(decode(0x06).cycles(), 7); // MVI B
    assert_eq!(decode(0x36).cycles(), 10); // MVI M
    assert_eq!(decode(0x01).cycles(), 10); // LXI B
    assert_eq!(decode(0x3A).cycles(), 13); // LDA
    assert_eq!(decode(0x32).cycles(), 13); // STA
    assert_eq!(decode(0x2A).cycles(), 16); // LHLD
    assert_eq!(decode(0x22).cycles(), 16); // SHLD
    assert_eq!(decode(0x0A).cycles(), 7); // LDAX B
    assert_eq!(decode(0xEB).cycles(), 4); // XCHG
    assert_eq!(decode(0x80).cycles(), 4); // ADD B
    assert_eq!(decode(0x86).cycles(), 7); // ADD M
    assert_eq!(decode(0xC6).cycles(), 7); // ADI
    assert_eq!(decode(0x04).cycles(), 5); // INR B
    assert_eq!(decode(0x34).cycles(), 10); // INR M
    assert_eq!(decode(0x03).cycles(), 5); // INX B
    assert_eq!(decode(0x09).cycles(), 10); // DAD B
    assert_eq!(decode(0x27).cycles(), 4); // DAA
    assert_eq!(decode(0xA0).cycles(), 4); // ANA B
    assert_eq!(decode(0xA6).cycles(), 7); // ANA M
    assert_eq!(decode(0x07).cycles(), 4); // RLC
    assert_eq!(decode(0xC3).cycles(), 10); // JMP
    assert_eq!(decode(0xC2).cycles(), 10); // JNZ
    assert_eq!(decode(0xCD).cycles(), 17); // CALL
    assert_eq!(decode(0xC4).cycles(), 17); // CNZ
    assert_eq!(decode(0xC9).cycles(), 10); // RET
    assert_eq!(decode(0xC0).cycles(), 11); // RNZ
    assert_eq!(decode(0xC7).cycles(), 11); // RST 0
    assert_eq!(decode(0xE9).cycles(), 5); // PCHL
    assert_eq!(decode(0xC5).cycles(), 11); // PUSH B
    assert_eq!(decode(0xC1).cycles(), 10); // POP B
    assert_eq!(decode(0xE3).cycles(), 18); // XTHL
    assert_eq!(decode(0xF9).cycles(), 5); // SPHL
    assert_eq!(decode(0xDB).cycles(), 10); // IN
    assert_eq!(decode(0xD3).cycles(), 10); // OUT
    assert_eq!(decode(0xFB).cycles(), 4); // EI
    assert_eq!(decode(0xF3).cycles(), 4); // DI
    assert_eq!(decode(0x76).cycles(), 7); // HLT
}

#[test]
fn undocumented_bytes_alias_documented_identities() {
    for opcode in [0x08, 0x10, 0x18, 0x20, 0x28, 0x30, 0x38] {
        assert_eq!(decode(opcode), Instruction::Nop, "opcode {:#04x}", opcode);
    }
    assert_eq!(decode(0xCB), Instruction::Jmp);
    assert_eq!(decode(0xD9), Instruction::Ret);
    for opcode in [0xDD, 0xED, 0xFD] {
        assert_eq!(decode(opcode), Instruction::Call, "opcode {:#04x}", opcode);
    }
}

#[test]
fn move_quadrant_decodes_by_bit_fields() {
    assert_eq!(decode(0x76), Instruction::Hlt);
    assert_eq!(decode(0x40), Instruction::Mov(Register::B, Register::B));
    assert_eq!(decode(0x41), Instruction::Mov(Register::B, Register::C));
    assert_eq!(decode(0x56), Instruction::Mov(Register::D, Register::M));
    assert_eq!(decode(0x77), Instruction::Mov(Register::M, Register::A));
    assert_eq!(decode(0x7F), Instruction::Mov(Register::A, Register::A));
}

#[test]
fn arithmetic_quadrant_decodes_by_bit_fields() {
    assert_eq!(decode(0x80), Instruction::Add(Register::B));
    assert_eq!(decode(0x8E), Instruction::Adc(Register::M));
    assert_eq!(decode(0x97), Instruction::Sub(Register::A));
    assert_eq!(decode(0x9D), Instruction::Sbb(Register::L));
    assert_eq!(decode(0xA2), Instruction::Ana(Register::D));
    assert_eq!(decode(0xAB), Instruction::Xra(Register::E));
    assert_eq!(decode(0xB4), Instruction::Ora(Register::H));
    assert_eq!(decode(0xBF), Instruction::Cmp(Register::A));
}

#[test]
fn branch_and_stack_quadrant_decodes_by_bit_fields() {
    assert_eq!(decode(0xC2), Instruction::Jcond(Condition::NotZero));
    assert_eq!(decode(0xCA), Instruction::Jcond(Condition::Zero));
    assert_eq!(decode(0xD2), Instruction::Jcond(Condition::NoCarry));
    assert_eq!(decode(0xDA), Instruction::Jcond(Condition::Carry));
    assert_eq!(decode(0xE2), Instruction::Jcond(Condition::ParityOdd));
    assert_eq!(decode(0xEA), Instruction::Jcond(Condition::ParityEven));
    assert_eq!(decode(0xF2), Instruction::Jcond(Condition::Plus));
    assert_eq!(decode(0xFA), Instruction::Jcond(Condition::Minus));
    assert_eq!(decode(0xC5), Instruction::Push(StackPair::BC));
    assert_eq!(decode(0xF5), Instruction::Push(StackPair::PSW));
    assert_eq!(decode(0xF1), Instruction::Pop(StackPair::PSW));
    assert_eq!(decode(0xC7), Instruction::Rst(0));
    assert_eq!(decode(0xFF), Instruction::Rst(7));
    assert_eq!(decode(0x31), Instruction::Lxi(RegisterPair::SP));
    assert_eq!(decode(0x39), Instruction::Dad(RegisterPair::SP));
}
