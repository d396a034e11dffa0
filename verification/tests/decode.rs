use rc80_core::{decode, Instruction};

#[test]
fn decodes_the_instruction_table() {
    assert_eq!(decode(0x00E0), Instruction::ClearScreen);
    assert_eq!(decode(0x00EE), Instruction::Return);
    assert_eq!(decode(0x1ABC), Instruction::Jump { address: 0xABC });
    assert_eq!(decode(0x2ABC), Instruction::Call { address: 0xABC });
    assert_eq!(decode(0x3A12), Instruction::SkipIfEqual { x: 0xA, value: 0x12 });
    assert_eq!(decode(0x4A12), Instruction::SkipIfNotEqual { x: 0xA, value: 0x12 });
    assert_eq!(decode(0x5AB0), Instruction::SkipIfRegistersEqual { x: 0xA, y: 0xB });
    assert_eq!(decode(0x6A12), Instruction::LoadImmediate { x: 0xA, value: 0x12 });
    assert_eq!(decode(0x7A12), Instruction::AddImmediate { x: 0xA, value: 0x12 });
    assert_eq!(decode(0x8AB0), Instruction::Move { x: 0xA, y: 0xB });
    assert_eq!(decode(0x8AB1), Instruction::Or { x: 0xA, y: 0xB });
    assert_eq!(decode(0x8AB2), Instruction::And { x: 0xA, y: 0xB });
    assert_eq!(decode(0x8AB3), Instruction::Xor { x: 0xA, y: 0xB });
    assert_eq!(decode(0x8AB4), Instruction::Add { x: 0xA, y: 0xB });
    assert_eq!(decode(0x8AB5), Instruction::Subtract { x: 0xA, y: 0xB });
    assert_eq!(decode(0x8AB6), Instruction::ShiftRight { x: 0xA });
    assert_eq!(decode(0x8AB7), Instruction::SubtractFrom { x: 0xA, y: 0xB });
    assert_eq!(decode(0x8ABE), Instruction::ShiftLeft { x: 0xA });
    assert_eq!(decode(0x9AB0), Instruction::SkipIfRegistersNotEqual { x: 0xA, y: 0xB });
    assert_eq!(decode(0xAABC), Instruction::LoadIndex { address: 0xABC });
    assert_eq!(decode(0xDAB7), Instruction::Draw { x: 0xA, y: 0xB, rows: 7 });
    assert_eq!(decode(0xFA1E), Instruction::AddToIndex { x: 0xA });
    assert_eq!(decode(0xFA33), Instruction::StoreDecimal { x: 0xA });
    assert_eq!(decode(0xFA55), Instruction::StoreRegisters { x: 0xA });
    assert_eq!(decode(0xFA65), Instruction::LoadRegisters { x: 0xA });
}

#[test]
fn decodes_everything_else_as_unsupported() {
    for opcode in [
        0x0000u16, 0x00E1, 0x00EF, 0x0ABC, 0x5AB1, 0x5ABF, 0x8AB8, 0x8AB9, 0x8ABA, 0x8ABB, 0x8ABC,
        0x8ABD, 0x8ABF, 0x9AB1, 0xBABC, 0xCA12, 0xEA9E, 0xEAA1, 0xFA07, 0xFA0A, 0xFA15, 0xFA18,
        0xFA29, 0xFAFF,
    ] {
        assert_eq!(decode(opcode), Instruction::Unsupported { opcode });
    }
}

#[test]
fn every_opcode_of_a_family_decodes_into_it() {
    for low in 0..=0x0FFFu16 {
        assert_eq!(decode(0x1000 | low), Instruction::Jump { address: low });
        assert_eq!(decode(0x2000 | low), Instruction::Call { address: low });
        assert_eq!(decode(0xA000 | low), Instruction::LoadIndex { address: low });
        assert_eq!(
            decode(0x6000 | low),
            Instruction::LoadImmediate { x: (low >> 8) as u8, value: low as u8 }
        );
        assert_eq!(
            decode(0xD000 | low),
            Instruction::Draw { x: (low >> 8) as u8, y: (low >> 4 & 0xF) as u8, rows: (low & 0xF) as u8 }
        );
    }
}
