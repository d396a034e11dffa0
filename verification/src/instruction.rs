//! The instruction set and the decoding of 16-bit opcodes.

use vstd::prelude::*;

verus! {

/// A decoded instruction. `x` and `y` are register indices, `value` an 8-bit
/// immediate, `address` a 12-bit address.
#[derive(Clone, Copy, Debug, PartialEq, Eq, Structural)]
pub enum Instruction {
    /// `00E0`: turn every pixel off.
    ClearScreen,
    /// `00EE`: return from a subroutine.
    Return,
    /// `1NNN`: jump to `address`.
    Jump { address: u16 },
    /// `2NNN`: call the subroutine at `address`.
    Call { address: u16 },
    /// `3XNN`: skip the next instruction if `VX == value`.
    SkipIfEqual { x: u8, value: u8 },
    /// `4XNN`: skip the next instruction if `VX != value`.
    SkipIfNotEqual { x: u8, value: u8 },
    /// `5XY0`: skip the next instruction if `VX == VY`.
    SkipIfRegistersEqual { x: u8, y: u8 },
    /// `6XNN`: `VX := value`.
    LoadImmediate { x: u8, value: u8 },
    /// `7XNN`: `VX := VX + value`, wrapping, without touching `VF`.
    AddImmediate { x: u8, value: u8 },
    /// `8XY0`: `VX := VY`.
    Move { x: u8, y: u8 },
    /// `8XY1`: `VX := VX | VY`.
    Or { x: u8, y: u8 },
    /// `8XY2`: `VX := VX & VY`.
    And { x: u8, y: u8 },
    /// `8XY3`: `VX := VX ^ VY`.
    Xor { x: u8, y: u8 },
    /// `8XY4`: `VX := VX + VY`, wrapping; `VF` is the carry.
    Add { x: u8, y: u8 },
    /// `8XY5`: `VX := VX - VY`, wrapping; `VF` is 1 on underflow.
    Subtract { x: u8, y: u8 },
    /// `8XY6`: `VX := VX >> 1`; `VF := 0`.
    ShiftRight { x: u8 },
    /// `8XY7`: `VX := VY - VX`, wrapping; `VF` is 1 on underflow.
    SubtractFrom { x: u8, y: u8 },
    /// `8XYE`: `VX := VX << 1`; `VF` is the bit shifted out.
    ShiftLeft { x: u8 },
    /// `9XY0`: skip the next instruction if `VX != VY`.
    SkipIfRegistersNotEqual { x: u8, y: u8 },
    /// `ANNN`: `I := address`.
    LoadIndex { address: u16 },
    /// `DXYN`: draw the `rows` bytes at `I` as a sprite at `(VX, VY)`.
    Draw { x: u8, y: u8, rows: u8 },
    /// `FX1E`: `I := I + VX`, modulo 2^16.
    AddToIndex { x: u8 },
    /// `FX33`: store the three decimal digits of `VX` at `I`, `I + 1`, `I + 2`.
    StoreDecimal { x: u8 },
    /// `FX55`: store `V0..=VX` at `I` and advance `I` past them.
    StoreRegisters { x: u8 },
    /// `FX65`: load `V0..=VX` from `I` and advance `I` past them.
    LoadRegisters { x: u8 },
    /// Any other opcode: nothing happens but the program counter's advance.
    Unsupported { opcode: u16 },
}

/// The second nibble of an opcode: the register index `X`.
pub open spec fn nibble_x(opcode: u16) -> u8 {
    ((opcode / 0x100) % 0x10) as u8
}

/// The third nibble of an opcode: the register index `Y`.
pub open spec fn nibble_y(opcode: u16) -> u8 {
    ((opcode / 0x10) % 0x10) as u8
}

/// The last nibble of an opcode: the immediate `N`.
pub open spec fn nibble_n(opcode: u16) -> u8 {
    (opcode % 0x10) as u8
}

/// The low byte of an opcode: the immediate `NN`.
pub open spec fn low_byte(opcode: u16) -> u8 {
    (opcode % 0x100) as u8
}

/// The low twelve bits of an opcode: the address `NNN`.
pub open spec fn low_address(opcode: u16) -> u16 {
    opcode % 0x1000
}

/// The instruction that an opcode encodes. The top nibble selects the
/// family; what is not in the table is `Unsupported`.
pub open spec fn decode_spec(opcode: u16) -> Instruction {
    let x = nibble_x(opcode);
    let y = nibble_y(opcode);
    let n = nibble_n(opcode);
    let value = low_byte(opcode);
    let address = low_address(opcode);
    let family = opcode / 0x1000;
    if opcode == 0x00E0 {
        Instruction::ClearScreen
    } else if opcode == 0x00EE {
        Instruction::Return
    } else if family == 0x1 {
        Instruction::Jump { address }
    } else if family == 0x2 {
        Instruction::Call { address }
    } else if family == 0x3 {
        Instruction::SkipIfEqual { x, value }
    } else if family == 0x4 {
        Instruction::SkipIfNotEqual { x, value }
    } else if family == 0x5 && n == 0x0 {
        Instruction::SkipIfRegistersEqual { x, y }
    } else if family == 0x6 {
        Instruction::LoadImmediate { x, value }
    } else if family == 0x7 {
        Instruction::AddImmediate { x, value }
    } else if family == 0x8 && n == 0x0 {
        Instruction::Move { x, y }
    } else if family == 0x8 && n == 0x1 {
        Instruction::Or { x, y }
    } else if family == 0x8 && n == 0x2 {
        Instruction::And { x, y }
    } else if family == 0x8 && n == 0x3 {
        Instruction::Xor { x, y }
    } else if family == 0x8 && n == 0x4 {
        Instruction::Add { x, y }
    } else if family == 0x8 && n == 0x5 {
        Instruction::Subtract { x, y }
    } else if family == 0x8 && n == 0x6 {
        Instruction::ShiftRight { x }
    } else if family == 0x8 && n == 0x7 {
        Instruction::SubtractFrom { x, y }
    } else if family == 0x8 && n == 0xE {
        Instruction::ShiftLeft { x }
    } else if family == 0x9 && n == 0x0 {
        Instruction::SkipIfRegistersNotEqual { x, y }
    } else if family == 0xA {
        Instruction::LoadIndex { address }
    } else if family == 0xD {
        Instruction::Draw { x, y, rows: n }
    } else if family == 0xF && value == 0x1E {
        Instruction::AddToIndex { x }
    } else if family == 0xF && value == 0x33 {
        Instruction::StoreDecimal { x }
    } else if family == 0xF && value == 0x55 {
        Instruction::StoreRegisters { x }
    } else if family == 0xF && value == 0x65 {
        Instruction::LoadRegisters { x }
    } else {
        Instruction::Unsupported { opcode }
    }
}

impl Instruction {
    /// Register indices and the row count are nibbles, addresses have
    /// twelve bits.
    pub open spec fn well_formed(self) -> bool {
        match self {
            Instruction::ClearScreen | Instruction::Return | Instruction::Unsupported { .. } => true,
            Instruction::Jump { address } | Instruction::Call { address } | Instruction::LoadIndex {
                address,
            } => address < 0x1000,
            Instruction::SkipIfEqual { x, .. }
            | Instruction::SkipIfNotEqual { x, .. }
            | Instruction::LoadImmediate { x, .. }
            | Instruction::AddImmediate { x, .. }
            | Instruction::ShiftRight { x }
            | Instruction::ShiftLeft { x }
            | Instruction::AddToIndex { x }
            | Instruction::StoreDecimal { x }
            | Instruction::StoreRegisters { x }
            | Instruction::LoadRegisters { x } => x < 16,
            Instruction::SkipIfRegistersEqual { x, y }
            | Instruction::Move { x, y }
            | Instruction::Or { x, y }
            | Instruction::And { x, y }
            | Instruction::Xor { x, y }
            | Instruction::Add { x, y }
            | Instruction::Subtract { x, y }
            | Instruction::SubtractFrom { x, y }
            | Instruction::SkipIfRegistersNotEqual { x, y } => x < 16 && y < 16,
            Instruction::Draw { x, y, rows } => x < 16 && y < 16 && rows < 16,
        }
    }
}

/// Decoding yields only well-formed instructions.
pub proof fn lemma_decode_well_formed(opcode: u16)
    ensures
        decode_spec(opcode).well_formed(),
{
}

/// Decodes an opcode.
pub fn decode(opcode: u16) -> (instruction: Instruction)
    ensures
        instruction == decode_spec(opcode),
        instruction.well_formed(),
{
    let family = opcode >> 12;
    let x = ((opcode >> 8) & 0xF) as u8;
    let y = ((opcode >> 4) & 0xF) as u8;
    let n = (opcode & 0xF) as u8;
    let value = (opcode & 0xFF) as u8;
    let address = opcode & 0x0FFF;
    proof {
        assert(opcode >> 12 == opcode / 0x1000) by (bit_vector);
        assert((opcode >> 8) & 0xF == (opcode / 0x100) % 0x10) by (bit_vector);
        assert((opcode >> 4) & 0xF == (opcode / 0x10) % 0x10) by (bit_vector);
        assert(opcode & 0xF == opcode % 0x10) by (bit_vector);
        assert(opcode & 0xFF == opcode % 0x100) by (bit_vector);
        assert(opcode & 0x0FFF == opcode % 0x1000) by (bit_vector);
    }
    match family {
        0x0 => {
            if opcode == 0x00E0 {
                Instruction::ClearScreen
            } else if opcode == 0x00EE {
                Instruction::Return
            } else {
                Instruction::Unsupported { opcode }
            }
        },
        0x1 => Instruction::Jump { address },
        0x2 => Instruction::Call { address },
        0x3 => Instruction::SkipIfEqual { x, value },
        0x4 => Instruction::SkipIfNotEqual { x, value },
        0x5 => {
            if n == 0x0 {
                Instruction::SkipIfRegistersEqual { x, y }
            } else {
                Instruction::Unsupported { opcode }
            }
        },
        0x6 => Instruction::LoadImmediate { x, value },
        0x7 => Instruction::AddImmediate { x, value },
        0x8 => match n {
            0x0 => Instruction::Move { x, y },
            0x1 => Instruction::Or { x, y },
            0x2 => Instruction::And { x, y },
            0x3 => Instruction::Xor { x, y },
            0x4 => Instruction::Add { x, y },
            0x5 => Instruction::Subtract { x, y },
            0x6 => Instruction::ShiftRight { x },
            0x7 => Instruction::SubtractFrom { x, y },
            0xE => Instruction::ShiftLeft { x },
            _ => Instruction::Unsupported { opcode },
        },
        0x9 => {
            if n == 0x0 {
                Instruction::SkipIfRegistersNotEqual { x, y }
            } else {
                Instruction::Unsupported { opcode }
            }
        },
        0xA => Instruction::LoadIndex { address },
        0xD => Instruction::Draw { x, y, rows: n },
        0xF => match value {
            0x1E => Instruction::AddToIndex { x },
            0x33 => Instruction::StoreDecimal { x },
            0x55 => Instruction::StoreRegisters { x },
            0x65 => Instruction::LoadRegisters { x },
            _ => Instruction::Unsupported { opcode },
        },
        _ => Instruction::Unsupported { opcode },
    }
}

} // verus!
