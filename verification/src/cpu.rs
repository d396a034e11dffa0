//! The instruction cycle: fetch, decode, execute, advance.

use vstd::prelude::*;
use crate::display::{blank_screen, blit_collides, blit_pixels};
use crate::instruction::{decode, decode_spec, Instruction};
use crate::machine::{flag, Fault, Machine, System, MEMORY_SIZE, REGISTER_AMOUNT, STACK_SIZE};

verus! {

/// `value` reduced to eight bits.
pub open spec fn wrap8(value: int) -> u8 {
    (value % 0x100) as u8
}

/// `value` reduced to sixteen bits.
pub open spec fn wrap16(value: int) -> u16 {
    (value % 0x10000) as u16
}

/// The big-endian 16-bit word at `address` and `address + 1`.
pub open spec fn word_at(memory: Seq<u8>, address: int) -> u16 {
    (memory[address] * 0x100 + memory[address + 1]) as u16
}

/// Pixel number `column` (0 is leftmost) of a sprite row: the bits of
/// `byte` from the most significant one down.
pub open spec fn pixel_bit(byte: u8, column: int) -> u8 {
    (byte >> ((7 - column) as u8)) & 1
}

/// The pixels of the sprite of `rows` bytes that starts at `index`: eight
/// per byte, row after row.
pub open spec fn sprite_at(memory: Seq<u8>, index: int, rows: int) -> Seq<u8> {
    Seq::new((8 * rows) as nat, |i: int| pixel_bit(memory[index + i / 8], i % 8))
}

/// Whether the `count` bytes from `index` on lie inside memory. No byte at
/// all always does.
pub open spec fn operand_in_memory(index: int, count: int) -> bool {
    count == 0 || index + count <= MEMORY_SIZE
}

/// Memory after the three decimal digits of `value` were stored from
/// `index` on: hundreds, tens, units.
pub open spec fn with_decimal(memory: Seq<u8>, index: int, value: u8) -> Seq<u8> {
    memory.update(index, value / 100).update(index + 1, (value / 10) % 10).update(
        index + 2,
        value % 10,
    )
}

/// Memory after the first `count` registers were stored from `index` on.
pub open spec fn with_registers_stored(
    memory: Seq<u8>,
    index: int,
    registers: Seq<u8>,
    count: int,
) -> Seq<u8> {
    Seq::new(
        memory.len(),
        |i: int|
            if index <= i < index + count {
                registers[i - index]
            } else {
                memory[i]
            },
    )
}

/// The registers after the first `count` of them were loaded from memory
/// at `index` on.
pub open spec fn with_registers_loaded(
    registers: Seq<u8>,
    memory: Seq<u8>,
    index: int,
    count: int,
) -> Seq<u8> {
    Seq::new(
        registers.len(),
        |i: int|
            if i < count {
                memory[index + i]
            } else {
                registers[i]
            },
    )
}

impl Machine {
    /// The value of register `VX`.
    pub open spec fn register(self, x: u8) -> u8 {
        self.registers[x as int]
    }

    /// The machine with `VX` set to `value`.
    pub open spec fn with_register(self, x: u8, value: u8) -> Machine {
        Machine { registers: self.registers.update(x as int, value), ..self }
    }

    /// The machine with `VF` set to 1 if `raised`, else to 0.
    pub open spec fn with_flag(self, raised: bool) -> Machine {
        self.with_register(15, flag(raised))
    }

    /// The machine with the program counter moved forward by `by` bytes.
    pub open spec fn advanced(self, by: int) -> Machine {
        Machine { program_counter: (self.program_counter + by) as u16, ..self }
    }

    /// The machine after a skip instruction: past the next instruction if
    /// `taken`, else at it.
    pub open spec fn skipped(self, taken: bool) -> Machine {
        self.advanced(
            if taken {
                4
            } else {
                2
            },
        )
    }
}

/// The opcode at the program counter, or `Fault::Fetch` where the program
/// counter does not leave room for two bytes inside memory.
pub open spec fn fetch_spec(m: Machine) -> Result<u16, Fault> {
    if m.program_counter + 1 < MEMORY_SIZE {
        Ok(word_at(m.memory, m.program_counter as int))
    } else {
        Err(Fault::Fetch)
    }
}

/// The machine after `instruction`, fetched at the program counter, was
/// executed, or the fault that stops it.
///
/// A call pushes its own address, not that of the instruction behind it; a
/// return pops an address, zeroes its slot and continues two bytes behind
/// that address, modulo 2^16. An instruction that writes both `VX` and `VF`
/// writes `VF` last, so the flag wins where `X` is `F`. A draw reads its
/// coordinates before it writes the flag.
pub open spec fn execute_spec(m: Machine, instruction: Instruction) -> Result<Machine, Fault> {
    match instruction {
        Instruction::ClearScreen => Ok((Machine { pixels: blank_screen(), ..m }).advanced(2)),
        Instruction::Return => {
            if 1 <= m.stack_pointer <= STACK_SIZE {
                let top = m.stack_pointer - 1;
                Ok(
                    Machine {
                        program_counter: wrap16(m.stack[top] + 2),
                        stack_pointer: top as u8,
                        stack: m.stack.update(top, 0),
                        ..m
                    },
                )
            } else {
                Err(Fault::Stack)
            }
        },
        Instruction::Jump { address } => Ok(Machine { program_counter: address, ..m }),
        Instruction::Call { address } => {
            if m.stack_pointer < STACK_SIZE {
                Ok(
                    Machine {
                        program_counter: address,
                        stack_pointer: (m.stack_pointer + 1) as u8,
                        stack: m.stack.update(m.stack_pointer as int, m.program_counter),
                        ..m
                    },
                )
            } else {
                Err(Fault::Stack)
            }
        },
        Instruction::SkipIfEqual { x, value } => Ok(m.skipped(m.register(x) == value)),
        Instruction::SkipIfNotEqual { x, value } => Ok(m.skipped(m.register(x) != value)),
        Instruction::SkipIfRegistersEqual { x, y } => Ok(m.skipped(m.register(x) == m.register(y))),
        Instruction::SkipIfRegistersNotEqual { x, y } => Ok(
            m.skipped(m.register(x) != m.register(y)),
        ),
        Instruction::LoadImmediate { x, value } => Ok(m.with_register(x, value).advanced(2)),
        Instruction::AddImmediate { x, value } => Ok(
            m.with_register(x, wrap8(m.register(x) + value)).advanced(2),
        ),
        Instruction::Move { x, y } => Ok(m.with_register(x, m.register(y)).advanced(2)),
        Instruction::Or { x, y } => Ok(
            m.with_register(x, m.register(x) | m.register(y)).advanced(2),
        ),
        Instruction::And { x, y } => Ok(
            m.with_register(x, m.register(x) & m.register(y)).advanced(2),
        ),
        Instruction::Xor { x, y } => Ok(
            m.with_register(x, m.register(x) ^ m.register(y)).advanced(2),
        ),
        Instruction::Add { x, y } => Ok(
            m.with_register(x, wrap8(m.register(x) + m.register(y))).with_flag(
                m.register(x) + m.register(y) > 0xFF,
            ).advanced(2),
        ),
        Instruction::Subtract { x, y } => Ok(
            m.with_register(x, wrap8(m.register(x) - m.register(y))).with_flag(
                m.register(x) < m.register(y),
            ).advanced(2),
        ),
        Instruction::ShiftRight { x } => Ok(
            m.with_register(x, m.register(x) / 2).with_flag(false).advanced(2),
        ),
        Instruction::SubtractFrom { x, y } => Ok(
            m.with_register(x, wrap8(m.register(y) - m.register(x))).with_flag(
                m.register(y) < m.register(x),
            ).advanced(2),
        ),
        Instruction::ShiftLeft { x } => Ok(
            m.with_register(x, wrap8(m.register(x) * 2)).with_flag(m.register(x) >= 0x80).advanced(
                2,
            ),
        ),
        Instruction::LoadIndex { address } => Ok((Machine { index: address, ..m }).advanced(2)),
        Instruction::Draw { x, y, rows } => {
            if operand_in_memory(m.index as int, rows as int) {
                let sprite = sprite_at(m.memory, m.index as int, rows as int);
                let column = m.register(x) as int;
                let row = m.register(y) as int;
                Ok(
                    (Machine { pixels: blit_pixels(m.pixels, column, row, sprite), ..m }).with_flag(
                        blit_collides(m.pixels, column, row, sprite),
                    ).advanced(2),
                )
            } else {
                Err(Fault::Memory)
            }
        },
        Instruction::AddToIndex { x } => Ok(
            (Machine { index: wrap16(m.index + m.register(x)), ..m }).advanced(2),
        ),
        Instruction::StoreDecimal { x } => {
            if operand_in_memory(m.index as int, 3) {
                Ok(
                    (Machine {
                        memory: with_decimal(m.memory, m.index as int, m.register(x)),
                        ..m
                    }).advanced(2),
                )
            } else {
                Err(Fault::Memory)
            }
        },
        Instruction::StoreRegisters { x } => {
            if operand_in_memory(m.index as int, x + 1) {
                Ok(
                    (Machine {
                        memory: with_registers_stored(
                            m.memory,
                            m.index as int,
                            m.registers,
                            x + 1,
                        ),
                        index: (m.index + x + 1) as u16,
                        ..m
                    }).advanced(2),
                )
            } else {
                Err(Fault::Memory)
            }
        },
        Instruction::LoadRegisters { x } => {
            if operand_in_memory(m.index as int, x + 1) {
                Ok(
                    (Machine {
                        registers: with_registers_loaded(
                            m.registers,
                            m.memory,
                            m.index as int,
                            x + 1,
                        ),
                        index: (m.index + x + 1) as u16,
                        ..m
                    }).advanced(2),
                )
            } else {
                Err(Fault::Memory)
            }
        },
        Instruction::Unsupported { opcode } => Ok(m.advanced(2)),
    }
}

/// The instruction at the program counter.
pub open spec fn current_instruction(m: Machine) -> Instruction {
    decode_spec(word_at(m.memory, m.program_counter as int))
}

/// One complete fetch-decode-execute cycle: the next state, or the fault
/// that stops the machine.
pub open spec fn step_spec(m: Machine) -> Result<Machine, Fault> {
    match fetch_spec(m) {
        Ok(opcode) => execute_spec(m, decode_spec(opcode)),
        Err(fault) => Err(fault),
    }
}

impl System {
    /// Reads the opcode at the program counter, high byte first.
    pub fn fetch(&self) -> (result: Result<u16, Fault>)
        ensures
            result == fetch_spec(self@),
    {
        let address = self.program_counter as usize;
        if address + 1 >= MEMORY_SIZE {
            return Err(Fault::Fetch);
        }
        let high = self.memory[address] as u16;
        let low = self.memory[address + 1] as u16;
        assert((high << 8) | low == high * 0x100 + low) by (bit_vector)
            requires
                high < 0x100,
                low < 0x100,
        ;
        Ok((high << 8) | low)
    }
}

impl System {
    /// Unpacks the sprite of `rows` bytes at the index register into one
    /// pixel value per bit, most significant bit first.
    fn sprite_pixels(&self, rows: u8) -> (pixels: Vec<u8>)
        requires
            operand_in_memory(self.i_register as int, rows as int),
        ensures
            pixels@ == sprite_at(self.memory@, self.i_register as int, rows as int),
    {
        let start = self.i_register as usize;
        let mut pixels: Vec<u8> = Vec::new();
        let mut row: usize = 0;
        while row < rows as usize
            invariant
                row <= rows,
                start == self.i_register,
                operand_in_memory(start as int, rows as int),
                pixels@ == sprite_at(self.memory@, start as int, row as int),
            decreases rows - row,
        {
            let byte = self.memory[start + row];
            let mut column: u8 = 0;
            while column < 8
                invariant
                    column <= 8,
                    row < rows,
                    start + row < MEMORY_SIZE,
                    byte == self.memory@[start + row],
                    pixels@.len() == 8 * row + column,
                    forall|i: int|
                        0 <= i < pixels@.len() ==> pixels@[i] == pixel_bit(
                            self.memory@[start + i / 8],
                            i % 8,
                        ),
                decreases 8 - column,
            {
                pixels.push((byte >> (7 - column)) & 1);
                column += 1;
            }
            row += 1;
        }
        pixels
    }

    /// Adds `by` to the program counter.
    fn advance(&mut self, by: u16)
        requires
            old(self).program_counter + by <= u16::MAX,
        ensures
            final(self)@ == old(self)@.advanced(by as int),
    {
        self.program_counter = self.program_counter + by;
    }

    /// Moves the program counter past the instruction, and past the next
    /// one too if `taken`.
    fn skip(&mut self, taken: bool)
        requires
            old(self).program_counter + 4 <= u16::MAX,
        ensures
            final(self)@ == old(self)@.skipped(taken),
    {
        if taken {
            self.advance(4);
        } else {
            self.advance(2);
        }
    }

    /// Sets `VX`, then `VF`.
    fn set_register_and_flag(&mut self, x: u8, value: u8, raised: bool)
        requires
            x < REGISTER_AMOUNT,
        ensures
            final(self)@ == old(self)@.with_register(x, value).with_flag(raised),
    {
        self.v_registers[x as usize] = value;
        self.v_registers[15] = if raised {
            1
        } else {
            0
        };
    }

    /// Sets `VX`.
    fn set_register(&mut self, x: u8, value: u8)
        requires
            x < REGISTER_AMOUNT,
        ensures
            final(self)@ == old(self)@.with_register(x, value),
    {
        self.v_registers[x as usize] = value;
    }
}

impl System {
    /// Pops the return address and continues behind the call it came from.
    fn subroutine_return(&mut self) -> (result: Result<(), Fault>)
        ensures
            match execute_spec(old(self)@, Instruction::Return) {
                Ok(next) => result == Ok::<(), Fault>(()) && final(self)@ == next,
                Err(fault) => result == Err::<(), Fault>(fault) && final(self)@ == old(self)@,
            },
    {
        if self.stack_pointer == 0 || self.stack_pointer as usize > STACK_SIZE {
            return Err(Fault::Stack);
        }
        let top = self.stack_pointer - 1;
        let address = self.stack[top as usize];
        self.stack_pointer = top;
        self.program_counter = address.wrapping_add(2);
        self.stack[top as usize] = 0;
        Ok(())
    }

    /// Pushes the program counter and continues at `address`.
    fn subroutine_call(&mut self, address: u16) -> (result: Result<(), Fault>)
        ensures
            match execute_spec(old(self)@, Instruction::Call { address }) {
                Ok(next) => result == Ok::<(), Fault>(()) && final(self)@ == next,
                Err(fault) => result == Err::<(), Fault>(fault) && final(self)@ == old(self)@,
            },
    {
        if self.stack_pointer as usize >= STACK_SIZE {
            return Err(Fault::Stack);
        }
        self.stack[self.stack_pointer as usize] = self.program_counter;
        self.stack_pointer = self.stack_pointer + 1;
        self.program_counter = address;
        Ok(())
    }

    /// Draws the sprite of `rows` bytes at the index register at
    /// `(VX, VY)`.
    fn draw(&mut self, x: u8, y: u8, rows: u8) -> (result: Result<(), Fault>)
        requires
            x < REGISTER_AMOUNT,
            y < REGISTER_AMOUNT,
            old(self).program_counter + 1 < MEMORY_SIZE,
        ensures
            match execute_spec(old(self)@, Instruction::Draw { x, y, rows }) {
                Ok(next) => result == Ok::<(), Fault>(()) && final(self)@ == next,
                Err(fault) => result == Err::<(), Fault>(fault) && final(self)@ == old(self)@,
            },
    {
        if rows != 0 && self.i_register as usize + rows as usize > MEMORY_SIZE {
            return Err(Fault::Memory);
        }
        let column = self.v_registers[x as usize];
        let row = self.v_registers[y as usize];
        let sprite = self.sprite_pixels(rows);
        self.blit_sprite(column, row, sprite.as_slice());
        self.advance(2);
        Ok(())
    }

    /// Stores the decimal digits of `VX` at the index register.
    fn store_decimal(&mut self, x: u8) -> (result: Result<(), Fault>)
        requires
            x < REGISTER_AMOUNT,
            old(self).program_counter + 1 < MEMORY_SIZE,
        ensures
            match execute_spec(old(self)@, Instruction::StoreDecimal { x }) {
                Ok(next) => result == Ok::<(), Fault>(()) && final(self)@ == next,
                Err(fault) => result == Err::<(), Fault>(fault) && final(self)@ == old(self)@,
            },
    {
        let index = self.i_register as usize;
        if index + 3 > MEMORY_SIZE {
            return Err(Fault::Memory);
        }
        let value = self.v_registers[x as usize];
        self.memory[index] = value / 100;
        self.memory[index + 1] = (value / 10) % 10;
        self.memory[index + 2] = value % 10;
        self.advance(2);
        Ok(())
    }

    /// Stores `V0..=VX` at the index register and moves it past them.
    fn store_registers(&mut self, x: u8) -> (result: Result<(), Fault>)
        requires
            x < REGISTER_AMOUNT,
            old(self).program_counter + 1 < MEMORY_SIZE,
        ensures
            match execute_spec(old(self)@, Instruction::StoreRegisters { x }) {
                Ok(next) => result == Ok::<(), Fault>(()) && final(self)@ == next,
                Err(fault) => result == Err::<(), Fault>(fault) && final(self)@ == old(self)@,
            },
    {
        let index = self.i_register as usize;
        let count = x as usize + 1;
        if index + count > MEMORY_SIZE {
            return Err(Fault::Memory);
        }
        let mut stored: usize = 0;
        while stored < count
            invariant
                stored <= count == x + 1 <= REGISTER_AMOUNT,
                index + count <= MEMORY_SIZE,
                index == old(self).i_register,
                self.i_register == index + stored,
                self.memory@ == with_registers_stored(
                    old(self).memory@,
                    index as int,
                    old(self).v_registers@,
                    stored as int,
                ),
                self.program_counter == old(self).program_counter,
                self.stack_pointer == old(self).stack_pointer,
                self.stack == old(self).stack,
                self.v_registers == old(self).v_registers,
                self.time_register == old(self).time_register,
                self.sound_register == old(self).sound_register,
                self.pixels == old(self).pixels,
            decreases count - stored,
        {
            self.memory[self.i_register as usize] = self.v_registers[stored];
            self.i_register = self.i_register + 1;
            stored += 1;
        }
        self.advance(2);
        Ok(())
    }

    /// Loads `V0..=VX` from the index register on and moves it past them.
    fn load_registers(&mut self, x: u8) -> (result: Result<(), Fault>)
        requires
            x < REGISTER_AMOUNT,
            old(self).program_counter + 1 < MEMORY_SIZE,
        ensures
            match execute_spec(old(self)@, Instruction::LoadRegisters { x }) {
                Ok(next) => result == Ok::<(), Fault>(()) && final(self)@ == next,
                Err(fault) => result == Err::<(), Fault>(fault) && final(self)@ == old(self)@,
            },
    {
        let index = self.i_register as usize;
        let count = x as usize + 1;
        if index + count > MEMORY_SIZE {
            return Err(Fault::Memory);
        }
        let mut loaded: usize = 0;
        while loaded < count
            invariant
                loaded <= count == x + 1 <= REGISTER_AMOUNT,
                index + count <= MEMORY_SIZE,
                index == old(self).i_register,
                self.i_register == index + loaded,
                self.v_registers@ == with_registers_loaded(
                    old(self).v_registers@,
                    old(self).memory@,
                    index as int,
                    loaded as int,
                ),
                self.program_counter == old(self).program_counter,
                self.stack_pointer == old(self).stack_pointer,
                self.stack == old(self).stack,
                self.memory == old(self).memory,
                self.time_register == old(self).time_register,
                self.sound_register == old(self).sound_register,
                self.pixels == old(self).pixels,
            decreases count - loaded,
        {
            self.v_registers[loaded] = self.memory[self.i_register as usize];
            self.i_register = self.i_register + 1;
            loaded += 1;
        }
        self.advance(2);
        Ok(())
    }
}

/// The eight-bit sum and whether it overflowed.
fn add_with_carry(left: u8, right: u8) -> (result: (u8, bool))
    ensures
        result.0 == wrap8(left + right),
        result.1 == (left + right > 0xFF),
{
    (left.wrapping_add(right), left as u16 + right as u16 > 0xFF)
}

/// The eight-bit difference and whether it underflowed.
fn subtract_with_borrow(left: u8, right: u8) -> (result: (u8, bool))
    ensures
        result.0 == wrap8(left - right),
        result.1 == (left < right),
{
    (left.wrapping_sub(right), left < right)
}

/// Half of `value`, rounded down.
fn shift_right(value: u8) -> (result: u8)
    ensures
        result == value / 2,
{
    assert(value >> 1 == value / 2) by (bit_vector);
    value >> 1
}

/// Twice `value` in eight bits, and the bit that was shifted out.
fn shift_left(value: u8) -> (result: (u8, bool))
    ensures
        result.0 == wrap8(value * 2),
        result.1 == (value >= 0x80),
{
    assert(value << 1 == (value * 2) % 0x100) by (bit_vector);
    (value << 1, value >= 0x80)
}

impl System {
    /// Continues at `address`.
    fn jump(&mut self, address: u16)
        ensures
            final(self)@ == (Machine { program_counter: address, ..old(self)@ }),
    {
        self.program_counter = address;
    }

    /// Sets the index register.
    fn set_index(&mut self, value: u16)
        ensures
            final(self)@ == (Machine { index: value, ..old(self)@ }),
    {
        self.i_register = value;
    }

    /// Adds `offset` to the index register, modulo 2^16.
    fn add_to_index(&mut self, offset: u8)
        ensures
            final(self)@ == (Machine { index: wrap16(old(self)@.index + offset), ..old(self)@ }),
    {
        self.i_register = self.i_register.wrapping_add(offset as u16);
    }

    /// The value of `VX`.
    fn register(&self, x: u8) -> (value: u8)
        requires
            x < REGISTER_AMOUNT,
        ensures
            value == self@.register(x),
    {
        self.v_registers[x as usize]
    }

    /// Executes `instruction`, which was fetched at the program counter.
    fn execute(&mut self, instruction: Instruction) -> (result: Result<(), Fault>)
        requires
            instruction.well_formed(),
            old(self).program_counter + 1 < MEMORY_SIZE,
        ensures
            match execute_spec(old(self)@, instruction) {
                Ok(next) => result == Ok::<(), Fault>(()) && final(self)@ == next,
                Err(fault) => result == Err::<(), Fault>(fault) && final(self)@ == old(self)@,
            },
    {
        match instruction {
            Instruction::ClearScreen => {
                self.clear_screen();
                self.advance(2);
            },
            Instruction::Return => {
                return self.subroutine_return();
            },
            Instruction::Jump { address } => {
                self.jump(address);
            },
            Instruction::Call { address } => {
                return self.subroutine_call(address);
            },
            Instruction::SkipIfEqual { x, value } => {
                let taken = self.register(x) == value;
                self.skip(taken);
            },
            Instruction::SkipIfNotEqual { x, value } => {
                let taken = self.register(x) != value;
                self.skip(taken);
            },
            Instruction::SkipIfRegistersEqual { x, y } => {
                let taken = self.register(x) == self.register(y);
                self.skip(taken);
            },
            Instruction::SkipIfRegistersNotEqual { x, y } => {
                let taken = self.register(x) != self.register(y);
                self.skip(taken);
            },
            Instruction::LoadImmediate { x, value } => {
                self.set_register(x, value);
                self.advance(2);
            },
            Instruction::AddImmediate { x, value } => {
                let (sum, _) = add_with_carry(self.register(x), value);
                self.set_register(x, sum);
                self.advance(2);
            },
            Instruction::Move { x, y } => {
                let value = self.register(y);
                self.set_register(x, value);
                self.advance(2);
            },
            Instruction::Or { x, y } => {
                let value = self.register(x) | self.register(y);
                self.set_register(x, value);
                self.advance(2);
            },
            Instruction::And { x, y } => {
                let value = self.register(x) & self.register(y);
                self.set_register(x, value);
                self.advance(2);
            },
            Instruction::Xor { x, y } => {
                let value = self.register(x) ^ self.register(y);
                self.set_register(x, value);
                self.advance(2);
            },
            Instruction::Add { x, y } => {
                let (sum, carry) = add_with_carry(self.register(x), self.register(y));
                self.set_register_and_flag(x, sum, carry);
                self.advance(2);
            },
            Instruction::Subtract { x, y } => {
                let (difference, borrow) = subtract_with_borrow(
                    self.register(x),
                    self.register(y),
                );
                self.set_register_and_flag(x, difference, borrow);
                self.advance(2);
            },
            Instruction::ShiftRight { x } => {
                let half = shift_right(self.register(x));
                self.set_register_and_flag(x, half, false);
                self.advance(2);
            },
            Instruction::SubtractFrom { x, y } => {
                let (difference, borrow) = subtract_with_borrow(
                    self.register(y),
                    self.register(x),
                );
                self.set_register_and_flag(x, difference, borrow);
                self.advance(2);
            },
            Instruction::ShiftLeft { x } => {
                let (double, out) = shift_left(self.register(x));
                self.set_register_and_flag(x, double, out);
                self.advance(2);
            },
            Instruction::LoadIndex { address } => {
                self.set_index(address);
                self.advance(2);
            },
            Instruction::Draw { x, y, rows } => {
                return self.draw(x, y, rows);
            },
            Instruction::AddToIndex { x } => {
                let offset = self.register(x);
                self.add_to_index(offset);
                self.advance(2);
            },
            Instruction::StoreDecimal { x } => {
                return self.store_decimal(x);
            },
            Instruction::StoreRegisters { x } => {
                return self.store_registers(x);
            },
            Instruction::LoadRegisters { x } => {
                return self.load_registers(x);
            },
            Instruction::Unsupported { opcode } => {
                self.advance(2);
            },
        }
        Ok(())
    }

    /// Performs exactly one instruction: fetches the opcode at the program
    /// counter, decodes it, executes it and moves the program counter on.
    /// Returns the instruction that was executed, `Unsupported` opcodes
    /// among them, or the fault that stopped it; after a fault the machine
    /// is as it was before.
    pub fn step(&mut self) -> (result: Result<Instruction, Fault>)
        ensures
            match step_spec(old(self)@) {
                Ok(next) => result == Ok::<Instruction, Fault>(current_instruction(old(self)@))
                    && final(self)@ == next,
                Err(fault) => result == Err::<Instruction, Fault>(fault) && final(self)@ == old(
                    self,
                )@,
            },
    {
        let opcode = match self.fetch() {
            Ok(opcode) => opcode,
            Err(fault) => {
                return Err(fault);
            },
        };
        let instruction = decode(opcode);
        match self.execute(instruction) {
            Ok(()) => Ok(instruction),
            Err(fault) => Err(fault),
        }
    }
}

} // verus!
