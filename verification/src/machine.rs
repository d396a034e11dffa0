//! The machine state and its mathematical model.

use vstd::prelude::*;

verus! {

/// Number of bytes of addressable memory.
pub const MEMORY_SIZE: usize = 4096;

/// Number of general-purpose registers `V0`..`VF`.
pub const REGISTER_AMOUNT: usize = 16;

/// Maximum depth of the call stack.
pub const STACK_SIZE: usize = 16;

/// Width of the display in pixels.
pub const SCREEN_WIDTH: usize = 64;

/// Height of the display in pixels.
pub const SCREEN_HEIGHT: usize = 32;

/// Number of cells of the framebuffer.
pub const PIXEL_AMOUNT: usize = SCREEN_WIDTH * SCREEN_HEIGHT;

/// Address at which a program image is placed and at which execution starts.
pub const PROGRAM_START: u16 = 0x200;

/// The framebuffer: one byte per pixel, row-major, origin top-left.
pub type ScreenPixels = [u8; PIXEL_AMOUNT];

/// Why an operation could not be carried out. The machine is left untouched
/// whenever one of these is returned.
#[derive(Clone, Copy, Debug, PartialEq, Eq, Structural)]
pub enum Fault {
    /// The program image does not fit in memory from `PROGRAM_START` on.
    Load,
    /// The program counter does not designate two bytes inside memory.
    Fetch,
    /// A return with an empty stack, or with a stack pointer beyond the
    /// stack, or a call with a full stack.
    Stack,
    /// An instruction's memory operand reaches outside memory.
    Memory,
}

/// The complete state of the virtual machine.
pub struct System {
    /// Address of the next instruction to fetch.
    pub program_counter: u16,
    /// Index of the next free stack slot; 0 for an empty stack.
    pub stack_pointer: u8,
    /// Return addresses: the address of each call that has not returned.
    pub stack: [u16; STACK_SIZE],
    /// Main memory. A program image starts at `PROGRAM_START`.
    pub memory: [u8; MEMORY_SIZE],
    /// The registers `V0`..`VF`. `VF` is the carry, borrow and collision
    /// flag and is overwritten by arithmetic and drawing.
    pub v_registers: [u8; REGISTER_AMOUNT],
    /// The index register `I`.
    pub i_register: u16,
    /// The delay timer. No instruction reads or writes it and a step does
    /// not count it down: that is left to the host.
    pub time_register: u8,
    /// The sound timer, left to the host like the delay timer.
    pub sound_register: u8,
    /// The framebuffer.
    pub pixels: ScreenPixels,
}

/// The mathematical model of a `System`: the same components, with every
/// array seen as a sequence.
pub struct Machine {
    pub program_counter: u16,
    pub stack_pointer: u8,
    pub stack: Seq<u16>,
    pub memory: Seq<u8>,
    pub registers: Seq<u8>,
    pub index: u16,
    pub delay_timer: u8,
    pub sound_timer: u8,
    pub pixels: Seq<u8>,
}

impl Machine {
    /// The sequences have the lengths of the arrays they stand for.
    pub open spec fn shaped(self) -> bool {
        &&& self.stack.len() == STACK_SIZE
        &&& self.memory.len() == MEMORY_SIZE
        &&& self.registers.len() == REGISTER_AMOUNT
        &&& self.pixels.len() == PIXEL_AMOUNT
    }

    /// The state of a freshly created machine.
    pub open spec fn initial() -> Machine {
        Machine {
            program_counter: PROGRAM_START,
            stack_pointer: 0,
            stack: Seq::new(STACK_SIZE as nat, |i: int| 0u16),
            memory: Seq::new(MEMORY_SIZE as nat, |i: int| 0u8),
            registers: Seq::new(REGISTER_AMOUNT as nat, |i: int| 0u8),
            index: 0,
            delay_timer: 0,
            sound_timer: 0,
            pixels: Seq::new(PIXEL_AMOUNT as nat, |i: int| 0u8),
        }
    }
}

/// A condition as it is stored in the flag register `VF`.
pub open spec fn flag(raised: bool) -> u8 {
    if raised {
        1
    } else {
        0
    }
}

/// Memory after `image` was copied into it from `PROGRAM_START` on: the
/// bytes of the image at `PROGRAM_START ..`, every other byte as it was.
pub open spec fn with_image(memory: Seq<u8>, image: Seq<u8>) -> Seq<u8> {
    Seq::new(
        memory.len(),
        |i: int|
            if PROGRAM_START <= i < PROGRAM_START + image.len() {
                image[i - PROGRAM_START]
            } else {
                memory[i]
            },
    )
}

impl View for System {
    type V = Machine;

    open spec fn view(&self) -> Machine {
        Machine {
            program_counter: self.program_counter,
            stack_pointer: self.stack_pointer,
            stack: self.stack@,
            memory: self.memory@,
            registers: self.v_registers@,
            index: self.i_register,
            delay_timer: self.time_register,
            sound_timer: self.sound_register,
            pixels: self.pixels@,
        }
    }
}

/// The model of any `System` has the sizes of the machine's arrays.
pub proof fn lemma_view_is_shaped(system: System)
    ensures
        system@.shaped(),
{
}

impl System {
    /// A machine with all memory, registers, stack and pixels zero and the
    /// program counter at `PROGRAM_START`.
    pub fn new() -> (system: System)
        ensures
            system@ == Machine::initial(),
    {
        let system = System {
            program_counter: PROGRAM_START,
            stack_pointer: 0,
            stack: [0; STACK_SIZE],
            memory: [0; MEMORY_SIZE],
            v_registers: [0; REGISTER_AMOUNT],
            i_register: 0,
            time_register: 0,
            sound_register: 0,
            pixels: [0; PIXEL_AMOUNT],
        };
        proof {
            let initial = Machine::initial();
            assert(system@.stack =~= initial.stack);
            assert(system@.memory =~= initial.memory);
            assert(system@.registers =~= initial.registers);
            assert(system@.pixels =~= initial.pixels);
        }
        system
    }

    /// Copies a program image into memory from `PROGRAM_START` on. An image
    /// of more than `MEMORY_SIZE - PROGRAM_START` bytes is refused with
    /// `Fault::Load`. Only memory changes: neither the program counter nor
    /// any register, the stack or the framebuffer is reset.
    pub fn load(&mut self, program_bytes: &[u8]) -> (result: Result<(), Fault>)
        ensures
            program_bytes@.len() <= MEMORY_SIZE - PROGRAM_START ==> result == Ok::<(), Fault>(())
                && final(self)@ == (Machine {
                memory: with_image(old(self)@.memory, program_bytes@),
                ..old(self)@
            }),
            program_bytes@.len() > MEMORY_SIZE - PROGRAM_START ==> result == Err::<(), Fault>(
                Fault::Load,
            ) && final(self)@ == old(self)@,
    {
        let start = PROGRAM_START as usize;
        if program_bytes.len() > MEMORY_SIZE - start {
            return Err(Fault::Load);
        }
        let mut copied: usize = 0;
        while copied < program_bytes.len()
            invariant
                start == PROGRAM_START,
                copied <= program_bytes@.len() <= MEMORY_SIZE - start,
                forall|i: int|
                    0 <= i < MEMORY_SIZE ==> self.memory@[i] == if start <= i < start + copied {
                        program_bytes@[i - start]
                    } else {
                        old(self).memory@[i]
                    },
                self.program_counter == old(self).program_counter,
                self.stack_pointer == old(self).stack_pointer,
                self.stack == old(self).stack,
                self.v_registers == old(self).v_registers,
                self.i_register == old(self).i_register,
                self.time_register == old(self).time_register,
                self.sound_register == old(self).sound_register,
                self.pixels == old(self).pixels,
            decreases program_bytes@.len() - copied,
        {
            self.memory[start + copied] = program_bytes[copied];
            copied += 1;
        }
        proof {
            assert(self.memory@ =~= with_image(old(self)@.memory, program_bytes@));
        }
        Ok(())
    }
}

impl Default for System {
    fn default() -> (system: System)
        ensures
            system@ == Machine::initial(),
    {
        System::new()
    }
}

} // verus!
