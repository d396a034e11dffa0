//! Laws of the instruction cycle, proved from the definition of a step.

use vstd::prelude::*;
use crate::cpu::{current_instruction, fetch_spec, pixel_bit, sprite_at, step_spec, with_decimal};
use crate::display::{binary, lemma_blit_keeps_binary, lemma_blit_pixels_len};
use crate::instruction::{decode_spec, low_address, Instruction};
use crate::machine::{with_image, Fault, Machine, MEMORY_SIZE, PROGRAM_START, STACK_SIZE};

verus! {

/// Whether `instruction` is a skip whose condition holds in `m`.
pub open spec fn skip_taken(m: Machine, instruction: Instruction) -> bool {
    match instruction {
        Instruction::SkipIfEqual { x, value } => m.register(x) == value,
        Instruction::SkipIfNotEqual { x, value } => m.register(x) != value,
        Instruction::SkipIfRegistersEqual { x, y } => m.register(x) == m.register(y),
        Instruction::SkipIfRegistersNotEqual { x, y } => m.register(x) != m.register(y),
        _ => false,
    }
}

/// Whether `instruction` is one of the four skips.
pub open spec fn is_skip(instruction: Instruction) -> bool {
    instruction is SkipIfEqual || instruction is SkipIfNotEqual
        || instruction is SkipIfRegistersEqual || instruction is SkipIfRegistersNotEqual
}

/// Whether `instruction` decides itself where execution continues: a jump,
/// a call, a return, or a skip that is taken.
pub open spec fn redirects(m: Machine, instruction: Instruction) -> bool {
    instruction is Jump || instruction is Call || instruction is Return || skip_taken(
        m,
        instruction,
    )
}

/// Default advance: a step that completes and whose instruction is neither
/// a jump, a call, a return nor a taken skip leaves the program counter
/// two bytes further.
pub proof fn lemma_default_advance(m: Machine, next: Machine)
    requires
        step_spec(m) == Ok::<Machine, Fault>(next),
        !redirects(m, current_instruction(m)),
    ensures
        next.program_counter == m.program_counter + 2,
{
}

/// Jump exactness: `1NNN` sets the program counter to `NNN` itself and
/// changes nothing else.
pub proof fn lemma_jump_exact(m: Machine, opcode: u16)
    requires
        fetch_spec(m) == Ok::<u16, Fault>(opcode),
        opcode / 0x1000 == 0x1,
    ensures
        step_spec(m) == Ok::<Machine, Fault>(
            Machine { program_counter: low_address(opcode), ..m },
        ),
        low_address(opcode) == opcode - 0x1000,
{
}

/// Call and return: where a call executes and the instruction at its
/// target is a return, the two steps together leave the program counter at
/// the instruction that follows the call and the stack pointer where it
/// was. The stack slot that was used is left zero.
pub proof fn lemma_call_return_round_trip(m: Machine, called: Machine)
    requires
        m.shaped(),
        current_instruction(m) is Call,
        step_spec(m) == Ok::<Machine, Fault>(called),
        fetch_spec(called) == Ok::<u16, Fault>(0x00EE),
    ensures
        called.program_counter == current_instruction(m)->Call_address,
        called.stack_pointer == m.stack_pointer + 1,
        step_spec(called) == Ok::<Machine, Fault>(
            Machine {
                program_counter: (m.program_counter + 2) as u16,
                stack: m.stack.update(m.stack_pointer as int, 0),
                ..m
            },
        ),
{
    // The return pops what the call pushed and zeroes the slot.
    assert(step_spec(called)->Ok_0.stack =~= m.stack.update(m.stack_pointer as int, 0));
}

/// Skip semantics: a skip moves the program counter by four bytes where
/// its condition holds and by two where it does not, and changes nothing
/// else.
pub proof fn lemma_skip(m: Machine)
    requires
        fetch_spec(m) is Ok,
        is_skip(current_instruction(m)),
    ensures
        step_spec(m) == Ok::<Machine, Fault>(
            Machine {
                program_counter: if skip_taken(m, current_instruction(m)) {
                    (m.program_counter + 4) as u16
                } else {
                    (m.program_counter + 2) as u16
                },
                ..m
            },
        ),
{
}

/// Unsupported opcodes are tolerated: a step over an opcode outside the
/// instruction table completes, moves the program counter two bytes on
/// and leaves everything else untouched.
pub proof fn lemma_unsupported_only_advances(m: Machine)
    requires
        fetch_spec(m) is Ok,
        current_instruction(m) is Unsupported,
    ensures
        step_spec(m) == Ok::<Machine, Fault>(
            Machine { program_counter: (m.program_counter + 2) as u16, ..m },
        ),
        m.program_counter + 2 <= u16::MAX,
{
}

/// The invariants of the machine state: the components have their sizes,
/// the stack pointer is at most the stack's depth, every return address on
/// the stack is the address of a call, and every pixel is 0 or 1.
pub open spec fn well_formed(m: Machine) -> bool {
    &&& m.shaped()
    &&& m.stack_pointer <= STACK_SIZE
    &&& forall|i: int| 0 <= i < m.stack_pointer ==> (#[trigger] m.stack[i]) + 1 < MEMORY_SIZE
    &&& binary(m.pixels)
}

/// A new machine is well formed.
pub proof fn lemma_initial_well_formed()
    ensures
        well_formed(Machine::initial()),
{
}

/// Loading an image keeps a machine well formed.
pub proof fn lemma_load_keeps_well_formed(m: Machine, image: Seq<u8>)
    requires
        well_formed(m),
        image.len() <= MEMORY_SIZE - PROGRAM_START,
    ensures
        well_formed(Machine { memory: with_image(m.memory, image), ..m }),
{
}

/// A step keeps a machine well formed.
pub proof fn lemma_step_keeps_well_formed(m: Machine, next: Machine)
    requires
        well_formed(m),
        step_spec(m) == Ok::<Machine, Fault>(next),
    ensures
        well_formed(next),
{
    match current_instruction(m) {
        Instruction::Draw { x, y, rows } => {
            let sprite = sprite_at(m.memory, m.index as int, rows as int);
            lemma_blit_pixels_len(m.pixels, m.register(x) as int, m.register(y) as int, sprite);
            lemma_blit_keeps_binary(m.pixels, m.register(x) as int, m.register(y) as int, sprite);
        },
        _ => {},
    }
}

/// In a well-formed machine a return continues exactly two bytes behind
/// the return address: the sum does not leave sixteen bits.
pub proof fn lemma_return_is_exact(m: Machine, next: Machine)
    requires
        well_formed(m),
        current_instruction(m) is Return,
        step_spec(m) == Ok::<Machine, Fault>(next),
    ensures
        m.stack_pointer >= 1,
        next.program_counter == m.stack[m.stack_pointer - 1] + 2,
        next.stack_pointer == m.stack_pointer - 1,
{
}

/// The three bytes that a decimal store writes are decimal digits, and
/// read as hundreds, tens and units they spell the value.
pub proof fn lemma_decimal_digits(memory: Seq<u8>, index: int, value: u8)
    requires
        0 <= index,
        index + 3 <= memory.len(),
    ensures
        ({
            let stored = with_decimal(memory, index, value);
            &&& stored[index] <= 9
            &&& stored[index + 1] <= 9
            &&& stored[index + 2] <= 9
            &&& 100 * stored[index] + 10 * stored[index + 1] + stored[index + 2] == value
        }),
{
}

/// The eight pixels of a sprite row are the binary digits of its byte,
/// the most significant one first.
pub proof fn lemma_pixel_bits(byte: u8)
    ensures
        forall|column: int| 0 <= column < 8 ==> #[trigger] pixel_bit(byte, column) <= 1,
        128 * pixel_bit(byte, 0) + 64 * pixel_bit(byte, 1) + 32 * pixel_bit(byte, 2) + 16
            * pixel_bit(byte, 3) + 8 * pixel_bit(byte, 4) + 4 * pixel_bit(byte, 5) + 2 * pixel_bit(
            byte,
            6,
        ) + pixel_bit(byte, 7) == byte,
{
    assert(((byte >> 7u8) & 1) <= 1 && ((byte >> 6u8) & 1) <= 1 && ((byte >> 5u8) & 1) <= 1 && ((byte
        >> 4u8) & 1) <= 1 && ((byte >> 3u8) & 1) <= 1 && ((byte >> 2u8) & 1) <= 1 && ((byte >> 1u8)
        & 1) <= 1 && ((byte >> 0u8) & 1) <= 1) by (bit_vector);
    assert(128 * ((byte >> 7u8) & 1) + 64 * ((byte >> 6u8) & 1) + 32 * ((byte >> 5u8) & 1) + 16 * ((
    byte >> 4u8) & 1) + 8 * ((byte >> 3u8) & 1) + 4 * ((byte >> 2u8) & 1) + 2 * ((byte >> 1u8) & 1)
        + ((byte >> 0u8) & 1) == byte) by (bit_vector);
}

} // verus!
