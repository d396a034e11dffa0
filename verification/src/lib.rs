//! A CHIP-8 virtual machine core: machine state, instruction decoding,
//! single-step execution and the XOR sprite compositor.

pub mod cpu;
pub mod display;
pub mod instruction;
pub mod laws;
pub mod machine;
pub mod mesh;

pub use machine::{
    with_image, Fault, Machine, ScreenPixels, System, MEMORY_SIZE, PIXEL_AMOUNT, PROGRAM_START,
    REGISTER_AMOUNT, SCREEN_HEIGHT, SCREEN_WIDTH, STACK_SIZE,
};
pub use instruction::{decode, Instruction};
pub use mesh::{quad_mesh, QuadMesh};
