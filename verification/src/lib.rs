//! A virtual machine for the CHIP-8 instruction set: registers, memory, a
//! call stack and a 64 by 32 display, driven one decoded instruction at a
//! time, with a keypad that is shared with the source of key events.

pub mod entropy;
pub mod fault;
pub mod instruction;
pub mod keyboard;
pub mod keys;
pub mod laws;
pub mod memory;
pub mod sprite;
pub mod state;
pub mod vm;

pub use entropy::RandomSource;
pub use fault::Fault;
pub use instruction::{Instruction, Program};
pub use keyboard::{newly_pressed, Keyboard};
pub use keys::{Key, KeySet};
pub use memory::{
    create_display, create_gen_registers, create_memory, create_stack, digit, MEM_PROGRAM_START,
};
pub use sprite::{create_sprite_mask, is_lit, lit_pixels};
pub use state::Input;
pub use vm::VM;
