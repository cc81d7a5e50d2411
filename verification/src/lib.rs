//! A CHIP-8 virtual machine core: registers, memory, call stack, keypad,
//! framebuffer, timers and the instruction semantics that tie them together.

pub mod engine;
pub mod keypad;
pub mod laws;
pub mod machine;
pub mod memory;
pub mod opcodes;
pub mod registers;
pub mod screen;
pub mod timers;
