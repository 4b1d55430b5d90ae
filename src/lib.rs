// An interpreter for the CHIP-8 instruction set: memory with its font,
// a 64 by 32 XOR-drawn display, a sixteen-key pad with a blocking wait, and
// the processor that fetches, decodes and runs one instruction per step.
// The host driver feeds key presses and timer ticks and renders frames.

pub mod cpu;
pub mod display;
pub mod fault;
pub mod keyboard;
pub mod machine;
pub mod memory;
pub mod opcode;

pub use cpu::{Cpu, Step};
pub use display::Display;
pub use fault::Fault;
pub use keyboard::{HostKey, KeyWait, Keyboard};
pub use machine::Chip8;
pub use memory::Memory;
pub use opcode::{Instruction, Opcode};
