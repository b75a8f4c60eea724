//! Instruction-execution core of a 6502-class 8-bit microprocessor.

pub mod cpu;
pub mod machine;
pub mod memory;
pub mod opcode;
pub mod register;
