//! An interpreter for the documented instruction set of the MOS 6502.
pub mod alu;
pub mod cpu;
pub mod engine;
pub mod handlers;
pub mod opcodes;
pub mod status;
