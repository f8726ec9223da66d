//! The opcode table: for each documented opcode byte, its mnemonic, length in bytes,
//! base cycle count and addressing mode.
use std::collections::HashMap;
use vstd::prelude::*;

use crate::cpu::AddressingMode;
use crate::cpu::AddressingMode::{
    Immediate, ZeroPage, ZeroPage_X, ZeroPage_Y, Absolute, Absolute_X, Absolute_Y, Indirect_X,
    Indirect_Y, NoneAddressing,
};
use self::Mnemonic::{
    BRK, NOP, ADC, SBC, AND, EOR, ORA, ASL, LSR, ROL, ROR, INC, INX, INY, DEC, DEX, DEY, CMP,
    CPY, CPX, JMP, JSR, RTS, RTI, BNE, BVS, BVC, BMI, BEQ, BCS, BCC, BPL, BIT, LDA, LDX, LDY,
    STA, STX, STY, CLD, CLI, CLV, CLC, SEC, SEI, SED, TAX, TAY, TSX, TXA, TXS, TYA, PHA, PLA,
    PHP, PLP,
};

verus! {

broadcast use vstd::std_specs::hash::group_hash_axioms;

/// The instruction an opcode stands for; the interpreter dispatches on it.
#[derive(Clone, Copy, Debug, PartialEq, Eq, Structural)]
pub enum Mnemonic {
    /// Halt the interpreter.
    BRK,
    /// Do nothing.
    NOP,
    /// Add with carry.
    ADC,
    /// Subtract with carry: add the two's complement of the operand.
    SBC,
    /// Bitwise AND into the accumulator.
    AND,
    /// Bitwise exclusive OR into the accumulator.
    EOR,
    /// Bitwise OR into the accumulator.
    ORA,
    /// Arithmetic shift left.
    ASL,
    /// Logical shift right.
    LSR,
    /// Rotate left through the carry.
    ROL,
    /// Rotate right through the carry.
    ROR,
    /// Increment a memory byte.
    INC,
    /// Increment X.
    INX,
    /// Increment Y.
    INY,
    /// Decrement a memory byte.
    DEC,
    /// Decrement X.
    DEX,
    /// Decrement Y.
    DEY,
    /// Compare with the accumulator.
    CMP,
    /// Compare with Y.
    CPY,
    /// Compare with X.
    CPX,
    /// Jump.
    JMP,
    /// Jump to a subroutine.
    JSR,
    /// Return from a subroutine.
    RTS,
    /// Return from an interrupt.
    RTI,
    /// Branch if Zero is clear.
    BNE,
    /// Branch if Overflow is set.
    BVS,
    /// Branch if Overflow is clear.
    BVC,
    /// Branch if Negative is set.
    BMI,
    /// Branch if Zero is set.
    BEQ,
    /// Branch if Carry is set.
    BCS,
    /// Branch if Carry is clear.
    BCC,
    /// Branch if Negative is clear.
    BPL,
    /// Test bits of memory against the accumulator.
    BIT,
    /// Load the accumulator.
    LDA,
    /// Load X.
    LDX,
    /// Load Y.
    LDY,
    /// Store the accumulator.
    STA,
    /// Store X.
    STX,
    /// Store Y.
    STY,
    /// Clear Decimal.
    CLD,
    /// Clear Interrupt-Disable.
    CLI,
    /// Clear Overflow.
    CLV,
    /// Clear Carry.
    CLC,
    /// Set Carry.
    SEC,
    /// Set Interrupt-Disable.
    SEI,
    /// Set Decimal.
    SED,
    /// Transfer the accumulator to X.
    TAX,
    /// Transfer the accumulator to Y.
    TAY,
    /// Transfer the stack pointer to X.
    TSX,
    /// Transfer X to the accumulator.
    TXA,
    /// Transfer X to the stack pointer.
    TXS,
    /// Transfer Y to the accumulator.
    TYA,
    /// Push the accumulator.
    PHA,
    /// Pull the accumulator.
    PLA,
    /// Push the status word.
    PHP,
    /// Pull the status word.
    PLP,
}

/// One row of the opcode table.
#[derive(Clone, Copy, Debug, PartialEq, Eq, Structural)]
pub struct OpCode {
    pub instruction: u8,
    pub name: Mnemonic,
    /// Length of the instruction, the opcode byte included.
    pub num_bytes: u8,
    /// Base cycle count; page-crossing penalties are not added.
    pub num_cycles: u8,
    pub mode: AddressingMode,
}

impl OpCode {
    pub fn new(
        instruction: u8,
        name: Mnemonic,
        num_bytes: u8,
        num_cycles: u8,
        mode: AddressingMode,
    ) -> (r: Self)
        ensures
            r == (OpCode { instruction, name, num_bytes, num_cycles, mode }),
    {
        OpCode { instruction, name, num_bytes, num_cycles, mode }
    }
}

/// A row with the given fields.
pub open spec fn entry(
    instruction: u8,
    name: Mnemonic,
    num_bytes: u8,
    num_cycles: u8,
    mode: AddressingMode,
) -> Option<OpCode> {
    Some(OpCode { instruction, name, num_bytes, num_cycles, mode })
}

/// The table of the documented opcodes; `None` for the bytes it leaves out.
pub open spec fn opcode_spec(op: u8) -> Option<OpCode> {
    match op {
        0x00 => entry(0x00, BRK, 1, 7, NoneAddressing),
        0xea => entry(0xea, NOP, 1, 2, NoneAddressing),
        0x69 => entry(0x69, ADC, 2, 2, Immediate),
        0x65 => entry(0x65, ADC, 2, 3, ZeroPage),
        0x75 => entry(0x75, ADC, 2, 4, ZeroPage_X),
        0x6d => entry(0x6d, ADC, 3, 4, Absolute),
        0x7d => entry(0x7d, ADC, 3, 4, Absolute_X),
        0x79 => entry(0x79, ADC, 3, 4, Absolute_Y),
        0x61 => entry(0x61, ADC, 2, 6, Indirect_X),
        0x71 => entry(0x71, ADC, 2, 5, Indirect_Y),
        0xe9 => entry(0xe9, SBC, 2, 2, Immediate),
        0xe5 => entry(0xe5, SBC, 2, 3, ZeroPage),
        0xf5 => entry(0xf5, SBC, 2, 4, ZeroPage_X),
        0xed => entry(0xed, SBC, 3, 4, Absolute),
        0xfd => entry(0xfd, SBC, 3, 4, Absolute_X),
        0xf9 => entry(0xf9, SBC, 3, 4, Absolute_Y),
        0xe1 => entry(0xe1, SBC, 2, 6, Indirect_X),
        0xf1 => entry(0xf1, SBC, 2, 5, Indirect_Y),
        0x29 => entry(0x29, AND, 2, 2, Immediate),
        0x25 => entry(0x25, AND, 2, 3, ZeroPage),
        0x35 => entry(0x35, AND, 2, 4, ZeroPage_X),
        0x2d => entry(0x2d, AND, 3, 4, Absolute),
        0x3d => entry(0x3d, AND, 3, 4, Absolute_X),
        0x39 => entry(0x39, AND, 3, 4, Absolute_Y),
        0x21 => entry(0x21, AND, 2, 6, Indirect_X),
        0x31 => entry(0x31, AND, 2, 5, Indirect_Y),
        0x49 => entry(0x49, EOR, 2, 2, Immediate),
        0x45 => entry(0x45, EOR, 2, 3, ZeroPage),
        0x55 => entry(0x55, EOR, 2, 4, ZeroPage_X),
        0x4d => entry(0x4d, EOR, 3, 4, Absolute),
        0x5d => entry(0x5d, EOR, 3, 4, Absolute_X),
        0x59 => entry(0x59, EOR, 3, 4, Absolute_Y),
        0x41 => entry(0x41, EOR, 2, 6, Indirect_X),
        0x51 => entry(0x51, EOR, 2, 5, Indirect_Y),
        0x09 => entry(0x09, ORA, 2, 2, Immediate),
        0x05 => entry(0x05, ORA, 2, 3, ZeroPage),
        0x15 => entry(0x15, ORA, 2, 4, ZeroPage_X),
        0x0d => entry(0x0d, ORA, 3, 4, Absolute),
        0x1d => entry(0x1d, ORA, 3, 4, Absolute_X),
        0x19 => entry(0x19, ORA, 3, 4, Absolute_Y),
        0x01 => entry(0x01, ORA, 2, 6, Indirect_X),
        0x11 => entry(0x11, ORA, 2, 5, Indirect_Y),
        0x0a => entry(0x0a, ASL, 1, 2, NoneAddressing),
        0x06 => entry(0x06, ASL, 2, 5, ZeroPage),
        0x16 => entry(0x16, ASL, 2, 6, ZeroPage_X),
        0x0e => entry(0x0e, ASL, 3, 6, Absolute),
        0x1e => entry(0x1e, ASL, 3, 7, Absolute_X),
        0x4a => entry(0x4a, LSR, 1, 2, NoneAddressing),
        0x46 => entry(0x46, LSR, 2, 5, ZeroPage),
        0x56 => entry(0x56, LSR, 2, 6, ZeroPage_X),
        0x4e => entry(0x4e, LSR, 3, 6, Absolute),
        0x5e => entry(0x5e, LSR, 3, 7, Absolute_X),
        0x2a => entry(0x2a, ROL, 1, 2, NoneAddressing),
        0x26 => entry(0x26, ROL, 2, 5, ZeroPage),
        0x36 => entry(0x36, ROL, 2, 6, ZeroPage_X),
        0x2e => entry(0x2e, ROL, 3, 6, Absolute),
        0x3e => entry(0x3e, ROL, 3, 7, Absolute_X),
        0x6a => entry(0x6a, ROR, 1, 2, NoneAddressing),
        0x66 => entry(0x66, ROR, 2, 5, ZeroPage),
        0x76 => entry(0x76, ROR, 2, 6, ZeroPage_X),
        0x6e => entry(0x6e, ROR, 3, 6, Absolute),
        0x7e => entry(0x7e, ROR, 3, 7, Absolute_X),
        0xe6 => entry(0xe6, INC, 2, 5, ZeroPage),
        0xf6 => entry(0xf6, INC, 2, 6, ZeroPage_X),
        0xee => entry(0xee, INC, 3, 6, Absolute),
        0xfe => entry(0xfe, INC, 3, 7, Absolute_X),
        0xe8 => entry(0xe8, INX, 1, 2, NoneAddressing),
        0xc8 => entry(0xc8, INY, 1, 2, NoneAddressing),
        0xc6 => entry(0xc6, DEC, 2, 5, ZeroPage),
        0xd6 => entry(0xd6, DEC, 2, 6, ZeroPage_X),
        0xce => entry(0xce, DEC, 3, 6, Absolute),
        0xde => entry(0xde, DEC, 3, 7, Absolute_X),
        0xca => entry(0xca, DEX, 1, 2, NoneAddressing),
        0x88 => entry(0x88, DEY, 1, 2, NoneAddressing),
        0xc9 => entry(0xc9, CMP, 2, 2, Immediate),
        0xc5 => entry(0xc5, CMP, 2, 3, ZeroPage),
        0xd5 => entry(0xd5, CMP, 2, 4, ZeroPage_X),
        0xcd => entry(0xcd, CMP, 3, 4, Absolute),
        0xdd => entry(0xdd, CMP, 3, 4, Absolute_X),
        0xd9 => entry(0xd9, CMP, 3, 4, Absolute_Y),
        0xc1 => entry(0xc1, CMP, 2, 6, Indirect_X),
        0xd1 => entry(0xd1, CMP, 2, 5, Indirect_Y),
        0xc0 => entry(0xc0, CPY, 2, 2, Immediate),
        0xc4 => entry(0xc4, CPY, 2, 3, ZeroPage),
        0xcc => entry(0xcc, CPY, 3, 4, Absolute),
        0xe0 => entry(0xe0, CPX, 2, 2, Immediate),
        0xe4 => entry(0xe4, CPX, 2, 3, ZeroPage),
        0xec => entry(0xec, CPX, 3, 4, Absolute),
        0x4c => entry(0x4c, JMP, 3, 3, Absolute),
        0x6c => entry(0x6c, JMP, 3, 5, NoneAddressing),
        0x20 => entry(0x20, JSR, 3, 6, NoneAddressing),
        0x60 => entry(0x60, RTS, 1, 6, NoneAddressing),
        0x40 => entry(0x40, RTI, 1, 6, NoneAddressing),
        0xd0 => entry(0xd0, BNE, 2, 2, NoneAddressing),
        0x70 => entry(0x70, BVS, 2, 2, NoneAddressing),
        0x50 => entry(0x50, BVC, 2, 2, NoneAddressing),
        0x30 => entry(0x30, BMI, 2, 2, NoneAddressing),
        0xf0 => entry(0xf0, BEQ, 2, 2, NoneAddressing),
        0xb0 => entry(0xb0, BCS, 2, 2, NoneAddressing),
        0x90 => entry(0x90, BCC, 2, 2, NoneAddressing),
        0x10 => entry(0x10, BPL, 2, 2, NoneAddressing),
        0x24 => entry(0x24, BIT, 2, 3, ZeroPage),
        0x2c => entry(0x2c, BIT, 3, 4, Absolute),
        0xa9 => entry(0xa9, LDA, 2, 2, Immediate),
        0xa5 => entry(0xa5, LDA, 2, 3, ZeroPage),
        0xb5 => entry(0xb5, LDA, 2, 4, ZeroPage_X),
        0xad => entry(0xad, LDA, 3, 4, Absolute),
        0xbd => entry(0xbd, LDA, 3, 4, Absolute_X),
        0xb9 => entry(0xb9, LDA, 3, 4, Absolute_Y),
        0xa1 => entry(0xa1, LDA, 2, 6, Indirect_X),
        0xb1 => entry(0xb1, LDA, 2, 5, Indirect_Y),
        0xa2 => entry(0xa2, LDX, 2, 2, Immediate),
        0xa6 => entry(0xa6, LDX, 2, 3, ZeroPage),
        0xb6 => entry(0xb6, LDX, 2, 4, ZeroPage_Y),
        0xae => entry(0xae, LDX, 3, 4, Absolute),
        0xbe => entry(0xbe, LDX, 3, 4, Absolute_Y),
        0xa0 => entry(0xa0, LDY, 2, 2, Immediate),
        0xa4 => entry(0xa4, LDY, 2, 3, ZeroPage),
        0xb4 => entry(0xb4, LDY, 2, 4, ZeroPage_X),
        0xac => entry(0xac, LDY, 3, 4, Absolute),
        0xbc => entry(0xbc, LDY, 3, 4, Absolute_X),
        0x85 => entry(0x85, STA, 2, 3, ZeroPage),
        0x95 => entry(0x95, STA, 2, 4, ZeroPage_X),
        0x8d => entry(0x8d, STA, 3, 4, Absolute),
        0x9d => entry(0x9d, STA, 3, 5, Absolute_X),
        0x99 => entry(0x99, STA, 3, 5, Absolute_Y),
        0x81 => entry(0x81, STA, 2, 6, Indirect_X),
        0x91 => entry(0x91, STA, 2, 6, Indirect_Y),
        0x86 => entry(0x86, STX, 2, 3, ZeroPage),
        0x96 => entry(0x96, STX, 2, 4, ZeroPage_Y),
        0x8e => entry(0x8e, STX, 3, 4, Absolute),
        0x84 => entry(0x84, STY, 2, 3, ZeroPage),
        0x94 => entry(0x94, STY, 2, 4, ZeroPage_X),
        0x8c => entry(0x8c, STY, 3, 4, Absolute),
        0xd8 => entry(0xd8, CLD, 1, 2, NoneAddressing),
        0x58 => entry(0x58, CLI, 1, 2, NoneAddressing),
        0xb8 => entry(0xb8, CLV, 1, 2, NoneAddressing),
        0x18 => entry(0x18, CLC, 1, 2, NoneAddressing),
        0x38 => entry(0x38, SEC, 1, 2, NoneAddressing),
        0x78 => entry(0x78, SEI, 1, 2, NoneAddressing),
        0xf8 => entry(0xf8, SED, 1, 2, NoneAddressing),
        0xaa => entry(0xaa, TAX, 1, 2, NoneAddressing),
        0xa8 => entry(0xa8, TAY, 1, 2, NoneAddressing),
        0xba => entry(0xba, TSX, 1, 2, NoneAddressing),
        0x8a => entry(0x8a, TXA, 1, 2, NoneAddressing),
        0x9a => entry(0x9a, TXS, 1, 2, NoneAddressing),
        0x98 => entry(0x98, TYA, 1, 2, NoneAddressing),
        0x48 => entry(0x48, PHA, 1, 3, NoneAddressing),
        0x68 => entry(0x68, PLA, 1, 4, NoneAddressing),
        0x08 => entry(0x08, PHP, 1, 3, NoneAddressing),
        0x28 => entry(0x28, PLP, 1, 4, NoneAddressing),
        _ => None,
    }
}

/// What looking `op` up in `table` gives.
pub open spec fn table_lookup(table: Map<u8, OpCode>, op: u8) -> Option<OpCode> {
    if table.contains_key(op) {
        Some(table[op])
    } else {
        None
    }
}

/// Whether `table` is the table of the documented opcodes.
pub open spec fn is_standard_table(table: Map<u8, OpCode>) -> bool {
    forall|op: u8| #[trigger] table_lookup(table, op) == opcode_spec(op)
}

/// The row of the table for `op`, if `op` is a documented opcode.
pub fn opcode_entry(op: u8) -> (r: Option<OpCode>)
    ensures
        r == opcode_spec(op),
{
    match op {
        0x00 => Some(OpCode::new(0x00, BRK, 1, 7, NoneAddressing)),
        0xea => Some(OpCode::new(0xea, NOP, 1, 2, NoneAddressing)),
        0x69 => Some(OpCode::new(0x69, ADC, 2, 2, Immediate)),
        0x65 => Some(OpCode::new(0x65, ADC, 2, 3, ZeroPage)),
        0x75 => Some(OpCode::new(0x75, ADC, 2, 4, ZeroPage_X)),
        0x6d => Some(OpCode::new(0x6d, ADC, 3, 4, Absolute)),
        0x7d => Some(OpCode::new(0x7d, ADC, 3, 4, Absolute_X)),
        0x79 => Some(OpCode::new(0x79, ADC, 3, 4, Absolute_Y)),
        0x61 => Some(OpCode::new(0x61, ADC, 2, 6, Indirect_X)),
        0x71 => Some(OpCode::new(0x71, ADC, 2, 5, Indirect_Y)),
        0xe9 => Some(OpCode::new(0xe9, SBC, 2, 2, Immediate)),
        0xe5 => Some(OpCode::new(0xe5, SBC, 2, 3, ZeroPage)),
        0xf5 => Some(OpCode::new(0xf5, SBC, 2, 4, ZeroPage_X)),
        0xed => Some(OpCode::new(0xed, SBC, 3, 4, Absolute)),
        0xfd => Some(OpCode::new(0xfd, SBC, 3, 4, Absolute_X)),
        0xf9 => Some(OpCode::new(0xf9, SBC, 3, 4, Absolute_Y)),
        0xe1 => Some(OpCode::new(0xe1, SBC, 2, 6, Indirect_X)),
        0xf1 => Some(OpCode::new(0xf1, SBC, 2, 5, Indirect_Y)),
        0x29 => Some(OpCode::new(0x29, AND, 2, 2, Immediate)),
        0x25 => Some(OpCode::new(0x25, AND, 2, 3, ZeroPage)),
        0x35 => Some(OpCode::new(0x35, AND, 2, 4, ZeroPage_X)),
        0x2d => Some(OpCode::new(0x2d, AND, 3, 4, Absolute)),
        0x3d => Some(OpCode::new(0x3d, AND, 3, 4, Absolute_X)),
        0x39 => Some(OpCode::new(0x39, AND, 3, 4, Absolute_Y)),
        0x21 => Some(OpCode::new(0x21, AND, 2, 6, Indirect_X)),
        0x31 => Some(OpCode::new(0x31, AND, 2, 5, Indirect_Y)),
        0x49 => Some(OpCode::new(0x49, EOR, 2, 2, Immediate)),
        0x45 => Some(OpCode::new(0x45, EOR, 2, 3, ZeroPage)),
        0x55 => Some(OpCode::new(0x55, EOR, 2, 4, ZeroPage_X)),
        0x4d => Some(OpCode::new(0x4d, EOR, 3, 4, Absolute)),
        0x5d => Some(OpCode::new(0x5d, EOR, 3, 4, Absolute_X)),
        0x59 => Some(OpCode::new(0x59, EOR, 3, 4, Absolute_Y)),
        0x41 => Some(OpCode::new(0x41, EOR, 2, 6, Indirect_X)),
        0x51 => Some(OpCode::new(0x51, EOR, 2, 5, Indirect_Y)),
        0x09 => Some(OpCode::new(0x09, ORA, 2, 2, Immediate)),
        0x05 => Some(OpCode::new(0x05, ORA, 2, 3, ZeroPage)),
        0x15 => Some(OpCode::new(0x15, ORA, 2, 4, ZeroPage_X)),
        0x0d => Some(OpCode::new(0x0d, ORA, 3, 4, Absolute)),
        0x1d => Some(OpCode::new(0x1d, ORA, 3, 4, Absolute_X)),
        0x19 => Some(OpCode::new(0x19, ORA, 3, 4, Absolute_Y)),
        0x01 => Some(OpCode::new(0x01, ORA, 2, 6, Indirect_X)),
        0x11 => Some(OpCode::new(0x11, ORA, 2, 5, Indirect_Y)),
        0x0a => Some(OpCode::new(0x0a, ASL, 1, 2, NoneAddressing)),
        0x06 => Some(OpCode::new(0x06, ASL, 2, 5, ZeroPage)),
        0x16 => Some(OpCode::new(0x16, ASL, 2, 6, ZeroPage_X)),
        0x0e => Some(OpCode::new(0x0e, ASL, 3, 6, Absolute)),
        0x1e => Some(OpCode::new(0x1e, ASL, 3, 7, Absolute_X)),
        0x4a => Some(OpCode::new(0x4a, LSR, 1, 2, NoneAddressing)),
        0x46 => Some(OpCode::new(0x46, LSR, 2, 5, ZeroPage)),
        0x56 => Some(OpCode::new(0x56, LSR, 2, 6, ZeroPage_X)),
        0x4e => Some(OpCode::new(0x4e, LSR, 3, 6, Absolute)),
        0x5e => Some(OpCode::new(0x5e, LSR, 3, 7, Absolute_X)),
        0x2a => Some(OpCode::new(0x2a, ROL, 1, 2, NoneAddressing)),
        0x26 => Some(OpCode::new(0x26, ROL, 2, 5, ZeroPage)),
        0x36 => Some(OpCode::new(0x36, ROL, 2, 6, ZeroPage_X)),
        0x2e => Some(OpCode::new(0x2e, ROL, 3, 6, Absolute)),
        0x3e => Some(OpCode::new(0x3e, ROL, 3, 7, Absolute_X)),
        0x6a => Some(OpCode::new(0x6a, ROR, 1, 2, NoneAddressing)),
        0x66 => Some(OpCode::new(0x66, ROR, 2, 5, ZeroPage)),
        0x76 => Some(OpCode::new(0x76, ROR, 2, 6, ZeroPage_X)),
        0x6e => Some(OpCode::new(0x6e, ROR, 3, 6, Absolute)),
        0x7e => Some(OpCode::new(0x7e, ROR, 3, 7, Absolute_X)),
        0xe6 => Some(OpCode::new(0xe6, INC, 2, 5, ZeroPage)),
        0xf6 => Some(OpCode::new(0xf6, INC, 2, 6, ZeroPage_X)),
        0xee => Some(OpCode::new(0xee, INC, 3, 6, Absolute)),
        0xfe => Some(OpCode::new(0xfe, INC, 3, 7, Absolute_X)),
        0xe8 => Some(OpCode::new(0xe8, INX, 1, 2, NoneAddressing)),
        0xc8 => Some(OpCode::new(0xc8, INY, 1, 2, NoneAddressing)),
        0xc6 => Some(OpCode::new(0xc6, DEC, 2, 5, ZeroPage)),
        0xd6 => Some(OpCode::new(0xd6, DEC, 2, 6, ZeroPage_X)),
        0xce => Some(OpCode::new(0xce, DEC, 3, 6, Absolute)),
        0xde => Some(OpCode::new(0xde, DEC, 3, 7, Absolute_X)),
        0xca => Some(OpCode::new(0xca, DEX, 1, 2, NoneAddressing)),
        0x88 => Some(OpCode::new(0x88, DEY, 1, 2, NoneAddressing)),
        0xc9 => Some(OpCode::new(0xc9, CMP, 2, 2, Immediate)),
        0xc5 => Some(OpCode::new(0xc5, CMP, 2, 3, ZeroPage)),
        0xd5 => Some(OpCode::new(0xd5, CMP, 2, 4, ZeroPage_X)),
        0xcd => Some(OpCode::new(0xcd, CMP, 3, 4, Absolute)),
        0xdd => Some(OpCode::new(0xdd, CMP, 3, 4, Absolute_X)),
        0xd9 => Some(OpCode::new(0xd9, CMP, 3, 4, Absolute_Y)),
        0xc1 => Some(OpCode::new(0xc1, CMP, 2, 6, Indirect_X)),
        0xd1 => Some(OpCode::new(0xd1, CMP, 2, 5, Indirect_Y)),
        0xc0 => Some(OpCode::new(0xc0, CPY, 2, 2, Immediate)),
        0xc4 => Some(OpCode::new(0xc4, CPY, 2, 3, ZeroPage)),
        0xcc => Some(OpCode::new(0xcc, CPY, 3, 4, Absolute)),
        0xe0 => Some(OpCode::new(0xe0, CPX, 2, 2, Immediate)),
        0xe4 => Some(OpCode::new(0xe4, CPX, 2, 3, ZeroPage)),
        0xec => Some(OpCode::new(0xec, CPX, 3, 4, Absolute)),
        0x4c => Some(OpCode::new(0x4c, JMP, 3, 3, Absolute)),
        0x6c => Some(OpCode::new(0x6c, JMP, 3, 5, NoneAddressing)),
        0x20 => Some(OpCode::new(0x20, JSR, 3, 6, NoneAddressing)),
        0x60 => Some(OpCode::new(0x60, RTS, 1, 6, NoneAddressing)),
        0x40 => Some(OpCode::new(0x40, RTI, 1, 6, NoneAddressing)),
        0xd0 => Some(OpCode::new(0xd0, BNE, 2, 2, NoneAddressing)),
        0x70 => Some(OpCode::new(0x70, BVS, 2, 2, NoneAddressing)),
        0x50 => Some(OpCode::new(0x50, BVC, 2, 2, NoneAddressing)),
        0x30 => Some(OpCode::new(0x30, BMI, 2, 2, NoneAddressing)),
        0xf0 => Some(OpCode::new(0xf0, BEQ, 2, 2, NoneAddressing)),
        0xb0 => Some(OpCode::new(0xb0, BCS, 2, 2, NoneAddressing)),
        0x90 => Some(OpCode::new(0x90, BCC, 2, 2, NoneAddressing)),
        0x10 => Some(OpCode::new(0x10, BPL, 2, 2, NoneAddressing)),
        0x24 => Some(OpCode::new(0x24, BIT, 2, 3, ZeroPage)),
        0x2c => Some(OpCode::new(0x2c, BIT, 3, 4, Absolute)),
        0xa9 => Some(OpCode::new(0xa9, LDA, 2, 2, Immediate)),
        0xa5 => Some(OpCode::new(0xa5, LDA, 2, 3, ZeroPage)),
        0xb5 => Some(OpCode::new(0xb5, LDA, 2, 4, ZeroPage_X)),
        0xad => Some(OpCode::new(0xad, LDA, 3, 4, Absolute)),
        0xbd => Some(OpCode::new(0xbd, LDA, 3, 4, Absolute_X)),
        0xb9 => Some(OpCode::new(0xb9, LDA, 3, 4, Absolute_Y)),
        0xa1 => Some(OpCode::new(0xa1, LDA, 2, 6, Indirect_X)),
        0xb1 => Some(OpCode::new(0xb1, LDA, 2, 5, Indirect_Y)),
        0xa2 => Some(OpCode::new(0xa2, LDX, 2, 2, Immediate)),
        0xa6 => Some(OpCode::new(0xa6, LDX, 2, 3, ZeroPage)),
        0xb6 => Some(OpCode::new(0xb6, LDX, 2, 4, ZeroPage_Y)),
        0xae => Some(OpCode::new(0xae, LDX, 3, 4, Absolute)),
        0xbe => Some(OpCode::new(0xbe, LDX, 3, 4, Absolute_Y)),
        0xa0 => Some(OpCode::new(0xa0, LDY, 2, 2, Immediate)),
        0xa4 => Some(OpCode::new(0xa4, LDY, 2, 3, ZeroPage)),
        0xb4 => Some(OpCode::new(0xb4, LDY, 2, 4, ZeroPage_X)),
        0xac => Some(OpCode::new(0xac, LDY, 3, 4, Absolute)),
        0xbc => Some(OpCode::new(0xbc, LDY, 3, 4, Absolute_X)),
        0x85 => Some(OpCode::new(0x85, STA, 2, 3, ZeroPage)),
        0x95 => Some(OpCode::new(0x95, STA, 2, 4, ZeroPage_X)),
        0x8d => Some(OpCode::new(0x8d, STA, 3, 4, Absolute)),
        0x9d => Some(OpCode::new(0x9d, STA, 3, 5, Absolute_X)),
        0x99 => Some(OpCode::new(0x99, STA, 3, 5, Absolute_Y)),
        0x81 => Some(OpCode::new(0x81, STA, 2, 6, Indirect_X)),
        0x91 => Some(OpCode::new(0x91, STA, 2, 6, Indirect_Y)),
        0x86 => Some(OpCode::new(0x86, STX, 2, 3, ZeroPage)),
        0x96 => Some(OpCode::new(0x96, STX, 2, 4, ZeroPage_Y)),
        0x8e => Some(OpCode::new(0x8e, STX, 3, 4, Absolute)),
        0x84 => Some(OpCode::new(0x84, STY, 2, 3, ZeroPage)),
        0x94 => Some(OpCode::new(0x94, STY, 2, 4, ZeroPage_X)),
        0x8c => Some(OpCode::new(0x8c, STY, 3, 4, Absolute)),
        0xd8 => Some(OpCode::new(0xd8, CLD, 1, 2, NoneAddressing)),
        0x58 => Some(OpCode::new(0x58, CLI, 1, 2, NoneAddressing)),
        0xb8 => Some(OpCode::new(0xb8, CLV, 1, 2, NoneAddressing)),
        0x18 => Some(OpCode::new(0x18, CLC, 1, 2, NoneAddressing)),
        0x38 => Some(OpCode::new(0x38, SEC, 1, 2, NoneAddressing)),
        0x78 => Some(OpCode::new(0x78, SEI, 1, 2, NoneAddressing)),
        0xf8 => Some(OpCode::new(0xf8, SED, 1, 2, NoneAddressing)),
        0xaa => Some(OpCode::new(0xaa, TAX, 1, 2, NoneAddressing)),
        0xa8 => Some(OpCode::new(0xa8, TAY, 1, 2, NoneAddressing)),
        0xba => Some(OpCode::new(0xba, TSX, 1, 2, NoneAddressing)),
        0x8a => Some(OpCode::new(0x8a, TXA, 1, 2, NoneAddressing)),
        0x9a => Some(OpCode::new(0x9a, TXS, 1, 2, NoneAddressing)),
        0x98 => Some(OpCode::new(0x98, TYA, 1, 2, NoneAddressing)),
        0x48 => Some(OpCode::new(0x48, PHA, 1, 3, NoneAddressing)),
        0x68 => Some(OpCode::new(0x68, PLA, 1, 4, NoneAddressing)),
        0x08 => Some(OpCode::new(0x08, PHP, 1, 3, NoneAddressing)),
        0x28 => Some(OpCode::new(0x28, PLP, 1, 4, NoneAddressing)),
        _ => None,
    }
}

/// Builds the opcode table as a map from opcode byte to its row.
pub fn make_opcode_hashtable() -> (r: HashMap<u8, OpCode>)
    ensures
        is_standard_table(r@),
{
    let mut retval: HashMap<u8, OpCode> = HashMap::new();
    let mut op: u16 = 0;
    while op < 256
        invariant
            op <= 256,
            forall|k: u8|
                #[trigger] table_lookup(retval@, k) == if k < op {
                    opcode_spec(k)
                } else {
                    None
                },
        decreases 256 - op,
    {
        let ghost before = retval@;
        let e = opcode_entry(op as u8);
        match e {
            Some(row) => {
                retval.insert(op as u8, row);
            },
            None => {},
        }
        assert forall|k: u8| #[trigger]
            table_lookup(retval@, k) == if k <= op {
                opcode_spec(k)
            } else {
                None
            } by {
            if k != op as u8 {
                assert(table_lookup(retval@, k) == table_lookup(before, k));
            }
        }
        op += 1;
    }
    retval
}

/// The opcode table that the interpreter consults on every fetch.
pub struct Instructions {
    pub map: HashMap<u8, OpCode>,
}

impl Instructions {
    pub fn new() -> (r: Self)
        ensures
            is_standard_table(r.map@),
    {
        Instructions { map: make_opcode_hashtable() }
    }

    /// The row for `op`, or `None` when the table has none.
    pub fn lookup(&self, op: u8) -> (r: Option<OpCode>)
        ensures
            r == table_lookup(self.map@, op),
    {
        match self.map.get(&op) {
            Some(e) => Some(*e),
            None => None,
        }
    }
}

} // verus!
