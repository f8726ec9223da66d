//! What each instruction does: its meaning as a function on `CpuState`, and the handlers
//! that carry it out on a `CPU`.
use vstd::prelude::*;

use crate::alu::{
    adc_carry, adc_overflow, adc_value, add_with_carry, negated, shift_left, shift_right,
    signed,
};
use crate::cpu::{make_word, word, AddressingMode, CpuState, CPU};
use crate::opcodes::{Mnemonic, OpCode};
use crate::status::{
    has_flag, lemma_zero_negative, set_flag, update_zero_negative, with_flag, with_zero_negative,
    BREAK, CARRY, DECIMAL, INTERRUPT_DISABLE, NEGATIVE, OVERFLOW, UNUSED, ZERO,
};

verus! {

/// Whether `name` works on memory at an effective address, so that the no-address mode
/// leaves it without an operand. Shifts and rotations take the accumulator in that mode,
/// and JMP an indirect pointer.
pub open spec fn needs_address(name: Mnemonic) -> bool {
    match name {
        Mnemonic::LDA | Mnemonic::LDX | Mnemonic::LDY | Mnemonic::STA | Mnemonic::STX
        | Mnemonic::STY | Mnemonic::ADC | Mnemonic::SBC | Mnemonic::AND | Mnemonic::EOR
        | Mnemonic::ORA | Mnemonic::CMP | Mnemonic::CPX | Mnemonic::CPY | Mnemonic::BIT
        | Mnemonic::INC | Mnemonic::DEC => true,
        _ => false,
    }
}

/// Whether `name` is a jump, a call, a return or a conditional branch.
pub open spec fn is_control_transfer(name: Mnemonic) -> bool {
    match name {
        Mnemonic::JMP | Mnemonic::JSR | Mnemonic::RTS | Mnemonic::RTI | Mnemonic::BCC
        | Mnemonic::BCS | Mnemonic::BEQ | Mnemonic::BNE | Mnemonic::BMI | Mnemonic::BPL
        | Mnemonic::BVC | Mnemonic::BVS => true,
        _ => false,
    }
}

/// The status word as PLP and RTI restore it from the byte pulled: Break cleared, the
/// unused bit set.
pub open spec fn pulled_status(v: u8) -> u8 {
    with_flag(with_flag(v, BREAK, false), UNUSED, true)
}

/// The status word as PHP pushes it: Break and the unused bit set.
pub open spec fn pushed_status(status: u8) -> u8 {
    with_flag(with_flag(status, BREAK, true), UNUSED, true)
}

/// Where a taken branch goes: the address after the displacement byte at `pc`, plus the
/// displacement read as a signed byte, wrapping at 0x10000.
pub open spec fn branch_target(pc: u16, displacement: u8) -> u16 {
    ((pc + 1 + signed(displacement)) % 0x10000) as u16
}

impl CpuState {
    /// The byte that a shift or rotation works on: the accumulator in the no-address mode,
    /// memory at the effective address otherwise.
    pub open spec fn shift_source(self, mode: AddressingMode) -> u8 {
        if mode == AddressingMode::NoneAddressing {
            self.register_a
        } else {
            self.operand(mode)
        }
    }

    /// This state with `v` put back where `shift_source` took its byte from.
    pub open spec fn shift_store(self, mode: AddressingMode, v: u8) -> CpuState {
        if mode == AddressingMode::NoneAddressing {
            CpuState { register_a: v, ..self }
        } else {
            self.write(self.operand_address(mode), v)
        }
    }

    /// This state after adding `m` and the carry to the accumulator.
    pub open spec fn add_to_a(self, m: u8) -> CpuState {
        let c = has_flag(self.status, CARRY);
        let flags = with_flag(
            with_flag(self.status, CARRY, adc_carry(self.register_a, m, c)),
            OVERFLOW,
            adc_overflow(self.register_a, m, c),
        );
        self.with_status(flags).with_a(adc_value(self.register_a, m, c))
    }

    /// This state after comparing `reg` with the operand: Carry when the operand is at
    /// most `reg`, Zero and Negative from `reg` minus the operand, wrapping.
    pub open spec fn compare(self, mode: AddressingMode, reg: u8) -> CpuState {
        let m = self.operand(mode);
        self.with_status(
            with_zero_negative(with_flag(self.status, CARRY, m <= reg), reg.wrapping_sub(m)),
        )
    }

    /// This state after a conditional branch on `taken`.
    pub open spec fn branch(self, taken: bool) -> CpuState {
        if taken {
            self.with_pc(branch_target(self.program_counter, self.read(self.program_counter)))
        } else {
            self
        }
    }

    /// The target of JMP in the no-address mode: the operand is a pointer to the target.
    /// When the pointer's low byte is 0xFF, the target's high byte comes from the start of
    /// the pointer's own page, not from the next page.
    pub open spec fn indirect_target(self) -> u16 {
        let ptr = self.read_u16(self.program_counter);
        if ptr & 0x00FF == 0x00FF {
            word(self.read(ptr), self.read(ptr & 0xFF00))
        } else {
            self.read_u16(ptr)
        }
    }
}

/// The state after the instruction `name` runs under `mode`, with the program counter at
/// the byte after the opcode. BRK and NOP leave it as it is.
pub open spec fn execute_spec(s: CpuState, name: Mnemonic, mode: AddressingMode) -> CpuState {
    let st = s.status;
    match name {
        Mnemonic::BRK | Mnemonic::NOP => s,
        Mnemonic::LDA => s.with_a(s.operand(mode)),
        Mnemonic::LDX => s.with_x(s.operand(mode)),
        Mnemonic::LDY => s.with_y(s.operand(mode)),
        Mnemonic::STA => s.write(s.operand_address(mode), s.register_a),
        Mnemonic::STX => s.write(s.operand_address(mode), s.register_x),
        Mnemonic::STY => s.write(s.operand_address(mode), s.register_y),
        Mnemonic::TAX => s.with_x(s.register_a),
        Mnemonic::TAY => s.with_y(s.register_a),
        Mnemonic::TSX => s.with_x(s.stack_ptr),
        Mnemonic::TXA => s.with_a(s.register_x),
        Mnemonic::TXS => CpuState { stack_ptr: s.register_x, ..s },
        Mnemonic::TYA => s.with_a(s.register_y),
        Mnemonic::PHA => s.push(s.register_a),
        Mnemonic::PHP => s.push(pushed_status(st)),
        Mnemonic::PLA => s.pop().0.with_a(s.pop().1),
        Mnemonic::PLP => s.pop().0.with_status(pulled_status(s.pop().1)),
        Mnemonic::AND => s.with_a(s.register_a & s.operand(mode)),
        Mnemonic::EOR => s.with_a(s.register_a ^ s.operand(mode)),
        Mnemonic::ORA => s.with_a(s.register_a | s.operand(mode)),
        Mnemonic::ASL => {
            let v = s.shift_source(mode);
            s.shift_store(mode, v << 1u8).with_status(
                with_zero_negative(with_flag(st, CARRY, v & 0x80 != 0), v << 1u8),
            )
        },
        Mnemonic::LSR => {
            let v = s.shift_source(mode);
            s.shift_store(mode, v >> 1u8).with_status(
                with_zero_negative(with_flag(st, CARRY, v & 1 != 0), v >> 1u8),
            )
        },
        Mnemonic::ROL => {
            let v = s.shift_source(mode);
            s.shift_store(mode, (v << 1u8) | (st & CARRY)).with_status(
                with_zero_negative(with_flag(st, CARRY, v & 0x80 != 0), v << 1u8),
            )
        },
        Mnemonic::ROR => {
            let v = s.shift_source(mode);
            let r = (v >> 1u8) | (if has_flag(st, CARRY) {
                0x80u8
            } else {
                0u8
            });
            s.shift_store(mode, r).with_status(
                with_zero_negative(with_flag(st, CARRY, v & 1 != 0), r),
            )
        },
        Mnemonic::INC => {
            let r = s.operand(mode).wrapping_add(1);
            s.write(s.operand_address(mode), r).with_status(with_zero_negative(st, r))
        },
        Mnemonic::DEC => {
            let r = s.operand(mode).wrapping_sub(1);
            s.write(s.operand_address(mode), r).with_status(with_zero_negative(st, r))
        },
        Mnemonic::INX => s.with_x(s.register_x.wrapping_add(1)),
        Mnemonic::INY => s.with_y(s.register_y.wrapping_add(1)),
        Mnemonic::DEX => s.with_x(s.register_x.wrapping_sub(1)),
        Mnemonic::DEY => s.with_y(s.register_y.wrapping_sub(1)),
        Mnemonic::ADC => s.add_to_a(s.operand(mode)),
        Mnemonic::SBC => s.add_to_a(negated(s.operand(mode))),
        Mnemonic::CMP => s.compare(mode, s.register_a),
        Mnemonic::CPX => s.compare(mode, s.register_x),
        Mnemonic::CPY => s.compare(mode, s.register_y),
        Mnemonic::BIT => {
            let m = s.operand(mode);
            s.with_status(
                with_flag(
                    with_flag(with_flag(st, ZERO, s.register_a & m == 0), NEGATIVE, m & 0x80 != 0),
                    OVERFLOW,
                    m & 0x40 != 0,
                ),
            )
        },
        Mnemonic::JMP => {
            if mode == AddressingMode::NoneAddressing {
                s.with_pc(s.indirect_target())
            } else {
                s.with_pc(s.operand_address(mode))
            }
        },
        Mnemonic::JSR => s.push_u16(s.program_counter.wrapping_add(1)).with_pc(
            s.read_u16(s.program_counter),
        ),
        Mnemonic::RTS => s.pop_u16().0.with_pc(s.pop_u16().1.wrapping_add(1)),
        Mnemonic::RTI => {
            let (t, v) = s.pop();
            let (u, addr) = t.pop_u16();
            u.with_status(pulled_status(v)).with_pc(addr)
        },
        Mnemonic::BCC => s.branch(!has_flag(st, CARRY)),
        Mnemonic::BCS => s.branch(has_flag(st, CARRY)),
        Mnemonic::BEQ => s.branch(has_flag(st, ZERO)),
        Mnemonic::BNE => s.branch(!has_flag(st, ZERO)),
        Mnemonic::BMI => s.branch(has_flag(st, NEGATIVE)),
        Mnemonic::BPL => s.branch(!has_flag(st, NEGATIVE)),
        Mnemonic::BVC => s.branch(!has_flag(st, OVERFLOW)),
        Mnemonic::BVS => s.branch(has_flag(st, OVERFLOW)),
        Mnemonic::CLC => s.with_status(with_flag(st, CARRY, false)),
        Mnemonic::CLD => s.with_status(with_flag(st, DECIMAL, false)),
        Mnemonic::CLI => s.with_status(with_flag(st, INTERRUPT_DISABLE, false)),
        Mnemonic::CLV => s.with_status(with_flag(st, OVERFLOW, false)),
        Mnemonic::SEC => s.with_status(with_flag(st, CARRY, true)),
        Mnemonic::SED => s.with_status(with_flag(st, DECIMAL, true)),
        Mnemonic::SEI => s.with_status(with_flag(st, INTERRUPT_DISABLE, true)),
    }
}

/// A load puts the operand byte in its register; Zero is then set exactly when the byte is
/// 0, and Negative exactly when its bit 7 is set.
pub proof fn lemma_load_flags(s: CpuState, name: Mnemonic, mode: AddressingMode)
    requires
        name == Mnemonic::LDA || name == Mnemonic::LDX || name == Mnemonic::LDY,
    ensures
        ({
            let t = execute_spec(s, name, mode);
            let v = s.operand(mode);
            &&& name == Mnemonic::LDA ==> t.register_a == v
            &&& name == Mnemonic::LDX ==> t.register_x == v
            &&& name == Mnemonic::LDY ==> t.register_y == v
            &&& has_flag(t.status, ZERO) == (v == 0)
            &&& has_flag(t.status, NEGATIVE) == (v & 0x80 != 0)
        }),
{
    lemma_zero_negative(s.status, s.operand(mode));
}

/// Whether `name` needs an effective address.
pub fn requires_address(name: Mnemonic) -> (r: bool)
    ensures
        r == needs_address(name),
{
    match name {
        Mnemonic::LDA | Mnemonic::LDX | Mnemonic::LDY | Mnemonic::STA | Mnemonic::STX
        | Mnemonic::STY | Mnemonic::ADC | Mnemonic::SBC | Mnemonic::AND | Mnemonic::EOR
        | Mnemonic::ORA | Mnemonic::CMP | Mnemonic::CPX | Mnemonic::CPY | Mnemonic::BIT
        | Mnemonic::INC | Mnemonic::DEC => true,
        _ => false,
    }
}


/// Whether `name` is a jump, a call, a return or a conditional branch.
pub fn transfers_control(name: Mnemonic) -> (r: bool)
    ensures
        r == is_control_transfer(name),
{
    match name {
        Mnemonic::JMP | Mnemonic::JSR | Mnemonic::RTS | Mnemonic::RTI | Mnemonic::BCC
        | Mnemonic::BCS | Mnemonic::BEQ | Mnemonic::BNE | Mnemonic::BMI | Mnemonic::BPL
        | Mnemonic::BVC | Mnemonic::BVS => true,
        _ => false,
    }
}

impl CPU {
    /// Sets Zero and Negative from `result`, keeping the other flags.
    fn update_zero_and_negative_flags(&mut self, result: u8)
        ensures
            final(self)@ == old(self)@.with_status(with_zero_negative(old(self).status, result)),
    {
        self.status = update_zero_negative(self.status, result);
    }

    fn set_register_a(&mut self, v: u8)
        ensures
            final(self)@ == old(self)@.with_a(v),
    {
        self.register_a = v;
        self.update_zero_and_negative_flags(v);
    }

    fn set_register_x(&mut self, v: u8)
        ensures
            final(self)@ == old(self)@.with_x(v),
    {
        self.register_x = v;
        self.update_zero_and_negative_flags(v);
    }

    fn set_register_y(&mut self, v: u8)
        ensures
            final(self)@ == old(self)@.with_y(v),
    {
        self.register_y = v;
        self.update_zero_and_negative_flags(v);
    }

    /// The byte at the effective address of `mode`.
    fn read_operand(&self, mode: &AddressingMode) -> (r: u8)
        requires
            *mode != AddressingMode::NoneAddressing,
        ensures
            r == self@.operand(*mode),
    {
        self.mem_read(self.get_operand_address(mode))
    }

    /// LDA: load the accumulator from memory.
    fn lda(&mut self, mode: &AddressingMode)
        requires
            *mode != AddressingMode::NoneAddressing,
        ensures
            final(self)@ == execute_spec(old(self)@, Mnemonic::LDA, *mode),
            final(self).register_a == old(self)@.operand(*mode),
            has_flag(final(self).status, ZERO) == (old(self)@.operand(*mode) == 0),
            has_flag(final(self).status, NEGATIVE) == (old(self)@.operand(*mode) & 0x80 != 0),
    {
        let v: u8 = self.read_operand(mode);
        proof {
            lemma_zero_negative(self.status, v);
        }
        self.set_register_a(v);
    }

    /// LDX: load X from memory.
    fn ldx(&mut self, mode: &AddressingMode)
        requires
            *mode != AddressingMode::NoneAddressing,
        ensures
            final(self)@ == execute_spec(old(self)@, Mnemonic::LDX, *mode),
            final(self).register_x == old(self)@.operand(*mode),
            has_flag(final(self).status, ZERO) == (old(self)@.operand(*mode) == 0),
            has_flag(final(self).status, NEGATIVE) == (old(self)@.operand(*mode) & 0x80 != 0),
    {
        let v: u8 = self.read_operand(mode);
        proof {
            lemma_zero_negative(self.status, v);
        }
        self.set_register_x(v);
    }

    /// LDY: load Y from memory.
    fn ldy(&mut self, mode: &AddressingMode)
        requires
            *mode != AddressingMode::NoneAddressing,
        ensures
            final(self)@ == execute_spec(old(self)@, Mnemonic::LDY, *mode),
            final(self).register_y == old(self)@.operand(*mode),
            has_flag(final(self).status, ZERO) == (old(self)@.operand(*mode) == 0),
            has_flag(final(self).status, NEGATIVE) == (old(self)@.operand(*mode) & 0x80 != 0),
    {
        let v: u8 = self.read_operand(mode);
        proof {
            lemma_zero_negative(self.status, v);
        }
        self.set_register_y(v);
    }

    /// STA: store the accumulator in memory.
    fn sta(&mut self, mode: &AddressingMode)
        requires
            *mode != AddressingMode::NoneAddressing,
        ensures
            final(self)@ == execute_spec(old(self)@, Mnemonic::STA, *mode),
    {
        let addr: u16 = self.get_operand_address(mode);
        self.mem_write(addr, self.register_a);
    }

    /// STX: store X in memory.
    fn stx(&mut self, mode: &AddressingMode)
        requires
            *mode != AddressingMode::NoneAddressing,
        ensures
            final(self)@ == execute_spec(old(self)@, Mnemonic::STX, *mode),
    {
        let addr: u16 = self.get_operand_address(mode);
        self.mem_write(addr, self.register_x);
    }

    /// STY: store Y in memory.
    fn sty(&mut self, mode: &AddressingMode)
        requires
            *mode != AddressingMode::NoneAddressing,
        ensures
            final(self)@ == execute_spec(old(self)@, Mnemonic::STY, *mode),
    {
        let addr: u16 = self.get_operand_address(mode);
        self.mem_write(addr, self.register_y);
    }

    /// TAX: transfer the accumulator to X.
    fn tax(&mut self)
        ensures
            final(self)@ == old(self)@.with_x(old(self).register_a),
    {
        self.set_register_x(self.register_a);
    }

    /// TAY: transfer the accumulator to Y.
    fn tay(&mut self)
        ensures
            final(self)@ == old(self)@.with_y(old(self).register_a),
    {
        self.set_register_y(self.register_a);
    }

    /// TSX: transfer the stack pointer to X.
    fn tsx(&mut self)
        ensures
            final(self)@ == old(self)@.with_x(old(self).stack_ptr),
    {
        self.set_register_x(self.stack_ptr);
    }

    /// TXA: transfer X to the accumulator.
    fn txa(&mut self)
        ensures
            final(self)@ == old(self)@.with_a(old(self).register_x),
    {
        self.set_register_a(self.register_x);
    }

    /// TXS: transfer X to the stack pointer; no flag changes.
    fn txs(&mut self)
        ensures
            final(self)@ == (CpuState { stack_ptr: old(self).register_x, ..old(self)@ }),
    {
        self.stack_ptr = self.register_x;
    }

    /// TYA: transfer Y to the accumulator.
    fn tya(&mut self)
        ensures
            final(self)@ == old(self)@.with_a(old(self).register_y),
    {
        self.set_register_a(self.register_y);
    }

    /// INX: increment X, wrapping.
    fn inx(&mut self)
        ensures
            final(self)@ == old(self)@.with_x(old(self).register_x.wrapping_add(1)),
    {
        self.set_register_x(self.register_x.wrapping_add(1));
    }

    /// AND: bitwise AND of the accumulator and memory, into the accumulator.
    fn and(&mut self, mode: &AddressingMode)
        requires
            *mode != AddressingMode::NoneAddressing,
        ensures
            final(self)@ == execute_spec(old(self)@, Mnemonic::AND, *mode),
    {
        let data: u8 = self.read_operand(mode);
        self.set_register_a(self.register_a & data);
    }

    /// INY: increment Y, wrapping.
    fn iny(&mut self)
        ensures
            final(self)@ == old(self)@.with_y(old(self).register_y.wrapping_add(1)),
    {
        self.set_register_y(self.register_y.wrapping_add(1));
    }

    /// DEX: decrement X, wrapping.
    fn dex(&mut self)
        ensures
            final(self)@ == old(self)@.with_x(old(self).register_x.wrapping_sub(1)),
    {
        self.set_register_x(self.register_x.wrapping_sub(1));
    }

    /// DEY: decrement Y, wrapping.
    fn dey(&mut self)
        ensures
            final(self)@ == old(self)@.with_y(old(self).register_y.wrapping_sub(1)),
    {
        self.set_register_y(self.register_y.wrapping_sub(1));
    }

    /// EOR: exclusive OR of the accumulator and memory, into the accumulator.
    fn eor(&mut self, mode: &AddressingMode)
        requires
            *mode != AddressingMode::NoneAddressing,
        ensures
            final(self)@ == execute_spec(old(self)@, Mnemonic::EOR, *mode),
    {
        let data: u8 = self.read_operand(mode);
        self.set_register_a(self.register_a ^ data);
    }

    /// ORA: bitwise OR of the accumulator and memory, into the accumulator.
    fn ora(&mut self, mode: &AddressingMode)
        requires
            *mode != AddressingMode::NoneAddressing,
        ensures
            final(self)@ == execute_spec(old(self)@, Mnemonic::ORA, *mode),
    {
        let data: u8 = self.read_operand(mode);
        self.set_register_a(self.register_a | data);
    }

    /// PHA: push the accumulator.
    fn pha(&mut self)
        ensures
            final(self)@ == old(self)@.push(old(self).register_a),
    {
        self.stack_push(self.register_a);
    }

    /// PHP: push the status word with Break and the unused bit set.
    fn php(&mut self)
        ensures
            final(self)@ == old(self)@.push(pushed_status(old(self).status)),
    {
        let v: u8 = set_flag(set_flag(self.status, BREAK, true), UNUSED, true);
        self.stack_push(v);
    }

    /// PLA: pull the accumulator.
    fn pla(&mut self)
        ensures
            final(self)@ == execute_spec(old(self)@, Mnemonic::PLA, AddressingMode::NoneAddressing),
    {
        let v: u8 = self.stack_pop();
        self.set_register_a(v);
    }

    /// PLP: pull the status word, clearing Break and setting the unused bit.
    fn plp(&mut self)
        ensures
            final(self)@ == execute_spec(old(self)@, Mnemonic::PLP, AddressingMode::NoneAddressing),
    {
        let v: u8 = self.stack_pop();
        self.status = set_flag(set_flag(v, BREAK, false), UNUSED, true);
    }

    /// Sets or clears the status bits of `mask`.
    fn set_status_flag(&mut self, mask: u8, on: bool)
        ensures
            final(self)@ == old(self)@.with_status(with_flag(old(self).status, mask, on)),
    {
        self.status = set_flag(self.status, mask, on);
    }

    /// The byte that a shift or rotation under `mode` works on.
    fn read_shift_source(&self, mode: &AddressingMode) -> (r: u8)
        ensures
            r == self@.shift_source(*mode),
    {
        match mode {
            AddressingMode::NoneAddressing => self.register_a,
            _ => self.read_operand(mode),
        }
    }

    /// Puts the result of a shift or rotation back where it came from.
    fn write_shift_result(&mut self, mode: &AddressingMode, v: u8)
        ensures
            final(self)@ == old(self)@.shift_store(*mode, v),
    {
        match mode {
            AddressingMode::NoneAddressing => {
                self.register_a = v;
            },
            _ => {
                let addr: u16 = self.get_operand_address(mode);
                self.mem_write(addr, v);
            },
        }
    }

    /// ASL: shift left; Carry takes bit 7.
    fn asl(&mut self, mode: &AddressingMode)
        ensures
            final(self)@ == execute_spec(old(self)@, Mnemonic::ASL, *mode),
    {
        let v: u8 = self.read_shift_source(mode);
        let (r, out) = shift_left(v);
        let status: u8 = update_zero_negative(set_flag(self.status, CARRY, out), r);
        self.write_shift_result(mode, r);
        self.status = status;
    }

    /// LSR: shift right; Carry takes bit 0.
    fn lsr(&mut self, mode: &AddressingMode)
        ensures
            final(self)@ == execute_spec(old(self)@, Mnemonic::LSR, *mode),
    {
        let v: u8 = self.read_shift_source(mode);
        let (r, out) = shift_right(v);
        let status: u8 = update_zero_negative(set_flag(self.status, CARRY, out), r);
        self.write_shift_result(mode, r);
        self.status = status;
    }

    /// ROL: shift left, then the old Carry enters bit 0. Zero and Negative are those the
    /// shift set.
    fn rol(&mut self, mode: &AddressingMode)
        ensures
            final(self)@ == execute_spec(old(self)@, Mnemonic::ROL, *mode),
    {
        let carry_in: u8 = self.status & CARRY;
        let v: u8 = self.read_shift_source(mode);
        let (shifted, out) = shift_left(v);
        let status: u8 = update_zero_negative(set_flag(self.status, CARRY, out), shifted);
        self.write_shift_result(mode, shifted | carry_in);
        self.status = status;
    }

    /// ROR: shift right, then the old Carry enters bit 7; Zero and Negative describe the
    /// final byte.
    fn ror(&mut self, mode: &AddressingMode)
        ensures
            final(self)@ == execute_spec(old(self)@, Mnemonic::ROR, *mode),
    {
        let carry_in: u8 = if self.status & CARRY != 0 {
            0x80
        } else {
            0
        };
        let v: u8 = self.read_shift_source(mode);
        let (shifted, out) = shift_right(v);
        let r: u8 = shifted | carry_in;
        let status: u8 = update_zero_negative(set_flag(self.status, CARRY, out), r);
        self.write_shift_result(mode, r);
        self.status = status;
    }

    /// INC: increment a memory byte, wrapping.
    fn inc(&mut self, mode: &AddressingMode)
        requires
            *mode != AddressingMode::NoneAddressing,
        ensures
            final(self)@ == execute_spec(old(self)@, Mnemonic::INC, *mode),
    {
        let addr: u16 = self.get_operand_address(mode);
        let r: u8 = self.mem_read(addr).wrapping_add(1);
        self.mem_write(addr, r);
        self.update_zero_and_negative_flags(r);
    }

    /// DEC: decrement a memory byte, wrapping.
    fn dec(&mut self, mode: &AddressingMode)
        requires
            *mode != AddressingMode::NoneAddressing,
        ensures
            final(self)@ == execute_spec(old(self)@, Mnemonic::DEC, *mode),
    {
        let addr: u16 = self.get_operand_address(mode);
        let r: u8 = self.mem_read(addr).wrapping_sub(1);
        self.mem_write(addr, r);
        self.update_zero_and_negative_flags(r);
    }

    /// Adds `m` and the carry to the accumulator, setting Carry, Overflow, Zero and Negative.
    fn add_to_register_a(&mut self, m: u8)
        ensures
            final(self)@ == old(self)@.add_to_a(m),
    {
        let (r, carry, overflow) = add_with_carry(self.register_a, m, self.status & CARRY != 0);
        self.status = set_flag(set_flag(self.status, CARRY, carry), OVERFLOW, overflow);
        self.set_register_a(r);
    }

    /// Compares `reg` with the operand.
    fn compare(&mut self, mode: &AddressingMode, reg: u8)
        requires
            *mode != AddressingMode::NoneAddressing,
        ensures
            final(self)@ == old(self)@.compare(*mode, reg),
    {
        let m: u8 = self.read_operand(mode);
        self.status = update_zero_negative(
            set_flag(self.status, CARRY, m <= reg),
            reg.wrapping_sub(m),
        );
    }

    /// BIT: Zero from the accumulator AND the operand; Negative and Overflow copied from
    /// bits 7 and 6 of the operand.
    fn bit(&mut self, mode: &AddressingMode)
        requires
            *mode != AddressingMode::NoneAddressing,
        ensures
            final(self)@ == execute_spec(old(self)@, Mnemonic::BIT, *mode),
    {
        let m: u8 = self.read_operand(mode);
        let s: u8 = set_flag(self.status, ZERO, self.register_a & m == 0);
        let s: u8 = set_flag(s, NEGATIVE, m & 0x80 != 0);
        self.status = set_flag(s, OVERFLOW, m & 0x40 != 0);
    }

    /// JMP: to the effective address, or, in the no-address mode, through a pointer.
    fn jmp(&mut self, mode: &AddressingMode)
        ensures
            final(self)@ == execute_spec(old(self)@, Mnemonic::JMP, *mode),
    {
        match mode {
            AddressingMode::NoneAddressing => {
                let ptr: u16 = self.mem_read_u16(self.program_counter);
                let target: u16 = if ptr & 0x00FF == 0x00FF {
                    make_word(self.mem_read(ptr), self.mem_read(ptr & 0xFF00))
                } else {
                    self.mem_read_u16(ptr)
                };
                self.program_counter = target;
            },
            _ => {
                self.program_counter = self.get_operand_address(mode);
            },
        }
    }

    /// JSR: push the address of the last operand byte, then jump to the operand.
    fn jsr(&mut self)
        ensures
            final(self)@ == execute_spec(old(self)@, Mnemonic::JSR, AddressingMode::NoneAddressing),
    {
        let target: u16 = self.mem_read_u16(self.program_counter);
        self.stack_push_u16(self.program_counter.wrapping_add(1));
        self.program_counter = target;
    }

    /// RTS: pop a return address and continue after it.
    fn rts(&mut self)
        ensures
            final(self)@ == execute_spec(old(self)@, Mnemonic::RTS, AddressingMode::NoneAddressing),
    {
        let addr: u16 = self.stack_pop_u16();
        self.program_counter = addr.wrapping_add(1);
    }

    /// RTI: pop the status word, then the program counter.
    fn rti(&mut self)
        ensures
            final(self)@ == execute_spec(old(self)@, Mnemonic::RTI, AddressingMode::NoneAddressing),
    {
        let v: u8 = self.stack_pop();
        self.status = set_flag(set_flag(v, BREAK, false), UNUSED, true);
        self.program_counter = self.stack_pop_u16();
    }

    /// Takes a branch when `taken` holds: the program counter moves past the displacement
    /// byte, then by the displacement read as a signed byte.
    fn branch(&mut self, taken: bool)
        ensures
            final(self)@ == old(self)@.branch(taken),
    {
        if taken {
            let pc: u16 = self.program_counter;
            let d: u8 = self.mem_read(pc);
            let offset: u16 = if d >= 0x80 {
                d as u16 + 0xFF00
            } else {
                d as u16
            };
            self.program_counter = pc.wrapping_add(1).wrapping_add(offset);
        }
    }

    /// An instruction that works on memory at an effective address.
    fn execute_memory_op(&mut self, op: &OpCode)
        requires
            needs_address(op.name),
            op.mode != AddressingMode::NoneAddressing,
        ensures
            final(self)@ == execute_spec(old(self)@, op.name, op.mode),
    {
        let mode: &AddressingMode = &op.mode;
        match op.name {
            Mnemonic::LDA => self.lda(mode),
            Mnemonic::LDX => self.ldx(mode),
            Mnemonic::LDY => self.ldy(mode),
            Mnemonic::STA => self.sta(mode),
            Mnemonic::STX => self.stx(mode),
            Mnemonic::STY => self.sty(mode),
            Mnemonic::AND => self.and(mode),
            Mnemonic::EOR => self.eor(mode),
            Mnemonic::ORA => self.ora(mode),
            Mnemonic::INC => self.inc(mode),
            Mnemonic::DEC => self.dec(mode),
            Mnemonic::ADC => {
                let m: u8 = self.read_operand(mode);
                self.add_to_register_a(m);
            },
            Mnemonic::SBC => {
                let m: u8 = self.read_operand(mode);
                self.add_to_register_a((!m).wrapping_add(1));
            },
            Mnemonic::CMP => self.compare(mode, self.register_a),
            Mnemonic::CPX => self.compare(mode, self.register_x),
            Mnemonic::CPY => self.compare(mode, self.register_y),
            Mnemonic::BIT => self.bit(mode),
            _ => {
                proof {
                    assert(false);
                }
            },
        }
    }

    /// A jump, call, return or conditional branch.
    fn execute_control_op(&mut self, op: &OpCode)
        requires
            is_control_transfer(op.name),
        ensures
            final(self)@ == execute_spec(old(self)@, op.name, op.mode),
    {
        let mode: &AddressingMode = &op.mode;
        match op.name {
            Mnemonic::JMP => self.jmp(mode),
            Mnemonic::JSR => self.jsr(),
            Mnemonic::RTS => self.rts(),
            Mnemonic::RTI => self.rti(),
            Mnemonic::BCC => self.branch(self.status & CARRY == 0),
            Mnemonic::BCS => self.branch(self.status & CARRY != 0),
            Mnemonic::BEQ => self.branch(self.status & ZERO != 0),
            Mnemonic::BNE => self.branch(self.status & ZERO == 0),
            Mnemonic::BMI => self.branch(self.status & NEGATIVE != 0),
            Mnemonic::BPL => self.branch(self.status & NEGATIVE == 0),
            Mnemonic::BVC => self.branch(self.status & OVERFLOW == 0),
            Mnemonic::BVS => self.branch(self.status & OVERFLOW != 0),
            _ => {
                proof {
                    assert(false);
                }
            },
        }
    }

    /// An instruction on registers, the stack or the status word, or a shift.
    fn execute_register_op(&mut self, op: &OpCode)
        requires
            !needs_address(op.name),
            !is_control_transfer(op.name),
        ensures
            final(self)@ == execute_spec(old(self)@, op.name, op.mode),
    {
        let mode: &AddressingMode = &op.mode;
        match op.name {
            Mnemonic::TAX => self.tax(),
            Mnemonic::TAY => self.tay(),
            Mnemonic::TSX => self.tsx(),
            Mnemonic::TXA => self.txa(),
            Mnemonic::TXS => self.txs(),
            Mnemonic::TYA => self.tya(),
            Mnemonic::PHA => self.pha(),
            Mnemonic::PHP => self.php(),
            Mnemonic::PLA => self.pla(),
            Mnemonic::PLP => self.plp(),
            Mnemonic::ASL => self.asl(mode),
            Mnemonic::LSR => self.lsr(mode),
            Mnemonic::ROL => self.rol(mode),
            Mnemonic::ROR => self.ror(mode),
            Mnemonic::INX => self.inx(),
            Mnemonic::INY => self.iny(),
            Mnemonic::DEX => self.dex(),
            Mnemonic::DEY => self.dey(),
            Mnemonic::CLC => self.set_status_flag(CARRY, false),
            Mnemonic::CLD => self.set_status_flag(DECIMAL, false),
            Mnemonic::CLI => self.set_status_flag(INTERRUPT_DISABLE, false),
            Mnemonic::CLV => self.set_status_flag(OVERFLOW, false),
            Mnemonic::SEC => self.set_status_flag(CARRY, true),
            Mnemonic::SED => self.set_status_flag(DECIMAL, true),
            Mnemonic::SEI => self.set_status_flag(INTERRUPT_DISABLE, true),
            Mnemonic::BRK | Mnemonic::NOP => {},
            _ => {
                proof {
                    assert(false);
                }
            },
        }
    }

    /// Carries out the instruction of `op`, with the program counter at the byte after the
    /// opcode.
    pub(crate) fn execute(&mut self, op: &OpCode)
        requires
            needs_address(op.name) ==> op.mode != AddressingMode::NoneAddressing,
        ensures
            final(self)@ == execute_spec(old(self)@, op.name, op.mode),
    {
        if requires_address(op.name) {
            self.execute_memory_op(op);
        } else if transfers_control(op.name) {
            self.execute_control_op(op);
        } else {
            self.execute_register_op(op);
        }
    }
}

} // verus!
