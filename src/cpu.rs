//! The processor: registers, memory and its word and stack accessors, and the
//! addressing-mode resolver.
use vstd::prelude::*;

use crate::status::with_zero_negative;

verus! {

/// How an instruction finds its operand.
#[allow(non_camel_case_types)]
#[derive(Clone, Copy, Debug, PartialEq, Eq, Structural)]
pub enum AddressingMode {
    /// The operand is the byte after the opcode.
    Immediate,
    /// The operand byte is an address in page zero.
    ZeroPage,
    /// The operand byte plus X, wrapping within page zero.
    ZeroPage_X,
    /// The operand byte plus Y, wrapping within page zero.
    ZeroPage_Y,
    /// The two operand bytes are a little-endian address.
    Absolute,
    /// The absolute address plus X, wrapping at 0x10000.
    Absolute_X,
    /// The absolute address plus Y, wrapping at 0x10000.
    Absolute_Y,
    /// The operand byte plus X points, in page zero, at the address.
    Indirect_X,
    /// The operand byte points, in page zero, at a base address, to which Y is added.
    Indirect_Y,
    /// The operand is the accumulator, or is implied by the instruction.
    NoneAddressing,
}

/// Page one holds the stack; the stack pointer is an offset into it.
pub const STACK_BASE: u16 = 0x0100;

/// The little-endian word at this address is where execution starts after a reset.
pub const RESET_VECTOR: u16 = 0xFFFC;

/// Where `load` places a program.
pub const PROGRAM_BASE: u16 = 0x8000;

/// The registers and the 64 KiB address space of one processor.
pub struct CPU {
    /// The accumulator.
    pub register_a: u8,
    pub register_x: u8,
    pub register_y: u8,
    /// Offset of the next free stack slot in page one.
    pub stack_ptr: u8,
    /// Bits 7 to 0: Negative, Overflow, unused, Break, Decimal, Interrupt-Disable, Zero, Carry.
    pub status: u8,
    /// Address of the next byte of the instruction stream.
    pub program_counter: u16,
    /// One byte for every 16-bit address.
    pub memory: [u8; 0x10000],
}

/// The mathematical model of a `CPU`: its registers, and its memory as a sequence of bytes.
pub struct CpuState {
    pub register_a: u8,
    pub register_x: u8,
    pub register_y: u8,
    pub stack_ptr: u8,
    pub status: u8,
    pub program_counter: u16,
    pub memory: Seq<u8>,
}

impl View for CPU {
    type V = CpuState;

    open spec fn view(&self) -> CpuState {
        CpuState {
            register_a: self.register_a,
            register_x: self.register_x,
            register_y: self.register_y,
            stack_ptr: self.stack_ptr,
            status: self.status,
            program_counter: self.program_counter,
            memory: self.memory@,
        }
    }
}

/// The 16-bit value whose low byte is `lo` and whose high byte is `hi`.
pub open spec fn word(lo: u8, hi: u8) -> u16 {
    (hi * 256 + lo) as u16
}

/// The low byte of `w`.
pub open spec fn low_byte(w: u16) -> u8 {
    (w % 256) as u8
}

/// The high byte of `w`.
pub open spec fn high_byte(w: u16) -> u8 {
    (w / 256) as u8
}

/// The address of stack slot `sp`.
pub open spec fn stack_address(sp: u8) -> u16 {
    (STACK_BASE + sp) as u16
}

impl CpuState {
    /// The byte at `addr`.
    pub open spec fn read(self, addr: u16) -> u8 {
        self.memory[addr as int]
    }

    /// The little-endian word at `addr`; the high byte comes from `addr + 1`, wrapping at 0x10000.
    pub open spec fn read_u16(self, addr: u16) -> u16 {
        word(self.read(addr), self.read(addr.wrapping_add(1)))
    }

    /// This state with `data` at `addr`.
    pub open spec fn write(self, addr: u16, data: u8) -> CpuState {
        CpuState { memory: self.memory.update(addr as int, data), ..self }
    }

    /// This state with the little-endian word `data` at `addr`.
    pub open spec fn write_u16(self, addr: u16, data: u16) -> CpuState {
        self.write(addr, low_byte(data)).write(addr.wrapping_add(1), high_byte(data))
    }

    /// This state after pushing `data`: the byte goes to the current slot, then the stack
    /// pointer moves down, wrapping within page one.
    pub open spec fn push(self, data: u8) -> CpuState {
        let written = self.write(stack_address(self.stack_ptr), data);
        CpuState { stack_ptr: self.stack_ptr.wrapping_sub(1), ..written }
    }

    /// This state after popping, and the byte popped: the stack pointer moves up, wrapping
    /// within page one, then the byte is read from the slot it points at.
    pub open spec fn pop(self) -> (CpuState, u8) {
        let sp = self.stack_ptr.wrapping_add(1);
        (CpuState { stack_ptr: sp, ..self }, self.read(stack_address(sp)))
    }

    /// This state after pushing the high byte of `data`, then its low byte.
    pub open spec fn push_u16(self, data: u16) -> CpuState {
        self.push(high_byte(data)).push(low_byte(data))
    }

    /// This state after popping a low byte, then a high byte, and the word they make.
    pub open spec fn pop_u16(self) -> (CpuState, u16) {
        let (t, lo) = self.pop();
        let (u, hi) = t.pop();
        (u, word(lo, hi))
    }

    /// This state with `status` as its status word.
    pub open spec fn with_status(self, status: u8) -> CpuState {
        CpuState { status, ..self }
    }

    /// This state with `pc` as its program counter.
    pub open spec fn with_pc(self, pc: u16) -> CpuState {
        CpuState { program_counter: pc, ..self }
    }

    /// This state with `v` in the accumulator, and Zero and Negative describing `v`.
    pub open spec fn with_a(self, v: u8) -> CpuState {
        CpuState { register_a: v, status: with_zero_negative(self.status, v), ..self }
    }

    /// This state with `v` in X, and Zero and Negative describing `v`.
    pub open spec fn with_x(self, v: u8) -> CpuState {
        CpuState { register_x: v, status: with_zero_negative(self.status, v), ..self }
    }

    /// This state with `v` in Y, and Zero and Negative describing `v`.
    pub open spec fn with_y(self, v: u8) -> CpuState {
        CpuState { register_y: v, status: with_zero_negative(self.status, v), ..self }
    }

    /// The effective address that `mode` gives, with the program counter at the operand.
    pub open spec fn operand_address(self, mode: AddressingMode) -> u16
        recommends
            mode != AddressingMode::NoneAddressing,
    {
        let pc = self.program_counter;
        match mode {
            AddressingMode::Immediate => pc,
            AddressingMode::ZeroPage => self.read(pc) as u16,
            AddressingMode::ZeroPage_X => self.read(pc).wrapping_add(self.register_x) as u16,
            AddressingMode::ZeroPage_Y => self.read(pc).wrapping_add(self.register_y) as u16,
            AddressingMode::Absolute => self.read_u16(pc),
            AddressingMode::Absolute_X => self.read_u16(pc).wrapping_add(self.register_x as u16),
            AddressingMode::Absolute_Y => self.read_u16(pc).wrapping_add(self.register_y as u16),
            AddressingMode::Indirect_X => {
                let ptr = self.read(pc).wrapping_add(self.register_x);
                word(self.read(ptr as u16), self.read(ptr.wrapping_add(1) as u16))
            },
            AddressingMode::Indirect_Y => {
                let ptr = self.read(pc);
                let base = word(self.read(ptr as u16), self.read(ptr.wrapping_add(1) as u16));
                base.wrapping_add(self.register_y as u16)
            },
            AddressingMode::NoneAddressing => 0,
        }
    }

    /// The byte at the effective address that `mode` gives.
    pub open spec fn operand(self, mode: AddressingMode) -> u8 {
        self.read(self.operand_address(mode))
    }

    /// This state with `program` copied to memory from `base` on, and `base` then written
    /// to the reset vector.
    pub open spec fn with_program(self, program: Seq<u8>, base: u16) -> CpuState {
        let copied = Seq::new(
            0x10000,
            |i: int|
                if base <= i < base + program.len() {
                    program[i - base]
                } else {
                    self.memory[i]
                },
        );
        CpuState { memory: copied, ..self }.write_u16(RESET_VECTOR, base)
    }

    /// This state after a reset: the accumulator, X and the status word cleared, and the
    /// program counter read from the reset vector. Y, the stack pointer and memory are kept.
    pub open spec fn after_reset(self) -> CpuState {
        CpuState {
            register_a: 0,
            register_x: 0,
            status: 0,
            program_counter: self.read_u16(RESET_VECTOR),
            ..self
        }
    }
}

/// A push followed at once by a pop gives back the pushed byte and returns the stack
/// pointer to where it was, for every stack pointer, 0x00 and 0xFF included. The byte stays
/// in memory.
pub proof fn lemma_push_pop(s: CpuState, data: u8)
    requires
        s.memory.len() == 0x10000,
    ensures
        s.push(data).pop() == (s.write(stack_address(s.stack_ptr), data), data),
{
    let t = s.push(data);
    assert(t.stack_ptr.wrapping_add(1) == s.stack_ptr);
    assert(t.pop().0 =~= s.write(stack_address(s.stack_ptr), data));
}

/// A word pushed and popped at once comes back whole, and the stack pointer returns to
/// where it was.
pub proof fn lemma_push_pop_u16(s: CpuState, data: u16)
    requires
        s.memory.len() == 0x10000,
    ensures
        s.push_u16(data).pop_u16().1 == data,
        s.push_u16(data).pop_u16().0.stack_ptr == s.stack_ptr,
{
    let hi = high_byte(data);
    let lo = low_byte(data);
    let t = s.push(hi);
    lemma_push_pop(t, lo);
    let u = t.write(stack_address(t.stack_ptr), lo);
    assert(u.stack_ptr == t.stack_ptr);
    assert(stack_address(t.stack_ptr) != stack_address(s.stack_ptr));
    lemma_push_pop(s, hi);
    assert(u.pop().1 == hi);
    assert(word(lo, hi) == data);
}

/// Builds the word whose low byte is `lo` and whose high byte is `hi`.
pub(crate) fn make_word(lo: u8, hi: u8) -> (r: u16)
    ensures
        r == word(lo, hi),
{
    (hi as u16) * 256 + lo as u16
}

impl CPU {
    /// A processor with every register and every byte of memory zero.
    pub fn new() -> (r: Self)
        ensures
            r@ == (CpuState {
                register_a: 0,
                register_x: 0,
                register_y: 0,
                stack_ptr: 0,
                status: 0,
                program_counter: 0,
                memory: Seq::new(0x10000, |i: int| 0u8),
            }),
    {
        let r = CPU {
            register_a: 0,
            register_x: 0,
            register_y: 0,
            stack_ptr: 0,
            status: 0,
            program_counter: 0,
            memory: [0u8; 0x10000],
        };
        assert(r.memory@ =~= Seq::new(0x10000, |i: int| 0u8));
        r
    }

    /// The byte at `addr`.
    pub fn mem_read(&self, addr: u16) -> (r: u8)
        ensures
            r == self@.read(addr),
    {
        self.memory[addr as usize]
    }

    /// Writes `data` at `addr`.
    pub fn mem_write(&mut self, addr: u16, data: u8)
        ensures
            final(self)@ == old(self)@.write(addr, data),
    {
        self.memory[addr as usize] = data;
    }

    /// The little-endian word at `addr`: low byte at `addr`, high byte at `addr + 1`,
    /// wrapping at 0x10000.
    pub fn mem_read_u16(&self, addr: u16) -> (r: u16)
        ensures
            r == self@.read_u16(addr),
    {
        let lo: u8 = self.mem_read(addr);
        let hi: u8 = self.mem_read(addr.wrapping_add(1));
        make_word(lo, hi)
    }

    /// Writes `data` little-endian: low byte at `addr`, high byte at `addr + 1`, wrapping
    /// at 0x10000.
    pub fn mem_write_u16(&mut self, addr: u16, data: u16)
        ensures
            final(self)@ == old(self)@.write_u16(addr, data),
    {
        let hi: u8 = (data / 256) as u8;
        let lo: u8 = (data % 256) as u8;
        self.mem_write(addr, lo);
        self.mem_write(addr.wrapping_add(1), hi);
    }

    /// Pushes `data` onto the stack.
    pub fn stack_push(&mut self, data: u8)
        ensures
            final(self)@ == old(self)@.push(data),
    {
        self.mem_write(STACK_BASE + self.stack_ptr as u16, data);
        self.stack_ptr = self.stack_ptr.wrapping_sub(1);
    }

    /// Pops a byte from the stack.
    pub fn stack_pop(&mut self) -> (r: u8)
        ensures
            (final(self)@, r) == old(self)@.pop(),
    {
        self.stack_ptr = self.stack_ptr.wrapping_add(1);
        self.mem_read(STACK_BASE + self.stack_ptr as u16)
    }

    /// Pushes `data` onto the stack, high byte first.
    pub fn stack_push_u16(&mut self, data: u16)
        ensures
            final(self)@ == old(self)@.push_u16(data),
    {
        let hi: u8 = (data / 256) as u8;
        let lo: u8 = (data % 256) as u8;
        self.stack_push(hi);
        self.stack_push(lo);
    }

    /// Pops a word from the stack, low byte first.
    pub fn stack_pop_u16(&mut self) -> (r: u16)
        ensures
            (final(self)@, r) == old(self)@.pop_u16(),
    {
        let lo: u8 = self.stack_pop();
        let hi: u8 = self.stack_pop();
        make_word(lo, hi)
    }

    /// The effective address of the operand under `mode`, with the program counter at the
    /// operand. The no-address mode has none: callers must not ask for it.
    pub fn get_operand_address(&self, mode: &AddressingMode) -> (r: u16)
        requires
            *mode != AddressingMode::NoneAddressing,
        ensures
            r == self@.operand_address(*mode),
    {
        let pc: u16 = self.program_counter;
        match mode {
            AddressingMode::Immediate => pc,
            AddressingMode::ZeroPage => self.mem_read(pc) as u16,
            AddressingMode::ZeroPage_X => self.mem_read(pc).wrapping_add(self.register_x) as u16,
            AddressingMode::ZeroPage_Y => self.mem_read(pc).wrapping_add(self.register_y) as u16,
            AddressingMode::Absolute => self.mem_read_u16(pc),
            AddressingMode::Absolute_X => self.mem_read_u16(pc).wrapping_add(
                self.register_x as u16,
            ),
            AddressingMode::Absolute_Y => self.mem_read_u16(pc).wrapping_add(
                self.register_y as u16,
            ),
            AddressingMode::Indirect_X => {
                let ptr: u8 = self.mem_read(pc).wrapping_add(self.register_x);
                let lo: u8 = self.mem_read(ptr as u16);
                let hi: u8 = self.mem_read(ptr.wrapping_add(1) as u16);
                make_word(lo, hi)
            },
            AddressingMode::Indirect_Y => {
                let ptr: u8 = self.mem_read(pc);
                let lo: u8 = self.mem_read(ptr as u16);
                let hi: u8 = self.mem_read(ptr.wrapping_add(1) as u16);
                make_word(lo, hi).wrapping_add(self.register_y as u16)
            },
            AddressingMode::NoneAddressing => {
                proof {
                    assert(false);
                }
                0
            },
        }
    }

    /// Copies `program` to memory from `base` on, then writes `base` to the reset vector.
    pub fn load_at(&mut self, program: &[u8], base: u16)
        requires
            base + program@.len() <= 0x10000,
        ensures
            final(self)@ == old(self)@.with_program(program@, base),
    {
        let mut i: usize = 0;
        while i < program.len()
            invariant
                base + program@.len() <= 0x10000,
                i <= program@.len(),
                self@ == (CpuState { memory: self.memory@, ..old(self)@ }),
                forall|j: int|
                    0 <= j < 0x10000 ==> #[trigger] self.memory@[j] == if base <= j < base + i {
                        program@[j - base]
                    } else {
                        old(self).memory@[j]
                    },
            decreases program@.len() - i,
        {
            self.memory[base as usize + i] = program[i];
            i += 1;
        }
        let ghost copied = Seq::new(
            0x10000,
            |j: int|
                if base <= j < base + program@.len() {
                    program@[j - base]
                } else {
                    old(self).memory@[j]
                },
        );
        assert(self.memory@ =~= copied);
        self.mem_write_u16(RESET_VECTOR, base);
    }

    /// Copies `program` to memory from 0x8000 on, and points the reset vector there.
    pub fn load(&mut self, program: Vec<u8>)
        requires
            program@.len() <= 0x8000,
        ensures
            final(self)@ == old(self)@.with_program(program@, PROGRAM_BASE),
    {
        self.load_at(program.as_slice(), PROGRAM_BASE);
    }

    /// Clears the accumulator, X and the status word, and takes the program counter from
    /// the reset vector.
    pub fn reset(&mut self)
        ensures
            final(self)@ == old(self)@.after_reset(),
    {
        self.register_a = 0;
        self.register_x = 0;
        self.status = 0;
        self.program_counter = self.mem_read_u16(RESET_VECTOR);
    }
}

} // verus!
