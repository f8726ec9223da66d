//! The fetch-decode-execute loop.
use vstd::prelude::*;

use crate::cpu::{
    high_byte, lemma_push_pop_u16, low_byte, stack_address, AddressingMode, CpuState, CPU,
    PROGRAM_BASE,
};
use crate::handlers::{execute_spec, needs_address, requires_address};
use crate::opcodes::{
    is_standard_table, opcode_spec, table_lookup, Instructions, Mnemonic, OpCode,
};

verus! {

/// What a step left the processor doing.
#[derive(Clone, Copy, Debug, PartialEq, Eq, Structural)]
pub enum StepOutcome {
    /// Ready to fetch the next instruction.
    Running,
    /// BRK was executed.
    Halted,
}

/// Why the interpreter stopped without reaching BRK.
#[derive(Clone, Copy, Debug, PartialEq, Eq, Structural)]
pub enum CpuError {
    /// The byte at `pc` is not in the opcode table.
    UnknownOpcode { opcode: u8, pc: u16 },
    /// The table gives the instruction at `pc` the no-address mode, but it needs an
    /// effective address.
    NoAddress { opcode: u8, pc: u16 },
    /// `run` executed `u64::MAX` instructions without reaching BRK.
    StepLimit,
}

/// The program counter after an instruction of `size` bytes that did not set it: `pc`
/// points just past the opcode, so `size - 1` operand bytes remain to skip.
pub open spec fn skip_operands(pc: u16, size: u8) -> u16 {
    ((pc + size - 1) % 0x10000) as u16
}

/// One cycle of the interpreter on `s` with opcode table `table`: the new state and the
/// outcome. On an error the state is left as it was.
pub open spec fn step_spec(s: CpuState, table: Map<u8, OpCode>) -> (
    CpuState,
    Result<StepOutcome, CpuError>,
) {
    let pc = s.program_counter;
    let opcode = s.read(pc);
    match table_lookup(table, opcode) {
        None => (s, Err(CpuError::UnknownOpcode { opcode, pc })),
        Some(op) => {
            if needs_address(op.name) && op.mode == AddressingMode::NoneAddressing {
                (s, Err(CpuError::NoAddress { opcode, pc }))
            } else {
                let fetched = s.with_pc(pc.wrapping_add(1));
                if op.name == Mnemonic::BRK {
                    (fetched, Ok(StepOutcome::Halted))
                } else {
                    let done = execute_spec(fetched, op.name, op.mode);
                    if done.program_counter == fetched.program_counter {
                        (
                            done.with_pc(skip_operands(fetched.program_counter, op.num_bytes)),
                            Ok(StepOutcome::Running),
                        )
                    } else {
                        (done, Ok(StepOutcome::Running))
                    }
                }
            }
        },
    }
}

/// Running from `s` for at most `fuel` instructions: the state reached, and `Ok` when BRK
/// ended the run.
pub open spec fn run_spec(s: CpuState, table: Map<u8, OpCode>, fuel: nat) -> (
    CpuState,
    Result<(), CpuError>,
)
    decreases fuel,
{
    if fuel == 0 {
        (s, Err(CpuError::StepLimit))
    } else {
        let (t, r) = step_spec(s, table);
        match r {
            Ok(StepOutcome::Running) => run_spec(t, table, (fuel - 1) as nat),
            Ok(StepOutcome::Halted) => (t, Ok(())),
            Err(e) => (t, Err(e)),
        }
    }
}

/// The table of the documented opcodes, as a map.
pub open spec fn standard_table() -> Map<u8, OpCode> {
    Map::new(|op: u8| opcode_spec(op) is Some, |op: u8| opcode_spec(op).unwrap())
}

/// Any map that is the standard table steps as `standard_table` does.
pub proof fn lemma_standard_step(s: CpuState, table: Map<u8, OpCode>)
    requires
        is_standard_table(table),
    ensures
        step_spec(s, table) == step_spec(s, standard_table()),
{
    let opcode = s.read(s.program_counter);
    assert(table_lookup(table, opcode) == opcode_spec(opcode));
    assert(table_lookup(standard_table(), opcode) == opcode_spec(opcode));
}

/// JSR followed by RTS returns to the instruction after the JSR. The JSR at `pc` jumps to
/// its operand; when the byte there is RTS, the next step sets the program counter to
/// `pc + 3` and the stack pointer back to what it was. The operand must not be `pc + 1`,
/// where the jump would read as "program counter unchanged", nor one of the two stack
/// slots that receive the return address.
pub proof fn lemma_jsr_then_rts(s: CpuState)
    requires
        s.memory.len() == 0x10000,
        s.read(s.program_counter) == 0x20,
        ({
            let target = s.read_u16(s.program_counter.wrapping_add(1));
            &&& s.read(target) == 0x60
            &&& target != s.program_counter.wrapping_add(1)
            &&& target != stack_address(s.stack_ptr)
            &&& target != stack_address(s.stack_ptr.wrapping_sub(1))
        }),
    ensures
        ({
            let (t, r1) = step_spec(s, standard_table());
            let (u, r2) = step_spec(t, standard_table());
            &&& r1 == Ok::<StepOutcome, CpuError>(StepOutcome::Running)
            &&& t.program_counter == s.read_u16(s.program_counter.wrapping_add(1))
            &&& r2 == Ok::<StepOutcome, CpuError>(StepOutcome::Running)
            &&& u.program_counter == s.program_counter.wrapping_add(3)
            &&& u.stack_ptr == s.stack_ptr
        }),
{
    let pc = s.program_counter;
    let target = s.read_u16(pc.wrapping_add(1));
    let table = standard_table();
    assert(table_lookup(table, 0x20) == opcode_spec(0x20));
    assert(table_lookup(table, 0x60) == opcode_spec(0x60));
    let fetched = s.with_pc(pc.wrapping_add(1));
    let ret = pc.wrapping_add(2);
    assert(fetched.program_counter.wrapping_add(1) == ret);
    let pushed = fetched.push_u16(ret);
    let t = pushed.with_pc(target);
    assert(step_spec(s, table) == (t, Ok::<StepOutcome, CpuError>(StepOutcome::Running)));
    let sp = s.stack_ptr;
    assert(pushed.memory == s.memory.update(stack_address(sp) as int, high_byte(ret)).update(
        stack_address(sp.wrapping_sub(1)) as int,
        low_byte(ret),
    ));
    assert(t.read(target) == 0x60);
    let fetched2 = t.with_pc(target.wrapping_add(1));
    lemma_push_pop_u16(fetched, ret);
    assert(fetched2.pop_u16().1 == pushed.pop_u16().1);
    assert(fetched2.pop_u16().0.stack_ptr == pushed.pop_u16().0.stack_ptr);
}

impl CPU {
    /// Fetches, decodes and executes one instruction. BRK stops with the program counter
    /// past its opcode; an instruction that does not set the program counter continues
    /// after its operand bytes.
    pub fn step(&mut self, instructions: &Instructions) -> (r: Result<StepOutcome, CpuError>)
        ensures
            (final(self)@, r) == step_spec(old(self)@, instructions.map@),
    {
        let pc: u16 = self.program_counter;
        let opcode: u8 = self.mem_read(pc);
        let op: OpCode = match instructions.lookup(opcode) {
            Some(op) => op,
            None => {
                return Err(CpuError::UnknownOpcode { opcode, pc });
            },
        };
        if requires_address(op.name) && op.mode == AddressingMode::NoneAddressing {
            return Err(CpuError::NoAddress { opcode, pc });
        }
        self.program_counter = pc.wrapping_add(1);
        if op.name == Mnemonic::BRK {
            return Ok(StepOutcome::Halted);
        }
        let fetched_pc: u16 = self.program_counter;
        self.execute(&op);
        if self.program_counter == fetched_pc {
            self.program_counter = fetched_pc.wrapping_add(op.num_bytes as u16).wrapping_sub(1);
        }
        Ok(StepOutcome::Running)
    }

    /// Runs until BRK, with the documented opcode table. A program that never executes
    /// BRK stops with `StepLimit` after `u64::MAX` instructions.
    pub fn run(&mut self) -> (r: Result<(), CpuError>)
        ensures
            (final(self)@, r) == run_spec(old(self)@, standard_table(), u64::MAX as nat),
    {
        let instructions: Instructions = Instructions::new();
        let mut fuel: u64 = u64::MAX;
        loop
            invariant
                is_standard_table(instructions.map@),
                run_spec(self@, standard_table(), fuel as nat) == run_spec(
                    old(self)@,
                    standard_table(),
                    u64::MAX as nat,
                ),
            decreases fuel,
        {
            if fuel == 0 {
                return Err(CpuError::StepLimit);
            }
            let ghost before = self@;
            let r = self.step(&instructions);
            proof {
                lemma_standard_step(before, instructions.map@);
            }
            match r {
                Ok(StepOutcome::Running) => {
                    fuel = fuel - 1;
                },
                Ok(StepOutcome::Halted) => {
                    return Ok(());
                },
                Err(e) => {
                    return Err(e);
                },
            }
        }
    }

    /// Loads `program` at 0x8000, resets, and runs until BRK.
    pub fn load_and_run(&mut self, program: Vec<u8>) -> (r: Result<(), CpuError>)
        requires
            program@.len() <= 0x8000,
        ensures
            (final(self)@, r) == run_spec(
                old(self)@.with_program(program@, PROGRAM_BASE).after_reset(),
                standard_table(),
                u64::MAX as nat,
            ),
    {
        self.load(program);
        self.reset();
        self.run()
    }
}

} // verus!
