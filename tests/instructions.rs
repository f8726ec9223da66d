use nes_cpu::alu::{add_with_carry, shift_left, shift_right, subtract_with_carry};
use nes_cpu::cpu::{AddressingMode, CPU};
use nes_cpu::engine::{CpuError, StepOutcome};
use nes_cpu::opcodes::{make_opcode_hashtable, opcode_entry, Instructions, Mnemonic, OpCode};
use nes_cpu::status::{
    set_flag, update_zero_negative, BREAK, CARRY, DECIMAL, INTERRUPT_DISABLE, NEGATIVE,
    OVERFLOW, UNUSED, ZERO,
};

/// A processor with `program` loaded at 0x8000 and the program counter there.
fn loaded(program: Vec<u8>) -> CPU {
    let mut cpu = CPU::new();
    cpu.load(program);
    cpu.reset();
    cpu
}

fn run_program(program: Vec<u8>) -> CPU {
    let mut cpu = CPU::new();
    cpu.load_and_run(program).unwrap();
    cpu
}

#[test]
fn load_flags_follow_the_loaded_byte() {
    for v in [0x00u8, 0x01, 0x7f, 0x80, 0xff] {
        for op in [0xa9u8, 0xa2, 0xa0] {
            let cpu = run_program(vec![op, v, 0x00]);
            let reg = match op {
                0xa9 => cpu.register_a,
                0xa2 => cpu.register_x,
                _ => cpu.register_y,
            };
            assert_eq!(reg, v);
            assert_eq!(cpu.status & ZERO != 0, v == 0);
            assert_eq!(cpu.status & NEGATIVE != 0, v & 0x80 != 0);
        }
    }
}

#[test]
fn zero_flag_is_cleared_by_a_nonzero_load() {
    let cpu = run_program(vec![0xa9, 0x00, 0xa9, 0x05, 0x00]);
    assert_eq!(cpu.register_a, 0x05);
    assert_eq!(cpu.status & ZERO, 0);
    assert_eq!(cpu.status & INTERRUPT_DISABLE, 0);
}

#[test]
fn push_then_pop_restores_byte_and_pointer() {
    for sp in [0x00u8, 0x01, 0x80, 0xfe, 0xff] {
        let mut cpu = CPU::new();
        cpu.stack_ptr = sp;
        cpu.stack_push(0x5a);
        assert_eq!(cpu.stack_ptr, sp.wrapping_sub(1));
        assert_eq!(cpu.stack_pop(), 0x5a);
        assert_eq!(cpu.stack_ptr, sp);
        assert_eq!(cpu.mem_read(0x0100 + sp as u16), 0x5a);
    }
}

#[test]
fn push_then_pop_word_wraps_within_page_one() {
    let mut cpu = CPU::new();
    cpu.stack_ptr = 0x00;
    cpu.stack_push_u16(0xbeef);
    assert_eq!(cpu.mem_read(0x0100), 0xbe);
    assert_eq!(cpu.mem_read(0x01ff), 0xef);
    assert_eq!(cpu.stack_ptr, 0xfe);
    assert_eq!(cpu.stack_pop_u16(), 0xbeef);
    assert_eq!(cpu.stack_ptr, 0x00);
}

#[test]
fn adc_overflow_example() {
    // LDA #$50; ADC #$50; BRK
    let cpu = run_program(vec![0xa9, 0x50, 0x69, 0x50, 0x00]);
    assert_eq!(cpu.register_a, 0xa0);
    assert_ne!(cpu.status & OVERFLOW, 0);
    assert_eq!(cpu.status & CARRY, 0);
    assert_ne!(cpu.status & NEGATIVE, 0);
}

#[test]
fn adc_sets_carry_and_zero() {
    // LDA #$ff; ADC #$01; BRK
    let cpu = run_program(vec![0xa9, 0xff, 0x69, 0x01, 0x00]);
    assert_eq!(cpu.register_a, 0x00);
    assert_ne!(cpu.status & CARRY, 0);
    assert_ne!(cpu.status & ZERO, 0);
    assert_eq!(cpu.status & OVERFLOW, 0);
}

#[test]
fn sbc_after_adc_gives_back_the_accumulator() {
    // LDA #$50; ADC #$50; CLC; SBC #$50; BRK
    let cpu = run_program(vec![0xa9, 0x50, 0x69, 0x50, 0x18, 0xe9, 0x50, 0x00]);
    assert_eq!(cpu.register_a, 0x50);
    assert_ne!(cpu.status & CARRY, 0);
}

#[test]
fn adc_then_sbc_leaves_accumulator_plus_carries() {
    // LDA #$f0; ADC #$20; SBC #$20; BRK: ADC carries out, and SBC adds that carry back in
    let cpu = run_program(vec![0xa9, 0xf0, 0x69, 0x20, 0xe9, 0x20, 0x00]);
    assert_eq!(cpu.register_a, 0xf1);
    // LDA #$50; ADC #$50; SBC #$50; BRK: no carry anywhere
    let cpu = run_program(vec![0xa9, 0x50, 0x69, 0x50, 0xe9, 0x50, 0x00]);
    assert_eq!(cpu.register_a, 0x50);
}

#[test]
fn add_and_subtract_round_trip_on_all_inputs() {
    for a in 0..=255u8 {
        for b in [0x00u8, 0x01, 0x50, 0x7f, 0x80, 0xff] {
            for c in [false, true] {
                let (sum, carry, _) = add_with_carry(a, b, c);
                let (back, _, _) = subtract_with_carry(sum, b, carry);
                let expected = ((a as u32 + c as u32 + carry as u32) % 256) as u8;
                assert_eq!(back, expected);
                let (plain, _, _) = subtract_with_carry(sum, b, false);
                assert_eq!(plain, ((a as u32 + c as u32) % 256) as u8);
                if !c {
                    assert_eq!(plain, a);
                }
            }
        }
    }
}

#[test]
fn sbc_adds_the_twos_complement() {
    assert_eq!(subtract_with_carry(0x05, 0x06, true), (0x00, true, false));
    assert_eq!(subtract_with_carry(0x05, 0x05, false), (0x00, true, false));
    assert_eq!(subtract_with_carry(0x05, 0x06, false), (0xff, false, false));
    assert_eq!(subtract_with_carry(0x80, 0x01, false), (0x7f, true, true));
    assert_eq!(subtract_with_carry(0x05, 0x00, false), (0x05, false, false));
    assert_eq!(subtract_with_carry(0xff, 0x00, true), (0x00, true, false));
}

#[test]
fn cmp_equal_sets_carry_and_zero() {
    // LDA #$10; CMP #$10; BRK
    let cpu = run_program(vec![0xa9, 0x10, 0xc9, 0x10, 0x00]);
    assert_ne!(cpu.status & CARRY, 0);
    assert_ne!(cpu.status & ZERO, 0);
    assert_eq!(cpu.status & NEGATIVE, 0);
    assert_eq!(cpu.register_a, 0x10);
}

#[test]
fn cpx_and_cpy_compare_unsigned() {
    // LDX #$10; CPX #$20; BRK
    let cpu = run_program(vec![0xa2, 0x10, 0xe0, 0x20, 0x00]);
    assert_eq!(cpu.status & CARRY, 0);
    assert_eq!(cpu.status & ZERO, 0);
    assert_ne!(cpu.status & NEGATIVE, 0);
    // LDY #$20; CPY #$10; BRK
    let cpu = run_program(vec![0xa0, 0x20, 0xc0, 0x10, 0x00]);
    assert_ne!(cpu.status & CARRY, 0);
    assert_eq!(cpu.status & ZERO, 0);
    assert_eq!(cpu.status & NEGATIVE, 0);
}

#[test]
fn indirect_jmp_wraps_within_the_page() {
    let mut cpu = loaded(vec![0x6c, 0xff, 0x30]);
    cpu.mem_write(0x30ff, 0x80);
    cpu.mem_write(0x3000, 0x40);
    cpu.mem_write(0x3100, 0x50);
    let table = Instructions::new();
    assert_eq!(cpu.step(&table), Ok(StepOutcome::Running));
    assert_eq!(cpu.program_counter, 0x4080);
}

#[test]
fn indirect_jmp_off_the_page_end() {
    let mut cpu = loaded(vec![0x6c, 0x20, 0x30]);
    cpu.mem_write(0x3020, 0x34);
    cpu.mem_write(0x3021, 0x12);
    let table = Instructions::new();
    cpu.step(&table).unwrap();
    assert_eq!(cpu.program_counter, 0x1234);
}

#[test]
fn absolute_jmp_sets_pc() {
    let mut cpu = loaded(vec![0x4c, 0x00, 0x90]);
    cpu.mem_write(0x9000, 0x00);
    cpu.run().unwrap();
    assert_eq!(cpu.program_counter, 0x9001);
}

#[test]
fn jsr_then_rts_returns_after_the_call() {
    // JSR $8005; BRK; NOP; RTS
    let mut cpu = loaded(vec![0x20, 0x05, 0x80, 0x00, 0xea, 0x60]);
    cpu.stack_ptr = 0xfd;
    let table = Instructions::new();
    cpu.step(&table).unwrap();
    assert_eq!(cpu.program_counter, 0x8005);
    assert_eq!(cpu.stack_ptr, 0xfb);
    assert_eq!(cpu.mem_read(0x01fd), 0x80);
    assert_eq!(cpu.mem_read(0x01fc), 0x02);
    cpu.step(&table).unwrap();
    assert_eq!(cpu.program_counter, 0x8003);
    assert_eq!(cpu.stack_ptr, 0xfd);
    assert_eq!(cpu.step(&table), Ok(StepOutcome::Halted));
    assert_eq!(cpu.program_counter, 0x8004);
}

#[test]
fn beq_taken_forward() {
    let mut cpu = loaded(vec![0xf0, 0x45]);
    cpu.status = ZERO;
    let table = Instructions::new();
    cpu.step(&table).unwrap();
    assert_eq!(cpu.program_counter, 0x8047);
}

#[test]
fn beq_taken_backward() {
    let mut cpu = loaded(vec![0xf0, 0xfb]);
    cpu.status = ZERO;
    let table = Instructions::new();
    cpu.step(&table).unwrap();
    assert_eq!(cpu.program_counter, 0x8002 - 5);
}

#[test]
fn beq_not_taken_skips_the_displacement() {
    let mut cpu = loaded(vec![0xf0, 0x45]);
    let table = Instructions::new();
    cpu.step(&table).unwrap();
    assert_eq!(cpu.program_counter, 0x8002);
}

#[test]
fn branches_test_their_flags() {
    // (opcode, status that takes it)
    let cases: [(u8, u8); 8] = [
        (0x90, 0),
        (0xb0, CARRY),
        (0xf0, ZERO),
        (0xd0, 0),
        (0x30, NEGATIVE),
        (0x10, 0),
        (0x50, 0),
        (0x70, OVERFLOW),
    ];
    let table = Instructions::new();
    for (op, taken) in cases {
        let all = CARRY | ZERO | NEGATIVE | OVERFLOW;
        let not_taken = if taken == 0 { all } else { 0 };
        let mut cpu = loaded(vec![op, 0x10]);
        cpu.status = taken;
        cpu.step(&table).unwrap();
        assert_eq!(cpu.program_counter, 0x8012);
        let mut cpu = loaded(vec![op, 0x10]);
        cpu.status = not_taken;
        cpu.step(&table).unwrap();
        assert_eq!(cpu.program_counter, 0x8002);
    }
}

#[test]
fn branch_loop_counts_down() {
    // LDX #$03; DEX; BNE -3; BRK
    let cpu = run_program(vec![0xa2, 0x03, 0xca, 0xd0, 0xfd, 0x00]);
    assert_eq!(cpu.register_x, 0);
    assert_ne!(cpu.status & ZERO, 0);
    assert_eq!(cpu.program_counter, 0x8006);
}

#[test]
fn shifts_on_the_accumulator() {
    // LDA #$81; ASL A; BRK
    let cpu = run_program(vec![0xa9, 0x81, 0x0a, 0x00]);
    assert_eq!(cpu.register_a, 0x02);
    assert_ne!(cpu.status & CARRY, 0);
    // LDA #$81; LSR A; BRK
    let cpu = run_program(vec![0xa9, 0x81, 0x4a, 0x00]);
    assert_eq!(cpu.register_a, 0x40);
    assert_ne!(cpu.status & CARRY, 0);
    assert_eq!(cpu.status & NEGATIVE, 0);
}

#[test]
fn rotations_carry_in_and_out() {
    // SEC; LDA #$40; ROL A; BRK
    let cpu = run_program(vec![0x38, 0xa9, 0x40, 0x2a, 0x00]);
    assert_eq!(cpu.register_a, 0x81);
    assert_eq!(cpu.status & CARRY, 0);
    assert_ne!(cpu.status & NEGATIVE, 0);
    // SEC; LDA #$02; ROR A; BRK
    let cpu = run_program(vec![0x38, 0xa9, 0x02, 0x6a, 0x00]);
    assert_eq!(cpu.register_a, 0x81);
    assert_eq!(cpu.status & CARRY, 0);
    assert_ne!(cpu.status & NEGATIVE, 0);
}

#[test]
fn rol_takes_zero_and_negative_from_the_shift() {
    // SEC; LDA #$80; ROL A; BRK: the shift gives 0, the carry then enters bit 0
    let cpu = run_program(vec![0x38, 0xa9, 0x80, 0x2a, 0x00]);
    assert_eq!(cpu.register_a, 0x01);
    assert_ne!(cpu.status & CARRY, 0);
    assert_ne!(cpu.status & ZERO, 0);
}

#[test]
fn shift_memory_in_zero_page() {
    // ASL $10; LSR $11; ROL $12,X; BRK
    let mut cpu = loaded(vec![0x06, 0x10, 0x46, 0x11, 0x36, 0x11, 0x00]);
    cpu.register_x = 1;
    cpu.mem_write(0x10, 0x41);
    cpu.mem_write(0x11, 0x02);
    cpu.mem_write(0x12, 0x40);
    cpu.run().unwrap();
    assert_eq!(cpu.mem_read(0x10), 0x82);
    assert_eq!(cpu.mem_read(0x11), 0x01);
    assert_eq!(cpu.mem_read(0x12), 0x80);
}

#[test]
fn shift_functions() {
    assert_eq!(shift_left(0x81), (0x02, true));
    assert_eq!(shift_right(0x81), (0x40, true));
    assert_eq!(shift_left(0x40), (0x80, false));
}

#[test]
fn inc_and_dec_wrap_a_memory_byte() {
    // INC $10; DEC $11; BRK
    let mut cpu = loaded(vec![0xe6, 0x10, 0xc6, 0x11, 0x00]);
    cpu.mem_write(0x10, 0xff);
    cpu.mem_write(0x11, 0x00);
    cpu.mem_write(0x12, 0x77);
    cpu.run().unwrap();
    assert_eq!(cpu.mem_read(0x10), 0x00);
    assert_eq!(cpu.mem_read(0x11), 0xff);
    assert_eq!(cpu.mem_read(0x12), 0x77);
    assert_ne!(cpu.status & NEGATIVE, 0);
    assert_eq!(cpu.status & ZERO, 0);
}

#[test]
fn register_increments_and_decrements_wrap() {
    // LDY #$ff; INY; DEX; DEY; BRK
    let cpu = run_program(vec![0xa0, 0xff, 0xc8, 0xca, 0x88, 0x00]);
    assert_eq!(cpu.register_x, 0xff);
    assert_eq!(cpu.register_y, 0xff);
    assert_ne!(cpu.status & NEGATIVE, 0);
}

#[test]
fn logical_operations() {
    // LDA #$f0; EOR #$ff; ORA #$01; BRK
    let cpu = run_program(vec![0xa9, 0xf0, 0x49, 0xff, 0x09, 0x01, 0x00]);
    assert_eq!(cpu.register_a, 0x0f);
    // LDA #$0f; AND #$f0; BRK
    let cpu = run_program(vec![0xa9, 0x0f, 0x29, 0xf0, 0x00]);
    assert_eq!(cpu.register_a, 0x00);
    assert_ne!(cpu.status & ZERO, 0);
}

#[test]
fn bit_copies_bits_seven_and_six() {
    // LDA #$01; BIT $10; BRK
    let mut cpu = loaded(vec![0xa9, 0x01, 0x24, 0x10, 0x00]);
    cpu.mem_write(0x10, 0xc0);
    cpu.run().unwrap();
    assert_ne!(cpu.status & NEGATIVE, 0);
    assert_ne!(cpu.status & OVERFLOW, 0);
    assert_ne!(cpu.status & ZERO, 0);
    assert_eq!(cpu.register_a, 0x01);
}

#[test]
fn php_and_plp_synthesise_break_and_unused() {
    // SEC; PHP; BRK
    let cpu = run_program(vec![0x38, 0x08, 0x00]);
    assert_eq!(cpu.mem_read(0x0100), CARRY | BREAK | UNUSED);
    assert_eq!(cpu.status, CARRY);
    // LDA #$d3; PHA; PLP; BRK
    let cpu = run_program(vec![0xa9, 0xd3, 0x48, 0x28, 0x00]);
    assert_eq!(cpu.status, (0xd3 & !BREAK) | UNUSED);
}

#[test]
fn pha_and_pla_round_trip() {
    // LDA #$80; PHA; LDA #$00; PLA; BRK
    let cpu = run_program(vec![0xa9, 0x80, 0x48, 0xa9, 0x00, 0x68, 0x00]);
    assert_eq!(cpu.register_a, 0x80);
    assert_ne!(cpu.status & NEGATIVE, 0);
    assert_eq!(cpu.stack_ptr, 0x00);
}

#[test]
fn rti_restores_status_then_pc() {
    let mut cpu = loaded(vec![0x40]);
    cpu.stack_ptr = 0xfc;
    cpu.mem_write(0x01fd, 0xff);
    cpu.mem_write(0x01fe, 0x34);
    cpu.mem_write(0x01ff, 0x12);
    let table = Instructions::new();
    cpu.step(&table).unwrap();
    assert_eq!(cpu.status, 0xff & !BREAK);
    assert_eq!(cpu.program_counter, 0x1234);
    assert_eq!(cpu.stack_ptr, 0xff);
}

#[test]
fn flag_instructions_touch_one_bit() {
    // SEC; SED; SEI; CLC; BRK
    let cpu = run_program(vec![0x38, 0xf8, 0x78, 0x18, 0x00]);
    assert_eq!(cpu.status, DECIMAL | INTERRUPT_DISABLE);
    // SED; SEI; CLD; CLI; BRK
    let cpu = run_program(vec![0xf8, 0x78, 0xd8, 0x58, 0x00]);
    assert_eq!(cpu.status, 0);
    // LDA #$50; ADC #$50; CLV; BRK
    let cpu = run_program(vec![0xa9, 0x50, 0x69, 0x50, 0xb8, 0x00]);
    assert_eq!(cpu.status & OVERFLOW, 0);
    assert_ne!(cpu.status & NEGATIVE, 0);
}

#[test]
fn txs_changes_no_flag() {
    let mut cpu = loaded(vec![0x9a, 0x00]);
    cpu.register_x = 0;
    cpu.run().unwrap();
    assert_eq!(cpu.stack_ptr, 0);
    assert_eq!(cpu.status, 0);
}

#[test]
fn tya_moves_y() {
    let mut cpu = loaded(vec![0x98, 0x00]);
    cpu.register_y = 0x90;
    cpu.run().unwrap();
    assert_eq!(cpu.register_a, 0x90);
    assert_ne!(cpu.status & NEGATIVE, 0);
}

#[test]
fn stores_in_every_addressing_mode() {
    let mut cpu = CPU::new();
    cpu.register_x = 0x02;
    cpu.register_y = 0x03;
    cpu.mem_write(0x0000, 0x05);
    cpu.program_counter = 0x0000;
    assert_eq!(cpu.get_operand_address(&AddressingMode::Immediate), 0x0000);
    assert_eq!(cpu.get_operand_address(&AddressingMode::ZeroPage), 0x0005);
    assert_eq!(cpu.get_operand_address(&AddressingMode::ZeroPage_X), 0x0007);
    assert_eq!(cpu.get_operand_address(&AddressingMode::ZeroPage_Y), 0x0008);
    cpu.mem_write(0x0001, 0x12);
    assert_eq!(cpu.get_operand_address(&AddressingMode::Absolute), 0x1205);
    assert_eq!(cpu.get_operand_address(&AddressingMode::Absolute_X), 0x1207);
    assert_eq!(cpu.get_operand_address(&AddressingMode::Absolute_Y), 0x1208);
    cpu.mem_write(0x0007, 0x34);
    cpu.mem_write(0x0008, 0x56);
    assert_eq!(cpu.get_operand_address(&AddressingMode::Indirect_X), 0x5634);
    cpu.mem_write(0x0005, 0xff);
    cpu.mem_write(0x0006, 0x20);
    assert_eq!(cpu.get_operand_address(&AddressingMode::Indirect_Y), 0x2102);
}

#[test]
fn zero_page_indexing_wraps_within_page_zero() {
    let mut cpu = CPU::new();
    cpu.program_counter = 0x0200;
    cpu.mem_write(0x0200, 0xff);
    cpu.register_x = 0x02;
    cpu.register_y = 0x01;
    assert_eq!(cpu.get_operand_address(&AddressingMode::ZeroPage_X), 0x0001);
    assert_eq!(cpu.get_operand_address(&AddressingMode::ZeroPage_Y), 0x0000);
    cpu.mem_write(0x0001, 0x00);
    cpu.mem_write(0x00ff, 0x10);
    cpu.mem_write(0x0000, 0x20);
    // Indirect,X pointer at 0xff + 2 = 0x01, its high byte at 0x02
    cpu.mem_write(0x0002, 0x30);
    assert_eq!(cpu.get_operand_address(&AddressingMode::Indirect_X), 0x3000);
    // Indirect,Y pointer at 0xff, its high byte wraps to 0x00
    assert_eq!(cpu.get_operand_address(&AddressingMode::Indirect_Y), 0x2011);
}

#[test]
fn absolute_indexing_wraps_at_the_top() {
    let mut cpu = CPU::new();
    cpu.mem_write(0x0000, 0xff);
    cpu.mem_write(0x0001, 0xff);
    cpu.register_x = 0x02;
    assert_eq!(cpu.get_operand_address(&AddressingMode::Absolute_X), 0x0001);
}

#[test]
fn word_access_wraps_at_the_top_of_memory() {
    let mut cpu = CPU::new();
    cpu.mem_write_u16(0xffff, 0xabcd);
    assert_eq!(cpu.mem_read(0xffff), 0xcd);
    assert_eq!(cpu.mem_read(0x0000), 0xab);
    assert_eq!(cpu.mem_read_u16(0xffff), 0xabcd);
    cpu.mem_write_u16(0x1234, 0x5678);
    assert_eq!(cpu.mem_read(0x1234), 0x78);
    assert_eq!(cpu.mem_read(0x1235), 0x56);
}

#[test]
fn load_at_places_program_and_reset_vector() {
    let mut cpu = CPU::new();
    cpu.load_at(&[0xa9, 0x07, 0x00], 0x0600);
    assert_eq!(cpu.mem_read(0x0600), 0xa9);
    assert_eq!(cpu.mem_read(0x0602), 0x00);
    assert_eq!(cpu.mem_read_u16(0xfffc), 0x0600);
    cpu.reset();
    assert_eq!(cpu.program_counter, 0x0600);
    cpu.run().unwrap();
    assert_eq!(cpu.register_a, 0x07);
}

#[test]
fn reset_clears_a_x_and_status_only() {
    let mut cpu = CPU::new();
    cpu.register_a = 1;
    cpu.register_x = 2;
    cpu.register_y = 3;
    cpu.stack_ptr = 4;
    cpu.status = 0xff;
    cpu.mem_write_u16(0xfffc, 0x1234);
    cpu.reset();
    assert_eq!(cpu.register_a, 0);
    assert_eq!(cpu.register_x, 0);
    assert_eq!(cpu.status, 0);
    assert_eq!(cpu.register_y, 3);
    assert_eq!(cpu.stack_ptr, 4);
    assert_eq!(cpu.program_counter, 0x1234);
}

#[test]
fn unknown_opcode_is_reported_with_its_address() {
    let mut cpu = CPU::new();
    let r = cpu.load_and_run(vec![0xe8, 0x02, 0x00]);
    assert_eq!(r, Err(CpuError::UnknownOpcode { opcode: 0x02, pc: 0x8001 }));
    assert_eq!(cpu.program_counter, 0x8001);
    assert_eq!(cpu.register_x, 1);
}

#[test]
fn missing_address_is_reported() {
    let mut table = Instructions::new();
    table.map.insert(0xa9, OpCode::new(0xa9, Mnemonic::LDA, 2, 2, AddressingMode::NoneAddressing));
    let mut cpu = loaded(vec![0xa9, 0x01, 0x00]);
    assert_eq!(cpu.step(&table), Err(CpuError::NoAddress { opcode: 0xa9, pc: 0x8000 }));
    assert_eq!(cpu.program_counter, 0x8000);
    assert_eq!(cpu.register_a, 0);
}

#[test]
fn opcode_table_lists_the_documented_opcodes() {
    let map = make_opcode_hashtable();
    assert_eq!(map.len(), 151);
    let table = Instructions::new();
    let jmp = table.lookup(0x6c).unwrap();
    assert_eq!(jmp.name, Mnemonic::JMP);
    assert_eq!(jmp.num_bytes, 3);
    assert_eq!(jmp.num_cycles, 5);
    assert_eq!(jmp.mode, AddressingMode::NoneAddressing);
    assert_eq!(table.lookup(0x02), None);
    assert_eq!(opcode_entry(0x16).unwrap().mode, AddressingMode::ZeroPage_X);
    assert_eq!(opcode_entry(0xb6).unwrap().mode, AddressingMode::ZeroPage_Y);
    for op in 0..=255u8 {
        match map.get(&op) {
            Some(row) => assert_eq!(row.instruction, op),
            None => assert_eq!(opcode_entry(op), None),
        }
    }
}

#[test]
fn status_helpers() {
    assert_eq!(set_flag(0b1010_0000, CARRY, true), 0b1010_0001);
    assert_eq!(set_flag(0b1010_0001, CARRY, false), 0b1010_0000);
    assert_eq!(update_zero_negative(0b0000_0101, 0), 0b0000_0111);
    assert_eq!(update_zero_negative(0b0000_0111, 0x80), 0b1000_0101);
}

#[test]
fn end_to_end_program() {
    let cpu = run_program(vec![0xa9, 0xc0, 0xaa, 0xe8, 0x00]);
    assert_eq!(cpu.register_x, 0xc1);
    assert_eq!(cpu.register_a, 0xc0);
    assert_ne!(cpu.status & NEGATIVE, 0);
}

#[test]
fn pla_restores_the_byte_pushed_before_another_load() {
    for sp in [0x00u8, 0xff, 0xfd] {
        // PHA; LDA #$00; PLA; BRK
        let mut cpu = loaded(vec![0x48, 0xa9, 0x00, 0x68, 0x00]);
        cpu.register_a = 0x9c;
        cpu.stack_ptr = sp;
        cpu.run().unwrap();
        assert_eq!(cpu.register_a, 0x9c);
        assert_eq!(cpu.stack_ptr, sp);
        assert_eq!(cpu.mem_read(0x0100 + sp as u16), 0x9c);
    }
}

#[test]
fn subroutine_runs_once_and_returns_after_the_call() {
    // JSR $9000; BRK, with INX; RTS at $9000
    let mut cpu = loaded(vec![0x20, 0x00, 0x90, 0x00]);
    cpu.mem_write(0x9000, 0xe8);
    cpu.mem_write(0x9001, 0x60);
    cpu.stack_ptr = 0xfd;
    cpu.register_x = 0x41;
    cpu.run().unwrap();
    assert_eq!(cpu.program_counter, 0x8004);
    assert_eq!(cpu.register_x, 0x42);
    assert_eq!(cpu.stack_ptr, 0xfd);
}
