use mos6502::cpu::{StackPointer, CPU};
use mos6502::instructions::Instruction;
use mos6502::mode::Mode;
use mos6502::state::RunError;
use mos6502::status::{Flag, Status};

#[test]
fn test_set_zero_all_values() {
    for v in 0..=255u8 {
        let mut status = Status::default();
        status.set_zero(v);
        assert_eq!(status.contains(Flag::Zero), v == 0);
    }
}

#[test]
fn test_set_negative_all_values() {
    for v in 0..=255u8 {
        let mut status = Status::default();
        status.set_negative(v);
        assert_eq!(status.contains(Flag::Negative), v & 0x80 != 0);
    }
}

#[test]
fn test_set_carry_all_sums() {
    for s in 0..=0xffffu16 {
        let mut status = Status::default();
        status.set_carry(s);
        assert_eq!(status.contains(Flag::Carry), s > 0xff);
    }
}

#[test]
fn test_setters_leave_other_bits_untouched() {
    let mut status = Status::from_bits(0b0101_0101);
    status.set_zero(1);
    status.set_negative(1);
    status.set_carry(0);
    status.set_overflow(true);
    assert_eq!(status.bits(), 0b0101_0100);
}

#[test]
fn test_push_pop_roundtrip_u8() {
    let mut cpu = CPU::new();
    let before: u8 = cpu.stack_pointer.into();
    cpu.stack_push(0xab_u8);
    assert_eq!(cpu.stack_pop::<u8>(), 0xab);
    let after: u8 = cpu.stack_pointer.into();
    assert_eq!(before, after);
}

#[test]
fn test_push_pop_roundtrip_u16() {
    let mut cpu = CPU::new();
    let before: u8 = cpu.stack_pointer.into();
    cpu.stack_push(0xbeef_u16);
    assert_eq!(cpu.stack_pop::<u16>(), 0xbeef);
    let after: u8 = cpu.stack_pointer.into();
    assert_eq!(before, after);
}

#[test]
fn test_push_pop_roundtrip_wraps_at_page_end() {
    let mut cpu = CPU::new();
    cpu.stack_pointer = StackPointer::new(0xff);
    cpu.stack_push(0xbeef_u16);
    let wrapped: u8 = cpu.stack_pointer.into();
    assert_eq!(wrapped, 0x01);
    assert_eq!(cpu.stack_pop::<u16>(), 0xbeef);
    let restored: u8 = cpu.stack_pointer.into();
    assert_eq!(restored, 0xff);
}

#[test]
fn test_unrecognized_opcode_aborts() {
    let mut cpu = CPU::new();
    // 0xff has no opcode table entry.
    cpu.load(vec![0xff]);
    cpu.reset();
    assert_eq!(cpu.run(), Err(RunError::UnrecognizedOpcode(0xff)));
}

#[test]
fn test_missing_operand_aborts() {
    let mut cpu = CPU::new();
    assert_eq!(
        cpu.call(Instruction::Adc, None),
        Err(RunError::MissingOperand)
    );
}

#[test]
fn test_empty_program_halts_on_zeroed_memory() {
    let mut cpu = CPU::new();
    cpu.load(vec![]);
    cpu.reset();
    assert_eq!(cpu.program_counter, 0x8000);
    // The zeroed byte at the origin decodes as BRK.
    cpu.run().unwrap();
}

#[test]
fn test_mos6502_mode_uses_low_rom_origin() {
    let mut cpu = CPU::new();
    cpu.mode = Mode::Mos6502;
    cpu.load(vec![0xa9, 0x07, 0x00]);
    cpu.reset();
    assert_eq!(cpu.program_counter, 0x0600);
    cpu.run().unwrap();
    assert_eq!(cpu.accumulator, 0x07);
}

#[test]
fn test_program_rom_origins() {
    assert_eq!(Mode::Mos6502.program_rom(), 0x0600);
    assert_eq!(Mode::Nes2A03.program_rom(), 0x8000);
}

#[test]
fn test_largest_program_fills_rom_to_top() {
    let mut program = vec![0u8; 0x8000];
    program[0] = 0xa9;
    program[1] = 0x01;
    // The third byte is already 0x00: BRK.
    let mut cpu = CPU::new();
    cpu.load_and_run(program).unwrap();
    assert_eq!(cpu.accumulator, 0x01);
}

#[test]
fn test_0x69_adc_sets_overflow_on_sign_mismatch() {
    let mut cpu = CPU::new();
    // 0x50 + 0x50 = 0xa0: no carry out, but the sign bit flips.
    cpu.load_and_run(vec![0xa9, 0x50, 0x69, 0x50, 0x00]).unwrap();
    assert_eq!(cpu.accumulator, 0xa0);
    assert!(!cpu.status.contains(Flag::Carry));
    assert!(cpu.status.contains(Flag::Overflow));
    assert!(cpu.status.contains(Flag::Negative));
}

#[test]
fn test_0x69_adc_carry_in_and_out() {
    let mut cpu = CPU::new();
    // SEC; LDA #0xff; ADC #0x01 -> 0xff + 0x01 + 1 = 0x101: result 0x01,
    // carry out, no overflow.
    cpu.load_and_run(vec![0x38, 0xa9, 0xff, 0x69, 0x01, 0x00]).unwrap();
    assert_eq!(cpu.accumulator, 0x01);
    assert!(cpu.status.contains(Flag::Carry));
    assert!(!cpu.status.contains(Flag::Overflow));
    assert!(!cpu.status.contains(Flag::Zero));
}

#[test]
fn test_0xe9_sbc_with_carry_set() {
    let mut cpu = CPU::new();
    // SEC; LDA #0x50; SBC #0x10 -> 0x40, no borrow (carry stays set).
    cpu.load_and_run(vec![0x38, 0xa9, 0x50, 0xe9, 0x10, 0x00]).unwrap();
    assert_eq!(cpu.accumulator, 0x40);
    assert!(cpu.status.contains(Flag::Carry));
    assert!(!cpu.status.contains(Flag::Zero));
}

#[test]
fn test_0xc9_cmp_equal_sets_zero_and_carry() {
    let mut cpu = CPU::new();
    cpu.load_and_run(vec![0xa9, 0x10, 0xc9, 0x10, 0x00]).unwrap();
    assert_eq!(cpu.accumulator, 0x10);
    assert!(cpu.status.contains(Flag::Zero));
    assert!(cpu.status.contains(Flag::Carry));
    assert!(!cpu.status.contains(Flag::Negative));
}

#[test]
fn test_0xc9_cmp_less_clears_carry() {
    let mut cpu = CPU::new();
    cpu.load_and_run(vec![0xa9, 0x10, 0xc9, 0x20, 0x00]).unwrap();
    assert!(!cpu.status.contains(Flag::Zero));
    assert!(!cpu.status.contains(Flag::Carry));
    assert!(cpu.status.contains(Flag::Negative));
}

#[test]
fn test_0x2a_rol_shifts_carry_in() {
    let mut cpu = CPU::new();
    // SEC; LDA #0x40; ROL -> 0x81 with carry clear.
    cpu.load_and_run(vec![0x38, 0xa9, 0x40, 0x2a, 0x00]).unwrap();
    assert_eq!(cpu.accumulator, 0x81);
    assert!(!cpu.status.contains(Flag::Carry));
    assert!(cpu.status.contains(Flag::Negative));
}

#[test]
fn test_0x6a_ror_shifts_carry_into_bit7() {
    let mut cpu = CPU::new();
    // SEC; LDA #0x02; ROR -> 0x81 with carry clear.
    cpu.load_and_run(vec![0x38, 0xa9, 0x02, 0x6a, 0x00]).unwrap();
    assert_eq!(cpu.accumulator, 0x81);
    assert!(!cpu.status.contains(Flag::Carry));
}

#[test]
fn test_0xe6_inc_wraps_to_zero() {
    let mut cpu = CPU::new();
    cpu.memory.write(0x10, 0xff_u8);
    cpu.load_and_run(vec![0xe6, 0x10, 0x00]).unwrap();
    assert_eq!(cpu.memory.read::<u8>(0x10), 0x00);
    assert!(cpu.status.contains(Flag::Zero));
}

#[test]
fn test_0x24_bit_sets_zero_overflow_negative() {
    let mut cpu = CPU::new();
    cpu.memory.write(0x10, 0xc0_u8);
    cpu.load_and_run(vec![0xa9, 0x0f, 0x24, 0x10, 0x00]).unwrap();
    assert_eq!(cpu.accumulator, 0x0f);
    assert!(cpu.status.contains(Flag::Zero));
    assert!(cpu.status.contains(Flag::Overflow));
    assert!(cpu.status.contains(Flag::Negative));
}

#[test]
fn test_0xd0_bne_loops_backward() {
    let mut cpu = CPU::new();
    // LDX #0x03; DEX; BNE -3 (back to DEX); BRK.
    cpu.load_and_run(vec![0xa2, 0x03, 0xca, 0xd0, 0xfd, 0x00]).unwrap();
    assert_eq!(cpu.index_x, 0x00);
    assert!(cpu.status.contains(Flag::Zero));
}

#[test]
fn test_0x90_bcc_not_taken_falls_through() {
    let mut cpu = CPU::new();
    // SEC; BCC +2 (skipped); LDA #0x42; BRK.
    cpu.load_and_run(vec![0x38, 0x90, 0x02, 0xa9, 0x42, 0x00]).unwrap();
    assert_eq!(cpu.accumulator, 0x42);
}

#[test]
fn test_0x20_jsr_0x60_rts_roundtrip() {
    let mut cpu = CPU::new();
    // JSR $8004; BRK; then at $8004: LDA #0x42; RTS.
    cpu.load_and_run(vec![0x20, 0x04, 0x80, 0x00, 0xa9, 0x42, 0x60]).unwrap();
    assert_eq!(cpu.accumulator, 0x42);
}

#[test]
fn test_0xb1_indirect_y_wraps_base_address() {
    let mut cpu = CPU::new();
    // The base address 0xffff plus Y = 2 wraps to 0x0001.
    cpu.memory.write(0x0001, 0x42_u8);
    cpu.load(vec![0xb1, 0x20, 0x00]);
    cpu.reset();
    cpu.index_y = 0x02;
    cpu.memory.write(0x20, 0xffff_u16);
    cpu.run().unwrap();
    assert_eq!(cpu.accumulator, 0x42);
}

#[test]
fn test_0xb5_lda_zero_page_x_wraps() {
    let mut cpu = CPU::new();
    // The zero-page base 0xff plus X = 2 wraps within the page to 0x01.
    cpu.memory.write(0x0001, 0x42_u8);
    cpu.load(vec![0xb5, 0xff, 0x00]);
    cpu.reset();
    cpu.index_x = 0x02;
    cpu.run().unwrap();
    assert_eq!(cpu.accumulator, 0x42);
}

#[test]
fn test_0xba_tsx_reads_stack_pointer() {
    let mut cpu = CPU::new();
    cpu.load_and_run(vec![0xba, 0x00]).unwrap();
    assert_eq!(cpu.index_x, 0xfd);
}

#[test]
fn test_0x9a_txs_sets_stack_pointer_without_flags() {
    let mut cpu = CPU::new();
    cpu.load(vec![0xa2, 0x00, 0x9a, 0x00]);
    cpu.reset();
    cpu.run().unwrap();
    // TXS wrote 0x00 into the stack pointer without touching the flags set
    // by LDX #0, then BRK pushed three bytes starting there.
    assert!(cpu.status.contains(Flag::Zero));
    let sp: u8 = cpu.stack_pointer.into();
    assert_eq!(sp, 0x03);
}

#[test]
fn test_reset_preserves_memory_and_reloads_vector() {
    let mut cpu = CPU::new();
    cpu.memory.write(0x1234, 0x42_u8);
    cpu.load(vec![0xa9, 0x05, 0x00]);
    cpu.reset();
    cpu.accumulator = 0x99;
    cpu.reset();
    assert_eq!(cpu.accumulator, 0x00);
    assert_eq!(cpu.program_counter, 0x8000);
    assert_eq!(cpu.memory.read::<u8>(0x1234), 0x42);
    assert_eq!(cpu.status.bits(), 0x34);
}

#[test]
fn test_0x45_eor_and_0x05_ora_and_0x25_and() {
    let mut cpu = CPU::new();
    cpu.memory.write(0x10, 0b1100_1100_u8);
    cpu.load_and_run(vec![0xa9, 0b1010_1010, 0x25, 0x10, 0x00]).unwrap();
    assert_eq!(cpu.accumulator, 0b1000_1000);

    let mut cpu = CPU::new();
    cpu.memory.write(0x10, 0b1100_1100_u8);
    cpu.load_and_run(vec![0xa9, 0b1010_1010, 0x05, 0x10, 0x00]).unwrap();
    assert_eq!(cpu.accumulator, 0b1110_1110);

    let mut cpu = CPU::new();
    cpu.memory.write(0x10, 0b1100_1100_u8);
    cpu.load_and_run(vec![0xa9, 0b1010_1010, 0x45, 0x10, 0x00]).unwrap();
    assert_eq!(cpu.accumulator, 0b0110_0110);
}

#[test]
fn test_0x00_brk_loads_interrupt_vector() {
    let mut cpu = CPU::new();
    cpu.memory.write(0xfffe, 0x9000_u16);
    cpu.load(vec![0x00]);
    cpu.reset();
    cpu.run().unwrap();
    assert_eq!(cpu.program_counter, 0x9000);
}

#[test]
fn test_load_ff_transfer_and_increment_twice_wraps() {
    let mut cpu = CPU::new();
    // LDA #0xff; TAX; INX; INX -> X wraps 0xff -> 0x00 -> 0x01.
    cpu.load_and_run(vec![0xa9, 0xff, 0xaa, 0xe8, 0xe8, 0x00]).unwrap();
    assert_eq!(cpu.index_x, 0x01);
}

#[test]
fn test_0x91_sta_indirect_y_writes_base_plus_y() {
    let mut cpu = CPU::new();
    cpu.load(vec![0xa9, 0x42, 0x91, 0x20, 0x00]);
    cpu.reset();
    cpu.index_y = 0x10;
    cpu.memory.write(0x20, 0xbafc_u16);
    cpu.run().unwrap();
    assert_eq!(cpu.memory.read::<u8>(0xbafc + 0x10), 0x42);
}

#[test]
fn test_0xb4_ldy_zero_page_x() {
    let mut cpu = CPU::new();
    cpu.memory.write(0x30, 0x42_u8);
    cpu.load(vec![0xb4, 0x20, 0x00]);
    cpu.reset();
    cpu.index_x = 0x10;
    cpu.run().unwrap();
    assert_eq!(cpu.index_y, 0x42);
}

#[test]
fn test_0xbc_ldy_absolute_x() {
    let mut cpu = CPU::new();
    cpu.memory.write(0x1234, 0x42_u8);
    cpu.load(vec![0xbc, 0x24, 0x12, 0x00]);
    cpu.reset();
    cpu.index_x = 0x10;
    cpu.run().unwrap();
    assert_eq!(cpu.index_y, 0x42);
}
