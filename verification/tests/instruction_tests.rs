//! End-to-end programs exercising every handler group, the addressing
//! modes, the flag rules, and the laws on concrete values.

use mos6502::constants::AddressingMode;
use mos6502::constants::Mnemonic;
use mos6502::constants::find_opcode;
use mos6502::cpu::CPU;

const CARRY: u8 = 0x01;
const ZERO: u8 = 0x02;
const OVERFLOW: u8 = 0x40;
const NEGATIVE: u8 = 0x80;

#[test]
fn test_find_opcode_known_and_unknown() {
    let lda = find_opcode(0xa9).expect("LDA immediate is in the table");
    assert_eq!(lda.code, 0xa9);
    assert_eq!(lda.mnemonic, Mnemonic::LDA);
    assert_eq!(lda.length, 2);
    assert_eq!(lda.mode, AddressingMode::Immediate);
    let asl_acc = find_opcode(0x0a).expect("ASL accumulator is in the table");
    assert_eq!(asl_acc.mode, AddressingMode::Accumulator);
    assert_eq!(asl_acc.length, 1);
    assert!(find_opcode(0x02).is_none());
}

#[test]
fn test_lda_store_round_trip() {
    // LDA #$42; STA $10 leaves $42 at $0010.
    let mut cpu = CPU::new();
    cpu.load_and_run(vec![0xa9, 0x42, 0x85, 0x10, 0x00]);
    assert_eq!(cpu.mem_read(0x10), 0x42);
}

#[test]
fn test_adc_flags_exact() {
    // LDA $10; ADC #$10 with $55 at $10: A = $65, no carry, no overflow.
    let mut cpu = CPU::new();
    cpu.mem_write(0x10, 0x55);
    cpu.load_and_run(vec![0xa5, 0x10, 0x69, 0x10, 0x00]);
    assert_eq!(cpu.reg_a, 0x65);
    assert_eq!(cpu.status & CARRY, 0);
    assert_eq!(cpu.status & OVERFLOW, 0);
}

#[test]
fn test_adc_signed_overflow() {
    // $50 + $50 = $A0: signed overflow, negative, no unsigned carry.
    let mut cpu = CPU::new();
    cpu.load_and_run(vec![0xa9, 0x50, 0x69, 0x50, 0x00]);
    assert_eq!(cpu.reg_a, 0xa0);
    assert_eq!(cpu.status & OVERFLOW, OVERFLOW);
    assert_eq!(cpu.status & NEGATIVE, NEGATIVE);
    assert_eq!(cpu.status & CARRY, 0);
}

#[test]
fn test_adc_carry_in_and_out() {
    // SEC; LDA #$01; ADC #$01 uses the carry-in: A = 3.
    let mut cpu = CPU::new();
    cpu.load_and_run(vec![0x38, 0xa9, 0x01, 0x69, 0x01, 0x00]);
    assert_eq!(cpu.reg_a, 0x03);
    // LDA #$FF; ADC #$01 wraps to 0 with carry-out and zero set.
    cpu.load_and_run(vec![0xa9, 0xff, 0x69, 0x01, 0x00]);
    assert_eq!(cpu.reg_a, 0x00);
    assert_eq!(cpu.status & CARRY, CARRY);
    assert_eq!(cpu.status & ZERO, ZERO);
}

#[test]
fn test_adc_commutative_pair() {
    // The same two addends in either order give the same A and status.
    let mut first = CPU::new();
    first.load_and_run(vec![0x18, 0xa9, 0x37, 0x69, 0x66, 0x00]);
    let mut second = CPU::new();
    second.load_and_run(vec![0x18, 0xa9, 0x66, 0x69, 0x37, 0x00]);
    assert_eq!(first.reg_a, second.reg_a);
    assert_eq!(first.status, second.status);
}

#[test]
fn test_sbc_basic() {
    // SEC; LDA #$05; SBC #$03: A = 2 with carry still set (no borrow).
    let mut cpu = CPU::new();
    cpu.load_and_run(vec![0x38, 0xa9, 0x05, 0xe9, 0x03, 0x00]);
    assert_eq!(cpu.reg_a, 0x02);
    assert_eq!(cpu.status & CARRY, CARRY);
}

#[test]
fn test_sbc_adc_round_trip() {
    // With C set and A < x, SBC x then ADC x returns A to its start value.
    let mut cpu = CPU::new();
    cpu.load_and_run(vec![0x38, 0xa9, 0x03, 0xe9, 0x05, 0x69, 0x05, 0x00]);
    assert_eq!(cpu.reg_a, 0x03);
}

#[test]
fn test_asl_lsr_round_trip() {
    // Bits 7 and 0 clear: ASL then LSR returns the original value.
    let mut cpu = CPU::new();
    cpu.load_and_run(vec![0xa9, 0x42, 0x0a, 0x4a, 0x00]);
    assert_eq!(cpu.reg_a, 0x42);
}

#[test]
fn test_lsr_carry() {
    let mut cpu = CPU::new();
    cpu.load_and_run(vec![0xa9, 0x03, 0x4a, 0x00]);
    assert_eq!(cpu.reg_a, 0x01);
    assert_eq!(cpu.status & CARRY, CARRY);
}

#[test]
fn test_rol_with_carry_in() {
    // SEC; LDA #$40; ROL A: bit 0 takes the old carry, carry takes bit 7.
    let mut cpu = CPU::new();
    cpu.load_and_run(vec![0x38, 0xa9, 0x40, 0x2a, 0x00]);
    assert_eq!(cpu.reg_a, 0x81);
    assert_eq!(cpu.status & CARRY, 0);
}

#[test]
fn test_ror_with_carry_in() {
    // SEC; LDA #$01; ROR A: bit 7 takes the old carry, carry takes bit 0.
    let mut cpu = CPU::new();
    cpu.load_and_run(vec![0x38, 0xa9, 0x01, 0x6a, 0x00]);
    assert_eq!(cpu.reg_a, 0x80);
    assert_eq!(cpu.status & CARRY, CARRY);
}

#[test]
fn test_rol_memory() {
    let mut cpu = CPU::new();
    cpu.mem_write(0x10, 0x81);
    cpu.load_and_run(vec![0x26, 0x10, 0x00]);
    assert_eq!(cpu.mem_read(0x10), 0x02);
    assert_eq!(cpu.status & CARRY, CARRY);
}

#[test]
fn test_eor_and_ora() {
    let mut cpu = CPU::new();
    cpu.load_and_run(vec![0xa9, 0xf0, 0x49, 0xff, 0x00]);
    assert_eq!(cpu.reg_a, 0x0f);
    cpu.load_and_run(vec![0xa9, 0x0f, 0x09, 0xf0, 0x00]);
    assert_eq!(cpu.reg_a, 0xff);
    assert_eq!(cpu.status & NEGATIVE, NEGATIVE);
}

#[test]
fn test_cmp_flags() {
    // 5 compared with 3: carry set, not zero, not negative.
    let mut cpu = CPU::new();
    cpu.load_and_run(vec![0xa9, 0x05, 0xc9, 0x03, 0x00]);
    assert_eq!(cpu.status & CARRY, CARRY);
    assert_eq!(cpu.status & ZERO, 0);
    assert_eq!(cpu.status & NEGATIVE, 0);
    // 3 compared with 5: borrow, and bit 7 of $FE makes N set.
    cpu.load_and_run(vec![0xa9, 0x03, 0xc9, 0x05, 0x00]);
    assert_eq!(cpu.status & CARRY, 0);
    assert_eq!(cpu.status & ZERO, 0);
    assert_eq!(cpu.status & NEGATIVE, NEGATIVE);
}

#[test]
fn test_cpx_cpy_equal() {
    let mut cpu = CPU::new();
    cpu.load_and_run(vec![0xa2, 0x10, 0xe0, 0x10, 0x00]);
    assert_eq!(cpu.status & ZERO, ZERO);
    assert_eq!(cpu.status & CARRY, CARRY);
    cpu.load_and_run(vec![0xa0, 0x22, 0xc0, 0x22, 0x00]);
    assert_eq!(cpu.status & ZERO, ZERO);
}

#[test]
fn test_bit_flags() {
    // BIT $10 with $C0 there and A = $0F: N and V from the operand, Z from
    // the and being zero.
    let mut cpu = CPU::new();
    cpu.mem_write(0x10, 0xc0);
    cpu.load_and_run(vec![0xa9, 0x0f, 0x24, 0x10, 0x00]);
    assert_eq!(cpu.status & NEGATIVE, NEGATIVE);
    assert_eq!(cpu.status & OVERFLOW, OVERFLOW);
    assert_eq!(cpu.status & ZERO, ZERO);
}

#[test]
fn test_inc_and_dec_memory() {
    let mut cpu = CPU::new();
    cpu.mem_write(0x10, 0x05);
    cpu.load_and_run(vec![0xe6, 0x10, 0x00]);
    assert_eq!(cpu.mem_read(0x10), 0x06);

    let mut other = CPU::new();
    other.mem_write(0x10, 0x05);
    other.load_and_run(vec![0xc6, 0x10, 0x00]);
    assert_eq!(other.mem_read(0x10), 0x04);
}

#[test]
fn test_dec_wraps_to_ff() {
    let mut cpu = CPU::new();
    cpu.load_and_run(vec![0xc6, 0x10, 0x00]);
    assert_eq!(cpu.mem_read(0x10), 0xff);
    assert_eq!(cpu.status & NEGATIVE, NEGATIVE);
}

#[test]
fn test_ldx_stx_ldy_sty() {
    let mut cpu = CPU::new();
    cpu.load_and_run(vec![0xa2, 0x42, 0x86, 0x20, 0xa0, 0x33, 0x84, 0x21, 0x00]);
    assert_eq!(cpu.mem_read(0x20), 0x42);
    assert_eq!(cpu.mem_read(0x21), 0x33);
}

#[test]
fn test_transfers_and_register_inc_dec() {
    // LDA #$0A; TAY; INY; TYA.
    let mut cpu = CPU::new();
    cpu.load_and_run(vec![0xa9, 0x0a, 0xa8, 0xc8, 0x98, 0x00]);
    assert_eq!(cpu.reg_y, 0x0b);
    assert_eq!(cpu.reg_a, 0x0b);
    // LDX #$05; DEX; TXA.
    cpu.load_and_run(vec![0xa2, 0x05, 0xca, 0x8a, 0x00]);
    assert_eq!(cpu.reg_x, 0x04);
    assert_eq!(cpu.reg_a, 0x04);
    // DEY wraps from 0 to $FF (reset does not clear Y, so start fresh).
    let mut fresh = CPU::new();
    fresh.load_and_run(vec![0x88, 0x00]);
    assert_eq!(fresh.reg_y, 0xff);
}

#[test]
fn test_txs_and_tsx() {
    let mut cpu = CPU::new();
    cpu.load_and_run(vec![0xa2, 0x20, 0x9a, 0xa2, 0x00, 0xba, 0x00]);
    assert_eq!(cpu.reg_x, 0x20);
}

#[test]
fn test_flag_instructions() {
    let mut cpu = CPU::new();
    cpu.load_and_run(vec![0x38, 0xf8, 0x78, 0x00]);
    assert_eq!(cpu.status & CARRY, CARRY);
    assert_eq!(cpu.status & 0x08, 0x08);
    assert_eq!(cpu.status & 0x04, 0x04);
    cpu.load_and_run(vec![0x38, 0xf8, 0x78, 0x18, 0xd8, 0x58, 0x00]);
    assert_eq!(cpu.status & CARRY, 0);
    assert_eq!(cpu.status & 0x08, 0);
    assert_eq!(cpu.status & 0x04, 0);
}

#[test]
fn test_branch_taken_skips() {
    // LDA #0 sets Z; BEQ +2 skips the LDA #$FF.
    let mut cpu = CPU::new();
    cpu.load_and_run(vec![0xa9, 0x00, 0xf0, 0x02, 0xa9, 0xff, 0x00]);
    assert_eq!(cpu.reg_a, 0x00);
}

#[test]
fn test_branch_not_taken_falls_through() {
    // LDA #1 clears Z; BEQ is not taken, so LDA #$FF executes.
    let mut cpu = CPU::new();
    cpu.load_and_run(vec![0xa9, 0x01, 0xf0, 0x02, 0xa9, 0xff, 0x00]);
    assert_eq!(cpu.reg_a, 0xff);
}

#[test]
fn test_branch_backward_countdown() {
    // LDX #3; loop: DEX; BNE loop — the displacement is negative.
    let mut cpu = CPU::new();
    cpu.load_and_run(vec![0xa2, 0x03, 0xca, 0xd0, 0xfd, 0x00]);
    assert_eq!(cpu.reg_x, 0x00);
    assert_eq!(cpu.status & ZERO, ZERO);
}

#[test]
fn test_bcc_bcs_bmi_bpl_bvc_bvs() {
    // SEC; BCS +2 skips the load.
    let mut cpu = CPU::new();
    cpu.load_and_run(vec![0x38, 0xb0, 0x02, 0xa9, 0xff, 0x00]);
    assert_eq!(cpu.reg_a, 0x00);
    // CLC; BCC +2 skips the load.
    cpu.load_and_run(vec![0x18, 0x90, 0x02, 0xa9, 0xff, 0x00]);
    assert_eq!(cpu.reg_a, 0x00);
    // LDA #$80 sets N; BMI +2 skips.
    cpu.load_and_run(vec![0xa9, 0x80, 0x30, 0x02, 0xa9, 0x01, 0x00]);
    assert_eq!(cpu.reg_a, 0x80);
    // LDA #$01 clears N; BPL +2 skips.
    cpu.load_and_run(vec![0xa9, 0x01, 0x10, 0x02, 0xa9, 0xff, 0x00]);
    assert_eq!(cpu.reg_a, 0x01);
    // CLV via BIT of a zero byte? CLV directly: V clear, BVC taken.
    cpu.load_and_run(vec![0xb8, 0x50, 0x02, 0xa9, 0xff, 0x00]);
    assert_eq!(cpu.reg_a, 0x00);
    // ADC #$50 twice sets V; BVS taken.
    cpu.load_and_run(vec![0xa9, 0x50, 0x69, 0x50, 0x70, 0x02, 0xa9, 0x00, 0x00]);
    assert_eq!(cpu.reg_a, 0xa0);
}

#[test]
fn test_jmp_absolute() {
    let mut cpu = CPU::new();
    cpu.load_and_run(vec![0x4c, 0x05, 0x80, 0xa9, 0xff, 0xa9, 0x01, 0x00]);
    assert_eq!(cpu.reg_a, 0x01);
}

#[test]
fn test_jmp_indirect() {
    let mut cpu = CPU::new();
    cpu.mem_write(0x0250, 0x05);
    cpu.mem_write(0x0251, 0x80);
    cpu.load_and_run(vec![0x6c, 0x50, 0x02, 0xa9, 0xff, 0xa9, 0x01, 0x00]);
    assert_eq!(cpu.reg_a, 0x01);
}

#[test]
fn test_jsr_and_rts() {
    // JSR $8006; LDA #1; BRK — subroutine at $8006: LDX #7; RTS.
    let mut cpu = CPU::new();
    cpu.load_and_run(vec![0x20, 0x06, 0x80, 0xa9, 0x01, 0x00, 0xa2, 0x07, 0x60]);
    assert_eq!(cpu.reg_a, 0x01);
    assert_eq!(cpu.reg_x, 0x07);
}

#[test]
fn test_pha_pla() {
    let mut cpu = CPU::new();
    cpu.load_and_run(vec![0xa9, 0x42, 0x48, 0xa9, 0x00, 0x68, 0x00]);
    assert_eq!(cpu.reg_a, 0x42);
    assert_eq!(cpu.status & ZERO, 0);
}

#[test]
fn test_php_plp() {
    // LDA #0 sets Z; PHP; LDA #1 clears Z; PLP restores Z.
    let mut cpu = CPU::new();
    cpu.load_and_run(vec![0xa9, 0x00, 0x08, 0xa9, 0x01, 0x28, 0x00]);
    assert_eq!(cpu.status & ZERO, ZERO);
}

#[test]
fn test_nop_advances_only() {
    let mut cpu = CPU::new();
    cpu.load_and_run(vec![0xea, 0xa9, 0x07, 0x00]);
    assert_eq!(cpu.reg_a, 0x07);
}

#[test]
fn test_lda_zero_page_x_wraps() {
    // $FF + 2 wraps within the zero page to $01.
    let mut cpu = CPU::new();
    cpu.mem_write(0x01, 0x77);
    cpu.load_and_run(vec![0xa2, 0x02, 0xb5, 0xff, 0x00]);
    assert_eq!(cpu.reg_a, 0x77);
}

#[test]
fn test_lda_absolute_indexed() {
    let mut cpu = CPU::new();
    cpu.mem_write(0x0205, 0x77);
    cpu.load_and_run(vec![0xa2, 0x05, 0xbd, 0x00, 0x02, 0x00]);
    assert_eq!(cpu.reg_a, 0x77);
    let mut other = CPU::new();
    other.mem_write(0x0203, 0x66);
    other.load_and_run(vec![0xa0, 0x03, 0xb9, 0x00, 0x02, 0x00]);
    assert_eq!(other.reg_a, 0x66);
}

#[test]
fn test_lda_indirect_x() {
    let mut cpu = CPU::new();
    cpu.mem_write(0x24, 0x00);
    cpu.mem_write(0x25, 0x02);
    cpu.mem_write(0x0200, 0xab);
    cpu.load_and_run(vec![0xa2, 0x04, 0xa1, 0x20, 0x00]);
    assert_eq!(cpu.reg_a, 0xab);
}

#[test]
fn test_lda_indirect_y() {
    let mut cpu = CPU::new();
    cpu.mem_write(0x30, 0x00);
    cpu.mem_write(0x31, 0x02);
    cpu.mem_write(0x0203, 0xcd);
    cpu.load_and_run(vec![0xa0, 0x03, 0xb1, 0x30, 0x00]);
    assert_eq!(cpu.reg_a, 0xcd);
}

#[test]
fn test_sta_absolute() {
    let mut cpu = CPU::new();
    cpu.load_and_run(vec![0xa9, 0x5a, 0x8d, 0x34, 0x12, 0x00]);
    assert_eq!(cpu.mem_read(0x1234), 0x5a);
}

#[test]
fn test_empty_program_halts_at_once() {
    // Memory is zeroed, so the first fetched opcode is BRK.
    let mut cpu = CPU::new();
    cpu.load_and_run(vec![]);
    assert_eq!(cpu.reg_a, 0);
    assert_eq!(cpu.program_counter, 0x0000);
}

#[test]
fn test_longest_program_loads() {
    // A program of the largest allowed size: all zeros, halts at once.
    let mut cpu = CPU::new();
    cpu.load_and_run(vec![0u8; 0x7fff]);
    assert_eq!(cpu.program_counter, 0x0000);
}

#[test]
fn test_unknown_opcode_stops_run() {
    // $02 is not in the table: the run loop stops with the state unchanged.
    let mut cpu = CPU::new();
    cpu.load_and_run(vec![0x02, 0xa9, 0x07, 0x00]);
    assert_eq!(cpu.reg_a, 0x00);
    assert_eq!(cpu.program_counter, 0x8000);
}

#[test]
fn test_reset_keeps_y_and_stack_pointer() {
    let mut cpu = CPU::new();
    cpu.load(vec![0x00]);
    cpu.reg_y = 5;
    cpu.reset();
    assert_eq!(cpu.reg_y, 5);
    assert_eq!(cpu.stp, 0xff);
    assert_eq!(cpu.reg_a, 0);
    assert_eq!(cpu.reg_x, 0);
    assert_eq!(cpu.status, 0);
    assert_eq!(cpu.program_counter, 0x8000);
}

#[test]
fn test_single_stepping() {
    let mut cpu = CPU::new();
    cpu.load(vec![0xa9, 0x05, 0xaa, 0x00]);
    cpu.reset();
    assert!(!cpu.step());
    assert_eq!(cpu.reg_a, 0x05);
    assert_eq!(cpu.program_counter, 0x8002);
    assert!(!cpu.step());
    assert_eq!(cpu.reg_x, 0x05);
    assert!(cpu.step());
}

#[test]
fn test_load_does_not_touch_other_memory() {
    let mut cpu = CPU::new();
    cpu.mem_write(0x0010, 0x11);
    cpu.mem_write(0x7fff, 0x22);
    cpu.load(vec![0xa9, 0x01, 0x00]);
    assert_eq!(cpu.mem_read(0x0010), 0x11);
    assert_eq!(cpu.mem_read(0x7fff), 0x22);
    assert_eq!(cpu.mem_read(0x8000), 0xa9);
    assert_eq!(cpu.mem_read(0xfffc), 0x00);
    assert_eq!(cpu.mem_read(0xfffd), 0x80);
}
