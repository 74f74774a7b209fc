//! The mathematical model of the processor: a ghost machine state and, for
//! every instruction, a spec-level transition function.  The executable CPU
//! in [`crate::cpu`] and [`crate::instructions`] is proved to implement
//! these transitions exactly, and the laws in [`crate::laws`] are proved
//! about them.

use vstd::prelude::*;

use crate::constants::AddressingMode;
use crate::constants::Mnemonic;
use crate::constants::OpCode;
use crate::constants::StatusFlag;
use crate::constants::flag_mask;
use crate::constants::opcode_spec;

verus! {

/// Size of the flat address space: 65,536 bytes.
pub const MEM_SIZE: usize = 0x10000;

/// The architectural state of the processor: accumulator A, index registers
/// X and Y, status word P, stack pointer S (a byte index within page $01),
/// program counter PC, and the flat 64 KiB memory.
#[verifier::ext_equal]
pub ghost struct State {
    pub a: u8,
    pub x: u8,
    pub y: u8,
    pub p: u8,
    pub sp: u8,
    pub pc: u16,
    pub mem: Seq<u8>,
}

impl State {
    /// Well-formedness: the memory covers the whole 16-bit address space.
    pub open spec fn wf(self) -> bool {
        self.mem.len() == MEM_SIZE
    }
}

/// The state of a freshly constructed CPU: registers and memory zeroed,
/// stack pointer at $FF.
pub open spec fn init_state() -> State {
    State {
        a: 0,
        x: 0,
        y: 0,
        p: 0,
        sp: 0xff,
        pc: 0,
        mem: Seq::new(MEM_SIZE as nat, |i: int| 0u8),
    }
}

// ---------------------------------------------------------------------------
// Wrap-around arithmetic and little-endian words
// ---------------------------------------------------------------------------

/// 8-bit addition that wraps around at 256.
pub open spec fn add8(a: u8, b: u8) -> u8 {
    if a + b > 0xff {
        (a + b - 0x100) as u8
    } else {
        (a + b) as u8
    }
}

/// 8-bit subtraction that wraps around at 0.
pub open spec fn sub8(a: u8, b: u8) -> u8 {
    if a - b < 0 {
        (a - b + 0x100) as u8
    } else {
        (a - b) as u8
    }
}

/// 16-bit addition that wraps around at 65,536.
pub open spec fn add16(a: u16, b: u16) -> u16 {
    if a + b > 0xffff {
        (a + b - 0x10000) as u16
    } else {
        (a + b) as u16
    }
}

/// The 16-bit word with low byte `lo` and high byte `hi`.
pub open spec fn word(lo: u8, hi: u8) -> u16 {
    (hi * 0x100 + lo) as u16
}

/// The low byte of a 16-bit word.
pub open spec fn lo8(w: u16) -> u8 {
    (w % 0x100) as u8
}

/// The high byte of a 16-bit word.
pub open spec fn hi8(w: u16) -> u8 {
    (w / 0x100) as u8
}

/// The byte in memory at `addr`.
pub open spec fn rd(s: State, addr: u16) -> u8 {
    s.mem[addr as int]
}

/// The little-endian 16-bit word in memory at `pos`: low byte at `pos`,
/// high byte at `pos + 1` (16-bit wrap).
pub open spec fn rd16(s: State, pos: u16) -> u16 {
    word(rd(s, pos), rd(s, add16(pos, 1)))
}

/// Memory with the little-endian word `v` written at `pos`: low byte first,
/// high byte at `pos + 1` (16-bit wrap).
pub open spec fn wr16(mem: Seq<u8>, pos: u16, v: u16) -> Seq<u8> {
    mem.update(pos as int, lo8(v)).update(add16(pos, 1) as int, hi8(v))
}

// ---------------------------------------------------------------------------
// Status-word arithmetic
// ---------------------------------------------------------------------------

/// Whether a flag is set in the status word `p`.
pub open spec fn flag_set(p: u8, flag: StatusFlag) -> bool {
    p & flag_mask(flag) != 0
}

/// The status word with the bits of `mask` set when `on`, cleared when not.
pub open spec fn set_or_clear(p: u8, mask: u8, on: bool) -> u8 {
    if on {
        p | mask
    } else {
        p & !mask
    }
}

/// The status word after an instruction produced `result`: Z is assigned
/// `result == 0`, N is assigned bit 7 of `result`; both are written on every
/// call, all other bits keep their value.
pub open spec fn update_zn(p: u8, result: u8) -> u8 {
    set_or_clear(set_or_clear(p, 0x02, result == 0), 0x80, result & 0x80 != 0)
}

// ---------------------------------------------------------------------------
// ADC / SBC arithmetic
// ---------------------------------------------------------------------------

/// The unbounded sum A + M + carry-in of an add-with-carry.
pub open spec fn adc_sum(a: u8, m: u8, cin: bool) -> int {
    a + m + (if cin {
        1int
    } else {
        0int
    })
}

/// The 8-bit result of an add-with-carry: the sum mod 256.
pub open spec fn adc_result(a: u8, m: u8, cin: bool) -> u8 {
    (adc_sum(a, m, cin) % 0x100) as u8
}

/// The carry-out of an add-with-carry: the sum exceeded 255.
pub open spec fn adc_carry(a: u8, m: u8, cin: bool) -> bool {
    adc_sum(a, m, cin) > 0xff
}

/// The signed-overflow bit of an add-with-carry: set when the result's sign
/// differs from the sign of both addends.
pub open spec fn adc_overflow(a: u8, m: u8, cin: bool) -> bool {
    (m ^ adc_result(a, m, cin)) & (adc_result(a, m, cin) ^ a) & 0x80 != 0
}

/// The status word after an add-with-carry: C, V, Z and N are all assigned.
pub open spec fn adc_status(p: u8, a: u8, m: u8, cin: bool) -> u8 {
    update_zn(
        set_or_clear(
            set_or_clear(p, flag_mask(StatusFlag::Carry), adc_carry(a, m, cin)),
            flag_mask(StatusFlag::Overflow),
            adc_overflow(a, m, cin),
        ),
        adc_result(a, m, cin),
    )
}

/// The state after adding `m` to the accumulator with carry-in taken from
/// the carry flag: `A = A + m + C` with wrap, C, V, Z, N assigned.
pub open spec fn add_a_spec(s: State, m: u8) -> State {
    let cin = flag_set(s.p, StatusFlag::Carry);
    State { a: adc_result(s.a, m, cin), p: adc_status(s.p, s.a, m, cin), ..s }
}

// ---------------------------------------------------------------------------
// Addressing-mode resolution
// ---------------------------------------------------------------------------

/// The effective address produced by an addressing mode, with the program
/// counter pointing at the operand bytes.  All zero-page pointer arithmetic
/// wraps at 8 bits; absolute indexing wraps at 16 bits.  Only meaningful for
/// [`crate::constants::resolvable`] modes.
pub open spec fn operand_addr(s: State, mode: AddressingMode) -> u16 {
    match mode {
        AddressingMode::Immediate => s.pc,
        AddressingMode::ZeroPage => rd(s, s.pc) as u16,
        AddressingMode::ZeroPage_X => add8(rd(s, s.pc), s.x) as u16,
        AddressingMode::ZeroPage_Y => add8(rd(s, s.pc), s.y) as u16,
        AddressingMode::Absolute => rd16(s, s.pc),
        AddressingMode::Absolute_X => add16(rd16(s, s.pc), s.x as u16),
        AddressingMode::Absolute_Y => add16(rd16(s, s.pc), s.y as u16),
        AddressingMode::Indirect => rd16(s, rd16(s, s.pc)),
        AddressingMode::Indirect_X => {
            let ptr = add8(rd(s, s.pc), s.x);
            word(rd(s, ptr as u16), rd(s, add8(ptr, 1) as u16))
        },
        AddressingMode::Indirect_Y => {
            let base = rd(s, s.pc);
            add16(word(rd(s, base as u16), rd(s, add8(base, 1) as u16)), s.y as u16)
        },
        _ => 0,
    }
}

// ---------------------------------------------------------------------------
// The stack: page $01, descending
// ---------------------------------------------------------------------------

/// The memory address of the stack byte at stack-pointer offset `sp`.
pub open spec fn stk_addr(sp: u8) -> u16 {
    (0x100 + sp) as u16
}

/// The state after pushing one byte: S is decremented, the byte lands at
/// $0100 + S.  A push into a full stack (S = 0) is a no-op.
pub open spec fn push8_spec(s: State, v: u8) -> State {
    if s.sp == 0 {
        s
    } else {
        let sp = (s.sp - 1) as u8;
        State { sp, mem: s.mem.update(stk_addr(sp) as int, v), ..s }
    }
}

/// The state after pushing a little-endian word: S is decremented by two,
/// the word lands at $0100 + S.  A push without two free bytes (S < 2) is a
/// no-op.
pub open spec fn push16_spec(s: State, v: u16) -> State {
    if s.sp < 2 {
        s
    } else {
        let sp = (s.sp - 2) as u8;
        State { sp, mem: wr16(s.mem, stk_addr(sp), v), ..s }
    }
}

/// The state after popping one byte (the value itself is read at
/// $0100 + S before S is incremented).  A pop from an empty stack
/// (S = $FF) is a no-op.
pub open spec fn pop8_state(s: State) -> State {
    if s.sp == 0xff {
        s
    } else {
        State { sp: (s.sp + 1) as u8, ..s }
    }
}

/// The state after popping a little-endian word; S is incremented by two
/// with 8-bit wrap.  A pop with S = $FE is reported as underflow and is a
/// no-op.
pub open spec fn pop16_state(s: State) -> State {
    if s.sp == 0xfe {
        s
    } else {
        State { sp: add8(s.sp, 2), ..s }
    }
}

// ---------------------------------------------------------------------------
// Instruction transitions
//
// Each function takes the state with PC already advanced past the opcode
// byte, i.e. pointing at the operand bytes.
// ---------------------------------------------------------------------------

/// LDA: load the operand into A; Z and N updated.
pub open spec fn lda_spec(s: State, mode: AddressingMode) -> State {
    let v = rd(s, operand_addr(s, mode));
    State { a: v, p: update_zn(s.p, v), ..s }
}

/// LDX: load the operand into X; Z and N updated.
pub open spec fn ldx_spec(s: State, mode: AddressingMode) -> State {
    let v = rd(s, operand_addr(s, mode));
    State { x: v, p: update_zn(s.p, v), ..s }
}

/// LDY: load the operand into Y; Z and N updated.
pub open spec fn ldy_spec(s: State, mode: AddressingMode) -> State {
    let v = rd(s, operand_addr(s, mode));
    State { y: v, p: update_zn(s.p, v), ..s }
}

/// STA: store A at the effective address; no flags.
pub open spec fn sta_spec(s: State, mode: AddressingMode) -> State {
    State { mem: s.mem.update(operand_addr(s, mode) as int, s.a), ..s }
}

/// STX: store X at the effective address; no flags.
pub open spec fn stx_spec(s: State, mode: AddressingMode) -> State {
    State { mem: s.mem.update(operand_addr(s, mode) as int, s.x), ..s }
}

/// STY: store Y at the effective address; no flags.
pub open spec fn sty_spec(s: State, mode: AddressingMode) -> State {
    State { mem: s.mem.update(operand_addr(s, mode) as int, s.y), ..s }
}

/// ADC: add the operand to A with carry-in C; C, V, Z, N assigned.
pub open spec fn adc_spec(s: State, mode: AddressingMode) -> State {
    add_a_spec(s, rd(s, operand_addr(s, mode)))
}

/// SBC: subtract the operand from A with borrow — equivalent to ADC of the
/// operand's bitwise complement.
pub open spec fn sbc_spec(s: State, mode: AddressingMode) -> State {
    add_a_spec(s, !rd(s, operand_addr(s, mode)))
}

/// AND: bitwise-and the operand into A; Z and N updated.
pub open spec fn and_spec(s: State, mode: AddressingMode) -> State {
    let r = s.a & rd(s, operand_addr(s, mode));
    State { a: r, p: update_zn(s.p, r), ..s }
}

/// EOR: bitwise-xor the operand into A; Z and N updated.
pub open spec fn eor_spec(s: State, mode: AddressingMode) -> State {
    let r = s.a ^ rd(s, operand_addr(s, mode));
    State { a: r, p: update_zn(s.p, r), ..s }
}

/// ORA: bitwise-or the operand into A; Z and N updated.
pub open spec fn ora_spec(s: State, mode: AddressingMode) -> State {
    let r = s.a | rd(s, operand_addr(s, mode));
    State { a: r, p: update_zn(s.p, r), ..s }
}

/// The shifted value of ASL: the operand moved left one bit.
pub open spec fn asl_val(v: u8) -> u8 {
    v << 1
}

/// The shifted value of LSR: the operand moved right one bit.
pub open spec fn lsr_val(v: u8) -> u8 {
    v >> 1
}

/// The rotated value of ROL: moved left one bit, old carry into bit 0.
pub open spec fn rol_val(v: u8, cin: bool) -> u8 {
    (v << 1) | (if cin {
        1u8
    } else {
        0u8
    })
}

/// The rotated value of ROR: moved right one bit, old carry into bit 7.
pub open spec fn ror_val(v: u8, cin: bool) -> u8 {
    (v >> 1) | (if cin {
        0x80u8
    } else {
        0u8
    })
}

/// The state after a shift or rotate targeting the accumulator: A takes the
/// new value, C the shifted-out bit, Z and N follow the new value.
pub open spec fn shift_acc(s: State, r: u8, cout: bool) -> State {
    State {
        a: r,
        p: update_zn(set_or_clear(s.p, flag_mask(StatusFlag::Carry), cout), r),
        ..s
    }
}

/// The state after a shift or rotate targeting memory at `addr`.
pub open spec fn shift_mem(s: State, addr: u16, r: u8, cout: bool) -> State {
    State {
        mem: s.mem.update(addr as int, r),
        p: update_zn(set_or_clear(s.p, flag_mask(StatusFlag::Carry), cout), r),
        ..s
    }
}

/// ASL: shift left; C receives old bit 7.
pub open spec fn asl_spec(s: State, mode: AddressingMode) -> State {
    if mode == AddressingMode::Accumulator {
        shift_acc(s, asl_val(s.a), s.a & 0x80 != 0)
    } else {
        let addr = operand_addr(s, mode);
        let v = rd(s, addr);
        shift_mem(s, addr, asl_val(v), v & 0x80 != 0)
    }
}

/// LSR: shift right; C receives old bit 0.
pub open spec fn lsr_spec(s: State, mode: AddressingMode) -> State {
    if mode == AddressingMode::Accumulator {
        shift_acc(s, lsr_val(s.a), s.a & 0x01 != 0)
    } else {
        let addr = operand_addr(s, mode);
        let v = rd(s, addr);
        shift_mem(s, addr, lsr_val(v), v & 0x01 != 0)
    }
}

/// ROL: rotate left through carry; C receives old bit 7.
pub open spec fn rol_spec(s: State, mode: AddressingMode) -> State {
    let cin = flag_set(s.p, StatusFlag::Carry);
    if mode == AddressingMode::Accumulator {
        shift_acc(s, rol_val(s.a, cin), s.a & 0x80 != 0)
    } else {
        let addr = operand_addr(s, mode);
        let v = rd(s, addr);
        shift_mem(s, addr, rol_val(v, cin), v & 0x80 != 0)
    }
}

/// ROR: rotate right through carry; C receives old bit 0.
pub open spec fn ror_spec(s: State, mode: AddressingMode) -> State {
    let cin = flag_set(s.p, StatusFlag::Carry);
    if mode == AddressingMode::Accumulator {
        shift_acc(s, ror_val(s.a, cin), s.a & 0x01 != 0)
    } else {
        let addr = operand_addr(s, mode);
        let v = rd(s, addr);
        shift_mem(s, addr, ror_val(v, cin), v & 0x01 != 0)
    }
}

/// The status word after a compare of register value `r` with operand `m`:
/// C is assigned `r >= m`, Z is assigned `r == m`, N is assigned bit 7 of
/// `(r - m) mod 256`.
pub open spec fn cmp_status(p: u8, r: u8, m: u8) -> u8 {
    set_or_clear(
        set_or_clear(
            set_or_clear(p, flag_mask(StatusFlag::Carry), r >= m),
            flag_mask(StatusFlag::Zero),
            r == m,
        ),
        flag_mask(StatusFlag::Negative),
        sub8(r, m) & 0x80 != 0,
    )
}

/// CMP/CPX/CPY: compare a register with the operand; only flags change.
pub open spec fn cmp_spec(s: State, mode: AddressingMode, r: u8) -> State {
    State { p: cmp_status(s.p, r, rd(s, operand_addr(s, mode))), ..s }
}

/// BIT: N takes bit 7 of the operand, V bit 6, Z whether `A AND operand`
/// is zero.
pub open spec fn bit_spec(s: State, mode: AddressingMode) -> State {
    let v = rd(s, operand_addr(s, mode));
    State {
        p: set_or_clear(
            set_or_clear(
                set_or_clear(s.p, flag_mask(StatusFlag::Negative), v & 0x80 != 0),
                flag_mask(StatusFlag::Overflow),
                v & 0x40 != 0,
            ),
            flag_mask(StatusFlag::Zero),
            v & s.a == 0,
        ),
        ..s
    }
}

/// INC: increment memory with 8-bit wrap; Z and N updated.
pub open spec fn inc_spec(s: State, mode: AddressingMode) -> State {
    let addr = operand_addr(s, mode);
    let r = add8(rd(s, addr), 1);
    State { mem: s.mem.update(addr as int, r), p: update_zn(s.p, r), ..s }
}

/// DEC: decrement memory with 8-bit wrap; Z and N updated.
pub open spec fn dec_spec(s: State, mode: AddressingMode) -> State {
    let addr = operand_addr(s, mode);
    let r = sub8(rd(s, addr), 1);
    State { mem: s.mem.update(addr as int, r), p: update_zn(s.p, r), ..s }
}

/// The two's-complement sign extension of a branch displacement byte, as a
/// 16-bit offset.
pub open spec fn sign_ext(d: u8) -> u16 {
    if d < 0x80 {
        d as u16
    } else {
        (d + 0xff00) as u16
    }
}

/// The destination of a taken branch: the displacement byte at PC,
/// sign-extended, added to the address after the operand byte.
pub open spec fn branch_target(s: State) -> u16 {
    add16(add16(s.pc, 1), sign_ext(rd(s, s.pc)))
}

/// A branch: nothing happens when the condition is false (the dispatcher
/// then advances PC past the operand); when true, PC moves to the target.
pub open spec fn branch_spec(s: State, condition: bool) -> State {
    if condition {
        State { pc: branch_target(s), ..s }
    } else {
        s
    }
}

/// JMP: PC takes the effective address.
pub open spec fn jmp_spec(s: State, mode: AddressingMode) -> State {
    State { pc: operand_addr(s, mode), ..s }
}

/// JSR: push the address of the last byte of the instruction (PC + 1, with
/// PC at the operand) and jump to the operand address.
pub open spec fn jsr_spec(s: State, mode: AddressingMode) -> State {
    let s1 = push16_spec(s, add16(s.pc, 1));
    State { pc: operand_addr(s1, mode), ..s1 }
}

/// RTS: PC is the popped word plus one.
pub open spec fn rts_spec(s: State) -> State {
    if s.sp == 0xfe {
        s
    } else {
        State { pc: add16(rd16(s, stk_addr(s.sp)), 1), sp: add8(s.sp, 2), ..s }
    }
}

/// RTI: pop the status word, then pop PC.
pub open spec fn rti_spec(s: State) -> State {
    let s1 = if s.sp == 0xff {
        s
    } else {
        State { p: rd(s, stk_addr(s.sp)), sp: (s.sp + 1) as u8, ..s }
    };
    if s1.sp == 0xfe {
        s1
    } else {
        State { pc: rd16(s1, stk_addr(s1.sp)), sp: add8(s1.sp, 2), ..s1 }
    }
}

/// PLA: pop into A, Z and N updated; a pop from an empty stack leaves A
/// unchanged.
pub open spec fn pla_spec(s: State) -> State {
    if s.sp == 0xff {
        s
    } else {
        let v = rd(s, stk_addr(s.sp));
        State { a: v, p: update_zn(s.p, v), sp: (s.sp + 1) as u8, ..s }
    }
}

/// PLP: pop into the status word.
pub open spec fn plp_spec(s: State) -> State {
    if s.sp == 0xff {
        s
    } else {
        State { p: rd(s, stk_addr(s.sp)), sp: (s.sp + 1) as u8, ..s }
    }
}

/// BRK: push PC + 1, push P, set the B flag, and load PC from the IRQ/BRK
/// vector at $FFFE; the run loop halts after executing it.
pub open spec fn brk_spec(s: State) -> State {
    let s1 = push16_spec(s, add16(s.pc, 1));
    let s2 = push8_spec(s1, s1.p);
    let s3 = State { p: s2.p | flag_mask(StatusFlag::Break), ..s2 };
    State { pc: rd16(s3, 0xfffe), ..s3 }
}

// ---------------------------------------------------------------------------
// The dispatcher
// ---------------------------------------------------------------------------

/// PC advanced past the operand bytes: the dispatcher's advance by
/// (length - 1) for non-control-flow instructions.
pub open spec fn adv(s: State, op: OpCode) -> State {
    State { pc: add16(s.pc, (op.length - 1) as u16), ..s }
}

/// The effect of an instruction's handler, with `s.pc` already past the
/// opcode byte: the handler runs, and for non-control-flow instructions PC
/// then advances past the operand bytes.  Control-flow instructions (JMP,
/// JSR, RTS, RTI, taken branches, BRK) set PC themselves and receive no
/// additional advance.
pub open spec fn instr_effect(s1: State, op: OpCode) -> State {
    match op.mnemonic {
        Mnemonic::LDA => adv(lda_spec(s1, op.mode), op),
        Mnemonic::LDX => adv(ldx_spec(s1, op.mode), op),
        Mnemonic::LDY => adv(ldy_spec(s1, op.mode), op),
        Mnemonic::STA => adv(sta_spec(s1, op.mode), op),
        Mnemonic::STX => adv(stx_spec(s1, op.mode), op),
        Mnemonic::STY => adv(sty_spec(s1, op.mode), op),
        Mnemonic::ADC => adv(adc_spec(s1, op.mode), op),
        Mnemonic::SBC => adv(sbc_spec(s1, op.mode), op),
        Mnemonic::AND => adv(and_spec(s1, op.mode), op),
        Mnemonic::EOR => adv(eor_spec(s1, op.mode), op),
        Mnemonic::ORA => adv(ora_spec(s1, op.mode), op),
        Mnemonic::ASL => adv(asl_spec(s1, op.mode), op),
        Mnemonic::LSR => adv(lsr_spec(s1, op.mode), op),
        Mnemonic::ROL => adv(rol_spec(s1, op.mode), op),
        Mnemonic::ROR => adv(ror_spec(s1, op.mode), op),
        Mnemonic::BIT => adv(bit_spec(s1, op.mode), op),
        Mnemonic::CMP => adv(cmp_spec(s1, op.mode, s1.a), op),
        Mnemonic::CPX => adv(cmp_spec(s1, op.mode, s1.x), op),
        Mnemonic::CPY => adv(cmp_spec(s1, op.mode, s1.y), op),
        Mnemonic::INC => adv(inc_spec(s1, op.mode), op),
        Mnemonic::DEC => adv(dec_spec(s1, op.mode), op),
        Mnemonic::TAX => State { x: s1.a, p: update_zn(s1.p, s1.a), ..s1 },
        Mnemonic::TAY => State { y: s1.a, p: update_zn(s1.p, s1.a), ..s1 },
        Mnemonic::TXA => State { a: s1.x, p: update_zn(s1.p, s1.x), ..s1 },
        Mnemonic::TYA => State { a: s1.y, p: update_zn(s1.p, s1.y), ..s1 },
        Mnemonic::TSX => State { x: s1.sp, p: update_zn(s1.p, s1.sp), ..s1 },
        Mnemonic::TXS => State { sp: s1.x, ..s1 },
        Mnemonic::INX => State { x: add8(s1.x, 1), p: update_zn(s1.p, add8(s1.x, 1)), ..s1 },
        Mnemonic::INY => State { y: add8(s1.y, 1), p: update_zn(s1.p, add8(s1.y, 1)), ..s1 },
        Mnemonic::DEX => State { x: sub8(s1.x, 1), p: update_zn(s1.p, sub8(s1.x, 1)), ..s1 },
        Mnemonic::DEY => State { y: sub8(s1.y, 1), p: update_zn(s1.p, sub8(s1.y, 1)), ..s1 },
        Mnemonic::CLC => State { p: s1.p & !flag_mask(StatusFlag::Carry), ..s1 },
        Mnemonic::SEC => State { p: s1.p | flag_mask(StatusFlag::Carry), ..s1 },
        Mnemonic::CLD => State { p: s1.p & !flag_mask(StatusFlag::DecimalMode), ..s1 },
        Mnemonic::SED => State { p: s1.p | flag_mask(StatusFlag::DecimalMode), ..s1 },
        Mnemonic::CLI => State { p: s1.p & !flag_mask(StatusFlag::InterruptDisable), ..s1 },
        Mnemonic::SEI => State { p: s1.p | flag_mask(StatusFlag::InterruptDisable), ..s1 },
        Mnemonic::CLV => State { p: s1.p & !flag_mask(StatusFlag::Overflow), ..s1 },
        Mnemonic::PHA => push8_spec(s1, s1.a),
        Mnemonic::PHP => push8_spec(s1, s1.p),
        Mnemonic::PLA => pla_spec(s1),
        Mnemonic::PLP => plp_spec(s1),
        Mnemonic::BCC => {
            if !flag_set(s1.p, StatusFlag::Carry) {
                branch_spec(s1, true)
            } else {
                adv(s1, op)
            }
        },
        Mnemonic::BCS => {
            if flag_set(s1.p, StatusFlag::Carry) {
                branch_spec(s1, true)
            } else {
                adv(s1, op)
            }
        },
        Mnemonic::BEQ => {
            if flag_set(s1.p, StatusFlag::Zero) {
                branch_spec(s1, true)
            } else {
                adv(s1, op)
            }
        },
        Mnemonic::BNE => {
            if !flag_set(s1.p, StatusFlag::Zero) {
                branch_spec(s1, true)
            } else {
                adv(s1, op)
            }
        },
        Mnemonic::BMI => {
            if flag_set(s1.p, StatusFlag::Negative) {
                branch_spec(s1, true)
            } else {
                adv(s1, op)
            }
        },
        Mnemonic::BPL => {
            if !flag_set(s1.p, StatusFlag::Negative) {
                branch_spec(s1, true)
            } else {
                adv(s1, op)
            }
        },
        Mnemonic::BVS => {
            if flag_set(s1.p, StatusFlag::Overflow) {
                branch_spec(s1, true)
            } else {
                adv(s1, op)
            }
        },
        Mnemonic::BVC => {
            if !flag_set(s1.p, StatusFlag::Overflow) {
                branch_spec(s1, true)
            } else {
                adv(s1, op)
            }
        },
        Mnemonic::JMP => jmp_spec(s1, op.mode),
        Mnemonic::JSR => jsr_spec(s1, op.mode),
        Mnemonic::RTS => rts_spec(s1),
        Mnemonic::RTI => rti_spec(s1),
        Mnemonic::NOP => s1,
        Mnemonic::BRK => brk_spec(s1),
    }
}

/// The effect of one whole instruction, with `s.pc` at the opcode byte of
/// `op`: PC moves past the opcode, then the handler's effect applies.
pub open spec fn exec_instr(s: State, op: OpCode) -> State {
    instr_effect(State { pc: add16(s.pc, 1), ..s }, op)
}

/// One step of the abstract machine: execute the instruction at PC, or stay
/// put on an unsupported opcode byte.
pub open spec fn step_spec(s: State) -> State {
    match opcode_spec(rd(s, s.pc)) {
        None => s,
        Some(op) => exec_instr(s, op),
    }
}

/// The state after `n` steps of the abstract machine.
pub open spec fn steps(s: State, n: nat) -> State
    decreases n,
{
    if n == 0 {
        s
    } else {
        step_spec(steps(s, (n - 1) as nat))
    }
}

/// The abstract run loop with bounded fuel: executes instructions from `s`
/// until a BRK is executed (the state after the BRK is the result) or an
/// unsupported opcode is fetched (that state is the result, the fault being
/// fatal), or the fuel runs out (`None`).
pub open spec fn run_spec(s: State, fuel: nat) -> Option<State>
    decreases fuel,
{
    match opcode_spec(rd(s, s.pc)) {
        None => Some(s),
        Some(op) => {
            if op.mnemonic == Mnemonic::BRK {
                Some(exec_instr(s, op))
            } else if fuel == 0 {
                None
            } else {
                run_spec(exec_instr(s, op), (fuel - 1) as nat)
            }
        },
    }
}

/// `s1` is an outcome of running the abstract machine from `s0`.
pub open spec fn reaches(s0: State, s1: State) -> bool {
    exists|fuel: nat| run_spec(s0, fuel) == Some(s1)
}

/// The abstract run loop is deterministic: whenever it produces an outcome,
/// the fuel does not matter.  Together with [`reaches`], the outcome of a
/// run is therefore unique.
pub proof fn lemma_run_spec_deterministic(s: State, f1: nat, f2: nat)
    requires
        run_spec(s, f1) is Some,
        run_spec(s, f2) is Some,
    ensures
        run_spec(s, f1) == run_spec(s, f2),
    decreases f1,
{
    match opcode_spec(rd(s, s.pc)) {
        None => {},
        Some(op) => {
            if op.mnemonic != Mnemonic::BRK {
                lemma_run_spec_deterministic(exec_instr(s, op), (f1 - 1) as nat, (f2 - 1) as nat);
            }
        },
    }
}

/// Executing one (non-halting) instruction keeps every outcome of the
/// abstract run loop reachable.
pub proof fn lemma_step_reaches(s: State, r: State)
    requires
        opcode_spec(rd(s, s.pc)) is Some,
        opcode_spec(rd(s, s.pc))->Some_0.mnemonic != Mnemonic::BRK,
        reaches(exec_instr(s, opcode_spec(rd(s, s.pc))->Some_0), r),
    ensures
        reaches(s, r),
{
    let op = opcode_spec(rd(s, s.pc))->Some_0;
    let fuel = choose|fuel: nat| run_spec(exec_instr(s, op), fuel) == Some(r);
    assert(run_spec(s, fuel + 1) == Some(r));
}

/// The state after a reset: A, X and P are zeroed (Y and S keep their
/// values) and PC is loaded from the reset vector at $FFFC.
pub open spec fn reset_spec(s: State) -> State {
    State { a: 0, x: 0, p: 0, pc: rd16(s, 0xfffc), ..s }
}

/// The memory after loading a program: the program bytes overwrite the
/// region starting at $8000, and the reset vector at $FFFC receives $8000
/// little-endian.
pub open spec fn load_mem(mem: Seq<u8>, prog: Seq<u8>) -> Seq<u8> {
    mem.map(
        |i: int, b: u8|
            if 0x8000 <= i < 0x8000 + prog.len() {
                prog[i - 0x8000]
            } else {
                b
            },
    ).update(0xfffc, 0x00u8).update(0xfffd, 0x80u8)
}

/// The state after loading a program; only memory changes.
pub open spec fn load_spec(s: State, prog: Seq<u8>) -> State {
    State { mem: load_mem(s.mem, prog), ..s }
}

} // verus!
