//! Laws of the machine model, proved once and for all: invariants of the
//! program counter, stack pointer and flag discipline, a frame property for
//! memory, and algebraic identities of the arithmetic and shift
//! instructions.

use vstd::prelude::*;

use crate::constants::AddressingMode;
use crate::constants::Mnemonic;
use crate::constants::OpCode;
use crate::constants::StatusFlag;
use crate::constants::opcode_spec;
use crate::machine::State;
use crate::machine::adc_result;
use crate::machine::adc_overflow;
use crate::machine::adc_status;
use crate::machine::adc_sum;
use crate::machine::add16;
use crate::machine::asl_val;
use crate::machine::exec_instr;
use crate::machine::flag_set;
use crate::machine::load_spec;
use crate::machine::instr_effect;
use crate::machine::lsr_val;
use crate::machine::operand_addr;
use crate::machine::pop16_state;
use crate::machine::pop8_state;
use crate::machine::push16_spec;
use crate::machine::push8_spec;
use crate::machine::rd;
use crate::machine::set_or_clear;
use crate::machine::step_spec;
use crate::machine::steps;
use crate::machine::stk_addr;
use crate::machine::update_zn;

verus! {

/// After any instruction, the program counter lies in [0, 65535]: every PC
/// computation wraps at 16 bits.
pub proof fn lemma_pc_in_range(s: State, op: OpCode)
    ensures
        0 <= exec_instr(s, op).pc <= 0xffff,
{
}

/// After any push or pop, the stack pointer lies in [0, 255]: stack
/// arithmetic never leaves the 8-bit index.
pub proof fn lemma_stack_pointer_in_range(s: State, v: u8, w: u16)
    ensures
        0 <= push8_spec(s, v).sp <= 255,
        0 <= push16_spec(s, w).sp <= 255,
        0 <= pop8_state(s).sp <= 255,
        0 <= pop16_state(s).sp <= 255,
{
}

/// The Z flag is 1 iff the last flag-touching result equaled 0: whatever
/// the previous status word, assigning Z and N from a result leaves Z set
/// exactly when the result is zero.
pub proof fn lemma_zero_flag(p: u8, result: u8)
    ensures
        flag_set(update_zn(p, result), StatusFlag::Zero) <==> result == 0,
{
    let q = set_or_clear(p, 0x02, result == 0);
    if result == 0 {
        assert((p | 0x02) & 0x02 != 0) by (bit_vector);
    } else {
        assert((p & !0x02) & 0x02 == 0) by (bit_vector);
    }
    if result & 0x80 != 0 {
        assert((q | 0x80) & 0x02 == q & 0x02) by (bit_vector);
    } else {
        assert((q & !0x80) & 0x02 == q & 0x02) by (bit_vector);
    }
}

/// The N flag equals bit 7 of the last flag-touching result: whatever the
/// previous status word, assigning Z and N from a result leaves N set
/// exactly when the result's bit 7 is set.
pub proof fn lemma_negative_flag(p: u8, result: u8)
    ensures
        flag_set(update_zn(p, result), StatusFlag::Negative) <==> result & 0x80 != 0,
{
    let q = set_or_clear(p, 0x02, result == 0);
    if result & 0x80 != 0 {
        assert((q | 0x80) & 0x80 != 0) by (bit_vector);
    } else {
        assert((q & !0x80) & 0x80 == 0) by (bit_vector);
    }
}

/// The set of memory addresses an instruction writes: the store or
/// read-modify-write target, and the stack bytes of pushes, JSR and BRK.
/// `s` is the state with PC at the opcode byte.
pub open spec fn instr_writes(s: State, op: OpCode) -> Set<u16> {
    let s1 = State { pc: add16(s.pc, 1), ..s };
    match op.mnemonic {
        Mnemonic::STA | Mnemonic::STX | Mnemonic::STY | Mnemonic::INC | Mnemonic::DEC => set![
            operand_addr(s1, op.mode),
        ],
        Mnemonic::ASL | Mnemonic::LSR | Mnemonic::ROL | Mnemonic::ROR => {
            if op.mode == AddressingMode::Accumulator {
                Set::empty()
            } else {
                set![operand_addr(s1, op.mode)]
            }
        },
        Mnemonic::PHA | Mnemonic::PHP => {
            if s1.sp == 0 {
                Set::empty()
            } else {
                set![stk_addr((s1.sp - 1) as u8)]
            }
        },
        Mnemonic::JSR => {
            if s1.sp < 2 {
                Set::empty()
            } else {
                set![stk_addr((s1.sp - 2) as u8), stk_addr((s1.sp - 1) as u8)]
            }
        },
        Mnemonic::BRK => {
            let s2 = push16_spec(s1, add16(s1.pc, 1));
            (if s1.sp < 2 {
                Set::<u16>::empty()
            } else {
                set![stk_addr((s1.sp - 2) as u8), stk_addr((s1.sp - 1) as u8)]
            }).union(
                if s2.sp == 0 {
                    Set::<u16>::empty()
                } else {
                    set![stk_addr((s2.sp - 1) as u8)]
                },
            )
        },
        _ => Set::empty(),
    }
}

/// Memory outside an instruction's write set is unchanged: in particular,
/// memory outside the program-load range stays as loaded unless an
/// instruction wrote to it.
pub proof fn lemma_memory_frame(s: State, op: OpCode, addr: u16)
    requires
        s.wf(),
        !instr_writes(s, op).contains(addr),
    ensures
        rd(exec_instr(s, op), addr) == rd(s, addr),
{
    let s1 = State { pc: add16(s.pc, 1), ..s };
    match op.mnemonic {
        Mnemonic::JSR => {
            if s1.sp >= 2 {
                let base = stk_addr((s1.sp - 2) as u8);
                assert(add16(base, 1) == stk_addr((s1.sp - 1) as u8));
            }
        },
        Mnemonic::BRK => {
            let s2 = push16_spec(s1, add16(s1.pc, 1));
            if s1.sp >= 2 {
                let base = stk_addr((s1.sp - 2) as u8);
                assert(add16(base, 1) == stk_addr((s1.sp - 1) as u8));
                assert(rd(s2, addr) == rd(s1, addr));
            }
            assert(s2.sp != 0 ==> rd(push8_spec(s2, s2.p), addr) == rd(s2, addr));
        },
        _ => {},
    }
    assert(rd(instr_effect(s1, op), addr) == rd(s1, addr));
}

/// Loading a program changes nothing outside the program-load range: only
/// the region at $8000 covered by the program bytes and the reset vector at
/// $FFFC/$FFFD are written.
pub proof fn lemma_load_frame(s: State, prog: Seq<u8>, addr: u16)
    requires
        s.wf(),
        prog.len() <= 0x7fff,
        !(0x8000 <= addr < 0x8000 + prog.len()),
        addr != 0xfffc,
        addr != 0xfffd,
    ensures
        rd(load_spec(s, prog), addr) == rd(s, addr),
{
}

/// Load + store round-trip: a program fragment `LDA #v; STA $zp` leaves
/// `v` in memory at `$zp`, for every value and every zero-page address.
pub proof fn lemma_load_store_round_trip(s: State, v: u8, zp: u8)
    requires
        s.wf(),
        rd(s, s.pc) == 0xa9,
        rd(s, add16(s.pc, 1)) == v,
        rd(s, add16(s.pc, 2)) == 0x85,
        rd(s, add16(s.pc, 3)) == zp,
    ensures
        rd(steps(s, 2), zp as u16) == v,
{
    reveal(opcode_spec);
    assert(steps(s, 1) == step_spec(steps(s, 0)));
    assert(steps(s, 2) == step_spec(steps(s, 1)));
    let s1 = step_spec(s);
    assert(s1.pc == add16(s.pc, 2));
    assert(s1.a == v);
    assert(rd(s1, s1.pc) == 0x85);
    assert(rd(s1, add16(s1.pc, 1)) == zp);
    assert(steps(s, 2).mem == s1.mem.update(zp as int, v));
}

/// ADC with C = 0 is commutative in (A, operand): the result and the whole
/// status word — C, Z, N and V — agree when the two inputs are swapped.
pub proof fn lemma_adc_commutative(p: u8, a: u8, m: u8)
    ensures
        adc_result(a, m, false) == adc_result(m, a, false),
        adc_status(p, a, m, false) == adc_status(p, m, a, false),
{
    assert(adc_sum(a, m, false) == adc_sum(m, a, false));
    let r = adc_result(a, m, false);
    assert((m ^ r) & (r ^ a) & 0x80 == (a ^ r) & (r ^ m) & 0x80) by (bit_vector);
}

/// Assigning Z and N from a result does not touch the carry bit.
proof fn lemma_update_zn_keeps_carry(p: u8, result: u8)
    by (bit_vector)
    ensures
        update_zn(p, result) & 0x01 == p & 0x01,
{
}

/// `SBC x` followed by `ADC x`, with the carry flag initially set and
/// A < x, returns A to its initial value; the carry flag itself may
/// toggle.  With A >= x the pair instead yields A + 1 — the first carry-out
/// propagates into the second addition — so those inputs are excluded
/// (for instance A = 5, x = 3 ends with A = 6).
pub proof fn lemma_sbc_adc_round_trip(p: u8, a: u8, x: u8)
    requires
        flag_set(p, StatusFlag::Carry),
        a < x,
    ensures
        ({
            let r1 = adc_result(a, !x, true);
            let p1 = adc_status(p, a, !x, true);
            adc_result(r1, x, flag_set(p1, StatusFlag::Carry)) == a
        }),
{
    assert(!x == 255 - x) by (bit_vector);
    let r1 = adc_result(a, !x, true);
    let p1 = adc_status(p, a, !x, true);
    assert(adc_sum(a, !x, true) == a + 256 - x);
    assert(r1 == a + 256 - x);
    let ovf = adc_overflow(a, !x, true);
    let q = set_or_clear(set_or_clear(p, 0x01, false), 0x40, ovf);
    assert(p1 == update_zn(q, r1));
    if ovf {
        assert(((p & !0x01) | 0x40) & 0x01 == 0) by (bit_vector);
    } else {
        assert(((p & !0x01) & !0x40) & 0x01 == 0) by (bit_vector);
    }
    lemma_update_zn_keeps_carry(q, r1);
    assert(!flag_set(p1, StatusFlag::Carry));
    assert(adc_sum(r1, x, false) == a + 256);
    assert(adc_result(r1, x, false) == a);
}

/// ASL then LSR on a value whose bits 7 and 0 are clear returns the
/// original value; the flags may change.
pub proof fn lemma_asl_lsr_round_trip(v: u8)
    requires
        v & 0x80 == 0,
        v & 0x01 == 0,
    ensures
        lsr_val(asl_val(v)) == v,
{
    assert(v & 0x80 == 0 ==> (v << 1) >> 1 == v) by (bit_vector);
}

} // verus!
