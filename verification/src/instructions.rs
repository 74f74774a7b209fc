//! The instruction handlers, one per mnemonic group.  Each handler consumes
//! its addressing mode, mutates registers, memory and flags, and is proved
//! to perform exactly the transition of its spec function in
//! [`crate::machine`].

use vstd::prelude::*;

use crate::constants::AddressingMode;
use crate::constants::StatusFlag;
use crate::constants::resolvable;
use crate::cpu::CPU;
use crate::machine::adc_result;
use crate::machine::adc_sum;
use crate::machine::add8;
use crate::machine::add_a_spec;
use crate::machine::adc_spec;
use crate::machine::and_spec;
use crate::machine::asl_spec;
use crate::machine::bit_spec;
use crate::machine::branch_spec;
use crate::machine::brk_spec;
use crate::machine::cmp_spec;
use crate::machine::dec_spec;
use crate::machine::eor_spec;
use crate::machine::inc_spec;
use crate::machine::jmp_spec;
use crate::machine::jsr_spec;
use crate::machine::lda_spec;
use crate::machine::ldx_spec;
use crate::machine::ldy_spec;
use crate::machine::lsr_spec;
use crate::machine::ora_spec;
use crate::machine::pla_spec;
use crate::machine::plp_spec;
use crate::machine::rol_spec;
use crate::machine::ror_spec;
use crate::machine::rti_spec;
use crate::machine::rts_spec;
use crate::machine::sbc_spec;
use crate::machine::sta_spec;
use crate::machine::sub8;
use crate::machine::stx_spec;
use crate::machine::sty_spec;
use crate::machine::update_zn;
use crate::machine::State;

verus! {

impl CPU {
    // LOADS / STORES

    /// LDA: load the operand into A; Z and N updated.
    pub fn lda(&mut self, mode: &AddressingMode)
        requires
            old(self).wf(),
            resolvable(*mode),
        ensures
            final(self).wf(),
            final(self).st() == lda_spec(old(self).st(), *mode),
    {
        let addr = self.get_operand_address(mode);
        let value = self.mem_read(addr);
        self.reg_a = value;
        self.update_zero_and_negative_flags(value);
    }

    /// LDX: load the operand into X; Z and N updated.
    pub fn ldx(&mut self, mode: &AddressingMode)
        requires
            old(self).wf(),
            resolvable(*mode),
        ensures
            final(self).wf(),
            final(self).st() == ldx_spec(old(self).st(), *mode),
    {
        let addr = self.get_operand_address(mode);
        let value = self.mem_read(addr);
        self.reg_x = value;
        self.update_zero_and_negative_flags(value);
    }

    /// LDY: load the operand into Y; Z and N updated.
    pub fn ldy(&mut self, mode: &AddressingMode)
        requires
            old(self).wf(),
            resolvable(*mode),
        ensures
            final(self).wf(),
            final(self).st() == ldy_spec(old(self).st(), *mode),
    {
        let addr = self.get_operand_address(mode);
        let value = self.mem_read(addr);
        self.reg_y = value;
        self.update_zero_and_negative_flags(value);
    }

    /// STA: store A at the effective address; no flags.
    pub fn sta(&mut self, mode: &AddressingMode)
        requires
            old(self).wf(),
            resolvable(*mode),
        ensures
            final(self).wf(),
            final(self).st() == sta_spec(old(self).st(), *mode),
    {
        let addr = self.get_operand_address(mode);
        self.mem_write(addr, self.reg_a);
    }

    /// STX: store X at the effective address; no flags.
    pub fn stx(&mut self, mode: &AddressingMode)
        requires
            old(self).wf(),
            resolvable(*mode),
        ensures
            final(self).wf(),
            final(self).st() == stx_spec(old(self).st(), *mode),
    {
        let addr = self.get_operand_address(mode);
        self.mem_write(addr, self.reg_x);
    }

    /// STY: store Y at the effective address; no flags.
    pub fn sty(&mut self, mode: &AddressingMode)
        requires
            old(self).wf(),
            resolvable(*mode),
        ensures
            final(self).wf(),
            final(self).st() == sty_spec(old(self).st(), *mode),
    {
        let addr = self.get_operand_address(mode);
        self.mem_write(addr, self.reg_y);
    }

    // TRANSFERS

    /// TAX: X takes A; Z and N updated.
    pub fn tax(&mut self)
        ensures
            final(self).st() == (State {
                x: old(self).reg_a,
                p: update_zn(old(self).status, old(self).reg_a),
                ..old(self).st()
            }),
    {
        self.reg_x = self.reg_a;
        self.update_zero_and_negative_flags(self.reg_x);
    }

    /// TAY: Y takes A; Z and N updated.
    pub fn tay(&mut self)
        ensures
            final(self).st() == (State {
                y: old(self).reg_a,
                p: update_zn(old(self).status, old(self).reg_a),
                ..old(self).st()
            }),
    {
        self.reg_y = self.reg_a;
        self.update_zero_and_negative_flags(self.reg_y);
    }

    /// TXA: A takes X; Z and N updated.
    pub fn txa(&mut self)
        ensures
            final(self).st() == (State {
                a: old(self).reg_x,
                p: update_zn(old(self).status, old(self).reg_x),
                ..old(self).st()
            }),
    {
        self.reg_a = self.reg_x;
        self.update_zero_and_negative_flags(self.reg_a);
    }

    /// TYA: A takes Y; Z and N updated.
    pub fn tya(&mut self)
        ensures
            final(self).st() == (State {
                a: old(self).reg_y,
                p: update_zn(old(self).status, old(self).reg_y),
                ..old(self).st()
            }),
    {
        self.reg_a = self.reg_y;
        self.update_zero_and_negative_flags(self.reg_a);
    }

    /// TSX: X takes the stack pointer; Z and N updated.
    pub fn tsx(&mut self)
        ensures
            final(self).st() == (State {
                x: old(self).stp,
                p: update_zn(old(self).status, old(self).stp),
                ..old(self).st()
            }),
    {
        self.reg_x = self.stp;
        self.update_zero_and_negative_flags(self.reg_x);
    }

    /// TXS: the stack pointer takes X; no flags.
    pub fn txs(&mut self)
        ensures
            final(self).st() == (State { sp: old(self).reg_x, ..old(self).st() }),
    {
        self.stp = self.reg_x;
    }

    // INCREMENTS / DECREMENTS ON REGISTERS

    /// INX: increment X with 8-bit wrap; Z and N updated.
    pub fn inx(&mut self)
        ensures
            final(self).st() == (State {
                x: add8(old(self).reg_x, 1),
                p: update_zn(old(self).status, add8(old(self).reg_x, 1)),
                ..old(self).st()
            }),
    {
        self.reg_x = self.reg_x.wrapping_add(1);
        self.update_zero_and_negative_flags(self.reg_x);
    }

    /// INY: increment Y with 8-bit wrap; Z and N updated.
    pub fn iny(&mut self)
        ensures
            final(self).st() == (State {
                y: add8(old(self).reg_y, 1),
                p: update_zn(old(self).status, add8(old(self).reg_y, 1)),
                ..old(self).st()
            }),
    {
        self.reg_y = self.reg_y.wrapping_add(1);
        self.update_zero_and_negative_flags(self.reg_y);
    }

    /// DEX: decrement X with 8-bit wrap; Z and N updated.
    pub fn dex(&mut self)
        ensures
            final(self).st() == (State {
                x: sub8(old(self).reg_x, 1),
                p: update_zn(old(self).status, sub8(old(self).reg_x, 1)),
                ..old(self).st()
            }),
    {
        self.reg_x = self.reg_x.wrapping_sub(1);
        self.update_zero_and_negative_flags(self.reg_x);
    }

    /// DEY: decrement Y with 8-bit wrap; Z and N updated.
    pub fn dey(&mut self)
        ensures
            final(self).st() == (State {
                y: sub8(old(self).reg_y, 1),
                p: update_zn(old(self).status, sub8(old(self).reg_y, 1)),
                ..old(self).st()
            }),
    {
        self.reg_y = self.reg_y.wrapping_sub(1);
        self.update_zero_and_negative_flags(self.reg_y);
    }

    // ACCUMULATOR HELPERS

    /// Assign A and update Z and N from the new value.
    pub fn set_reg_a(&mut self, value: u8)
        ensures
            final(self).st() == (State {
                a: value,
                p: update_zn(old(self).status, value),
                ..old(self).st()
            }),
    {
        self.reg_a = value;
        self.update_zero_and_negative_flags(value);
    }

    /// Add `data` to A with carry-in from the carry flag: the core of ADC
    /// and SBC.  C receives the carry-out, V the signed overflow, Z and N
    /// follow the 8-bit result.
    pub fn add_to_reg_a(&mut self, data: u8)
        ensures
            final(self).st() == add_a_spec(old(self).st(), data),
    {
        let cin: u16 = if self.check_flag(StatusFlag::Carry) {
            1
        } else {
            0
        };
        let sum: u16 = self.reg_a as u16 + data as u16 + cin;
        if sum > 0xff {
            self.set_flag(StatusFlag::Carry);
        } else {
            self.clear_flag(StatusFlag::Carry);
        }
        let result = (sum % 0x100) as u8;
        proof {
            assert(sum == adc_sum(old(self).reg_a, data, cin == 1));
            assert(result == adc_result(old(self).reg_a, data, cin == 1));
        }
        if (data ^ result) & (result ^ self.reg_a) & 0x80 != 0 {
            self.set_flag(StatusFlag::Overflow);
        } else {
            self.clear_flag(StatusFlag::Overflow);
        }
        self.set_reg_a(result);
    }

    // ARITHMETIC

    /// ADC: add the operand to A with carry-in C; C, V, Z, N assigned.
    pub fn adc(&mut self, mode: &AddressingMode)
        requires
            old(self).wf(),
            resolvable(*mode),
        ensures
            final(self).wf(),
            final(self).st() == adc_spec(old(self).st(), *mode),
    {
        let addr = self.get_operand_address(mode);
        let value = self.mem_read(addr);
        self.add_to_reg_a(value);
    }

    /// SBC: subtract the operand from A with borrow — ADC of the operand's
    /// bitwise complement.
    pub fn sbc(&mut self, mode: &AddressingMode)
        requires
            old(self).wf(),
            resolvable(*mode),
        ensures
            final(self).wf(),
            final(self).st() == sbc_spec(old(self).st(), *mode),
    {
        let addr = self.get_operand_address(mode);
        let value = self.mem_read(addr);
        self.add_to_reg_a(!value);
    }

    // BITWISE

    /// AND: bitwise-and the operand into A; Z and N updated.
    pub fn and(&mut self, mode: &AddressingMode)
        requires
            old(self).wf(),
            resolvable(*mode),
        ensures
            final(self).wf(),
            final(self).st() == and_spec(old(self).st(), *mode),
    {
        let addr = self.get_operand_address(mode);
        let value = self.mem_read(addr);
        self.set_reg_a(self.reg_a & value);
    }

    /// EOR: bitwise-xor the operand into A; Z and N updated.
    pub fn eor(&mut self, mode: &AddressingMode)
        requires
            old(self).wf(),
            resolvable(*mode),
        ensures
            final(self).wf(),
            final(self).st() == eor_spec(old(self).st(), *mode),
    {
        let addr = self.get_operand_address(mode);
        let value = self.mem_read(addr);
        self.set_reg_a(self.reg_a ^ value);
    }

    /// ORA: bitwise-or the operand into A; Z and N updated.
    pub fn ora(&mut self, mode: &AddressingMode)
        requires
            old(self).wf(),
            resolvable(*mode),
        ensures
            final(self).wf(),
            final(self).st() == ora_spec(old(self).st(), *mode),
    {
        let addr = self.get_operand_address(mode);
        let value = self.mem_read(addr);
        self.set_reg_a(self.reg_a | value);
    }

    // SHIFTS / ROTATES

    /// ASL: shift left; C receives old bit 7; the operand is A in
    /// accumulator mode, a memory location otherwise.
    pub fn asl(&mut self, mode: &AddressingMode)
        requires
            old(self).wf(),
            *mode == AddressingMode::Accumulator || resolvable(*mode),
        ensures
            final(self).wf(),
            final(self).st() == asl_spec(old(self).st(), *mode),
    {
        if matches!(mode, AddressingMode::Accumulator) {
            let value = self.reg_a;
            if value & 0x80 != 0 {
                self.set_flag(StatusFlag::Carry);
            } else {
                self.clear_flag(StatusFlag::Carry);
            }
            self.reg_a = value << 1;
            self.update_zero_and_negative_flags(value << 1);
        } else {
            let addr = self.get_operand_address(mode);
            let value = self.mem_read(addr);
            if value & 0x80 != 0 {
                self.set_flag(StatusFlag::Carry);
            } else {
                self.clear_flag(StatusFlag::Carry);
            }
            self.mem_write(addr, value << 1);
            self.update_zero_and_negative_flags(value << 1);
        }
    }

    /// LSR: shift right; C receives old bit 0.
    pub fn lsr(&mut self, mode: &AddressingMode)
        requires
            old(self).wf(),
            *mode == AddressingMode::Accumulator || resolvable(*mode),
        ensures
            final(self).wf(),
            final(self).st() == lsr_spec(old(self).st(), *mode),
    {
        if matches!(mode, AddressingMode::Accumulator) {
            let value = self.reg_a;
            if value & 0x01 != 0 {
                self.set_flag(StatusFlag::Carry);
            } else {
                self.clear_flag(StatusFlag::Carry);
            }
            self.reg_a = value >> 1;
            self.update_zero_and_negative_flags(value >> 1);
        } else {
            let addr = self.get_operand_address(mode);
            let value = self.mem_read(addr);
            if value & 0x01 != 0 {
                self.set_flag(StatusFlag::Carry);
            } else {
                self.clear_flag(StatusFlag::Carry);
            }
            self.mem_write(addr, value >> 1);
            self.update_zero_and_negative_flags(value >> 1);
        }
    }

    /// ROL: rotate left through carry; bit 0 takes the old carry, C the old
    /// bit 7.
    pub fn rol(&mut self, mode: &AddressingMode)
        requires
            old(self).wf(),
            *mode == AddressingMode::Accumulator || resolvable(*mode),
        ensures
            final(self).wf(),
            final(self).st() == rol_spec(old(self).st(), *mode),
    {
        let cin: u8 = if self.check_flag(StatusFlag::Carry) {
            1
        } else {
            0
        };
        if matches!(mode, AddressingMode::Accumulator) {
            let value = self.reg_a;
            let rotated = (value << 1) | cin;
            if value & 0x80 != 0 {
                self.set_flag(StatusFlag::Carry);
            } else {
                self.clear_flag(StatusFlag::Carry);
            }
            self.reg_a = rotated;
            self.update_zero_and_negative_flags(rotated);
        } else {
            let addr = self.get_operand_address(mode);
            let value = self.mem_read(addr);
            let rotated = (value << 1) | cin;
            if value & 0x80 != 0 {
                self.set_flag(StatusFlag::Carry);
            } else {
                self.clear_flag(StatusFlag::Carry);
            }
            self.mem_write(addr, rotated);
            self.update_zero_and_negative_flags(rotated);
        }
    }

    /// ROR: rotate right through carry; bit 7 takes the old carry, C the
    /// old bit 0.
    pub fn ror(&mut self, mode: &AddressingMode)
        requires
            old(self).wf(),
            *mode == AddressingMode::Accumulator || resolvable(*mode),
        ensures
            final(self).wf(),
            final(self).st() == ror_spec(old(self).st(), *mode),
    {
        let cin: u8 = if self.check_flag(StatusFlag::Carry) {
            0x80
        } else {
            0
        };
        if matches!(mode, AddressingMode::Accumulator) {
            let value = self.reg_a;
            let rotated = (value >> 1) | cin;
            if value & 0x01 != 0 {
                self.set_flag(StatusFlag::Carry);
            } else {
                self.clear_flag(StatusFlag::Carry);
            }
            self.reg_a = rotated;
            self.update_zero_and_negative_flags(rotated);
        } else {
            let addr = self.get_operand_address(mode);
            let value = self.mem_read(addr);
            let rotated = (value >> 1) | cin;
            if value & 0x01 != 0 {
                self.set_flag(StatusFlag::Carry);
            } else {
                self.clear_flag(StatusFlag::Carry);
            }
            self.mem_write(addr, rotated);
            self.update_zero_and_negative_flags(rotated);
        }
    }

    // COMPARES

    /// CMP/CPX/CPY: compare register value `reg` with the operand.
    /// C is assigned `reg >= operand`, Z is assigned equality, N is
    /// assigned bit 7 of the wrapped difference.
    pub fn cmp(&mut self, mode: &AddressingMode, reg: u8)
        requires
            old(self).wf(),
            resolvable(*mode),
        ensures
            final(self).wf(),
            final(self).st() == cmp_spec(old(self).st(), *mode, reg),
    {
        let addr = self.get_operand_address(mode);
        let value = self.mem_read(addr);
        if reg >= value {
            self.set_flag(StatusFlag::Carry);
        } else {
            self.clear_flag(StatusFlag::Carry);
        }
        if reg == value {
            self.set_flag(StatusFlag::Zero);
        } else {
            self.clear_flag(StatusFlag::Zero);
        }
        if reg.wrapping_sub(value) & 0x80 != 0 {
            self.set_flag(StatusFlag::Negative);
        } else {
            self.clear_flag(StatusFlag::Negative);
        }
    }

    // BIT TEST

    /// BIT: N takes bit 7 of the operand, V bit 6, Z whether `A AND
    /// operand` is zero.
    pub fn bit(&mut self, mode: &AddressingMode)
        requires
            old(self).wf(),
            resolvable(*mode),
        ensures
            final(self).wf(),
            final(self).st() == bit_spec(old(self).st(), *mode),
    {
        let addr = self.get_operand_address(mode);
        let value = self.mem_read(addr);
        if value & 0x80 != 0 {
            self.set_flag(StatusFlag::Negative);
        } else {
            self.clear_flag(StatusFlag::Negative);
        }
        if value & 0x40 != 0 {
            self.set_flag(StatusFlag::Overflow);
        } else {
            self.clear_flag(StatusFlag::Overflow);
        }
        if value & self.reg_a == 0 {
            self.set_flag(StatusFlag::Zero);
        } else {
            self.clear_flag(StatusFlag::Zero);
        }
    }

    // MEMORY INCREMENT / DECREMENT

    /// INC: increment memory with 8-bit wrap; Z and N updated.
    pub fn inc(&mut self, mode: &AddressingMode)
        requires
            old(self).wf(),
            resolvable(*mode),
        ensures
            final(self).wf(),
            final(self).st() == inc_spec(old(self).st(), *mode),
    {
        let addr = self.get_operand_address(mode);
        let value = self.mem_read(addr);
        let result = value.wrapping_add(1);
        self.update_zero_and_negative_flags(result);
        self.mem_write(addr, result);
    }

    /// DEC: decrement memory with 8-bit wrap; Z and N updated.
    pub fn dec(&mut self, mode: &AddressingMode)
        requires
            old(self).wf(),
            resolvable(*mode),
        ensures
            final(self).wf(),
            final(self).st() == dec_spec(old(self).st(), *mode),
    {
        let addr = self.get_operand_address(mode);
        let value = self.mem_read(addr);
        let result = value.wrapping_sub(1);
        self.update_zero_and_negative_flags(result);
        self.mem_write(addr, result);
    }

    // BRANCHES & JUMPS

    /// A branch: when the condition holds, PC moves to the address after
    /// the operand byte plus the sign-extended displacement read at PC;
    /// when it does not, nothing happens here and the dispatcher advances
    /// PC past the operand.
    pub fn branch(&mut self, condition: bool)
        requires
            old(self).wf(),
        ensures
            final(self).wf(),
            final(self).st() == branch_spec(old(self).st(), condition),
    {
        if !condition {
            return ;
        }
        let displacement = self.mem_read(self.program_counter);
        let offset: u16 = if displacement < 0x80 {
            displacement as u16
        } else {
            displacement as u16 + 0xff00
        };
        self.program_counter = self.program_counter.wrapping_add(1).wrapping_add(offset);
    }

    /// JMP: PC takes the effective address.
    pub fn jmp(&mut self, mode: &AddressingMode)
        requires
            old(self).wf(),
            resolvable(*mode),
        ensures
            final(self).wf(),
            final(self).st() == jmp_spec(old(self).st(), *mode),
    {
        self.program_counter = self.get_operand_address(mode);
    }

    /// JSR: push the address of the instruction's last byte (PC + 1, with
    /// PC at the operand) and jump to the operand address.  The jump
    /// proceeds even when the return address could not be pushed.
    pub fn jsr(&mut self, mode: &AddressingMode)
        requires
            old(self).wf(),
            resolvable(*mode),
        ensures
            final(self).wf(),
            final(self).st() == jsr_spec(old(self).st(), *mode),
    {
        let _ = self.push_u16(self.program_counter.wrapping_add(1));
        self.program_counter = self.get_operand_address(mode);
    }

    /// RTS: PC becomes the popped word plus one; a pop that underflows
    /// leaves PC unchanged.
    pub fn rts(&mut self)
        requires
            old(self).wf(),
        ensures
            final(self).wf(),
            final(self).st() == rts_spec(old(self).st()),
    {
        match self.pop_u16() {
            Ok(value) => {
                self.program_counter = value.wrapping_add(1);
            },
            Err(_) => {},
        }
    }

    /// RTI: pop the status word, then pop PC.
    pub fn rti(&mut self)
        requires
            old(self).wf(),
        ensures
            final(self).wf(),
            final(self).st() == rti_spec(old(self).st()),
    {
        match self.pop() {
            Ok(value) => {
                self.status = value;
            },
            Err(_) => {},
        }
        match self.pop_u16() {
            Ok(value) => {
                self.program_counter = value;
            },
            Err(_) => {},
        }
    }

    // STACK OPS

    /// PLA: pop into A, Z and N updated; a pop that underflows leaves A
    /// unchanged.
    pub fn pla(&mut self)
        requires
            old(self).wf(),
        ensures
            final(self).wf(),
            final(self).st() == pla_spec(old(self).st()),
    {
        match self.pop() {
            Ok(value) => {
                self.set_reg_a(value);
            },
            Err(_) => {},
        }
    }

    /// PLP: pop into the status word; a pop that underflows leaves it
    /// unchanged.
    pub fn plp(&mut self)
        requires
            old(self).wf(),
        ensures
            final(self).wf(),
            final(self).st() == plp_spec(old(self).st()),
    {
        match self.pop() {
            Ok(value) => {
                self.status = value;
            },
            Err(_) => {},
        }
    }

    // SYSTEM

    /// BRK: push PC + 1, push P, set the B flag, and load PC from the
    /// IRQ/BRK vector at $FFFE.  The run loop halts after executing it.
    pub fn brk(&mut self)
        requires
            old(self).wf(),
        ensures
            final(self).wf(),
            final(self).st() == brk_spec(old(self).st()),
    {
        let _ = self.push_u16(self.program_counter.wrapping_add(1));
        let _ = self.push(self.status);
        self.set_flag(StatusFlag::Break);
        self.program_counter = self.mem_read_u16(0xfffe);
    }
}

} // verus!
