//! The dispatcher and run loop: fetch the opcode byte at PC, look it up in
//! the table, execute the handler, and advance PC past the operand bytes
//! for non-control-flow instructions, until a BRK is executed or an
//! unsupported opcode is fetched.

use vstd::prelude::*;

use crate::constants::Mnemonic;
use crate::constants::OpCode;
use crate::constants::StatusFlag;
use crate::constants::find_opcode;
use crate::constants::lemma_opcode_table_wf;
use crate::constants::mode_ok;
use crate::constants::opcode_spec;
use crate::cpu::CPU;
use crate::machine::State;
use crate::machine::add16;
use crate::machine::exec_instr;
use crate::machine::instr_effect;
use crate::machine::lemma_step_reaches;
use crate::machine::load_spec;
use crate::machine::rd;
use crate::machine::reaches;
use crate::machine::reset_spec;
use crate::machine::run_spec;
use crate::machine::step_spec;
use crate::machine::steps;

verus! {

/// The mnemonics whose handler takes a memory operand and whose dispatch
/// then advances PC past the operand bytes.
pub open spec fn is_operand_instr(m: Mnemonic) -> bool {
    match m {
        Mnemonic::LDA | Mnemonic::LDX | Mnemonic::LDY
        | Mnemonic::STA | Mnemonic::STX | Mnemonic::STY
        | Mnemonic::ADC | Mnemonic::SBC
        | Mnemonic::AND | Mnemonic::EOR | Mnemonic::ORA
        | Mnemonic::ASL | Mnemonic::LSR | Mnemonic::ROL | Mnemonic::ROR
        | Mnemonic::BIT | Mnemonic::CMP | Mnemonic::CPX | Mnemonic::CPY
        | Mnemonic::INC | Mnemonic::DEC => true,
        _ => false,
    }
}

/// The load and store mnemonics.
pub open spec fn is_load_store_instr(m: Mnemonic) -> bool {
    match m {
        Mnemonic::LDA | Mnemonic::LDX | Mnemonic::LDY
        | Mnemonic::STA | Mnemonic::STX | Mnemonic::STY => true,
        _ => false,
    }
}

/// The arithmetic, bitwise, compare and bit-test mnemonics: they combine
/// the operand with a register and write flags.
pub open spec fn is_alu_instr(m: Mnemonic) -> bool {
    match m {
        Mnemonic::ADC | Mnemonic::SBC
        | Mnemonic::AND | Mnemonic::EOR | Mnemonic::ORA
        | Mnemonic::CMP | Mnemonic::CPX | Mnemonic::CPY | Mnemonic::BIT => true,
        _ => false,
    }
}

/// The read-modify-write mnemonics: shifts, rotates, and memory increment
/// and decrement.
pub open spec fn is_rmw_instr(m: Mnemonic) -> bool {
    match m {
        Mnemonic::ASL | Mnemonic::LSR | Mnemonic::ROL | Mnemonic::ROR
        | Mnemonic::INC | Mnemonic::DEC => true,
        _ => false,
    }
}

/// The implied-mode mnemonics: register transfers, register increments and
/// decrements, flag operations, stack pushes and pops, and NOP.
pub open spec fn is_register_instr(m: Mnemonic) -> bool {
    match m {
        Mnemonic::TAX | Mnemonic::TAY | Mnemonic::TXA | Mnemonic::TYA
        | Mnemonic::TSX | Mnemonic::TXS
        | Mnemonic::INX | Mnemonic::INY | Mnemonic::DEX | Mnemonic::DEY
        | Mnemonic::CLC | Mnemonic::SEC | Mnemonic::CLD | Mnemonic::SED
        | Mnemonic::CLI | Mnemonic::SEI | Mnemonic::CLV
        | Mnemonic::PHA | Mnemonic::PHP | Mnemonic::PLA | Mnemonic::PLP
        | Mnemonic::NOP => true,
        _ => false,
    }
}

/// The control-flow mnemonics: branches, jumps, returns, and BRK.
pub open spec fn is_control_instr(m: Mnemonic) -> bool {
    match m {
        Mnemonic::BCC | Mnemonic::BCS | Mnemonic::BEQ | Mnemonic::BNE
        | Mnemonic::BMI | Mnemonic::BPL | Mnemonic::BVS | Mnemonic::BVC
        | Mnemonic::JMP | Mnemonic::JSR | Mnemonic::RTS | Mnemonic::RTI
        | Mnemonic::BRK => true,
        _ => false,
    }
}

impl CPU {
    /// Advance PC past the operand bytes of an instruction of the given
    /// length, with 16-bit wrap: the dispatcher's step 5 for
    /// non-control-flow instructions.
    fn advance_past_operands(&mut self, length: u8)
        requires
            length >= 1,
        ensures
            final(self).st() == (State {
                pc: add16(old(self).program_counter, (length - 1) as u16),
                ..old(self).st()
            }),
    {
        self.program_counter = self.program_counter.wrapping_add((length - 1) as u16);
    }

    /// Execute a load or store instruction, PC at the operand bytes, and
    /// advance PC past them.
    #[verifier::rlimit(60)]
    fn exec_load_store_instr(&mut self, op: OpCode)
        requires
            old(self).wf(),
            is_load_store_instr(op.mnemonic),
            mode_ok(op.mnemonic, op.mode),
            op.length >= 1,
        ensures
            final(self).wf(),
            final(self).st() == instr_effect(old(self).st(), op),
    {
        let mode = op.mode;
        match op.mnemonic {
            Mnemonic::LDA => {
                self.lda(&mode);
                self.advance_past_operands(op.length);
                proof {
                    assert(self.st() =~= instr_effect(old(self).st(), op));
                }
            },
            Mnemonic::LDX => {
                self.ldx(&mode);
                self.advance_past_operands(op.length);
                proof {
                    assert(self.st() =~= instr_effect(old(self).st(), op));
                }
            },
            Mnemonic::LDY => {
                self.ldy(&mode);
                self.advance_past_operands(op.length);
                proof {
                    assert(self.st() =~= instr_effect(old(self).st(), op));
                }
            },
            Mnemonic::STA => {
                self.sta(&mode);
                self.advance_past_operands(op.length);
                proof {
                    assert(self.st() =~= instr_effect(old(self).st(), op));
                }
            },
            Mnemonic::STX => {
                self.stx(&mode);
                self.advance_past_operands(op.length);
                proof {
                    assert(self.st() =~= instr_effect(old(self).st(), op));
                }
            },
            Mnemonic::STY => {
                self.sty(&mode);
                self.advance_past_operands(op.length);
                proof {
                    assert(self.st() =~= instr_effect(old(self).st(), op));
                }
            },
            _ => {
                proof {
                    assert(false);
                }
            },
        }
    }

    /// Execute a arithmetic, bitwise, compare or bit-test instruction, PC at the operand bytes, and
    /// advance PC past them.
    #[verifier::rlimit(60)]
    fn exec_alu_instr(&mut self, op: OpCode)
        requires
            old(self).wf(),
            is_alu_instr(op.mnemonic),
            mode_ok(op.mnemonic, op.mode),
            op.length >= 1,
        ensures
            final(self).wf(),
            final(self).st() == instr_effect(old(self).st(), op),
    {
        let mode = op.mode;
        match op.mnemonic {
            Mnemonic::ADC => {
                self.adc(&mode);
                self.advance_past_operands(op.length);
                proof {
                    assert(self.st() =~= instr_effect(old(self).st(), op));
                }
            },
            Mnemonic::SBC => {
                self.sbc(&mode);
                self.advance_past_operands(op.length);
                proof {
                    assert(self.st() =~= instr_effect(old(self).st(), op));
                }
            },
            Mnemonic::AND => {
                self.and(&mode);
                self.advance_past_operands(op.length);
                proof {
                    assert(self.st() =~= instr_effect(old(self).st(), op));
                }
            },
            Mnemonic::EOR => {
                self.eor(&mode);
                self.advance_past_operands(op.length);
                proof {
                    assert(self.st() =~= instr_effect(old(self).st(), op));
                }
            },
            Mnemonic::ORA => {
                self.ora(&mode);
                self.advance_past_operands(op.length);
                proof {
                    assert(self.st() =~= instr_effect(old(self).st(), op));
                }
            },
            Mnemonic::CMP => {
                let reg = self.reg_a;
                self.cmp(&mode, reg);
                self.advance_past_operands(op.length);
                proof {
                    assert(self.st() =~= instr_effect(old(self).st(), op));
                }
            },
            Mnemonic::CPX => {
                let reg = self.reg_x;
                self.cmp(&mode, reg);
                self.advance_past_operands(op.length);
                proof {
                    assert(self.st() =~= instr_effect(old(self).st(), op));
                }
            },
            Mnemonic::CPY => {
                let reg = self.reg_y;
                self.cmp(&mode, reg);
                self.advance_past_operands(op.length);
                proof {
                    assert(self.st() =~= instr_effect(old(self).st(), op));
                }
            },
            Mnemonic::BIT => {
                self.bit(&mode);
                self.advance_past_operands(op.length);
                proof {
                    assert(self.st() =~= instr_effect(old(self).st(), op));
                }
            },
            _ => {
                proof {
                    assert(false);
                }
            },
        }
    }

    /// Execute a read-modify-write instruction, PC at the operand bytes, and
    /// advance PC past them.
    #[verifier::rlimit(60)]
    fn exec_rmw_instr(&mut self, op: OpCode)
        requires
            old(self).wf(),
            is_rmw_instr(op.mnemonic),
            mode_ok(op.mnemonic, op.mode),
            op.length >= 1,
        ensures
            final(self).wf(),
            final(self).st() == instr_effect(old(self).st(), op),
    {
        let mode = op.mode;
        match op.mnemonic {
            Mnemonic::ASL => {
                self.asl(&mode);
                self.advance_past_operands(op.length);
                proof {
                    assert(self.st() =~= instr_effect(old(self).st(), op));
                }
            },
            Mnemonic::LSR => {
                self.lsr(&mode);
                self.advance_past_operands(op.length);
                proof {
                    assert(self.st() =~= instr_effect(old(self).st(), op));
                }
            },
            Mnemonic::ROL => {
                self.rol(&mode);
                self.advance_past_operands(op.length);
                proof {
                    assert(self.st() =~= instr_effect(old(self).st(), op));
                }
            },
            Mnemonic::ROR => {
                self.ror(&mode);
                self.advance_past_operands(op.length);
                proof {
                    assert(self.st() =~= instr_effect(old(self).st(), op));
                }
            },
            Mnemonic::INC => {
                self.inc(&mode);
                self.advance_past_operands(op.length);
                proof {
                    assert(self.st() =~= instr_effect(old(self).st(), op));
                }
            },
            Mnemonic::DEC => {
                self.dec(&mode);
                self.advance_past_operands(op.length);
                proof {
                    assert(self.st() =~= instr_effect(old(self).st(), op));
                }
            },
            _ => {
                proof {
                    assert(false);
                }
            },
        }
    }

    /// Execute a memory-operand instruction, PC at the operand bytes, and
    /// advance PC past them.
    fn exec_operand_instr(&mut self, op: OpCode)
        requires
            old(self).wf(),
            is_operand_instr(op.mnemonic),
            mode_ok(op.mnemonic, op.mode),
            op.length >= 1,
        ensures
            final(self).wf(),
            final(self).st() == instr_effect(old(self).st(), op),
    {
        if matches!(
            op.mnemonic,
            Mnemonic::LDA | Mnemonic::LDX | Mnemonic::LDY | Mnemonic::STA | Mnemonic::STX
                | Mnemonic::STY,
        ) {
            self.exec_load_store_instr(op);
        } else if matches!(
            op.mnemonic,
            Mnemonic::ADC | Mnemonic::SBC | Mnemonic::AND | Mnemonic::EOR | Mnemonic::ORA
                | Mnemonic::CMP | Mnemonic::CPX | Mnemonic::CPY | Mnemonic::BIT,
        ) {
            self.exec_alu_instr(op);
        } else {
            self.exec_rmw_instr(op);
        }
    }

    /// Execute an implied-mode instruction on the registers, flags or
    /// stack; PC needs no further advance.
    #[verifier::rlimit(60)]
    fn exec_register_instr(&mut self, op: OpCode)
        requires
            old(self).wf(),
            is_register_instr(op.mnemonic),
        ensures
            final(self).wf(),
            final(self).st() == instr_effect(old(self).st(), op),
    {
        match op.mnemonic {
            Mnemonic::TAX => {
                self.tax();
            },
            Mnemonic::TAY => {
                self.tay();
            },
            Mnemonic::TXA => {
                self.txa();
            },
            Mnemonic::TYA => {
                self.tya();
            },
            Mnemonic::TSX => {
                self.tsx();
            },
            Mnemonic::TXS => {
                self.txs();
            },
            Mnemonic::INX => {
                self.inx();
            },
            Mnemonic::INY => {
                self.iny();
            },
            Mnemonic::DEX => {
                self.dex();
            },
            Mnemonic::DEY => {
                self.dey();
            },
            Mnemonic::CLC => {
                self.clear_flag(StatusFlag::Carry);
            },
            Mnemonic::SEC => {
                self.set_flag(StatusFlag::Carry);
            },
            Mnemonic::CLD => {
                self.clear_flag(StatusFlag::DecimalMode);
            },
            Mnemonic::SED => {
                self.set_flag(StatusFlag::DecimalMode);
            },
            Mnemonic::CLI => {
                self.clear_flag(StatusFlag::InterruptDisable);
            },
            Mnemonic::SEI => {
                self.set_flag(StatusFlag::InterruptDisable);
            },
            Mnemonic::CLV => {
                self.clear_flag(StatusFlag::Overflow);
            },
            Mnemonic::PHA => {
                let _ = self.push(self.reg_a);
            },
            Mnemonic::PHP => {
                let _ = self.push(self.status);
            },
            Mnemonic::PLA => {
                self.pla();
            },
            Mnemonic::PLP => {
                self.plp();
            },
            Mnemonic::NOP => {},
            _ => {
                proof {
                    assert(false);
                }
            },
        }
        proof {
            assert(self.st() =~= instr_effect(old(self).st(), op));
        }
    }

    /// Execute a control-flow instruction: branches advance PC past the
    /// operand only when not taken; jumps, returns and BRK set PC
    /// themselves.
    #[verifier::rlimit(60)]
    fn exec_control_instr(&mut self, op: OpCode)
        requires
            old(self).wf(),
            is_control_instr(op.mnemonic),
            mode_ok(op.mnemonic, op.mode),
            op.length >= 1,
        ensures
            final(self).wf(),
            final(self).st() == instr_effect(old(self).st(), op),
    {
        let mode = op.mode;
        match op.mnemonic {
            Mnemonic::BCC => {
                let taken = !self.check_flag(StatusFlag::Carry);
                self.branch(taken);
                if !taken {
                    self.advance_past_operands(op.length);
                }
            },
            Mnemonic::BCS => {
                let taken = self.check_flag(StatusFlag::Carry);
                self.branch(taken);
                if !taken {
                    self.advance_past_operands(op.length);
                }
            },
            Mnemonic::BEQ => {
                let taken = self.check_flag(StatusFlag::Zero);
                self.branch(taken);
                if !taken {
                    self.advance_past_operands(op.length);
                }
            },
            Mnemonic::BNE => {
                let taken = !self.check_flag(StatusFlag::Zero);
                self.branch(taken);
                if !taken {
                    self.advance_past_operands(op.length);
                }
            },
            Mnemonic::BMI => {
                let taken = self.check_flag(StatusFlag::Negative);
                self.branch(taken);
                if !taken {
                    self.advance_past_operands(op.length);
                }
            },
            Mnemonic::BPL => {
                let taken = !self.check_flag(StatusFlag::Negative);
                self.branch(taken);
                if !taken {
                    self.advance_past_operands(op.length);
                }
            },
            Mnemonic::BVS => {
                let taken = self.check_flag(StatusFlag::Overflow);
                self.branch(taken);
                if !taken {
                    self.advance_past_operands(op.length);
                }
            },
            Mnemonic::BVC => {
                let taken = !self.check_flag(StatusFlag::Overflow);
                self.branch(taken);
                if !taken {
                    self.advance_past_operands(op.length);
                }
            },
            Mnemonic::JMP => {
                self.jmp(&mode);
            },
            Mnemonic::JSR => {
                self.jsr(&mode);
            },
            Mnemonic::RTS => {
                self.rts();
            },
            Mnemonic::RTI => {
                self.rti();
            },
            Mnemonic::BRK => {
                self.brk();
            },
            _ => {
                proof {
                    assert(false);
                }
            },
        }
        proof {
            assert(self.st() =~= instr_effect(old(self).st(), op));
        }
    }

    /// Fetch and execute the single instruction at PC.  Returns true when
    /// the run loop must stop: after executing a BRK, or on an unsupported
    /// opcode byte (a fatal fault that leaves the state unchanged).
    pub fn step(&mut self) -> (halted: bool)
        requires
            old(self).wf(),
        ensures
            final(self).wf(),
            opcode_spec(rd(old(self).st(), old(self).program_counter)) is None ==> halted
                && final(self).st() == old(self).st(),
            (opcode_spec(rd(old(self).st(), old(self).program_counter)) matches Some(op) ==> {
                &&& final(self).st() == exec_instr(old(self).st(), op)
                &&& (halted <==> op.mnemonic == Mnemonic::BRK)
            }),
    {
        let opcode_val = self.mem_read(self.program_counter);
        let op = match find_opcode(opcode_val) {
            Some(op) => op,
            None => {
                return true;
            },
        };
        proof {
            lemma_opcode_table_wf(opcode_val);
        }
        self.program_counter = self.program_counter.wrapping_add(1);
        if matches!(
            op.mnemonic,
            Mnemonic::BCC | Mnemonic::BCS | Mnemonic::BEQ | Mnemonic::BNE | Mnemonic::BMI
                | Mnemonic::BPL | Mnemonic::BVS | Mnemonic::BVC | Mnemonic::JMP | Mnemonic::JSR
                | Mnemonic::RTS | Mnemonic::RTI | Mnemonic::BRK,
        ) {
            self.exec_control_instr(op);
        } else if matches!(
            op.mnemonic,
            Mnemonic::TAX | Mnemonic::TAY | Mnemonic::TXA | Mnemonic::TYA | Mnemonic::TSX
                | Mnemonic::TXS | Mnemonic::INX | Mnemonic::INY | Mnemonic::DEX | Mnemonic::DEY
                | Mnemonic::CLC | Mnemonic::SEC | Mnemonic::CLD | Mnemonic::SED | Mnemonic::CLI
                | Mnemonic::SEI | Mnemonic::CLV | Mnemonic::PHA | Mnemonic::PHP | Mnemonic::PLA
                | Mnemonic::PLP | Mnemonic::NOP,
        ) {
            self.exec_register_instr(op);
        } else {
            self.exec_operand_instr(op);
        }
        matches!(op.mnemonic, Mnemonic::BRK)
    }

    /// Drive the dispatcher until a BRK is executed or an unsupported
    /// opcode is fetched.  The final state is then precisely the outcome of
    /// the abstract run loop [`run_spec`] started at the entry state.  A
    /// program that never halts is cut off after 2^64 − 1 instructions, in
    /// which case the final state is the one after exactly that many steps.
    pub fn run(&mut self)
        requires
            old(self).wf(),
        ensures
            final(self).wf(),
            reaches(old(self).st(), final(self).st()) || final(self).st() == steps(
                old(self).st(),
                u64::MAX as nat,
            ),
    {
        let ghost entry = self.st();
        let mut fuel: u64 = u64::MAX;
        loop
            invariant
                entry == old(self).st(),
                self.wf(),
                self.st() == steps(entry, (u64::MAX - fuel) as nat),
                forall|r: State| reaches(self.st(), r) ==> reaches(entry, r),
            decreases fuel,
        {
            if fuel == 0 {
                return ;
            }
            let ghost prev = self.st();
            let halted = self.step();
            fuel = fuel - 1;
            if halted {
                proof {
                    assert(run_spec(prev, 0) == Some(self.st()));
                    assert(reaches(prev, self.st()));
                }
                return ;
            }
            proof {
                assert(steps(entry, (u64::MAX - fuel) as nat) == step_spec(prev));
                assert forall|r: State| reaches(self.st(), r) implies reaches(entry, r) by {
                    lemma_step_reaches(prev, r);
                }
            }
        }
    }

    /// Load a program at $8000, reset, and run to the halt.
    pub fn load_and_run(&mut self, program: Vec<u8>)
        requires
            old(self).wf(),
            program@.len() <= 0x7fff,
        ensures
            final(self).wf(),
            ({
                let started = reset_spec(load_spec(old(self).st(), program@));
                reaches(started, final(self).st()) || final(self).st() == steps(
                    started,
                    u64::MAX as nat,
                )
            }),
    {
        self.load(program);
        self.reset();
        self.run()
    }
}

} // verus!
