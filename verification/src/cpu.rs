//! The executable processor: register file, status word, stack discipline,
//! memory model, addressing-mode resolver, and the program loader.  Every
//! method's contract is stated over the ghost [`State`] of
//! [`crate::machine`].

use vstd::prelude::*;

use crate::constants::AddressingMode;
use crate::constants::STACK_OFFSET;
use crate::constants::StackError;
use crate::constants::StatusFlag;
use crate::constants::flag_mask;
use crate::constants::mask_of;
use crate::constants::resolvable;
use crate::machine::MEM_SIZE;
use crate::machine::State;
use crate::machine::flag_set;
use crate::machine::init_state;
use crate::machine::load_mem;
use crate::machine::load_spec;
use crate::machine::operand_addr;
use crate::machine::pop16_state;
use crate::machine::pop8_state;
use crate::machine::push16_spec;
use crate::machine::push8_spec;
use crate::machine::rd;
use crate::machine::rd16;
use crate::machine::reset_spec;
use crate::machine::stk_addr;
use crate::machine::update_zn;
use crate::machine::wr16;

verus! {

/// The processor: accumulator, status word, program counter, index
/// registers, stack pointer, and the flat 64 KiB memory.
pub struct CPU {
    pub reg_a: u8,
    pub status: u8,
    pub program_counter: u16,
    pub reg_x: u8,
    pub reg_y: u8,
    pub stp: u8,
    pub memory: Vec<u8>,
}

impl CPU {
    /// The memory contents, abstracted as a byte sequence.
    pub open spec fn mem(self) -> Seq<u8> {
        self.memory@
    }

    /// The ghost machine state this processor is in.
    pub open spec fn st(self) -> State {
        State {
            a: self.reg_a,
            x: self.reg_x,
            y: self.reg_y,
            p: self.status,
            sp: self.stp,
            pc: self.program_counter,
            mem: self.mem(),
        }
    }

    /// Well-formedness: the memory covers the whole address space.
    pub open spec fn wf(self) -> bool {
        self.st().wf()
    }

    /// A fresh processor: all registers and memory zeroed, S = $FF.
    pub fn new() -> (cpu: CPU)
        ensures
            cpu.wf(),
            cpu.st() == init_state(),
    {
        let mut memory: Vec<u8> = Vec::new();
        let mut i: usize = 0;
        while i < MEM_SIZE
            invariant
                i <= MEM_SIZE,
                memory@.len() == i,
                forall|j: int| 0 <= j < i ==> memory@[j] == 0u8,
            decreases MEM_SIZE - i,
        {
            memory.push(0);
            i += 1;
        }
        let cpu = CPU {
            reg_a: 0,
            status: 0,
            program_counter: 0,
            reg_x: 0,
            reg_y: 0,
            stp: 0xff,
            memory,
        };
        proof {
            assert(cpu.st().mem =~= init_state().mem);
            assert(cpu.st() =~= init_state());
        }
        cpu
    }

    // MEMORY

    /// Read the byte at `addr`; total over the address space.
    pub fn mem_read(&self, addr: u16) -> (v: u8)
        requires
            self.wf(),
        ensures
            v == rd(self.st(), addr),
    {
        self.memory[addr as usize]
    }

    /// Write a byte at `addr`; total over the address space.
    pub fn mem_write(&mut self, addr: u16, data: u8)
        requires
            old(self).wf(),
        ensures
            final(self).wf(),
            final(self).st() == (State {
                mem: old(self).st().mem.update(addr as int, data),
                ..old(self).st()
            }),
    {
        self.memory[addr as usize] = data;
    }

    /// Read the little-endian word at `pos`: low byte at `pos`, high byte
    /// at `pos + 1` (16-bit wrap).
    pub fn mem_read_u16(&self, pos: u16) -> (w: u16)
        requires
            self.wf(),
        ensures
            w == rd16(self.st(), pos),
    {
        let lo = self.mem_read(pos);
        let hi = self.mem_read(pos.wrapping_add(1));
        (hi as u16) * 0x100 + (lo as u16)
    }

    /// Write the little-endian word `data` at `pos`: low byte first, high
    /// byte at `pos + 1` (16-bit wrap).
    pub fn mem_write_u16(&mut self, pos: u16, data: u16)
        requires
            old(self).wf(),
        ensures
            final(self).wf(),
            final(self).st() == (State {
                mem: wr16(old(self).st().mem, pos, data),
                ..old(self).st()
            }),
    {
        let hi = (data / 0x100) as u8;
        let lo = (data % 0x100) as u8;
        self.mem_write(pos, lo);
        self.mem_write(pos.wrapping_add(1), hi);
    }

    // STACK

    /// Push a byte onto the page-$01 descending stack.  A push into a full
    /// stack (S = 0) reports `StackOverflow` and changes nothing.
    pub fn push(&mut self, value: u8) -> (r: Result<(), StackError>)
        requires
            old(self).wf(),
        ensures
            final(self).wf(),
            final(self).st() == push8_spec(old(self).st(), value),
            r is Ok <==> old(self).stp != 0,
            r matches Err(e) ==> e.counter == old(self).program_counter && e.err_msg@
                == "Stack Overflow"@,
    {
        if self.stp == 0 {
            return Err(
                StackError { counter: self.program_counter, err_msg: "Stack Overflow".to_owned() },
            );
        }
        self.stp = self.stp - 1;
        self.mem_write(STACK_OFFSET + self.stp as u16, value);
        Ok(())
    }

    /// Push a little-endian word onto the stack.  A push without two free
    /// bytes (S < 2) reports `StackOverflow` and changes nothing.
    pub fn push_u16(&mut self, value: u16) -> (r: Result<(), StackError>)
        requires
            old(self).wf(),
        ensures
            final(self).wf(),
            final(self).st() == push16_spec(old(self).st(), value),
            r is Ok <==> old(self).stp >= 2,
            r matches Err(e) ==> e.counter == old(self).program_counter && e.err_msg@
                == "Stack Overflow on u16"@,
    {
        if self.stp < 2 {
            return Err(
                StackError {
                    counter: self.program_counter,
                    err_msg: "Stack Overflow on u16".to_owned(),
                },
            );
        }
        self.stp = self.stp - 2;
        self.mem_write_u16(STACK_OFFSET + self.stp as u16, value);
        Ok(())
    }

    /// Pop a byte from the stack.  A pop from an empty stack (S = $FF)
    /// reports `StackUnderflow` and changes nothing.
    pub fn pop(&mut self) -> (r: Result<u8, StackError>)
        requires
            old(self).wf(),
        ensures
            final(self).wf(),
            final(self).st() == pop8_state(old(self).st()),
            r is Ok <==> old(self).stp != 0xff,
            r matches Ok(v) ==> v == rd(old(self).st(), stk_addr(old(self).stp)),
            r matches Err(e) ==> e.counter == old(self).program_counter && e.err_msg@
                == "Stack Underflow"@,
    {
        if self.stp == 0xff {
            return Err(
                StackError { counter: self.program_counter, err_msg: "Stack Underflow".to_owned() },
            );
        }
        let value = self.mem_read(STACK_OFFSET + self.stp as u16);
        self.stp = self.stp + 1;
        Ok(value)
    }

    /// Pop a little-endian word from the stack.  A pop with S = $FE reports
    /// `StackUnderflow` and changes nothing; S is incremented by two with
    /// 8-bit wrap otherwise.
    pub fn pop_u16(&mut self) -> (r: Result<u16, StackError>)
        requires
            old(self).wf(),
        ensures
            final(self).wf(),
            final(self).st() == pop16_state(old(self).st()),
            r is Ok <==> old(self).stp != 0xfe,
            r matches Ok(v) ==> v == rd16(old(self).st(), stk_addr(old(self).stp)),
            r matches Err(e) ==> e.counter == old(self).program_counter && e.err_msg@
                == "Stack Underflow on u16"@,
    {
        if self.stp == 0xfe {
            return Err(
                StackError {
                    counter: self.program_counter,
                    err_msg: "Stack Underflow on u16".to_owned(),
                },
            );
        }
        let value = self.mem_read_u16(STACK_OFFSET + self.stp as u16);
        self.stp = self.stp.wrapping_add(2);
        Ok(value)
    }

    // FLAGS

    /// Set a status flag: bitwise OR with the flag's mask.
    pub fn set_flag(&mut self, flag: StatusFlag)
        ensures
            final(self).st() == (State {
                p: old(self).status | flag_mask(flag),
                ..old(self).st()
            }),
    {
        self.status = self.status | mask_of(flag);
    }

    /// Clear a status flag: bitwise AND with the complement of its mask.
    pub fn clear_flag(&mut self, flag: StatusFlag)
        ensures
            final(self).st() == (State {
                p: old(self).status & !flag_mask(flag),
                ..old(self).st()
            }),
    {
        self.status = self.status & !mask_of(flag);
    }

    /// Test a status flag.
    pub fn check_flag(&self, flag: StatusFlag) -> (r: bool)
        ensures
            r == flag_set(self.status, flag),
    {
        self.status & mask_of(flag) != 0
    }

    /// Assign Z and N from `result`: Z iff it is zero, N its bit 7.  Both
    /// flags are written on every call.
    pub fn update_zero_and_negative_flags(&mut self, result: u8)
        ensures
            final(self).st() == (State { p: update_zn(old(self).status, result), ..old(self).st() }),
    {
        if result == 0 {
            self.set_flag(StatusFlag::Zero);
        } else {
            self.clear_flag(StatusFlag::Zero);
        }
        if result & 0x80 != 0 {
            self.set_flag(StatusFlag::Negative);
        } else {
            self.clear_flag(StatusFlag::Negative);
        }
    }

    // ADDRESSING-MODE RESOLVER

    /// Resolve an addressing mode to an effective address, with PC pointing
    /// at the operand bytes.  Zero-page pointer arithmetic wraps at 8 bits;
    /// absolute indexing wraps at 16 bits.  `Implied`, `Accumulator` and
    /// `Relative` carry no effective address and are refused by the
    /// precondition.
    pub fn get_operand_address(&self, mode: &AddressingMode) -> (addr: u16)
        requires
            self.wf(),
            resolvable(*mode),
        ensures
            addr == operand_addr(self.st(), *mode),
    {
        match mode {
            AddressingMode::Immediate => self.program_counter,
            AddressingMode::ZeroPage => self.mem_read(self.program_counter) as u16,
            AddressingMode::Absolute => self.mem_read_u16(self.program_counter),
            AddressingMode::ZeroPage_X => {
                let pos = self.mem_read(self.program_counter);
                pos.wrapping_add(self.reg_x) as u16
            },
            AddressingMode::ZeroPage_Y => {
                let pos = self.mem_read(self.program_counter);
                pos.wrapping_add(self.reg_y) as u16
            },
            AddressingMode::Absolute_X => {
                let base = self.mem_read_u16(self.program_counter);
                base.wrapping_add(self.reg_x as u16)
            },
            AddressingMode::Absolute_Y => {
                let base = self.mem_read_u16(self.program_counter);
                base.wrapping_add(self.reg_y as u16)
            },
            AddressingMode::Indirect => {
                let ptr = self.mem_read_u16(self.program_counter);
                self.mem_read_u16(ptr)
            },
            AddressingMode::Indirect_X => {
                let base = self.mem_read(self.program_counter);
                let ptr = base.wrapping_add(self.reg_x);
                let lo = self.mem_read(ptr as u16);
                let hi = self.mem_read(ptr.wrapping_add(1) as u16);
                (hi as u16) * 0x100 + (lo as u16)
            },
            AddressingMode::Indirect_Y => {
                let base = self.mem_read(self.program_counter);
                let lo = self.mem_read(base as u16);
                let hi = self.mem_read(base.wrapping_add(1) as u16);
                let deref_base = (hi as u16) * 0x100 + (lo as u16);
                deref_base.wrapping_add(self.reg_y as u16)
            },
            _ => 0,
        }
    }

    // LOADER & RESET

    /// Reset: A, X and the status word are zeroed (Y and S keep their
    /// values) and PC is loaded from the reset vector at $FFFC.
    pub fn reset(&mut self)
        requires
            old(self).wf(),
        ensures
            final(self).wf(),
            final(self).st() == reset_spec(old(self).st()),
    {
        self.reg_a = 0;
        self.reg_x = 0;
        self.status = 0;
        self.program_counter = self.mem_read_u16(0xfffc);
    }

    /// Copy a program into memory at $8000 and point the reset vector at
    /// $FFFC there.  Programs longer than $8000 − 1 bytes are out of scope.
    pub fn load(&mut self, program: Vec<u8>)
        requires
            old(self).wf(),
            program@.len() <= 0x7fff,
        ensures
            final(self).wf(),
            final(self).st() == load_spec(old(self).st(), program@),
    {
        let ghost pre = self.st();
        let mut i: usize = 0;
        while i < program.len()
            invariant
                self.wf(),
                i <= program@.len() <= 0x7fff,
                self.st() == (State {
                    mem: pre.mem.map(
                        |j: int, b: u8|
                            if 0x8000 <= j < 0x8000 + i {
                                program@[j - 0x8000]
                            } else {
                                b
                            },
                    ),
                    ..pre
                }),
            decreases program@.len() - i,
        {
            self.mem_write((0x8000 + i) as u16, program[i]);
            i += 1;
            proof {
                let m1 = pre.mem.map(
                    |j: int, b: u8|
                        if 0x8000 <= j < 0x8000 + (i - 1) {
                            program@[j - 0x8000]
                        } else {
                            b
                        },
                ).update(0x8000 + (i - 1), program@[i - 1]);
                let m2 = pre.mem.map(
                    |j: int, b: u8|
                        if 0x8000 <= j < 0x8000 + i {
                            program@[j - 0x8000]
                        } else {
                            b
                        },
                );
                assert(m1 =~= m2);
            }
        }
        proof {
            assert(self.st().mem =~= pre.mem.map(
                |j: int, b: u8|
                    if 0x8000 <= j < 0x8000 + program@.len() {
                        program@[j - 0x8000]
                    } else {
                        b
                    },
            ));
        }
        self.mem_write_u16(0xfffc, 0x8000);
        proof {
            assert(self.st().mem =~= load_mem(pre.mem, program@));
            assert(self.st() =~= load_spec(pre, program@));
        }
    }
}

} // verus!
