//! Static description of the instruction set: status-flag bit positions,
//! addressing modes, mnemonics, and the opcode table that maps each supported
//! opcode byte to its record.

use vstd::prelude::*;

verus! {

/// Base address of the page-$01 descending stack.
pub const STACK_OFFSET: u16 = 0x100;

/// The named bits of the 8-bit status word P (bit 0 = LSB):
/// C=0, Z=1, I=2, D=3, B=4, U=5, V=6, N=7.
#[derive(Clone, Copy, Debug, PartialEq, Eq, Structural)]
pub enum StatusFlag {
    Carry,
    Zero,
    InterruptDisable,
    DecimalMode,
    Break,
    Unused,
    Overflow,
    Negative,
}

/// The single-bit mask of a status flag within the status word.
pub open spec fn flag_mask(flag: StatusFlag) -> u8 {
    match flag {
        StatusFlag::Carry => 0x01,
        StatusFlag::Zero => 0x02,
        StatusFlag::InterruptDisable => 0x04,
        StatusFlag::DecimalMode => 0x08,
        StatusFlag::Break => 0x10,
        StatusFlag::Unused => 0x20,
        StatusFlag::Overflow => 0x40,
        StatusFlag::Negative => 0x80,
    }
}

/// Executable counterpart of [`flag_mask`].
pub fn mask_of(flag: StatusFlag) -> (m: u8)
    ensures
        m == flag_mask(flag),
{
    match flag {
        StatusFlag::Carry => 0x01,
        StatusFlag::Zero => 0x02,
        StatusFlag::InterruptDisable => 0x04,
        StatusFlag::DecimalMode => 0x08,
        StatusFlag::Break => 0x10,
        StatusFlag::Unused => 0x20,
        StatusFlag::Overflow => 0x40,
        StatusFlag::Negative => 0x80,
    }
}

/// A recoverable stack fault: a push into a full stack or a pop from an
/// empty one.  It carries the program counter at which it occurred and a
/// short message; execution continues and the failing push or pop has no
/// effect.
#[derive(Debug, Clone)]
pub struct StackError {
    pub counter: u16,
    pub err_msg: String,
}

/// How an instruction names its operand.  `Accumulator` marks the
/// shift/rotate forms that target register A rather than memory; `Implied`
/// instructions take no operand at all; `Relative` is the branch
/// displacement, resolved by the branch handler rather than the resolver.
#[allow(non_camel_case_types)]
#[derive(Clone, Copy, Debug, PartialEq, Eq, Structural)]
pub enum AddressingMode {
    Immediate,
    ZeroPage,
    ZeroPage_X,
    ZeroPage_Y,
    Absolute,
    Absolute_X,
    Absolute_Y,
    Indirect,
    Indirect_X,
    Indirect_Y,
    Relative,
    Accumulator,
    Implied,
}

/// The instruction mnemonics the emulator supports, one handler each.
#[derive(Clone, Copy, Debug, PartialEq, Eq, Structural)]
pub enum Mnemonic {
    ADC,
    AND,
    ASL,
    BCC,
    BCS,
    BEQ,
    BIT,
    BMI,
    BNE,
    BPL,
    BRK,
    BVC,
    BVS,
    CLC,
    CLD,
    CLI,
    CLV,
    CMP,
    CPX,
    CPY,
    DEC,
    DEX,
    DEY,
    EOR,
    INC,
    INX,
    INY,
    JMP,
    JSR,
    LDA,
    LDX,
    LDY,
    LSR,
    NOP,
    ORA,
    PHA,
    PHP,
    PLA,
    PLP,
    ROL,
    ROR,
    RTI,
    RTS,
    SBC,
    SEC,
    SED,
    SEI,
    STA,
    STX,
    STY,
    TAX,
    TAY,
    TSX,
    TXA,
    TXS,
    TYA,
}

/// One row of the opcode table: the opcode byte, the handler it selects,
/// the instruction length in bytes (opcode + operand bytes), the base cycle
/// count (informational), and the addressing mode.
#[derive(Clone, Copy, Debug, PartialEq, Eq, Structural)]
pub struct OpCode {
    pub code: u8,
    pub mnemonic: Mnemonic,
    pub length: u8,
    pub base_cycles: u8,
    pub mode: AddressingMode,
}

/// True of the modes the addressing-mode resolver accepts: every mode that
/// yields an effective address.  `Implied` has no operand, `Accumulator`
/// targets a register, and `Relative` is handled by the branch logic.
pub open spec fn resolvable(mode: AddressingMode) -> bool {
    match mode {
        AddressingMode::Implied => false,
        AddressingMode::Accumulator => false,
        AddressingMode::Relative => false,
        _ => true,
    }
}

/// The addressing modes under which a mnemonic's handler is well defined:
/// memory-operand instructions need a resolvable mode, read-modify-write
/// shifts additionally accept `Accumulator` but never `Immediate`, branches
/// use `Relative`, and implied instructions ignore the mode.
pub open spec fn mode_ok(m: Mnemonic, mode: AddressingMode) -> bool {
    match m {
        Mnemonic::LDA | Mnemonic::LDX | Mnemonic::LDY
        | Mnemonic::STA | Mnemonic::STX | Mnemonic::STY
        | Mnemonic::ADC | Mnemonic::SBC
        | Mnemonic::AND | Mnemonic::EOR | Mnemonic::ORA
        | Mnemonic::CMP | Mnemonic::CPX | Mnemonic::CPY
        | Mnemonic::BIT | Mnemonic::INC | Mnemonic::DEC
        | Mnemonic::JMP | Mnemonic::JSR => resolvable(mode),
        Mnemonic::ASL | Mnemonic::LSR | Mnemonic::ROL | Mnemonic::ROR => {
            mode == AddressingMode::Accumulator
                || (resolvable(mode) && mode != AddressingMode::Immediate)
        },
        Mnemonic::BCC | Mnemonic::BCS | Mnemonic::BEQ | Mnemonic::BNE
        | Mnemonic::BMI | Mnemonic::BPL | Mnemonic::BVS | Mnemonic::BVC => {
            mode == AddressingMode::Relative
        },
        _ => mode == AddressingMode::Implied,
    }
}

/// The opcode table as a total map from opcode byte to record: the sole
/// source of truth for instruction length, addressing mode, and handler
/// selection.  Unsupported opcode bytes map to `None`.
#[verifier::opaque]
pub open spec fn opcode_spec(code: u8) -> Option<OpCode> {
    match code {
        0x00 => Some(OpCode { code: 0x00, mnemonic: Mnemonic::BRK, length: 1, base_cycles: 7, mode: AddressingMode::Implied }),
        0x01 => Some(OpCode { code: 0x01, mnemonic: Mnemonic::ORA, length: 2, base_cycles: 6, mode: AddressingMode::Indirect_X }),
        0x05 => Some(OpCode { code: 0x05, mnemonic: Mnemonic::ORA, length: 2, base_cycles: 3, mode: AddressingMode::ZeroPage }),
        0x06 => Some(OpCode { code: 0x06, mnemonic: Mnemonic::ASL, length: 2, base_cycles: 5, mode: AddressingMode::ZeroPage }),
        0x08 => Some(OpCode { code: 0x08, mnemonic: Mnemonic::PHP, length: 1, base_cycles: 4, mode: AddressingMode::Implied }),
        0x09 => Some(OpCode { code: 0x09, mnemonic: Mnemonic::ORA, length: 2, base_cycles: 2, mode: AddressingMode::Immediate }),
        0x0a => Some(OpCode { code: 0x0a, mnemonic: Mnemonic::ASL, length: 1, base_cycles: 2, mode: AddressingMode::Accumulator }),
        0x0d => Some(OpCode { code: 0x0d, mnemonic: Mnemonic::ORA, length: 3, base_cycles: 4, mode: AddressingMode::Absolute }),
        0x0e => Some(OpCode { code: 0x0e, mnemonic: Mnemonic::ASL, length: 3, base_cycles: 6, mode: AddressingMode::Absolute }),
        0x10 => Some(OpCode { code: 0x10, mnemonic: Mnemonic::BPL, length: 2, base_cycles: 2, mode: AddressingMode::Relative }),
        0x11 => Some(OpCode { code: 0x11, mnemonic: Mnemonic::ORA, length: 2, base_cycles: 5, mode: AddressingMode::Indirect_Y }),
        0x15 => Some(OpCode { code: 0x15, mnemonic: Mnemonic::ORA, length: 2, base_cycles: 4, mode: AddressingMode::ZeroPage_X }),
        0x16 => Some(OpCode { code: 0x16, mnemonic: Mnemonic::ASL, length: 2, base_cycles: 6, mode: AddressingMode::ZeroPage_X }),
        0x18 => Some(OpCode { code: 0x18, mnemonic: Mnemonic::CLC, length: 1, base_cycles: 2, mode: AddressingMode::Implied }),
        0x19 => Some(OpCode { code: 0x19, mnemonic: Mnemonic::ORA, length: 3, base_cycles: 4, mode: AddressingMode::Absolute_Y }),
        0x1d => Some(OpCode { code: 0x1d, mnemonic: Mnemonic::ORA, length: 3, base_cycles: 4, mode: AddressingMode::Absolute_X }),
        0x1e => Some(OpCode { code: 0x1e, mnemonic: Mnemonic::ASL, length: 3, base_cycles: 7, mode: AddressingMode::Absolute_X }),
        0x20 => Some(OpCode { code: 0x20, mnemonic: Mnemonic::JSR, length: 3, base_cycles: 3, mode: AddressingMode::Absolute }),
        0x21 => Some(OpCode { code: 0x21, mnemonic: Mnemonic::AND, length: 2, base_cycles: 6, mode: AddressingMode::Indirect_X }),
        0x24 => Some(OpCode { code: 0x24, mnemonic: Mnemonic::BIT, length: 2, base_cycles: 3, mode: AddressingMode::ZeroPage }),
        0x25 => Some(OpCode { code: 0x25, mnemonic: Mnemonic::AND, length: 2, base_cycles: 3, mode: AddressingMode::ZeroPage }),
        0x26 => Some(OpCode { code: 0x26, mnemonic: Mnemonic::ROL, length: 2, base_cycles: 5, mode: AddressingMode::ZeroPage }),
        0x28 => Some(OpCode { code: 0x28, mnemonic: Mnemonic::PLP, length: 1, base_cycles: 4, mode: AddressingMode::Implied }),
        0x29 => Some(OpCode { code: 0x29, mnemonic: Mnemonic::AND, length: 2, base_cycles: 2, mode: AddressingMode::Immediate }),
        0x2a => Some(OpCode { code: 0x2a, mnemonic: Mnemonic::ROL, length: 1, base_cycles: 2, mode: AddressingMode::Accumulator }),
        0x2c => Some(OpCode { code: 0x2c, mnemonic: Mnemonic::BIT, length: 3, base_cycles: 4, mode: AddressingMode::Absolute }),
        0x2d => Some(OpCode { code: 0x2d, mnemonic: Mnemonic::AND, length: 3, base_cycles: 4, mode: AddressingMode::Absolute }),
        0x2e => Some(OpCode { code: 0x2e, mnemonic: Mnemonic::ROL, length: 3, base_cycles: 6, mode: AddressingMode::Absolute }),
        0x30 => Some(OpCode { code: 0x30, mnemonic: Mnemonic::BMI, length: 2, base_cycles: 2, mode: AddressingMode::Relative }),
        0x31 => Some(OpCode { code: 0x31, mnemonic: Mnemonic::AND, length: 2, base_cycles: 5, mode: AddressingMode::Indirect_Y }),
        0x35 => Some(OpCode { code: 0x35, mnemonic: Mnemonic::AND, length: 2, base_cycles: 4, mode: AddressingMode::ZeroPage_X }),
        0x36 => Some(OpCode { code: 0x36, mnemonic: Mnemonic::ROL, length: 2, base_cycles: 6, mode: AddressingMode::ZeroPage_X }),
        0x38 => Some(OpCode { code: 0x38, mnemonic: Mnemonic::SEC, length: 1, base_cycles: 2, mode: AddressingMode::Implied }),
        0x39 => Some(OpCode { code: 0x39, mnemonic: Mnemonic::AND, length: 3, base_cycles: 4, mode: AddressingMode::Absolute_Y }),
        0x3d => Some(OpCode { code: 0x3d, mnemonic: Mnemonic::AND, length: 3, base_cycles: 4, mode: AddressingMode::Absolute_X }),
        0x3e => Some(OpCode { code: 0x3e, mnemonic: Mnemonic::ROL, length: 3, base_cycles: 7, mode: AddressingMode::Absolute_X }),
        0x40 => Some(OpCode { code: 0x40, mnemonic: Mnemonic::RTI, length: 1, base_cycles: 6, mode: AddressingMode::Implied }),
        0x41 => Some(OpCode { code: 0x41, mnemonic: Mnemonic::EOR, length: 2, base_cycles: 6, mode: AddressingMode::Indirect_X }),
        0x45 => Some(OpCode { code: 0x45, mnemonic: Mnemonic::EOR, length: 2, base_cycles: 3, mode: AddressingMode::ZeroPage }),
        0x46 => Some(OpCode { code: 0x46, mnemonic: Mnemonic::LSR, length: 2, base_cycles: 5, mode: AddressingMode::ZeroPage }),
        0x48 => Some(OpCode { code: 0x48, mnemonic: Mnemonic::PHA, length: 1, base_cycles: 3, mode: AddressingMode::Implied }),
        0x49 => Some(OpCode { code: 0x49, mnemonic: Mnemonic::EOR, length: 2, base_cycles: 2, mode: AddressingMode::Immediate }),
        0x4a => Some(OpCode { code: 0x4a, mnemonic: Mnemonic::LSR, length: 1, base_cycles: 2, mode: AddressingMode::Accumulator }),
        0x4c => Some(OpCode { code: 0x4c, mnemonic: Mnemonic::JMP, length: 3, base_cycles: 3, mode: AddressingMode::Absolute }),
        0x4d => Some(OpCode { code: 0x4d, mnemonic: Mnemonic::EOR, length: 3, base_cycles: 4, mode: AddressingMode::Absolute }),
        0x4e => Some(OpCode { code: 0x4e, mnemonic: Mnemonic::LSR, length: 3, base_cycles: 6, mode: AddressingMode::Absolute }),
        0x50 => Some(OpCode { code: 0x50, mnemonic: Mnemonic::BVC, length: 2, base_cycles: 2, mode: AddressingMode::Relative }),
        0x51 => Some(OpCode { code: 0x51, mnemonic: Mnemonic::EOR, length: 2, base_cycles: 5, mode: AddressingMode::Indirect_Y }),
        0x55 => Some(OpCode { code: 0x55, mnemonic: Mnemonic::EOR, length: 2, base_cycles: 4, mode: AddressingMode::ZeroPage_X }),
        0x56 => Some(OpCode { code: 0x56, mnemonic: Mnemonic::LSR, length: 2, base_cycles: 6, mode: AddressingMode::ZeroPage_X }),
        0x58 => Some(OpCode { code: 0x58, mnemonic: Mnemonic::CLI, length: 1, base_cycles: 2, mode: AddressingMode::Implied }),
        0x59 => Some(OpCode { code: 0x59, mnemonic: Mnemonic::EOR, length: 3, base_cycles: 4, mode: AddressingMode::Absolute_Y }),
        0x5d => Some(OpCode { code: 0x5d, mnemonic: Mnemonic::EOR, length: 3, base_cycles: 4, mode: AddressingMode::Absolute_X }),
        0x5e => Some(OpCode { code: 0x5e, mnemonic: Mnemonic::LSR, length: 3, base_cycles: 7, mode: AddressingMode::Absolute_X }),
        0x60 => Some(OpCode { code: 0x60, mnemonic: Mnemonic::RTS, length: 1, base_cycles: 6, mode: AddressingMode::Implied }),
        0x61 => Some(OpCode { code: 0x61, mnemonic: Mnemonic::ADC, length: 2, base_cycles: 6, mode: AddressingMode::Indirect_X }),
        0x65 => Some(OpCode { code: 0x65, mnemonic: Mnemonic::ADC, length: 2, base_cycles: 3, mode: AddressingMode::ZeroPage }),
        0x66 => Some(OpCode { code: 0x66, mnemonic: Mnemonic::ROR, length: 2, base_cycles: 5, mode: AddressingMode::ZeroPage }),
        0x68 => Some(OpCode { code: 0x68, mnemonic: Mnemonic::PLA, length: 1, base_cycles: 3, mode: AddressingMode::Implied }),
        0x69 => Some(OpCode { code: 0x69, mnemonic: Mnemonic::ADC, length: 2, base_cycles: 2, mode: AddressingMode::Immediate }),
        0x6a => Some(OpCode { code: 0x6a, mnemonic: Mnemonic::ROR, length: 1, base_cycles: 2, mode: AddressingMode::Accumulator }),
        0x6c => Some(OpCode { code: 0x6c, mnemonic: Mnemonic::JMP, length: 3, base_cycles: 5, mode: AddressingMode::Indirect }),
        0x6d => Some(OpCode { code: 0x6d, mnemonic: Mnemonic::ADC, length: 3, base_cycles: 4, mode: AddressingMode::Absolute }),
        0x6e => Some(OpCode { code: 0x6e, mnemonic: Mnemonic::ROR, length: 3, base_cycles: 6, mode: AddressingMode::Absolute }),
        0x70 => Some(OpCode { code: 0x70, mnemonic: Mnemonic::BVS, length: 2, base_cycles: 2, mode: AddressingMode::Relative }),
        0x71 => Some(OpCode { code: 0x71, mnemonic: Mnemonic::ADC, length: 2, base_cycles: 5, mode: AddressingMode::Indirect_Y }),
        0x75 => Some(OpCode { code: 0x75, mnemonic: Mnemonic::ADC, length: 2, base_cycles: 4, mode: AddressingMode::ZeroPage_X }),
        0x76 => Some(OpCode { code: 0x76, mnemonic: Mnemonic::ROR, length: 2, base_cycles: 6, mode: AddressingMode::ZeroPage_X }),
        0x78 => Some(OpCode { code: 0x78, mnemonic: Mnemonic::SEI, length: 1, base_cycles: 2, mode: AddressingMode::Implied }),
        0x79 => Some(OpCode { code: 0x79, mnemonic: Mnemonic::ADC, length: 3, base_cycles: 4, mode: AddressingMode::Absolute_Y }),
        0x7d => Some(OpCode { code: 0x7d, mnemonic: Mnemonic::ADC, length: 3, base_cycles: 4, mode: AddressingMode::Absolute_X }),
        0x7e => Some(OpCode { code: 0x7e, mnemonic: Mnemonic::ROR, length: 3, base_cycles: 7, mode: AddressingMode::Absolute_X }),
        0x81 => Some(OpCode { code: 0x81, mnemonic: Mnemonic::STA, length: 2, base_cycles: 6, mode: AddressingMode::Indirect_X }),
        0x84 => Some(OpCode { code: 0x84, mnemonic: Mnemonic::STY, length: 2, base_cycles: 3, mode: AddressingMode::ZeroPage }),
        0x85 => Some(OpCode { code: 0x85, mnemonic: Mnemonic::STA, length: 2, base_cycles: 3, mode: AddressingMode::ZeroPage }),
        0x86 => Some(OpCode { code: 0x86, mnemonic: Mnemonic::STX, length: 2, base_cycles: 3, mode: AddressingMode::ZeroPage }),
        0x88 => Some(OpCode { code: 0x88, mnemonic: Mnemonic::DEY, length: 1, base_cycles: 2, mode: AddressingMode::Implied }),
        0x8a => Some(OpCode { code: 0x8a, mnemonic: Mnemonic::TXA, length: 1, base_cycles: 2, mode: AddressingMode::Implied }),
        0x8c => Some(OpCode { code: 0x8c, mnemonic: Mnemonic::STY, length: 3, base_cycles: 4, mode: AddressingMode::Absolute }),
        0x8d => Some(OpCode { code: 0x8d, mnemonic: Mnemonic::STA, length: 3, base_cycles: 4, mode: AddressingMode::Absolute }),
        0x8e => Some(OpCode { code: 0x8e, mnemonic: Mnemonic::STX, length: 3, base_cycles: 4, mode: AddressingMode::Absolute }),
        0x90 => Some(OpCode { code: 0x90, mnemonic: Mnemonic::BCC, length: 2, base_cycles: 2, mode: AddressingMode::Relative }),
        0x91 => Some(OpCode { code: 0x91, mnemonic: Mnemonic::STA, length: 2, base_cycles: 6, mode: AddressingMode::Indirect_Y }),
        0x94 => Some(OpCode { code: 0x94, mnemonic: Mnemonic::STY, length: 2, base_cycles: 4, mode: AddressingMode::ZeroPage_X }),
        0x95 => Some(OpCode { code: 0x95, mnemonic: Mnemonic::STA, length: 2, base_cycles: 4, mode: AddressingMode::ZeroPage_X }),
        0x96 => Some(OpCode { code: 0x96, mnemonic: Mnemonic::STX, length: 2, base_cycles: 4, mode: AddressingMode::ZeroPage_Y }),
        0x98 => Some(OpCode { code: 0x98, mnemonic: Mnemonic::TYA, length: 1, base_cycles: 2, mode: AddressingMode::Implied }),
        0x99 => Some(OpCode { code: 0x99, mnemonic: Mnemonic::STA, length: 3, base_cycles: 5, mode: AddressingMode::Absolute_Y }),
        0x9a => Some(OpCode { code: 0x9a, mnemonic: Mnemonic::TXS, length: 1, base_cycles: 2, mode: AddressingMode::Implied }),
        0x9d => Some(OpCode { code: 0x9d, mnemonic: Mnemonic::STA, length: 3, base_cycles: 5, mode: AddressingMode::Absolute_X }),
        0xa0 => Some(OpCode { code: 0xa0, mnemonic: Mnemonic::LDY, length: 2, base_cycles: 2, mode: AddressingMode::Immediate }),
        0xa1 => Some(OpCode { code: 0xa1, mnemonic: Mnemonic::LDA, length: 2, base_cycles: 6, mode: AddressingMode::Indirect_X }),
        0xa2 => Some(OpCode { code: 0xa2, mnemonic: Mnemonic::LDX, length: 2, base_cycles: 2, mode: AddressingMode::Immediate }),
        0xa4 => Some(OpCode { code: 0xa4, mnemonic: Mnemonic::LDY, length: 2, base_cycles: 3, mode: AddressingMode::ZeroPage }),
        0xa5 => Some(OpCode { code: 0xa5, mnemonic: Mnemonic::LDA, length: 2, base_cycles: 3, mode: AddressingMode::ZeroPage }),
        0xa6 => Some(OpCode { code: 0xa6, mnemonic: Mnemonic::LDX, length: 2, base_cycles: 3, mode: AddressingMode::ZeroPage }),
        0xa8 => Some(OpCode { code: 0xa8, mnemonic: Mnemonic::TAY, length: 1, base_cycles: 2, mode: AddressingMode::Implied }),
        0xa9 => Some(OpCode { code: 0xa9, mnemonic: Mnemonic::LDA, length: 2, base_cycles: 2, mode: AddressingMode::Immediate }),
        0xaa => Some(OpCode { code: 0xaa, mnemonic: Mnemonic::TAX, length: 1, base_cycles: 2, mode: AddressingMode::Implied }),
        0xac => Some(OpCode { code: 0xac, mnemonic: Mnemonic::LDY, length: 3, base_cycles: 4, mode: AddressingMode::Absolute }),
        0xad => Some(OpCode { code: 0xad, mnemonic: Mnemonic::LDA, length: 3, base_cycles: 4, mode: AddressingMode::Absolute }),
        0xae => Some(OpCode { code: 0xae, mnemonic: Mnemonic::LDX, length: 3, base_cycles: 4, mode: AddressingMode::Absolute }),
        0xb0 => Some(OpCode { code: 0xb0, mnemonic: Mnemonic::BCS, length: 2, base_cycles: 2, mode: AddressingMode::Relative }),
        0xb1 => Some(OpCode { code: 0xb1, mnemonic: Mnemonic::LDA, length: 2, base_cycles: 5, mode: AddressingMode::Indirect_Y }),
        0xb4 => Some(OpCode { code: 0xb4, mnemonic: Mnemonic::LDY, length: 2, base_cycles: 4, mode: AddressingMode::ZeroPage_X }),
        0xb5 => Some(OpCode { code: 0xb5, mnemonic: Mnemonic::LDA, length: 2, base_cycles: 4, mode: AddressingMode::ZeroPage_X }),
        0xb6 => Some(OpCode { code: 0xb6, mnemonic: Mnemonic::LDX, length: 2, base_cycles: 4, mode: AddressingMode::ZeroPage_Y }),
        0xb8 => Some(OpCode { code: 0xb8, mnemonic: Mnemonic::CLV, length: 1, base_cycles: 2, mode: AddressingMode::Implied }),
        0xb9 => Some(OpCode { code: 0xb9, mnemonic: Mnemonic::LDA, length: 3, base_cycles: 4, mode: AddressingMode::Absolute_Y }),
        0xba => Some(OpCode { code: 0xba, mnemonic: Mnemonic::TSX, length: 1, base_cycles: 2, mode: AddressingMode::Implied }),
        0xbc => Some(OpCode { code: 0xbc, mnemonic: Mnemonic::LDY, length: 3, base_cycles: 4, mode: AddressingMode::Absolute_X }),
        0xbd => Some(OpCode { code: 0xbd, mnemonic: Mnemonic::LDA, length: 3, base_cycles: 4, mode: AddressingMode::Absolute_X }),
        0xbe => Some(OpCode { code: 0xbe, mnemonic: Mnemonic::LDX, length: 3, base_cycles: 4, mode: AddressingMode::Absolute_Y }),
        0xc0 => Some(OpCode { code: 0xc0, mnemonic: Mnemonic::CPY, length: 2, base_cycles: 2, mode: AddressingMode::Immediate }),
        0xc1 => Some(OpCode { code: 0xc1, mnemonic: Mnemonic::CMP, length: 2, base_cycles: 6, mode: AddressingMode::Indirect_X }),
        0xc4 => Some(OpCode { code: 0xc4, mnemonic: Mnemonic::CPY, length: 2, base_cycles: 3, mode: AddressingMode::ZeroPage }),
        0xc5 => Some(OpCode { code: 0xc5, mnemonic: Mnemonic::CMP, length: 2, base_cycles: 3, mode: AddressingMode::ZeroPage }),
        0xc6 => Some(OpCode { code: 0xc6, mnemonic: Mnemonic::DEC, length: 2, base_cycles: 5, mode: AddressingMode::ZeroPage }),
        0xc8 => Some(OpCode { code: 0xc8, mnemonic: Mnemonic::INY, length: 1, base_cycles: 2, mode: AddressingMode::Implied }),
        0xc9 => Some(OpCode { code: 0xc9, mnemonic: Mnemonic::CMP, length: 2, base_cycles: 2, mode: AddressingMode::Immediate }),
        0xca => Some(OpCode { code: 0xca, mnemonic: Mnemonic::DEX, length: 1, base_cycles: 2, mode: AddressingMode::Implied }),
        0xcc => Some(OpCode { code: 0xcc, mnemonic: Mnemonic::CPY, length: 3, base_cycles: 4, mode: AddressingMode::Absolute }),
        0xcd => Some(OpCode { code: 0xcd, mnemonic: Mnemonic::CMP, length: 3, base_cycles: 4, mode: AddressingMode::Absolute }),
        0xce => Some(OpCode { code: 0xce, mnemonic: Mnemonic::DEC, length: 3, base_cycles: 6, mode: AddressingMode::Absolute }),
        0xd0 => Some(OpCode { code: 0xd0, mnemonic: Mnemonic::BNE, length: 2, base_cycles: 2, mode: AddressingMode::Relative }),
        0xd1 => Some(OpCode { code: 0xd1, mnemonic: Mnemonic::CMP, length: 2, base_cycles: 5, mode: AddressingMode::Indirect_Y }),
        0xd5 => Some(OpCode { code: 0xd5, mnemonic: Mnemonic::CMP, length: 2, base_cycles: 4, mode: AddressingMode::ZeroPage_X }),
        0xd6 => Some(OpCode { code: 0xd6, mnemonic: Mnemonic::DEC, length: 2, base_cycles: 6, mode: AddressingMode::ZeroPage_X }),
        0xd8 => Some(OpCode { code: 0xd8, mnemonic: Mnemonic::CLD, length: 1, base_cycles: 2, mode: AddressingMode::Implied }),
        0xd9 => Some(OpCode { code: 0xd9, mnemonic: Mnemonic::CMP, length: 3, base_cycles: 4, mode: AddressingMode::Absolute_Y }),
        0xdd => Some(OpCode { code: 0xdd, mnemonic: Mnemonic::CMP, length: 3, base_cycles: 4, mode: AddressingMode::Absolute_X }),
        0xde => Some(OpCode { code: 0xde, mnemonic: Mnemonic::DEC, length: 3, base_cycles: 7, mode: AddressingMode::Absolute_X }),
        0xe0 => Some(OpCode { code: 0xe0, mnemonic: Mnemonic::CPX, length: 2, base_cycles: 2, mode: AddressingMode::Immediate }),
        0xe1 => Some(OpCode { code: 0xe1, mnemonic: Mnemonic::SBC, length: 2, base_cycles: 6, mode: AddressingMode::Indirect_X }),
        0xe4 => Some(OpCode { code: 0xe4, mnemonic: Mnemonic::CPX, length: 2, base_cycles: 3, mode: AddressingMode::ZeroPage }),
        0xe5 => Some(OpCode { code: 0xe5, mnemonic: Mnemonic::SBC, length: 2, base_cycles: 3, mode: AddressingMode::ZeroPage }),
        0xe6 => Some(OpCode { code: 0xe6, mnemonic: Mnemonic::INC, length: 2, base_cycles: 5, mode: AddressingMode::ZeroPage }),
        0xe8 => Some(OpCode { code: 0xe8, mnemonic: Mnemonic::INX, length: 1, base_cycles: 2, mode: AddressingMode::Implied }),
        0xe9 => Some(OpCode { code: 0xe9, mnemonic: Mnemonic::SBC, length: 2, base_cycles: 2, mode: AddressingMode::Immediate }),
        0xea => Some(OpCode { code: 0xea, mnemonic: Mnemonic::NOP, length: 1, base_cycles: 2, mode: AddressingMode::Implied }),
        0xec => Some(OpCode { code: 0xec, mnemonic: Mnemonic::CPX, length: 3, base_cycles: 4, mode: AddressingMode::Absolute }),
        0xed => Some(OpCode { code: 0xed, mnemonic: Mnemonic::SBC, length: 3, base_cycles: 4, mode: AddressingMode::Absolute }),
        0xee => Some(OpCode { code: 0xee, mnemonic: Mnemonic::INC, length: 3, base_cycles: 6, mode: AddressingMode::Absolute }),
        0xf0 => Some(OpCode { code: 0xf0, mnemonic: Mnemonic::BEQ, length: 2, base_cycles: 2, mode: AddressingMode::Relative }),
        0xf1 => Some(OpCode { code: 0xf1, mnemonic: Mnemonic::SBC, length: 2, base_cycles: 5, mode: AddressingMode::Indirect_Y }),
        0xf5 => Some(OpCode { code: 0xf5, mnemonic: Mnemonic::SBC, length: 2, base_cycles: 4, mode: AddressingMode::ZeroPage_X }),
        0xf6 => Some(OpCode { code: 0xf6, mnemonic: Mnemonic::INC, length: 2, base_cycles: 6, mode: AddressingMode::ZeroPage_X }),
        0xf8 => Some(OpCode { code: 0xf8, mnemonic: Mnemonic::SED, length: 1, base_cycles: 2, mode: AddressingMode::Implied }),
        0xf9 => Some(OpCode { code: 0xf9, mnemonic: Mnemonic::SBC, length: 3, base_cycles: 4, mode: AddressingMode::Absolute_Y }),
        0xfd => Some(OpCode { code: 0xfd, mnemonic: Mnemonic::SBC, length: 3, base_cycles: 4, mode: AddressingMode::Absolute_X }),
        0xfe => Some(OpCode { code: 0xfe, mnemonic: Mnemonic::INC, length: 3, base_cycles: 7, mode: AddressingMode::Absolute_X }),
        _ => None,
    }
}

/// Looks up an opcode byte in the table, returning its record, or `None`
/// for an unsupported opcode.
pub fn find_opcode(code: u8) -> (r: Option<OpCode>)
    ensures
        r == opcode_spec(code),
{
    proof {
        reveal(opcode_spec);
    }
    match code {
        0x00 => Some(OpCode { code: 0x00, mnemonic: Mnemonic::BRK, length: 1, base_cycles: 7, mode: AddressingMode::Implied }),
        0x01 => Some(OpCode { code: 0x01, mnemonic: Mnemonic::ORA, length: 2, base_cycles: 6, mode: AddressingMode::Indirect_X }),
        0x05 => Some(OpCode { code: 0x05, mnemonic: Mnemonic::ORA, length: 2, base_cycles: 3, mode: AddressingMode::ZeroPage }),
        0x06 => Some(OpCode { code: 0x06, mnemonic: Mnemonic::ASL, length: 2, base_cycles: 5, mode: AddressingMode::ZeroPage }),
        0x08 => Some(OpCode { code: 0x08, mnemonic: Mnemonic::PHP, length: 1, base_cycles: 4, mode: AddressingMode::Implied }),
        0x09 => Some(OpCode { code: 0x09, mnemonic: Mnemonic::ORA, length: 2, base_cycles: 2, mode: AddressingMode::Immediate }),
        0x0a => Some(OpCode { code: 0x0a, mnemonic: Mnemonic::ASL, length: 1, base_cycles: 2, mode: AddressingMode::Accumulator }),
        0x0d => Some(OpCode { code: 0x0d, mnemonic: Mnemonic::ORA, length: 3, base_cycles: 4, mode: AddressingMode::Absolute }),
        0x0e => Some(OpCode { code: 0x0e, mnemonic: Mnemonic::ASL, length: 3, base_cycles: 6, mode: AddressingMode::Absolute }),
        0x10 => Some(OpCode { code: 0x10, mnemonic: Mnemonic::BPL, length: 2, base_cycles: 2, mode: AddressingMode::Relative }),
        0x11 => Some(OpCode { code: 0x11, mnemonic: Mnemonic::ORA, length: 2, base_cycles: 5, mode: AddressingMode::Indirect_Y }),
        0x15 => Some(OpCode { code: 0x15, mnemonic: Mnemonic::ORA, length: 2, base_cycles: 4, mode: AddressingMode::ZeroPage_X }),
        0x16 => Some(OpCode { code: 0x16, mnemonic: Mnemonic::ASL, length: 2, base_cycles: 6, mode: AddressingMode::ZeroPage_X }),
        0x18 => Some(OpCode { code: 0x18, mnemonic: Mnemonic::CLC, length: 1, base_cycles: 2, mode: AddressingMode::Implied }),
        0x19 => Some(OpCode { code: 0x19, mnemonic: Mnemonic::ORA, length: 3, base_cycles: 4, mode: AddressingMode::Absolute_Y }),
        0x1d => Some(OpCode { code: 0x1d, mnemonic: Mnemonic::ORA, length: 3, base_cycles: 4, mode: AddressingMode::Absolute_X }),
        0x1e => Some(OpCode { code: 0x1e, mnemonic: Mnemonic::ASL, length: 3, base_cycles: 7, mode: AddressingMode::Absolute_X }),
        0x20 => Some(OpCode { code: 0x20, mnemonic: Mnemonic::JSR, length: 3, base_cycles: 3, mode: AddressingMode::Absolute }),
        0x21 => Some(OpCode { code: 0x21, mnemonic: Mnemonic::AND, length: 2, base_cycles: 6, mode: AddressingMode::Indirect_X }),
        0x24 => Some(OpCode { code: 0x24, mnemonic: Mnemonic::BIT, length: 2, base_cycles: 3, mode: AddressingMode::ZeroPage }),
        0x25 => Some(OpCode { code: 0x25, mnemonic: Mnemonic::AND, length: 2, base_cycles: 3, mode: AddressingMode::ZeroPage }),
        0x26 => Some(OpCode { code: 0x26, mnemonic: Mnemonic::ROL, length: 2, base_cycles: 5, mode: AddressingMode::ZeroPage }),
        0x28 => Some(OpCode { code: 0x28, mnemonic: Mnemonic::PLP, length: 1, base_cycles: 4, mode: AddressingMode::Implied }),
        0x29 => Some(OpCode { code: 0x29, mnemonic: Mnemonic::AND, length: 2, base_cycles: 2, mode: AddressingMode::Immediate }),
        0x2a => Some(OpCode { code: 0x2a, mnemonic: Mnemonic::ROL, length: 1, base_cycles: 2, mode: AddressingMode::Accumulator }),
        0x2c => Some(OpCode { code: 0x2c, mnemonic: Mnemonic::BIT, length: 3, base_cycles: 4, mode: AddressingMode::Absolute }),
        0x2d => Some(OpCode { code: 0x2d, mnemonic: Mnemonic::AND, length: 3, base_cycles: 4, mode: AddressingMode::Absolute }),
        0x2e => Some(OpCode { code: 0x2e, mnemonic: Mnemonic::ROL, length: 3, base_cycles: 6, mode: AddressingMode::Absolute }),
        0x30 => Some(OpCode { code: 0x30, mnemonic: Mnemonic::BMI, length: 2, base_cycles: 2, mode: AddressingMode::Relative }),
        0x31 => Some(OpCode { code: 0x31, mnemonic: Mnemonic::AND, length: 2, base_cycles: 5, mode: AddressingMode::Indirect_Y }),
        0x35 => Some(OpCode { code: 0x35, mnemonic: Mnemonic::AND, length: 2, base_cycles: 4, mode: AddressingMode::ZeroPage_X }),
        0x36 => Some(OpCode { code: 0x36, mnemonic: Mnemonic::ROL, length: 2, base_cycles: 6, mode: AddressingMode::ZeroPage_X }),
        0x38 => Some(OpCode { code: 0x38, mnemonic: Mnemonic::SEC, length: 1, base_cycles: 2, mode: AddressingMode::Implied }),
        0x39 => Some(OpCode { code: 0x39, mnemonic: Mnemonic::AND, length: 3, base_cycles: 4, mode: AddressingMode::Absolute_Y }),
        0x3d => Some(OpCode { code: 0x3d, mnemonic: Mnemonic::AND, length: 3, base_cycles: 4, mode: AddressingMode::Absolute_X }),
        0x3e => Some(OpCode { code: 0x3e, mnemonic: Mnemonic::ROL, length: 3, base_cycles: 7, mode: AddressingMode::Absolute_X }),
        0x40 => Some(OpCode { code: 0x40, mnemonic: Mnemonic::RTI, length: 1, base_cycles: 6, mode: AddressingMode::Implied }),
        0x41 => Some(OpCode { code: 0x41, mnemonic: Mnemonic::EOR, length: 2, base_cycles: 6, mode: AddressingMode::Indirect_X }),
        0x45 => Some(OpCode { code: 0x45, mnemonic: Mnemonic::EOR, length: 2, base_cycles: 3, mode: AddressingMode::ZeroPage }),
        0x46 => Some(OpCode { code: 0x46, mnemonic: Mnemonic::LSR, length: 2, base_cycles: 5, mode: AddressingMode::ZeroPage }),
        0x48 => Some(OpCode { code: 0x48, mnemonic: Mnemonic::PHA, length: 1, base_cycles: 3, mode: AddressingMode::Implied }),
        0x49 => Some(OpCode { code: 0x49, mnemonic: Mnemonic::EOR, length: 2, base_cycles: 2, mode: AddressingMode::Immediate }),
        0x4a => Some(OpCode { code: 0x4a, mnemonic: Mnemonic::LSR, length: 1, base_cycles: 2, mode: AddressingMode::Accumulator }),
        0x4c => Some(OpCode { code: 0x4c, mnemonic: Mnemonic::JMP, length: 3, base_cycles: 3, mode: AddressingMode::Absolute }),
        0x4d => Some(OpCode { code: 0x4d, mnemonic: Mnemonic::EOR, length: 3, base_cycles: 4, mode: AddressingMode::Absolute }),
        0x4e => Some(OpCode { code: 0x4e, mnemonic: Mnemonic::LSR, length: 3, base_cycles: 6, mode: AddressingMode::Absolute }),
        0x50 => Some(OpCode { code: 0x50, mnemonic: Mnemonic::BVC, length: 2, base_cycles: 2, mode: AddressingMode::Relative }),
        0x51 => Some(OpCode { code: 0x51, mnemonic: Mnemonic::EOR, length: 2, base_cycles: 5, mode: AddressingMode::Indirect_Y }),
        0x55 => Some(OpCode { code: 0x55, mnemonic: Mnemonic::EOR, length: 2, base_cycles: 4, mode: AddressingMode::ZeroPage_X }),
        0x56 => Some(OpCode { code: 0x56, mnemonic: Mnemonic::LSR, length: 2, base_cycles: 6, mode: AddressingMode::ZeroPage_X }),
        0x58 => Some(OpCode { code: 0x58, mnemonic: Mnemonic::CLI, length: 1, base_cycles: 2, mode: AddressingMode::Implied }),
        0x59 => Some(OpCode { code: 0x59, mnemonic: Mnemonic::EOR, length: 3, base_cycles: 4, mode: AddressingMode::Absolute_Y }),
        0x5d => Some(OpCode { code: 0x5d, mnemonic: Mnemonic::EOR, length: 3, base_cycles: 4, mode: AddressingMode::Absolute_X }),
        0x5e => Some(OpCode { code: 0x5e, mnemonic: Mnemonic::LSR, length: 3, base_cycles: 7, mode: AddressingMode::Absolute_X }),
        0x60 => Some(OpCode { code: 0x60, mnemonic: Mnemonic::RTS, length: 1, base_cycles: 6, mode: AddressingMode::Implied }),
        0x61 => Some(OpCode { code: 0x61, mnemonic: Mnemonic::ADC, length: 2, base_cycles: 6, mode: AddressingMode::Indirect_X }),
        0x65 => Some(OpCode { code: 0x65, mnemonic: Mnemonic::ADC, length: 2, base_cycles: 3, mode: AddressingMode::ZeroPage }),
        0x66 => Some(OpCode { code: 0x66, mnemonic: Mnemonic::ROR, length: 2, base_cycles: 5, mode: AddressingMode::ZeroPage }),
        0x68 => Some(OpCode { code: 0x68, mnemonic: Mnemonic::PLA, length: 1, base_cycles: 3, mode: AddressingMode::Implied }),
        0x69 => Some(OpCode { code: 0x69, mnemonic: Mnemonic::ADC, length: 2, base_cycles: 2, mode: AddressingMode::Immediate }),
        0x6a => Some(OpCode { code: 0x6a, mnemonic: Mnemonic::ROR, length: 1, base_cycles: 2, mode: AddressingMode::Accumulator }),
        0x6c => Some(OpCode { code: 0x6c, mnemonic: Mnemonic::JMP, length: 3, base_cycles: 5, mode: AddressingMode::Indirect }),
        0x6d => Some(OpCode { code: 0x6d, mnemonic: Mnemonic::ADC, length: 3, base_cycles: 4, mode: AddressingMode::Absolute }),
        0x6e => Some(OpCode { code: 0x6e, mnemonic: Mnemonic::ROR, length: 3, base_cycles: 6, mode: AddressingMode::Absolute }),
        0x70 => Some(OpCode { code: 0x70, mnemonic: Mnemonic::BVS, length: 2, base_cycles: 2, mode: AddressingMode::Relative }),
        0x71 => Some(OpCode { code: 0x71, mnemonic: Mnemonic::ADC, length: 2, base_cycles: 5, mode: AddressingMode::Indirect_Y }),
        0x75 => Some(OpCode { code: 0x75, mnemonic: Mnemonic::ADC, length: 2, base_cycles: 4, mode: AddressingMode::ZeroPage_X }),
        0x76 => Some(OpCode { code: 0x76, mnemonic: Mnemonic::ROR, length: 2, base_cycles: 6, mode: AddressingMode::ZeroPage_X }),
        0x78 => Some(OpCode { code: 0x78, mnemonic: Mnemonic::SEI, length: 1, base_cycles: 2, mode: AddressingMode::Implied }),
        0x79 => Some(OpCode { code: 0x79, mnemonic: Mnemonic::ADC, length: 3, base_cycles: 4, mode: AddressingMode::Absolute_Y }),
        0x7d => Some(OpCode { code: 0x7d, mnemonic: Mnemonic::ADC, length: 3, base_cycles: 4, mode: AddressingMode::Absolute_X }),
        0x7e => Some(OpCode { code: 0x7e, mnemonic: Mnemonic::ROR, length: 3, base_cycles: 7, mode: AddressingMode::Absolute_X }),
        0x81 => Some(OpCode { code: 0x81, mnemonic: Mnemonic::STA, length: 2, base_cycles: 6, mode: AddressingMode::Indirect_X }),
        0x84 => Some(OpCode { code: 0x84, mnemonic: Mnemonic::STY, length: 2, base_cycles: 3, mode: AddressingMode::ZeroPage }),
        0x85 => Some(OpCode { code: 0x85, mnemonic: Mnemonic::STA, length: 2, base_cycles: 3, mode: AddressingMode::ZeroPage }),
        0x86 => Some(OpCode { code: 0x86, mnemonic: Mnemonic::STX, length: 2, base_cycles: 3, mode: AddressingMode::ZeroPage }),
        0x88 => Some(OpCode { code: 0x88, mnemonic: Mnemonic::DEY, length: 1, base_cycles: 2, mode: AddressingMode::Implied }),
        0x8a => Some(OpCode { code: 0x8a, mnemonic: Mnemonic::TXA, length: 1, base_cycles: 2, mode: AddressingMode::Implied }),
        0x8c => Some(OpCode { code: 0x8c, mnemonic: Mnemonic::STY, length: 3, base_cycles: 4, mode: AddressingMode::Absolute }),
        0x8d => Some(OpCode { code: 0x8d, mnemonic: Mnemonic::STA, length: 3, base_cycles: 4, mode: AddressingMode::Absolute }),
        0x8e => Some(OpCode { code: 0x8e, mnemonic: Mnemonic::STX, length: 3, base_cycles: 4, mode: AddressingMode::Absolute }),
        0x90 => Some(OpCode { code: 0x90, mnemonic: Mnemonic::BCC, length: 2, base_cycles: 2, mode: AddressingMode::Relative }),
        0x91 => Some(OpCode { code: 0x91, mnemonic: Mnemonic::STA, length: 2, base_cycles: 6, mode: AddressingMode::Indirect_Y }),
        0x94 => Some(OpCode { code: 0x94, mnemonic: Mnemonic::STY, length: 2, base_cycles: 4, mode: AddressingMode::ZeroPage_X }),
        0x95 => Some(OpCode { code: 0x95, mnemonic: Mnemonic::STA, length: 2, base_cycles: 4, mode: AddressingMode::ZeroPage_X }),
        0x96 => Some(OpCode { code: 0x96, mnemonic: Mnemonic::STX, length: 2, base_cycles: 4, mode: AddressingMode::ZeroPage_Y }),
        0x98 => Some(OpCode { code: 0x98, mnemonic: Mnemonic::TYA, length: 1, base_cycles: 2, mode: AddressingMode::Implied }),
        0x99 => Some(OpCode { code: 0x99, mnemonic: Mnemonic::STA, length: 3, base_cycles: 5, mode: AddressingMode::Absolute_Y }),
        0x9a => Some(OpCode { code: 0x9a, mnemonic: Mnemonic::TXS, length: 1, base_cycles: 2, mode: AddressingMode::Implied }),
        0x9d => Some(OpCode { code: 0x9d, mnemonic: Mnemonic::STA, length: 3, base_cycles: 5, mode: AddressingMode::Absolute_X }),
        0xa0 => Some(OpCode { code: 0xa0, mnemonic: Mnemonic::LDY, length: 2, base_cycles: 2, mode: AddressingMode::Immediate }),
        0xa1 => Some(OpCode { code: 0xa1, mnemonic: Mnemonic::LDA, length: 2, base_cycles: 6, mode: AddressingMode::Indirect_X }),
        0xa2 => Some(OpCode { code: 0xa2, mnemonic: Mnemonic::LDX, length: 2, base_cycles: 2, mode: AddressingMode::Immediate }),
        0xa4 => Some(OpCode { code: 0xa4, mnemonic: Mnemonic::LDY, length: 2, base_cycles: 3, mode: AddressingMode::ZeroPage }),
        0xa5 => Some(OpCode { code: 0xa5, mnemonic: Mnemonic::LDA, length: 2, base_cycles: 3, mode: AddressingMode::ZeroPage }),
        0xa6 => Some(OpCode { code: 0xa6, mnemonic: Mnemonic::LDX, length: 2, base_cycles: 3, mode: AddressingMode::ZeroPage }),
        0xa8 => Some(OpCode { code: 0xa8, mnemonic: Mnemonic::TAY, length: 1, base_cycles: 2, mode: AddressingMode::Implied }),
        0xa9 => Some(OpCode { code: 0xa9, mnemonic: Mnemonic::LDA, length: 2, base_cycles: 2, mode: AddressingMode::Immediate }),
        0xaa => Some(OpCode { code: 0xaa, mnemonic: Mnemonic::TAX, length: 1, base_cycles: 2, mode: AddressingMode::Implied }),
        0xac => Some(OpCode { code: 0xac, mnemonic: Mnemonic::LDY, length: 3, base_cycles: 4, mode: AddressingMode::Absolute }),
        0xad => Some(OpCode { code: 0xad, mnemonic: Mnemonic::LDA, length: 3, base_cycles: 4, mode: AddressingMode::Absolute }),
        0xae => Some(OpCode { code: 0xae, mnemonic: Mnemonic::LDX, length: 3, base_cycles: 4, mode: AddressingMode::Absolute }),
        0xb0 => Some(OpCode { code: 0xb0, mnemonic: Mnemonic::BCS, length: 2, base_cycles: 2, mode: AddressingMode::Relative }),
        0xb1 => Some(OpCode { code: 0xb1, mnemonic: Mnemonic::LDA, length: 2, base_cycles: 5, mode: AddressingMode::Indirect_Y }),
        0xb4 => Some(OpCode { code: 0xb4, mnemonic: Mnemonic::LDY, length: 2, base_cycles: 4, mode: AddressingMode::ZeroPage_X }),
        0xb5 => Some(OpCode { code: 0xb5, mnemonic: Mnemonic::LDA, length: 2, base_cycles: 4, mode: AddressingMode::ZeroPage_X }),
        0xb6 => Some(OpCode { code: 0xb6, mnemonic: Mnemonic::LDX, length: 2, base_cycles: 4, mode: AddressingMode::ZeroPage_Y }),
        0xb8 => Some(OpCode { code: 0xb8, mnemonic: Mnemonic::CLV, length: 1, base_cycles: 2, mode: AddressingMode::Implied }),
        0xb9 => Some(OpCode { code: 0xb9, mnemonic: Mnemonic::LDA, length: 3, base_cycles: 4, mode: AddressingMode::Absolute_Y }),
        0xba => Some(OpCode { code: 0xba, mnemonic: Mnemonic::TSX, length: 1, base_cycles: 2, mode: AddressingMode::Implied }),
        0xbc => Some(OpCode { code: 0xbc, mnemonic: Mnemonic::LDY, length: 3, base_cycles: 4, mode: AddressingMode::Absolute_X }),
        0xbd => Some(OpCode { code: 0xbd, mnemonic: Mnemonic::LDA, length: 3, base_cycles: 4, mode: AddressingMode::Absolute_X }),
        0xbe => Some(OpCode { code: 0xbe, mnemonic: Mnemonic::LDX, length: 3, base_cycles: 4, mode: AddressingMode::Absolute_Y }),
        0xc0 => Some(OpCode { code: 0xc0, mnemonic: Mnemonic::CPY, length: 2, base_cycles: 2, mode: AddressingMode::Immediate }),
        0xc1 => Some(OpCode { code: 0xc1, mnemonic: Mnemonic::CMP, length: 2, base_cycles: 6, mode: AddressingMode::Indirect_X }),
        0xc4 => Some(OpCode { code: 0xc4, mnemonic: Mnemonic::CPY, length: 2, base_cycles: 3, mode: AddressingMode::ZeroPage }),
        0xc5 => Some(OpCode { code: 0xc5, mnemonic: Mnemonic::CMP, length: 2, base_cycles: 3, mode: AddressingMode::ZeroPage }),
        0xc6 => Some(OpCode { code: 0xc6, mnemonic: Mnemonic::DEC, length: 2, base_cycles: 5, mode: AddressingMode::ZeroPage }),
        0xc8 => Some(OpCode { code: 0xc8, mnemonic: Mnemonic::INY, length: 1, base_cycles: 2, mode: AddressingMode::Implied }),
        0xc9 => Some(OpCode { code: 0xc9, mnemonic: Mnemonic::CMP, length: 2, base_cycles: 2, mode: AddressingMode::Immediate }),
        0xca => Some(OpCode { code: 0xca, mnemonic: Mnemonic::DEX, length: 1, base_cycles: 2, mode: AddressingMode::Implied }),
        0xcc => Some(OpCode { code: 0xcc, mnemonic: Mnemonic::CPY, length: 3, base_cycles: 4, mode: AddressingMode::Absolute }),
        0xcd => Some(OpCode { code: 0xcd, mnemonic: Mnemonic::CMP, length: 3, base_cycles: 4, mode: AddressingMode::Absolute }),
        0xce => Some(OpCode { code: 0xce, mnemonic: Mnemonic::DEC, length: 3, base_cycles: 6, mode: AddressingMode::Absolute }),
        0xd0 => Some(OpCode { code: 0xd0, mnemonic: Mnemonic::BNE, length: 2, base_cycles: 2, mode: AddressingMode::Relative }),
        0xd1 => Some(OpCode { code: 0xd1, mnemonic: Mnemonic::CMP, length: 2, base_cycles: 5, mode: AddressingMode::Indirect_Y }),
        0xd5 => Some(OpCode { code: 0xd5, mnemonic: Mnemonic::CMP, length: 2, base_cycles: 4, mode: AddressingMode::ZeroPage_X }),
        0xd6 => Some(OpCode { code: 0xd6, mnemonic: Mnemonic::DEC, length: 2, base_cycles: 6, mode: AddressingMode::ZeroPage_X }),
        0xd8 => Some(OpCode { code: 0xd8, mnemonic: Mnemonic::CLD, length: 1, base_cycles: 2, mode: AddressingMode::Implied }),
        0xd9 => Some(OpCode { code: 0xd9, mnemonic: Mnemonic::CMP, length: 3, base_cycles: 4, mode: AddressingMode::Absolute_Y }),
        0xdd => Some(OpCode { code: 0xdd, mnemonic: Mnemonic::CMP, length: 3, base_cycles: 4, mode: AddressingMode::Absolute_X }),
        0xde => Some(OpCode { code: 0xde, mnemonic: Mnemonic::DEC, length: 3, base_cycles: 7, mode: AddressingMode::Absolute_X }),
        0xe0 => Some(OpCode { code: 0xe0, mnemonic: Mnemonic::CPX, length: 2, base_cycles: 2, mode: AddressingMode::Immediate }),
        0xe1 => Some(OpCode { code: 0xe1, mnemonic: Mnemonic::SBC, length: 2, base_cycles: 6, mode: AddressingMode::Indirect_X }),
        0xe4 => Some(OpCode { code: 0xe4, mnemonic: Mnemonic::CPX, length: 2, base_cycles: 3, mode: AddressingMode::ZeroPage }),
        0xe5 => Some(OpCode { code: 0xe5, mnemonic: Mnemonic::SBC, length: 2, base_cycles: 3, mode: AddressingMode::ZeroPage }),
        0xe6 => Some(OpCode { code: 0xe6, mnemonic: Mnemonic::INC, length: 2, base_cycles: 5, mode: AddressingMode::ZeroPage }),
        0xe8 => Some(OpCode { code: 0xe8, mnemonic: Mnemonic::INX, length: 1, base_cycles: 2, mode: AddressingMode::Implied }),
        0xe9 => Some(OpCode { code: 0xe9, mnemonic: Mnemonic::SBC, length: 2, base_cycles: 2, mode: AddressingMode::Immediate }),
        0xea => Some(OpCode { code: 0xea, mnemonic: Mnemonic::NOP, length: 1, base_cycles: 2, mode: AddressingMode::Implied }),
        0xec => Some(OpCode { code: 0xec, mnemonic: Mnemonic::CPX, length: 3, base_cycles: 4, mode: AddressingMode::Absolute }),
        0xed => Some(OpCode { code: 0xed, mnemonic: Mnemonic::SBC, length: 3, base_cycles: 4, mode: AddressingMode::Absolute }),
        0xee => Some(OpCode { code: 0xee, mnemonic: Mnemonic::INC, length: 3, base_cycles: 6, mode: AddressingMode::Absolute }),
        0xf0 => Some(OpCode { code: 0xf0, mnemonic: Mnemonic::BEQ, length: 2, base_cycles: 2, mode: AddressingMode::Relative }),
        0xf1 => Some(OpCode { code: 0xf1, mnemonic: Mnemonic::SBC, length: 2, base_cycles: 5, mode: AddressingMode::Indirect_Y }),
        0xf5 => Some(OpCode { code: 0xf5, mnemonic: Mnemonic::SBC, length: 2, base_cycles: 4, mode: AddressingMode::ZeroPage_X }),
        0xf6 => Some(OpCode { code: 0xf6, mnemonic: Mnemonic::INC, length: 2, base_cycles: 6, mode: AddressingMode::ZeroPage_X }),
        0xf8 => Some(OpCode { code: 0xf8, mnemonic: Mnemonic::SED, length: 1, base_cycles: 2, mode: AddressingMode::Implied }),
        0xf9 => Some(OpCode { code: 0xf9, mnemonic: Mnemonic::SBC, length: 3, base_cycles: 4, mode: AddressingMode::Absolute_Y }),
        0xfd => Some(OpCode { code: 0xfd, mnemonic: Mnemonic::SBC, length: 3, base_cycles: 4, mode: AddressingMode::Absolute_X }),
        0xfe => Some(OpCode { code: 0xfe, mnemonic: Mnemonic::INC, length: 3, base_cycles: 7, mode: AddressingMode::Absolute_X }),
        _ => None,
    }
}


/// Every table row is internally consistent: the row stored under a code
/// carries that code, its length is 1 to 3 bytes, and its addressing mode
/// fits its mnemonic's handler.
pub proof fn lemma_opcode_table_wf(code: u8)
    ensures
        match opcode_spec(code) {
            Some(op) => {
                &&& op.code == code
                &&& 1 <= op.length <= 3
                &&& mode_ok(op.mnemonic, op.mode)
            },
            None => true,
        },
{
    reveal(opcode_spec);
}

} // verus!
