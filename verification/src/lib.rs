//! An interpretive emulator for the MOS 6502 8-bit microprocessor.
//!
//! A program is a byte sequence of machine code; it is loaded into a flat
//! 64 KiB address space and executed against an architectural register file
//! and status word until a halt opcode (BRK) is reached.  The instruction
//! semantics — wrap-around arithmetic, carry/overflow derivation, zero-page
//! pointer quirks, branch displacement sign extension, and the page-$01
//! descending stack — are stated as contracts over a ghost machine state and
//! proved against the executable core.

pub mod constants;
pub mod machine;
pub mod cpu;
pub mod dispatch;
pub mod instructions;
pub mod laws;
