//! Core of a Ricoh 2A03 (NES 6502) interpreter: status flags, the opcode
//! decoder, the CPU memory bus and the instruction interpreter.

pub mod flags;
pub mod decode;
pub mod ppu;
pub mod cpu;
pub mod laws;
