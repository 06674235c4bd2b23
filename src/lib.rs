//! A MOS 6502 processor core for a NES-class machine: a memory bus with
//! mirrored CPU RAM, the opcode table, and an interpreter whose every
//! instruction is specified and verified.
pub mod bus;
pub mod constants;
pub mod cpu;
pub mod cpu_flags;
pub mod instructions;
pub mod laws;
pub mod opcodes;
pub mod operation;
pub mod semantics;
