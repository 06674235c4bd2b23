use crate::operation::{AddressingModes, Mnemonic, Operation};
use vstd::prelude::*;

verus! {

/// The descriptor with the given fields.
pub open spec fn op(
    name: Mnemonic,
    cycles: u8,
    size: u8,
    page_cycles: u8,
    mode: AddressingModes,
) -> Operation {
    Operation {
        name,
        instruction_cycles: cycles,
        instruction_size: size,
        instruction_page_cycles: page_cycles,
        instruction_addressing_mode: mode,
    }
}

/// The opcode table of the NMOS 6502: base cycles, size in bytes, page-cross
/// penalty and addressing mode of each documented opcode; `None` for the
/// unmapped ones.
#[verifier::opaque]
pub open spec fn operation_spec(opcode: u8) -> Option<Operation> {
    match opcode {
        0x00 => Some(op(Mnemonic::Brk, 7, 1, 0, AddressingModes::Implicit)),
        0x01 => Some(op(Mnemonic::Ora, 6, 2, 0, AddressingModes::IndexedIndirect)),
        0x05 => Some(op(Mnemonic::Ora, 3, 2, 0, AddressingModes::ZeroPage)),
        0x06 => Some(op(Mnemonic::Asl, 5, 2, 0, AddressingModes::ZeroPage)),
        0x08 => Some(op(Mnemonic::Php, 3, 1, 0, AddressingModes::Implicit)),
        0x09 => Some(op(Mnemonic::Ora, 2, 2, 0, AddressingModes::Immediate)),
        0x0A => Some(op(Mnemonic::Asl, 2, 1, 0, AddressingModes::Accumulator)),
        0x0D => Some(op(Mnemonic::Ora, 4, 3, 0, AddressingModes::Absolute)),
        0x0E => Some(op(Mnemonic::Asl, 6, 3, 0, AddressingModes::Absolute)),
        0x10 => Some(op(Mnemonic::Bpl, 2, 2, 1, AddressingModes::Relative)),
        0x11 => Some(op(Mnemonic::Ora, 5, 2, 1, AddressingModes::IndirectIndexed)),
        0x15 => Some(op(Mnemonic::Ora, 4, 2, 0, AddressingModes::ZeroPageX)),
        0x16 => Some(op(Mnemonic::Asl, 6, 2, 0, AddressingModes::ZeroPageX)),
        0x18 => Some(op(Mnemonic::Clc, 2, 1, 0, AddressingModes::Implicit)),
        0x19 => Some(op(Mnemonic::Ora, 4, 3, 1, AddressingModes::AbsoluteY)),
        0x1D => Some(op(Mnemonic::Ora, 4, 3, 1, AddressingModes::AbsoluteX)),
        0x1E => Some(op(Mnemonic::Asl, 7, 3, 0, AddressingModes::AbsoluteX)),
        0x20 => Some(op(Mnemonic::Jsr, 6, 3, 0, AddressingModes::Absolute)),
        0x21 => Some(op(Mnemonic::And, 6, 2, 0, AddressingModes::IndexedIndirect)),
        0x24 => Some(op(Mnemonic::Bit, 3, 2, 0, AddressingModes::ZeroPage)),
        0x25 => Some(op(Mnemonic::And, 3, 2, 0, AddressingModes::ZeroPage)),
        0x26 => Some(op(Mnemonic::Rol, 5, 2, 0, AddressingModes::ZeroPage)),
        0x28 => Some(op(Mnemonic::Plp, 4, 1, 0, AddressingModes::Implicit)),
        0x29 => Some(op(Mnemonic::And, 2, 2, 0, AddressingModes::Immediate)),
        0x2A => Some(op(Mnemonic::Rol, 2, 1, 0, AddressingModes::Accumulator)),
        0x2C => Some(op(Mnemonic::Bit, 4, 3, 0, AddressingModes::Absolute)),
        0x2D => Some(op(Mnemonic::And, 4, 3, 0, AddressingModes::Absolute)),
        0x2E => Some(op(Mnemonic::Rol, 6, 3, 0, AddressingModes::Absolute)),
        0x30 => Some(op(Mnemonic::Bmi, 2, 2, 1, AddressingModes::Relative)),
        0x31 => Some(op(Mnemonic::And, 5, 2, 1, AddressingModes::IndirectIndexed)),
        0x35 => Some(op(Mnemonic::And, 4, 2, 0, AddressingModes::ZeroPageX)),
        0x36 => Some(op(Mnemonic::Rol, 6, 2, 0, AddressingModes::ZeroPageX)),
        0x38 => Some(op(Mnemonic::Sec, 2, 1, 0, AddressingModes::Implicit)),
        0x39 => Some(op(Mnemonic::And, 4, 3, 1, AddressingModes::AbsoluteY)),
        0x3D => Some(op(Mnemonic::And, 4, 3, 1, AddressingModes::AbsoluteX)),
        0x3E => Some(op(Mnemonic::Rol, 7, 3, 0, AddressingModes::AbsoluteX)),
        0x40 => Some(op(Mnemonic::Rti, 6, 1, 0, AddressingModes::Implicit)),
        0x41 => Some(op(Mnemonic::Eor, 6, 2, 0, AddressingModes::IndexedIndirect)),
        0x45 => Some(op(Mnemonic::Eor, 3, 2, 0, AddressingModes::ZeroPage)),
        0x46 => Some(op(Mnemonic::Lsr, 5, 2, 0, AddressingModes::ZeroPage)),
        0x48 => Some(op(Mnemonic::Pha, 3, 1, 0, AddressingModes::Implicit)),
        0x49 => Some(op(Mnemonic::Eor, 2, 2, 0, AddressingModes::Immediate)),
        0x4A => Some(op(Mnemonic::Lsr, 2, 1, 0, AddressingModes::Accumulator)),
        0x4C => Some(op(Mnemonic::Jmp, 3, 3, 0, AddressingModes::Absolute)),
        0x4D => Some(op(Mnemonic::Eor, 4, 3, 0, AddressingModes::Absolute)),
        0x4E => Some(op(Mnemonic::Lsr, 6, 3, 0, AddressingModes::Absolute)),
        0x50 => Some(op(Mnemonic::Bvc, 2, 2, 1, AddressingModes::Relative)),
        0x51 => Some(op(Mnemonic::Eor, 5, 2, 1, AddressingModes::IndirectIndexed)),
        0x55 => Some(op(Mnemonic::Eor, 4, 2, 0, AddressingModes::ZeroPageX)),
        0x56 => Some(op(Mnemonic::Lsr, 6, 2, 0, AddressingModes::ZeroPageX)),
        0x58 => Some(op(Mnemonic::Cli, 2, 1, 0, AddressingModes::Implicit)),
        0x59 => Some(op(Mnemonic::Eor, 4, 3, 1, AddressingModes::AbsoluteY)),
        0x5D => Some(op(Mnemonic::Eor, 4, 3, 1, AddressingModes::AbsoluteX)),
        0x5E => Some(op(Mnemonic::Lsr, 7, 3, 0, AddressingModes::AbsoluteX)),
        0x60 => Some(op(Mnemonic::Rts, 6, 1, 0, AddressingModes::Implicit)),
        0x61 => Some(op(Mnemonic::Adc, 6, 2, 0, AddressingModes::IndexedIndirect)),
        0x65 => Some(op(Mnemonic::Adc, 3, 2, 0, AddressingModes::ZeroPage)),
        0x66 => Some(op(Mnemonic::Ror, 5, 2, 0, AddressingModes::ZeroPage)),
        0x68 => Some(op(Mnemonic::Pla, 4, 1, 0, AddressingModes::Implicit)),
        0x69 => Some(op(Mnemonic::Adc, 2, 2, 0, AddressingModes::Immediate)),
        0x6A => Some(op(Mnemonic::Ror, 2, 1, 0, AddressingModes::Accumulator)),
        0x6C => Some(op(Mnemonic::Jmp, 5, 3, 0, AddressingModes::Indirect)),
        0x6D => Some(op(Mnemonic::Adc, 4, 3, 0, AddressingModes::Absolute)),
        0x6E => Some(op(Mnemonic::Ror, 6, 3, 0, AddressingModes::Absolute)),
        0x70 => Some(op(Mnemonic::Bvs, 2, 2, 1, AddressingModes::Relative)),
        0x71 => Some(op(Mnemonic::Adc, 5, 2, 1, AddressingModes::IndirectIndexed)),
        0x75 => Some(op(Mnemonic::Adc, 4, 2, 0, AddressingModes::ZeroPageX)),
        0x76 => Some(op(Mnemonic::Ror, 6, 2, 0, AddressingModes::ZeroPageX)),
        0x78 => Some(op(Mnemonic::Sei, 2, 1, 0, AddressingModes::Implicit)),
        0x79 => Some(op(Mnemonic::Adc, 4, 3, 1, AddressingModes::AbsoluteY)),
        0x7D => Some(op(Mnemonic::Adc, 4, 3, 1, AddressingModes::AbsoluteX)),
        0x7E => Some(op(Mnemonic::Ror, 7, 3, 0, AddressingModes::AbsoluteX)),
        0x81 => Some(op(Mnemonic::Sta, 6, 2, 0, AddressingModes::IndexedIndirect)),
        0x84 => Some(op(Mnemonic::Sty, 3, 2, 0, AddressingModes::ZeroPage)),
        0x85 => Some(op(Mnemonic::Sta, 3, 2, 0, AddressingModes::ZeroPage)),
        0x86 => Some(op(Mnemonic::Stx, 3, 2, 0, AddressingModes::ZeroPage)),
        0x88 => Some(op(Mnemonic::Dey, 2, 1, 0, AddressingModes::Implicit)),
        0x8A => Some(op(Mnemonic::Txa, 2, 1, 0, AddressingModes::Implicit)),
        0x8C => Some(op(Mnemonic::Sty, 4, 3, 0, AddressingModes::Absolute)),
        0x8D => Some(op(Mnemonic::Sta, 4, 3, 0, AddressingModes::Absolute)),
        0x8E => Some(op(Mnemonic::Stx, 4, 3, 0, AddressingModes::Absolute)),
        0x90 => Some(op(Mnemonic::Bcc, 2, 2, 1, AddressingModes::Relative)),
        0x91 => Some(op(Mnemonic::Sta, 6, 2, 0, AddressingModes::IndirectIndexed)),
        0x94 => Some(op(Mnemonic::Sty, 4, 2, 0, AddressingModes::ZeroPageX)),
        0x95 => Some(op(Mnemonic::Sta, 4, 2, 0, AddressingModes::ZeroPageX)),
        0x96 => Some(op(Mnemonic::Stx, 4, 2, 0, AddressingModes::ZeroPageY)),
        0x98 => Some(op(Mnemonic::Tya, 2, 1, 0, AddressingModes::Implicit)),
        0x99 => Some(op(Mnemonic::Sta, 5, 3, 0, AddressingModes::AbsoluteY)),
        0x9A => Some(op(Mnemonic::Txs, 2, 1, 0, AddressingModes::Implicit)),
        0x9D => Some(op(Mnemonic::Sta, 5, 3, 0, AddressingModes::AbsoluteX)),
        0xA0 => Some(op(Mnemonic::Ldy, 2, 2, 0, AddressingModes::Immediate)),
        0xA1 => Some(op(Mnemonic::Lda, 6, 2, 0, AddressingModes::IndexedIndirect)),
        0xA2 => Some(op(Mnemonic::Ldx, 2, 2, 0, AddressingModes::Immediate)),
        0xA4 => Some(op(Mnemonic::Ldy, 3, 2, 0, AddressingModes::ZeroPage)),
        0xA5 => Some(op(Mnemonic::Lda, 3, 2, 0, AddressingModes::ZeroPage)),
        0xA6 => Some(op(Mnemonic::Ldx, 3, 2, 0, AddressingModes::ZeroPage)),
        0xA8 => Some(op(Mnemonic::Tay, 2, 1, 0, AddressingModes::Implicit)),
        0xA9 => Some(op(Mnemonic::Lda, 2, 2, 0, AddressingModes::Immediate)),
        0xAA => Some(op(Mnemonic::Tax, 2, 1, 0, AddressingModes::Implicit)),
        0xAC => Some(op(Mnemonic::Ldy, 4, 3, 0, AddressingModes::Absolute)),
        0xAD => Some(op(Mnemonic::Lda, 4, 3, 0, AddressingModes::Absolute)),
        0xAE => Some(op(Mnemonic::Ldx, 4, 3, 0, AddressingModes::Absolute)),
        0xB0 => Some(op(Mnemonic::Bcs, 2, 2, 1, AddressingModes::Relative)),
        0xB1 => Some(op(Mnemonic::Lda, 5, 2, 1, AddressingModes::IndirectIndexed)),
        0xB4 => Some(op(Mnemonic::Ldy, 4, 2, 0, AddressingModes::ZeroPageX)),
        0xB5 => Some(op(Mnemonic::Lda, 4, 2, 0, AddressingModes::ZeroPageX)),
        0xB6 => Some(op(Mnemonic::Ldx, 4, 2, 0, AddressingModes::ZeroPageY)),
        0xB8 => Some(op(Mnemonic::Clv, 2, 1, 0, AddressingModes::Implicit)),
        0xB9 => Some(op(Mnemonic::Lda, 4, 3, 1, AddressingModes::AbsoluteY)),
        0xBA => Some(op(Mnemonic::Tsx, 2, 1, 0, AddressingModes::Implicit)),
        0xBC => Some(op(Mnemonic::Ldy, 4, 3, 1, AddressingModes::AbsoluteX)),
        0xBD => Some(op(Mnemonic::Lda, 4, 3, 1, AddressingModes::AbsoluteX)),
        0xBE => Some(op(Mnemonic::Ldx, 4, 3, 1, AddressingModes::AbsoluteY)),
        0xC0 => Some(op(Mnemonic::Cpy, 2, 2, 0, AddressingModes::Immediate)),
        0xC1 => Some(op(Mnemonic::Cmp, 6, 2, 0, AddressingModes::IndexedIndirect)),
        0xC4 => Some(op(Mnemonic::Cpy, 3, 2, 0, AddressingModes::ZeroPage)),
        0xC5 => Some(op(Mnemonic::Cmp, 3, 2, 0, AddressingModes::ZeroPage)),
        0xC6 => Some(op(Mnemonic::Dec, 5, 2, 0, AddressingModes::ZeroPage)),
        0xC8 => Some(op(Mnemonic::Iny, 2, 1, 0, AddressingModes::Implicit)),
        0xC9 => Some(op(Mnemonic::Cmp, 2, 2, 0, AddressingModes::Immediate)),
        0xCA => Some(op(Mnemonic::Dex, 2, 1, 0, AddressingModes::Implicit)),
        0xCC => Some(op(Mnemonic::Cpy, 4, 3, 0, AddressingModes::Absolute)),
        0xCD => Some(op(Mnemonic::Cmp, 4, 3, 0, AddressingModes::Absolute)),
        0xCE => Some(op(Mnemonic::Dec, 6, 3, 0, AddressingModes::Absolute)),
        0xD0 => Some(op(Mnemonic::Bne, 2, 2, 1, AddressingModes::Relative)),
        0xD1 => Some(op(Mnemonic::Cmp, 5, 2, 1, AddressingModes::IndirectIndexed)),
        0xD5 => Some(op(Mnemonic::Cmp, 4, 2, 0, AddressingModes::ZeroPageX)),
        0xD6 => Some(op(Mnemonic::Dec, 6, 2, 0, AddressingModes::ZeroPageX)),
        0xD8 => Some(op(Mnemonic::Cld, 2, 1, 0, AddressingModes::Implicit)),
        0xD9 => Some(op(Mnemonic::Cmp, 4, 3, 1, AddressingModes::AbsoluteY)),
        0xDD => Some(op(Mnemonic::Cmp, 4, 3, 1, AddressingModes::AbsoluteX)),
        0xDE => Some(op(Mnemonic::Dec, 7, 3, 0, AddressingModes::AbsoluteX)),
        0xE0 => Some(op(Mnemonic::Cpx, 2, 2, 0, AddressingModes::Immediate)),
        0xE1 => Some(op(Mnemonic::Sbc, 6, 2, 0, AddressingModes::IndexedIndirect)),
        0xE4 => Some(op(Mnemonic::Cpx, 3, 2, 0, AddressingModes::ZeroPage)),
        0xE5 => Some(op(Mnemonic::Sbc, 3, 2, 0, AddressingModes::ZeroPage)),
        0xE6 => Some(op(Mnemonic::Inc, 5, 2, 0, AddressingModes::ZeroPage)),
        0xE8 => Some(op(Mnemonic::Inx, 2, 1, 0, AddressingModes::Implicit)),
        0xE9 => Some(op(Mnemonic::Sbc, 2, 2, 0, AddressingModes::Immediate)),
        0xEA => Some(op(Mnemonic::Nop, 2, 1, 0, AddressingModes::Implicit)),
        0xEC => Some(op(Mnemonic::Cpx, 4, 3, 0, AddressingModes::Absolute)),
        0xED => Some(op(Mnemonic::Sbc, 4, 3, 0, AddressingModes::Absolute)),
        0xEE => Some(op(Mnemonic::Inc, 6, 3, 0, AddressingModes::Absolute)),
        0xF0 => Some(op(Mnemonic::Beq, 2, 2, 1, AddressingModes::Relative)),
        0xF1 => Some(op(Mnemonic::Sbc, 5, 2, 1, AddressingModes::IndirectIndexed)),
        0xF5 => Some(op(Mnemonic::Sbc, 4, 2, 0, AddressingModes::ZeroPageX)),
        0xF6 => Some(op(Mnemonic::Inc, 6, 2, 0, AddressingModes::ZeroPageX)),
        0xF8 => Some(op(Mnemonic::Sed, 2, 1, 0, AddressingModes::Implicit)),
        0xF9 => Some(op(Mnemonic::Sbc, 4, 3, 1, AddressingModes::AbsoluteY)),
        0xFD => Some(op(Mnemonic::Sbc, 4, 3, 1, AddressingModes::AbsoluteX)),
        0xFE => Some(op(Mnemonic::Inc, 7, 3, 0, AddressingModes::AbsoluteX)),
        _ => None,
    }
}

/// Decodes one opcode byte.
pub fn operation_for(opcode: u8) -> (r: Option<Operation>)
    ensures
        r == operation_spec(opcode),
        r is Some ==> 2 <= r->Some_0.instruction_cycles <= 7,
{
    reveal(operation_spec);
    match opcode {
        0x00 => Some(Operation::new(Mnemonic::Brk, 7, 1, 0, AddressingModes::Implicit)),
        0x01 => Some(Operation::new(Mnemonic::Ora, 6, 2, 0, AddressingModes::IndexedIndirect)),
        0x05 => Some(Operation::new(Mnemonic::Ora, 3, 2, 0, AddressingModes::ZeroPage)),
        0x06 => Some(Operation::new(Mnemonic::Asl, 5, 2, 0, AddressingModes::ZeroPage)),
        0x08 => Some(Operation::new(Mnemonic::Php, 3, 1, 0, AddressingModes::Implicit)),
        0x09 => Some(Operation::new(Mnemonic::Ora, 2, 2, 0, AddressingModes::Immediate)),
        0x0A => Some(Operation::new(Mnemonic::Asl, 2, 1, 0, AddressingModes::Accumulator)),
        0x0D => Some(Operation::new(Mnemonic::Ora, 4, 3, 0, AddressingModes::Absolute)),
        0x0E => Some(Operation::new(Mnemonic::Asl, 6, 3, 0, AddressingModes::Absolute)),
        0x10 => Some(Operation::new(Mnemonic::Bpl, 2, 2, 1, AddressingModes::Relative)),
        0x11 => Some(Operation::new(Mnemonic::Ora, 5, 2, 1, AddressingModes::IndirectIndexed)),
        0x15 => Some(Operation::new(Mnemonic::Ora, 4, 2, 0, AddressingModes::ZeroPageX)),
        0x16 => Some(Operation::new(Mnemonic::Asl, 6, 2, 0, AddressingModes::ZeroPageX)),
        0x18 => Some(Operation::new(Mnemonic::Clc, 2, 1, 0, AddressingModes::Implicit)),
        0x19 => Some(Operation::new(Mnemonic::Ora, 4, 3, 1, AddressingModes::AbsoluteY)),
        0x1D => Some(Operation::new(Mnemonic::Ora, 4, 3, 1, AddressingModes::AbsoluteX)),
        0x1E => Some(Operation::new(Mnemonic::Asl, 7, 3, 0, AddressingModes::AbsoluteX)),
        0x20 => Some(Operation::new(Mnemonic::Jsr, 6, 3, 0, AddressingModes::Absolute)),
        0x21 => Some(Operation::new(Mnemonic::And, 6, 2, 0, AddressingModes::IndexedIndirect)),
        0x24 => Some(Operation::new(Mnemonic::Bit, 3, 2, 0, AddressingModes::ZeroPage)),
        0x25 => Some(Operation::new(Mnemonic::And, 3, 2, 0, AddressingModes::ZeroPage)),
        0x26 => Some(Operation::new(Mnemonic::Rol, 5, 2, 0, AddressingModes::ZeroPage)),
        0x28 => Some(Operation::new(Mnemonic::Plp, 4, 1, 0, AddressingModes::Implicit)),
        0x29 => Some(Operation::new(Mnemonic::And, 2, 2, 0, AddressingModes::Immediate)),
        0x2A => Some(Operation::new(Mnemonic::Rol, 2, 1, 0, AddressingModes::Accumulator)),
        0x2C => Some(Operation::new(Mnemonic::Bit, 4, 3, 0, AddressingModes::Absolute)),
        0x2D => Some(Operation::new(Mnemonic::And, 4, 3, 0, AddressingModes::Absolute)),
        0x2E => Some(Operation::new(Mnemonic::Rol, 6, 3, 0, AddressingModes::Absolute)),
        0x30 => Some(Operation::new(Mnemonic::Bmi, 2, 2, 1, AddressingModes::Relative)),
        0x31 => Some(Operation::new(Mnemonic::And, 5, 2, 1, AddressingModes::IndirectIndexed)),
        0x35 => Some(Operation::new(Mnemonic::And, 4, 2, 0, AddressingModes::ZeroPageX)),
        0x36 => Some(Operation::new(Mnemonic::Rol, 6, 2, 0, AddressingModes::ZeroPageX)),
        0x38 => Some(Operation::new(Mnemonic::Sec, 2, 1, 0, AddressingModes::Implicit)),
        0x39 => Some(Operation::new(Mnemonic::And, 4, 3, 1, AddressingModes::AbsoluteY)),
        0x3D => Some(Operation::new(Mnemonic::And, 4, 3, 1, AddressingModes::AbsoluteX)),
        0x3E => Some(Operation::new(Mnemonic::Rol, 7, 3, 0, AddressingModes::AbsoluteX)),
        0x40 => Some(Operation::new(Mnemonic::Rti, 6, 1, 0, AddressingModes::Implicit)),
        0x41 => Some(Operation::new(Mnemonic::Eor, 6, 2, 0, AddressingModes::IndexedIndirect)),
        0x45 => Some(Operation::new(Mnemonic::Eor, 3, 2, 0, AddressingModes::ZeroPage)),
        0x46 => Some(Operation::new(Mnemonic::Lsr, 5, 2, 0, AddressingModes::ZeroPage)),
        0x48 => Some(Operation::new(Mnemonic::Pha, 3, 1, 0, AddressingModes::Implicit)),
        0x49 => Some(Operation::new(Mnemonic::Eor, 2, 2, 0, AddressingModes::Immediate)),
        0x4A => Some(Operation::new(Mnemonic::Lsr, 2, 1, 0, AddressingModes::Accumulator)),
        0x4C => Some(Operation::new(Mnemonic::Jmp, 3, 3, 0, AddressingModes::Absolute)),
        0x4D => Some(Operation::new(Mnemonic::Eor, 4, 3, 0, AddressingModes::Absolute)),
        0x4E => Some(Operation::new(Mnemonic::Lsr, 6, 3, 0, AddressingModes::Absolute)),
        0x50 => Some(Operation::new(Mnemonic::Bvc, 2, 2, 1, AddressingModes::Relative)),
        0x51 => Some(Operation::new(Mnemonic::Eor, 5, 2, 1, AddressingModes::IndirectIndexed)),
        0x55 => Some(Operation::new(Mnemonic::Eor, 4, 2, 0, AddressingModes::ZeroPageX)),
        0x56 => Some(Operation::new(Mnemonic::Lsr, 6, 2, 0, AddressingModes::ZeroPageX)),
        0x58 => Some(Operation::new(Mnemonic::Cli, 2, 1, 0, AddressingModes::Implicit)),
        0x59 => Some(Operation::new(Mnemonic::Eor, 4, 3, 1, AddressingModes::AbsoluteY)),
        0x5D => Some(Operation::new(Mnemonic::Eor, 4, 3, 1, AddressingModes::AbsoluteX)),
        0x5E => Some(Operation::new(Mnemonic::Lsr, 7, 3, 0, AddressingModes::AbsoluteX)),
        0x60 => Some(Operation::new(Mnemonic::Rts, 6, 1, 0, AddressingModes::Implicit)),
        0x61 => Some(Operation::new(Mnemonic::Adc, 6, 2, 0, AddressingModes::IndexedIndirect)),
        0x65 => Some(Operation::new(Mnemonic::Adc, 3, 2, 0, AddressingModes::ZeroPage)),
        0x66 => Some(Operation::new(Mnemonic::Ror, 5, 2, 0, AddressingModes::ZeroPage)),
        0x68 => Some(Operation::new(Mnemonic::Pla, 4, 1, 0, AddressingModes::Implicit)),
        0x69 => Some(Operation::new(Mnemonic::Adc, 2, 2, 0, AddressingModes::Immediate)),
        0x6A => Some(Operation::new(Mnemonic::Ror, 2, 1, 0, AddressingModes::Accumulator)),
        0x6C => Some(Operation::new(Mnemonic::Jmp, 5, 3, 0, AddressingModes::Indirect)),
        0x6D => Some(Operation::new(Mnemonic::Adc, 4, 3, 0, AddressingModes::Absolute)),
        0x6E => Some(Operation::new(Mnemonic::Ror, 6, 3, 0, AddressingModes::Absolute)),
        0x70 => Some(Operation::new(Mnemonic::Bvs, 2, 2, 1, AddressingModes::Relative)),
        0x71 => Some(Operation::new(Mnemonic::Adc, 5, 2, 1, AddressingModes::IndirectIndexed)),
        0x75 => Some(Operation::new(Mnemonic::Adc, 4, 2, 0, AddressingModes::ZeroPageX)),
        0x76 => Some(Operation::new(Mnemonic::Ror, 6, 2, 0, AddressingModes::ZeroPageX)),
        0x78 => Some(Operation::new(Mnemonic::Sei, 2, 1, 0, AddressingModes::Implicit)),
        0x79 => Some(Operation::new(Mnemonic::Adc, 4, 3, 1, AddressingModes::AbsoluteY)),
        0x7D => Some(Operation::new(Mnemonic::Adc, 4, 3, 1, AddressingModes::AbsoluteX)),
        0x7E => Some(Operation::new(Mnemonic::Ror, 7, 3, 0, AddressingModes::AbsoluteX)),
        0x81 => Some(Operation::new(Mnemonic::Sta, 6, 2, 0, AddressingModes::IndexedIndirect)),
        0x84 => Some(Operation::new(Mnemonic::Sty, 3, 2, 0, AddressingModes::ZeroPage)),
        0x85 => Some(Operation::new(Mnemonic::Sta, 3, 2, 0, AddressingModes::ZeroPage)),
        0x86 => Some(Operation::new(Mnemonic::Stx, 3, 2, 0, AddressingModes::ZeroPage)),
        0x88 => Some(Operation::new(Mnemonic::Dey, 2, 1, 0, AddressingModes::Implicit)),
        0x8A => Some(Operation::new(Mnemonic::Txa, 2, 1, 0, AddressingModes::Implicit)),
        0x8C => Some(Operation::new(Mnemonic::Sty, 4, 3, 0, AddressingModes::Absolute)),
        0x8D => Some(Operation::new(Mnemonic::Sta, 4, 3, 0, AddressingModes::Absolute)),
        0x8E => Some(Operation::new(Mnemonic::Stx, 4, 3, 0, AddressingModes::Absolute)),
        0x90 => Some(Operation::new(Mnemonic::Bcc, 2, 2, 1, AddressingModes::Relative)),
        0x91 => Some(Operation::new(Mnemonic::Sta, 6, 2, 0, AddressingModes::IndirectIndexed)),
        0x94 => Some(Operation::new(Mnemonic::Sty, 4, 2, 0, AddressingModes::ZeroPageX)),
        0x95 => Some(Operation::new(Mnemonic::Sta, 4, 2, 0, AddressingModes::ZeroPageX)),
        0x96 => Some(Operation::new(Mnemonic::Stx, 4, 2, 0, AddressingModes::ZeroPageY)),
        0x98 => Some(Operation::new(Mnemonic::Tya, 2, 1, 0, AddressingModes::Implicit)),
        0x99 => Some(Operation::new(Mnemonic::Sta, 5, 3, 0, AddressingModes::AbsoluteY)),
        0x9A => Some(Operation::new(Mnemonic::Txs, 2, 1, 0, AddressingModes::Implicit)),
        0x9D => Some(Operation::new(Mnemonic::Sta, 5, 3, 0, AddressingModes::AbsoluteX)),
        0xA0 => Some(Operation::new(Mnemonic::Ldy, 2, 2, 0, AddressingModes::Immediate)),
        0xA1 => Some(Operation::new(Mnemonic::Lda, 6, 2, 0, AddressingModes::IndexedIndirect)),
        0xA2 => Some(Operation::new(Mnemonic::Ldx, 2, 2, 0, AddressingModes::Immediate)),
        0xA4 => Some(Operation::new(Mnemonic::Ldy, 3, 2, 0, AddressingModes::ZeroPage)),
        0xA5 => Some(Operation::new(Mnemonic::Lda, 3, 2, 0, AddressingModes::ZeroPage)),
        0xA6 => Some(Operation::new(Mnemonic::Ldx, 3, 2, 0, AddressingModes::ZeroPage)),
        0xA8 => Some(Operation::new(Mnemonic::Tay, 2, 1, 0, AddressingModes::Implicit)),
        0xA9 => Some(Operation::new(Mnemonic::Lda, 2, 2, 0, AddressingModes::Immediate)),
        0xAA => Some(Operation::new(Mnemonic::Tax, 2, 1, 0, AddressingModes::Implicit)),
        0xAC => Some(Operation::new(Mnemonic::Ldy, 4, 3, 0, AddressingModes::Absolute)),
        0xAD => Some(Operation::new(Mnemonic::Lda, 4, 3, 0, AddressingModes::Absolute)),
        0xAE => Some(Operation::new(Mnemonic::Ldx, 4, 3, 0, AddressingModes::Absolute)),
        0xB0 => Some(Operation::new(Mnemonic::Bcs, 2, 2, 1, AddressingModes::Relative)),
        0xB1 => Some(Operation::new(Mnemonic::Lda, 5, 2, 1, AddressingModes::IndirectIndexed)),
        0xB4 => Some(Operation::new(Mnemonic::Ldy, 4, 2, 0, AddressingModes::ZeroPageX)),
        0xB5 => Some(Operation::new(Mnemonic::Lda, 4, 2, 0, AddressingModes::ZeroPageX)),
        0xB6 => Some(Operation::new(Mnemonic::Ldx, 4, 2, 0, AddressingModes::ZeroPageY)),
        0xB8 => Some(Operation::new(Mnemonic::Clv, 2, 1, 0, AddressingModes::Implicit)),
        0xB9 => Some(Operation::new(Mnemonic::Lda, 4, 3, 1, AddressingModes::AbsoluteY)),
        0xBA => Some(Operation::new(Mnemonic::Tsx, 2, 1, 0, AddressingModes::Implicit)),
        0xBC => Some(Operation::new(Mnemonic::Ldy, 4, 3, 1, AddressingModes::AbsoluteX)),
        0xBD => Some(Operation::new(Mnemonic::Lda, 4, 3, 1, AddressingModes::AbsoluteX)),
        0xBE => Some(Operation::new(Mnemonic::Ldx, 4, 3, 1, AddressingModes::AbsoluteY)),
        0xC0 => Some(Operation::new(Mnemonic::Cpy, 2, 2, 0, AddressingModes::Immediate)),
        0xC1 => Some(Operation::new(Mnemonic::Cmp, 6, 2, 0, AddressingModes::IndexedIndirect)),
        0xC4 => Some(Operation::new(Mnemonic::Cpy, 3, 2, 0, AddressingModes::ZeroPage)),
        0xC5 => Some(Operation::new(Mnemonic::Cmp, 3, 2, 0, AddressingModes::ZeroPage)),
        0xC6 => Some(Operation::new(Mnemonic::Dec, 5, 2, 0, AddressingModes::ZeroPage)),
        0xC8 => Some(Operation::new(Mnemonic::Iny, 2, 1, 0, AddressingModes::Implicit)),
        0xC9 => Some(Operation::new(Mnemonic::Cmp, 2, 2, 0, AddressingModes::Immediate)),
        0xCA => Some(Operation::new(Mnemonic::Dex, 2, 1, 0, AddressingModes::Implicit)),
        0xCC => Some(Operation::new(Mnemonic::Cpy, 4, 3, 0, AddressingModes::Absolute)),
        0xCD => Some(Operation::new(Mnemonic::Cmp, 4, 3, 0, AddressingModes::Absolute)),
        0xCE => Some(Operation::new(Mnemonic::Dec, 6, 3, 0, AddressingModes::Absolute)),
        0xD0 => Some(Operation::new(Mnemonic::Bne, 2, 2, 1, AddressingModes::Relative)),
        0xD1 => Some(Operation::new(Mnemonic::Cmp, 5, 2, 1, AddressingModes::IndirectIndexed)),
        0xD5 => Some(Operation::new(Mnemonic::Cmp, 4, 2, 0, AddressingModes::ZeroPageX)),
        0xD6 => Some(Operation::new(Mnemonic::Dec, 6, 2, 0, AddressingModes::ZeroPageX)),
        0xD8 => Some(Operation::new(Mnemonic::Cld, 2, 1, 0, AddressingModes::Implicit)),
        0xD9 => Some(Operation::new(Mnemonic::Cmp, 4, 3, 1, AddressingModes::AbsoluteY)),
        0xDD => Some(Operation::new(Mnemonic::Cmp, 4, 3, 1, AddressingModes::AbsoluteX)),
        0xDE => Some(Operation::new(Mnemonic::Dec, 7, 3, 0, AddressingModes::AbsoluteX)),
        0xE0 => Some(Operation::new(Mnemonic::Cpx, 2, 2, 0, AddressingModes::Immediate)),
        0xE1 => Some(Operation::new(Mnemonic::Sbc, 6, 2, 0, AddressingModes::IndexedIndirect)),
        0xE4 => Some(Operation::new(Mnemonic::Cpx, 3, 2, 0, AddressingModes::ZeroPage)),
        0xE5 => Some(Operation::new(Mnemonic::Sbc, 3, 2, 0, AddressingModes::ZeroPage)),
        0xE6 => Some(Operation::new(Mnemonic::Inc, 5, 2, 0, AddressingModes::ZeroPage)),
        0xE8 => Some(Operation::new(Mnemonic::Inx, 2, 1, 0, AddressingModes::Implicit)),
        0xE9 => Some(Operation::new(Mnemonic::Sbc, 2, 2, 0, AddressingModes::Immediate)),
        0xEA => Some(Operation::new(Mnemonic::Nop, 2, 1, 0, AddressingModes::Implicit)),
        0xEC => Some(Operation::new(Mnemonic::Cpx, 4, 3, 0, AddressingModes::Absolute)),
        0xED => Some(Operation::new(Mnemonic::Sbc, 4, 3, 0, AddressingModes::Absolute)),
        0xEE => Some(Operation::new(Mnemonic::Inc, 6, 3, 0, AddressingModes::Absolute)),
        0xF0 => Some(Operation::new(Mnemonic::Beq, 2, 2, 1, AddressingModes::Relative)),
        0xF1 => Some(Operation::new(Mnemonic::Sbc, 5, 2, 1, AddressingModes::IndirectIndexed)),
        0xF5 => Some(Operation::new(Mnemonic::Sbc, 4, 2, 0, AddressingModes::ZeroPageX)),
        0xF6 => Some(Operation::new(Mnemonic::Inc, 6, 2, 0, AddressingModes::ZeroPageX)),
        0xF8 => Some(Operation::new(Mnemonic::Sed, 2, 1, 0, AddressingModes::Implicit)),
        0xF9 => Some(Operation::new(Mnemonic::Sbc, 4, 3, 1, AddressingModes::AbsoluteY)),
        0xFD => Some(Operation::new(Mnemonic::Sbc, 4, 3, 1, AddressingModes::AbsoluteX)),
        0xFE => Some(Operation::new(Mnemonic::Inc, 7, 3, 0, AddressingModes::AbsoluteX)),
        _ => None,
    }
}

} // verus!
