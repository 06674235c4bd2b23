use vstd::prelude::*;

verus! {

/// Stack pointer after reset.
pub const RESET_STACK_ADDRESS: u8 = 0xFD;

/// Status register after reset: Interrupt-Disable and Unused set.
pub const STATUS_REGISTER_INITIAL: u8 = 0x24;

pub const RAM_START: u16 = 0x0000;

/// Last address of the window that mirrors CPU RAM.
pub const RAM_MIRRORS_END: u16 = 0x1FFF;

pub const PPU_REGISTERS: u16 = 0x2000;

pub const PPU_REGISTERS_MIRRORS_END: u16 = 0x3FFF;

/// Size of CPU RAM in bytes.
pub const RAM_SIZE: u16 = 2048;

/// First address of the cartridge program window.
pub const PRG_ROM_START: u16 = 0x8000;

/// Base of the stack page.
pub const STACK_START: u16 = 0x0100;

pub const NMI_INTERRUPT_VECTOR_ADDRESS: u16 = 0xFFFA;

pub const RESET_PROGRAM_COUNTER_ADDRESS: u16 = 0xFFFC;

pub const IRQ_INTERRUPT_VECTOR_ADDRESS: u16 = 0xFFFE;

/// Cycles taken by the hardware interrupt sequence.
pub const INTERRUPT_CYCLES: u8 = 7;

} // verus!
