use crate::constants::{PRG_ROM_START, RAM_MIRRORS_END, RAM_SIZE};
use vstd::prelude::*;

verus! {

/// The CPU's view of the 16-bit address space.
///
/// 0x0000-0x1FFF: the 2 KiB of CPU RAM, mirrored four times.
/// 0x8000-0xFFFF: the cartridge's program ROM, where one is present.
/// The PPU, APU and I/O windows are not backed yet: reads give 0 and writes
/// are dropped.
pub struct Bus {
    pub cpu_ram: Vec<u8>,
    pub program_rom: Vec<u8>,
}

impl Bus {
    pub open spec fn wf(&self) -> bool {
        self.cpu_ram@.len() == RAM_SIZE as int
    }

    /// The byte that a read of `address` returns.
    pub open spec fn read_spec(&self, address: u16) -> u8 {
        if address <= RAM_MIRRORS_END {
            self.cpu_ram@[address as int % RAM_SIZE as int]
        } else if address >= PRG_ROM_START && address - PRG_ROM_START < self.program_rom@.len() {
            self.program_rom@[address - PRG_ROM_START]
        } else {
            0
        }
    }

    /// CPU RAM after `value` was written to `address`.
    pub open spec fn ram_after(ram: Seq<u8>, address: u16, value: u8) -> Seq<u8> {
        if address <= RAM_MIRRORS_END {
            ram.update(address as int % RAM_SIZE as int, value)
        } else {
            ram
        }
    }

    /// Whether this bus is `old` after `value` was written to `address`.
    pub open spec fn wrote(&self, old: Bus, address: u16, value: u8) -> bool {
        &&& self.program_rom@ == old.program_rom@
        &&& self.cpu_ram@ == Bus::ram_after(old.cpu_ram@, address, value)
    }

    /// A bus with zeroed RAM and no cartridge.
    pub fn new() -> (r: Bus)
        ensures
            r.wf(),
            r.program_rom@.len() == 0,
            forall|a: u16| #[trigger] r.read_spec(a) == 0,
    {
        Bus::with_program_rom(Vec::new())
    }

    /// A bus with zeroed RAM and `rom` mapped from 0x8000 on.
    pub fn with_program_rom(rom: Vec<u8>) -> (r: Bus)
        ensures
            r.wf(),
            r.program_rom@ == rom@,
            forall|i: int| 0 <= i < r.cpu_ram@.len() ==> r.cpu_ram@[i] == 0,
    {
        let mut cpu_ram: Vec<u8> = Vec::new();
        let mut i: u16 = 0;
        while i < RAM_SIZE
            invariant
                i <= RAM_SIZE,
                cpu_ram@.len() == i as int,
                forall|j: int| 0 <= j < cpu_ram@.len() ==> cpu_ram@[j] == 0,
            decreases RAM_SIZE - i,
        {
            cpu_ram.push(0);
            i = i + 1;
        }
        Bus { cpu_ram, program_rom: rom }
    }

    pub fn mem_read(&self, address: u16) -> (r: u8)
        requires
            self.wf(),
        ensures
            r == self.read_spec(address),
    {
        if address <= RAM_MIRRORS_END {
            let mirror_down_addr = address & (RAM_SIZE - 1);
            assert(address & 0x07FF == address % 2048) by (bit_vector);
            self.cpu_ram[mirror_down_addr as usize]
        } else if address >= PRG_ROM_START && ((address - PRG_ROM_START) as usize) < self.program_rom.len() {
            self.program_rom[(address - PRG_ROM_START) as usize]
        } else {
            0
        }
    }

    pub fn mem_write(&mut self, address: u16, value: u8)
        requires
            old(self).wf(),
        ensures
            final(self).wf(),
            final(self).wrote(*old(self), address, value),
    {
        if address <= RAM_MIRRORS_END {
            let mirror_down_addr = address & (RAM_SIZE - 1);
            assert(address & 0x07FF == address % 2048) by (bit_vector);
            self.cpu_ram.set(mirror_down_addr as usize, value);
        }
    }
}

} // verus!
