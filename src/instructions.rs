//! The instructions, one method each, with the program counter at the
//! operand (just past the opcode) when they run.
use crate::bus::Bus;
use crate::constants::IRQ_INTERRUPT_VECTOR_ADDRESS;
use crate::cpu::{
    add16, add8, adc_carry, adc_overflow, adc_result, asl_value, branch_condition, lsr_value,
    make_word, pulled_status, pushed_status, rol_value, ror_value, shift_status, signed, word, Cpu,
};
use crate::cpu_flags::{
    contains, set_flag, with_flag, with_zero_negative, BREAK, CARRY, INTERRUPT_DISABLE, NEGATIVE,
    OVERFLOW, UNUSED, ZERO,
};
use crate::operation::{AddressingModes, Mnemonic};
use vstd::prelude::*;

verus! {

// Instructions
impl Cpu {
    pub(crate) fn asl_accumulator(&mut self)
        ensures
            ({
                let (v, c) = asl_value(old(self).register_accumulator);
                *final(self) == (Cpu {
                    register_accumulator: v,
                    register_status: shift_status(old(self).register_status, c, v),
                    ..*old(self)
                })
            }),
    {
        let value = self.register_accumulator;
        self.register_status = set_flag(self.register_status, CARRY, value & 0x80 != 0);
        let value = value << 1u8;
        self.set_accumulator(value);
    }

    pub(crate) fn asl(&mut self, address: u16)
        requires
            old(self).wf(),
        ensures
            final(self).wf(),
            ({
                let (v, c) = asl_value(old(self).read(address));
                &&& final(self).bus.wrote(old(self).bus, address, v)
                &&& *final(self) == (Cpu {
                    register_status: shift_status(old(self).register_status, c, v),
                    bus: final(self).bus,
                    ..*old(self)
                })
            }),
    {
        let value = self.mem_read(address);
        self.register_status = set_flag(self.register_status, CARRY, value & 0x80 != 0);
        let value = value << 1u8;
        self.mem_write(address, value);
        self.update_zero_and_negative_flags(value);
    }

    pub(crate) fn and(&mut self, address: u16)
        requires
            old(self).wf(),
        ensures
            ({
                let v = old(self).register_accumulator & old(self).read(address);
                *final(self) == (Cpu {
                    register_accumulator: v,
                    register_status: with_zero_negative(old(self).register_status, v),
                    ..*old(self)
                })
            }),
    {
        let value = self.mem_read(address);
        self.set_accumulator(self.register_accumulator & value);
    }

    pub(crate) fn adc(&mut self, address: u16)
        requires
            old(self).wf(),
        ensures
            ({
                let a = old(self).register_accumulator;
                let m = old(self).read(address);
                let c = old(self).flag(CARRY);
                let r = adc_result(a, m, c);
                *final(self) == (Cpu {
                    register_accumulator: r,
                    register_status: with_zero_negative(
                        with_flag(
                            with_flag(old(self).register_status, CARRY, adc_carry(a, m, c)),
                            OVERFLOW,
                            adc_overflow(a, m, r),
                        ),
                        r,
                    ),
                    ..*old(self)
                })
            }),
    {
        let value = self.mem_read(address);
        self.add_to_accumulator(value);
    }

    pub(crate) fn bit(&mut self, address: u16)
        requires
            old(self).wf(),
        ensures
            ({
                let m = old(self).read(address);
                *final(self) == (Cpu {
                    register_status: with_flag(
                        with_flag(
                            with_flag(old(self).register_status, ZERO, old(self).register_accumulator & m == 0),
                            OVERFLOW,
                            m & 0x40 != 0,
                        ),
                        NEGATIVE,
                        m & 0x80 != 0,
                    ),
                    ..*old(self)
                })
            }),
    {
        let value = self.mem_read(address);
        let status = set_flag(self.register_status, ZERO, self.register_accumulator & value == 0);
        let status = set_flag(status, OVERFLOW, value & 0x40 != 0);
        self.register_status = set_flag(status, NEGATIVE, value & 0x80 != 0);
    }

    /// BRK, with the program counter just past the opcode: pushes the
    /// address two bytes past the opcode and the status with Break and Unused
    /// set, sets Interrupt-Disable and jumps through the IRQ vector.
    pub(crate) fn brk(&mut self)
        requires
            old(self).wf(),
        ensures
            final(self).wf(),
            final(self).bus.program_rom@ == old(self).bus.program_rom@,
            final(self).bus.cpu_ram@ == Bus::ram_after(
                Bus::ram_after(
                    Bus::ram_after(
                        old(self).bus.cpu_ram@,
                        old(self).stack_slot(0),
                        (add16(old(self).program_counter, 1) / 0x100) as u8,
                    ),
                    old(self).stack_slot(-1),
                    (add16(old(self).program_counter, 1) % 0x100) as u8,
                ),
                old(self).stack_slot(-2),
                pushed_status(old(self).register_status),
            ),
            *final(self) == (Cpu {
                program_counter: old(self).read16(IRQ_INTERRUPT_VECTOR_ADDRESS),
                stack_pointer: add8(old(self).stack_pointer, -3),
                register_status: with_flag(old(self).register_status, INTERRUPT_DISABLE, true),
                bus: final(self).bus,
                ..*old(self)
            }),
    {
        let ghost start = *self;
        self.stack_push_u16(self.program_counter.wrapping_add(1));
        self.stack_push(self.register_status | BREAK | UNUSED);
        let new_pc = self.mem_read_u16(IRQ_INTERRUPT_VECTOR_ADDRESS);
        assert(new_pc == start.read16(IRQ_INTERRUPT_VECTOR_ADDRESS));
        self.program_counter = new_pc;
        self.set_interrupt_disable_flag();
    }

    pub(crate) fn dec(&mut self, address: u16)
        requires
            old(self).wf(),
        ensures
            final(self).wf(),
            ({
                let v = add8(old(self).read(address), -1);
                &&& final(self).bus.wrote(old(self).bus, address, v)
                &&& *final(self) == (Cpu {
                    register_status: with_zero_negative(old(self).register_status, v),
                    bus: final(self).bus,
                    ..*old(self)
                })
            }),
    {
        let value = self.mem_read(address);
        let value = value.wrapping_sub(1);
        self.mem_write(address, value);
        self.update_zero_and_negative_flags(value);
    }

    pub(crate) fn dex(&mut self)
        ensures
            ({
                let v = add8(old(self).register_x, -1);
                *final(self) == (Cpu {
                    register_x: v,
                    register_status: with_zero_negative(old(self).register_status, v),
                    ..*old(self)
                })
            }),
    {
        self.register_x = self.register_x.wrapping_sub(1);
        self.update_zero_and_negative_flags(self.register_x);
    }

    pub(crate) fn dey(&mut self)
        ensures
            ({
                let v = add8(old(self).register_y, -1);
                *final(self) == (Cpu {
                    register_y: v,
                    register_status: with_zero_negative(old(self).register_status, v),
                    ..*old(self)
                })
            }),
    {
        self.register_y = self.register_y.wrapping_sub(1);
        self.update_zero_and_negative_flags(self.register_y);
    }

    pub(crate) fn eor(&mut self, address: u16)
        requires
            old(self).wf(),
        ensures
            ({
                let v = old(self).register_accumulator ^ old(self).read(address);
                *final(self) == (Cpu {
                    register_accumulator: v,
                    register_status: with_zero_negative(old(self).register_status, v),
                    ..*old(self)
                })
            }),
    {
        let value = self.mem_read(address);
        self.set_accumulator(self.register_accumulator ^ value);
    }

    pub(crate) fn inc(&mut self, address: u16)
        requires
            old(self).wf(),
        ensures
            final(self).wf(),
            ({
                let v = add8(old(self).read(address), 1);
                &&& final(self).bus.wrote(old(self).bus, address, v)
                &&& *final(self) == (Cpu {
                    register_status: with_zero_negative(old(self).register_status, v),
                    bus: final(self).bus,
                    ..*old(self)
                })
            }),
    {
        let value = self.mem_read(address);
        let value = value.wrapping_add(1);
        self.mem_write(address, value);
        self.update_zero_and_negative_flags(value);
    }

    pub(crate) fn inx(&mut self)
        ensures
            ({
                let v = add8(old(self).register_x, 1);
                *final(self) == (Cpu {
                    register_x: v,
                    register_status: with_zero_negative(old(self).register_status, v),
                    ..*old(self)
                })
            }),
    {
        self.register_x = self.register_x.wrapping_add(1);
        self.update_zero_and_negative_flags(self.register_x);
    }

    pub(crate) fn iny(&mut self)
        ensures
            ({
                let v = add8(old(self).register_y, 1);
                *final(self) == (Cpu {
                    register_y: v,
                    register_status: with_zero_negative(old(self).register_status, v),
                    ..*old(self)
                })
            }),
    {
        self.register_y = self.register_y.wrapping_add(1);
        self.update_zero_and_negative_flags(self.register_y);
    }
}

// Instructions, continued
impl Cpu {
    /// JMP absolute, with the program counter at the operand.
    pub(crate) fn jmp_absolute(&mut self)
        requires
            old(self).wf(),
        ensures
            *final(self) == (Cpu {
                program_counter: old(self).read16(old(self).program_counter),
                ..*old(self)
            }),
    {
        let pc = self.mem_read_u16(self.program_counter);
        self.program_counter = pc;
    }

    /// JMP indirect, with the program counter at the operand.
    pub(crate) fn jmp_indirect(&mut self)
        requires
            old(self).wf(),
        ensures
            *final(self) == (Cpu {
                program_counter: old(self).indirect_target(old(self).program_counter),
                ..*old(self)
            }),
    {
        let address = self.get_address_for_indirect();
        self.program_counter = address;
    }

    /// JSR, with the program counter at the operand: pushes the address of
    /// the instruction's last byte and jumps to `address`.
    pub(crate) fn jsr(&mut self, address: u16)
        requires
            old(self).wf(),
        ensures
            final(self).wf(),
            final(self).bus.program_rom@ == old(self).bus.program_rom@,
            final(self).bus.cpu_ram@ == Bus::ram_after(
                Bus::ram_after(
                    old(self).bus.cpu_ram@,
                    old(self).stack_slot(0),
                    (add16(old(self).program_counter, 1) / 0x100) as u8,
                ),
                old(self).stack_slot(-1),
                (add16(old(self).program_counter, 1) % 0x100) as u8,
            ),
            *final(self) == (Cpu {
                program_counter: address,
                stack_pointer: add8(old(self).stack_pointer, -2),
                bus: final(self).bus,
                ..*old(self)
            }),
    {
        let return_address = self.program_counter.wrapping_add(1);
        self.stack_push_u16(return_address);
        self.program_counter = address;
    }

    pub(crate) fn lda(&mut self, address: u16)
        requires
            old(self).wf(),
        ensures
            ({
                let v = old(self).read(address);
                *final(self) == (Cpu {
                    register_accumulator: v,
                    register_status: with_zero_negative(old(self).register_status, v),
                    ..*old(self)
                })
            }),
    {
        let value = self.mem_read(address);
        self.register_accumulator = value;
        self.update_zero_and_negative_flags(value);
    }

    pub(crate) fn ldx(&mut self, address: u16)
        requires
            old(self).wf(),
        ensures
            ({
                let v = old(self).read(address);
                *final(self) == (Cpu {
                    register_x: v,
                    register_status: with_zero_negative(old(self).register_status, v),
                    ..*old(self)
                })
            }),
    {
        let value = self.mem_read(address);
        self.register_x = value;
        self.update_zero_and_negative_flags(value);
    }

    pub(crate) fn ldy(&mut self, address: u16)
        requires
            old(self).wf(),
        ensures
            ({
                let v = old(self).read(address);
                *final(self) == (Cpu {
                    register_y: v,
                    register_status: with_zero_negative(old(self).register_status, v),
                    ..*old(self)
                })
            }),
    {
        let value = self.mem_read(address);
        self.register_y = value;
        self.update_zero_and_negative_flags(value);
    }

    pub(crate) fn lsr_accumulator(&mut self)
        ensures
            ({
                let (v, c) = lsr_value(old(self).register_accumulator);
                *final(self) == (Cpu {
                    register_accumulator: v,
                    register_status: shift_status(old(self).register_status, c, v),
                    ..*old(self)
                })
            }),
    {
        let value = self.register_accumulator;
        self.register_status = set_flag(self.register_status, CARRY, value & 0x01 != 0);
        let value = value >> 1u8;
        self.set_accumulator(value);
    }

    pub(crate) fn lsr(&mut self, address: u16)
        requires
            old(self).wf(),
        ensures
            final(self).wf(),
            ({
                let (v, c) = lsr_value(old(self).read(address));
                &&& final(self).bus.wrote(old(self).bus, address, v)
                &&& *final(self) == (Cpu {
                    register_status: shift_status(old(self).register_status, c, v),
                    bus: final(self).bus,
                    ..*old(self)
                })
            }),
    {
        let value = self.mem_read(address);
        self.register_status = set_flag(self.register_status, CARRY, value & 0x01 != 0);
        let value = value >> 1u8;
        self.mem_write(address, value);
        self.update_zero_and_negative_flags(value);
    }

    pub(crate) fn ora(&mut self, address: u16)
        requires
            old(self).wf(),
        ensures
            ({
                let v = old(self).register_accumulator | old(self).read(address);
                *final(self) == (Cpu {
                    register_accumulator: v,
                    register_status: with_zero_negative(old(self).register_status, v),
                    ..*old(self)
                })
            }),
    {
        let value = self.mem_read(address);
        self.set_accumulator(self.register_accumulator | value);
    }

    pub(crate) fn pha(&mut self)
        requires
            old(self).wf(),
        ensures
            final(self).wf(),
            final(self).bus.wrote(old(self).bus, old(self).stack_slot(0), old(self).register_accumulator),
            *final(self) == (Cpu {
                stack_pointer: add8(old(self).stack_pointer, -1),
                bus: final(self).bus,
                ..*old(self)
            }),
    {
        self.stack_push(self.register_accumulator);
    }

    /// PHP: pushes the status with Break and Unused set; the status itself
    /// is unchanged.
    pub(crate) fn php(&mut self)
        requires
            old(self).wf(),
        ensures
            final(self).wf(),
            final(self).bus.wrote(old(self).bus, old(self).stack_slot(0), pushed_status(old(self).register_status)),
            *final(self) == (Cpu {
                stack_pointer: add8(old(self).stack_pointer, -1),
                bus: final(self).bus,
                ..*old(self)
            }),
    {
        let flags = self.register_status | BREAK | UNUSED;
        self.stack_push(flags);
    }

    pub(crate) fn pla(&mut self)
        requires
            old(self).wf(),
        ensures
            ({
                let v = old(self).read(old(self).stack_slot(1));
                *final(self) == (Cpu {
                    stack_pointer: add8(old(self).stack_pointer, 1),
                    register_accumulator: v,
                    register_status: with_zero_negative(old(self).register_status, v),
                    ..*old(self)
                })
            }),
    {
        let value = self.stack_pop();
        self.set_accumulator(value);
    }

    /// PLP: every byte is a valid status; Break is cleared and Unused set.
    pub(crate) fn plp(&mut self)
        requires
            old(self).wf(),
        ensures
            *final(self) == (Cpu {
                stack_pointer: add8(old(self).stack_pointer, 1),
                register_status: pulled_status(old(self).read(old(self).stack_slot(1))),
                ..*old(self)
            }),
    {
        let flags = self.stack_pop();
        let flags = set_flag(flags, BREAK, false);
        self.register_status = set_flag(flags, UNUSED, true);
    }

    pub(crate) fn rol_accumulator(&mut self)
        ensures
            ({
                let (v, c) = rol_value(old(self).register_accumulator, old(self).flag(CARRY));
                *final(self) == (Cpu {
                    register_accumulator: v,
                    register_status: shift_status(old(self).register_status, c, v),
                    ..*old(self)
                })
            }),
    {
        let value = self.register_accumulator;
        let carry_in = contains(self.register_status, CARRY);
        self.register_status = set_flag(self.register_status, CARRY, value & 0x80 != 0);
        let value = (value << 1u8) | if carry_in { 0x01u8 } else { 0u8 };
        self.set_accumulator(value);
    }

    pub(crate) fn rol(&mut self, address: u16)
        requires
            old(self).wf(),
        ensures
            final(self).wf(),
            ({
                let (v, c) = rol_value(old(self).read(address), old(self).flag(CARRY));
                &&& final(self).bus.wrote(old(self).bus, address, v)
                &&& *final(self) == (Cpu {
                    register_status: shift_status(old(self).register_status, c, v),
                    bus: final(self).bus,
                    ..*old(self)
                })
            }),
    {
        let value = self.mem_read(address);
        let carry_in = contains(self.register_status, CARRY);
        self.register_status = set_flag(self.register_status, CARRY, value & 0x80 != 0);
        let value = (value << 1u8) | if carry_in { 0x01u8 } else { 0u8 };
        self.mem_write(address, value);
        self.update_zero_and_negative_flags(value);
    }

    pub(crate) fn ror_accumulator(&mut self)
        ensures
            ({
                let (v, c) = ror_value(old(self).register_accumulator, old(self).flag(CARRY));
                *final(self) == (Cpu {
                    register_accumulator: v,
                    register_status: shift_status(old(self).register_status, c, v),
                    ..*old(self)
                })
            }),
    {
        let value = self.register_accumulator;
        let carry_in = contains(self.register_status, CARRY);
        self.register_status = set_flag(self.register_status, CARRY, value & 0x01 != 0);
        let value = (value >> 1u8) | if carry_in { 0x80u8 } else { 0u8 };
        self.set_accumulator(value);
    }

    pub(crate) fn ror(&mut self, address: u16)
        requires
            old(self).wf(),
        ensures
            final(self).wf(),
            ({
                let (v, c) = ror_value(old(self).read(address), old(self).flag(CARRY));
                &&& final(self).bus.wrote(old(self).bus, address, v)
                &&& *final(self) == (Cpu {
                    register_status: shift_status(old(self).register_status, c, v),
                    bus: final(self).bus,
                    ..*old(self)
                })
            }),
    {
        let value = self.mem_read(address);
        let carry_in = contains(self.register_status, CARRY);
        self.register_status = set_flag(self.register_status, CARRY, value & 0x01 != 0);
        let value = (value >> 1u8) | if carry_in { 0x80u8 } else { 0u8 };
        self.mem_write(address, value);
        self.update_zero_and_negative_flags(value);
    }

    /// RTI: pulls the status (Break cleared, Unused set), then the program
    /// counter, with no adjustment.
    pub(crate) fn rti(&mut self)
        requires
            old(self).wf(),
        ensures
            *final(self) == (Cpu {
                program_counter: word(
                    old(self).read(old(self).stack_slot(2)),
                    old(self).read(old(self).stack_slot(3)),
                ),
                stack_pointer: add8(old(self).stack_pointer, 3),
                register_status: pulled_status(old(self).read(old(self).stack_slot(1))),
                ..*old(self)
            }),
    {
        self.plp();
        let pc = self.stack_pop_u16();
        self.program_counter = pc;
    }

    /// RTS: pulls the program counter and adds one.
    pub(crate) fn rts(&mut self)
        requires
            old(self).wf(),
        ensures
            *final(self) == (Cpu {
                program_counter: add16(
                    word(old(self).read(old(self).stack_slot(1)), old(self).read(old(self).stack_slot(2))),
                    1,
                ),
                stack_pointer: add8(old(self).stack_pointer, 2),
                ..*old(self)
            }),
    {
        let pc = self.stack_pop_u16();
        self.program_counter = pc.wrapping_add(1);
    }

    /// SBC: ADC of the operand's complement.
    pub(crate) fn sbc(&mut self, address: u16)
        requires
            old(self).wf(),
        ensures
            ({
                let a = old(self).register_accumulator;
                let m = old(self).read(address) ^ 0xFF;
                let c = old(self).flag(CARRY);
                let r = adc_result(a, m, c);
                *final(self) == (Cpu {
                    register_accumulator: r,
                    register_status: with_zero_negative(
                        with_flag(
                            with_flag(old(self).register_status, CARRY, adc_carry(a, m, c)),
                            OVERFLOW,
                            adc_overflow(a, m, r),
                        ),
                        r,
                    ),
                    ..*old(self)
                })
            }),
    {
        let value = self.mem_read(address);
        self.add_to_accumulator(value ^ 0xFF);
    }

    pub(crate) fn sta(&mut self, address: u16)
        requires
            old(self).wf(),
        ensures
            final(self).wf(),
            final(self).bus.wrote(old(self).bus, address, old(self).register_accumulator),
            *final(self) == (Cpu { bus: final(self).bus, ..*old(self) }),
    {
        let value = self.register_accumulator;
        self.mem_write(address, value)
    }

    pub(crate) fn stx(&mut self, address: u16)
        requires
            old(self).wf(),
        ensures
            final(self).wf(),
            final(self).bus.wrote(old(self).bus, address, old(self).register_x),
            *final(self) == (Cpu { bus: final(self).bus, ..*old(self) }),
    {
        let value = self.register_x;
        self.mem_write(address, value)
    }

    pub(crate) fn sty(&mut self, address: u16)
        requires
            old(self).wf(),
        ensures
            final(self).wf(),
            final(self).bus.wrote(old(self).bus, address, old(self).register_y),
            *final(self) == (Cpu { bus: final(self).bus, ..*old(self) }),
    {
        let value = self.register_y;
        self.mem_write(address, value)
    }

    pub(crate) fn tax(&mut self)
        ensures
            *final(self) == (Cpu {
                register_x: old(self).register_accumulator,
                register_status: with_zero_negative(old(self).register_status, old(self).register_accumulator),
                ..*old(self)
            }),
    {
        let value = self.register_accumulator;
        self.register_x = value;
        self.update_zero_and_negative_flags(value);
    }

    pub(crate) fn tay(&mut self)
        ensures
            *final(self) == (Cpu {
                register_y: old(self).register_accumulator,
                register_status: with_zero_negative(old(self).register_status, old(self).register_accumulator),
                ..*old(self)
            }),
    {
        let value = self.register_accumulator;
        self.register_y = value;
        self.update_zero_and_negative_flags(value);
    }

    pub(crate) fn tsx(&mut self)
        ensures
            *final(self) == (Cpu {
                register_x: old(self).stack_pointer,
                register_status: with_zero_negative(old(self).register_status, old(self).stack_pointer),
                ..*old(self)
            }),
    {
        let value = self.stack_pointer;
        self.register_x = value;
        self.update_zero_and_negative_flags(value);
    }

    pub(crate) fn txa(&mut self)
        ensures
            *final(self) == (Cpu {
                register_accumulator: old(self).register_x,
                register_status: with_zero_negative(old(self).register_status, old(self).register_x),
                ..*old(self)
            }),
    {
        let value = self.register_x;
        self.register_accumulator = value;
        self.update_zero_and_negative_flags(value);
    }

    pub(crate) fn txs(&mut self)
        ensures
            *final(self) == (Cpu {
                stack_pointer: old(self).register_x,
                ..*old(self)
            }),
    {
        self.stack_pointer = self.register_x;
    }

    pub(crate) fn tya(&mut self)
        ensures
            *final(self) == (Cpu {
                register_accumulator: old(self).register_y,
                register_status: with_zero_negative(old(self).register_status, old(self).register_y),
                ..*old(self)
            }),
    {
        let value = self.register_y;
        self.register_accumulator = value;
        self.update_zero_and_negative_flags(value);
    }
}

// Compare and branch
impl Cpu {
    pub(crate) fn compare(&mut self, address: u16, register_value: u8)
        requires
            old(self).wf(),
        ensures
            ({
                let m = old(self).read(address);
                *final(self) == (Cpu {
                    register_status: with_zero_negative(
                        with_flag(old(self).register_status, CARRY, register_value >= m),
                        add8(register_value, -m),
                    ),
                    ..*old(self)
                })
            }),
    {
        let value = self.mem_read(address);
        self.register_status = set_flag(self.register_status, CARRY, register_value >= value);
        self.update_zero_and_negative_flags(register_value.wrapping_sub(value));
    }

    pub(crate) fn cmp(&mut self, address: u16)
        requires
            old(self).wf(),
        ensures
            ({
                let m = old(self).read(address);
                let r = old(self).register_accumulator;
                *final(self) == (Cpu {
                    register_status: with_zero_negative(
                        with_flag(old(self).register_status, CARRY, r >= m),
                        add8(r, -m),
                    ),
                    ..*old(self)
                })
            }),
    {
        self.compare(address, self.register_accumulator);
    }

    pub(crate) fn cpx(&mut self, address: u16)
        requires
            old(self).wf(),
        ensures
            ({
                let m = old(self).read(address);
                let r = old(self).register_x;
                *final(self) == (Cpu {
                    register_status: with_zero_negative(
                        with_flag(old(self).register_status, CARRY, r >= m),
                        add8(r, -m),
                    ),
                    ..*old(self)
                })
            }),
    {
        self.compare(address, self.register_x);
    }

    pub(crate) fn cpy(&mut self, address: u16)
        requires
            old(self).wf(),
        ensures
            ({
                let m = old(self).read(address);
                let r = old(self).register_y;
                *final(self) == (Cpu {
                    register_status: with_zero_negative(
                        with_flag(old(self).register_status, CARRY, r >= m),
                        add8(r, -m),
                    ),
                    ..*old(self)
                })
            }),
    {
        self.compare(address, self.register_y);
    }

    /// With the program counter at the offset byte: when `condition` holds,
    /// moves it by the signed offset past that byte, else just past it.
    pub(crate) fn branch_helper(&mut self, condition: bool) -> (taken: bool)
        requires
            old(self).wf(),
        ensures
            taken == condition,
            *final(self) == (Cpu {
                program_counter: if condition {
                    add16(old(self).program_counter, 1 + signed(old(self).read(old(self).program_counter)))
                } else {
                    add16(old(self).program_counter, 1)
                },
                ..*old(self)
            }),
    {
        let next = self.program_counter.wrapping_add(1);
        if condition {
            let jump = self.mem_read(self.program_counter);
            self.program_counter = if jump < 0x80 {
                next.wrapping_add(jump as u16)
            } else {
                next.wrapping_sub(0x100 - jump as u16)
            };
        } else {
            self.program_counter = next;
        }
        condition
    }

    /// BPL: branch if Negative is clear.
    pub(crate) fn bpl(&mut self) -> (taken: bool)
        requires
            old(self).wf(),
        ensures
            taken == branch_condition(old(self).register_status, Mnemonic::Bpl),
            *final(self) == (Cpu {
                program_counter: old(self).control_target(Mnemonic::Bpl, AddressingModes::Relative, old(self).program_counter),
                ..*old(self)
            }),
    {
        self.branch_helper(!contains(self.register_status, NEGATIVE))
    }

    /// Branch if Carry is clear.
    pub(crate) fn bcc(&mut self) -> (taken: bool)
        requires
            old(self).wf(),
        ensures
            taken == branch_condition(old(self).register_status, Mnemonic::Bcc),
            *final(self) == (Cpu {
                program_counter: old(self).control_target(Mnemonic::Bcc, AddressingModes::Relative, old(self).program_counter),
                ..*old(self)
            }),
    {
        self.branch_helper(!contains(self.register_status, CARRY))
    }

    /// Branch if Carry is set.
    pub(crate) fn bcs(&mut self) -> (taken: bool)
        requires
            old(self).wf(),
        ensures
            taken == branch_condition(old(self).register_status, Mnemonic::Bcs),
            *final(self) == (Cpu {
                program_counter: old(self).control_target(Mnemonic::Bcs, AddressingModes::Relative, old(self).program_counter),
                ..*old(self)
            }),
    {
        self.branch_helper(contains(self.register_status, CARRY))
    }

    /// Branch if Zero is set.
    pub(crate) fn beq(&mut self) -> (taken: bool)
        requires
            old(self).wf(),
        ensures
            taken == branch_condition(old(self).register_status, Mnemonic::Beq),
            *final(self) == (Cpu {
                program_counter: old(self).control_target(Mnemonic::Beq, AddressingModes::Relative, old(self).program_counter),
                ..*old(self)
            }),
    {
        self.branch_helper(contains(self.register_status, ZERO))
    }

    /// Branch if Negative is set.
    pub(crate) fn bmi(&mut self) -> (taken: bool)
        requires
            old(self).wf(),
        ensures
            taken == branch_condition(old(self).register_status, Mnemonic::Bmi),
            *final(self) == (Cpu {
                program_counter: old(self).control_target(Mnemonic::Bmi, AddressingModes::Relative, old(self).program_counter),
                ..*old(self)
            }),
    {
        self.branch_helper(contains(self.register_status, NEGATIVE))
    }

    /// Branch if Zero is clear.
    pub(crate) fn bne(&mut self) -> (taken: bool)
        requires
            old(self).wf(),
        ensures
            taken == branch_condition(old(self).register_status, Mnemonic::Bne),
            *final(self) == (Cpu {
                program_counter: old(self).control_target(Mnemonic::Bne, AddressingModes::Relative, old(self).program_counter),
                ..*old(self)
            }),
    {
        self.branch_helper(!contains(self.register_status, ZERO))
    }

    /// Branch if Overflow is clear.
    pub(crate) fn bvc(&mut self) -> (taken: bool)
        requires
            old(self).wf(),
        ensures
            taken == branch_condition(old(self).register_status, Mnemonic::Bvc),
            *final(self) == (Cpu {
                program_counter: old(self).control_target(Mnemonic::Bvc, AddressingModes::Relative, old(self).program_counter),
                ..*old(self)
            }),
    {
        self.branch_helper(!contains(self.register_status, OVERFLOW))
    }

    /// Branch if Overflow is set.
    pub(crate) fn bvs(&mut self) -> (taken: bool)
        requires
            old(self).wf(),
        ensures
            taken == branch_condition(old(self).register_status, Mnemonic::Bvs),
            *final(self) == (Cpu {
                program_counter: old(self).control_target(Mnemonic::Bvs, AddressingModes::Relative, old(self).program_counter),
                ..*old(self)
            }),
    {
        self.branch_helper(contains(self.register_status, OVERFLOW))
    }
}

} // verus!
