//! What each instruction does to the processor state, as one relation.
use crate::bus::Bus;
use crate::cpu::{
    adc_result, adc_status, add16, add8, asl_value, bit_status, compare_status, lsr_value,
    pulled_status, pushed_status, rol_value, ror_value, shift_status, Cpu,
};
use crate::cpu_flags::{
    with_flag, with_zero_negative, CARRY, DECIMAL_MODE, INTERRUPT_DISABLE, OVERFLOW,
};
use crate::operation::{AddressingModes, Mnemonic};
use vstd::prelude::*;

verus! {

impl Cpu {
    /// Whether `post` is this state after the instruction `name` in `mode`
    /// with effective address `address` ran, the program counter being at
    /// its operand, and then the program counter was put back.
    #[verifier::opaque]
    pub open spec fn effect_in_place(
        &self,
        post: Cpu,
        name: Mnemonic,
        mode: AddressingModes,
        address: u16,
    ) -> bool {
        match name {
            Mnemonic::Adc => {
                let m = self.read(address);
                let r = adc_result(self.register_accumulator, m, self.flag(CARRY));
                post == (Cpu {
                    register_accumulator: r,
                    register_status: adc_status(self.register_status, self.register_accumulator, m),
                    ..*self
                })
            },
            Mnemonic::Sbc => {
                let m = self.read(address) ^ 0xFF;
                let r = adc_result(self.register_accumulator, m, self.flag(CARRY));
                post == (Cpu {
                    register_accumulator: r,
                    register_status: adc_status(self.register_status, self.register_accumulator, m),
                    ..*self
                })
            },
            Mnemonic::And => {
                let v = self.register_accumulator & self.read(address);
                post == (Cpu {
                    register_accumulator: v,
                    register_status: with_zero_negative(self.register_status, v),
                    ..*self
                })
            },
            Mnemonic::Ora => {
                let v = self.register_accumulator | self.read(address);
                post == (Cpu {
                    register_accumulator: v,
                    register_status: with_zero_negative(self.register_status, v),
                    ..*self
                })
            },
            Mnemonic::Eor => {
                let v = self.register_accumulator ^ self.read(address);
                post == (Cpu {
                    register_accumulator: v,
                    register_status: with_zero_negative(self.register_status, v),
                    ..*self
                })
            },
            Mnemonic::Cmp => post == (Cpu {
                register_status: compare_status(self.register_status, self.register_accumulator, self.read(address)),
                ..*self
            }),
            Mnemonic::Cpx => post == (Cpu {
                register_status: compare_status(self.register_status, self.register_x, self.read(address)),
                ..*self
            }),
            Mnemonic::Cpy => post == (Cpu {
                register_status: compare_status(self.register_status, self.register_y, self.read(address)),
                ..*self
            }),
            Mnemonic::Bit => post == (Cpu {
                register_status: bit_status(self.register_status, self.register_accumulator, self.read(address)),
                ..*self
            }),
            Mnemonic::Lda => {
                let v = self.read(address);
                post == (Cpu {
                    register_accumulator: v,
                    register_status: with_zero_negative(self.register_status, v),
                    ..*self
                })
            },
            Mnemonic::Ldx => {
                let v = self.read(address);
                post == (Cpu {
                    register_x: v,
                    register_status: with_zero_negative(self.register_status, v),
                    ..*self
                })
            },
            Mnemonic::Ldy => {
                let v = self.read(address);
                post == (Cpu {
                    register_y: v,
                    register_status: with_zero_negative(self.register_status, v),
                    ..*self
                })
            },
            Mnemonic::Sta => {
                &&& post.bus.wrote(self.bus, address, self.register_accumulator)
                &&& post == (Cpu {
                    bus: post.bus,
                    ..*self
                })
            },
            Mnemonic::Stx => {
                &&& post.bus.wrote(self.bus, address, self.register_x)
                &&& post == (Cpu {
                    bus: post.bus,
                    ..*self
                })
            },
            Mnemonic::Sty => {
                &&& post.bus.wrote(self.bus, address, self.register_y)
                &&& post == (Cpu {
                    bus: post.bus,
                    ..*self
                })
            },
            Mnemonic::Inc => {
                let v = add8(self.read(address), 1);
                &&& post.bus.wrote(self.bus, address, v)
                &&& post == (Cpu {
                    register_status: with_zero_negative(self.register_status, v),
                    bus: post.bus,
                    ..*self
                })
            },
            Mnemonic::Dec => {
                let v = add8(self.read(address), -1);
                &&& post.bus.wrote(self.bus, address, v)
                &&& post == (Cpu {
                    register_status: with_zero_negative(self.register_status, v),
                    bus: post.bus,
                    ..*self
                })
            },
            Mnemonic::Inx => {
                let v = add8(self.register_x, 1);
                post == (Cpu {
                    register_x: v,
                    register_status: with_zero_negative(self.register_status, v),
                    ..*self
                })
            },
            Mnemonic::Iny => {
                let v = add8(self.register_y, 1);
                post == (Cpu {
                    register_y: v,
                    register_status: with_zero_negative(self.register_status, v),
                    ..*self
                })
            },
            Mnemonic::Dex => {
                let v = add8(self.register_x, -1);
                post == (Cpu {
                    register_x: v,
                    register_status: with_zero_negative(self.register_status, v),
                    ..*self
                })
            },
            Mnemonic::Dey => {
                let v = add8(self.register_y, -1);
                post == (Cpu {
                    register_y: v,
                    register_status: with_zero_negative(self.register_status, v),
                    ..*self
                })
            },
            Mnemonic::Asl => if mode == AddressingModes::Accumulator {
                let (v, c) = asl_value(self.register_accumulator);
                post == (Cpu {
                    register_accumulator: v,
                    register_status: shift_status(self.register_status, c, v),
                    ..*self
                })
            } else {
                let (v, c) = asl_value(self.read(address));
                &&& post.bus.wrote(self.bus, address, v)
                &&& post == (Cpu {
                    register_status: shift_status(self.register_status, c, v),
                    bus: post.bus,
                    ..*self
                })
            },
            Mnemonic::Lsr => if mode == AddressingModes::Accumulator {
                let (v, c) = lsr_value(self.register_accumulator);
                post == (Cpu {
                    register_accumulator: v,
                    register_status: shift_status(self.register_status, c, v),
                    ..*self
                })
            } else {
                let (v, c) = lsr_value(self.read(address));
                &&& post.bus.wrote(self.bus, address, v)
                &&& post == (Cpu {
                    register_status: shift_status(self.register_status, c, v),
                    bus: post.bus,
                    ..*self
                })
            },
            Mnemonic::Rol => if mode == AddressingModes::Accumulator {
                let (v, c) = rol_value(self.register_accumulator, self.flag(CARRY));
                post == (Cpu {
                    register_accumulator: v,
                    register_status: shift_status(self.register_status, c, v),
                    ..*self
                })
            } else {
                let (v, c) = rol_value(self.read(address), self.flag(CARRY));
                &&& post.bus.wrote(self.bus, address, v)
                &&& post == (Cpu {
                    register_status: shift_status(self.register_status, c, v),
                    bus: post.bus,
                    ..*self
                })
            },
            Mnemonic::Ror => if mode == AddressingModes::Accumulator {
                let (v, c) = ror_value(self.register_accumulator, self.flag(CARRY));
                post == (Cpu {
                    register_accumulator: v,
                    register_status: shift_status(self.register_status, c, v),
                    ..*self
                })
            } else {
                let (v, c) = ror_value(self.read(address), self.flag(CARRY));
                &&& post.bus.wrote(self.bus, address, v)
                &&& post == (Cpu {
                    register_status: shift_status(self.register_status, c, v),
                    bus: post.bus,
                    ..*self
                })
            },
            Mnemonic::Tax => post == (Cpu {
                register_x: self.register_accumulator,
                register_status: with_zero_negative(self.register_status, self.register_accumulator),
                ..*self
            }),
            Mnemonic::Tay => post == (Cpu {
                register_y: self.register_accumulator,
                register_status: with_zero_negative(self.register_status, self.register_accumulator),
                ..*self
            }),
            Mnemonic::Tsx => post == (Cpu {
                register_x: self.stack_pointer,
                register_status: with_zero_negative(self.register_status, self.stack_pointer),
                ..*self
            }),
            Mnemonic::Txa => post == (Cpu {
                register_accumulator: self.register_x,
                register_status: with_zero_negative(self.register_status, self.register_x),
                ..*self
            }),
            Mnemonic::Tya => post == (Cpu {
                register_accumulator: self.register_y,
                register_status: with_zero_negative(self.register_status, self.register_y),
                ..*self
            }),
            Mnemonic::Txs => post == (Cpu {
                stack_pointer: self.register_x,
                ..*self
            }),
            Mnemonic::Pha => {
                &&& post.bus.wrote(self.bus, self.stack_slot(0), self.register_accumulator)
                &&& post == (Cpu {
                    stack_pointer: add8(self.stack_pointer, -1),
                    bus: post.bus,
                    ..*self
                })
            },
            Mnemonic::Php => {
                &&& post.bus.wrote(self.bus, self.stack_slot(0), pushed_status(self.register_status))
                &&& post == (Cpu {
                    stack_pointer: add8(self.stack_pointer, -1),
                    bus: post.bus,
                    ..*self
                })
            },
            Mnemonic::Pla => {
                let v = self.read(self.stack_slot(1));
                post == (Cpu {
                    stack_pointer: add8(self.stack_pointer, 1),
                    register_accumulator: v,
                    register_status: with_zero_negative(self.register_status, v),
                    ..*self
                })
            },
            Mnemonic::Plp => post == (Cpu {
                stack_pointer: add8(self.stack_pointer, 1),
                register_status: pulled_status(self.read(self.stack_slot(1))),
                ..*self
            }),
            Mnemonic::Rti => post == (Cpu {
                stack_pointer: add8(self.stack_pointer, 3),
                register_status: pulled_status(self.read(self.stack_slot(1))),
                ..*self
            }),
            Mnemonic::Rts => post == (Cpu {
                stack_pointer: add8(self.stack_pointer, 2),
                ..*self
            }),
            Mnemonic::Jsr => {
                let ret = add16(self.program_counter, 1);
                let ram = Bus::ram_after(self.bus.cpu_ram@, self.stack_slot(0), (ret / 0x100) as u8);
                &&& post.bus.program_rom@ == self.bus.program_rom@
                &&& post.bus.cpu_ram@ == Bus::ram_after(ram, self.stack_slot(-1), (ret % 0x100) as u8)
                &&& post == (Cpu {
                    stack_pointer: add8(self.stack_pointer, -2),
                    bus: post.bus,
                    ..*self
                })
            },
            Mnemonic::Brk => {
                let ret = add16(self.program_counter, 1);
                let ram = Bus::ram_after(self.bus.cpu_ram@, self.stack_slot(0), (ret / 0x100) as u8);
                let ram = Bus::ram_after(ram, self.stack_slot(-1), (ret % 0x100) as u8);
                &&& post.bus.program_rom@ == self.bus.program_rom@
                &&& post.bus.cpu_ram@ == Bus::ram_after(
                    ram,
                    self.stack_slot(-2),
                    pushed_status(self.register_status),
                )
                &&& post == (Cpu {
                    stack_pointer: add8(self.stack_pointer, -3),
                    register_status: with_flag(self.register_status, INTERRUPT_DISABLE, true),
                    bus: post.bus,
                    ..*self
                })
            },
            Mnemonic::Clc => post == (Cpu {
                register_status: with_flag(self.register_status, CARRY, false),
                ..*self
            }),
            Mnemonic::Sec => post == (Cpu {
                register_status: with_flag(self.register_status, CARRY, true),
                ..*self
            }),
            Mnemonic::Cli => post == (Cpu {
                register_status: with_flag(self.register_status, INTERRUPT_DISABLE, false),
                ..*self
            }),
            Mnemonic::Sei => post == (Cpu {
                register_status: with_flag(self.register_status, INTERRUPT_DISABLE, true),
                ..*self
            }),
            Mnemonic::Cld => post == (Cpu {
                register_status: with_flag(self.register_status, DECIMAL_MODE, false),
                ..*self
            }),
            Mnemonic::Sed => post == (Cpu {
                register_status: with_flag(self.register_status, DECIMAL_MODE, true),
                ..*self
            }),
            Mnemonic::Clv => post == (Cpu {
                register_status: with_flag(self.register_status, OVERFLOW, false),
                ..*self
            }),
            _ => post == *self,
        }
    }

    /// Whether `post` is this state after the instruction `name` in `mode`
    /// with effective address `address` ran, the program counter being at
    /// its operand; the program counter itself is left to `control_target`
    /// and `next_pc`. Branches, JMP and NOP change nothing else.
    pub open spec fn effect(
        &self,
        post: Cpu,
        name: Mnemonic,
        mode: AddressingModes,
        address: u16,
    ) -> bool {
        self.effect_in_place(Cpu { program_counter: self.program_counter, ..post }, name, mode, address)
    }
}

/// What an instruction does besides moving the program counter does not
/// depend on where the program counter ends up.
pub(crate) proof fn lemma_effect_ignores_pc(
    pre: Cpu,
    post: Cpu,
    name: Mnemonic,
    mode: AddressingModes,
    address: u16,
    pc: u16,
)
    requires
        pre.effect(post, name, mode, address),
    ensures
        pre.effect(Cpu { program_counter: pc, ..post }, name, mode, address),
{
    assert((Cpu { program_counter: pre.program_counter, ..Cpu { program_counter: pc, ..post } })
        == (Cpu { program_counter: pre.program_counter, ..post }));
}

/// Sum of a sequence of cycle counts.
pub open spec fn sum_cycles(cycles: Seq<u8>) -> int
    decreases cycles.len(),
{
    if cycles.len() == 0 {
        0
    } else {
        sum_cycles(cycles.drop_last()) + cycles.last() as int
    }
}

/// A cycle count held in a `u64`, saturated at its largest value.
pub open spec fn saturated(n: int) -> u64 {
    if n > u64::MAX as int {
        u64::MAX
    } else {
        n as u64
    }
}

/// Whether `trace` is a run of `run` with `budget`: each state after the
/// first is one step (taking the matching entry of `cycles`) from the state
/// before, which did not have BRK at its program counter and was reached
/// with fewer than `budget` cycles spent.
pub open spec fn is_run(trace: Seq<Cpu>, cycles: Seq<u8>, budget: u64) -> bool
    decreases cycles.len(),
{
    if cycles.len() == 0 {
        trace.len() == 1
    } else {
        let s = trace[trace.len() - 2];
        &&& trace.len() == cycles.len() + 1
        &&& is_run(trace.drop_last(), cycles.drop_last(), budget)
        &&& s.read(s.program_counter) != 0x00
        &&& sum_cycles(cycles.drop_last()) < budget
        &&& s.step_spec(trace.last(), Ok(cycles.last()))
    }
}

} // verus!
