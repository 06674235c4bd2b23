use crate::bus::Bus;
use crate::constants::{
    INTERRUPT_CYCLES, IRQ_INTERRUPT_VECTOR_ADDRESS, NMI_INTERRUPT_VECTOR_ADDRESS,
    RESET_PROGRAM_COUNTER_ADDRESS, RESET_STACK_ADDRESS, STACK_START, STATUS_REGISTER_INITIAL,
};
use crate::cpu_flags::{
    contains, has_flag, set_flag, with_flag, with_zero_negative, BREAK, CARRY, DECIMAL_MODE,
    INTERRUPT_DISABLE, NEGATIVE, OVERFLOW, UNUSED, ZERO,
};
use crate::opcodes::{operation_for, operation_spec};
use crate::operation::{AddressingModes, Mnemonic, Operation};
use crate::semantics::{is_run, lemma_effect_ignores_pc, saturated, sum_cycles};
use vstd::prelude::*;

verus! {

/// `x + d`, wrapped into 16 bits.
pub open spec fn add16(x: u16, d: int) -> u16 {
    ((x as int + d) % 0x10000) as u16
}

/// `x + d`, wrapped into 8 bits.
pub open spec fn add8(x: u8, d: int) -> u8 {
    ((x as int + d) % 0x100) as u8
}

/// The little-endian word made of two bytes.
pub open spec fn word(lo: u8, hi: u8) -> u16 {
    (hi as int * 0x100 + lo as int) as u16
}

/// A byte read as a two's complement offset.
pub open spec fn signed(b: u8) -> int {
    if b < 0x80 {
        b as int
    } else {
        b as int - 0x100
    }
}

/// Whether two addresses lie on different pages.
pub open spec fn page_crossed(a: u16, b: u16) -> bool {
    a / 0x100 != b / 0x100
}

/// The byte pushed for the status register: Break and Unused forced on.
pub open spec fn pushed_status(status: u8) -> u8 {
    status | BREAK | UNUSED
}

/// The status register loaded from a pulled byte: Break off, Unused on.
pub open spec fn pulled_status(byte: u8) -> u8 {
    with_flag(with_flag(byte, BREAK, false), UNUSED, true)
}

/// Sum of ADC, wrapped into a byte.
pub open spec fn adc_result(a: u8, m: u8, carry: bool) -> u8 {
    ((a as int + m as int + if carry { 1int } else { 0int }) % 0x100) as u8
}

/// Carry out of ADC.
pub open spec fn adc_carry(a: u8, m: u8, carry: bool) -> bool {
    a as int + m as int + if carry { 1int } else { 0int } > 0xFF
}

/// Overflow of ADC: the result's sign differs from both operands'.
pub open spec fn adc_overflow(a: u8, m: u8, r: u8) -> bool {
    (a ^ r) & (m ^ r) & 0x80 != 0
}

/// Status after ADC of `m` to `a`: Carry and Overflow of the sum, then Zero
/// and Negative of the result.
pub open spec fn adc_status(status: u8, a: u8, m: u8) -> u8 {
    let c = has_flag(status, CARRY);
    let r = adc_result(a, m, c);
    with_zero_negative(
        with_flag(with_flag(status, CARRY, adc_carry(a, m, c)), OVERFLOW, adc_overflow(a, m, r)),
        r,
    )
}

/// Status after comparing register value `r` with `m`.
pub open spec fn compare_status(status: u8, r: u8, m: u8) -> u8 {
    with_zero_negative(with_flag(status, CARRY, r >= m), add8(r, -m))
}

/// Status after BIT of `m` against the accumulator `a`.
pub open spec fn bit_status(status: u8, a: u8, m: u8) -> u8 {
    with_flag(with_flag(with_flag(status, ZERO, a & m == 0), OVERFLOW, m & 0x40 != 0), NEGATIVE, m & 0x80 != 0)
}

/// Status after a shift or rotate with carry out `c` and result `v`.
pub open spec fn shift_status(status: u8, c: bool, v: u8) -> u8 {
    with_zero_negative(with_flag(status, CARRY, c), v)
}

/// Value and carry out of ASL.
pub open spec fn asl_value(v: u8) -> (u8, bool) {
    (v << 1u8, v & 0x80 != 0)
}

/// Value and carry out of LSR.
pub open spec fn lsr_value(v: u8) -> (u8, bool) {
    (v >> 1u8, v & 0x01 != 0)
}

/// Value and carry out of ROL with carry in `c`.
pub open spec fn rol_value(v: u8, c: bool) -> (u8, bool) {
    ((v << 1u8) | if c { 0x01u8 } else { 0u8 }, v & 0x80 != 0)
}

/// Value and carry out of ROR with carry in `c`.
pub open spec fn ror_value(v: u8, c: bool) -> (u8, bool) {
    ((v >> 1u8) | if c { 0x80u8 } else { 0u8 }, v & 0x01 != 0)
}

/// Stack pointer and CPU RAM after pushing `b`: the byte goes to the slot
/// that the stack pointer names in page 1, and the pointer moves down.
pub open spec fn push_one(sp: u8, ram: Seq<u8>, b: u8) -> (u8, Seq<u8>) {
    (add8(sp, -1), Bus::ram_after(ram, (STACK_START as int + sp as int) as u16, b))
}

/// Stack pointer after a pull, and the byte pulled: the pointer moves up and
/// the byte comes from the slot it then names.
pub open spec fn pop_one(sp: u8, ram: Seq<u8>) -> (u8, u8) {
    (add8(sp, 1), ram[STACK_START as int + add8(sp, 1) as int])
}

/// Whether the branch `name` is taken under `status`.
pub open spec fn branch_condition(status: u8, name: Mnemonic) -> bool {
    match name {
        Mnemonic::Bpl => !has_flag(status, NEGATIVE),
        Mnemonic::Bmi => has_flag(status, NEGATIVE),
        Mnemonic::Bvc => !has_flag(status, OVERFLOW),
        Mnemonic::Bvs => has_flag(status, OVERFLOW),
        Mnemonic::Bcc => !has_flag(status, CARRY),
        Mnemonic::Bcs => has_flag(status, CARRY),
        Mnemonic::Bne => !has_flag(status, ZERO),
        Mnemonic::Beq => has_flag(status, ZERO),
        _ => false,
    }
}

pub open spec fn is_branch(name: Mnemonic) -> bool {
    match name {
        Mnemonic::Bpl | Mnemonic::Bmi | Mnemonic::Bvc | Mnemonic::Bvs | Mnemonic::Bcc
        | Mnemonic::Bcs | Mnemonic::Bne | Mnemonic::Beq => true,
        _ => false,
    }
}

/// Instructions that set the program counter themselves.
pub open spec fn is_control_flow(name: Mnemonic) -> bool {
    is_branch(name) || match name {
        Mnemonic::Jmp | Mnemonic::Jsr | Mnemonic::Rts | Mnemonic::Rti | Mnemonic::Brk => true,
        _ => false,
    }
}

/// Failures reported at the step boundary.
#[derive(PartialEq, Eq, Structural, Clone, Copy, Debug)]
pub enum CpuError {
    /// The byte at the program counter is not a documented opcode.
    UnknownOpcode(u8),
}

/// The processor: registers, status flags, pending interrupt signals, and
/// the bus that it owns.
pub struct Cpu {
    pub program_counter: u16,
    pub stack_pointer: u8,
    pub register_accumulator: u8,
    pub register_x: u8,
    pub register_y: u8,
    pub register_status: u8,
    pub nmi_pending: bool,
    pub irq_pending: bool,
    pub bus: Bus,
}

impl Cpu {
    pub open spec fn wf(&self) -> bool {
        self.bus.wf()
    }

    /// The byte at `address` as the bus reads it.
    pub open spec fn read(&self, address: u16) -> u8 {
        self.bus.read_spec(address)
    }

    /// The little-endian word at `address`; the second byte wraps at 0xFFFF.
    pub open spec fn read16(&self, address: u16) -> u16 {
        word(self.read(address), self.read(add16(address, 1)))
    }

    pub open spec fn flag(&self, mask: u8) -> bool {
        has_flag(self.register_status, mask)
    }

    /// Address of the stack slot `d` bytes above the stack pointer.
    pub open spec fn stack_slot(&self, d: int) -> u16 {
        (STACK_START as int + add8(self.stack_pointer, d) as int) as u16
    }

    /// Effective address of an operand in `mode` whose bytes start at `o`,
    /// and whether indexing crossed a page. Implicit, Accumulator and
    /// Indirect operands are found by the instruction itself.
    pub open spec fn operand_address_spec(&self, mode: AddressingModes, o: u16) -> (u16, bool) {
        match mode {
            AddressingModes::Immediate | AddressingModes::Relative => (o, false),
            AddressingModes::ZeroPage => (self.read(o) as u16, false),
            AddressingModes::ZeroPageX => (add8(self.read(o), self.register_x as int) as u16, false),
            AddressingModes::ZeroPageY => (add8(self.read(o), self.register_y as int) as u16, false),
            AddressingModes::Absolute => (self.read16(o), false),
            AddressingModes::AbsoluteX => {
                let base = self.read16(o);
                let ea = add16(base, self.register_x as int);
                (ea, page_crossed(base, ea))
            },
            AddressingModes::AbsoluteY => {
                let base = self.read16(o);
                let ea = add16(base, self.register_y as int);
                (ea, page_crossed(base, ea))
            },
            AddressingModes::IndexedIndirect => {
                let zp = add8(self.read(o), self.register_x as int);
                (word(self.read(zp as u16), self.read(add8(zp, 1) as u16)), false)
            },
            AddressingModes::IndirectIndexed => {
                let zp = self.read(o);
                let base = word(self.read(zp as u16), self.read(add8(zp, 1) as u16));
                let ea = add16(base, self.register_y as int);
                (ea, page_crossed(base, ea))
            },
            _ => (0, false),
        }
    }

    /// Target of JMP (indirect) whose pointer is at `o`: the high byte is
    /// fetched without carrying into the next page.
    pub open spec fn indirect_target(&self, o: u16) -> u16 {
        let p = self.read16(o);
        word(self.read(p), self.read(((p / 0x100) * 0x100 + add8((p % 0x100) as u8, 1)) as u16))
    }

    /// Where a control-flow instruction whose operand starts at `o` leaves
    /// the program counter.
    pub open spec fn control_target(&self, name: Mnemonic, mode: AddressingModes, o: u16) -> u16 {
        match name {
            Mnemonic::Jmp => if mode == AddressingModes::Indirect {
                self.indirect_target(o)
            } else {
                self.read16(o)
            },
            Mnemonic::Jsr => self.operand_address_spec(mode, o).0,
            Mnemonic::Rts => add16(word(self.read(self.stack_slot(1)), self.read(self.stack_slot(2))), 1),
            Mnemonic::Rti => word(self.read(self.stack_slot(2)), self.read(self.stack_slot(3))),
            Mnemonic::Brk => self.read16(IRQ_INTERRUPT_VECTOR_ADDRESS),
            _ => if branch_condition(self.register_status, name) {
                add16(o, 1 + signed(self.read(o)))
            } else {
                add16(o, 1)
            },
        }
    }

    /// Cycles taken by `op` with its opcode at `self.program_counter`.
    pub open spec fn cycles_spec(&self, op: Operation) -> int {
        let o = add16(self.program_counter, 1);
        let crossed = self.operand_address_spec(op.instruction_addressing_mode, o).1;
        let target = self.control_target(op.name, op.instruction_addressing_mode, o);
        op.instruction_cycles as int + if is_branch(op.name) {
            if branch_condition(self.register_status, op.name) {
                1 + if page_crossed(add16(o, 1), target) { 1int } else { 0int }
            } else {
                0int
            }
        } else if crossed && op.instruction_page_cycles == 1 {
            1int
        } else {
            0int
        }
    }

    /// Where one instruction `op`, with its opcode at the program counter,
    /// leaves the program counter: past its bytes, or where it jumps.
    pub open spec fn next_pc(&self, op: Operation) -> u16 {
        if is_control_flow(op.name) {
            self.control_target(op.name, op.instruction_addressing_mode, add16(self.program_counter, 1))
        } else {
            add16(self.program_counter, op.instruction_size as int)
        }
    }

    /// Whether `post` is this state after the hardware interrupt sequence
    /// through `vector`: the program counter (high byte first) and the
    /// status with Break clear and Unused set are pushed, Interrupt-Disable
    /// is set and the program counter is loaded from the vector.
    pub open spec fn interrupt_effect(&self, post: Cpu, vector: u16) -> bool {
        let pc = self.program_counter;
        let ram = Bus::ram_after(self.bus.cpu_ram@, self.stack_slot(0), (pc / 0x100) as u8);
        let ram = Bus::ram_after(ram, self.stack_slot(-1), (pc % 0x100) as u8);
        &&& post.bus.program_rom@ == self.bus.program_rom@
        &&& post.bus.cpu_ram@ == Bus::ram_after(
            ram,
            self.stack_slot(-2),
            pulled_status(self.register_status),
        )
        &&& post == (Cpu {
            program_counter: self.read16(vector),
            stack_pointer: add8(self.stack_pointer, -3),
            register_status: with_flag(self.register_status, INTERRUPT_DISABLE, true),
            bus: post.bus,
            ..*self
        })
    }

    /// Whether `post` and `r` are what one step from this state gives: a
    /// pending NMI, or a pending IRQ while Interrupt-Disable is clear, is
    /// serviced; else the instruction at the program counter runs, or an
    /// unmapped opcode is reported and nothing changes.
    pub open spec fn step_spec(&self, post: Cpu, r: Result<u8, CpuError>) -> bool {
        if self.nmi_pending {
            &&& r == Ok::<u8, CpuError>(INTERRUPT_CYCLES)
            &&& (Cpu { nmi_pending: false, ..*self }).interrupt_effect(post, NMI_INTERRUPT_VECTOR_ADDRESS)
        } else if self.irq_pending && !self.flag(INTERRUPT_DISABLE) {
            &&& r == Ok::<u8, CpuError>(INTERRUPT_CYCLES)
            &&& (Cpu { irq_pending: false, ..*self }).interrupt_effect(post, IRQ_INTERRUPT_VECTOR_ADDRESS)
        } else {
            let opcode = self.read(self.program_counter);
            match operation_spec(opcode) {
                None => {
                    &&& r == Err::<u8, CpuError>(CpuError::UnknownOpcode(opcode))
                    &&& post == *self
                },
                Some(op) => {
                    let pre = Cpu { program_counter: add16(self.program_counter, 1), ..*self };
                    &&& r == Ok::<u8, CpuError>(self.cycles_spec(op) as u8)
                    &&& post.program_counter == self.next_pc(op)
                    &&& pre.effect(
                        post,
                        op.name,
                        op.instruction_addressing_mode,
                        pre.operand_address_spec(op.instruction_addressing_mode, pre.program_counter).0,
                    )
                },
            }
        }
    }

    pub fn new(bus: Bus) -> (r: Cpu)
        requires
            bus.wf(),
        ensures
            r.wf(),
            r.bus == bus,
            r.program_counter == 0,
            r.stack_pointer == RESET_STACK_ADDRESS,
            r.register_accumulator == 0,
            r.register_x == 0,
            r.register_y == 0,
            r.register_status == STATUS_REGISTER_INITIAL,
            !r.nmi_pending,
            !r.irq_pending,
    {
        Cpu {
            program_counter: 0,
            stack_pointer: RESET_STACK_ADDRESS,
            register_accumulator: 0,
            register_x: 0,
            register_y: 0,
            register_status: STATUS_REGISTER_INITIAL,
            nmi_pending: false,
            irq_pending: false,
            bus,
        }
    }

    /// Puts the registers in their power-on state and loads the program
    /// counter from the reset vector.
    pub fn reset(&mut self)
        requires
            old(self).wf(),
        ensures
            *final(self) == (Cpu {
                program_counter: old(self).read16(RESET_PROGRAM_COUNTER_ADDRESS),
                stack_pointer: RESET_STACK_ADDRESS,
                register_accumulator: 0,
                register_x: 0,
                register_y: 0,
                register_status: STATUS_REGISTER_INITIAL,
                nmi_pending: false,
                irq_pending: false,
                bus: old(self).bus,
            }),
    {
        self.register_accumulator = 0;
        self.register_x = 0;
        self.register_y = 0;
        self.stack_pointer = RESET_STACK_ADDRESS;
        self.register_status = STATUS_REGISTER_INITIAL;
        self.nmi_pending = false;
        self.irq_pending = false;
        let reset_pc = self.mem_read_u16(RESET_PROGRAM_COUNTER_ADDRESS);
        self.program_counter = reset_pc;
    }
}

// Memory access
impl Cpu {
    pub(crate) fn mem_read(&self, address: u16) -> (r: u8)
        requires
            self.wf(),
        ensures
            r == self.read(address),
    {
        self.bus.mem_read(address)
    }

    pub(crate) fn mem_write(&mut self, address: u16, value: u8)
        requires
            old(self).wf(),
        ensures
            final(self).wf(),
            final(self).bus.wrote(old(self).bus, address, value),
            *final(self) == (Cpu { bus: final(self).bus, ..*old(self) }),
    {
        self.bus.mem_write(address, value)
    }

    pub(crate) fn mem_read_u16(&self, address: u16) -> (r: u16)
        requires
            self.wf(),
        ensures
            r == self.read16(address),
    {
        let lo = self.mem_read(address);
        let hi = self.mem_read(address.wrapping_add(1));
        make_word(lo, hi)
    }

    /// Target of JMP (indirect): the pointer at the program counter names the
    /// low byte; the high byte comes from the same page, as on the chip.
    pub(crate) fn get_address_for_indirect(&self) -> (r: u16)
        requires
            self.wf(),
        ensures
            r == self.indirect_target(self.program_counter),
    {
        let pointer = self.mem_read_u16(self.program_counter);
        let lo = self.mem_read(pointer);
        let page = pointer / 0x100 * 0x100;
        let next = ((pointer % 0x100) as u8).wrapping_add(1);
        let hi = self.mem_read(page + next as u16);
        make_word(lo, hi)
    }

    pub(crate) fn mem_write_u16(&mut self, address: u16, value: u16)
        requires
            old(self).wf(),
        ensures
            final(self).wf(),
            final(self).bus.program_rom@ == old(self).bus.program_rom@,
            final(self).bus.cpu_ram@ == Bus::ram_after(
                Bus::ram_after(old(self).bus.cpu_ram@, address, (value % 0x100) as u8),
                add16(address, 1),
                (value / 0x100) as u8,
            ),
            *final(self) == (Cpu { bus: final(self).bus, ..*old(self) }),
    {
        let hi = (value / 0x100) as u8;
        let lo = (value % 0x100) as u8;
        self.mem_write(address, lo);
        self.mem_write(address.wrapping_add(1), hi);
    }
}

// Stack
impl Cpu {
    pub(crate) fn stack_push(&mut self, val: u8)
        requires
            old(self).wf(),
        ensures
            final(self).wf(),
            final(self).bus.wrote(old(self).bus, old(self).stack_slot(0), val),
            (final(self).stack_pointer, final(self).bus.cpu_ram@)
                == push_one(old(self).stack_pointer, old(self).bus.cpu_ram@, val),
            *final(self) == (Cpu {
                stack_pointer: add8(old(self).stack_pointer, -1),
                bus: final(self).bus,
                ..*old(self)
            }),
    {
        let address = STACK_START + self.stack_pointer as u16;
        self.mem_write(address, val);
        self.stack_pointer = self.stack_pointer.wrapping_sub(1);
    }

    /// Pushes the high byte, then the low byte.
    pub(crate) fn stack_push_u16(&mut self, val: u16)
        requires
            old(self).wf(),
        ensures
            final(self).wf(),
            final(self).bus.program_rom@ == old(self).bus.program_rom@,
            final(self).bus.cpu_ram@ == Bus::ram_after(
                Bus::ram_after(old(self).bus.cpu_ram@, old(self).stack_slot(0), (val / 0x100) as u8),
                old(self).stack_slot(-1),
                (val % 0x100) as u8,
            ),
            *final(self) == (Cpu {
                stack_pointer: add8(old(self).stack_pointer, -2),
                bus: final(self).bus,
                ..*old(self)
            }),
    {
        let hi = (val / 0x100) as u8;
        let lo = (val % 0x100) as u8;
        self.stack_push(hi);
        self.stack_push(lo);
    }

    pub(crate) fn stack_pop(&mut self) -> (r: u8)
        requires
            old(self).wf(),
        ensures
            r == old(self).read(old(self).stack_slot(1)),
            (final(self).stack_pointer, r) == pop_one(old(self).stack_pointer, old(self).bus.cpu_ram@),
            *final(self) == (Cpu { stack_pointer: add8(old(self).stack_pointer, 1), ..*old(self) }),
    {
        self.stack_pointer = self.stack_pointer.wrapping_add(1);
        let address = STACK_START + self.stack_pointer as u16;
        self.mem_read(address)
    }

    /// Pops the low byte, then the high byte.
    pub(crate) fn stack_pop_u16(&mut self) -> (r: u16)
        requires
            old(self).wf(),
        ensures
            r == word(old(self).read(old(self).stack_slot(1)), old(self).read(old(self).stack_slot(2))),
            *final(self) == (Cpu { stack_pointer: add8(old(self).stack_pointer, 2), ..*old(self) }),
    {
        let lo = self.stack_pop();
        let hi = self.stack_pop();
        make_word(lo, hi)
    }
}

// Status flags
impl Cpu {
    pub(crate) fn update_negative_flag(&mut self, value: u8)
        ensures
            *final(self) == (Cpu {
                register_status: with_flag(old(self).register_status, NEGATIVE, value >= 0x80),
                ..*old(self)
            }),
    {
        self.register_status = set_flag(self.register_status, NEGATIVE, value >= 0x80);
    }

    pub(crate) fn update_zero_flag(&mut self, value: u8)
        ensures
            *final(self) == (Cpu {
                register_status: with_flag(old(self).register_status, ZERO, value == 0),
                ..*old(self)
            }),
    {
        self.register_status = set_flag(self.register_status, ZERO, value == 0);
    }

    pub(crate) fn update_zero_and_negative_flags(&mut self, value: u8)
        ensures
            *final(self) == (Cpu {
                register_status: with_zero_negative(old(self).register_status, value),
                ..*old(self)
            }),
    {
        self.update_zero_flag(value);
        self.update_negative_flag(value);
    }

    pub(crate) fn set_carry_flag(&mut self)
        ensures
            *final(self) == (Cpu {
                register_status: with_flag(old(self).register_status, CARRY, true),
                ..*old(self)
            }),
    {
        self.register_status = set_flag(self.register_status, CARRY, true);
    }

    pub(crate) fn clear_carry_flag(&mut self)
        ensures
            *final(self) == (Cpu {
                register_status: with_flag(old(self).register_status, CARRY, false),
                ..*old(self)
            }),
    {
        self.register_status = set_flag(self.register_status, CARRY, false);
    }

    pub(crate) fn set_decimal_mode_flag(&mut self)
        ensures
            *final(self) == (Cpu {
                register_status: with_flag(old(self).register_status, DECIMAL_MODE, true),
                ..*old(self)
            }),
    {
        self.register_status = set_flag(self.register_status, DECIMAL_MODE, true);
    }

    pub(crate) fn clear_decimal_mode_flag(&mut self)
        ensures
            *final(self) == (Cpu {
                register_status: with_flag(old(self).register_status, DECIMAL_MODE, false),
                ..*old(self)
            }),
    {
        self.register_status = set_flag(self.register_status, DECIMAL_MODE, false);
    }

    pub(crate) fn set_interrupt_disable_flag(&mut self)
        ensures
            *final(self) == (Cpu {
                register_status: with_flag(old(self).register_status, INTERRUPT_DISABLE, true),
                ..*old(self)
            }),
    {
        self.register_status = set_flag(self.register_status, INTERRUPT_DISABLE, true);
    }

    pub(crate) fn clear_interrupt_disable_flag(&mut self)
        ensures
            *final(self) == (Cpu {
                register_status: with_flag(old(self).register_status, INTERRUPT_DISABLE, false),
                ..*old(self)
            }),
    {
        self.register_status = set_flag(self.register_status, INTERRUPT_DISABLE, false);
    }

    pub(crate) fn clear_overflow_flag(&mut self)
        ensures
            *final(self) == (Cpu {
                register_status: with_flag(old(self).register_status, OVERFLOW, false),
                ..*old(self)
            }),
    {
        self.register_status = set_flag(self.register_status, OVERFLOW, false);
    }
}

// Registers
impl Cpu {
    pub(crate) fn set_accumulator(&mut self, value: u8)
        ensures
            *final(self) == (Cpu {
                register_accumulator: value,
                register_status: with_zero_negative(old(self).register_status, value),
                ..*old(self)
            }),
    {
        self.register_accumulator = value;
        self.update_zero_and_negative_flags(value);
    }

    /// ADC without decimal mode: A + value + Carry.
    pub(crate) fn add_to_accumulator(&mut self, value: u8)
        ensures
            ({
                let a = old(self).register_accumulator;
                let c = old(self).flag(CARRY);
                let r = adc_result(a, value, c);
                *final(self) == (Cpu {
                    register_accumulator: r,
                    register_status: with_zero_negative(
                        with_flag(
                            with_flag(old(self).register_status, CARRY, adc_carry(a, value, c)),
                            OVERFLOW,
                            adc_overflow(a, value, r),
                        ),
                        r,
                    ),
                    ..*old(self)
                })
            }),
    {
        let carry_in: u16 = if contains(self.register_status, CARRY) { 1 } else { 0 };
        let accumulator = self.register_accumulator;
        let sum: u16 = accumulator as u16 + value as u16 + carry_in;
        self.register_status = set_flag(self.register_status, CARRY, sum > 0xFF);
        let res = (sum % 0x100) as u8;
        let overflow_exists = (accumulator ^ res) & (value ^ res) & 0x80 != 0;
        self.register_status = set_flag(self.register_status, OVERFLOW, overflow_exists);
        self.set_accumulator(res);
    }
}

// Decode and execute
impl Cpu {
    /// Effective address of the operand that starts at the program counter.
    #[verifier::rlimit(100)]
    #[verifier::spinoff_prover]
    pub(crate) fn operand_address(&self, mode: AddressingModes) -> (r: (u16, bool))
        requires
            self.wf(),
        ensures
            r == self.operand_address_spec(mode, self.program_counter),
    {
        let o = self.program_counter;
        match mode {
            AddressingModes::Immediate | AddressingModes::Relative => (o, false),
            AddressingModes::ZeroPage => (self.mem_read(o) as u16, false),
            AddressingModes::ZeroPageX => (self.mem_read(o).wrapping_add(self.register_x) as u16, false),
            AddressingModes::ZeroPageY => (self.mem_read(o).wrapping_add(self.register_y) as u16, false),
            AddressingModes::Absolute => (self.mem_read_u16(o), false),
            AddressingModes::AbsoluteX => {
                let base = self.mem_read_u16(o);
                let ea = base.wrapping_add(self.register_x as u16);
                (ea, base / 0x100 != ea / 0x100)
            },
            AddressingModes::AbsoluteY => {
                let base = self.mem_read_u16(o);
                let ea = base.wrapping_add(self.register_y as u16);
                (ea, base / 0x100 != ea / 0x100)
            },
            AddressingModes::IndexedIndirect => {
                let zp = self.mem_read(o).wrapping_add(self.register_x);
                let lo = self.mem_read(zp as u16);
                let hi = self.mem_read(zp.wrapping_add(1) as u16);
                (make_word(lo, hi), false)
            },
            AddressingModes::IndirectIndexed => {
                let zp = self.mem_read(o);
                let lo = self.mem_read(zp as u16);
                let hi = self.mem_read(zp.wrapping_add(1) as u16);
                let base = make_word(lo, hi);
                let ea = base.wrapping_add(self.register_y as u16);
                (ea, base / 0x100 != ea / 0x100)
            },
            _ => (0, false),
        }
    }

    /// Runs the semantics of `op` with the program counter at its operand
    /// and `address` its effective address; tells whether a branch was taken.
    pub(crate) fn execute(&mut self, op: Operation, address: u16) -> (taken: bool)
        requires
            old(self).wf(),
            address == old(self).operand_address_spec(op.instruction_addressing_mode, old(self).program_counter).0,
        ensures
            final(self).wf(),
            taken == (is_branch(op.name) && branch_condition(old(self).register_status, op.name)),
            is_control_flow(op.name) ==> final(self).program_counter == old(self).control_target(
                op.name,
                op.instruction_addressing_mode,
                old(self).program_counter,
            ),
            old(self).effect(*final(self), op.name, op.instruction_addressing_mode, address),
    {
        reveal(Cpu::effect_in_place);
        let mode = op.instruction_addressing_mode;
        match op.name {
            Mnemonic::Adc => {
                self.adc(address);
                false
            },
            Mnemonic::And => {
                self.and(address);
                false
            },
            Mnemonic::Bit => {
                self.bit(address);
                false
            },
            Mnemonic::Cmp => {
                self.cmp(address);
                false
            },
            Mnemonic::Cpx => {
                self.cpx(address);
                false
            },
            Mnemonic::Cpy => {
                self.cpy(address);
                false
            },
            Mnemonic::Dec => {
                self.dec(address);
                false
            },
            Mnemonic::Eor => {
                self.eor(address);
                false
            },
            Mnemonic::Inc => {
                self.inc(address);
                false
            },
            Mnemonic::Jsr => {
                self.jsr(address);
                false
            },
            Mnemonic::Lda => {
                self.lda(address);
                false
            },
            Mnemonic::Ldx => {
                self.ldx(address);
                false
            },
            Mnemonic::Ldy => {
                self.ldy(address);
                false
            },
            Mnemonic::Ora => {
                self.ora(address);
                false
            },
            Mnemonic::Sbc => {
                self.sbc(address);
                false
            },
            Mnemonic::Sta => {
                self.sta(address);
                false
            },
            Mnemonic::Stx => {
                self.stx(address);
                false
            },
            Mnemonic::Sty => {
                self.sty(address);
                false
            },
            Mnemonic::Asl => {
                if mode == AddressingModes::Accumulator {
                    self.asl_accumulator();
                } else {
                    self.asl(address);
                }
                false
            },
            Mnemonic::Lsr => {
                if mode == AddressingModes::Accumulator {
                    self.lsr_accumulator();
                } else {
                    self.lsr(address);
                }
                false
            },
            Mnemonic::Rol => {
                if mode == AddressingModes::Accumulator {
                    self.rol_accumulator();
                } else {
                    self.rol(address);
                }
                false
            },
            Mnemonic::Ror => {
                if mode == AddressingModes::Accumulator {
                    self.ror_accumulator();
                } else {
                    self.ror(address);
                }
                false
            },
            Mnemonic::Bpl => self.bpl(),
            Mnemonic::Bmi => self.bmi(),
            Mnemonic::Bvc => self.bvc(),
            Mnemonic::Bvs => self.bvs(),
            Mnemonic::Bcc => self.bcc(),
            Mnemonic::Bcs => self.bcs(),
            Mnemonic::Bne => self.bne(),
            Mnemonic::Beq => self.beq(),
            Mnemonic::Brk => {
                self.brk();
                false
            },
            Mnemonic::Dex => {
                self.dex();
                false
            },
            Mnemonic::Dey => {
                self.dey();
                false
            },
            Mnemonic::Inx => {
                self.inx();
                false
            },
            Mnemonic::Iny => {
                self.iny();
                false
            },
            Mnemonic::Pha => {
                self.pha();
                false
            },
            Mnemonic::Php => {
                self.php();
                false
            },
            Mnemonic::Pla => {
                self.pla();
                false
            },
            Mnemonic::Plp => {
                self.plp();
                false
            },
            Mnemonic::Rti => {
                self.rti();
                false
            },
            Mnemonic::Rts => {
                self.rts();
                false
            },
            Mnemonic::Tax => {
                self.tax();
                false
            },
            Mnemonic::Tay => {
                self.tay();
                false
            },
            Mnemonic::Tsx => {
                self.tsx();
                false
            },
            Mnemonic::Txa => {
                self.txa();
                false
            },
            Mnemonic::Txs => {
                self.txs();
                false
            },
            Mnemonic::Tya => {
                self.tya();
                false
            },
            Mnemonic::Jmp => {
                if mode == AddressingModes::Indirect {
                    self.jmp_indirect();
                } else {
                    self.jmp_absolute();
                }
                false
            },
            Mnemonic::Clc => {
                self.clear_carry_flag();
                false
            },
            Mnemonic::Sec => {
                self.set_carry_flag();
                false
            },
            Mnemonic::Cli => {
                self.clear_interrupt_disable_flag();
                false
            },
            Mnemonic::Sei => {
                self.set_interrupt_disable_flag();
                false
            },
            Mnemonic::Cld => {
                self.clear_decimal_mode_flag();
                false
            },
            Mnemonic::Sed => {
                self.set_decimal_mode_flag();
                false
            },
            Mnemonic::Clv => {
                self.clear_overflow_flag();
                false
            },
            Mnemonic::Nop => false,
        }
    }

    /// The hardware interrupt sequence: pushes the program counter and the
    /// status with Break clear, sets Interrupt-Disable and jumps through
    /// `vector`.
    pub(crate) fn interrupt(&mut self, vector: u16)
        requires
            old(self).wf(),
            0x2000 <= vector < 0xFFFF,
        ensures
            final(self).wf(),
            old(self).interrupt_effect(*final(self), vector),
    {
        let ghost start = *self;
        self.stack_push_u16(self.program_counter);
        let flags = set_flag(self.register_status, BREAK, false);
        self.stack_push(set_flag(flags, UNUSED, true));
        let new_pc = self.mem_read_u16(vector);
        assert(new_pc == start.read16(vector));
        self.program_counter = new_pc;
        self.set_interrupt_disable_flag();
    }

    /// Raises the non-maskable interrupt line; it is serviced before the
    /// next instruction.
    pub fn nmi(&mut self)
        ensures
            *final(self) == (Cpu { nmi_pending: true, ..*old(self) }),
    {
        self.nmi_pending = true;
    }

    /// Raises the interrupt request line; it is serviced before the next
    /// instruction once Interrupt-Disable is clear.
    pub fn irq(&mut self)
        ensures
            *final(self) == (Cpu { irq_pending: true, ..*old(self) }),
    {
        self.irq_pending = true;
    }

    /// Executes one instruction, or services a pending interrupt, and
    /// returns the cycles it took.
    pub fn step(&mut self) -> (r: Result<u8, CpuError>)
        requires
            old(self).wf(),
        ensures
            final(self).wf(),
            old(self).step_spec(*final(self), r),
            r is Ok ==> r->Ok_0 >= 2,
    {
        if self.nmi_pending {
            self.nmi_pending = false;
            self.interrupt(NMI_INTERRUPT_VECTOR_ADDRESS);
            return Ok(INTERRUPT_CYCLES);
        }
        if self.irq_pending && !contains(self.register_status, INTERRUPT_DISABLE) {
            self.irq_pending = false;
            self.interrupt(IRQ_INTERRUPT_VECTOR_ADDRESS);
            return Ok(INTERRUPT_CYCLES);
        }
        let opcode = self.mem_read(self.program_counter);
        match operation_for(opcode) {
            Some(op) => Ok(self.run_operation(op)),
            None => Err(CpuError::UnknownOpcode(opcode)),
        }
    }

    /// Runs instructions until the next opcode is BRK (which is not run) or
    /// at least `cycle_budget` cycles have elapsed, and returns the cycles
    /// taken, saturated at `u64::MAX`. Stops with the error of an unmapped
    /// opcode, which stays at the program counter.
    pub fn run(&mut self, cycle_budget: u64) -> (r: Result<u64, CpuError>)
        requires
            old(self).wf(),
        ensures
            final(self).wf(),
            exists|trace: Seq<Cpu>, cycles: Seq<u8>|
                {
                    &&& #[trigger] is_run(trace, cycles, cycle_budget)
                    &&& trace[0] == *old(self)
                    &&& trace.last() == *final(self)
                    &&& match r {
                        Ok(total) => {
                            &&& total == saturated(sum_cycles(cycles))
                            &&& total >= cycle_budget || final(self).read(final(self).program_counter) == 0x00
                        },
                        Err(e) => {
                            &&& sum_cycles(cycles) < cycle_budget
                            &&& final(self).read(final(self).program_counter) != 0x00
                            &&& final(self).step_spec(*final(self), Err(e))
                        },
                    }
                },
            r matches Err(CpuError::UnknownOpcode(b)) ==> {
                &&& b == final(self).read(final(self).program_counter)
                &&& operation_spec(b) is None
            },
    {
        let ghost start = *self;
        let ghost mut trace: Seq<Cpu> = seq![*self];
        let ghost mut cycles: Seq<u8> = Seq::empty();
        let mut total: u64 = 0;
        while total < cycle_budget
            invariant
                self.wf(),
                trace.len() == cycles.len() + 1,
                is_run(trace, cycles, cycle_budget),
                start == *old(self),
                trace[0] == start,
                trace.last() == *self,
                total == saturated(sum_cycles(cycles)),
                sum_cycles(cycles) >= 0,
            decreases if total < cycle_budget { cycle_budget - total } else { 0 },
        {
            if self.mem_read(self.program_counter) == 0x00 {
                return Ok(total);
            }
            let ghost before = *self;
            match self.step() {
                Ok(c) => {
                    let ghost spent = sum_cycles(cycles);
                    proof {
                        let next_trace = trace.push(*self);
                        let next_cycles = cycles.push(c);
                        assert(next_trace.drop_last() =~= trace);
                        assert(next_cycles.drop_last() =~= cycles);
                        assert(is_run(next_trace, next_cycles, cycle_budget));
                        trace = next_trace;
                        cycles = next_cycles;
                    }
                    total = if total > u64::MAX - c as u64 {
                        u64::MAX
                    } else {
                        total + c as u64
                    };
                    assert(sum_cycles(cycles) == spent + c);
                },
                Err(e) => {
                    assert(*self == before);
                    return Err(e);
                },
            }
        }
        Ok(total)
    }

    /// Executes `op`, whose opcode is at the program counter, and returns the
    /// cycles it took.
    #[verifier::rlimit(100)]
    #[verifier::spinoff_prover]
    pub(crate) fn run_operation(&mut self, op: Operation) -> (cycles: u8)
        requires
            old(self).wf(),
            op.instruction_cycles <= 7,
        ensures
            final(self).wf(),
            cycles == old(self).cycles_spec(op),
            final(self).program_counter == old(self).next_pc(op),
            ({
                let pre = Cpu { program_counter: add16(old(self).program_counter, 1), ..*old(self) };
                pre.effect(
                    *final(self),
                    op.name,
                    op.instruction_addressing_mode,
                    pre.operand_address_spec(op.instruction_addressing_mode, pre.program_counter).0,
                )
            }),
    {
        let start_pc = self.program_counter;
        self.program_counter = self.program_counter.wrapping_add(1);
        let ghost pre = *self;
        let (address, crossed) = self.operand_address(op.instruction_addressing_mode);
        let taken = self.execute(op, address);
        let mut cycles: u8 = op.instruction_cycles;
        if is_branch_exec(op.name) {
            if taken {
                cycles = cycles + 1;
                let fallthrough = start_pc.wrapping_add(2);
                if fallthrough / 0x100 != self.program_counter / 0x100 {
                    cycles = cycles + 1;
                }
            }
        } else {
            if crossed && op.instruction_page_cycles == 1 {
                cycles = cycles + 1;
            }
            if !is_control_flow_exec(op.name) {
                let ghost mid = *self;
                self.program_counter = start_pc.wrapping_add(op.instruction_size as u16);
                proof {
                    lemma_effect_ignores_pc(
                        pre,
                        mid,
                        op.name,
                        op.instruction_addressing_mode,
                        address,
                        self.program_counter,
                    );
                }
            }
        }
        cycles
    }
}

pub(crate) fn is_branch_exec(name: Mnemonic) -> (r: bool)
    ensures
        r == is_branch(name),
{
    match name {
        Mnemonic::Bpl | Mnemonic::Bmi | Mnemonic::Bvc | Mnemonic::Bvs | Mnemonic::Bcc
        | Mnemonic::Bcs | Mnemonic::Bne | Mnemonic::Beq => true,
        _ => false,
    }
}

pub(crate) fn is_control_flow_exec(name: Mnemonic) -> (r: bool)
    ensures
        r == is_control_flow(name),
{
    match name {
        Mnemonic::Jmp | Mnemonic::Jsr | Mnemonic::Rts | Mnemonic::Rti | Mnemonic::Brk => true,
        _ => is_branch_exec(name),
    }
}

/// The word made of two bytes, low byte first.
pub(crate) fn make_word(lo: u8, hi: u8) -> (r: u16)
    ensures
        r == word(lo, hi),
{
    hi as u16 * 0x100 + lo as u16
}

} // verus!
