use nes_cpu::bus::Bus;
use nes_cpu::cpu::{Cpu, CpuError};
use nes_cpu::cpu_flags::{contains, BREAK, CARRY, INTERRUPT_DISABLE, NEGATIVE, OVERFLOW, UNUSED, ZERO};

/// A CPU whose cartridge holds `program` at `origin` and whose reset vector
/// points at `origin`, after reset.
fn cpu_with(origin: u16, program: &[u8]) -> Cpu {
    let mut rom = vec![0u8; 0x8000];
    let start = (origin - 0x8000) as usize;
    rom[start..start + program.len()].copy_from_slice(program);
    rom[0x7FFC] = (origin & 0xFF) as u8;
    rom[0x7FFD] = (origin >> 8) as u8;
    let mut cpu = Cpu::new(Bus::with_program_rom(rom));
    cpu.reset();
    cpu
}

fn flag(cpu: &Cpu, mask: u8) -> bool {
    contains(cpu.register_status, mask)
}

#[test]
fn load_immediate_then_transfer() {
    let mut cpu = cpu_with(0x8000, &[0xA9, 0x05, 0xAA, 0x00]);
    assert_eq!(cpu.program_counter, 0x8000);
    assert_eq!(cpu.step(), Ok(2));
    assert_eq!(cpu.step(), Ok(2));
    assert_eq!(cpu.register_accumulator, 5);
    assert_eq!(cpu.register_x, 5);
    assert!(!flag(&cpu, ZERO));
    assert!(!flag(&cpu, NEGATIVE));
    assert_eq!(cpu.program_counter, 0x8003);
    assert_eq!(cpu.bus.mem_read(cpu.program_counter), 0x00);
    assert_eq!(cpu.step(), Ok(7));
}

#[test]
fn adc_overflow_into_negative() {
    // LDA #$50; CLC; ADC #$50
    let mut cpu = cpu_with(0x8000, &[0xA9, 0x50, 0x18, 0x69, 0x50]);
    for _ in 0..3 {
        cpu.step().unwrap();
    }
    assert_eq!(cpu.register_accumulator, 0xA0);
    assert!(!flag(&cpu, CARRY));
    assert!(flag(&cpu, OVERFLOW));
    assert!(flag(&cpu, NEGATIVE));
    assert!(!flag(&cpu, ZERO));
}

#[test]
fn sbc_borrow_out() {
    // LDA #$50; SEC; SBC #$F0: 0x50 + 0x0F + 1 = 0x60 with no carry out;
    // both operands of the addition and the result are positive.
    let mut cpu = cpu_with(0x8000, &[0xA9, 0x50, 0x38, 0xE9, 0xF0]);
    for _ in 0..3 {
        cpu.step().unwrap();
    }
    assert_eq!(cpu.register_accumulator, 0x60);
    assert!(!flag(&cpu, CARRY));
    assert!(!flag(&cpu, OVERFLOW));
    assert!(!flag(&cpu, NEGATIVE));
}

#[test]
fn sbc_signed_overflow() {
    // LDA #$50; SEC; SBC #$B0: 80 - (-80) = 160 does not fit in a signed byte.
    let mut cpu = cpu_with(0x8000, &[0xA9, 0x50, 0x38, 0xE9, 0xB0]);
    for _ in 0..3 {
        cpu.step().unwrap();
    }
    assert_eq!(cpu.register_accumulator, 0xA0);
    assert!(!flag(&cpu, CARRY));
    assert!(flag(&cpu, OVERFLOW));
}

#[test]
fn branch_taken_across_page() {
    let mut rom_program = vec![0u8; 0x100];
    rom_program[0xFD] = 0xF0;
    rom_program[0xFE] = 0x04;
    let mut cpu = cpu_with(0x8000, &rom_program);
    cpu.program_counter = 0x80FD;
    cpu.register_status |= ZERO;
    assert_eq!(cpu.step(), Ok(4));
    assert_eq!(cpu.program_counter, 0x8103);
}

#[test]
fn branch_not_taken() {
    // BNE +4 with Zero set falls through.
    let mut cpu = cpu_with(0x8000, &[0xD0, 0x04]);
    cpu.register_status |= ZERO;
    assert_eq!(cpu.step(), Ok(2));
    assert_eq!(cpu.program_counter, 0x8002);
}

#[test]
fn branch_backwards() {
    // BPL -4 with Negative clear, same page.
    let mut cpu = cpu_with(0x8010, &[0x10, 0xFC]);
    assert_eq!(cpu.step(), Ok(3));
    assert_eq!(cpu.program_counter, 0x800E);
}

#[test]
fn jsr_rts_round_trip() {
    let mut program = vec![0u8; 0x11];
    program[0] = 0x20;
    program[1] = 0x10;
    program[2] = 0x80;
    program[0x10] = 0x60;
    let mut cpu = cpu_with(0x8000, &program);
    let sp = cpu.stack_pointer;
    assert_eq!(cpu.step(), Ok(6));
    assert_eq!(cpu.program_counter, 0x8010);
    assert_eq!(cpu.stack_pointer, sp.wrapping_sub(2));
    // The pushed return address is that of the JSR's last byte.
    assert_eq!(cpu.bus.mem_read(0x0100 + sp as u16), 0x80);
    assert_eq!(cpu.bus.mem_read(0x0100 + sp.wrapping_sub(1) as u16), 0x02);
    assert_eq!(cpu.step(), Ok(6));
    assert_eq!(cpu.program_counter, 0x8003);
    assert_eq!(cpu.stack_pointer, sp);
}

#[test]
fn brk_rti_round_trip() {
    let mut rom = vec![0u8; 0x8000];
    rom[0x1000] = 0x40;
    rom[0x7FFC] = 0x00;
    rom[0x7FFD] = 0x80;
    rom[0x7FFE] = 0x00;
    rom[0x7FFF] = 0x90;
    let mut cpu = Cpu::new(Bus::with_program_rom(rom));
    cpu.reset();
    let status = cpu.register_status;
    let sp = cpu.stack_pointer;
    assert_eq!(cpu.step(), Ok(7));
    assert_eq!(cpu.program_counter, 0x9000);
    assert!(flag(&cpu, INTERRUPT_DISABLE));
    let pushed = cpu.bus.mem_read(0x0100 + sp.wrapping_sub(2) as u16);
    assert_eq!(pushed, status | BREAK | UNUSED);
    assert_eq!(cpu.step(), Ok(6));
    assert_eq!(cpu.program_counter, 0x8002);
    assert_eq!(cpu.register_status, status);
    assert!(!flag(&cpu, BREAK));
    assert!(flag(&cpu, UNUSED));
    assert_eq!(cpu.stack_pointer, sp);
}

#[test]
fn unknown_opcode_is_an_error() {
    let mut cpu = cpu_with(0x8000, &[0x02]);
    assert_eq!(cpu.step(), Err(CpuError::UnknownOpcode(0x02)));
    assert_eq!(cpu.program_counter, 0x8000);
}

#[test]
fn jmp_indirect_page_wrap() {
    let mut bus = Bus::new();
    bus.mem_write(0x02FF, 0x34);
    bus.mem_write(0x0200, 0x12);
    bus.mem_write(0x0300, 0x56);
    let mut rom = vec![0u8; 0x8000];
    rom[0] = 0x6C;
    rom[1] = 0xFF;
    rom[2] = 0x02;
    rom[0x7FFD] = 0x80;
    bus.program_rom = rom;
    let mut cpu = Cpu::new(bus);
    cpu.reset();
    assert_eq!(cpu.step(), Ok(5));
    assert_eq!(cpu.program_counter, 0x1234);
}

#[test]
fn jmp_indirect_within_page() {
    let mut bus = Bus::new();
    bus.mem_write(0x0210, 0xCD);
    bus.mem_write(0x0211, 0xAB);
    let mut rom = vec![0u8; 0x8000];
    rom[0] = 0x6C;
    rom[1] = 0x10;
    rom[2] = 0x02;
    rom[0x7FFD] = 0x80;
    bus.program_rom = rom;
    let mut cpu = Cpu::new(bus);
    cpu.reset();
    cpu.step().unwrap();
    assert_eq!(cpu.program_counter, 0xABCD);
}

#[test]
fn stack_wraps_after_256_pushes() {
    let mut program = Vec::new();
    for i in 0..256u32 {
        program.push(0xA9);
        program.push(i as u8);
        program.push(0x48);
    }
    for _ in 0..256 {
        program.push(0x68);
    }
    let mut cpu = cpu_with(0x8000, &program);
    let sp = cpu.stack_pointer;
    for _ in 0..512 {
        cpu.step().unwrap();
    }
    assert_eq!(cpu.stack_pointer, sp);
    for j in 0..256u32 {
        assert_eq!(cpu.step(), Ok(4));
        assert_eq!(cpu.register_accumulator, (255 - j) as u8);
    }
    assert_eq!(cpu.stack_pointer, sp);
}

#[test]
fn ror_then_rol_restores_value_and_carry() {
    // LDA #$81; SEC; ROR A; ROL A
    let mut cpu = cpu_with(0x8000, &[0xA9, 0x81, 0x38, 0x6A, 0x2A]);
    for _ in 0..3 {
        cpu.step().unwrap();
    }
    assert_eq!(cpu.register_accumulator, 0xC0);
    assert!(flag(&cpu, CARRY));
    assert!(flag(&cpu, NEGATIVE));
    cpu.step().unwrap();
    assert_eq!(cpu.register_accumulator, 0x81);
    assert!(flag(&cpu, CARRY));
}

#[test]
fn rotate_memory_updates_zero() {
    // LDA #$80; STA $10; CLC; ROL $10 -> 0, Carry and Zero set.
    let mut cpu = cpu_with(0x8000, &[0xA9, 0x80, 0x85, 0x10, 0x18, 0x26, 0x10]);
    for _ in 0..4 {
        cpu.step().unwrap();
    }
    assert_eq!(cpu.bus.mem_read(0x10), 0x00);
    assert!(flag(&cpu, CARRY));
    assert!(flag(&cpu, ZERO));
}

#[test]
fn adc_carry_and_wrap() {
    // LDA #$FF; SEC; ADC #$01 -> 0x01 with Carry.
    let mut cpu = cpu_with(0x8000, &[0xA9, 0xFF, 0x38, 0x69, 0x01]);
    for _ in 0..3 {
        cpu.step().unwrap();
    }
    assert_eq!(cpu.register_accumulator, 0x01);
    assert!(flag(&cpu, CARRY));
    assert!(!flag(&cpu, OVERFLOW));
    assert!(!flag(&cpu, ZERO));
}

#[test]
fn zero_and_negative_follow_loads() {
    // LDX #$00; LDY #$80
    let mut cpu = cpu_with(0x8000, &[0xA2, 0x00, 0xA0, 0x80]);
    cpu.step().unwrap();
    assert!(flag(&cpu, ZERO));
    assert!(!flag(&cpu, NEGATIVE));
    cpu.step().unwrap();
    assert_eq!(cpu.register_y, 0x80);
    assert!(!flag(&cpu, ZERO));
    assert!(flag(&cpu, NEGATIVE));
}

#[test]
fn iny_increments_y() {
    // LDX #$10; LDY #$20; INY
    let mut cpu = cpu_with(0x8000, &[0xA2, 0x10, 0xA0, 0x20, 0xC8]);
    for _ in 0..3 {
        cpu.step().unwrap();
    }
    assert_eq!(cpu.register_x, 0x10);
    assert_eq!(cpu.register_y, 0x21);
}

#[test]
fn compare_sets_carry_zero_negative() {
    // LDA #$10; CMP #$20
    let mut cpu = cpu_with(0x8000, &[0xA9, 0x10, 0xC9, 0x20, 0xC9, 0x10]);
    cpu.step().unwrap();
    cpu.step().unwrap();
    assert!(!flag(&cpu, CARRY));
    assert!(!flag(&cpu, ZERO));
    assert!(flag(&cpu, NEGATIVE));
    cpu.step().unwrap();
    assert!(flag(&cpu, CARRY));
    assert!(flag(&cpu, ZERO));
}

#[test]
fn absolute_x_page_cross_costs_a_cycle() {
    // LDX #$01; LDA $80FF,X (crosses); LDA $8000,X (does not)
    let mut cpu = cpu_with(0x8000, &[0xA2, 0x01, 0xBD, 0xFF, 0x80, 0xBD, 0x00, 0x80]);
    cpu.step().unwrap();
    assert_eq!(cpu.step(), Ok(5));
    assert_eq!(cpu.step(), Ok(4));
    assert_eq!(cpu.register_accumulator, 0x01);
}

#[test]
fn store_to_absolute_x_has_no_penalty() {
    // LDX #$FF; STA $0201,X
    let mut cpu = cpu_with(0x8000, &[0xA2, 0xFF, 0x9D, 0x01, 0x02]);
    cpu.step().unwrap();
    assert_eq!(cpu.step(), Ok(5));
    assert_eq!(cpu.program_counter, 0x8005);
}

#[test]
fn indexed_indirect_reads_through_zero_page() {
    let mut bus = Bus::new();
    bus.mem_write(0x0024, 0x74);
    bus.mem_write(0x0025, 0x02);
    bus.mem_write(0x0274, 0x99);
    let mut rom = vec![0u8; 0x8000];
    // LDX #$04; LDA ($20,X)
    rom[..4].copy_from_slice(&[0xA2, 0x04, 0xA1, 0x20]);
    rom[0x7FFD] = 0x80;
    bus.program_rom = rom;
    let mut cpu = Cpu::new(bus);
    cpu.reset();
    cpu.step().unwrap();
    assert_eq!(cpu.step(), Ok(6));
    assert_eq!(cpu.register_accumulator, 0x99);
}

#[test]
fn indirect_indexed_adds_y() {
    let mut bus = Bus::new();
    bus.mem_write(0x0086, 0x28);
    bus.mem_write(0x0087, 0x04);
    bus.mem_write(0x0438, 0x5A);
    let mut rom = vec![0u8; 0x8000];
    // LDY #$10; LDA ($86),Y
    rom[..4].copy_from_slice(&[0xA0, 0x10, 0xB1, 0x86]);
    rom[0x7FFD] = 0x80;
    bus.program_rom = rom;
    let mut cpu = Cpu::new(bus);
    cpu.reset();
    cpu.step().unwrap();
    assert_eq!(cpu.step(), Ok(5));
    assert_eq!(cpu.register_accumulator, 0x5A);
}

#[test]
fn php_plp_force_break_and_unused() {
    // PHP; PLP
    let mut cpu = cpu_with(0x8000, &[0x08, 0x28]);
    let sp = cpu.stack_pointer;
    let status = cpu.register_status;
    cpu.step().unwrap();
    assert_eq!(cpu.bus.mem_read(0x0100 + sp as u16), status | BREAK | UNUSED);
    assert_eq!(cpu.register_status, status);
    cpu.step().unwrap();
    assert_eq!(cpu.register_status, status);
}

#[test]
fn nmi_is_serviced_before_next_instruction() {
    let mut rom = vec![0u8; 0x8000];
    rom[0] = 0xEA;
    rom[0x7FFA] = 0x00;
    rom[0x7FFB] = 0xA0;
    rom[0x7FFD] = 0x80;
    let mut cpu = Cpu::new(Bus::with_program_rom(rom));
    cpu.reset();
    let sp = cpu.stack_pointer;
    cpu.nmi();
    assert_eq!(cpu.step(), Ok(7));
    assert_eq!(cpu.program_counter, 0xA000);
    assert!(!cpu.nmi_pending);
    let pushed = cpu.bus.mem_read(0x0100 + sp.wrapping_sub(2) as u16);
    assert_eq!(pushed & BREAK, 0);
    assert_eq!(pushed & UNUSED, UNUSED);
}

#[test]
fn irq_waits_while_interrupts_are_disabled() {
    // SEI is already in effect after reset; CLI; NOP
    let mut rom = vec![0u8; 0x8000];
    rom[0] = 0x58;
    rom[1] = 0xEA;
    rom[0x7FFE] = 0x00;
    rom[0x7FFF] = 0xB0;
    rom[0x7FFD] = 0x80;
    let mut cpu = Cpu::new(Bus::with_program_rom(rom));
    cpu.reset();
    cpu.irq();
    assert_eq!(cpu.step(), Ok(2));
    assert_eq!(cpu.program_counter, 0x8001);
    assert_eq!(cpu.step(), Ok(7));
    assert_eq!(cpu.program_counter, 0xB000);
    assert!(flag(&cpu, INTERRUPT_DISABLE));
}

#[test]
fn reset_loads_registers_and_vector() {
    let mut cpu = cpu_with(0x8123, &[0xEA]);
    assert_eq!(cpu.program_counter, 0x8123);
    assert_eq!(cpu.stack_pointer, 0xFD);
    assert_eq!(cpu.register_status, 0x24);
    cpu.step().unwrap();
    assert_eq!(cpu.program_counter, 0x8124);
}

#[test]
fn run_stops_before_brk() {
    // LDA #$05; TAX; BRK
    let mut cpu = cpu_with(0x8000, &[0xA9, 0x05, 0xAA, 0x00]);
    assert_eq!(cpu.run(1000), Ok(4));
    assert_eq!(cpu.program_counter, 0x8003);
    assert_eq!(cpu.register_x, 5);
}

#[test]
fn run_stops_when_budget_is_spent() {
    // NOP forever: JMP $8000 after three NOPs.
    let mut cpu = cpu_with(0x8000, &[0xEA, 0xEA, 0xEA, 0x4C, 0x00, 0x80]);
    assert_eq!(cpu.run(5), Ok(6));
    assert_eq!(cpu.program_counter, 0x8003);
}

#[test]
fn run_reports_unknown_opcode() {
    let mut cpu = cpu_with(0x8000, &[0xEA, 0xFF]);
    assert_eq!(cpu.run(100), Err(CpuError::UnknownOpcode(0xFF)));
    assert_eq!(cpu.program_counter, 0x8001);
}

#[test]
fn interrupt_pushes_pc_and_status() {
    let mut rom = vec![0u8; 0x8000];
    rom[0] = 0x58;
    rom[0x7FFE] = 0x00;
    rom[0x7FFF] = 0xB0;
    rom[0x7FFD] = 0x80;
    let mut cpu = Cpu::new(Bus::with_program_rom(rom));
    cpu.reset();
    cpu.step().unwrap();
    let sp = cpu.stack_pointer;
    let status = cpu.register_status;
    cpu.irq();
    assert_eq!(cpu.step(), Ok(7));
    assert_eq!(cpu.stack_pointer, sp.wrapping_sub(3));
    assert_eq!(cpu.bus.mem_read(0x0100 + sp as u16), 0x80);
    assert_eq!(cpu.bus.mem_read(0x0100 + sp.wrapping_sub(1) as u16), 0x01);
    assert_eq!(cpu.bus.mem_read(0x0100 + sp.wrapping_sub(2) as u16), (status & !BREAK) | UNUSED);
    assert_eq!(cpu.register_status, status | INTERRUPT_DISABLE);
    assert!(!cpu.irq_pending);
}
