use nes_cpu::bus::Bus;
use nes_cpu::opcodes::operation_for;
use nes_cpu::operation::{AddressingModes, Mnemonic, Operation};

#[test]
fn ram_is_mirrored() {
    let mut bus = Bus::new();
    bus.mem_write(0x0123, 0xAB);
    assert_eq!(bus.mem_read(0x0123), 0xAB);
    assert_eq!(bus.mem_read(0x0923), 0xAB);
    assert_eq!(bus.mem_read(0x1123), 0xAB);
    assert_eq!(bus.mem_read(0x1923), 0xAB);
    bus.mem_write(0x1FFF, 0x42);
    assert_eq!(bus.mem_read(0x07FF), 0x42);
}

#[test]
fn unbacked_windows_read_zero() {
    let mut bus = Bus::new();
    bus.mem_write(0x2000, 0x11);
    bus.mem_write(0x4000, 0x22);
    assert_eq!(bus.mem_read(0x2000), 0);
    assert_eq!(bus.mem_read(0x4000), 0);
    assert_eq!(bus.mem_read(0xFFFC), 0);
}

#[test]
fn program_rom_is_read_only() {
    let mut bus = Bus::with_program_rom(vec![1, 2, 3]);
    assert_eq!(bus.mem_read(0x8001), 2);
    bus.mem_write(0x8001, 9);
    assert_eq!(bus.mem_read(0x8001), 2);
    assert_eq!(bus.mem_read(0x8003), 0);
}

#[test]
fn opcode_table_entries() {
    let adc = operation_for(0x69).unwrap();
    assert_eq!(adc, Operation::new(Mnemonic::Adc, 2, 2, 0, AddressingModes::Immediate));
    let bit = operation_for(0x2C).unwrap();
    assert_eq!(bit, Operation::new(Mnemonic::Bit, 4, 3, 0, AddressingModes::Absolute));
    let sta = operation_for(0x81).unwrap();
    assert_eq!(sta.instruction_addressing_mode, AddressingModes::IndexedIndirect);
    let sbc = operation_for(0xF5).unwrap();
    assert_eq!(sbc.instruction_addressing_mode, AddressingModes::ZeroPageX);
    let bmi = operation_for(0x30).unwrap();
    assert_eq!(bmi.instruction_page_cycles, 1);
    assert_eq!(operation_for(0x02), None);
    assert_eq!(operation_for(0xFF), None);
}

#[test]
fn opcode_table_has_the_documented_opcodes() {
    let mut count = 0;
    for opcode in 0..=255u8 {
        if let Some(op) = operation_for(opcode) {
            count += 1;
            let size = match op.instruction_addressing_mode {
                AddressingModes::Implicit | AddressingModes::Accumulator => 1,
                AddressingModes::Absolute
                | AddressingModes::AbsoluteX
                | AddressingModes::AbsoluteY
                | AddressingModes::Indirect => 3,
                _ => 2,
            };
            assert_eq!(op.instruction_size, size);
            assert!(op.instruction_page_cycles <= 1);
        }
    }
    assert_eq!(count, 151);
}

#[test]
fn mnemonic_text_for_disassembly() {
    assert_eq!(operation_for(0x69).unwrap().name.as_str(), "ADC");
    assert_eq!(operation_for(0x10).unwrap().name.as_str(), "BPL");
    assert_eq!(Mnemonic::Tya.as_str(), "TYA");
}
