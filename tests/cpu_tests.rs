use rusty_nes::cpu::CPU;
use rusty_nes::memory::Memory;

#[test]
fn test_cpu_reset() {
    let mut cpu = CPU::new();
    let mut memory = Memory::new();

    memory.write(0xFFFC, 0x00);
    memory.write(0xFFFD, 0x80);

    cpu.reset(&memory);

    assert_eq!(cpu.get_pc(), 0x8000, "PC should be set to 0x8000 after reset");
}

#[test]
fn test_lda_immediate() {
    let mut cpu = CPU::new();
    let mut memory = Memory::new();

    memory.write(0x8000, 0xA9);
    memory.write(0x8001, 0x42);

    cpu.pc = 0x8000;
    cpu.execute_instruction(&mut memory).unwrap();

    assert_eq!(cpu.a, 0x42, "Accumulator should be 0x42 after LDA");
    assert_eq!(cpu.p & 0b0000_0010, 0, "Zero flag should be cleared");
    assert_eq!(cpu.p & 0b1000_0000, 0, "Negative flag should be cleared");
}

#[test]
fn test_sta_zero_page() {
    let mut cpu = CPU::new();
    let mut memory = Memory::new();

    cpu.a = 0x55;
    memory.write(0x8000, 0x85);
    memory.write(0x8001, 0x10);

    cpu.pc = 0x8000;
    cpu.execute_instruction(&mut memory).unwrap();

    assert_eq!(memory.read(0x0010), 0x55, "Memory at 0x0010 should be 0x55");
}

#[test]
fn test_adc_immediate() {
    let mut cpu = CPU::new();
    let mut memory = Memory::new();

    cpu.a = 0x10;
    memory.write(0x8000, 0x69);
    memory.write(0x8001, 0x20);

    cpu.pc = 0x8000;
    cpu.execute_instruction(&mut memory).unwrap();

    assert_eq!(cpu.a, 0x30, "Accumulator should be 0x30 after ADC");
    assert_eq!(cpu.p & 0b0000_0001, 0, "Carry flag should be cleared");
}

#[test]
fn test_inx_overflow() {
    let mut cpu = CPU::new();
    let mut memory = Memory::new();

    cpu.x = 0xFF;
    memory.write(0x8000, 0xE8);

    cpu.pc = 0x8000;
    cpu.execute_instruction(&mut memory).unwrap();

    assert_eq!(cpu.x, 0x00, "X register should wrap around to 0x00");
    assert_eq!(cpu.p & 0b0000_0010, 0b0000_0010, "Zero flag should be set");
    assert_eq!(cpu.p & 0b1000_0000, 0, "Negative flag should be cleared");
}
