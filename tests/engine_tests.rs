use rusty_nes::cpu::{CpuError, CPU};
use rusty_nes::flags::Flag;
use rusty_nes::memory::Memory;
use rusty_nes::opcodes::{build_opcode_table, decode_opcode, AddressingMode, Mnemonic, Opcode};

const C: u8 = 0x01;
const Z: u8 = 0x02;
const I: u8 = 0x04;
const D: u8 = 0x08;
const V: u8 = 0x40;
const N: u8 = 0x80;

fn load(memory: &mut Memory, at: u16, bytes: &[u8]) {
    for (i, b) in bytes.iter().enumerate() {
        memory.write(at.wrapping_add(i as u16), *b);
    }
}

fn run_at(cpu: &mut CPU, memory: &mut Memory, at: u16, bytes: &[u8]) -> Result<u8, CpuError> {
    load(memory, at, bytes);
    cpu.pc = at;
    cpu.execute_instruction(memory)
}

#[test]
fn zero_and_negative_flags_for_every_byte() {
    let mut cpu = CPU::new();
    for start in [0x00u8, 0xFF, 0x34, 0xC3, 0x5A] {
        for v in 0..=255u8 {
            cpu.p = start;
            cpu.set_zero_and_negative_flags(v);
            assert_eq!(cpu.p & Z != 0, v == 0);
            assert_eq!(cpu.p & N != 0, v & 0x80 != 0);
            assert_eq!(cpu.p & 0x7D, start & 0x7D);
        }
    }
}

#[test]
fn power_on_state() {
    let cpu = CPU::new();
    assert_eq!((cpu.a, cpu.x, cpu.y, cpu.pc, cpu.sp, cpu.p), (0, 0, 0, 0, 0xFD, 0x34));
    assert_eq!(
        (cpu.get_a(), cpu.get_x(), cpu.get_y(), cpu.get_pc(), cpu.get_sp(), cpu.get_status()),
        (0, 0, 0, 0, 0xFD, 0x34)
    );
}

#[test]
fn reset_changes_only_pc() {
    let mut cpu = CPU::new();
    let mut memory = Memory::new();
    memory.write(0xFFFC, 0x34);
    memory.write(0xFFFD, 0x12);
    cpu.a = 7;
    cpu.reset(&memory);
    assert_eq!(cpu.get_pc(), 0x1234);
    assert_eq!((cpu.a, cpu.x, cpu.y, cpu.sp, cpu.p), (7, 0, 0, 0xFD, 0x34));
}

#[test]
fn lda_immediate_advances_pc_and_returns_cycles() {
    let mut cpu = CPU::new();
    let mut memory = Memory::new();
    let r = run_at(&mut cpu, &mut memory, 0x8000, &[0xA9, 0x42]);
    assert_eq!(r, Ok(2));
    assert_eq!(cpu.a, 0x42);
    assert_eq!(cpu.pc, 0x8002);
    assert_eq!(cpu.p & (Z | N), 0);
}

#[test]
fn sta_zero_page_keeps_flags() {
    let mut cpu = CPU::new();
    let mut memory = Memory::new();
    cpu.a = 0x55;
    let before = cpu.p;
    let r = run_at(&mut cpu, &mut memory, 0x8000, &[0x85, 0x10]);
    assert_eq!(r, Ok(3));
    assert_eq!(memory.read(0x0010), 0x55);
    assert_eq!(cpu.pc, 0x8002);
    assert_eq!(cpu.p, before);
}

#[test]
fn adc_carry_out_to_zero() {
    let mut cpu = CPU::new();
    let mut memory = Memory::new();
    cpu.a = 0xFF;
    cpu.p &= !C;
    run_at(&mut cpu, &mut memory, 0x8000, &[0x69, 0x01]).unwrap();
    assert_eq!(cpu.a, 0x00);
    assert_eq!(cpu.p & C, C);
    assert_eq!(cpu.p & Z, Z);
    assert_eq!(cpu.p & V, 0);
}

#[test]
fn adc_signed_overflow() {
    let mut cpu = CPU::new();
    let mut memory = Memory::new();
    cpu.a = 0x50;
    run_at(&mut cpu, &mut memory, 0x8000, &[0x69, 0x50]).unwrap();
    assert_eq!(cpu.a, 0xA0);
    assert_eq!(cpu.p & (V | N | C | Z), V | N);
}

#[test]
fn adc_adds_carry_in() {
    let mut cpu = CPU::new();
    let mut memory = Memory::new();
    cpu.a = 0x10;
    cpu.p |= C;
    run_at(&mut cpu, &mut memory, 0x8000, &[0x69, 0x20]).unwrap();
    assert_eq!(cpu.a, 0x31);
    assert_eq!(cpu.p & C, 0);
}

#[test]
fn sbc_without_and_with_borrow() {
    let mut cpu = CPU::new();
    let mut memory = Memory::new();
    cpu.a = 0x50;
    cpu.p |= C;
    run_at(&mut cpu, &mut memory, 0x8000, &[0xE9, 0x10]).unwrap();
    assert_eq!(cpu.a, 0x40);
    assert_eq!(cpu.p & (C | V), C);

    cpu.a = 0x00;
    cpu.p |= C;
    run_at(&mut cpu, &mut memory, 0x8000, &[0xE9, 0x01]).unwrap();
    assert_eq!(cpu.a, 0xFF);
    assert_eq!(cpu.p & (C | N), N);
}

#[test]
fn logic_operations() {
    let mut cpu = CPU::new();
    let mut memory = Memory::new();
    cpu.a = 0b1100_1100;
    run_at(&mut cpu, &mut memory, 0x8000, &[0x29, 0b1010_1010]).unwrap();
    assert_eq!(cpu.a, 0b1000_1000);
    assert_eq!(cpu.p & N, N);
    run_at(&mut cpu, &mut memory, 0x8000, &[0x09, 0b0000_0011]).unwrap();
    assert_eq!(cpu.a, 0b1000_1011);
    run_at(&mut cpu, &mut memory, 0x8000, &[0x49, 0b1000_1011]).unwrap();
    assert_eq!(cpu.a, 0);
    assert_eq!(cpu.p & (Z | N), Z);
}

#[test]
fn inx_wraps_and_advances_one_byte() {
    let mut cpu = CPU::new();
    let mut memory = Memory::new();
    cpu.x = 0xFF;
    let r = run_at(&mut cpu, &mut memory, 0x8000, &[0xE8]);
    assert_eq!(r, Ok(2));
    assert_eq!(cpu.x, 0);
    assert_eq!(cpu.pc, 0x8001);
    assert_eq!(cpu.p & (Z | N), Z);
}

#[test]
fn register_decrements_wrap() {
    let mut cpu = CPU::new();
    let mut memory = Memory::new();
    cpu.y = 0x00;
    run_at(&mut cpu, &mut memory, 0x8000, &[0x88]).unwrap();
    assert_eq!(cpu.y, 0xFF);
    assert_eq!(cpu.p & N, N);
    cpu.x = 0x01;
    run_at(&mut cpu, &mut memory, 0x8000, &[0xCA]).unwrap();
    assert_eq!(cpu.x, 0);
    assert_eq!(cpu.p & Z, Z);
}

#[test]
fn memory_increment_and_decrement() {
    let mut cpu = CPU::new();
    let mut memory = Memory::new();
    memory.write(0x0010, 0xFF);
    run_at(&mut cpu, &mut memory, 0x8000, &[0xE6, 0x10]).unwrap();
    assert_eq!(memory.read(0x0010), 0x00);
    assert_eq!(cpu.p & Z, Z);
    run_at(&mut cpu, &mut memory, 0x8000, &[0xC6, 0x10]).unwrap();
    assert_eq!(memory.read(0x0010), 0xFF);
    assert_eq!(cpu.p & (Z | N), N);
}

#[test]
fn jsr_then_rts_returns_past_the_call() {
    let mut cpu = CPU::new();
    let mut memory = Memory::new();
    load(&mut memory, 0x8000, &[0x20, 0x00, 0x90]);
    load(&mut memory, 0x9000, &[0x60]);
    cpu.pc = 0x8000;
    assert_eq!(cpu.execute_instruction(&mut memory), Ok(6));
    assert_eq!(cpu.pc, 0x9000);
    assert_eq!(cpu.sp, 0xFB);
    assert_eq!(memory.read(0x01FD), 0x80);
    assert_eq!(memory.read(0x01FC), 0x02);
    assert_eq!(cpu.execute_instruction(&mut memory), Ok(6));
    assert_eq!(cpu.pc, 0x8003);
    assert_eq!(cpu.sp, 0xFD);
}

#[test]
fn indirect_jmp_wraps_within_page() {
    let mut cpu = CPU::new();
    let mut memory = Memory::new();
    memory.write(0x02FF, 0x34);
    memory.write(0x0200, 0x12);
    memory.write(0x0300, 0x56);
    let r = run_at(&mut cpu, &mut memory, 0x8000, &[0x6C, 0xFF, 0x02]);
    assert_eq!(r, Ok(5));
    assert_eq!(cpu.pc, 0x1234);
}

#[test]
fn indirect_jmp_inside_page() {
    let mut cpu = CPU::new();
    let mut memory = Memory::new();
    memory.write(0x0210, 0x78);
    memory.write(0x0211, 0x56);
    run_at(&mut cpu, &mut memory, 0x8000, &[0x6C, 0x10, 0x02]).unwrap();
    assert_eq!(cpu.pc, 0x5678);
}

#[test]
fn absolute_jmp() {
    let mut cpu = CPU::new();
    let mut memory = Memory::new();
    run_at(&mut cpu, &mut memory, 0x8000, &[0x4C, 0x34, 0x12]).unwrap();
    assert_eq!(cpu.pc, 0x1234);
}

#[test]
fn every_table_entry_executes() {
    let table = build_opcode_table();
    let mut decoded = 0;
    for b in 0..=255u8 {
        let mut cpu = CPU::new();
        let mut memory = Memory::new();
        let r = run_at(&mut cpu, &mut memory, 0x8000, &[b]);
        match table[b as usize] {
            Some(op) => {
                decoded += 1;
                assert_eq!(r, Ok(op.cycles));
                assert_eq!(decode_opcode(b), Some(op));
            },
            None => {
                assert_eq!(r, Err(CpuError::IllegalOpcode(b)));
                assert_eq!(cpu.pc, 0x8000);
            },
        }
    }
    assert_eq!(decoded, 175);
}

#[test]
fn illegal_opcode_leaves_state_untouched() {
    let mut cpu = CPU::new();
    let mut memory = Memory::new();
    cpu.a = 1;
    cpu.x = 2;
    cpu.y = 3;
    let r = run_at(&mut cpu, &mut memory, 0x8000, &[0x02, 0x99]);
    assert_eq!(r, Err(CpuError::IllegalOpcode(0x02)));
    assert_eq!((cpu.a, cpu.x, cpu.y, cpu.pc, cpu.sp, cpu.p), (1, 2, 3, 0x8000, 0xFD, 0x34));
    assert_eq!(memory.read(0x8001), 0x99);
}

#[test]
fn shx_byte_is_illegal() {
    assert_eq!(decode_opcode(0x9E), None);
    let mut cpu = CPU::new();
    let mut memory = Memory::new();
    let r = run_at(&mut cpu, &mut memory, 0x8000, &[0x9E, 0x00, 0x10]);
    assert_eq!(r, Err(CpuError::IllegalOpcode(0x9E)));
}

#[test]
fn decode_examples() {
    assert_eq!(
        decode_opcode(0xA9),
        Some(Opcode { name: Mnemonic::Lda, cycles: 2, addressing_mode: AddressingMode::Immediate })
    );
    assert_eq!(
        decode_opcode(0xDB),
        Some(Opcode { name: Mnemonic::Dcp, cycles: 7, addressing_mode: AddressingMode::AbsoluteY })
    );
    assert_eq!(
        decode_opcode(0x70),
        Some(Opcode { name: Mnemonic::Bvs, cycles: 2, addressing_mode: AddressingMode::Relative })
    );
    assert_eq!(decode_opcode(0x02), None);
    assert_eq!(AddressingMode::Indirect.operand_len(), 2);
    assert_eq!(AddressingMode::Relative.operand_len(), 1);
    assert_eq!(AddressingMode::Accumulator.operand_len(), 0);
}

#[test]
fn compare_sets_carry_zero_negative() {
    let mut cpu = CPU::new();
    let mut memory = Memory::new();
    cpu.a = 0x40;
    run_at(&mut cpu, &mut memory, 0x8000, &[0xC9, 0x40]).unwrap();
    assert_eq!(cpu.p & (C | Z | N), C | Z);
    run_at(&mut cpu, &mut memory, 0x8000, &[0xC9, 0x41]).unwrap();
    assert_eq!(cpu.p & (C | Z | N), N);
    assert_eq!(cpu.a, 0x40);
    cpu.x = 0x05;
    run_at(&mut cpu, &mut memory, 0x8000, &[0xE0, 0x03]).unwrap();
    assert_eq!(cpu.p & (C | Z | N), C);
    cpu.y = 0x00;
    run_at(&mut cpu, &mut memory, 0x8000, &[0xC0, 0x80]).unwrap();
    assert_eq!(cpu.p & (C | Z | N), N);
}

#[test]
fn bit_test_flags() {
    let mut cpu = CPU::new();
    let mut memory = Memory::new();
    cpu.a = 0x0F;
    memory.write(0x0010, 0xC0);
    run_at(&mut cpu, &mut memory, 0x8000, &[0x24, 0x10]).unwrap();
    assert_eq!(cpu.p & (Z | N | V), Z | N | V);
    assert_eq!(cpu.a, 0x0F);
}

#[test]
fn shifts_and_rotates() {
    let mut cpu = CPU::new();
    let mut memory = Memory::new();
    cpu.a = 0x81;
    run_at(&mut cpu, &mut memory, 0x8000, &[0x0A]).unwrap();
    assert_eq!(cpu.a, 0x02);
    assert_eq!(cpu.p & C, C);
    assert_eq!(cpu.pc, 0x8001);

    cpu.p |= C;
    memory.write(0x0010, 0x01);
    run_at(&mut cpu, &mut memory, 0x8000, &[0x66, 0x10]).unwrap();
    assert_eq!(memory.read(0x0010), 0x80);
    assert_eq!(cpu.p & (C | N), C | N);

    cpu.p &= !C;
    cpu.a = 0x80;
    run_at(&mut cpu, &mut memory, 0x8000, &[0x2A]).unwrap();
    assert_eq!(cpu.a, 0x00);
    assert_eq!(cpu.p & (C | Z), C | Z);

    cpu.a = 0x03;
    run_at(&mut cpu, &mut memory, 0x8000, &[0x4A]).unwrap();
    assert_eq!(cpu.a, 0x01);
    assert_eq!(cpu.p & C, C);
}

#[test]
fn branches_taken_and_not_taken() {
    let mut cpu = CPU::new();
    let mut memory = Memory::new();
    cpu.p &= !Z;
    run_at(&mut cpu, &mut memory, 0x8000, &[0xD0, 0xFC]).unwrap();
    assert_eq!(cpu.pc, 0x7FFE);
    run_at(&mut cpu, &mut memory, 0x8000, &[0xF0, 0x10]).unwrap();
    assert_eq!(cpu.pc, 0x8002);
    cpu.p |= C;
    run_at(&mut cpu, &mut memory, 0x8000, &[0xB0, 0x10]).unwrap();
    assert_eq!(cpu.pc, 0x8012);
    cpu.p |= V;
    run_at(&mut cpu, &mut memory, 0x8000, &[0x50, 0x10]).unwrap();
    assert_eq!(cpu.pc, 0x8002);
    run_at(&mut cpu, &mut memory, 0x8000, &[0x70, 0x10]).unwrap();
    assert_eq!(cpu.pc, 0x8012);
}

#[test]
fn branch_target_wraps_around_address_space() {
    let mut cpu = CPU::new();
    let mut memory = Memory::new();
    cpu.p |= Z;
    run_at(&mut cpu, &mut memory, 0xFFFE, &[0xF0, 0x05]).unwrap();
    assert_eq!(cpu.pc, 0x0005);
}

#[test]
fn brk_then_rti() {
    let mut cpu = CPU::new();
    let mut memory = Memory::new();
    memory.write(0xFFFE, 0x00);
    memory.write(0xFFFF, 0x90);
    load(&mut memory, 0x9000, &[0x40]);
    cpu.p = 0x01;
    let r = run_at(&mut cpu, &mut memory, 0x8000, &[0x00]);
    assert_eq!(r, Ok(7));
    assert_eq!(cpu.pc, 0x9000);
    assert_eq!(cpu.sp, 0xFA);
    assert_eq!(cpu.p, 0x01 | I);
    assert_eq!(memory.read(0x01FD), 0x80);
    assert_eq!(memory.read(0x01FC), 0x02);
    assert_eq!(memory.read(0x01FB), 0x31);
    assert_eq!(cpu.execute_instruction(&mut memory), Ok(6));
    assert_eq!(cpu.pc, 0x8002);
    assert_eq!(cpu.sp, 0xFD);
    assert_eq!(cpu.p, 0x31);
}

#[test]
fn push_and_pull_status_and_accumulator() {
    let mut cpu = CPU::new();
    let mut memory = Memory::new();
    cpu.p = 0xC3;
    run_at(&mut cpu, &mut memory, 0x8000, &[0x08]).unwrap();
    assert_eq!(memory.read(0x01FD), 0xF3);
    assert_eq!(cpu.sp, 0xFC);
    cpu.p = 0x00;
    run_at(&mut cpu, &mut memory, 0x8000, &[0x28]).unwrap();
    assert_eq!(cpu.p, 0xF3);
    assert_eq!(cpu.sp, 0xFD);

    cpu.a = 0x80;
    run_at(&mut cpu, &mut memory, 0x8000, &[0x48]).unwrap();
    cpu.a = 0x00;
    run_at(&mut cpu, &mut memory, 0x8000, &[0x68]).unwrap();
    assert_eq!(cpu.a, 0x80);
    assert_eq!(cpu.p & N, N);
}

#[test]
fn stack_pointer_wraps() {
    let mut cpu = CPU::new();
    let mut memory = Memory::new();
    cpu.sp = 0x00;
    cpu.a = 0x77;
    run_at(&mut cpu, &mut memory, 0x8000, &[0x48]).unwrap();
    assert_eq!(memory.read(0x0100), 0x77);
    assert_eq!(cpu.sp, 0xFF);
    run_at(&mut cpu, &mut memory, 0x8000, &[0x68]).unwrap();
    assert_eq!(cpu.sp, 0x00);
    assert_eq!(cpu.a, 0x77);
}

#[test]
fn zero_page_indexing_wraps() {
    let mut cpu = CPU::new();
    let mut memory = Memory::new();
    memory.write(0x0000, 0x11);
    memory.write(0x0100, 0x22);
    cpu.x = 0x01;
    run_at(&mut cpu, &mut memory, 0x8000, &[0xB5, 0xFF]).unwrap();
    assert_eq!(cpu.a, 0x11);
    cpu.y = 0x02;
    memory.write(0x0001, 0x33);
    run_at(&mut cpu, &mut memory, 0x8000, &[0xB6, 0xFF]).unwrap();
    assert_eq!(cpu.x, 0x33);
}

#[test]
fn indexed_indirect_pointer_wraps_in_page_zero() {
    let mut cpu = CPU::new();
    let mut memory = Memory::new();
    memory.write(0x00FF, 0x34);
    memory.write(0x0000, 0x12);
    memory.write(0x0100, 0x56);
    memory.write(0x1234, 0x77);
    run_at(&mut cpu, &mut memory, 0x8000, &[0xA1, 0xFF]).unwrap();
    assert_eq!(cpu.a, 0x77);
}

#[test]
fn indirect_indexed_adds_y() {
    let mut cpu = CPU::new();
    let mut memory = Memory::new();
    memory.write(0x0010, 0xFF);
    memory.write(0x0011, 0x12);
    memory.write(0x1300, 0x99);
    cpu.y = 0x01;
    run_at(&mut cpu, &mut memory, 0x8000, &[0xB1, 0x10]).unwrap();
    assert_eq!(cpu.a, 0x99);
}

#[test]
fn absolute_indexing_wraps() {
    let mut cpu = CPU::new();
    let mut memory = Memory::new();
    memory.write(0x0001, 0x5A);
    cpu.x = 0x02;
    let r = run_at(&mut cpu, &mut memory, 0x8000, &[0xBD, 0xFF, 0xFF]);
    assert_eq!(r, Ok(4));
    assert_eq!(cpu.a, 0x5A);
    assert_eq!(cpu.pc, 0x8003);
}

#[test]
fn stores_of_x_and_y() {
    let mut cpu = CPU::new();
    let mut memory = Memory::new();
    cpu.x = 0x12;
    cpu.y = 0x34;
    run_at(&mut cpu, &mut memory, 0x8000, &[0x8E, 0x00, 0x20]).unwrap();
    run_at(&mut cpu, &mut memory, 0x8000, &[0x84, 0x20]).unwrap();
    assert_eq!(memory.read(0x2000), 0x12);
    assert_eq!(memory.read(0x0020), 0x34);
}

#[test]
fn unofficial_opcodes() {
    let mut cpu = CPU::new();
    let mut memory = Memory::new();
    memory.write(0x0010, 0x80);
    run_at(&mut cpu, &mut memory, 0x8000, &[0xA7, 0x10]).unwrap();
    assert_eq!((cpu.a, cpu.x), (0x80, 0x80));
    assert_eq!(cpu.p & N, N);

    cpu.a = 0xF0;
    cpu.x = 0x3C;
    run_at(&mut cpu, &mut memory, 0x8000, &[0x87, 0x20]).unwrap();
    assert_eq!(memory.read(0x0020), 0x30);

    memory.write(0x0030, 0x41);
    cpu.a = 0x40;
    run_at(&mut cpu, &mut memory, 0x8000, &[0xC7, 0x30]).unwrap();
    assert_eq!(memory.read(0x0030), 0x40);
    assert_eq!(cpu.p & (C | Z), C | Z);

    memory.write(0x0040, 0x0F);
    cpu.a = 0x20;
    cpu.p |= C;
    run_at(&mut cpu, &mut memory, 0x8000, &[0xE7, 0x40]).unwrap();
    assert_eq!(memory.read(0x0040), 0x10);
    assert_eq!(cpu.a, 0x10);
    assert_eq!(cpu.p & C, C);
}

#[test]
fn transfers() {
    let mut cpu = CPU::new();
    let mut memory = Memory::new();
    run_at(&mut cpu, &mut memory, 0x8000, &[0xBA]).unwrap();
    assert_eq!(cpu.x, 0xFD);
    assert_eq!(cpu.p & N, N);
    cpu.x = 0x00;
    let before = cpu.p;
    run_at(&mut cpu, &mut memory, 0x8000, &[0x9A]).unwrap();
    assert_eq!(cpu.sp, 0x00);
    assert_eq!(cpu.p, before);
    cpu.a = 0x42;
    run_at(&mut cpu, &mut memory, 0x8000, &[0xA8]).unwrap();
    assert_eq!(cpu.y, 0x42);
    run_at(&mut cpu, &mut memory, 0x8000, &[0x8A]).unwrap();
    assert_eq!(cpu.a, 0x00);
    assert_eq!(cpu.p & Z, Z);
}

#[test]
fn flag_instructions() {
    let mut cpu = CPU::new();
    let mut memory = Memory::new();
    cpu.p = 0x00;
    run_at(&mut cpu, &mut memory, 0x8000, &[0x38]).unwrap();
    run_at(&mut cpu, &mut memory, 0x8000, &[0xF8]).unwrap();
    run_at(&mut cpu, &mut memory, 0x8000, &[0x78]).unwrap();
    assert_eq!(cpu.p, C | D | I);
    run_at(&mut cpu, &mut memory, 0x8000, &[0x18]).unwrap();
    run_at(&mut cpu, &mut memory, 0x8000, &[0xD8]).unwrap();
    run_at(&mut cpu, &mut memory, 0x8000, &[0x58]).unwrap();
    assert_eq!(cpu.p, 0x00);
    cpu.p = V;
    run_at(&mut cpu, &mut memory, 0x8000, &[0xB8]).unwrap();
    assert_eq!(cpu.p, 0x00);
    run_at(&mut cpu, &mut memory, 0x8000, &[0xEA]).unwrap();
    assert_eq!(cpu.pc, 0x8001);
}

#[test]
fn flag_accessors() {
    let mut cpu = CPU::new();
    cpu.p = 0;
    cpu.set_flag(Flag::Overflow, true);
    assert_eq!(cpu.p, V);
    assert!(cpu.get_flag(Flag::Overflow));
    assert!(!cpu.get_flag(Flag::Carry));
    cpu.set_flag(Flag::Overflow, false);
    assert_eq!(cpu.p, 0);
    assert_eq!(Flag::Negative.mask(), 0x80);
    assert_eq!(Flag::Unused.mask(), 0x20);
}

#[test]
fn memory_starts_zeroed_and_stores_bytes() {
    let mut memory = Memory::new();
    assert_eq!(memory.read(0x0000), 0);
    assert_eq!(memory.read(0xFFFF), 0);
    memory.write(0xFFFF, 0xAB);
    assert_eq!(memory.read(0xFFFF), 0xAB);
    assert_eq!(memory.read(0xFFFE), 0);
}
