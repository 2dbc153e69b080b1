use nes::assembly::Assembler;
use nes::bus::{BusFault, BUS};
use nes::cartridges::{Mirroring, ROM};
use nes::cpu::{CARRY, NEGATIVE, OVERFLOW, ZERO, CPU};

/// A cartridge whose 32KB program bank holds `program` at the entry point
/// 0x8000, with the reset vector pointing there.
fn program_rom(program: &[u8]) -> ROM {
    let mut prg_rom = vec![0u8; 0x8000];
    prg_rom[..program.len()].copy_from_slice(program);
    prg_rom[0x7FFC] = 0x00;
    prg_rom[0x7FFD] = 0x80;
    ROM {
        prg_rom,
        chr_rom: vec![0u8; 8192],
        mapper: 0,
        screen_mirroring: Mirroring::Horizontal,
    }
}

/// Runs `program` from reset until the force-break opcode.
fn run_program(program: &[u8]) -> CPU {
    let mut cpu = CPU::new(BUS::new(program_rom(program)));
    cpu.reset();
    let assembler = Assembler::new();
    loop {
        match cpu.step(&assembler) {
            Ok(out) => {
                if out.halted {
                    return cpu;
                }
            }
            Err(fault) => panic!("unexpected bus fault: {:?}", fault),
        }
    }
}

fn run_program_to_fault(program: &[u8]) -> BusFault {
    let mut cpu = CPU::new(BUS::new(program_rom(program)));
    cpu.reset();
    let assembler = Assembler::new();
    loop {
        match cpu.step(&assembler) {
            Ok(out) => {
                if out.halted {
                    panic!("program halted without a fault");
                }
            }
            Err(fault) => return fault,
        }
    }
}

#[test]
fn test_load_immediate_then_transfer() {
    // loading 0x05 then transferring to X leaves X = 0x05 and both the
    // zero and negative flags clear
    let cpu = run_program(&[0xa9, 0x05, 0xaa, 0x00]);
    assert_eq!(cpu.register_x, 0x05);
    assert_eq!(cpu.register_a, 0x05);
    assert_eq!(cpu.register_p.bits & ZERO, 0);
    assert_eq!(cpu.register_p.bits & NEGATIVE, 0);
}

#[test]
fn test_load_zero_sets_zero_flag() {
    let cpu = run_program(&[0xa9, 0x00, 0x00]);
    assert_eq!(cpu.register_a, 0x00);
    assert_ne!(cpu.register_p.bits & ZERO, 0);
    assert_eq!(cpu.register_p.bits & NEGATIVE, 0);
}

#[test]
fn test_add_with_carry_signed_overflow() {
    // 0x50 + 0x90 with no incoming carry: result 0xE0, carry clear; a
    // positive plus a negative cannot overflow, so the sign-bit rule
    // leaves the overflow flag clear
    let cpu = run_program(&[0xa9, 0x50, 0x69, 0x90, 0x00]);
    assert_eq!(cpu.register_a, 0xE0);
    assert_eq!(cpu.register_p.bits & CARRY, 0);
    assert_eq!(cpu.register_p.bits & OVERFLOW, 0);

    // 0x50 + 0x50 = 0xA0 crosses the signed boundary: overflow set
    let cpu = run_program(&[0xa9, 0x50, 0x69, 0x50, 0x00]);
    assert_eq!(cpu.register_a, 0xA0);
    assert_eq!(cpu.register_p.bits & CARRY, 0);
    assert_ne!(cpu.register_p.bits & OVERFLOW, 0);
}

#[test]
fn test_stack_round_trip_through_status() {
    // push A, pull it into the status byte, push the status (forcing the
    // break and unused bits), load a new A, pull A back: the final
    // accumulator is the first value with break and unused forced
    let cpu = run_program(&[0xa9, 0xC3, 0x48, 0x28, 0x08, 0xa9, 0x42, 0x68, 0x00]);
    assert_eq!(cpu.register_a, 0xC3 | 0b0001_0000 | 0b0010_0000);
}

#[test]
fn test_index_increment_wraps() {
    // X at 0xFF incremented twice wraps through 0x00 to 0x01
    let cpu = run_program(&[0xa2, 0xff, 0xe8, 0xe8, 0x00]);
    assert_eq!(cpu.register_x, 0x01);
}

#[test]
fn test_compare_carry_semantics() {
    // carry is set when the memory operand does not exceed the register
    let cpu = run_program(&[0xa9, 0x10, 0xc9, 0x10, 0x00]);
    assert_ne!(cpu.register_p.bits & CARRY, 0);
    assert_ne!(cpu.register_p.bits & ZERO, 0);

    let cpu = run_program(&[0xa9, 0x10, 0xc9, 0x11, 0x00]);
    assert_eq!(cpu.register_p.bits & CARRY, 0);
}

#[test]
fn test_subtract_with_borrow() {
    // with carry set, 0x50 - 0x10 = 0x40 and carry stays set
    let cpu = run_program(&[0x38, 0xa9, 0x50, 0xe9, 0x10, 0x00]);
    assert_eq!(cpu.register_a, 0x40);
    assert_ne!(cpu.register_p.bits & CARRY, 0);
}

#[test]
fn test_zero_page_store_and_load() {
    let mut cpu = run_program(&[0xa9, 0x7b, 0x85, 0x10, 0xa9, 0x00, 0xa5, 0x10, 0x00]);
    assert_eq!(cpu.register_a, 0x7b);
    assert_eq!(cpu.memory_read(0x10), 0x7b);
}

#[test]
fn test_branch_taken_skips_instruction() {
    // BNE over a load: the skipped load never runs
    let cpu = run_program(&[0xa9, 0x01, 0xd0, 0x02, 0xa9, 0x44, 0x00]);
    assert_eq!(cpu.register_a, 0x01);
}

#[test]
fn test_jsr_rts_round_trip() {
    // call a routine at 0x8006 that loads X, then return and load Y
    let cpu = run_program(&[0x20, 0x06, 0x80, 0xa0, 0x55, 0x00, 0xa2, 0x66, 0x60]);
    assert_eq!(cpu.register_x, 0x66);
    assert_eq!(cpu.register_y, 0x55);
}

#[test]
fn test_decrement_compare_combined() {
    // the undocumented decrement-then-compare: memory drops by one and
    // the compare against A sets carry
    let mut cpu = run_program(&[0xa9, 0x05, 0x85, 0x10, 0xc7, 0x10, 0x00]);
    assert_eq!(cpu.memory_read(0x10), 0x04);
    assert_ne!(cpu.register_p.bits & CARRY, 0);
}

#[test]
fn test_rom_write_is_fault() {
    let fault = run_program_to_fault(&[0xa9, 0x01, 0x8d, 0x00, 0x80]);
    assert_eq!(fault, BusFault::RomWrite(0x8000));
}

#[test]
fn test_ppu_status_write_is_fault() {
    let fault = run_program_to_fault(&[0xa9, 0x01, 0x8d, 0x02, 0x20]);
    assert_eq!(fault, BusFault::StatusWrite(0x2002));
}

#[test]
fn test_shift_rotate_carry_chain() {
    // ASL of 0x81 sets carry and leaves 0x02; ROL then shifts the carry
    // back in at bit 0
    let cpu = run_program(&[0xa9, 0x81, 0x0a, 0x2a, 0x00]);
    assert_eq!(cpu.register_a, 0x05);
}

#[test]
fn test_descriptor_table_well_formed() {
    // one descriptor per opcode byte, at its own index, with a sensible
    // byte length and cycle cost
    let assembler = Assembler::new();
    assert_eq!(assembler.opcodes.len(), 256);
    for i in 0..256usize {
        let op = &assembler.opcodes[i];
        assert_eq!(op.code as usize, i);
        assert!(op.len >= 1 && op.len <= 3);
        assert!(op.cycles >= 1 && op.cycles <= 8);
    }
}

#[test]
fn test_instruction_cycles_accumulate() {
    // LDA # (2 cycles), TAX (2), BRK spends nothing
    let cpu = run_program(&[0xa9, 0x05, 0xaa, 0x00]);
    assert_eq!(cpu.bus.cycles, 4);
}
