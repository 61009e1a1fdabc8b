use gamelads::cpu::CPU;
use gamelads::cpu::FLAG_CARRY;
use gamelads::cpu::FLAG_HALF_CARRY;
use gamelads::cpu::FLAG_SUBTRACT;
use gamelads::cpu::FLAG_ZERO;
use gamelads::cpu::mbc::FlatMbc;
use gamelads::cpu::mbc::Mbc1;
use gamelads::cpu::mbc::MemoryBankController;
use gamelads::cpu::mbc::MemoryBankControllerType;
use gamelads::cpu::memory_range::MemoryRange;
use gamelads::cpu::opcodes::StepError;
use gamelads::gamelad::Gamelad;
use gamelads::gamelad::LoadError;

fn run_program(bytecode: Vec<u8>) -> (CPU, FlatMbc) {
    let length = bytecode.len();

    let mut cpu = CPU::new();
    let mut mbc = FlatMbc::new(bytecode);

    while !cpu.is_stopped() && (cpu.pc as usize) < length {
        cpu.step(&mut mbc).unwrap();
    }

    (cpu, mbc)
}

#[test]
fn add_sets_half_carry_on_nibble_overflow() {
    let mut cpu = CPU::new();

    let r = cpu.alu_add(0x0f, 0x01);

    assert_eq!(r, 0x10);
    assert!(cpu.read_flag(FLAG_HALF_CARRY));
    assert!(!cpu.read_flag(FLAG_CARRY));
    assert!(!cpu.read_flag(FLAG_ZERO));
    assert!(!cpu.read_flag(FLAG_SUBTRACT));
}

#[test]
fn add_wraps_and_sets_carry_and_zero() {
    let mut cpu = CPU::new();

    let r = cpu.alu_add(0xff, 0x01);

    assert_eq!(r, 0);
    assert!(cpu.read_flag(FLAG_ZERO));
    assert!(cpu.read_flag(FLAG_CARRY));
    assert!(cpu.read_flag(FLAG_HALF_CARRY));
}

#[test]
fn sub_sets_borrow_flags() {
    let mut cpu = CPU::new();

    let r = cpu.alu_sub(0x00, 0x01);

    assert_eq!(r, 0xff);
    assert!(cpu.read_flag(FLAG_CARRY));
    assert!(cpu.read_flag(FLAG_HALF_CARRY));
    assert!(cpu.read_flag(FLAG_SUBTRACT));
    assert!(!cpu.read_flag(FLAG_ZERO));
}

#[test]
fn sub_of_equal_values_sets_zero_without_borrow() {
    let mut cpu = CPU::new();

    let r = cpu.alu_sub(0x05, 0x05);

    assert_eq!(r, 0);
    assert!(cpu.read_flag(FLAG_ZERO));
    assert!(!cpu.read_flag(FLAG_CARRY));
    assert!(!cpu.read_flag(FLAG_HALF_CARRY));
}

#[test]
fn sub_borrows_from_bit_four() {
    let mut cpu = CPU::new();

    let r = cpu.alu_sub(0x10, 0x01);

    assert_eq!(r, 0x0f);
    assert!(cpu.read_flag(FLAG_HALF_CARRY));
    assert!(!cpu.read_flag(FLAG_CARRY));
}

#[test]
fn alu_inc_u16_wraps_without_touching_flags() {
    let mut cpu = CPU::new();
    cpu.alu_add(0x0f, 0x01);
    let f_before = cpu.f;

    assert_eq!(cpu.alu_inc_u16(0xffff), 0);
    assert_eq!(cpu.alu_dec_u16(0), 0xffff);
    assert_eq!(cpu.f, f_before);
}

#[test]
fn ld_imm_16_advances_pc_and_reports_cost() {
    let (cpu, _) = run_program(vec![0x21, 0x34, 0x12]);

    assert_eq!(cpu.get_hl(), 0x1234);
    assert_eq!(cpu.pc, 3);
    assert_eq!(cpu.cycle_delay, 8);
}

#[test]
fn nop_changes_no_register_or_flag() {
    let (cpu, _) = run_program(vec![0x00, 0x00]);

    assert_eq!(cpu.pc, 2);
    assert_eq!(cpu.cycle_delay, 4);
    assert_eq!(cpu.a, 0);
    assert_eq!(cpu.f, 0);
    assert_eq!(cpu.b, 0);
    assert_eq!(cpu.c, 0);
    assert_eq!(cpu.d, 0);
    assert_eq!(cpu.e, 0);
    assert_eq!(cpu.h, 0);
    assert_eq!(cpu.l, 0);
    assert_eq!(cpu.sp, 0xfffe);
}

#[test]
fn jr_z_not_taken_consumes_offset_only() {
    let mut cpu = CPU::new();
    let mut mbc = FlatMbc::new(vec![0x28, 0x05]);

    cpu.step(&mut mbc).unwrap();

    assert_eq!(cpu.pc, 2);
    assert_eq!(cpu.cycle_delay, 8);
}

#[test]
fn jr_z_taken_redirects_pc() {
    let mut cpu = CPU::new();
    let mut mbc = FlatMbc::new(vec![0xaf, 0x28, 0x02, 0x00, 0x00, 0x00]);

    cpu.step(&mut mbc).unwrap();
    assert!(cpu.read_flag(FLAG_ZERO));

    cpu.step(&mut mbc).unwrap();
    assert_eq!(cpu.pc, 5);
    assert_eq!(cpu.cycle_delay, 12);
}

#[test]
fn jr_backwards_offset_is_signed() {
    let mut cpu = CPU::new();
    // An unconditional relative jump with offset 0xfe lands back on the
    // jump opcode itself.
    let mut mbc = FlatMbc::new(vec![0x18, 0xfe]);

    cpu.step(&mut mbc).unwrap();

    assert_eq!(cpu.pc, 0);
    assert_eq!(cpu.cycle_delay, 12);
}

#[test]
fn push_pop_leaves_bc_and_sp_unchanged() {
    let mut cpu = CPU::new();
    let mut mbc = FlatMbc::new(vec![0x01, 0x34, 0x12, 0xc5, 0xc1]);

    cpu.step(&mut mbc).unwrap();
    cpu.step(&mut mbc).unwrap();
    assert_eq!(cpu.sp, 0xfffc);
    assert_eq!(mbc.read(0xfffc), 0x34);
    assert_eq!(mbc.read(0xfffd), 0x12);

    cpu.step(&mut mbc).unwrap();
    assert_eq!(cpu.get_bc(), 0x1234);
    assert_eq!(cpu.sp, 0xfffe);
}

#[test]
fn call_then_return_restores_pc() {
    let mut cpu = CPU::new();
    let mut mbc = FlatMbc::new(vec![0xcd, 0x05, 0x00, 0x00, 0x00, 0xc9]);

    cpu.step(&mut mbc).unwrap();
    assert_eq!(cpu.pc, 5);
    assert_eq!(cpu.sp, 0xfffc);
    assert_eq!(cpu.cycle_delay, 24);
    assert_eq!(mbc.read(0xfffc), 0x03);
    assert_eq!(mbc.read(0xfffd), 0x00);

    cpu.step(&mut mbc).unwrap();
    assert_eq!(cpu.pc, 3);
    assert_eq!(cpu.sp, 0xfffe);
    assert_eq!(cpu.cycle_delay, 16);
}

#[test]
fn conditional_call_not_taken_consumes_operands() {
    let mut cpu = CPU::new();
    // CALL Z with Z clear: the two operand bytes are consumed but the
    // program counter is not redirected and nothing is pushed.
    let mut mbc = FlatMbc::new(vec![0xcc, 0x09, 0x00]);

    cpu.step(&mut mbc).unwrap();

    assert_eq!(cpu.pc, 3);
    assert_eq!(cpu.sp, 0xfffe);
    assert_eq!(cpu.cycle_delay, 12);
}

#[test]
fn stop_halts_and_consumes_padding_byte() {
    let mut cpu = CPU::new();
    let mut mbc = FlatMbc::new(vec![0x10, 0x00, 0x04]);

    cpu.step(&mut mbc).unwrap();
    assert!(cpu.is_stopped());
    assert_eq!(cpu.pc, 2);
    assert_eq!(cpu.cycle_delay, 12);

    // A stopped CPU performs no fetch: nothing changes on a later step.
    cpu.step(&mut mbc).unwrap();
    assert_eq!(cpu.pc, 2);
    assert_eq!(cpu.b, 0);
}

#[test]
fn unknown_opcode_is_a_decode_fault() {
    let mut cpu = CPU::new();
    let mut mbc = FlatMbc::new(vec![0xcb]);

    let r = cpu.step(&mut mbc);

    assert_eq!(r, Err(StepError::Unimplemented(0xcb)));
    assert_eq!(cpu.pc, 1);
}

#[test]
fn io_port_store_and_load_round_trip() {
    let (cpu, mut mbc) = run_program(vec![0x3e, 0x42, 0xe0, 0x10, 0x3e, 0x00, 0xf0, 0x10]);

    assert_eq!(mbc.read(0xff10), 0x42);
    assert_eq!(cpu.a, 0x42);
}

#[test]
fn ldi_stores_and_increments_hl() {
    let mut cpu = CPU::new();
    let mut mbc = FlatMbc::new(vec![0x21, 0x00, 0x80, 0x3e, 0x07, 0x22]);

    cpu.step(&mut mbc).unwrap();
    cpu.step(&mut mbc).unwrap();
    cpu.step(&mut mbc).unwrap();

    assert_eq!(mbc.read(0x8000), 0x07);
    assert_eq!(cpu.get_hl(), 0x8001);
}

#[test]
fn cp_compares_without_changing_a() {
    let mut cpu = CPU::new();
    let mut mbc = FlatMbc::new(vec![0x3e, 0x05, 0xfe, 0x05]);

    cpu.step(&mut mbc).unwrap();
    cpu.step(&mut mbc).unwrap();

    assert_eq!(cpu.a, 0x05);
    assert!(cpu.read_flag(FLAG_ZERO));
    assert!(cpu.read_flag(FLAG_SUBTRACT));
}

#[test]
fn and_immediate_sets_half_carry() {
    let (cpu, _) = run_program(vec![0x3e, 0x0f, 0xe6, 0xf0]);

    assert_eq!(cpu.a, 0);
    assert!(cpu.read_flag(FLAG_ZERO));
    assert!(cpu.read_flag(FLAG_HALF_CARRY));
    assert!(!cpu.read_flag(FLAG_CARRY));
    assert!(!cpu.read_flag(FLAG_SUBTRACT));
}

#[test]
fn mbc1_silently_ignores_rom_writes() {
    let mut mbc = Mbc1::new(vec![1, 2, 3]);

    assert_eq!(mbc.read(0x0000), 1);
    assert_eq!(mbc.read(0x0001), 2);
    assert_eq!(mbc.read(0x0003), 0);

    mbc.write(0x0000, 9);
    assert_eq!(mbc.read(0x0000), 1);

    mbc.write(0x8000, 7);
    assert_eq!(mbc.read(0x8000), 7);
}

#[test]
fn from_rom_rejects_short_image() {
    let r = Gamelad::from_rom(vec![0; 0x147]);

    assert!(matches!(r, Err(LoadError::RomTooShort)));
}

#[test]
fn from_rom_rejects_unknown_mbc_byte() {
    let mut rom = vec![0u8; 0x148];
    rom[0x147] = 0x04;

    let r = Gamelad::from_rom(rom);

    assert!(matches!(r, Err(LoadError::UnknownMbcType(0x04))));
}

#[test]
fn from_rom_selects_mbc_variant_and_entry_point() {
    let mut rom = vec![0u8; 0x148];
    rom[0x147] = 0x01;

    let g = Gamelad::from_rom(rom).unwrap();

    assert_eq!(g.mbc_type, MemoryBankControllerType::Mbc1);
    assert_eq!(g.cpu.pc, 0x100);
}

#[test]
fn reset_assigns_architectural_register_values() {
    let mut rom = vec![0u8; 0x148];
    rom[0x147] = 0x00;

    let mut g = Gamelad::from_rom(rom).unwrap();
    g.reset();

    assert_eq!(g.cpu.get_af(), 0x01b0);
    assert_eq!(g.cpu.get_bc(), 0x0013);
    assert_eq!(g.cpu.get_de(), 0x01d8);
    assert_eq!(g.cpu.get_hl(), 0x014d);
    assert_eq!(g.cpu.sp, 0xfffe);
}

#[test]
fn step_once_executes_from_the_entry_point() {
    let mut rom = vec![0u8; 0x148];
    rom[0x147] = 0x00;
    rom[0x100] = 0x3e;
    rom[0x101] = 0x2a;

    let mut g = Gamelad::from_rom(rom).unwrap();
    g.step_once().unwrap();

    assert_eq!(g.cpu.a, 0x2a);
    assert_eq!(g.cpu.pc, 0x102);
}

#[test]
fn mbc_type_codes_round_trip() {
    assert_eq!(
        MemoryBankControllerType::from_code(0x00),
        Some(MemoryBankControllerType::RomOnly)
    );
    assert_eq!(
        MemoryBankControllerType::from_code(0x19),
        Some(MemoryBankControllerType::Mbc5)
    );
    assert_eq!(
        MemoryBankControllerType::from_code(0xff),
        Some(MemoryBankControllerType::Huc1RamBattery)
    );
    assert_eq!(MemoryBankControllerType::from_code(0x04), None);
}

#[test]
fn memory_range_bounds_are_inclusive() {
    let vram = MemoryRange::new(0x8000, 0x9fff);

    assert!(vram.in_range(0x8000));
    assert!(vram.in_range(0x9fff));
    assert!(!vram.in_range(0x7fff));
    assert!(!vram.in_range(0xa000));
    assert_eq!(vram.size, 0x1fff);
}

#[test]
fn fetch_reads_at_pc_and_advances() {
    let mut cpu = CPU::new();
    let mut mbc = FlatMbc::new(vec![0xab, 0xcd, 0xef]);

    assert_eq!(cpu.fetch(&mut mbc), 0xab);
    assert_eq!(cpu.pc, 1);
    assert_eq!(cpu.fetch_u16(&mut mbc), 0xefcd);
    assert_eq!(cpu.pc, 3);
}

#[test]
fn set_and_unset_flag_toggle_bits() {
    let mut cpu = CPU::new();

    cpu.set_flag(FLAG_CARRY);
    assert!(cpu.read_flag(FLAG_CARRY));
    assert!(!cpu.read_flag(FLAG_ZERO));

    cpu.set_flag(FLAG_ZERO);
    cpu.unset_flag(FLAG_CARRY);
    assert!(cpu.read_flag(FLAG_ZERO));
    assert!(!cpu.read_flag(FLAG_CARRY));
}
