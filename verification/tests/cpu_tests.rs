use gamelads::cpu::CPU;
use gamelads::cpu::FLAG_SUBTRACT;
use gamelads::cpu::FLAG_ZERO;
use gamelads::cpu::make_u16;
use gamelads::cpu::mbc::FlatMbc;
use gamelads::cpu::unmake_u16;

fn run_bytecode(bytecode: Vec<u8>) -> CPU {
    let length = bytecode.len();

    let mut cpu = CPU::new();
    let mut mbc = FlatMbc::new(bytecode);

    while (cpu.pc as usize) < length {
        cpu.step(&mut mbc).unwrap();
    }

    cpu
}

#[test]
fn nop_does_nothing() {
    let cpu = run_bytecode(vec![0x00, 0x00]);
    assert!(cpu.pc == 2);
    assert!(cpu.a == 0);
}

#[test]
fn ld_imm_16() {
    let cpu = run_bytecode(vec![0x21, 0x34, 0x12]);
    println!("hl = {:#04x}", cpu.get_hl());
    assert_eq!(cpu.get_hl(), 0x1234_u16);
}

#[test]
fn get_and_set_r16_return_same_values() {
    let mut cpu = CPU::new();

    cpu.set_hl(0x1234);
    assert_eq!(0x1234, cpu.get_hl());

    cpu.set_bc(0xbeef);
    assert_eq!(0xbeef, cpu.get_bc());

    cpu.set_de(0xcafe);
    assert_eq!(0xcafe, cpu.get_de());

    // Setting AF masks the low nibble of F to zero, so the round trip
    // keeps only the top twelve bits of the value.
    cpu.set_af(0xfade);
    assert_eq!(0xfad0, cpu.get_af());
}

#[test]
fn r16_registers_in_correct_order() {
    let mut cpu = CPU::new();

    cpu.set_hl(0x1234);
    println!("h = {:#04x} l = {:#04x}", cpu.h, cpu.l);
    assert_eq!(0x12, cpu.h);
    assert_eq!(0x34, cpu.l);

    cpu.set_bc(0xbeef);
    println!("b = {:#04x} c = {:#04x}", cpu.b, cpu.c);
    assert_eq!(0xbe, cpu.b);
    assert_eq!(0xef, cpu.c);

    cpu.set_de(0xcafe);
    println!("d = {:#04x} e = {:#04x}", cpu.d, cpu.e);
    assert_eq!(0xca, cpu.d);
    assert_eq!(0xfe, cpu.e);

    // Setting AF masks the low nibble of F to zero.
    cpu.set_af(0xfade);
    println!("a = {:#04x} f = {:#04x}", cpu.a, cpu.f);
    assert_eq!(0xfa, cpu.a);
    assert_eq!(0xd0, cpu.f);
}

#[test]
fn inc16_properly_increments_hl() {
    let cpu = run_bytecode(vec![0x21, 0x34, 0x12, 0x23]);

    let hl = cpu.get_hl();

    assert_eq!(hl, 0x1235);
}

#[test]
fn make_u16_and_unmake_u16_are_symmetric() {
    let lo: u8 = 0x12;
    let hi: u8 = 0x34;

    let a = make_u16(lo, hi);
    let (l, h) = unmake_u16(a);

    println!("a = {:#04x}", a);
    println!("l = {:#04x} h = {:#04x}", l, h);
    println!("lo = {:#04x} hi = {:#04x}", lo, hi);

    assert_eq!(lo, l);
    assert_eq!(hi, h);
}

#[test]
fn alu_dec_subtracts_one() {
    let mut cpu = CPU::new();

    let a = cpu.alu_dec(5);

    assert_eq!(a, 4);
}

#[test]
fn alu_dec_ets_correct_flags() {
    let mut cpu = CPU::new();

    let a = cpu.alu_dec(1);

    assert_eq!(a, 0);
    assert!(cpu.read_flag(FLAG_ZERO));
    assert!(cpu.read_flag(FLAG_SUBTRACT));
}

#[test]
fn alu_inc_sets_correct_flags() {
    let mut cpu = CPU::new();

    let a = cpu.alu_inc(0x09);

    assert_eq!(a, 0x0a);
    assert!(!cpu.read_flag(FLAG_ZERO));
    assert!(!cpu.read_flag(FLAG_SUBTRACT));
}
