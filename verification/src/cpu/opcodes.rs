//! The instruction dispatcher: fetch one opcode, decode it against the
//! machine's encoding, execute it against the register file and the
//! memory bus.
//!
//! The whole transition is pinned down by the spec-level model
//! [`spec_step`]: given the CPU state and the 64KB memory it yields the
//! next CPU state, the list of byte writes the instruction issues, and
//! the decode fault, if any.  The executable [`CPU::step`] is proved to
//! realise exactly that model, with each write filtered through the
//! bus's own write policy.

use vstd::prelude::*;

use crate::cpu::CPU;
use crate::cpu::FLAG_ZERO;
use crate::cpu::FLAG_CARRY;
use crate::cpu::spec_make_u16;
use crate::cpu::spec_lo;
use crate::cpu::spec_hi;
use crate::cpu::spec_has_flag;
use crate::cpu::spec_flag_update;
use crate::cpu::spec_add_result;
use crate::cpu::spec_add_f;
use crate::cpu::spec_sub_result;
use crate::cpu::spec_sub_f;
use crate::cpu::mbc::MemoryBankController;
use crate::cpu::mbc::mem_after_writes;
use crate::cpu::mbc::write_policy;
use crate::cpu::registers::Reg8;
use crate::cpu::registers::Reg16;
use crate::cpu::registers::Condition;

verus! {

/// The fatal fault of the dispatcher: the fetched opcode is outside the
/// covered instruction set, and execution cannot continue meaningfully.
#[derive(Debug, Copy, Clone, PartialEq, Eq, Structural)]
pub enum StepError {
    Unimplemented(u8),
}

/// What one instruction does: the CPU state it leaves behind, the byte
/// writes it issues in order (before the bus's write policy is applied),
/// and the opcode it faulted on, if any.
pub struct StepEffect {
    pub cpu: CPU,
    pub writes: Seq<(u16, u8)>,
    pub fault: Option<u8>,
}

/// An effect that issues no writes and does not fault.
pub open spec fn spec_no_write(c: CPU) -> StepEffect {
    StepEffect { cpu: c, writes: seq![], fault: None }
}

/// An effect that issues a single byte write and does not fault.
pub open spec fn spec_one_write(c: CPU, addr: u16, value: u8) -> StepEffect {
    StepEffect { cpu: c, writes: seq![(addr, value)], fault: None }
}

/// The register selected by an 8-bit register index.
pub open spec fn spec_get_r8(c: CPU, r: Reg8) -> u8 {
    match r {
        Reg8::A => c.a,
        Reg8::F => c.f,
        Reg8::B => c.b,
        Reg8::C => c.c,
        Reg8::D => c.d,
        Reg8::E => c.e,
        Reg8::H => c.h,
        Reg8::L => c.l,
    }
}

/// The CPU with the selected 8-bit register replaced.
pub open spec fn spec_set_r8(c: CPU, r: Reg8, v: u8) -> CPU {
    match r {
        Reg8::A => CPU { a: v, ..c },
        Reg8::F => CPU { f: v, ..c },
        Reg8::B => CPU { b: v, ..c },
        Reg8::C => CPU { c: v, ..c },
        Reg8::D => CPU { d: v, ..c },
        Reg8::E => CPU { e: v, ..c },
        Reg8::H => CPU { h: v, ..c },
        Reg8::L => CPU { l: v, ..c },
    }
}

/// The pair (or stack pointer) selected by a 16-bit register index.
pub open spec fn spec_get_r16(c: CPU, r: Reg16) -> u16 {
    match r {
        Reg16::BC => c.spec_bc(),
        Reg16::DE => c.spec_de(),
        Reg16::HL => c.spec_hl(),
        Reg16::AF => c.spec_af(),
        Reg16::SP => c.sp,
    }
}

/// The CPU with the selected pair (or stack pointer) replaced; writing
/// AF masks the low nibble of F to zero.
pub open spec fn spec_set_r16(c: CPU, r: Reg16, v: u16) -> CPU {
    match r {
        Reg16::BC => CPU { b: spec_hi(v), c: spec_lo(v), ..c },
        Reg16::DE => CPU { d: spec_hi(v), e: spec_lo(v), ..c },
        Reg16::HL => CPU { h: spec_hi(v), l: spec_lo(v), ..c },
        Reg16::AF => CPU { a: spec_hi(v), f: ((spec_lo(v) / 16) * 16) as u8, ..c },
        Reg16::SP => CPU { sp: v, ..c },
    }
}

/// Whether a condition code holds of the current flags.
pub open spec fn spec_condition(c: CPU, cond: Condition) -> bool {
    match cond {
        Condition::Always => true,
        Condition::Z => spec_has_flag(c.f, FLAG_ZERO),
        Condition::C => spec_has_flag(c.f, FLAG_CARRY),
        Condition::NZ => !spec_has_flag(c.f, FLAG_ZERO),
        Condition::NC => !spec_has_flag(c.f, FLAG_CARRY),
    }
}

/// A relative-jump offset byte, sign-extended to 16 bits.
pub open spec fn spec_sign_ext(off: u8) -> u16 {
    if off < 0x80 {
        off as u16
    } else {
        (off + 0xff00) as u16
    }
}

/// Relative conditional jump: consume the offset byte; redirect the
/// program counter by the signed offset only when the condition holds.
/// Taken costs 12 cycles, not taken 8.
pub open spec fn spec_jr(c: CPU, mem: Seq<u8>, cond: Condition) -> CPU {
    let off = mem[c.pc as int];
    let next = c.pc.wrapping_add(1);
    if spec_condition(c, cond) {
        CPU { pc: next.wrapping_add(spec_sign_ext(off)), cycle_delay: 12, ..c }
    } else {
        CPU { pc: next, cycle_delay: 8, ..c }
    }
}

/// Conditional call: consume the 2-byte little-endian target; when the
/// condition holds, push the return address (the instruction after the
/// operand bytes) and redirect the program counter to the target.  Taken
/// costs 24 cycles, not taken 12.
pub open spec fn spec_call(c: CPU, mem: Seq<u8>, cond: Condition) -> StepEffect {
    let target = spec_make_u16(mem[c.pc as int], mem[c.pc.wrapping_add(1) as int]);
    let ret = c.pc.wrapping_add(2);
    if spec_condition(c, cond) {
        let nsp = c.sp.wrapping_sub(2);
        StepEffect {
            cpu: CPU { pc: target, sp: nsp, cycle_delay: 24, ..c },
            writes: seq![(nsp, spec_lo(ret)), (nsp.wrapping_add(1), spec_hi(ret))],
            fault: None,
        }
    } else {
        spec_no_write(CPU { pc: ret, cycle_delay: 12, ..c })
    }
}

/// Return: pop the program counter from the stack.
pub open spec fn spec_ret(c: CPU, mem: Seq<u8>) -> CPU {
    CPU {
        pc: spec_make_u16(mem[c.sp as int], mem[c.sp.wrapping_add(1) as int]),
        sp: c.sp.wrapping_add(2),
        cycle_delay: 16,
        ..c
    }
}

/// Push: lower the stack pointer by two, then store the pair there,
/// low byte first.
pub open spec fn spec_push(c: CPU, r: Reg16) -> StepEffect {
    let v = spec_get_r16(c, r);
    let nsp = c.sp.wrapping_sub(2);
    StepEffect {
        cpu: CPU { sp: nsp, cycle_delay: 16, ..c },
        writes: seq![(nsp, spec_lo(v)), (nsp.wrapping_add(1), spec_hi(v))],
        fault: None,
    }
}

/// Pop: load the pair from the stack, then raise the stack pointer by
/// two.
pub open spec fn spec_pop(c: CPU, mem: Seq<u8>, r: Reg16) -> CPU {
    let v = spec_make_u16(mem[c.sp as int], mem[c.sp.wrapping_add(1) as int]);
    let c2 = spec_set_r16(c, r, v);
    CPU { sp: c2.sp.wrapping_add(2), cycle_delay: 12, ..c2 }
}

/// Load an immediate byte into a register.
pub open spec fn spec_ld_imm_u8(c: CPU, mem: Seq<u8>, dst: Reg8) -> CPU {
    let imm = mem[c.pc as int];
    CPU {
        cycle_delay: 8,
        ..spec_set_r8(CPU { pc: c.pc.wrapping_add(1), ..c }, dst, imm)
    }
}

/// Load an immediate little-endian 16-bit value into a pair.
pub open spec fn spec_ld_imm_u16(c: CPU, mem: Seq<u8>, dst: Reg16) -> CPU {
    let imm = spec_make_u16(mem[c.pc as int], mem[c.pc.wrapping_add(1) as int]);
    CPU {
        cycle_delay: 8,
        ..spec_set_r16(CPU { pc: c.pc.wrapping_add(2), ..c }, dst, imm)
    }
}

/// Register-to-register move.
pub open spec fn spec_ld_u8(c: CPU, dst: Reg8, src: Reg8) -> CPU {
    CPU { cycle_delay: 4, ..spec_set_r8(c, dst, spec_get_r8(c, src)) }
}

/// Load a register from the byte HL points at.
pub open spec fn spec_ldhl(c: CPU, mem: Seq<u8>, dst: Reg8) -> CPU {
    CPU { cycle_delay: 8, ..spec_set_r8(c, dst, mem[c.spec_hl() as int]) }
}

/// Increment a register, flags as for addition of 1.
pub open spec fn spec_inc_r8(c: CPU, r: Reg8) -> CPU {
    let v = spec_get_r8(c, r);
    CPU {
        cycle_delay: 4,
        ..spec_set_r8(
            CPU { f: spec_add_f(c.f, v, 1), ..c },
            r,
            spec_add_result(v, 1),
        )
    }
}

/// Decrement a register, flags as for subtraction of 1.
pub open spec fn spec_dec_r8(c: CPU, r: Reg8) -> CPU {
    let v = spec_get_r8(c, r);
    CPU {
        cycle_delay: 4,
        ..spec_set_r8(
            CPU { f: spec_sub_f(c.f, v, 1), ..c },
            r,
            spec_sub_result(v, 1),
        )
    }
}

/// A xor into the accumulator: Z from the result, N, H and C cleared.
pub open spec fn spec_xor_a(c: CPU, v: u8, cyc: u8) -> CPU {
    let r = c.a ^ v;
    CPU {
        a: r,
        f: spec_flag_update(c.f, r == 0, false, false, false),
        cycle_delay: cyc,
        ..c
    }
}

/// An or into the accumulator: Z from the result, N, H and C cleared.
pub open spec fn spec_or_a(c: CPU, v: u8, cyc: u8) -> CPU {
    let r = c.a | v;
    CPU {
        a: r,
        f: spec_flag_update(c.f, r == 0, false, false, false),
        cycle_delay: cyc,
        ..c
    }
}

/// An and into the accumulator: Z from the result, N and C cleared, H
/// set.
pub open spec fn spec_and_a(c: CPU, v: u8, cyc: u8) -> CPU {
    let r = c.a & v;
    CPU {
        a: r,
        f: spec_flag_update(c.f, r == 0, false, true, false),
        cycle_delay: cyc,
        ..c
    }
}

/// An addition into the accumulator.
pub open spec fn spec_add_a(c: CPU, v: u8, cyc: u8) -> CPU {
    CPU {
        a: spec_add_result(c.a, v),
        f: spec_add_f(c.f, c.a, v),
        cycle_delay: cyc,
        ..c
    }
}

/// A subtraction from the accumulator.
pub open spec fn spec_sub_a(c: CPU, v: u8, cyc: u8) -> CPU {
    CPU {
        a: spec_sub_result(c.a, v),
        f: spec_sub_f(c.f, c.a, v),
        cycle_delay: cyc,
        ..c
    }
}

/// A comparison against the accumulator: the flags of the subtraction,
/// the accumulator itself untouched.
pub open spec fn spec_cp_a(c: CPU, v: u8, cyc: u8) -> CPU {
    CPU { f: spec_sub_f(c.f, c.a, v), cycle_delay: cyc, ..c }
}

/// Increment a pair (or the stack pointer), wrapping modulo 65536,
/// flags untouched.
pub open spec fn spec_inc_r16(c: CPU, r: Reg16) -> CPU {
    CPU { cycle_delay: 8, ..spec_set_r16(c, r, spec_get_r16(c, r).wrapping_add(1)) }
}

/// Decrement a pair (or the stack pointer), wrapping modulo 65536,
/// flags untouched.
pub open spec fn spec_dec_r16(c: CPU, r: Reg16) -> CPU {
    CPU { cycle_delay: 8, ..spec_set_r16(c, r, spec_get_r16(c, r).wrapping_sub(1)) }
}

/// The decode table for opcodes 0x00 through 0x3f: no-operation, stop,
/// relative jumps, immediate loads, memory-indirect loads and stores
/// through pairs, and the 8-bit and 16-bit increments and decrements.
pub open spec fn spec_exec_misc(c: CPU, mem: Seq<u8>, op: u8) -> StepEffect {
    match op {
        0x00 => spec_no_write(CPU { cycle_delay: 4, ..c }),
        // Relative conditional jumps.
        0x20 => spec_no_write(spec_jr(c, mem, Condition::NZ)),
        0x30 => spec_no_write(spec_jr(c, mem, Condition::NC)),
        0x28 => spec_no_write(spec_jr(c, mem, Condition::Z)),
        0x38 => spec_no_write(spec_jr(c, mem, Condition::C)),
        0x18 => spec_no_write(spec_jr(c, mem, Condition::Always)),
        // Immediate 8-bit loads.
        0x06 => spec_no_write(spec_ld_imm_u8(c, mem, Reg8::B)),
        0x16 => spec_no_write(spec_ld_imm_u8(c, mem, Reg8::D)),
        0x26 => spec_no_write(spec_ld_imm_u8(c, mem, Reg8::H)),
        0x0e => spec_no_write(spec_ld_imm_u8(c, mem, Reg8::C)),
        0x1e => spec_no_write(spec_ld_imm_u8(c, mem, Reg8::E)),
        0x2e => spec_no_write(spec_ld_imm_u8(c, mem, Reg8::L)),
        0x3e => spec_no_write(spec_ld_imm_u8(c, mem, Reg8::A)),
        // Immediate 16-bit loads.
        0x01 => spec_no_write(spec_ld_imm_u16(c, mem, Reg16::BC)),
        0x11 => spec_no_write(spec_ld_imm_u16(c, mem, Reg16::DE)),
        0x21 => spec_no_write(spec_ld_imm_u16(c, mem, Reg16::HL)),
        0x31 => spec_no_write(spec_ld_imm_u16(c, mem, Reg16::SP)),
        // Stop: consume one padding byte and halt for good.
        0x10 => spec_no_write(
            CPU { pc: c.pc.wrapping_add(1), stopped: true, cycle_delay: 12, ..c },
        ),
        // 16-bit increments and decrements.
        0x03 => spec_no_write(spec_inc_r16(c, Reg16::BC)),
        0x13 => spec_no_write(spec_inc_r16(c, Reg16::DE)),
        0x23 => spec_no_write(spec_inc_r16(c, Reg16::HL)),
        0x33 => spec_no_write(spec_inc_r16(c, Reg16::SP)),
        0x0b => spec_no_write(spec_dec_r16(c, Reg16::BC)),
        0x1b => spec_no_write(spec_dec_r16(c, Reg16::DE)),
        0x2b => spec_no_write(spec_dec_r16(c, Reg16::HL)),
        0x3b => spec_no_write(spec_dec_r16(c, Reg16::SP)),
        // Stores of A through a pair.
        0x02 => spec_one_write(CPU { cycle_delay: 8, ..c }, c.spec_bc(), c.a),
        0x12 => spec_one_write(CPU { cycle_delay: 8, ..c }, c.spec_de(), c.a),
        // Stores of A through HL with post-increment and post-decrement.
        0x22 => ({
            let nhl = c.spec_hl().wrapping_add(1);
            spec_one_write(
                CPU { h: spec_hi(nhl), l: spec_lo(nhl), cycle_delay: 8, ..c },
                c.spec_hl(),
                c.a,
            )
        }),
        0x32 => ({
            let nhl = c.spec_hl().wrapping_sub(1);
            spec_one_write(
                CPU { h: spec_hi(nhl), l: spec_lo(nhl), cycle_delay: 8, ..c },
                c.spec_hl(),
                c.a,
            )
        }),
        // Loads of A through HL with post-increment and post-decrement.
        0x2a => ({
            let nhl = c.spec_hl().wrapping_add(1);
            spec_no_write(
                CPU {
                    a: mem[c.spec_hl() as int],
                    h: spec_hi(nhl),
                    l: spec_lo(nhl),
                    cycle_delay: 8,
                    ..c
                },
            )
        }),
        0x3a => ({
            let nhl = c.spec_hl().wrapping_sub(1);
            spec_no_write(
                CPU {
                    a: mem[c.spec_hl() as int],
                    h: spec_hi(nhl),
                    l: spec_lo(nhl),
                    cycle_delay: 8,
                    ..c
                },
            )
        }),
        // Loads of A through a pair.
        0x0a => spec_no_write(CPU { a: mem[c.spec_bc() as int], cycle_delay: 8, ..c }),
        0x1a => spec_no_write(CPU { a: mem[c.spec_de() as int], cycle_delay: 8, ..c }),
        // 8-bit increments.
        0x04 => spec_no_write(spec_inc_r8(c, Reg8::B)),
        0x14 => spec_no_write(spec_inc_r8(c, Reg8::D)),
        0x24 => spec_no_write(spec_inc_r8(c, Reg8::H)),
        0x0c => spec_no_write(spec_inc_r8(c, Reg8::C)),
        0x1c => spec_no_write(spec_inc_r8(c, Reg8::E)),
        0x2c => spec_no_write(spec_inc_r8(c, Reg8::L)),
        0x3c => spec_no_write(spec_inc_r8(c, Reg8::A)),
        0x34 => ({
            let v = mem[c.spec_hl() as int];
            StepEffect {
                cpu: CPU { f: spec_add_f(c.f, v, 1), cycle_delay: 12, ..c },
                writes: seq![(c.spec_hl(), spec_add_result(v, 1))],
                fault: None,
            }
        }),
        // 8-bit decrements.
        0x05 => spec_no_write(spec_dec_r8(c, Reg8::B)),
        0x15 => spec_no_write(spec_dec_r8(c, Reg8::D)),
        0x25 => spec_no_write(spec_dec_r8(c, Reg8::H)),
        0x0d => spec_no_write(spec_dec_r8(c, Reg8::C)),
        0x1d => spec_no_write(spec_dec_r8(c, Reg8::E)),
        0x2d => spec_no_write(spec_dec_r8(c, Reg8::L)),
        0x3d => spec_no_write(spec_dec_r8(c, Reg8::A)),
        0x35 => ({
            let v = mem[c.spec_hl() as int];
            StepEffect {
                cpu: CPU { f: spec_sub_f(c.f, v, 1), cycle_delay: 12, ..c },
                writes: seq![(c.spec_hl(), spec_sub_result(v, 1))],
                fault: None,
            }
        }),
        // Everything else is a decode fault.
        _ => StepEffect { cpu: c, writes: seq![], fault: Some(op) },
    }
}

/// The decode table for opcodes 0x40 through 0x7f: the 8-bit moves
/// between registers and through HL.
pub open spec fn spec_exec_move(c: CPU, mem: Seq<u8>, op: u8) -> StepEffect {
    match op {
        0x40 => spec_no_write(spec_ld_u8(c, Reg8::B, Reg8::B)),
        0x41 => spec_no_write(spec_ld_u8(c, Reg8::B, Reg8::C)),
        0x42 => spec_no_write(spec_ld_u8(c, Reg8::B, Reg8::D)),
        0x43 => spec_no_write(spec_ld_u8(c, Reg8::B, Reg8::E)),
        0x44 => spec_no_write(spec_ld_u8(c, Reg8::B, Reg8::H)),
        0x45 => spec_no_write(spec_ld_u8(c, Reg8::B, Reg8::L)),
        0x47 => spec_no_write(spec_ld_u8(c, Reg8::B, Reg8::A)),
        0x50 => spec_no_write(spec_ld_u8(c, Reg8::D, Reg8::B)),
        0x51 => spec_no_write(spec_ld_u8(c, Reg8::D, Reg8::C)),
        0x52 => spec_no_write(spec_ld_u8(c, Reg8::D, Reg8::D)),
        0x53 => spec_no_write(spec_ld_u8(c, Reg8::D, Reg8::E)),
        0x54 => spec_no_write(spec_ld_u8(c, Reg8::D, Reg8::H)),
        0x55 => spec_no_write(spec_ld_u8(c, Reg8::D, Reg8::L)),
        0x57 => spec_no_write(spec_ld_u8(c, Reg8::D, Reg8::A)),
        0x60 => spec_no_write(spec_ld_u8(c, Reg8::H, Reg8::B)),
        0x61 => spec_no_write(spec_ld_u8(c, Reg8::H, Reg8::C)),
        0x62 => spec_no_write(spec_ld_u8(c, Reg8::H, Reg8::D)),
        0x63 => spec_no_write(spec_ld_u8(c, Reg8::H, Reg8::E)),
        0x64 => spec_no_write(spec_ld_u8(c, Reg8::H, Reg8::H)),
        0x65 => spec_no_write(spec_ld_u8(c, Reg8::H, Reg8::L)),
        0x67 => spec_no_write(spec_ld_u8(c, Reg8::H, Reg8::A)),
        0x48 => spec_no_write(spec_ld_u8(c, Reg8::C, Reg8::B)),
        0x49 => spec_no_write(spec_ld_u8(c, Reg8::C, Reg8::C)),
        0x4a => spec_no_write(spec_ld_u8(c, Reg8::C, Reg8::D)),
        0x4b => spec_no_write(spec_ld_u8(c, Reg8::C, Reg8::E)),
        0x4c => spec_no_write(spec_ld_u8(c, Reg8::C, Reg8::H)),
        0x4d => spec_no_write(spec_ld_u8(c, Reg8::C, Reg8::L)),
        0x4f => spec_no_write(spec_ld_u8(c, Reg8::C, Reg8::A)),
        0x58 => spec_no_write(spec_ld_u8(c, Reg8::E, Reg8::B)),
        0x59 => spec_no_write(spec_ld_u8(c, Reg8::E, Reg8::C)),
        0x5a => spec_no_write(spec_ld_u8(c, Reg8::E, Reg8::D)),
        0x5b => spec_no_write(spec_ld_u8(c, Reg8::E, Reg8::E)),
        0x5c => spec_no_write(spec_ld_u8(c, Reg8::E, Reg8::H)),
        0x5d => spec_no_write(spec_ld_u8(c, Reg8::E, Reg8::L)),
        0x5f => spec_no_write(spec_ld_u8(c, Reg8::E, Reg8::A)),
        0x68 => spec_no_write(spec_ld_u8(c, Reg8::L, Reg8::B)),
        0x69 => spec_no_write(spec_ld_u8(c, Reg8::L, Reg8::C)),
        0x6a => spec_no_write(spec_ld_u8(c, Reg8::L, Reg8::D)),
        0x6b => spec_no_write(spec_ld_u8(c, Reg8::L, Reg8::E)),
        0x6c => spec_no_write(spec_ld_u8(c, Reg8::L, Reg8::H)),
        0x6d => spec_no_write(spec_ld_u8(c, Reg8::L, Reg8::L)),
        0x6f => spec_no_write(spec_ld_u8(c, Reg8::L, Reg8::A)),
        0x78 => spec_no_write(spec_ld_u8(c, Reg8::A, Reg8::B)),
        0x79 => spec_no_write(spec_ld_u8(c, Reg8::A, Reg8::C)),
        0x7a => spec_no_write(spec_ld_u8(c, Reg8::A, Reg8::D)),
        0x7b => spec_no_write(spec_ld_u8(c, Reg8::A, Reg8::E)),
        0x7c => spec_no_write(spec_ld_u8(c, Reg8::A, Reg8::H)),
        0x7d => spec_no_write(spec_ld_u8(c, Reg8::A, Reg8::L)),
        0x7f => spec_no_write(spec_ld_u8(c, Reg8::A, Reg8::A)),
        // Loads from the byte HL points at.
        0x46 => spec_no_write(spec_ldhl(c, mem, Reg8::B)),
        0x56 => spec_no_write(spec_ldhl(c, mem, Reg8::D)),
        0x66 => spec_no_write(spec_ldhl(c, mem, Reg8::H)),
        0x4e => spec_no_write(spec_ldhl(c, mem, Reg8::C)),
        0x5e => spec_no_write(spec_ldhl(c, mem, Reg8::E)),
        0x6e => spec_no_write(spec_ldhl(c, mem, Reg8::L)),
        0x7e => spec_no_write(spec_ldhl(c, mem, Reg8::A)),
        // Store A at the byte HL points at.
        0x77 => spec_one_write(CPU { cycle_delay: 8, ..c }, c.spec_hl(), c.a),
        // Everything else is a decode fault.
        _ => StepEffect { cpu: c, writes: seq![], fault: Some(op) },
    }
}

/// The decode table for opcodes 0x80 through 0xbf: the register forms
/// of the 8-bit accumulator arithmetic and logic.
pub open spec fn spec_exec_acc(c: CPU, mem: Seq<u8>, op: u8) -> StepEffect {
    match op {
        // Add into A.
        0x80 => spec_no_write(spec_add_a(c, c.b, 4)),
        0x81 => spec_no_write(spec_add_a(c, c.c, 4)),
        0x82 => spec_no_write(spec_add_a(c, c.d, 4)),
        0x83 => spec_no_write(spec_add_a(c, c.e, 4)),
        0x84 => spec_no_write(spec_add_a(c, c.h, 4)),
        0x85 => spec_no_write(spec_add_a(c, c.l, 4)),
        0x87 => spec_no_write(spec_add_a(c, c.a, 4)),
        // Subtract from A.
        0x90 => spec_no_write(spec_sub_a(c, c.b, 4)),
        0x91 => spec_no_write(spec_sub_a(c, c.c, 4)),
        0x92 => spec_no_write(spec_sub_a(c, c.d, 4)),
        0x93 => spec_no_write(spec_sub_a(c, c.e, 4)),
        0x94 => spec_no_write(spec_sub_a(c, c.h, 4)),
        0x95 => spec_no_write(spec_sub_a(c, c.l, 4)),
        0x97 => spec_no_write(spec_sub_a(c, c.a, 4)),
        // And into A.
        0xa0 => spec_no_write(spec_and_a(c, c.b, 4)),
        0xa1 => spec_no_write(spec_and_a(c, c.c, 4)),
        0xa2 => spec_no_write(spec_and_a(c, c.d, 4)),
        0xa3 => spec_no_write(spec_and_a(c, c.e, 4)),
        0xa4 => spec_no_write(spec_and_a(c, c.h, 4)),
        0xa5 => spec_no_write(spec_and_a(c, c.l, 4)),
        0xa7 => spec_no_write(spec_and_a(c, c.a, 4)),
        0xa6 => spec_no_write(spec_and_a(c, mem[c.spec_hl() as int], 8)),
        // Xor into A.
        0xa8 => spec_no_write(spec_xor_a(c, c.b, 4)),
        0xa9 => spec_no_write(spec_xor_a(c, c.c, 4)),
        0xaa => spec_no_write(spec_xor_a(c, c.d, 4)),
        0xab => spec_no_write(spec_xor_a(c, c.e, 4)),
        0xac => spec_no_write(spec_xor_a(c, c.h, 4)),
        0xad => spec_no_write(spec_xor_a(c, c.l, 4)),
        0xaf => spec_no_write(spec_xor_a(c, c.a, 4)),
        // Or into A.
        0xb0 => spec_no_write(spec_or_a(c, c.b, 4)),
        0xb1 => spec_no_write(spec_or_a(c, c.c, 4)),
        0xb2 => spec_no_write(spec_or_a(c, c.d, 4)),
        0xb3 => spec_no_write(spec_or_a(c, c.e, 4)),
        0xb4 => spec_no_write(spec_or_a(c, c.h, 4)),
        0xb5 => spec_no_write(spec_or_a(c, c.l, 4)),
        0xb7 => spec_no_write(spec_or_a(c, c.a, 4)),
        0xb6 => spec_no_write(spec_or_a(c, mem[c.spec_hl() as int], 8)),
        // Everything else is a decode fault.
        _ => StepEffect { cpu: c, writes: seq![], fault: Some(op) },
    }
}

/// The decode table for opcodes 0xc0 through 0xff: absolute control
/// flow, the stack, the I/O-port shorthand, absolute loads and stores
/// of A, and the immediate forms of the accumulator operations.
pub open spec fn spec_exec_ctrl(c: CPU, mem: Seq<u8>, op: u8) -> StepEffect {
    match op {
        // Conditional calls.
        0xc4 => spec_call(c, mem, Condition::NZ),
        0xd4 => spec_call(c, mem, Condition::NC),
        0xcc => spec_call(c, mem, Condition::Z),
        0xdc => spec_call(c, mem, Condition::C),
        0xcd => spec_call(c, mem, Condition::Always),
        // Absolute jump.
        0xc3 => spec_no_write(
            CPU {
                pc: spec_make_u16(mem[c.pc as int], mem[c.pc.wrapping_add(1) as int]),
                cycle_delay: 16,
                ..c
            },
        ),
        // Return.
        0xc9 => spec_no_write(spec_ret(c, mem)),
        // Interrupt-master-enable off and on.
        0xf3 => spec_no_write(CPU { ime: 0, cycle_delay: 4, ..c }),
        0xfb => spec_no_write(CPU { ime: 1, cycle_delay: 4, ..c }),
        // I/O-port stores and loads: address 0xff00 plus the offset byte.
        0xe0 => spec_one_write(
            CPU { pc: c.pc.wrapping_add(1), cycle_delay: 12, ..c },
            (0xff00 + mem[c.pc as int]) as u16,
            c.a,
        ),
        0xf0 => spec_no_write(
            CPU {
                a: mem[(0xff00 + mem[c.pc as int]) as u16 as int],
                pc: c.pc.wrapping_add(1),
                cycle_delay: 12,
                ..c
            },
        ),
        // Store A at an absolute address.
        0xea => spec_one_write(
            CPU { pc: c.pc.wrapping_add(2), cycle_delay: 12, ..c },
            spec_make_u16(mem[c.pc as int], mem[c.pc.wrapping_add(1) as int]),
            c.a,
        ),
        // Stack pushes and pops.
        0xc5 => spec_push(c, Reg16::BC),
        0xd5 => spec_push(c, Reg16::DE),
        0xe5 => spec_push(c, Reg16::HL),
        0xf5 => spec_push(c, Reg16::AF),
        0xc1 => spec_no_write(spec_pop(c, mem, Reg16::BC)),
        0xd1 => spec_no_write(spec_pop(c, mem, Reg16::DE)),
        0xe1 => spec_no_write(spec_pop(c, mem, Reg16::HL)),
        0xf1 => spec_no_write(spec_pop(c, mem, Reg16::AF)),
        // Immediate forms of the accumulator operations.
        0xc6 => spec_no_write(
            spec_add_a(CPU { pc: c.pc.wrapping_add(1), ..c }, mem[c.pc as int], 8),
        ),
        0xd6 => spec_no_write(
            spec_sub_a(CPU { pc: c.pc.wrapping_add(1), ..c }, mem[c.pc as int], 8),
        ),
        0xe6 => spec_no_write(
            spec_and_a(CPU { pc: c.pc.wrapping_add(1), ..c }, mem[c.pc as int], 8),
        ),
        // Compare an immediate against A.
        0xfe => spec_no_write(
            spec_cp_a(CPU { pc: c.pc.wrapping_add(1), ..c }, mem[c.pc as int], 8),
        ),
        // Load A from an absolute address.
        0xfa => spec_no_write(
            CPU {
                a: mem[spec_make_u16(
                    mem[c.pc as int],
                    mem[c.pc.wrapping_add(1) as int],
                ) as int],
                pc: c.pc.wrapping_add(2),
                cycle_delay: 16,
                ..c
            },
        ),
        // Everything else is a decode fault.
        _ => StepEffect { cpu: c, writes: seq![], fault: Some(op) },
    }
}

/// The full decode table: what the fetched opcode does, given the CPU
/// with the program counter already past the opcode byte.  An opcode
/// outside the covered set faults without touching anything further.
pub open spec fn spec_exec_op(c: CPU, mem: Seq<u8>, op: u8) -> StepEffect {
    if op < 0x40 {
        spec_exec_misc(c, mem, op)
    } else if op < 0x80 {
        spec_exec_move(c, mem, op)
    } else if op < 0xc0 {
        spec_exec_acc(c, mem, op)
    } else {
        spec_exec_ctrl(c, mem, op)
    }
}

/// One whole dispatcher step: a stopped CPU does nothing; otherwise the
/// opcode at the program counter is fetched (advancing the counter) and
/// executed per the decode table.
pub open spec fn spec_step(c: CPU, mem: Seq<u8>) -> StepEffect {
    if c.stopped {
        spec_no_write(c)
    } else {
        spec_exec_op(
            CPU { pc: c.pc.wrapping_add(1), ..c },
            mem,
            mem[c.pc as int],
        )
    }
}

/// An empty write list leaves the memory as it was, under any policy.
pub proof fn lemma_mem_after_no_writes(m: Seq<u8>, w: spec_fn(u16) -> bool)
    ensures
        mem_after_writes(m, seq![], w) == m,
{
}

/// A single write updates one byte when the policy admits the address
/// and nothing otherwise.
pub proof fn lemma_mem_after_one_write(m: Seq<u8>, a: u16, v: u8, w: spec_fn(u16) -> bool)
    ensures
        mem_after_writes(m, seq![(a, v)], w) == (if w(a) {
            m.update(a as int, v)
        } else {
            m
        }),
{
    let ws = seq![(a, v)];
    assert(ws.drop_last() =~= Seq::<(u16, u8)>::empty());
    reveal_with_fuel(mem_after_writes, 2);
}

/// Pair accessors are mutually inverse: after a pair is set, the view
/// the getter returns is exactly the value that was set -- for AF only
/// when the value's low nibble is already zero, since writing F masks
/// that nibble.
pub proof fn lemma_pair_set_get(c: CPU, v: u16)
    ensures
        spec_set_r16(c, Reg16::HL, v).spec_hl() == v,
        spec_set_r16(c, Reg16::BC, v).spec_bc() == v,
        spec_set_r16(c, Reg16::DE, v).spec_de() == v,
        v % 16 == 0 ==> spec_set_r16(c, Reg16::AF, v).spec_af() == v,
{
}

/// Stack identity: a push of BC followed immediately by a pop of BC
/// leaves BC and the stack pointer exactly as they were before the
/// push, the pop issues no write, and the push touched no address
/// besides the two stack bytes.  The two stack bytes must be ones the
/// bus write policy admits.
#[verifier::rlimit(100)]
#[verifier::spinoff_prover]
pub proof fn lemma_push_pop_identity(c: CPU, mem: Seq<u8>, w: spec_fn(u16) -> bool)
    requires
        mem.len() == 0x10000,
        !c.stopped,
        mem[c.pc as int] == 0xc5,
        w(c.sp.wrapping_sub(2)),
        w(c.sp.wrapping_sub(1)),
    ensures
        ({
            let e1 = spec_step(c, mem);
            let m1 = mem_after_writes(mem, e1.writes, w);
            let e2 = spec_step(e1.cpu, m1);
            &&& (m1[e1.cpu.pc as int] == 0xc1 ==> {
                &&& e2.cpu.spec_bc() == c.spec_bc()
                &&& e2.cpu.sp == c.sp
                &&& e2.writes.len() == 0
            })
            &&& forall|a: u16|
                a != c.sp.wrapping_sub(2) && a != c.sp.wrapping_sub(1) ==> m1[a as int]
                    == mem[a as int]
        }),
{
    let e1 = spec_step(c, mem);
    let v = c.spec_bc();
    let nsp = c.sp.wrapping_sub(2);
    let ws = e1.writes;
    assert(ws == seq![(nsp, spec_lo(v)), (nsp.wrapping_add(1), spec_hi(v))]);
    reveal_with_fuel(mem_after_writes, 3);
    assert(ws.drop_last() =~= seq![(nsp, spec_lo(v))]);
    assert(ws.drop_last().drop_last() =~= Seq::<(u16, u8)>::empty());
    let m1 = mem_after_writes(mem, ws, w);
    assert(m1 == mem.update(nsp as int, spec_lo(v)).update(
        nsp.wrapping_add(1) as int,
        spec_hi(v),
    ));
    assert(nsp.wrapping_add(1) == c.sp.wrapping_sub(1));
    assert(nsp != nsp.wrapping_add(1));
    assert(m1[nsp as int] == spec_lo(v));
    assert(m1[nsp.wrapping_add(1) as int] == spec_hi(v));
    crate::cpu::lemma_unmake_make(v);
    assert(nsp.wrapping_add(2) == c.sp);
}

/// Call/return identity: a call to an absolute address followed by the
/// return it lands on restores the program counter to the instruction
/// immediately after the call's operand bytes, and restores the stack
/// pointer.  The two stack bytes must be ones the bus write policy
/// admits.
#[verifier::rlimit(100)]
#[verifier::spinoff_prover]
pub proof fn lemma_call_ret_identity(c: CPU, mem: Seq<u8>, w: spec_fn(u16) -> bool)
    requires
        mem.len() == 0x10000,
        !c.stopped,
        mem[c.pc as int] == 0xcd,
        w(c.sp.wrapping_sub(2)),
        w(c.sp.wrapping_sub(1)),
    ensures
        ({
            let e1 = spec_step(c, mem);
            let m1 = mem_after_writes(mem, e1.writes, w);
            let e2 = spec_step(e1.cpu, m1);
            m1[e1.cpu.pc as int] == 0xc9 ==> {
                &&& e2.cpu.pc == c.pc.wrapping_add(3)
                &&& e2.cpu.sp == c.sp
            }
        }),
{
    let e1 = spec_step(c, mem);
    let ret = c.pc.wrapping_add(3);
    let nsp = c.sp.wrapping_sub(2);
    let ws = e1.writes;
    assert(c.pc.wrapping_add(1).wrapping_add(2) == ret);
    assert(ws == seq![(nsp, spec_lo(ret)), (nsp.wrapping_add(1), spec_hi(ret))]);
    reveal_with_fuel(mem_after_writes, 3);
    assert(ws.drop_last() =~= seq![(nsp, spec_lo(ret))]);
    assert(ws.drop_last().drop_last() =~= Seq::<(u16, u8)>::empty());
    let m1 = mem_after_writes(mem, ws, w);
    assert(m1 == mem.update(nsp as int, spec_lo(ret)).update(
        nsp.wrapping_add(1) as int,
        spec_hi(ret),
    ));
    assert(nsp != nsp.wrapping_add(1));
    assert(m1[nsp as int] == spec_lo(ret));
    assert(m1[nsp.wrapping_add(1) as int] == spec_hi(ret));
    crate::cpu::lemma_unmake_make(ret);
    assert(nsp.wrapping_add(2) == c.sp);
}

/// An arithmetic flag update never touches the low nibble of F.
pub proof fn lemma_flag_update_keeps_low_nibble(f: u8, z: bool, n: bool, h: bool, c: bool)
    ensures
        spec_flag_update(f, z, n, h, c) % 16 == f % 16,
{
}

/// The documented invariant on F -- its low nibble is always zero -- is
/// preserved by every opcode of the misc range.
#[verifier::rlimit(100)]
#[verifier::spinoff_prover]
proof fn lemma_exec_misc_keeps_flag_nibble(c: CPU, mem: Seq<u8>, op: u8)
    requires
        c.f % 16 == 0,
    ensures
        spec_exec_misc(c, mem, op).cpu.f % 16 == 0,
{
    assert forall|f: u8, z: bool, n: bool, h: bool, cy: bool|
        f % 16 == 0 ==> #[trigger] spec_flag_update(f, z, n, h, cy) % 16 == 0 by {
        lemma_flag_update_keeps_low_nibble(f, z, n, h, cy);
    }
}

/// The documented invariant on F is preserved by every opcode of the
/// move range.
#[verifier::rlimit(100)]
#[verifier::spinoff_prover]
proof fn lemma_exec_move_keeps_flag_nibble(c: CPU, mem: Seq<u8>, op: u8)
    requires
        c.f % 16 == 0,
    ensures
        spec_exec_move(c, mem, op).cpu.f % 16 == 0,
{
}

/// The documented invariant on F is preserved by every opcode of the
/// accumulator range.
#[verifier::rlimit(100)]
#[verifier::spinoff_prover]
proof fn lemma_exec_acc_keeps_flag_nibble(c: CPU, mem: Seq<u8>, op: u8)
    requires
        c.f % 16 == 0,
    ensures
        spec_exec_acc(c, mem, op).cpu.f % 16 == 0,
{
    assert forall|f: u8, z: bool, n: bool, h: bool, cy: bool|
        f % 16 == 0 ==> #[trigger] spec_flag_update(f, z, n, h, cy) % 16 == 0 by {
        lemma_flag_update_keeps_low_nibble(f, z, n, h, cy);
    }
}

/// The documented invariant on F is preserved by every opcode of the
/// control range.
#[verifier::rlimit(100)]
#[verifier::spinoff_prover]
proof fn lemma_exec_ctrl_keeps_flag_nibble(c: CPU, mem: Seq<u8>, op: u8)
    requires
        c.f % 16 == 0,
    ensures
        spec_exec_ctrl(c, mem, op).cpu.f % 16 == 0,
{
}

/// The documented invariant on F -- its low nibble is always zero --
/// holds in every reachable state: the freshly constructed CPU has
/// F zero, and one dispatcher step preserves the invariant whatever
/// the opcode does, faults included.
pub proof fn lemma_step_keeps_flag_nibble(c: CPU, mem: Seq<u8>)
    requires
        c.f % 16 == 0,
    ensures
        spec_step(c, mem).cpu.f % 16 == 0,
{
    if !c.stopped {
        let c1 = CPU { pc: c.pc.wrapping_add(1), ..c };
        let op = mem[c.pc as int];
        lemma_exec_misc_keeps_flag_nibble(c1, mem, op);
        lemma_exec_move_keeps_flag_nibble(c1, mem, op);
        lemma_exec_acc_keeps_flag_nibble(c1, mem, op);
        lemma_exec_ctrl_keeps_flag_nibble(c1, mem, op);
    }
}

/// Two buses with pointwise equal write policies have equal policies.
pub proof fn lemma_write_policy_eq<M: MemoryBankController>(b1: M, b2: M)
    requires
        forall|a: u16| b1.writable(a) == b2.writable(a),
    ensures
        write_policy(b1) == write_policy(b2),
{
    assert(write_policy(b1) =~= write_policy(b2));
}

impl CPU {
    /// Execute exactly one instruction: fetch the opcode at the program
    /// counter, decode it, perform the register and memory effects the
    /// encoding dictates, and record the cycle cost of the path taken.
    /// A stopped CPU performs no fetch and changes nothing.  An opcode
    /// outside the covered set is a fatal decode fault, returned as an
    /// error with the program counter just past the offending byte.
    ///
    /// The whole transition equals the spec model [`spec_step`], with
    /// each recorded write filtered through the bus's write policy.
    pub fn step<M: MemoryBankController>(&mut self, data: &mut M) -> (r: Result<(), StepError>)
        requires
            old(data).inv(),
        ensures
            final(data).inv(),
            forall|a: u16| final(data).writable(a) == old(data).writable(a),
            ({
                let eff = spec_step(*old(self), old(data).mem());
                &&& *final(self) == eff.cpu
                &&& final(data).mem() == mem_after_writes(
                    old(data).mem(),
                    eff.writes,
                    write_policy(*old(data)),
                )
                &&& r == (match eff.fault {
                    Some(op) => Err::<(), StepError>(StepError::Unimplemented(op)),
                    None => Ok::<(), StepError>(()),
                })
            }),
    {
        proof {
            lemma_mem_after_no_writes(old(data).mem(), write_policy(*old(data)));
        }
        if self.stopped {
            return Ok(());
        }

        let instruction = self.fetch(data);
        let ghost bus1: M = *data;
        proof {
            lemma_write_policy_eq::<M>(bus1, *old(data));
        }

        if instruction < 0x40 {
            self.exec_misc(instruction, data)
        } else if instruction < 0x80 {
            self.exec_move(instruction, data)
        } else if instruction < 0xc0 {
            self.exec_acc(instruction, data)
        } else {
            self.exec_ctrl(instruction, data)
        }
    }

    /// Opcodes 0x00 through 0x3f.
    #[verifier::rlimit(100)]
    #[verifier::spinoff_prover]
    fn exec_misc<M: MemoryBankController>(&mut self, op: u8, data: &mut M) -> (r: Result<
        (),
        StepError,
    >)
        requires
            old(data).inv(),
        ensures
            final(data).inv(),
            forall|a: u16| final(data).writable(a) == old(data).writable(a),
            ({
                let eff = spec_exec_misc(*old(self), old(data).mem(), op);
                &&& *final(self) == eff.cpu
                &&& final(data).mem() == mem_after_writes(
                    old(data).mem(),
                    eff.writes,
                    write_policy(*old(data)),
                )
                &&& r == (match eff.fault {
                    Some(o) => Err::<(), StepError>(StepError::Unimplemented(o)),
                    None => Ok::<(), StepError>(()),
                })
            }),
    {
        proof {
            lemma_mem_after_no_writes(old(data).mem(), write_policy(*old(data)));
        }
        match op {
            // No operation.
            0x00 => {
                self.cycle_delay = 4;
            },
            // Relative conditional jumps.
            0x20 => self.jr(Condition::NZ, data),
            0x30 => self.jr(Condition::NC, data),
            0x28 => self.jr(Condition::Z, data),
            0x38 => self.jr(Condition::C, data),
            0x18 => self.jr(Condition::Always, data),
            // Immediate 8-bit loads.
            0x06 => self.ld_imm_u8(Reg8::B, data),
            0x16 => self.ld_imm_u8(Reg8::D, data),
            0x26 => self.ld_imm_u8(Reg8::H, data),
            0x0e => self.ld_imm_u8(Reg8::C, data),
            0x1e => self.ld_imm_u8(Reg8::E, data),
            0x2e => self.ld_imm_u8(Reg8::L, data),
            0x3e => self.ld_imm_u8(Reg8::A, data),
            // Immediate 16-bit loads.
            0x01 => self.ld_imm_u16(Reg16::BC, data),
            0x11 => self.ld_imm_u16(Reg16::DE, data),
            0x21 => self.ld_imm_u16(Reg16::HL, data),
            0x31 => self.ld_imm_u16(Reg16::SP, data),
            // Stop: consume one padding byte and halt for good.
            0x10 => {
                self.stopped = true;
                self.cycle_delay = 12;
                let _ = self.fetch(data);
            },
            // 16-bit increments.
            0x03 => {
                let v = self.alu_inc_u16(self.get_bc());
                self.set_bc(v);
                self.cycle_delay = 8;
            },
            0x13 => {
                let v = self.alu_inc_u16(self.get_de());
                self.set_de(v);
                self.cycle_delay = 8;
            },
            0x23 => {
                let v = self.alu_inc_u16(self.get_hl());
                self.set_hl(v);
                self.cycle_delay = 8;
            },
            0x33 => {
                self.sp = self.sp.wrapping_add(1);
                self.cycle_delay = 8;
            },
            // 16-bit decrements.
            0x0b => {
                let v = self.alu_dec_u16(self.get_bc());
                self.set_bc(v);
                self.cycle_delay = 8;
            },
            0x1b => {
                let v = self.alu_dec_u16(self.get_de());
                self.set_de(v);
                self.cycle_delay = 8;
            },
            0x2b => {
                let v = self.alu_dec_u16(self.get_hl());
                self.set_hl(v);
                self.cycle_delay = 8;
            },
            0x3b => {
                self.sp = self.sp.wrapping_sub(1);
                self.cycle_delay = 8;
            },
            // Stores of A through a pair.
            0x02 => {
                let addr = self.get_bc();
                data.write(addr, self.a);
                self.cycle_delay = 8;
                proof {
                    lemma_mem_after_one_write(
                        old(data).mem(),
                        addr,
                        self.a,
                        write_policy(*old(data)),
                    );
                }
            },
            0x12 => {
                let addr = self.get_de();
                data.write(addr, self.a);
                self.cycle_delay = 8;
                proof {
                    lemma_mem_after_one_write(
                        old(data).mem(),
                        addr,
                        self.a,
                        write_policy(*old(data)),
                    );
                }
            },
            // Stores of A through HL with post-increment and
            // post-decrement.
            0x22 => {
                let hl = self.get_hl();
                data.write(hl, self.a);
                self.set_hl(hl.wrapping_add(1));
                self.cycle_delay = 8;
                proof {
                    lemma_mem_after_one_write(
                        old(data).mem(),
                        hl,
                        self.a,
                        write_policy(*old(data)),
                    );
                }
            },
            0x32 => {
                let hl = self.get_hl();
                data.write(hl, self.a);
                self.set_hl(hl.wrapping_sub(1));
                self.cycle_delay = 8;
                proof {
                    lemma_mem_after_one_write(
                        old(data).mem(),
                        hl,
                        self.a,
                        write_policy(*old(data)),
                    );
                }
            },
            // Loads of A through HL with post-increment and
            // post-decrement.
            0x2a => {
                let hl = self.get_hl();
                self.a = data.read(hl);
                self.set_hl(hl.wrapping_add(1));
                self.cycle_delay = 8;
            },
            0x3a => {
                let hl = self.get_hl();
                self.a = data.read(hl);
                self.set_hl(hl.wrapping_sub(1));
                self.cycle_delay = 8;
            },
            // Loads of A through a pair.
            0x0a => {
                let addr = self.get_bc();
                self.a = data.read(addr);
                self.cycle_delay = 8;
            },
            0x1a => {
                let addr = self.get_de();
                self.a = data.read(addr);
                self.cycle_delay = 8;
            },
            // 8-bit increments.
            0x04 => self.inc_r8(Reg8::B),
            0x14 => self.inc_r8(Reg8::D),
            0x24 => self.inc_r8(Reg8::H),
            0x0c => self.inc_r8(Reg8::C),
            0x1c => self.inc_r8(Reg8::E),
            0x2c => self.inc_r8(Reg8::L),
            0x3c => self.inc_r8(Reg8::A),
            0x34 => {
                let addr = self.get_hl();
                let value = data.read(addr);
                let new_value = self.alu_inc(value);
                data.write(addr, new_value);
                self.cycle_delay = 12;
                proof {
                    lemma_mem_after_one_write(
                        old(data).mem(),
                        addr,
                        new_value,
                        write_policy(*old(data)),
                    );
                }
            },
            // 8-bit decrements.
            0x05 => self.dec_r8(Reg8::B),
            0x15 => self.dec_r8(Reg8::D),
            0x25 => self.dec_r8(Reg8::H),
            0x0d => self.dec_r8(Reg8::C),
            0x1d => self.dec_r8(Reg8::E),
            0x2d => self.dec_r8(Reg8::L),
            0x3d => self.dec_r8(Reg8::A),
            0x35 => {
                let addr = self.get_hl();
                let value = data.read(addr);
                let new_value = self.alu_dec(value);
                data.write(addr, new_value);
                self.cycle_delay = 12;
                proof {
                    lemma_mem_after_one_write(
                        old(data).mem(),
                        addr,
                        new_value,
                        write_policy(*old(data)),
                    );
                }
            },
            // Everything else is a decode fault.
            _ => {
                return Err(StepError::Unimplemented(op));
            },
        }

        Ok(())
    }

    /// Opcodes 0x40 through 0x7f.
    #[verifier::rlimit(100)]
    #[verifier::spinoff_prover]
    fn exec_move<M: MemoryBankController>(&mut self, op: u8, data: &mut M) -> (r: Result<
        (),
        StepError,
    >)
        requires
            old(data).inv(),
        ensures
            final(data).inv(),
            forall|a: u16| final(data).writable(a) == old(data).writable(a),
            ({
                let eff = spec_exec_move(*old(self), old(data).mem(), op);
                &&& *final(self) == eff.cpu
                &&& final(data).mem() == mem_after_writes(
                    old(data).mem(),
                    eff.writes,
                    write_policy(*old(data)),
                )
                &&& r == (match eff.fault {
                    Some(o) => Err::<(), StepError>(StepError::Unimplemented(o)),
                    None => Ok::<(), StepError>(()),
                })
            }),
    {
        proof {
            lemma_mem_after_no_writes(old(data).mem(), write_policy(*old(data)));
        }
        match op {
            // Register-to-register moves.
            0x40 => self.ld_u8(Reg8::B, Reg8::B),
            0x41 => self.ld_u8(Reg8::B, Reg8::C),
            0x42 => self.ld_u8(Reg8::B, Reg8::D),
            0x43 => self.ld_u8(Reg8::B, Reg8::E),
            0x44 => self.ld_u8(Reg8::B, Reg8::H),
            0x45 => self.ld_u8(Reg8::B, Reg8::L),
            0x47 => self.ld_u8(Reg8::B, Reg8::A),
            0x50 => self.ld_u8(Reg8::D, Reg8::B),
            0x51 => self.ld_u8(Reg8::D, Reg8::C),
            0x52 => self.ld_u8(Reg8::D, Reg8::D),
            0x53 => self.ld_u8(Reg8::D, Reg8::E),
            0x54 => self.ld_u8(Reg8::D, Reg8::H),
            0x55 => self.ld_u8(Reg8::D, Reg8::L),
            0x57 => self.ld_u8(Reg8::D, Reg8::A),
            0x60 => self.ld_u8(Reg8::H, Reg8::B),
            0x61 => self.ld_u8(Reg8::H, Reg8::C),
            0x62 => self.ld_u8(Reg8::H, Reg8::D),
            0x63 => self.ld_u8(Reg8::H, Reg8::E),
            0x64 => self.ld_u8(Reg8::H, Reg8::H),
            0x65 => self.ld_u8(Reg8::H, Reg8::L),
            0x67 => self.ld_u8(Reg8::H, Reg8::A),
            0x48 => self.ld_u8(Reg8::C, Reg8::B),
            0x49 => self.ld_u8(Reg8::C, Reg8::C),
            0x4a => self.ld_u8(Reg8::C, Reg8::D),
            0x4b => self.ld_u8(Reg8::C, Reg8::E),
            0x4c => self.ld_u8(Reg8::C, Reg8::H),
            0x4d => self.ld_u8(Reg8::C, Reg8::L),
            0x4f => self.ld_u8(Reg8::C, Reg8::A),
            0x58 => self.ld_u8(Reg8::E, Reg8::B),
            0x59 => self.ld_u8(Reg8::E, Reg8::C),
            0x5a => self.ld_u8(Reg8::E, Reg8::D),
            0x5b => self.ld_u8(Reg8::E, Reg8::E),
            0x5c => self.ld_u8(Reg8::E, Reg8::H),
            0x5d => self.ld_u8(Reg8::E, Reg8::L),
            0x5f => self.ld_u8(Reg8::E, Reg8::A),
            0x68 => self.ld_u8(Reg8::L, Reg8::B),
            0x69 => self.ld_u8(Reg8::L, Reg8::C),
            0x6a => self.ld_u8(Reg8::L, Reg8::D),
            0x6b => self.ld_u8(Reg8::L, Reg8::E),
            0x6c => self.ld_u8(Reg8::L, Reg8::H),
            0x6d => self.ld_u8(Reg8::L, Reg8::L),
            0x6f => self.ld_u8(Reg8::L, Reg8::A),
            0x78 => self.ld_u8(Reg8::A, Reg8::B),
            0x79 => self.ld_u8(Reg8::A, Reg8::C),
            0x7a => self.ld_u8(Reg8::A, Reg8::D),
            0x7b => self.ld_u8(Reg8::A, Reg8::E),
            0x7c => self.ld_u8(Reg8::A, Reg8::H),
            0x7d => self.ld_u8(Reg8::A, Reg8::L),
            0x7f => self.ld_u8(Reg8::A, Reg8::A),
            // Loads from the byte HL points at.
            0x46 => self.ldhl(Reg8::B, data),
            0x56 => self.ldhl(Reg8::D, data),
            0x66 => self.ldhl(Reg8::H, data),
            0x4e => self.ldhl(Reg8::C, data),
            0x5e => self.ldhl(Reg8::E, data),
            0x6e => self.ldhl(Reg8::L, data),
            0x7e => self.ldhl(Reg8::A, data),
            // Store A at the byte HL points at.
            0x77 => {
                let addr = self.get_hl();
                data.write(addr, self.a);
                self.cycle_delay = 8;
                proof {
                    lemma_mem_after_one_write(
                        old(data).mem(),
                        addr,
                        self.a,
                        write_policy(*old(data)),
                    );
                }
            },
            // Everything else is a decode fault.
            _ => {
                return Err(StepError::Unimplemented(op));
            },
        }

        Ok(())
    }

    /// Opcodes 0x80 through 0xbf.
    #[verifier::rlimit(100)]
    #[verifier::spinoff_prover]
    fn exec_acc<M: MemoryBankController>(&mut self, op: u8, data: &mut M) -> (r: Result<
        (),
        StepError,
    >)
        requires
            old(data).inv(),
        ensures
            final(data).inv(),
            forall|a: u16| final(data).writable(a) == old(data).writable(a),
            ({
                let eff = spec_exec_acc(*old(self), old(data).mem(), op);
                &&& *final(self) == eff.cpu
                &&& final(data).mem() == mem_after_writes(
                    old(data).mem(),
                    eff.writes,
                    write_policy(*old(data)),
                )
                &&& r == (match eff.fault {
                    Some(o) => Err::<(), StepError>(StepError::Unimplemented(o)),
                    None => Ok::<(), StepError>(()),
                })
            }),
    {
        proof {
            lemma_mem_after_no_writes(old(data).mem(), write_policy(*old(data)));
        }
        match op {
            // Add into A.
            0x80 => self.add(Reg8::B),
            0x81 => self.add(Reg8::C),
            0x82 => self.add(Reg8::D),
            0x83 => self.add(Reg8::E),
            0x84 => self.add(Reg8::H),
            0x85 => self.add(Reg8::L),
            0x87 => self.add(Reg8::A),
            // Subtract from A.
            0x90 => self.sub(Reg8::B),
            0x91 => self.sub(Reg8::C),
            0x92 => self.sub(Reg8::D),
            0x93 => self.sub(Reg8::E),
            0x94 => self.sub(Reg8::H),
            0x95 => self.sub(Reg8::L),
            0x97 => self.sub(Reg8::A),
            // And into A.
            0xa0 => self.and_a(self.b, 4),
            0xa1 => self.and_a(self.c, 4),
            0xa2 => self.and_a(self.d, 4),
            0xa3 => self.and_a(self.e, 4),
            0xa4 => self.and_a(self.h, 4),
            0xa5 => self.and_a(self.l, 4),
            0xa7 => self.and_a(self.a, 4),
            0xa6 => {
                let value = data.read(self.get_hl());
                self.and_a(value, 8);
            },
            // Xor into A.
            0xa8 => self.xor(Reg8::B),
            0xa9 => self.xor(Reg8::C),
            0xaa => self.xor(Reg8::D),
            0xab => self.xor(Reg8::E),
            0xac => self.xor(Reg8::H),
            0xad => self.xor(Reg8::L),
            0xaf => self.xor(Reg8::A),
            // Or into A.
            0xb0 => self.or_a(self.b, 4),
            0xb1 => self.or_a(self.c, 4),
            0xb2 => self.or_a(self.d, 4),
            0xb3 => self.or_a(self.e, 4),
            0xb4 => self.or_a(self.h, 4),
            0xb5 => self.or_a(self.l, 4),
            0xb7 => self.or_a(self.a, 4),
            0xb6 => {
                let value = data.read(self.get_hl());
                self.or_a(value, 8);
            },
            // Everything else is a decode fault.
            _ => {
                return Err(StepError::Unimplemented(op));
            },
        }

        Ok(())
    }

    /// Opcodes 0xc0 through 0xff.
    #[verifier::rlimit(100)]
    #[verifier::spinoff_prover]
    fn exec_ctrl<M: MemoryBankController>(&mut self, op: u8, data: &mut M) -> (r: Result<
        (),
        StepError,
    >)
        requires
            old(data).inv(),
        ensures
            final(data).inv(),
            forall|a: u16| final(data).writable(a) == old(data).writable(a),
            ({
                let eff = spec_exec_ctrl(*old(self), old(data).mem(), op);
                &&& *final(self) == eff.cpu
                &&& final(data).mem() == mem_after_writes(
                    old(data).mem(),
                    eff.writes,
                    write_policy(*old(data)),
                )
                &&& r == (match eff.fault {
                    Some(o) => Err::<(), StepError>(StepError::Unimplemented(o)),
                    None => Ok::<(), StepError>(()),
                })
            }),
    {
        proof {
            lemma_mem_after_no_writes(old(data).mem(), write_policy(*old(data)));
        }
        match op {
            // Conditional calls.
            0xc4 => self.call(Condition::NZ, data),
            0xd4 => self.call(Condition::NC, data),
            0xcc => self.call(Condition::Z, data),
            0xdc => self.call(Condition::C, data),
            0xcd => self.call(Condition::Always, data),
            // Absolute jump.
            0xc3 => {
                let addr = self.fetch_u16(data);
                self.pc = addr;
                self.cycle_delay = 16;
            },
            // Return.
            0xc9 => {
                self.pc = crate::cpu::mbc::read_u16(data, self.sp);
                self.sp = self.sp.wrapping_add(2);
                self.cycle_delay = 16;
            },
            // Interrupt-master-enable off and on.
            0xf3 => {
                self.ime = 0;
                self.cycle_delay = 4;
            },
            0xfb => {
                self.ime = 1;
                self.cycle_delay = 4;
            },
            // Store A at I/O port 0xff00 plus the offset byte.
            0xe0 => {
                let offset = self.fetch(data);
                let addr: u16 = 0xff00 + (offset as u16);
                data.write(addr, self.a);
                self.cycle_delay = 12;
                proof {
                    lemma_mem_after_one_write(
                        old(data).mem(),
                        addr,
                        self.a,
                        write_policy(*old(data)),
                    );
                }
            },
            // Load A from I/O port 0xff00 plus the offset byte.
            0xf0 => {
                let offset = self.fetch(data);
                let addr: u16 = 0xff00 + (offset as u16);
                self.a = data.read(addr);
                self.cycle_delay = 12;
            },
            // Store A at an absolute address.
            0xea => {
                let addr = self.fetch_u16(data);
                data.write(addr, self.a);
                self.cycle_delay = 12;
                proof {
                    lemma_mem_after_one_write(
                        old(data).mem(),
                        addr,
                        self.a,
                        write_policy(*old(data)),
                    );
                }
            },
            // Stack pushes and pops.
            0xc5 => self.push(Reg16::BC, data),
            0xd5 => self.push(Reg16::DE, data),
            0xe5 => self.push(Reg16::HL, data),
            0xf5 => self.push(Reg16::AF, data),
            0xc1 => self.pop(Reg16::BC, data),
            0xd1 => self.pop(Reg16::DE, data),
            0xe1 => self.pop(Reg16::HL, data),
            0xf1 => self.pop(Reg16::AF, data),
            // Immediate forms of the accumulator operations.
            0xc6 => self.add_imm(data),
            0xd6 => self.sub_imm(data),
            0xe6 => {
                let value = self.fetch(data);
                self.and_a(value, 8);
            },
            // Compare an immediate against A.
            0xfe => {
                let imm = self.fetch(data);
                let acc = self.a;
                let _ = self.alu_sub(acc, imm);
                self.cycle_delay = 8;
            },
            // Load A from an absolute address.
            0xfa => {
                let addr = self.fetch_u16(data);
                self.a = data.read(addr);
                self.cycle_delay = 16;
            },
            // Everything else is a decode fault.
            _ => {
                return Err(StepError::Unimplemented(op));
            },
        }

        Ok(())
    }

    fn get_r8(&self, register: Reg8) -> (r: u8)
        ensures
            r == spec_get_r8(*self, register),
    {
        match register {
            Reg8::A => self.a,
            Reg8::F => self.f,
            Reg8::B => self.b,
            Reg8::C => self.c,
            Reg8::D => self.d,
            Reg8::E => self.e,
            Reg8::H => self.h,
            Reg8::L => self.l,
        }
    }

    fn set_r8(&mut self, register: Reg8, value: u8)
        ensures
            *final(self) == spec_set_r8(*old(self), register, value),
    {
        match register {
            Reg8::A => self.a = value,
            Reg8::F => self.f = value,
            Reg8::B => self.b = value,
            Reg8::C => self.c = value,
            Reg8::D => self.d = value,
            Reg8::E => self.e = value,
            Reg8::H => self.h = value,
            Reg8::L => self.l = value,
        }
    }

    fn get_r16(&self, register: Reg16) -> (r: u16)
        ensures
            r == spec_get_r16(*self, register),
    {
        match register {
            Reg16::BC => self.get_bc(),
            Reg16::DE => self.get_de(),
            Reg16::HL => self.get_hl(),
            Reg16::AF => self.get_af(),
            Reg16::SP => self.sp,
        }
    }

    fn set_r16(&mut self, register: Reg16, value: u16)
        ensures
            *final(self) == spec_set_r16(*old(self), register, value),
    {
        match register {
            Reg16::BC => self.set_bc(value),
            Reg16::DE => self.set_de(value),
            Reg16::HL => self.set_hl(value),
            Reg16::AF => self.set_af(value),
            Reg16::SP => self.sp = value,
        }
    }

    fn check_condition(&self, condition: Condition) -> (r: bool)
        ensures
            r == spec_condition(*self, condition),
    {
        match condition {
            Condition::Always => true,
            Condition::Z => self.read_flag(FLAG_ZERO),
            Condition::C => self.read_flag(FLAG_CARRY),
            Condition::NZ => !self.read_flag(FLAG_ZERO),
            Condition::NC => !self.read_flag(FLAG_CARRY),
        }
    }

    fn ld_imm_u8<M: MemoryBankController>(&mut self, dst: Reg8, data: &mut M)
        requires
            old(data).inv(),
        ensures
            final(data).inv(),
            final(data).mem() == old(data).mem(),
            forall|a: u16| final(data).writable(a) == old(data).writable(a),
            *final(self) == spec_ld_imm_u8(*old(self), old(data).mem(), dst),
    {
        let imm = self.fetch(data);
        self.set_r8(dst, imm);
        self.cycle_delay = 8;
    }

    fn ld_imm_u16<M: MemoryBankController>(&mut self, dst: Reg16, data: &mut M)
        requires
            old(data).inv(),
        ensures
            final(data).inv(),
            final(data).mem() == old(data).mem(),
            forall|a: u16| final(data).writable(a) == old(data).writable(a),
            *final(self) == spec_ld_imm_u16(*old(self), old(data).mem(), dst),
    {
        let imm = self.fetch_u16(data);
        self.set_r16(dst, imm);
        self.cycle_delay = 8;
    }

    fn ld_u8(&mut self, dst: Reg8, src: Reg8)
        ensures
            *final(self) == spec_ld_u8(*old(self), dst, src),
    {
        let value = self.get_r8(src);
        self.set_r8(dst, value);
        self.cycle_delay = 4;
    }

    fn ldhl<M: MemoryBankController>(&mut self, register: Reg8, data: &mut M)
        requires
            old(data).inv(),
        ensures
            final(data).inv(),
            final(data).mem() == old(data).mem(),
            forall|a: u16| final(data).writable(a) == old(data).writable(a),
            *final(self) == spec_ldhl(*old(self), old(data).mem(), register),
    {
        let value = data.read(self.get_hl());
        self.set_r8(register, value);
        self.cycle_delay = 8;
    }

    fn jr<M: MemoryBankController>(&mut self, condition: Condition, data: &mut M)
        requires
            old(data).inv(),
        ensures
            final(data).inv(),
            final(data).mem() == old(data).mem(),
            forall|a: u16| final(data).writable(a) == old(data).writable(a),
            *final(self) == spec_jr(*old(self), old(data).mem(), condition),
    {
        let off = self.fetch(data);
        let off16: u16 = if off >= 0x80 {
            (off as u16) + 0xff00
        } else {
            off as u16
        };
        if self.check_condition(condition) {
            self.pc = self.pc.wrapping_add(off16);
            self.cycle_delay = 12;
        } else {
            self.cycle_delay = 8;
        }
    }

    fn call<M: MemoryBankController>(&mut self, condition: Condition, data: &mut M)
        requires
            old(data).inv(),
        ensures
            final(data).inv(),
            forall|a: u16| final(data).writable(a) == old(data).writable(a),
            ({
                let eff = spec_call(*old(self), old(data).mem(), condition);
                &&& *final(self) == eff.cpu
                &&& final(data).mem() == mem_after_writes(
                    old(data).mem(),
                    eff.writes,
                    write_policy(*old(data)),
                )
            }),
    {
        let next_addr = self.fetch_u16(data);
        let ghost bus1: M = *data;
        if self.check_condition(condition) {
            self.sp = self.sp.wrapping_sub(2);
            crate::cpu::mbc::write_u16(data, self.sp, self.pc);
            self.pc = next_addr;
            self.cycle_delay = 24;
            proof {
                lemma_write_policy_eq::<M>(bus1, *old(data));
            }
        } else {
            self.cycle_delay = 12;
            proof {
                lemma_mem_after_no_writes(old(data).mem(), write_policy(*old(data)));
            }
        }
    }

    fn push<M: MemoryBankController>(&mut self, register: Reg16, data: &mut M)
        requires
            old(data).inv(),
        ensures
            final(data).inv(),
            forall|a: u16| final(data).writable(a) == old(data).writable(a),
            ({
                let eff = spec_push(*old(self), register);
                &&& *final(self) == eff.cpu
                &&& final(data).mem() == mem_after_writes(
                    old(data).mem(),
                    eff.writes,
                    write_policy(*old(data)),
                )
            }),
    {
        let value = self.get_r16(register);
        self.sp = self.sp.wrapping_sub(2);
        crate::cpu::mbc::write_u16(data, self.sp, value);
        self.cycle_delay = 16;
    }

    fn pop<M: MemoryBankController>(&mut self, register: Reg16, data: &mut M)
        requires
            old(data).inv(),
        ensures
            final(data).inv(),
            final(data).mem() == old(data).mem(),
            forall|a: u16| final(data).writable(a) == old(data).writable(a),
            *final(self) == spec_pop(*old(self), old(data).mem(), register),
    {
        let value = crate::cpu::mbc::read_u16(data, self.sp);
        self.set_r16(register, value);
        self.sp = self.sp.wrapping_add(2);
        self.cycle_delay = 12;
    }

    fn inc_r8(&mut self, register: Reg8)
        ensures
            *final(self) == spec_inc_r8(*old(self), register),
    {
        let current_value = self.get_r8(register);
        let new_value = self.alu_inc(current_value);
        self.set_r8(register, new_value);
        self.cycle_delay = 4;
    }

    fn dec_r8(&mut self, register: Reg8)
        ensures
            *final(self) == spec_dec_r8(*old(self), register),
    {
        let current_value = self.get_r8(register);
        let new_value = self.alu_dec(current_value);
        self.set_r8(register, new_value);
        self.cycle_delay = 4;
    }

    fn xor(&mut self, register: Reg8)
        ensures
            *final(self) == spec_xor_a(*old(self), spec_get_r8(*old(self), register), 4),
    {
        let value = self.get_r8(register);
        let result = self.a ^ value;
        self.a = result;
        let mut flags: u8 = self.f % 16;
        if result == 0 {
            flags = flags + FLAG_ZERO;
        }
        self.f = flags;
        self.cycle_delay = 4;
    }

    fn or_a(&mut self, value: u8, cycle: u8)
        ensures
            *final(self) == spec_or_a(*old(self), value, cycle),
    {
        let result = self.a | value;
        self.a = result;
        let mut flags: u8 = self.f % 16;
        if result == 0 {
            flags = flags + FLAG_ZERO;
        }
        self.f = flags;
        self.cycle_delay = cycle;
    }

    fn and_a(&mut self, value: u8, cycle: u8)
        ensures
            *final(self) == spec_and_a(*old(self), value, cycle),
    {
        let result = self.a & value;
        self.a = result;
        let mut flags: u8 = self.f % 16;
        if result == 0 {
            flags = flags + FLAG_ZERO;
        }
        flags = flags + crate::cpu::FLAG_HALF_CARRY;
        self.f = flags;
        self.cycle_delay = cycle;
    }

    fn add(&mut self, register: Reg8)
        ensures
            *final(self) == spec_add_a(*old(self), spec_get_r8(*old(self), register), 4),
    {
        let value = self.get_r8(register);
        self.a = self.alu_add(self.a, value);
        self.cycle_delay = 4;
    }

    fn add_imm<M: MemoryBankController>(&mut self, data: &mut M)
        requires
            old(data).inv(),
        ensures
            final(data).inv(),
            final(data).mem() == old(data).mem(),
            forall|a: u16| final(data).writable(a) == old(data).writable(a),
            *final(self) == spec_add_a(
                CPU { pc: old(self).pc.wrapping_add(1), ..*old(self) },
                old(data).mem()[old(self).pc as int],
                8,
            ),
    {
        let value = self.fetch(data);
        self.a = self.alu_add(self.a, value);
        self.cycle_delay = 8;
    }

    fn sub(&mut self, register: Reg8)
        ensures
            *final(self) == spec_sub_a(*old(self), spec_get_r8(*old(self), register), 4),
    {
        let value = self.get_r8(register);
        self.a = self.alu_sub(self.a, value);
        self.cycle_delay = 4;
    }

    fn sub_imm<M: MemoryBankController>(&mut self, data: &mut M)
        requires
            old(data).inv(),
        ensures
            final(data).inv(),
            final(data).mem() == old(data).mem(),
            forall|a: u16| final(data).writable(a) == old(data).writable(a),
            *final(self) == spec_sub_a(
                CPU { pc: old(self).pc.wrapping_add(1), ..*old(self) },
                old(data).mem()[old(self).pc as int],
                8,
            ),
    {
        let value = self.fetch(data);
        self.a = self.alu_sub(self.a, value);
        self.cycle_delay = 8;
    }
}

} // verus!
