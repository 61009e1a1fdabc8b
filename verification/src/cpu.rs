//! The CPU register file and the arithmetic-logic unit.
//!
//! The register file holds eight 8-bit registers (A, F, B, C, D, E, H, L),
//! the 16-bit stack pointer and program counter, the interrupt-master-enable
//! flag and the stopped indicator.  Register pairs AF, BC, DE and HL are
//! 16-bit views with the first-named register as the high byte.  The low
//! nibble of F carries no meaning and is kept at zero by every writer of F.

use vstd::prelude::*;

pub mod mbc;
pub mod opcodes;
pub mod memory_range;
pub mod registers;

verus! {

/// Zero flag: set when an arithmetic result is zero (bit 7 of F).
pub const FLAG_ZERO: u8 = 0x80;
/// Subtract flag: set by subtraction, cleared by addition (bit 6 of F).
pub const FLAG_SUBTRACT: u8 = 0x40;
/// Half-carry flag: carry or borrow at bit 4 (bit 5 of F).
pub const FLAG_HALF_CARRY: u8 = 0x20;
/// Carry flag: carry or borrow at bit 8 (bit 4 of F).
pub const FLAG_CARRY: u8 = 0x10;
/// All four meaningful bits of F together.
pub const FLAG_ALL: u8 = 0xf0;

pub struct CPU {
    pub a: u8,
    pub f: u8,
    pub b: u8,
    pub c: u8,
    pub d: u8,
    pub e: u8,
    pub h: u8,
    pub l: u8,
    pub pc: u16,
    pub cycle_delay: u8,
    pub ime: u8,
    pub sp: u16,
    pub stopped: bool,
}

/// The 16-bit value whose low byte is `lo` and whose high byte is `hi`.
pub open spec fn spec_make_u16(lo: u8, hi: u8) -> u16 {
    (256 * (hi as int) + (lo as int)) as u16
}

/// The low byte of a 16-bit value.
pub open spec fn spec_lo(value: u16) -> u8 {
    (value % 256) as u8
}

/// The high byte of a 16-bit value.
pub open spec fn spec_hi(value: u16) -> u8 {
    (value / 256) as u8
}

/// Composing a 16-bit value from its low and high bytes and decomposing it
/// again yields the bytes back.
pub proof fn lemma_make_unmake(lo: u8, hi: u8)
    ensures
        spec_lo(spec_make_u16(lo, hi)) == lo,
        spec_hi(spec_make_u16(lo, hi)) == hi,
{
}

/// Decomposing a 16-bit value into its low and high bytes and composing
/// them again yields the value back, for every 16-bit value.
pub proof fn lemma_unmake_make(value: u16)
    ensures
        spec_make_u16(spec_lo(value), spec_hi(value)) == value,
{
}

pub fn make_u16(lo: u8, hi: u8) -> (r: u16)
    ensures
        r == spec_make_u16(lo, hi),
{
    256 * (hi as u16) + (lo as u16)
}

pub fn unmake_u16(value: u16) -> (r: (u8, u8))
    ensures
        r.0 == spec_lo(value),
        r.1 == spec_hi(value),
{
    let lo: u8 = (value % 256) as u8;
    let hi: u8 = (value / 256) as u8;
    (lo, hi)
}

impl CPU {
    /// The AF pair: A is the high byte, F the low byte.
    pub open spec fn spec_af(self) -> u16 {
        spec_make_u16(self.f, self.a)
    }

    /// The BC pair: B is the high byte, C the low byte.
    pub open spec fn spec_bc(self) -> u16 {
        spec_make_u16(self.c, self.b)
    }

    /// The DE pair: D is the high byte, E the low byte.
    pub open spec fn spec_de(self) -> u16 {
        spec_make_u16(self.e, self.d)
    }

    /// The HL pair: H is the high byte, L the low byte.
    pub open spec fn spec_hl(self) -> u16 {
        spec_make_u16(self.l, self.h)
    }

    pub open spec fn spec_stopped(self) -> bool {
        self.stopped
    }

    pub fn new() -> (r: CPU)
        ensures
            r == (CPU {
                a: 0,
                f: 0,
                b: 0,
                c: 0,
                d: 0,
                e: 0,
                h: 0,
                l: 0,
                pc: 0,
                cycle_delay: 0,
                ime: 0,
                sp: 0xfffe,
                stopped: false,
            }),
    {
        CPU {
            a: 0,
            f: 0,
            b: 0,
            c: 0,
            d: 0,
            e: 0,
            h: 0,
            l: 0,
            pc: 0,
            cycle_delay: 0,
            ime: 0,
            sp: 0xfffe,
            stopped: false,
        }
    }

    pub fn is_stopped(&mut self) -> (r: bool)
        ensures
            *final(self) == *old(self),
            r == old(self).spec_stopped(),
    {
        self.stopped
    }

    /// Read the byte the program counter points at and advance the
    /// counter by one, wrapping at the end of the address space.
    pub fn fetch<M: mbc::MemoryBankController>(&mut self, data: &mut M) -> (r: u8)
        requires
            old(data).inv(),
        ensures
            final(data).inv(),
            final(data).mem() == old(data).mem(),
            forall|a: u16| final(data).writable(a) == old(data).writable(a),
            r == old(data).mem()[old(self).pc as int],
            *final(self) == (CPU { pc: old(self).pc.wrapping_add(1), ..*old(self) }),
    {
        let result = data.read(self.pc);
        self.pc = self.pc.wrapping_add(1);
        result
    }

    /// Read the little-endian 16-bit value the program counter points at
    /// and advance the counter by two.
    pub fn fetch_u16<M: mbc::MemoryBankController>(&mut self, data: &mut M) -> (r: u16)
        requires
            old(data).inv(),
        ensures
            final(data).inv(),
            final(data).mem() == old(data).mem(),
            forall|a: u16| final(data).writable(a) == old(data).writable(a),
            r == spec_make_u16(
                old(data).mem()[old(self).pc as int],
                old(data).mem()[old(self).pc.wrapping_add(1) as int],
            ),
            *final(self) == (CPU { pc: old(self).pc.wrapping_add(2), ..*old(self) }),
    {
        let lo = self.fetch(data);
        let hi = self.fetch(data);
        make_u16(lo, hi)
    }

    pub fn get_af(&self) -> (r: u16)
        ensures
            r == self.spec_af(),
    {
        make_u16(self.f, self.a)
    }

    pub fn get_hl(&self) -> (r: u16)
        ensures
            r == self.spec_hl(),
    {
        make_u16(self.l, self.h)
    }

    pub fn get_bc(&self) -> (r: u16)
        ensures
            r == self.spec_bc(),
    {
        make_u16(self.c, self.b)
    }

    pub fn get_de(&self) -> (r: u16)
        ensures
            r == self.spec_de(),
    {
        make_u16(self.e, self.d)
    }

    /// Setting AF keeps the documented invariant on F: the low nibble of
    /// the incoming low byte is masked to zero, so the pair reads back as
    /// `value` exactly when `value`'s low nibble is already zero.
    pub fn set_af(&mut self, value: u16)
        ensures
            *final(self) == (CPU {
                a: spec_hi(value),
                f: ((spec_lo(value) / 16) * 16) as u8,
                ..*old(self)
            }),
            final(self).spec_af() == (value / 16) * 16,
            value % 16 == 0 ==> final(self).spec_af() == value,
    {
        let (lo, hi) = unmake_u16(value);
        self.a = hi;
        self.f = (lo / 16) * 16;
    }

    pub fn set_hl(&mut self, value: u16)
        ensures
            *final(self) == (CPU { h: spec_hi(value), l: spec_lo(value), ..*old(self) }),
            final(self).spec_hl() == value,
    {
        let (lo, hi) = unmake_u16(value);
        self.h = hi;
        self.l = lo;
    }

    pub fn set_bc(&mut self, value: u16)
        ensures
            *final(self) == (CPU { b: spec_hi(value), c: spec_lo(value), ..*old(self) }),
            final(self).spec_bc() == value,
    {
        let (lo, hi) = unmake_u16(value);
        self.b = hi;
        self.c = lo;
    }

    pub fn set_de(&mut self, value: u16)
        ensures
            *final(self) == (CPU { d: spec_hi(value), e: spec_lo(value), ..*old(self) }),
            final(self).spec_de() == value,
    {
        let (lo, hi) = unmake_u16(value);
        self.d = hi;
        self.e = lo;
    }
}

/// Whether the given flag bits are all clear in `f` would be `f & flag == 0`;
/// a flag is read as set when any of its bits is set in `f`.
pub open spec fn spec_has_flag(f: u8, flag: u8) -> bool {
    f & flag != 0
}

impl CPU {
    #[inline(always)]
    pub fn set_flag(&mut self, flag: u8)
        ensures
            *final(self) == (CPU { f: old(self).f | flag, ..*old(self) }),
    {
        self.f = self.f | flag;
    }

    #[inline(always)]
    pub fn unset_flag(&mut self, flag: u8)
        ensures
            *final(self) == (CPU { f: old(self).f & !flag, ..*old(self) }),
    {
        self.f = self.f & !flag;
    }

    pub fn read_flag(&self, flag: u8) -> (r: bool)
        ensures
            r == spec_has_flag(self.f, flag),
    {
        (self.f & flag) > 0
    }
}

/// F after an arithmetic instruction: the meaningless low nibble is kept,
/// and the four flag bits are fully recomputed from `z`, `n`, `h`, `c`.
pub open spec fn spec_flag_update(f: u8, z: bool, n: bool, h: bool, c: bool) -> u8 {
    ((f % 16) + (if z {
        128int
    } else {
        0int
    }) + (if n {
        64int
    } else {
        0int
    }) + (if h {
        32int
    } else {
        0int
    }) + (if c {
        16int
    } else {
        0int
    })) as u8
}

/// The sum of two bytes, modulo 256.
pub open spec fn spec_add_result(a: u8, b: u8) -> u8 {
    ((a + b) % 256) as u8
}

/// Addition carries out of bit 8 exactly when the true sum reaches 256.
pub open spec fn spec_add_carry(a: u8, b: u8) -> bool {
    a + b >= 256
}

/// Addition carries out of bit 4 exactly when the low nibbles sum to 16 or
/// more.
pub open spec fn spec_add_half(a: u8, b: u8) -> bool {
    a % 16 + b % 16 >= 16
}

/// F after an 8-bit addition: Z from the result, N cleared, H and C from
/// the nibble and byte carries.
pub open spec fn spec_add_f(f: u8, a: u8, b: u8) -> u8 {
    spec_flag_update(
        f,
        spec_add_result(a, b) == 0,
        false,
        spec_add_half(a, b),
        spec_add_carry(a, b),
    )
}

/// The difference of two bytes, modulo 256.
pub open spec fn spec_sub_result(a: u8, b: u8) -> u8 {
    ((a - b) % 256) as u8
}

/// Subtraction borrows from bit 8 exactly when the subtrahend is larger.
pub open spec fn spec_sub_borrow(a: u8, b: u8) -> bool {
    a < b
}

/// Subtraction borrows from bit 4 exactly when the subtrahend's low nibble
/// is larger.
pub open spec fn spec_sub_half(a: u8, b: u8) -> bool {
    a % 16 < b % 16
}

/// F after an 8-bit subtraction: Z from the result, N set, H and C from
/// the nibble and byte borrows (direct-subtractor flag semantics).
pub open spec fn spec_sub_f(f: u8, a: u8, b: u8) -> u8 {
    spec_flag_update(
        f,
        spec_sub_result(a, b) == 0,
        true,
        spec_sub_half(a, b),
        spec_sub_borrow(a, b),
    )
}

impl CPU {
    /// 8-bit addition. Returns `(a + b) mod 256` and fully recomputes the
    /// flags: Z set iff the result is zero, N cleared, H set iff the low
    /// nibbles carry, C set iff the sum reaches 256.
    pub fn alu_add(&mut self, a: u8, b: u8) -> (r: u8)
        ensures
            r == spec_add_result(a, b),
            *final(self) == (CPU { f: spec_add_f(old(self).f, a, b), ..*old(self) }),
    {
        let sum: u16 = (a as u16) + (b as u16);
        let result: u8 = (sum % 256) as u8;

        let mut flags: u8 = self.f % 16;
        if result == 0 {
            flags = flags + FLAG_ZERO;
        }
        if a % 16 + b % 16 >= 16 {
            flags = flags + FLAG_HALF_CARRY;
        }
        if sum >= 256 {
            flags = flags + FLAG_CARRY;
        }
        self.f = flags;

        result
    }

    /// 8-bit subtraction with direct-subtractor flag semantics. Returns
    /// `(a - b) mod 256` and fully recomputes the flags: Z set iff the
    /// result is zero, N set, H set iff the low nibble borrows, C set iff
    /// the whole byte borrows.
    pub fn alu_sub(&mut self, a: u8, b: u8) -> (r: u8)
        ensures
            r == spec_sub_result(a, b),
            *final(self) == (CPU { f: spec_sub_f(old(self).f, a, b), ..*old(self) }),
    {
        let result: u8 = a.wrapping_sub(b);

        let mut flags: u8 = self.f % 16;
        if result == 0 {
            flags = flags + FLAG_ZERO;
        }
        flags = flags + FLAG_SUBTRACT;
        if a % 16 < b % 16 {
            flags = flags + FLAG_HALF_CARRY;
        }
        if a < b {
            flags = flags + FLAG_CARRY;
        }
        self.f = flags;

        result
    }

    /// Increment: addition with operand 1, flags recomputed as for `alu_add`.
    pub fn alu_inc(&mut self, a: u8) -> (r: u8)
        ensures
            r == spec_add_result(a, 1),
            *final(self) == (CPU { f: spec_add_f(old(self).f, a, 1), ..*old(self) }),
    {
        self.alu_add(a, 1)
    }

    /// Decrement: subtraction with operand 1, flags recomputed as for
    /// `alu_sub`.
    pub fn alu_dec(&mut self, a: u8) -> (r: u8)
        ensures
            r == spec_sub_result(a, 1),
            *final(self) == (CPU { f: spec_sub_f(old(self).f, a, 1), ..*old(self) }),
    {
        self.alu_sub(a, 1)
    }

    /// 16-bit increment: wraps at the 16-bit boundary and never touches
    /// the flags.
    pub fn alu_inc_u16(&self, a: u16) -> (r: u16)
        ensures
            r == a.wrapping_add(1),
    {
        a.wrapping_add(1)
    }

    /// 16-bit decrement: wraps at the 16-bit boundary and never touches
    /// the flags.
    pub fn alu_dec_u16(&self, a: u16) -> (r: u16)
        ensures
            r == a.wrapping_sub(1),
    {
        a.wrapping_sub(1)
    }
}

} // verus!
