//! The memory-bus capability and its reference variants.
//!
//! The bus exposes exactly two primitive operations, a byte read and a byte
//! write; 16-bit accesses are derived on top of them, little-endian.  A bus
//! models the whole 64KB address space as a sequence of bytes, together
//! with a per-address write policy: a write to a non-writable address (the
//! ROM-mapped region of a bank controller) is silently ignored, and that
//! policy is fixed for the life of the bus.

use vstd::prelude::*;

use crate::cpu::spec_make_u16;
use crate::cpu::spec_lo;
use crate::cpu::spec_hi;
use crate::cpu::make_u16;
use crate::cpu::unmake_u16;

verus! {

/// The bank-controller variant named by the cartridge header.
#[derive(Debug, Copy, Clone, PartialEq, Eq, Structural)]
pub enum MemoryBankControllerType {
    RomOnly,
    Mbc1,
    Mbc1Ram,
    Mbc1RamBattery,
    Mbc2,
    Mbc2Battery,
    RomRam,
    RomRamBattery,
    Mmm01,
    Mmm01Ram,
    Mmm01RamBattery,
    Mbc3TimerBattery,
    Mbc3TimerRamBattery,
    Mbc3,
    Mbc3Ram,
    Mbc3RamBattery,
    Mbc5,
    Mbc5Ram,
    Mbc5RamBattery,
    Mbc5Rumble,
    Mbc5RumbleRam,
    Mbc5RumbleRamBattery,
    Mbc6,
    Mbc7SensorRumbleRamBattery,
    PocketCamera,
    BandaiTama5,
    Huc3,
    Huc1RamBattery,
}

impl MemoryBankControllerType {
    /// The header byte that names this variant.
    pub open spec fn spec_code(self) -> u8 {
        match self {
            MemoryBankControllerType::RomOnly => 0x00,
            MemoryBankControllerType::Mbc1 => 0x01,
            MemoryBankControllerType::Mbc1Ram => 0x02,
            MemoryBankControllerType::Mbc1RamBattery => 0x03,
            MemoryBankControllerType::Mbc2 => 0x05,
            MemoryBankControllerType::Mbc2Battery => 0x06,
            MemoryBankControllerType::RomRam => 0x08,
            MemoryBankControllerType::RomRamBattery => 0x09,
            MemoryBankControllerType::Mmm01 => 0x0b,
            MemoryBankControllerType::Mmm01Ram => 0x0c,
            MemoryBankControllerType::Mmm01RamBattery => 0x0d,
            MemoryBankControllerType::Mbc3TimerBattery => 0x0f,
            MemoryBankControllerType::Mbc3TimerRamBattery => 0x10,
            MemoryBankControllerType::Mbc3 => 0x11,
            MemoryBankControllerType::Mbc3Ram => 0x12,
            MemoryBankControllerType::Mbc3RamBattery => 0x13,
            MemoryBankControllerType::Mbc5 => 0x19,
            MemoryBankControllerType::Mbc5Ram => 0x1a,
            MemoryBankControllerType::Mbc5RamBattery => 0x1b,
            MemoryBankControllerType::Mbc5Rumble => 0x1c,
            MemoryBankControllerType::Mbc5RumbleRam => 0x1d,
            MemoryBankControllerType::Mbc5RumbleRamBattery => 0x1e,
            MemoryBankControllerType::Mbc6 => 0x20,
            MemoryBankControllerType::Mbc7SensorRumbleRamBattery => 0x22,
            MemoryBankControllerType::PocketCamera => 0xfc,
            MemoryBankControllerType::BandaiTama5 => 0xfd,
            MemoryBankControllerType::Huc3 => 0xfe,
            MemoryBankControllerType::Huc1RamBattery => 0xff,
        }
    }

    /// The bank-controller variant a cartridge-header byte names, if
    /// any: the inverse of `spec_code`.
    pub open spec fn spec_from_code(code: u8) -> Option<MemoryBankControllerType> {
        if code == 0x00 {
            Some(MemoryBankControllerType::RomOnly)
        } else if code == 0x01 {
            Some(MemoryBankControllerType::Mbc1)
        } else if code == 0x02 {
            Some(MemoryBankControllerType::Mbc1Ram)
        } else if code == 0x03 {
            Some(MemoryBankControllerType::Mbc1RamBattery)
        } else if code == 0x05 {
            Some(MemoryBankControllerType::Mbc2)
        } else if code == 0x06 {
            Some(MemoryBankControllerType::Mbc2Battery)
        } else if code == 0x08 {
            Some(MemoryBankControllerType::RomRam)
        } else if code == 0x09 {
            Some(MemoryBankControllerType::RomRamBattery)
        } else if code == 0x0b {
            Some(MemoryBankControllerType::Mmm01)
        } else if code == 0x0c {
            Some(MemoryBankControllerType::Mmm01Ram)
        } else if code == 0x0d {
            Some(MemoryBankControllerType::Mmm01RamBattery)
        } else if code == 0x0f {
            Some(MemoryBankControllerType::Mbc3TimerBattery)
        } else if code == 0x10 {
            Some(MemoryBankControllerType::Mbc3TimerRamBattery)
        } else if code == 0x11 {
            Some(MemoryBankControllerType::Mbc3)
        } else if code == 0x12 {
            Some(MemoryBankControllerType::Mbc3Ram)
        } else if code == 0x13 {
            Some(MemoryBankControllerType::Mbc3RamBattery)
        } else if code == 0x19 {
            Some(MemoryBankControllerType::Mbc5)
        } else if code == 0x1a {
            Some(MemoryBankControllerType::Mbc5Ram)
        } else if code == 0x1b {
            Some(MemoryBankControllerType::Mbc5RamBattery)
        } else if code == 0x1c {
            Some(MemoryBankControllerType::Mbc5Rumble)
        } else if code == 0x1d {
            Some(MemoryBankControllerType::Mbc5RumbleRam)
        } else if code == 0x1e {
            Some(MemoryBankControllerType::Mbc5RumbleRamBattery)
        } else if code == 0x20 {
            Some(MemoryBankControllerType::Mbc6)
        } else if code == 0x22 {
            Some(MemoryBankControllerType::Mbc7SensorRumbleRamBattery)
        } else if code == 0xfc {
            Some(MemoryBankControllerType::PocketCamera)
        } else if code == 0xfd {
            Some(MemoryBankControllerType::BandaiTama5)
        } else if code == 0xfe {
            Some(MemoryBankControllerType::Huc3)
        } else if code == 0xff {
            Some(MemoryBankControllerType::Huc1RamBattery)
        } else {
            None
        }
    }

    /// Decode a cartridge-header byte into the bank-controller variant it
    /// names; an unlisted byte names no variant.
    pub fn from_code(code: u8) -> (r: Option<MemoryBankControllerType>)
        ensures
            r == MemoryBankControllerType::spec_from_code(code),
            match r {
                Some(t) => t.spec_code() == code,
                None => forall|t: MemoryBankControllerType| t.spec_code() != code,
            },
    {
        match code {
            0x00 => Some(MemoryBankControllerType::RomOnly),
            0x01 => Some(MemoryBankControllerType::Mbc1),
            0x02 => Some(MemoryBankControllerType::Mbc1Ram),
            0x03 => Some(MemoryBankControllerType::Mbc1RamBattery),
            0x05 => Some(MemoryBankControllerType::Mbc2),
            0x06 => Some(MemoryBankControllerType::Mbc2Battery),
            0x08 => Some(MemoryBankControllerType::RomRam),
            0x09 => Some(MemoryBankControllerType::RomRamBattery),
            0x0b => Some(MemoryBankControllerType::Mmm01),
            0x0c => Some(MemoryBankControllerType::Mmm01Ram),
            0x0d => Some(MemoryBankControllerType::Mmm01RamBattery),
            0x0f => Some(MemoryBankControllerType::Mbc3TimerBattery),
            0x10 => Some(MemoryBankControllerType::Mbc3TimerRamBattery),
            0x11 => Some(MemoryBankControllerType::Mbc3),
            0x12 => Some(MemoryBankControllerType::Mbc3Ram),
            0x13 => Some(MemoryBankControllerType::Mbc3RamBattery),
            0x19 => Some(MemoryBankControllerType::Mbc5),
            0x1a => Some(MemoryBankControllerType::Mbc5Ram),
            0x1b => Some(MemoryBankControllerType::Mbc5RamBattery),
            0x1c => Some(MemoryBankControllerType::Mbc5Rumble),
            0x1d => Some(MemoryBankControllerType::Mbc5RumbleRam),
            0x1e => Some(MemoryBankControllerType::Mbc5RumbleRamBattery),
            0x20 => Some(MemoryBankControllerType::Mbc6),
            0x22 => Some(MemoryBankControllerType::Mbc7SensorRumbleRamBattery),
            0xfc => Some(MemoryBankControllerType::PocketCamera),
            0xfd => Some(MemoryBankControllerType::BandaiTama5),
            0xfe => Some(MemoryBankControllerType::Huc3),
            0xff => Some(MemoryBankControllerType::Huc1RamBattery),
            _ => None,
        }
    }
}

/// The memory-bus capability: a 64KB byte space with a byte read and a
/// byte write, and a fixed per-address write policy.  A write to an
/// address the policy rejects is silently ignored; reads are always
/// answered.
pub trait MemoryBankController: Sized {
    /// The 64KB of bus-visible memory, one byte per address.
    spec fn mem(&self) -> Seq<u8>;

    /// Whether a write to `addr` lands in memory (true) or is ignored
    /// (false, the ROM-mapped region of a bank controller).
    spec fn writable(&self, addr: u16) -> bool;

    /// Well-formedness of the concrete bus.
    spec fn inv(&self) -> bool;

    /// A well-formed bus models the whole 16-bit address space.
    proof fn inv_mem_len(&self)
        requires
            self.inv(),
        ensures
            self.mem().len() == 0x10000,
    ;

    fn write(&mut self, addr: u16, value: u8)
        requires
            old(self).inv(),
        ensures
            final(self).inv(),
            final(self).mem() == (if old(self).writable(addr) {
                old(self).mem().update(addr as int, value)
            } else {
                old(self).mem()
            }),
            forall|a: u16| final(self).writable(a) == old(self).writable(a),
    ;

    fn read(&mut self, addr: u16) -> (r: u8)
        requires
            old(self).inv(),
        ensures
            final(self).inv(),
            final(self).mem() == old(self).mem(),
            forall|a: u16| final(self).writable(a) == old(self).writable(a),
            r == old(self).mem()[addr as int],
    ;

}

/// The write policy of a bus, as a predicate on addresses.
pub open spec fn write_policy<M: MemoryBankController>(b: M) -> spec_fn(u16) -> bool {
    |a: u16| b.writable(a)
}

/// Store a 16-bit value as two byte writes, low byte first, the high
/// byte one address higher (wrapping at the end of the space).
pub fn write_u16<M: MemoryBankController>(bus: &mut M, addr: u16, value: u16)
    requires
        old(bus).inv(),
    ensures
        final(bus).inv(),
        final(bus).mem() == mem_after_writes(
            old(bus).mem(),
            seq![(addr, spec_lo(value)), (addr.wrapping_add(1), spec_hi(value))],
            write_policy(*old(bus)),
        ),
        forall|a: u16| final(bus).writable(a) == old(bus).writable(a),
{
    let (lo, hi) = unmake_u16(value);
    bus.write(addr, lo);
    bus.write(addr.wrapping_add(1), hi);
    proof {
        let w = write_policy(*old(bus));
        let ws = seq![(addr, spec_lo(value)), (addr.wrapping_add(1), spec_hi(value))];
        reveal_with_fuel(mem_after_writes, 3);
        assert(ws.drop_last() =~= seq![(addr, spec_lo(value))]);
        assert(ws.drop_last().drop_last() =~= Seq::<(u16, u8)>::empty());
        assert(w(addr) == old(bus).writable(addr));
        assert(w(addr.wrapping_add(1)) == old(bus).writable(addr.wrapping_add(1)));
    }
}

/// Load a 16-bit value as two byte reads, low byte at `addr`, high byte
/// one address higher (wrapping at the end of the space).
pub fn read_u16<M: MemoryBankController>(bus: &mut M, addr: u16) -> (r: u16)
    requires
        old(bus).inv(),
    ensures
        final(bus).inv(),
        final(bus).mem() == old(bus).mem(),
        forall|a: u16| final(bus).writable(a) == old(bus).writable(a),
        r == spec_make_u16(
            old(bus).mem()[addr as int],
            old(bus).mem()[addr.wrapping_add(1) as int],
        ),
{
    let lo = bus.read(addr);
    let hi = bus.read(addr.wrapping_add(1));
    make_u16(lo, hi)
}

/// The memory after a list of byte writes is applied in order under the
/// write policy `w`: each write to an address that `w` admits updates that
/// byte, and each other write is ignored.
pub open spec fn mem_after_writes(m: Seq<u8>, ws: Seq<(u16, u8)>, w: spec_fn(u16) -> bool) -> Seq<
    u8,
>
    decreases ws.len(),
{
    if ws.len() == 0 {
        m
    } else {
        let prev = mem_after_writes(m, ws.drop_last(), w);
        let aw = ws.last();
        if w(aw.0) {
            prev.update(aw.0 as int, aw.1)
        } else {
            prev
        }
    }
}

/// Clip or zero-pad a byte vector to exactly `len` bytes.
fn fit_to_len(v: &mut Vec<u8>, len: usize)
    ensures
        final(v)@.len() == len,
        forall|i: int|
            0 <= i < len ==> final(v)@[i] == (if i < old(v)@.len() {
                old(v)@[i]
            } else {
                0u8
            }),
{
    v.truncate(len);
    while v.len() < len
        invariant
            v@.len() <= len,
            v@.len() < len ==> old(v)@.len() <= v@.len(),
            forall|i: int|
                0 <= i < v@.len() ==> v@[i] == (if i < old(v)@.len() {
                    old(v)@[i]
                } else {
                    0u8
                }),
        decreases len - v@.len(),
    {
        let ghost prev: Seq<u8> = v@;
        v.push(0);
        proof {
            assert forall|i: int|
                0 <= i < v@.len() implies v@[i] == (if i < old(v)@.len() {
                old(v)@[i]
            } else {
                0u8
            }) by {
                assert(v@ == prev.push(0u8));
                if i < prev.len() {
                    assert(prev.push(0u8)[i] == prev[i]);
                } else {
                    assert(prev.push(0u8)[i] == 0u8);
                }
            }
        }
    }
}

/// A flat RAM-backed bus: every address is ordinary memory and every
/// write lands.  Serves the no-bank-switching cartridge case and tests.
pub struct FlatMbc {
    memory: Vec<u8>,
}

impl FlatMbc {
    /// A flat bus whose memory starts with the given bytes (clipped to
    /// 64KB) and is zero beyond them.
    pub fn new(program: Vec<u8>) -> (r: FlatMbc)
        ensures
            r.inv(),
            forall|i: int|
                0 <= i < 0x10000 ==> r.mem()[i] == (if i < program@.len() {
                    program@[i]
                } else {
                    0u8
                }),
            forall|a: u16| r.writable(a),
    {
        let mut memory = program;
        fit_to_len(&mut memory, 0x10000);
        FlatMbc { memory }
    }
}

impl MemoryBankController for FlatMbc {
    closed spec fn mem(&self) -> Seq<u8> {
        self.memory@
    }

    closed spec fn writable(&self, addr: u16) -> bool {
        true
    }

    closed spec fn inv(&self) -> bool {
        self.memory@.len() == 0x10000
    }

    proof fn inv_mem_len(&self) {
    }

    fn write(&mut self, addr: u16, value: u8) {
        self.memory[addr as usize] = value;
    }

    fn read(&mut self, addr: u16) -> (r: u8) {
        self.memory[addr as usize]
    }
}

/// A bank-switching cartridge bus: the lower 32KB is the ROM image and
/// rejects writes silently; the upper 32KB is ordinary memory.
pub struct Mbc1 {
    rom: Vec<u8>,
    memory: Vec<u8>,
}

impl Mbc1 {
    /// A cartridge bus over the given ROM image: the image (clipped to
    /// 32KB, zero-padded when shorter) fills the ROM-mapped region, and
    /// the rest of the space starts zeroed.
    pub fn new(rom: Vec<u8>) -> (r: Mbc1)
        ensures
            r.inv(),
            forall|i: int|
                0 <= i < 0x8000 ==> r.mem()[i] == (if i < rom@.len() {
                    rom@[i]
                } else {
                    0u8
                }),
            forall|i: int| 0x8000 <= i < 0x10000 ==> r.mem()[i] == 0u8,
            forall|a: u16| r.writable(a) == (a >= 0x8000),
    {
        let mut rom = rom;
        fit_to_len(&mut rom, 0x8000);
        let mut memory: Vec<u8> = Vec::new();
        fit_to_len(&mut memory, 0x8000);
        let r = Mbc1 { rom, memory };
        proof {
            assert forall|i: int| 0 <= i < 0x10000 implies r.mem()[i] == (if i < 0x8000 {
                r.rom@[i]
            } else {
                r.memory@[i - 0x8000]
            }) by {
            }
        }
        r
    }
}

impl MemoryBankController for Mbc1 {
    closed spec fn mem(&self) -> Seq<u8> {
        self.rom@ + self.memory@
    }

    closed spec fn writable(&self, addr: u16) -> bool {
        addr >= 0x8000
    }

    closed spec fn inv(&self) -> bool {
        self.rom@.len() == 0x8000 && self.memory@.len() == 0x8000
    }

    proof fn inv_mem_len(&self) {
    }

    fn write(&mut self, addr: u16, value: u8) {
        if addr >= 0x8000 {
            self.memory[(addr - 0x8000) as usize] = value;
            proof {
                assert(final(self).mem() =~= old(self).mem().update(addr as int, value));
            }
        }
    }

    fn read(&mut self, addr: u16) -> (r: u8) {
        if addr < 0x8000 {
            self.rom[addr as usize]
        } else {
            self.memory[(addr - 0x8000) as usize]
        }
    }
}

} // verus!
