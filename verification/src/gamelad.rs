//! One emulation session: a CPU together with the cartridge bus built
//! from a ROM image.
//!
//! The session constructor performs the one piece of cartridge-header
//! parsing in scope: the byte at offset 0x147 of the image selects the
//! bank-controller variant, and an image that is too short to hold it,
//! or that names an unknown variant, is a fatal load-time fault.

use vstd::prelude::*;

use crate::cpu::CPU;
use crate::cpu::mbc::Mbc1;
use crate::cpu::mbc::MemoryBankController;
use crate::cpu::mbc::MemoryBankControllerType;
use crate::cpu::mbc::mem_after_writes;
use crate::cpu::mbc::write_policy;
use crate::cpu::opcodes::StepError;
use crate::cpu::opcodes::spec_step;

verus! {

/// The offset of the cartridge-header byte that selects the
/// bank-controller variant.
pub const MBC_TYPE_OFFSET: usize = 0x147;

/// A fatal load-time fault of the session constructor.
#[derive(Debug, Copy, Clone, PartialEq, Eq, Structural)]
pub enum LoadError {
    /// The image is too short to hold the header byte that selects the
    /// bank-controller variant.
    RomTooShort,
    /// The header byte names no bank-controller variant.
    UnknownMbcType(u8),
}

pub struct Gamelad {
    pub cpu: CPU,
    pub mbc: Mbc1,
    pub mbc_type: MemoryBankControllerType,
}

impl Gamelad {
    /// A session is well-formed when its bus is.
    pub open spec fn wf(self) -> bool {
        self.mbc.inv()
    }

    /// Build a session from a raw cartridge image.  Returns the fault
    /// when the image cannot hold the header byte at 0x147 or when that
    /// byte names no bank-controller variant; otherwise the CPU starts
    /// at the cartridge entry point 0x100 and the image fills the
    /// ROM-mapped region of the bus.
    pub fn from_rom(rom: Vec<u8>) -> (r: Result<Gamelad, LoadError>)
        ensures
            rom@.len() <= MBC_TYPE_OFFSET ==> r == Err::<Gamelad, LoadError>(
                LoadError::RomTooShort,
            ),
            rom@.len() > MBC_TYPE_OFFSET ==> (match MemoryBankControllerType::spec_from_code(
                rom@[MBC_TYPE_OFFSET as int],
            ) {
                Some(t) => (match r {
                    Ok(g) => {
                        &&& g.wf()
                        &&& g.mbc_type == t
                        &&& g.cpu == (CPU {
                            a: 0,
                            f: 0,
                            b: 0,
                            c: 0,
                            d: 0,
                            e: 0,
                            h: 0,
                            l: 0,
                            pc: 0x100,
                            cycle_delay: 0,
                            ime: 0,
                            sp: 0xfffe,
                            stopped: false,
                        })
                        &&& forall|i: int|
                            0 <= i < 0x8000 ==> g.mbc.mem()[i] == (if i < rom@.len() {
                                rom@[i]
                            } else {
                                0u8
                            })
                        &&& forall|i: int| 0x8000 <= i < 0x10000 ==> g.mbc.mem()[i] == 0u8
                        &&& forall|a: u16| g.mbc.writable(a) == (a >= 0x8000)
                    },
                    Err(_) => false,
                }),
                None => r == Err::<Gamelad, LoadError>(
                    LoadError::UnknownMbcType(rom@[MBC_TYPE_OFFSET as int]),
                ),
            }),
    {
        if rom.len() <= MBC_TYPE_OFFSET {
            return Err(LoadError::RomTooShort);
        }
        let mbc_byte = rom[MBC_TYPE_OFFSET];
        let mbc_type = match MemoryBankControllerType::from_code(mbc_byte) {
            Some(t) => t,
            None => {
                return Err(LoadError::UnknownMbcType(mbc_byte));
            },
        };

        let mut cpu = CPU::new();
        cpu.pc = 0x100;

        Ok(Gamelad { cpu, mbc: Mbc1::new(rom), mbc_type })
    }

    /// Assign the architectural reset values that stand in for boot-ROM
    /// execution: AF 0x01b0, BC 0x0013, DE 0x01d8, HL 0x014d and the
    /// stack pointer at 0xfffe.
    pub fn reset(&mut self)
        ensures
            final(self).cpu == (CPU {
                a: 0x01,
                f: 0xb0,
                b: 0x00,
                c: 0x13,
                d: 0x01,
                e: 0xd8,
                h: 0x01,
                l: 0x4d,
                sp: 0xfffe,
                ..old(self).cpu
            }),
            final(self).mbc == old(self).mbc,
            final(self).mbc_type == old(self).mbc_type,
    {
        self.cpu.set_af(0x01b0);
        self.cpu.set_bc(0x0013);
        self.cpu.set_de(0x01d8);
        self.cpu.set_hl(0x014d);
        self.cpu.sp = 0xfffe;
    }

    /// Execute one instruction of the session, per the dispatcher's
    /// spec model.
    pub fn step_once(&mut self) -> (r: Result<(), StepError>)
        requires
            old(self).wf(),
        ensures
            final(self).wf(),
            final(self).mbc_type == old(self).mbc_type,
            ({
                let eff = spec_step(old(self).cpu, old(self).mbc.mem());
                &&& final(self).cpu == eff.cpu
                &&& final(self).mbc.mem() == mem_after_writes(
                    old(self).mbc.mem(),
                    eff.writes,
                    write_policy(old(self).mbc),
                )
                &&& r == (match eff.fault {
                    Some(op) => Err::<(), StepError>(StepError::Unimplemented(op)),
                    None => Ok::<(), StepError>(()),
                })
            }),
    {
        self.cpu.step(&mut self.mbc)
    }
}

} // verus!
