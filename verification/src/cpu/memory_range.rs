//! A closed interval of bus addresses, used to describe the fixed regions
//! of the 64KB address map (ROM banks, video RAM, working RAM, I/O
//! registers and the rest).

use vstd::prelude::*;

verus! {

pub struct MemoryRange {
    pub low_range: u16,
    pub high_range: u16,
    pub size: usize,
}

impl MemoryRange {
    pub fn new(low_range: u16, high_range: u16) -> (r: MemoryRange)
        requires
            low_range <= high_range,
        ensures
            r == (MemoryRange {
                low_range,
                high_range,
                size: (high_range - low_range) as usize,
            }),
    {
        MemoryRange { low_range, high_range, size: (high_range - low_range) as usize }
    }

    pub fn in_range(&self, addr: u16) -> (r: bool)
        ensures
            r == (self.low_range <= addr && addr <= self.high_range),
    {
        addr >= self.low_range && addr <= self.high_range
    }
}

} // verus!
