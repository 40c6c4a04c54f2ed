//! A program image to map into the address space.
use vstd::prelude::*;

verus! {

/// Program bytes that the bus maps from 0x8000 on.
pub struct Rom {
    pub prg_rom: Vec<u8>,
}

impl Rom {
    /// An image without program bytes.
    pub fn empty() -> (r: Rom)
        ensures
            r.prg_rom@.len() == 0,
    {
        Rom { prg_rom: Vec::new() }
    }
}

} // verus!
