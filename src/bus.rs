//! The memory behind the processor: a flat, writable 64 KiB address space.
use vstd::prelude::*;
use crate::cartridge::Rom;
use crate::cpu::Mem;

verus! {

pub const RAM_SIZE: usize = 0x10000;

/// Base address where a program image is mapped.
pub const PRG_BASE: u16 = 0x8000;

pub struct Bus {
    ram: [u8; RAM_SIZE],
}

impl Bus {
    pub closed spec fn ram_view(&self) -> Seq<u8> {
        self.ram@
    }

    pub proof fn lemma_size(&self)
        ensures
            self.memory().len() == 0x10000,
    {
    }

    /// Zeroed memory with the image's program bytes from 0x8000 on; bytes that
    /// would pass the end of the address space are left out.
    pub fn new(rom: Rom) -> (b: Bus)
        ensures
            b.memory().len() == 0x10000,
            forall|i: int|
                0 <= i < 0x10000 ==> #[trigger] b.memory()[i] == if 0x8000 <= i < 0x8000
                    + rom.prg_rom@.len() {
                    rom.prg_rom@[i - 0x8000]
                } else {
                    0u8
                },
    {
        let mut bus = Bus { ram: [0u8; RAM_SIZE] };
        let n: usize = if rom.prg_rom.len() < 0x8000 {
            rom.prg_rom.len()
        } else {
            0x8000
        };
        let mut i: usize = 0;
        while i < n
            invariant
                n <= 0x8000,
                n <= rom.prg_rom@.len(),
                n == rom.prg_rom@.len() || n == 0x8000,
                i <= n,
                bus.ram@.len() == 0x10000,
                forall|j: int|
                    0 <= j < 0x10000 ==> #[trigger] bus.ram@[j] == if 0x8000 <= j < 0x8000 + i {
                        rom.prg_rom@[j - 0x8000]
                    } else {
                        0u8
                    },
            decreases n - i,
        {
            bus.ram[0x8000 + i] = rom.prg_rom[i];
            i = i + 1;
        }
        bus
    }
}

impl Mem for Bus {
    open spec fn memory(&self) -> Seq<u8> {
        self.ram_view()
    }

    fn mem_read(&self, addr: u16) -> (r: u8) {
        proof {
            self.lemma_size();
        }
        self.ram[addr as usize]
    }

    fn mem_write(&mut self, addr: u16, data: u8) {
        proof {
            self.lemma_size();
        }
        self.ram[addr as usize] = data;
    }
}

} // verus!
