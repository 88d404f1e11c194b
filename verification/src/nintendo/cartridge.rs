//! Cartridges: the PRG and CHR address spaces a console plugs into the
//! memory map, with the NROM variants (fixed 16 or 32 KiB PRG-ROM,
//! mirrored when 16 KiB) and a null cartridge for a bare console.

use vstd::prelude::*;

use crate::memory::{Memory, ReadOnlyMemory};

verus! {

/// A cartridge: a PRG space the CPU sees from 0x8000 up and a CHR
/// space the PPU reads. Writes to either may be discarded (ROM); a
/// write never changes which addresses alias one another.
pub trait Cartridge: Sized {
    spec fn inv(&self) -> bool;

    spec fn spec_prg_read(&self, addr: u16) -> u8;

    spec fn spec_prg_writes(&self, addr: u16) -> Set<u16>;

    spec fn spec_chr_read(&self, addr: u16) -> u8;

    spec fn spec_chr_writes(&self, addr: u16) -> Set<u16>;

    fn prg_read(&self, addr: u16) -> (r: u8)
        requires
            self.inv(),
        ensures
            r == self.spec_prg_read(addr),
    ;

    fn prg_write(&mut self, addr: u16, data: u8)
        requires
            old(self).inv(),
        ensures
            final(self).inv(),
            forall|w: u16, a: u16|
                old(self).spec_prg_writes(w).contains(a) == final(self).spec_prg_writes(
                    w,
                ).contains(a),
            forall|w: u16, a: u16|
                old(self).spec_chr_writes(w).contains(a) == final(self).spec_chr_writes(
                    w,
                ).contains(a),
            forall|a: u16|
                final(self).spec_prg_read(a) == if old(self).spec_prg_writes(addr).contains(a) {
                    data
                } else {
                    old(self).spec_prg_read(a)
                },
            forall|a: u16| final(self).spec_chr_read(a) == old(self).spec_chr_read(a),
    ;

    fn chr_read(&self, addr: u16) -> (r: u8)
        requires
            self.inv(),
        ensures
            r == self.spec_chr_read(addr),
    ;

    fn chr_write(&mut self, addr: u16, data: u8)
        requires
            old(self).inv(),
        ensures
            final(self).inv(),
            forall|w: u16, a: u16|
                old(self).spec_prg_writes(w).contains(a) == final(self).spec_prg_writes(
                    w,
                ).contains(a),
            forall|w: u16, a: u16|
                old(self).spec_chr_writes(w).contains(a) == final(self).spec_chr_writes(
                    w,
                ).contains(a),
            forall|a: u16|
                final(self).spec_chr_read(a) == if old(self).spec_chr_writes(addr).contains(a) {
                    data
                } else {
                    old(self).spec_chr_read(a)
                },
            forall|a: u16| final(self).spec_prg_read(a) == old(self).spec_prg_read(a),
    ;
}

/// A memory that reads zero everywhere and discards writes; it reports
/// the length of an NES cartridge window.
#[derive(Debug, Clone)]
pub struct NullMemory;

impl Memory for NullMemory {
    open spec fn inv(&self) -> bool {
        true
    }

    open spec fn spec_read(&self, addr: u16) -> u8 {
        0
    }

    open spec fn spec_writes(&self, addr: u16) -> Set<u16> {
        Set::empty()
    }

    open spec fn spec_length(&self) -> usize {
        0xbfe0
    }

    fn read(&self, addr: u16) -> (r: u8) {
        0
    }

    fn write(&mut self, addr: u16, data: u8) {
        proof {
            assert(forall|a: u16| !self.spec_writes(addr).contains(a));
        }
    }

    fn length(&self) -> (r: usize) {
        0xbfe0
    }
}

/// A cartridge with nothing in it: all reads zero, all writes
/// discarded.
#[derive(Debug, Clone)]
pub struct NullCartridge {
    pub memory: NullMemory,
    pub chr_rom: NullMemory,
}

impl Cartridge for NullCartridge {
    open spec fn inv(&self) -> bool {
        true
    }

    open spec fn spec_prg_read(&self, addr: u16) -> u8 {
        0
    }

    open spec fn spec_prg_writes(&self, addr: u16) -> Set<u16> {
        Set::empty()
    }

    open spec fn spec_chr_read(&self, addr: u16) -> u8 {
        0
    }

    open spec fn spec_chr_writes(&self, addr: u16) -> Set<u16> {
        Set::empty()
    }

    fn prg_read(&self, addr: u16) -> (r: u8) {
        0
    }

    fn prg_write(&mut self, addr: u16, data: u8) {
        proof {
            assert(forall|a: u16| !self.spec_prg_writes(addr).contains(a));
        }
    }

    fn chr_read(&self, addr: u16) -> (r: u8) {
        0
    }

    fn chr_write(&mut self, addr: u16, data: u8) {
        proof {
            assert(forall|a: u16| !self.spec_chr_writes(addr).contains(a));
        }
    }
}

/// 32 KiB of PRG-ROM mapped at 0x8000 through 0xFFFF; reads below
/// 0x8000 yield zero, writes are discarded.
pub struct NROM32KBMemory {
    pub prg_memory: Vec<u8>,
}

impl NROM32KBMemory {
    pub fn new(prg_bytes: Vec<u8>) -> (r: Self)
        requires
            prg_bytes.len() == 0x8000,
        ensures
            r.inv(),
            r.prg_memory == prg_bytes,
    {
        NROM32KBMemory { prg_memory: prg_bytes }
    }
}

impl Memory for NROM32KBMemory {
    open spec fn inv(&self) -> bool {
        self.prg_memory.len() == 0x8000
    }

    open spec fn spec_read(&self, addr: u16) -> u8 {
        if addr < 0x8000 {
            0
        } else {
            self.prg_memory[addr - 0x8000]
        }
    }

    open spec fn spec_writes(&self, addr: u16) -> Set<u16> {
        Set::empty()
    }

    open spec fn spec_length(&self) -> usize {
        0xbfe0
    }

    fn read(&self, addr: u16) -> (r: u8) {
        if addr < 0x8000 {
            0
        } else {
            self.prg_memory[(addr - 0x8000) as usize]
        }
    }

    fn write(&mut self, addr: u16, data: u8) {
        proof {
            assert(forall|a: u16| !self.spec_writes(addr).contains(a));
        }
    }

    fn length(&self) -> (r: usize) {
        0xbfe0
    }
}

/// 16 KiB of PRG-ROM mapped at 0x8000 and mirrored again at 0xC000;
/// reads below 0x8000 yield zero, writes are discarded.
pub struct NROM16KBMemory {
    pub prg_memory: Vec<u8>,
}

impl NROM16KBMemory {
    pub fn new(prg_bytes: Vec<u8>) -> (r: Self)
        requires
            prg_bytes.len() == 0x4000,
        ensures
            r.inv(),
            r.prg_memory == prg_bytes,
    {
        NROM16KBMemory { prg_memory: prg_bytes }
    }
}

impl Memory for NROM16KBMemory {
    open spec fn inv(&self) -> bool {
        self.prg_memory.len() == 0x4000
    }

    open spec fn spec_read(&self, addr: u16) -> u8 {
        if addr < 0x8000 {
            0
        } else if addr < 0xc000 {
            self.prg_memory[addr - 0x8000]
        } else {
            self.prg_memory[addr - 0xc000]
        }
    }

    open spec fn spec_writes(&self, addr: u16) -> Set<u16> {
        Set::empty()
    }

    open spec fn spec_length(&self) -> usize {
        0xbfe0
    }

    fn read(&self, addr: u16) -> (r: u8) {
        if addr < 0x8000 {
            0
        } else if addr < 0xc000 {
            self.prg_memory[(addr - 0x8000) as usize]
        } else {
            self.prg_memory[(addr - 0xc000) as usize]
        }
    }

    fn write(&mut self, addr: u16, data: u8) {
        proof {
            assert(forall|a: u16| !self.spec_writes(addr).contains(a));
        }
    }

    fn length(&self) -> (r: usize) {
        0xbfe0
    }
}

/// The PRG-ROM of an NROM cartridge: either size.
pub enum NromPrg {
    Prg16(NROM16KBMemory),
    Prg32(NROM32KBMemory),
}

impl Memory for NromPrg {
    open spec fn inv(&self) -> bool {
        match self {
            NromPrg::Prg16(m) => m.inv(),
            NromPrg::Prg32(m) => m.inv(),
        }
    }

    open spec fn spec_read(&self, addr: u16) -> u8 {
        match self {
            NromPrg::Prg16(m) => m.spec_read(addr),
            NromPrg::Prg32(m) => m.spec_read(addr),
        }
    }

    open spec fn spec_writes(&self, addr: u16) -> Set<u16> {
        Set::empty()
    }

    open spec fn spec_length(&self) -> usize {
        0xbfe0
    }

    fn read(&self, addr: u16) -> (r: u8) {
        match self {
            NromPrg::Prg16(m) => m.read(addr),
            NromPrg::Prg32(m) => m.read(addr),
        }
    }

    fn write(&mut self, addr: u16, data: u8) {
        proof {
            assert(forall|a: u16| !self.spec_writes(addr).contains(a));
        }
    }

    fn length(&self) -> (r: usize) {
        0xbfe0
    }
}

/// The simplest NES cartridge: fixed PRG-ROM (16 or 32 KiB) and fixed
/// CHR-ROM, no mapper logic.
pub struct NROMCartridge {
    pub prg_rom: NromPrg,
    pub chr_rom: ReadOnlyMemory,
}

impl NROMCartridge {
    /// Build an NROM cartridge from its PRG and CHR images. The PRG
    /// image must be exactly 16 or 32 KiB.
    pub fn new(prg_bytes: Vec<u8>, chr_bytes: Vec<u8>) -> (r: Self)
        requires
            prg_bytes.len() == 0x4000 || prg_bytes.len() == 0x8000,
        ensures
            r.inv(),
            forall|a: u16|
                r.spec_prg_read(a) == if a < 0x8000 {
                    0u8
                } else {
                    prg_bytes[(a - 0x8000) as int % prg_bytes.len() as int]
                },
            forall|a: u16|
                r.spec_chr_read(a) == if (a as int) < chr_bytes.len() {
                    chr_bytes[a as int]
                } else {
                    0u8
                },
    {
        let prg_rom = if prg_bytes.len() == 0x4000 {
            NromPrg::Prg16(NROM16KBMemory::new(prg_bytes))
        } else {
            NromPrg::Prg32(NROM32KBMemory::new(prg_bytes))
        };
        let r = NROMCartridge { prg_rom, chr_rom: ReadOnlyMemory::from_contents(chr_bytes) };
        proof {
            assert forall|a: u16| a >= 0x8000 implies r.spec_prg_read(a) == prg_bytes[(a
                - 0x8000) as int % prg_bytes.len() as int] by {
                if prg_bytes.len() == 0x4000 {
                    if a < 0xc000 {
                        vstd::arithmetic::div_mod::lemma_small_mod(
                            (a - 0x8000) as nat,
                            0x4000nat,
                        );
                    } else {
                        vstd::arithmetic::div_mod::lemma_mod_add_multiples_vanish(
                            (a - 0xc000) as int,
                            0x4000,
                        );
                        vstd::arithmetic::div_mod::lemma_small_mod(
                            (a - 0xc000) as nat,
                            0x4000nat,
                        );
                    }
                } else {
                    vstd::arithmetic::div_mod::lemma_small_mod((a - 0x8000) as nat, 0x8000nat);
                }
            }
        }
        r
    }
}

impl Cartridge for NROMCartridge {
    open spec fn inv(&self) -> bool {
        self.prg_rom.inv()
    }

    open spec fn spec_prg_read(&self, addr: u16) -> u8 {
        self.prg_rom.spec_read(addr)
    }

    open spec fn spec_prg_writes(&self, addr: u16) -> Set<u16> {
        Set::empty()
    }

    open spec fn spec_chr_read(&self, addr: u16) -> u8 {
        self.chr_rom.spec_read(addr)
    }

    open spec fn spec_chr_writes(&self, addr: u16) -> Set<u16> {
        Set::empty()
    }

    fn prg_read(&self, addr: u16) -> (r: u8) {
        self.prg_rom.read(addr)
    }

    fn prg_write(&mut self, addr: u16, data: u8) {
        self.prg_rom.write(addr, data);
        proof {
            assert(forall|a: u16| !self.spec_prg_writes(addr).contains(a));
        }
    }

    fn chr_read(&self, addr: u16) -> (r: u8) {
        self.chr_rom.read(addr)
    }

    fn chr_write(&mut self, addr: u16, data: u8) {
        self.chr_rom.write(addr, data);
        proof {
            assert(forall|a: u16| !self.spec_chr_writes(addr).contains(a));
        }
    }
}

} // verus!
